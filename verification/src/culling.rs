use vstd::prelude::*;

verus! {

/// The elements of `s` whose mark in `marks` (same position) equals
/// `wanted`, in the order they had.
pub open spec fn select<T>(s: Seq<T>, marks: Seq<bool>, wanted: bool) -> Seq<T>
    decreases s.len(),
{
    if s.len() == 0 {
        Seq::empty()
    } else {
        let rest = select(s.drop_last(), marks, wanted);
        if marks[s.len() - 1] == wanted {
            rest.push(s.last())
        } else {
            rest
        }
    }
}

/// Splitting a sequence by its marks loses and invents nothing: the two
/// parts together are exactly as long as the whole.
pub proof fn lemma_select_partitions<T>(s: Seq<T>, marks: Seq<bool>)
    ensures
        select(s, marks, true).len() + select(s, marks, false).len() == s.len(),
    decreases s.len(),
{
    if s.len() > 0 {
        lemma_select_partitions(s.drop_last(), marks);
    }
}

/// With no element marked, selecting the unmarked elements gives the whole
/// sequence back and selecting the marked ones gives nothing; with every
/// element marked it is the other way round.
pub proof fn lemma_select_uniform_marks<T>(s: Seq<T>, marks: Seq<bool>, mark: bool)
    requires
        forall|i: int| 0 <= i < s.len() ==> marks[i] == mark,
    ensures
        select(s, marks, mark) == s,
        select(s, marks, !mark) == Seq::<T>::empty(),
    decreases s.len(),
{
    if s.len() > 0 {
        lemma_select_uniform_marks(s.drop_last(), marks, mark);
        assert(s.drop_last().push(s.last()) =~= s);
    }
}

/// Every selected element sits at a position of the sequence that carries
/// the wanted mark, and the selection is never longer than the sequence.
pub proof fn lemma_select_from_marked_positions<T>(s: Seq<T>, marks: Seq<bool>, wanted: bool)
    ensures
        select(s, marks, wanted).len() <= s.len(),
        forall|j: int|
            #![trigger select(s, marks, wanted)[j]]
            0 <= j < select(s, marks, wanted).len() ==> exists|i: int|
                #![trigger s[i]]
                0 <= i < s.len() && marks[i] == wanted && select(s, marks, wanted)[j] == s[i],
    decreases s.len(),
{
    if s.len() > 0 {
        let rest = s.drop_last();
        lemma_select_from_marked_positions(rest, marks, wanted);
        assert forall|j: int|
            #![trigger select(s, marks, wanted)[j]]
            0 <= j < select(s, marks, wanted).len() implies exists|i: int|
                #![trigger s[i]]
                0 <= i < s.len() && marks[i] == wanted && select(s, marks, wanted)[j] == s[i] by {
            if j < select(rest, marks, wanted).len() {
                let i = choose|i: int|
                    #![trigger rest[i]]
                    0 <= i < rest.len() && marks[i] == wanted && select(rest, marks, wanted)[j]
                        == rest[i];
                assert(rest[i] == s[i]);
                assert(select(s, marks, wanted)[j] == s[i]);
            } else {
                assert(select(s, marks, wanted)[j] == s[s.len() - 1]);
            }
        }
    }
}

/// Removes from `items` every element whose mark is set and returns the
/// removed elements; both the removed and the remaining elements keep their
/// order.
pub fn take_marked<T>(items: &mut Vec<T>, marks: &Vec<bool>) -> (taken: Vec<T>)
    requires
        marks@.len() == old(items)@.len(),
    ensures
        taken@ == select(old(items)@, marks@, true),
        final(items)@ == select(old(items)@, marks@, false),
{
    let ghost initial = items@;
    let mut taken: Vec<T> = Vec::new();
    let mut i: usize = 0;
    let mut k: usize = 0;
    assert(initial.take(0) =~= Seq::<T>::empty());
    assert(initial.skip(0) =~= initial);
    while k < marks.len()
        invariant
            marks@.len() == initial.len(),
            0 <= k <= initial.len(),
            taken@ == select(initial.take(k as int), marks@, true),
            items@ == select(initial.take(k as int), marks@, false) + initial.skip(k as int),
            i == select(initial.take(k as int), marks@, false).len(),
        decreases initial.len() - k,
    {
        let ghost before = items@;
        assert(initial.take(k + 1).drop_last() =~= initial.take(k as int));
        assert(initial.take(k + 1).last() == initial[k as int]);
        assert(before[i as int] == initial[k as int]);
        if marks[k] {
            let item = items.remove(i);
            taken.push(item);
            assert(items@ =~= select(initial.take(k + 1), marks@, false) + initial.skip(k + 1));
        } else {
            proof {
                lemma_select_partitions(initial.take(k as int), marks@);
            }
            assert(items@ =~= select(initial.take(k + 1), marks@, false) + initial.skip(k + 1));
            i = i + 1;
        }
        k = k + 1;
    }
    assert(initial.take(initial.len() as int) =~= initial);
    assert(items@ =~= select(initial, marks@, false));
    taken
}

} // verus!
