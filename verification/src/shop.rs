use vstd::prelude::*;

verus! {

/// The upgrades that can be bought between waves.
#[derive(Clone, Copy, PartialEq, Eq, Debug, Structural)]
pub enum UpgradeKind {
    Heal,
    Speed,
    Damage,
    FireRate,
}

/// One entry of the wave shop: what it does, how it is shown, what it costs.
pub struct Upgrade {
    pub kind: UpgradeKind,
    pub name: &'static str,
    pub description: &'static str,
    pub cost: i32,
}

/// The shop's offer, in the order in which it is listed.
pub open spec fn catalogue() -> Seq<Upgrade> {
    seq![
        Upgrade { kind: UpgradeKind::Heal, name: "Heal", description: "+30 HP", cost: 3 },
        Upgrade { kind: UpgradeKind::Speed, name: "Speed", description: "+15 move speed", cost: 4 },
        Upgrade {
            kind: UpgradeKind::Damage,
            name: "Damage",
            description: "+10 projectile damage",
            cost: 5,
        },
        Upgrade {
            kind: UpgradeKind::FireRate,
            name: "Fire Rate",
            description: "+1 shot/sec",
            cost: 6,
        },
    ]
}

/// The cost of the first entry of `table` that sells `kind`, or `0` when no
/// entry does.
pub open spec fn first_cost(table: Seq<Upgrade>, kind: UpgradeKind) -> int
    decreases table.len(),
{
    if table.len() == 0 {
        0
    } else if table[0].kind == kind {
        table[0].cost as int
    } else {
        first_cost(table.drop_first(), kind)
    }
}

/// The price of each upgrade, in materials.
pub open spec fn cost_of(kind: UpgradeKind) -> int {
    match kind {
        UpgradeKind::Heal => 3,
        UpgradeKind::Speed => 4,
        UpgradeKind::Damage => 5,
        UpgradeKind::FireRate => 6,
    }
}

/// Every upgrade is on offer, at the price `cost_of` gives it.
pub proof fn lemma_catalogue_costs(kind: UpgradeKind)
    ensures
        first_cost(catalogue(), kind) == cost_of(kind),
{
    reveal_with_fuel(first_cost, 5);
}

/// Builds the shop's offer.
pub fn upgrades() -> (table: Vec<Upgrade>)
    ensures
        table@ == catalogue(),
{
    let mut table: Vec<Upgrade> = Vec::new();
    table.push(Upgrade { kind: UpgradeKind::Heal, name: "Heal", description: "+30 HP", cost: 3 });
    table.push(
        Upgrade { kind: UpgradeKind::Speed, name: "Speed", description: "+15 move speed", cost: 4 },
    );
    table.push(
        Upgrade {
            kind: UpgradeKind::Damage,
            name: "Damage",
            description: "+10 projectile damage",
            cost: 5,
        },
    );
    table.push(
        Upgrade {
            kind: UpgradeKind::FireRate,
            name: "Fire Rate",
            description: "+1 shot/sec",
            cost: 6,
        },
    );
    assert(table@ =~= catalogue());
    table
}

/// Looks `kind` up in the shop's offer and returns the cost of the first
/// entry that sells it (`0` if none did).
pub fn upgrade_cost(kind: UpgradeKind) -> (cost: i32)
    ensures
        cost == first_cost(catalogue(), kind),
        cost == cost_of(kind),
{
    let table = upgrades();
    proof {
        lemma_catalogue_costs(kind);
        assert(table@.skip(0) =~= table@);
    }
    let mut i: usize = 0;
    while i < table.len()
        invariant
            table@ == catalogue(),
            0 <= i <= table@.len(),
            first_cost(catalogue(), kind) == first_cost(table@.skip(i as int), kind),
            first_cost(catalogue(), kind) == cost_of(kind),
        decreases table@.len() - i,
    {
        assert(table@.skip(i as int).drop_first() =~= table@.skip(i + 1));
        if table[i].kind == kind {
            return table[i].cost;
        }
        i = i + 1;
    }
    0
}

} // verus!
