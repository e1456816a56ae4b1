//! The figures computed when a station is spawned: its icon, how many trade and production
//! slots share its inventory, and the initial stock.
use crate::ship_tasks::ItemId;
use vstd::prelude::*;

verus! {

/// How full the initial stock of bought and sold items is: one part in this many.
pub const FILL_RATIO: u32 = 2;

/// The icon shown on a station.
#[derive(PartialEq, Eq, Structural, Copy, Clone, Debug)]
pub enum StationIcon {
    /// The icon of the first item the station sells.
    Item(ItemId),
    /// A ship icon, for shipyards that sell nothing.
    Ship,
    /// The icon for stations that neither sell anything nor build ships.
    Unknown,
}

/// The icon of a station selling `sells` that does (or does not) have a shipyard.
pub open spec fn station_icon_of(sells: Seq<ItemId>, has_shipyard: bool) -> StationIcon {
    if sells.len() > 0 {
        StationIcon::Item(sells[0])
    } else if has_shipyard {
        StationIcon::Ship
    } else {
        StationIcon::Unknown
    }
}

/// Picks the icon of a station from what it sells and whether it has a shipyard.
pub fn station_icon(sells: &Vec<ItemId>, has_shipyard: bool) -> (icon: StationIcon)
    ensures
        icon == station_icon_of(sells@, has_shipyard),
{
    if sells.len() > 0 {
        StationIcon::Item(sells[0])
    } else if has_shipyard {
        StationIcon::Ship
    } else {
        StationIcon::Unknown
    }
}

/// The sum of a sequence of counts.
pub open spec fn sum_counts(counts: Seq<usize>) -> int
    decreases counts.len(),
{
    if counts.len() == 0 {
        0
    } else {
        sum_counts(counts.drop_last()) + counts.last()
    }
}

/// A prefix of counts never sums to more than all of them.
pub proof fn lemma_sum_counts_prefix(counts: Seq<usize>, i: int)
    requires
        0 <= i <= counts.len(),
    ensures
        sum_counts(counts.subrange(0, i)) <= sum_counts(counts),
        sum_counts(counts.subrange(0, i)) >= 0,
    decreases counts.len() - i,
{
    if i < counts.len() {
        lemma_sum_counts_prefix(counts, i + 1);
        assert(counts.subrange(0, i + 1).drop_last() =~= counts.subrange(0, i));
        lemma_sum_counts_nonnegative(counts.subrange(0, i));
    } else {
        assert(counts.subrange(0, i) =~= counts);
        lemma_sum_counts_nonnegative(counts);
    }
}

/// Counts never sum to less than zero.
pub proof fn lemma_sum_counts_nonnegative(counts: Seq<usize>)
    ensures
        sum_counts(counts) >= 0,
    decreases counts.len(),
{
    if counts.len() > 0 {
        lemma_sum_counts_nonnegative(counts.drop_last());
    }
}

/// How many item slots share a station's inventory: one per bought and one per sold item, and
/// one per output of every queued production recipe (items that appear several times are
/// counted several times). `outputs_per_queued_recipe` holds the number of outputs of each
/// queued recipe.
pub fn buy_sell_and_production_count(
    buys: usize,
    sells: usize,
    outputs_per_queued_recipe: &Vec<usize>,
) -> (count: u32)
    requires
        buys + sells + sum_counts(outputs_per_queued_recipe@) <= u32::MAX,
    ensures
        count == buys + sells + sum_counts(outputs_per_queued_recipe@),
{
    proof {
        lemma_sum_counts_nonnegative(outputs_per_queued_recipe@);
    }
    let mut count: u32 = (buys + sells) as u32;
    let n: usize = outputs_per_queued_recipe.len();
    let mut i: usize = 0;
    while i < n
        invariant
            i <= n,
            n == outputs_per_queued_recipe@.len(),
            buys + sells + sum_counts(outputs_per_queued_recipe@) <= u32::MAX,
            count == buys + sells + sum_counts(outputs_per_queued_recipe@.subrange(0, i as int)),
        decreases n - i,
    {
        proof {
            lemma_sum_counts_prefix(outputs_per_queued_recipe@, i + 1);
            assert(outputs_per_queued_recipe@.subrange(0, i + 1).drop_last()
                =~= outputs_per_queued_recipe@.subrange(0, i as int));
        }
        count = count + outputs_per_queued_recipe[i] as u32;
        i = i + 1;
    }
    proof {
        assert(outputs_per_queued_recipe@.subrange(0, n as int) =~= outputs_per_queued_recipe@);
    }
    count
}

/// The initial stock of a bought or sold item: its share of the inventory, in units of the
/// item's size, filled to one part in [FILL_RATIO].
pub fn initial_stock_amount(inventory_size: u32, slot_count: u32, item_size: u32) -> (amount: u32)
    requires
        slot_count > 0,
        item_size > 0,
    ensures
        amount == inventory_size as int / slot_count as int / item_size as int / FILL_RATIO as int,
{
    inventory_size / slot_count / item_size / FILL_RATIO
}

/// The storage reserved for a produced item: its full share of the inventory, in units of the
/// item's size.
pub fn production_reservation_amount(inventory_size: u32, slot_count: u32, item_size: u32) -> (amount:
    u32)
    requires
        slot_count > 0,
        item_size > 0,
    ensures
        amount == inventory_size as int / slot_count as int / item_size as int,
{
    inventory_size / slot_count / item_size
}

/// Which parts a new station is spawned with.
#[derive(PartialEq, Eq, Structural, Copy, Clone, Debug)]
pub struct StationSpawnPlan {
    /// Buy orders, for a station that buys something.
    pub buy_orders: bool,
    /// Sell orders, for a station that sells something.
    pub sell_orders: bool,
    /// A production facility, where the spawn data has one.
    pub production: bool,
    /// A shipyard, where the spawn data has one.
    pub shipyard: bool,
    /// A constant orbit around the sector's centre of mass, where the sector has celestials.
    pub orbit: bool,
    /// A construction site, where the spawn data has one.
    pub construction_site: bool,
    /// An orbit for the construction site too, where both exist.
    pub construction_site_orbit: bool,
}

/// Decides which parts a station gets from the number of items it buys and sells, whether its
/// spawn data holds a production facility, a shipyard and a construction site, and whether its
/// sector has celestials.
pub fn station_spawn_plan(
    buys: usize,
    sells: usize,
    has_production: bool,
    has_shipyard: bool,
    has_construction_site: bool,
    sector_has_celestials: bool,
) -> (plan: StationSpawnPlan)
    ensures
        plan.buy_orders == (buys > 0),
        plan.sell_orders == (sells > 0),
        plan.production == has_production,
        plan.shipyard == has_shipyard,
        plan.orbit == sector_has_celestials,
        plan.construction_site == has_construction_site,
        plan.construction_site_orbit == (has_construction_site && sector_has_celestials),
{
    StationSpawnPlan {
        buy_orders: buys > 0,
        sell_orders: sells > 0,
        production: has_production,
        shipyard: has_shipyard,
        orbit: sector_has_celestials,
        construction_site: has_construction_site,
        construction_site_orbit: has_construction_site && sector_has_celestials,
    }
}

/// A station shows the icon of the first item it sells; a station selling nothing shows a ship
/// if it has a shipyard and the unknown icon otherwise.
pub proof fn law_station_icon(sells: Seq<ItemId>, has_shipyard: bool)
    ensures
        sells.len() > 0 ==> station_icon_of(sells, has_shipyard) == StationIcon::Item(sells[0]),
        sells.len() == 0 && has_shipyard ==> station_icon_of(sells, has_shipyard)
            == StationIcon::Ship,
        sells.len() == 0 && !has_shipyard ==> station_icon_of(sells, has_shipyard)
            == StationIcon::Unknown,
{
}

/// Counts add up: no counts sum to 0, a single count sums to itself, and the counts of two
/// lists together sum to the sum of each.
pub proof fn law_sum_counts(a: Seq<usize>, b: Seq<usize>, x: usize)
    ensures
        sum_counts(Seq::<usize>::empty()) == 0,
        sum_counts(seq![x]) == x,
        sum_counts(a + b) == sum_counts(a) + sum_counts(b),
    decreases b.len(),
{
    assert(seq![x].drop_last() =~= Seq::<usize>::empty());
    assert(sum_counts(seq![x].drop_last()) == 0);
    assert(seq![x].last() == x);
    if b.len() == 0 {
        assert(a + b =~= a);
    } else {
        law_sum_counts(a, b.drop_last(), x);
        assert((a + b).drop_last() =~= a + b.drop_last());
    }
}

} // verus!
