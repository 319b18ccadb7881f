//! Looking up how the units that a tracker event touched are drawn.

use std::collections::HashMap;
use vstd::prelude::*;
use crate::colors::{get_unit_sized_color, unit_look, UnitLook};
use crate::timeline::TrackerEventKind;

verus! {

/// The owner id that a unit without a known owner is coloured by.
pub const UNKNOWN_OWNER: u8 = 99;

/// What the classification reads of a unit in the replay state.
#[derive(Clone, Debug)]
pub struct UnitRecord {
    pub name: String,
    pub user_id: Option<u8>,
}

/// A unit to draw: its tag and how it looks.
#[derive(Clone, Copy, Debug, PartialEq, Eq, Structural)]
pub struct UnitDraw {
    pub tag: u32,
    pub look: UnitLook,
}

/// The participant a unit is coloured by.
pub open spec fn owner_of(user_id: Option<u8>) -> i64 {
    match user_id {
        Some(id) => id as i64,
        None => UNKNOWN_OWNER as i64,
    }
}

/// For each tag in order that names a unit of the state, the unit's tag and
/// look; tags of no known unit are passed over.
pub open spec fn unit_draws(units: Map<u32, UnitRecord>, tags: Seq<u32>) -> Seq<UnitDraw>
    decreases tags.len(),
{
    if tags.len() == 0 {
        Seq::empty()
    } else {
        let earlier = unit_draws(units, tags.drop_last());
        let tag = tags.last();
        if units.contains_key(tag) {
            earlier.push(
                UnitDraw {
                    tag,
                    look: unit_look(units[tag].name@, owner_of(units[tag].user_id)),
                },
            )
        } else {
            earlier
        }
    }
}

/// How each updated unit that the state knows is drawn, in the order of the
/// updates.
pub fn register_unit_init(units: &HashMap<u32, UnitRecord>, updated_units: Vec<u32>) -> (r: Vec<
    UnitDraw,
>)
    ensures
        r@ == unit_draws(units@, updated_units@),
{
    broadcast use vstd::std_specs::hash::group_hash_axioms;

    let mut res: Vec<UnitDraw> = Vec::new();
    let n = updated_units.len();
    let mut i: usize = 0;
    while i < n
        invariant
            n == updated_units@.len(),
            i <= n,
            res@ == unit_draws(units@, updated_units@.take(i as int)),
        decreases n - i,
    {
        let unit_tag = updated_units[i];
        proof {
            assert(updated_units@.take(i + 1).drop_last() =~= updated_units@.take(i as int));
        }
        match units.get(&unit_tag) {
            Some(unit) => {
                let owner: i64 = match unit.user_id {
                    Some(id) => id as i64,
                    None => UNKNOWN_OWNER as i64,
                };
                let look = get_unit_sized_color(unit.name.as_str(), owner);
                res.push(UnitDraw { tag: unit_tag, look });
            },
            None => {},
        }
        i = i + 1;
    }
    assert(updated_units@.take(n as int) =~= updated_units@);
    res
}

/// The units to draw for a tracker event: those that a unit-init event
/// touched, and none for any other event.
pub fn process_event(
    units: &HashMap<u32, UnitRecord>,
    evt: &TrackerEventKind,
    updated_units: Vec<u32>,
) -> (r: Vec<UnitDraw>)
    ensures
        r@ == match evt {
            TrackerEventKind::UnitInit => unit_draws(units@, updated_units@),
            _ => Seq::empty(),
        },
{
    match evt {
        TrackerEventKind::UnitInit => register_unit_init(units, updated_units),
        _ => Vec::new(),
    }
}

} // verus!
