//! Decisions made while reading solve results: which cost attribute fills
//! which cost of an origin-destination line, and which matrix keys name
//! origins.

use vstd::prelude::*;
use crate::parse::{parse_i32, parse_i32_spec};
use crate::text::same_text;

verus! {

/// The cost of an origin-destination line that a cost attribute fills.
#[derive(Debug, Clone, Copy, PartialEq, Eq, Structural)]
pub enum CostSlot {
    /// Travel time (`TravelTime` or `Minutes`).
    Time,
    /// Distance (`Miles` or `Kilometers`).
    Distance,
}

/// The cost a named attribute fills, if any.
pub open spec fn slot_of(name: Seq<char>) -> Option<CostSlot> {
    if name == "TravelTime"@ || name == "Minutes"@ {
        Some(CostSlot::Time)
    } else if name == "Miles"@ || name == "Kilometers"@ {
        Some(CostSlot::Distance)
    } else {
        None
    }
}

/// Returns the cost a named attribute fills.
pub fn cost_slot(name: &str) -> (r: Option<CostSlot>)
    ensures
        r == slot_of(name@),
{
    if same_text(name, "TravelTime") || same_text(name, "Minutes") {
        Some(CostSlot::Time)
    } else if same_text(name, "Miles") || same_text(name, "Kilometers") {
        Some(CostSlot::Distance)
    } else {
        None
    }
}

/// Index of the last of the first `upto` attribute names that fills
/// `slot`; a later attribute overwrites an earlier one.
pub open spec fn last_slot(names: Seq<Seq<char>>, upto: int, slot: CostSlot) -> Option<int>
    decreases upto,
{
    if upto <= 0 {
        None
    } else if slot_of(names[upto - 1]) == Some(slot) {
        Some(upto - 1)
    } else {
        last_slot(names, upto - 1, slot)
    }
}

/// For a line with `n_costs` cost values and the attribute names in order,
/// the indexes of the values that become its time and its distance. Only
/// names with a value (index below `n_costs`) count.
pub fn cost_indexes(names: &Vec<String>, n_costs: usize) -> (r: (Option<usize>, Option<usize>))
    ensures
        ({
            let upto = if names@.len() < n_costs {
                names@.len() as int
            } else {
                n_costs as int
            };
            &&& r.0 matches Some(i) ==> last_slot(names.deep_view(), upto, CostSlot::Time) == Some(
                i as int,
            )
            &&& r.0 is None ==> last_slot(names.deep_view(), upto, CostSlot::Time) is None
            &&& r.1 matches Some(i) ==> last_slot(names.deep_view(), upto, CostSlot::Distance)
                == Some(i as int)
            &&& r.1 is None ==> last_slot(names.deep_view(), upto, CostSlot::Distance) is None
        }),
{
    let upto = if names.len() < n_costs {
        names.len()
    } else {
        n_costs
    };
    let ghost dv = names.deep_view();
    let mut time: Option<usize> = None;
    let mut distance: Option<usize> = None;
    let mut i: usize = 0;
    while i < upto
        invariant
            upto <= names@.len(),
            dv == names.deep_view(),
            i <= upto,
            time matches Some(t) ==> last_slot(dv, i as int, CostSlot::Time) == Some(t as int),
            time is None ==> last_slot(dv, i as int, CostSlot::Time) is None,
            distance matches Some(t) ==> last_slot(dv, i as int, CostSlot::Distance) == Some(
                t as int,
            ),
            distance is None ==> last_slot(dv, i as int, CostSlot::Distance) is None,
        decreases upto - i,
    {
        let slot = cost_slot(names[i].as_str());
        proof {
            assert(dv[i as int] == names@[i as int]@);
        }
        match slot {
            Some(CostSlot::Time) => {
                time = Some(i);
            },
            Some(CostSlot::Distance) => {
                distance = Some(i);
            },
            None => {},
        }
        i = i + 1;
    }
    (time, distance)
}

/// Key of the matrix that lists cost attribute names rather than an
/// origin.
pub open spec fn names_key() -> Seq<char> {
    "costAttributeNames"@
}

/// The origin or destination ID a matrix key names: `None` for the names
/// key, otherwise the key parsed as an `i32` (itself `None` when it is no
/// integer).
pub fn matrix_key_id(key: &str) -> (r: Option<Option<i32>>)
    ensures
        key@ == names_key() ==> r is None,
        key@ != names_key() ==> r == Some(parse_i32_spec(key@)),
{
    if same_text(key, "costAttributeNames") {
        None
    } else {
        Some(parse_i32(key))
    }
}

} // verus!
