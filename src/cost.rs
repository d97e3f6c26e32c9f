//! Objective values as fixed-point integers, and the tolerant comparison
//! that decides whether one value improves on another.

use vstd::prelude::*;

verus! {

/// Number of cost units that make up the value 1.0.
pub const COST_SCALE: i64 = 1_000_000_000_000;

/// Two costs whose distance is below this many units count as equal.
pub const COST_EPSILON: i64 = 1_000;

/// Distance between two costs.
pub open spec fn cost_distance(a: int, b: int) -> int {
    if a >= b { a - b } else { b - a }
}

/// `a` and `b` are equal up to the tolerance.
pub open spec fn within_epsilon(a: int, b: int) -> bool {
    cost_distance(a, b) < COST_EPSILON
}

/// `c` is lower than `best` by at least the tolerance.
pub open spec fn improves_on(c: int, best: int) -> bool {
    best - c >= COST_EPSILON
}

/// Tolerant three-way comparison of two costs.
pub open spec fn cost_order(a: int, b: int) -> core::cmp::Ordering {
    if within_epsilon(a, b) {
        core::cmp::Ordering::Equal
    } else if a > b {
        core::cmp::Ordering::Greater
    } else {
        core::cmp::Ordering::Less
    }
}

/// Tolerant comparison of two optional costs; a missing cost ranks above
/// every present one and equal to another missing one.
pub open spec fn opt_cost_order(a: Option<i64>, b: Option<i64>) -> core::cmp::Ordering {
    match (a, b) {
        (Some(x), Some(y)) => cost_order(x as int, y as int),
        (Some(_), None) => core::cmp::Ordering::Less,
        (None, Some(_)) => core::cmp::Ordering::Greater,
        (None, None) => core::cmp::Ordering::Equal,
    }
}

/// Whether `a` and `b` are equal up to the tolerance.
pub fn costs_equal(a: i64, b: i64) -> (r: bool)
    ensures
        r == within_epsilon(a as int, b as int),
{
    let d: i128 = (a as i128) - (b as i128);
    -(COST_EPSILON as i128) < d && d < COST_EPSILON as i128
}

/// Whether `c` improves on `best` by at least the tolerance.
pub fn improves(c: i64, best: i64) -> (r: bool)
    ensures
        r == improves_on(c as int, best as int),
{
    (best as i128) - (c as i128) >= COST_EPSILON as i128
}

/// Tolerant three-way comparison of two costs.
pub fn compare_costs(a: i64, b: i64) -> (r: core::cmp::Ordering)
    ensures
        r == cost_order(a as int, b as int),
{
    if costs_equal(a, b) {
        core::cmp::Ordering::Equal
    } else if a > b {
        core::cmp::Ordering::Greater
    } else {
        core::cmp::Ordering::Less
    }
}

/// Tolerant comparison of two optional costs.
pub fn compare_opt_costs(a: Option<i64>, b: Option<i64>) -> (r: core::cmp::Ordering)
    ensures
        r == opt_cost_order(a, b),
{
    match (a, b) {
        (Some(x), Some(y)) => compare_costs(x, y),
        (Some(_), None) => core::cmp::Ordering::Less,
        (None, Some(_)) => core::cmp::Ordering::Greater,
        (None, None) => core::cmp::Ordering::Equal,
    }
}

} // verus!
