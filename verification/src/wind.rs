//! Compass points for wind directions.

use vstd::prelude::*;
use vstd::string::*;
use crate::error::Error;

verus! {

/// How many compass candidates there are: one every 45 degrees from 0 to 360,
/// so north stands at both ends.
pub const CANDIDATES: usize = 9;

/// The bearing of the candidate at `index`, in degrees.
pub open spec fn bearing(index: int) -> int {
    45 * index
}

/// The label of the candidate at `index`.
pub open spec fn label(index: int) -> Seq<char> {
    if index == 0 || index == 8 {
        "N"@
    } else if index == 1 {
        "NE"@
    } else if index == 2 {
        "E"@
    } else if index == 3 {
        "SE"@
    } else if index == 4 {
        "S"@
    } else if index == 5 {
        "SW"@
    } else if index == 6 {
        "W"@
    } else {
        "NW"@
    }
}

/// The distance in degrees between a direction and a candidate.
pub open spec fn distance(deg: int, index: int) -> int {
    if deg >= bearing(index) {
        deg - bearing(index)
    } else {
        bearing(index) - deg
    }
}

/// `index` is the candidate nearest to `deg`, and the first of those that are
/// equally near.
pub open spec fn is_nearest(deg: int, index: int) -> bool {
    &&& 0 <= index < CANDIDATES
    &&& forall|j: int| 0 <= j < CANDIDATES ==> distance(deg, index) <= #[trigger] distance(deg, j)
    &&& forall|j: int| 0 <= j < index ==> distance(deg, index) < #[trigger] distance(deg, j)
}

/// The nearest candidate in closed form. A direction below the scale is
/// nearest to its lower end and one above the scale to its upper end, and
/// both ends are north.
pub open spec fn nearest(deg: int) -> int {
    if deg < 0 {
        0
    } else if deg > 360 {
        8
    } else {
        (deg + 22) / 45
    }
}

/// The compass label of a direction.
pub open spec fn compass(deg: int) -> Seq<char> {
    label(nearest(deg))
}

/// Whether a text is one of the eight compass labels.
pub open spec fn is_compass_label(text: Seq<char>) -> bool {
    text == "N"@ || text == "NE"@ || text == "E"@ || text == "SE"@ || text == "S"@ || text
        == "SW"@ || text == "W"@ || text == "NW"@
}

/// The closed form picks the nearest candidate, first among equals.
pub proof fn lemma_nearest_is_nearest(deg: int)
    ensures
        is_nearest(deg, nearest(deg)),
{
}

/// At most one candidate is the nearest, first among equals.
pub proof fn lemma_nearest_is_unique(deg: int, i: int, j: int)
    requires
        is_nearest(deg, i),
        is_nearest(deg, j),
    ensures
        i == j,
{
    if i < j {
        assert(distance(deg, j) < distance(deg, i));
        assert(distance(deg, i) <= distance(deg, j));
    } else if j < i {
        assert(distance(deg, i) < distance(deg, j));
        assert(distance(deg, j) <= distance(deg, i));
    }
}

/// Every direction has one of the eight labels, and both ends of the scale
/// are north.
pub proof fn lemma_compass_total(deg: int)
    ensures
        is_compass_label(compass(deg)),
        compass(0) == "N"@,
        compass(360) == "N"@,
        compass(0) == compass(360),
{
}

/// The bearing of a candidate.
fn bearing_at(index: usize) -> (degrees: i32)
    requires
        index < CANDIDATES,
    ensures
        degrees == bearing(index as int),
{
    45 * (index as i32)
}

/// The label of a candidate.
fn label_at(index: usize) -> (text: &'static str)
    requires
        index < CANDIDATES,
    ensures
        text@ == label(index as int),
{
    if index == 0 || index == 8 {
        "N"
    } else if index == 1 {
        "NE"
    } else if index == 2 {
        "E"
    } else if index == 3 {
        "SE"
    } else if index == 4 {
        "S"
    } else if index == 5 {
        "SW"
    } else if index == 6 {
        "W"
    } else {
        "NW"
    }
}

/// The distance between a direction and a candidate.
fn distance_to(deg: i32, index: usize) -> (d: i64)
    requires
        index < CANDIDATES,
    ensures
        d == distance(deg as int, index as int),
{
    let b: i64 = bearing_at(index) as i64;
    let at: i64 = deg as i64;
    if at >= b {
        at - b
    } else {
        b - at
    }
}

/// The compass point nearest to a wind direction given in whole degrees.
///
/// The candidates are walked in order and the first of the nearest ones
/// gives the label. A direction off the scale is taken as it is: it gets the
/// label of the end of the scale that it lies beyond. There is always a
/// candidate, so there is always a label.
pub fn wind_direction(deg: i32) -> (point: Result<String, Error>)
    ensures
        point is Ok,
        point->Ok_0@ == compass(deg as int),
        exists|i: int| is_nearest(deg as int, i) && point->Ok_0@ == label(i),
{
    let mut best: usize = 0;
    let mut best_distance: i64 = distance_to(deg, 0);
    let mut index: usize = 1;
    while index < CANDIDATES
        invariant
            1 <= index <= CANDIDATES,
            best < index,
            best_distance == distance(deg as int, best as int),
            forall|j: int| 0 <= j < index ==> best_distance <= #[trigger] distance(deg as int, j),
            forall|j: int| 0 <= j < best ==> best_distance < #[trigger] distance(deg as int, j),
        decreases CANDIDATES - index,
    {
        let d: i64 = distance_to(deg, index);
        if d < best_distance {
            best = index;
            best_distance = d;
        }
        index = index + 1;
    }
    proof {
        assert(is_nearest(deg as int, best as int));
        lemma_nearest_is_nearest(deg as int);
        lemma_nearest_is_unique(deg as int, best as int, nearest(deg as int));
    }
    Ok(String::from_str(label_at(best)))
}

} // verus!
