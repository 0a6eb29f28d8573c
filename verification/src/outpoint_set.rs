//! Set of transparent outpoints.

use crate::domain::OutPoint;
use vstd::prelude::*;

verus! {

/// A set of outpoints: none occurs twice, and what came first stays first.
#[derive(Debug)]
pub struct OutPointSet {
    points: Vec<OutPoint>,
}

impl View for OutPointSet {
    type V = Seq<OutPoint>;

    closed spec fn view(&self) -> Seq<OutPoint> {
        self.points@
    }
}

/// The points of `more` that are new to `seen`, appended to it in order.
pub open spec fn joined(seen: Seq<OutPoint>, more: Seq<OutPoint>) -> Seq<OutPoint>
    decreases more.len(),
{
    if more.len() == 0 {
        seen
    } else {
        let before = joined(seen, more.drop_last());
        if before.contains(more.last()) {
            before
        } else {
            before.push(more.last())
        }
    }
}

impl OutPointSet {
    #[verifier::type_invariant]
    closed spec fn holds_each_once(self) -> bool {
        self.points@.no_duplicates()
    }

    /// The empty set.
    pub fn new() -> (set: OutPointSet)
        ensures
            set@ == Seq::<OutPoint>::empty(),
    {
        OutPointSet { points: Vec::new() }
    }

    /// Number of outpoints in the set.
    pub fn len(&self) -> (count: usize)
        ensures
            count == self@.len(),
    {
        self.points.len()
    }

    /// Whether the set holds `point`.
    pub fn contains(&self, point: &OutPoint) -> (found: bool)
        ensures
            found == self@.contains(*point),
    {
        let mut index: usize = 0;
        while index < self.points.len()
            invariant
                index <= self.points@.len(),
                forall|i: int| 0 <= i < index ==> self.points@[i] != *point,
            decreases self.points@.len() - index,
        {
            if self.points[index] == *point {
                assert(self.points@[index as int] == *point);
                return true;
            }
            index += 1;
        }
        false
    }

    /// Adds `point`; says whether it was new.
    pub fn insert(&mut self, point: OutPoint) -> (is_new: bool)
        ensures
            is_new == !old(self)@.contains(point),
            final(self)@ == if is_new {
                old(self)@.push(point)
            } else {
                old(self)@
            },
    {
        proof {
            use_type_invariant(&*self);
        }
        if self.contains(&point) {
            return false;
        }
        let ghost before = self.points@;
        let mut points: Vec<OutPoint> = Vec::new();
        std::mem::swap(&mut points, &mut self.points);
        points.push(point);
        proof {
            assert forall|i: int, j: int| 0 <= i < points@.len() && 0 <= j < points@.len() && i
                != j implies points@[i] != points@[j] by {
                if i < before.len() && j < before.len() {
                    assert(before[i] != before[j]);
                }
            }
        }
        self.points = points;
        true
    }

    /// The outpoints, in the order in which they were added.
    pub fn points(&self) -> (points: &Vec<OutPoint>)
        ensures
            points@ == self@,
            points@.no_duplicates(),
    {
        proof {
            use_type_invariant(self);
        }
        &self.points
    }
}

} // verus!
