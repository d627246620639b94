//! Trajectory history.
//!
//! The positions that the station was seen at, oldest first. Positions are
//! only ever added at the end. A history may have a cap; once it is full, each
//! new position pushes the oldest one out.

use std::collections::VecDeque;
use vstd::prelude::*;

use crate::units::Micros;

verus! {

/// A position: latitude and longitude, in millionths of a degree.
pub type Position = (Micros, Micros);

/// The part of `points` that a history with the cap `cap` keeps: all of them
/// without a cap, the latest `cap` of them with one.
pub open spec fn kept(points: Seq<Position>, cap: Option<nat>) -> Seq<Position> {
    match cap {
        Some(c) if points.len() > c => points.subrange(points.len() - c, points.len() as int),
        _ => points,
    }
}

/// What a history that holds `points` holds after `items` were appended one
/// by one.
pub open spec fn appended_all(
    points: Seq<Position>,
    cap: Option<nat>,
    items: Seq<Position>,
) -> Seq<Position>
    decreases items.len(),
{
    if items.len() == 0 {
        points
    } else {
        kept(appended_all(points, cap, items.drop_last()).push(items.last()), cap)
    }
}

/// The first or the second coordinate of a position, in millionths.
pub open spec fn coordinate(point: Position, second: bool) -> int {
    if second {
        point.1.value()
    } else {
        point.0.value()
    }
}

/// Whether `low` and `high` are the least and the greatest of one coordinate
/// over `points`. Of no points at all they are the two ends of the number
/// range the wrong way round, so that no number lies between them.
pub open spec fn is_extent(points: Seq<Position>, second: bool, low: int, high: int) -> bool {
    if points.len() == 0 {
        low == i64::MAX && high == i64::MIN
    } else {
        &&& forall|i: int|
            0 <= i < points.len() ==> low <= coordinate(#[trigger] points[i], second) <= high
        &&& exists|i: int| 0 <= i < points.len() && coordinate(#[trigger] points[i], second) == low
        &&& exists|i: int|
            0 <= i < points.len() && coordinate(#[trigger] points[i], second) == high
    }
}

/// The positions seen so far, oldest first.
#[derive(Clone, Debug)]
pub struct TrajectoryHistory {
    points: VecDeque<Position>,
    cap: Option<usize>,
}

impl View for TrajectoryHistory {
    type V = Seq<Position>;

    closed spec fn view(&self) -> Seq<Position> {
        self.points@
    }
}

impl TrajectoryHistory {
    /// The cap of the history, if it has one.
    pub closed spec fn cap(self) -> Option<nat> {
        match self.cap {
            Some(c) => Some(c as nat),
            None => None,
        }
    }

    /// An empty history without a cap.
    pub fn new() -> (history: TrajectoryHistory)
        ensures
            history@ == Seq::<Position>::empty(),
            history.cap() == None::<nat>,
    {
        TrajectoryHistory { points: VecDeque::new(), cap: None }
    }

    /// An empty history that keeps the latest `cap` positions.
    pub fn with_cap(cap: usize) -> (history: TrajectoryHistory)
        ensures
            history@ == Seq::<Position>::empty(),
            history.cap() == Some(cap as nat),
    {
        TrajectoryHistory { points: VecDeque::new(), cap: Some(cap) }
    }

    /// A history without a cap that holds `points`.
    pub fn from_points(points: &Vec<Position>) -> (history: TrajectoryHistory)
        ensures
            history@ == points@,
            history.cap() == None::<nat>,
    {
        let mut history = TrajectoryHistory::new();
        let mut i: usize = 0;
        while i < points.len()
            invariant
                i <= points.len(),
                history.cap() == None::<nat>,
                history@ == points@.subrange(0, i as int),
            decreases points.len() - i,
        {
            history.append(points[i].0, points[i].1);
            assert(history@ =~= points@.subrange(0, i + 1));
            i = i + 1;
        }
        assert(points@.subrange(0, i as int) =~= points@);
        history
    }

    /// The number of positions held.
    pub fn len(&self) -> (n: usize)
        ensures
            n == self@.len(),
    {
        self.points.len()
    }

    /// Whether no position is held.
    pub fn is_empty(&self) -> (empty: bool)
        ensures
            empty == (self@.len() == 0),
    {
        self.points.len() == 0
    }

    /// The cap of the history, if it has one.
    pub fn limit(&self) -> (cap: Option<usize>)
        ensures
            self.cap() == match cap {
                Some(c) => Some(c as nat),
                None => None,
            },
    {
        self.cap
    }

    /// Adds a position at the end. A history over its cap then drops its
    /// oldest positions; nothing else is ever removed or moved.
    pub fn append(&mut self, lat: Micros, lon: Micros)
        ensures
            final(self).cap() == old(self).cap(),
            final(self)@ == kept(old(self)@.push((lat, lon)), old(self).cap()),
    {
        let ghost all = self@.push((lat, lon));
        self.points.push_back((lat, lon));
        if let Some(cap) = self.cap {
            while self.points.len() > cap
                invariant
                    self.cap == Some(cap),
                    self.points@.len() <= all.len(),
                    all.len() > cap ==> self.points@.len() >= cap,
                    all.len() <= cap ==> self.points@.len() == all.len(),
                    self.points@ == all.subrange(all.len() - self.points@.len(), all.len() as int),
                decreases self.points@.len(),
            {
                self.points.pop_front();
                assert(self.points@ =~= all.subrange(
                    all.len() - self.points@.len(),
                    all.len() as int,
                ));
            }
            assert(self.points@ =~= kept(all, Some(cap as nat)));
        }
    }

    /// The positions held, oldest first.
    pub fn snapshot(&self) -> (points: Vec<Position>)
        ensures
            points@ == self@,
    {
        let mut points: Vec<Position> = Vec::new();
        let mut i: usize = 0;
        while i < self.points.len()
            invariant
                i <= self.points@.len(),
                points@ == self.points@.subrange(0, i as int),
            decreases self.points@.len() - i,
        {
            points.push(self.points[i]);
            assert(points@ =~= self.points@.subrange(0, i + 1));
            i = i + 1;
        }
        assert(points@ =~= self@);
        points
    }

    /// The least and the greatest latitude held.
    pub fn bounds_x(&self) -> (bounds: (Micros, Micros))
        ensures
            is_extent(self@, false, bounds.0.value(), bounds.1.value()),
    {
        self.extent(false)
    }

    /// The least and the greatest longitude held.
    pub fn bounds_y(&self) -> (bounds: (Micros, Micros))
        ensures
            is_extent(self@, true, bounds.0.value(), bounds.1.value()),
    {
        self.extent(true)
    }

    /// The least and the greatest of one coordinate over the positions held.
    fn extent(&self, second: bool) -> (bounds: (Micros, Micros))
        ensures
            is_extent(self@, second, bounds.0.value(), bounds.1.value()),
    {
        let mut low: i64 = i64::MAX;
        let mut high: i64 = i64::MIN;
        let mut i: usize = 0;
        while i < self.points.len()
            invariant
                i <= self.points@.len(),
                is_extent(self.points@.subrange(0, i as int), second, low as int, high as int),
            decreases self.points@.len() - i,
        {
            let point = self.points[i];
            let value: i64 = if second {
                point.1.raw
            } else {
                point.0.raw
            };
            let ghost seen = self.points@.subrange(0, i as int);
            let ghost more = self.points@.subrange(0, i + 1);
            let ghost old_low = low;
            let ghost old_high = high;
            if value < low {
                low = value;
            }
            if value > high {
                high = value;
            }
            proof {
                assert(more[i as int] == point);
                assert forall|j: int| 0 <= j < more.len() implies low <= coordinate(
                    #[trigger] more[j],
                    second,
                ) <= high by {
                    if j < i {
                        assert(more[j] == seen[j]);
                    }
                }
                if low == value {
                    assert(coordinate(more[i as int], second) == low);
                } else {
                    let j = choose|j: int|
                        0 <= j < seen.len() && coordinate(#[trigger] seen[j], second) == old_low;
                    assert(more[j] == seen[j]);
                }
                if high == value {
                    assert(coordinate(more[i as int], second) == high);
                } else {
                    let j = choose|j: int|
                        0 <= j < seen.len() && coordinate(#[trigger] seen[j], second) == old_high;
                    assert(more[j] == seen[j]);
                }
            }
            i = i + 1;
        }
        assert(self.points@.subrange(0, i as int) =~= self@);
        (Micros { raw: low }, Micros { raw: high })
    }
}

/// What a history keeps is within its cap, is the end of what it was given,
/// and is kept whole when given again.
pub proof fn kept_is_within_cap(points: Seq<Position>, cap: Option<nat>)
    ensures
        cap matches Some(c) ==> kept(points, cap).len() <= c,
        kept(points, cap).len() <= points.len(),
        forall|i: int|
            0 <= i < kept(points, cap).len() ==> kept(points, cap)[i] == points[points.len()
                - kept(points, cap).len() + i],
        kept(kept(points, cap), cap) == kept(points, cap),
{
}

/// Capping what a capped history holds plus one more position is capping all
/// of it at once.
pub proof fn kept_absorbs_kept(points: Seq<Position>, cap: Option<nat>, point: Position)
    ensures
        kept(kept(points, cap).push(point), cap) == kept(points.push(point), cap),
{
    assert(kept(kept(points, cap).push(point), cap) =~= kept(points.push(point), cap));
}

/// Appending positions one by one keeps them in the order in which they came:
/// the history then holds what it held before, followed by the new positions,
/// cut to its cap. Without a cap nothing is cut, so after `n` appends to an
/// empty history it holds exactly those `n` positions in order.
pub proof fn appends_keep_order(points: Seq<Position>, cap: Option<nat>, items: Seq<Position>)
    requires
        kept(points, cap) == points,
    ensures
        appended_all(points, cap, items) == kept(points + items, cap),
        cap is None ==> appended_all(points, cap, items) == points + items,
        cap is None ==> appended_all(points, cap, items).len() == points.len() + items.len(),
    decreases items.len(),
{
    if items.len() == 0 {
        assert(points + items =~= points);
    } else {
        let earlier = items.drop_last();
        appends_keep_order(points, cap, earlier);
        kept_absorbs_kept(points + earlier, cap, items.last());
        assert((points + earlier).push(items.last()) =~= points + items);
    }
}

} // verus!
