use std::collections::HashMap;
use vstd::prelude::*;

verus! {

broadcast use vstd::std_specs::hash::group_hash_axioms;

/// Poses of a trajectory, looked up by the number of the time bucket that each falls in.
#[derive(Debug)]
pub struct TimeIndex<P> {
    points: HashMap<i64, P>,
}

impl<P> View for TimeIndex<P> {
    type V = Map<i64, P>;

    closed spec fn view(&self) -> Map<i64, P> {
        self.points@
    }
}

impl<P> TimeIndex<P> {
    /// An empty index.
    pub fn new() -> (r: TimeIndex<P>)
        ensures
            r@ == Map::<i64, P>::empty(),
    {
        TimeIndex { points: HashMap::new() }
    }

    /// Files `pose` under `bucket`, in place of any pose filed there before.
    pub fn insert(&mut self, bucket: i64, pose: P)
        ensures
            final(self)@ == old(self)@.insert(bucket, pose),
    {
        self.points.insert(bucket, pose);
    }

    /// The pose indexed under `bucket`, if any.
    pub fn get(&self, bucket: i64) -> (r: Option<&P>)
        ensures
            self@.contains_key(bucket) ==> r == Some(&self@[bucket]),
            !self@.contains_key(bucket) ==> r is None,
    {
        self.points.get(&bucket)
    }

    /// The number of buckets that hold a pose.
    pub fn len(&self) -> (r: usize)
        ensures
            r == self@.len(),
    {
        self.points.len()
    }
}

} // verus!
