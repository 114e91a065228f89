//! The outputs a surface currently overlaps, and the primary among them.
//!
//! Outputs are tracked in first-seen order so that ties between equal scale
//! factors resolve deterministically: the primary output is the first one
//! found at the maximum scale.

use vstd::prelude::*;
use vstd::std_specs::vec::vec_index_mut;

verus! {

/// Largest integer scale factor accepted for an output; keeps the
/// conversion into fractional-scale units (120ths) inside `i32`.
pub const MAX_OUTPUT_SCALE: i32 = 17_895_697;

/// What the window needs to know of one output: its scale factor.
#[derive(Clone, Copy, Debug, PartialEq, Eq, Structural)]
pub struct Output {
    pub scale: i32,
}

pub open spec fn valid_output(o: Output) -> bool {
    1 <= o.scale <= MAX_OUTPUT_SCALE
}

/// The outputs the surface overlaps, keyed by the output's protocol
/// identity, in the order they were first entered.
#[derive(Debug)]
pub struct OutputSet {
    pub entries: Vec<(u64, Output)>,
}

pub open spec fn has_key(s: Seq<(u64, Output)>, id: u64) -> bool {
    exists|i: int| 0 <= i < s.len() && s[i].0 == id
}

impl OutputSet {
    pub open spec fn view(self) -> Seq<(u64, Output)> {
        self.entries@
    }

    /// Keys are unique and every tracked output is valid.
    pub open spec fn wf(self) -> bool {
        &&& forall|i: int, j: int|
            0 <= i < j < self@.len() ==> (#[trigger] self@[i]).0 != (#[trigger] self@[j]).0
        &&& forall|i: int| 0 <= i < self@.len() ==> valid_output((#[trigger] self@[i]).1)
    }

    pub fn new() -> (r: OutputSet)
        ensures
            r.wf(),
            r@ =~= Seq::<(u64, Output)>::empty(),
    {
        OutputSet { entries: Vec::new() }
    }

    pub fn len(&self) -> (r: usize)
        ensures
            r == self@.len(),
    {
        self.entries.len()
    }

    /// Tracks an output, keeping the position of an already-known identity
    /// and appending an unknown one.
    pub fn insert(&mut self, id: u64, output: Output)
        requires
            old(self).wf(),
            valid_output(output),
        ensures
            final(self).wf(),
            !has_key(old(self)@, id) ==> final(self)@ == old(self)@.push((id, output)),
            has_key(old(self)@, id) ==> exists|j: int|
                {
                    &&& 0 <= j < old(self)@.len()
                    &&& (#[trigger] old(self)@[j]).0 == id
                    &&& final(self)@ == old(self)@.update(j, (id, output))
                },
    {
        match self.position_of(id) {
            Some(j) => {
                *vec_index_mut(&mut self.entries, j) = (id, output);
                proof {
                    assert(has_key(old(self)@, id));
                    assert forall|i: int, k: int| 0 <= i < k < self@.len() implies (
                    #[trigger] self@[i]).0 != (#[trigger] self@[k]).0 by {
                        assert(old(self)@[i].0 != old(self)@[k].0);
                        assert(old(self)@[j as int].0 == id);
                    }
                }
            },
            None => {
                self.entries.push((id, output));
            },
        }
    }

    /// The position of the output of the given identity, if tracked.
    fn position_of(&self, id: u64) -> (r: Option<usize>)
        ensures
            r is Some ==> {
                &&& 0 <= r.unwrap() < self@.len()
                &&& self@[r.unwrap() as int].0 == id
            },
            r is None ==> !has_key(self@, id),
    {
        let n = self.entries.len();
        let mut i: usize = 0;
        while i < n
            invariant
                n == self@.len(),
                i <= n,
                forall|k: int| 0 <= k < i ==> (#[trigger] self@[k]).0 != id,
            decreases n - i,
        {
            if self.entries[i].0 == id {
                return Some(i);
            }
            i = i + 1;
        }
        None
    }

    /// Stops tracking the output of the given identity, if known.
    pub fn remove(&mut self, id: u64)
        requires
            old(self).wf(),
        ensures
            final(self).wf(),
            !has_key(old(self)@, id) ==> final(self)@ == old(self)@,
            has_key(old(self)@, id) ==> exists|j: int|
                {
                    &&& 0 <= j < old(self)@.len()
                    &&& (#[trigger] old(self)@[j]).0 == id
                    &&& final(self)@ == old(self)@.subrange(0, j) + old(self)@.subrange(
                        j + 1,
                        old(self)@.len() as int,
                    )
                },
            !has_key(final(self)@, id),
    {
        match self.position_of(id) {
            Some(j) => {
                let ghost pre = self@;
                self.entries.remove(j);
                proof {
                    assert(has_key(pre, id));
                    assert(self@ =~= pre.subrange(0, j as int) + pre.subrange(
                        j + 1,
                        pre.len() as int,
                    ));
                    assert forall|k: int| 0 <= k < self@.len() implies (#[trigger] self@[k]).0
                        != id by {
                        if k < j {
                            assert(self@[k] == pre[k]);
                        } else {
                            assert(self@[k] == pre[k + 1]);
                            assert(pre[j as int].0 == id);
                        }
                    }
                    assert forall|i: int, k: int| 0 <= i < k < self@.len() implies (
                    #[trigger] self@[i]).0 != (#[trigger] self@[k]).0 by {
                        let pi = if i < j { i } else { i + 1 };
                        let pk = if k < j { k } else { k + 1 };
                        assert(self@[i] == pre[pi]);
                        assert(self@[k] == pre[pk]);
                        assert(pre[pi].0 != pre[pk].0);
                    }
                }
            },
            None => {},
        }
    }

    /// The primary output: the first one found at the maximum scale, and
    /// that scale seeded at one, so that an empty set reports a scale of
    /// one and no primary.
    pub fn select_primary(&self) -> (r: (i32, Option<(u64, Output)>))
        requires
            self.wf(),
        ensures
            1 <= r.0 <= MAX_OUTPUT_SCALE,
            forall|i: int| 0 <= i < self@.len() ==> (#[trigger] self@[i]).1.scale <= r.0,
            r.0 != 1 ==> exists|i: int| 0 <= i < self@.len() && (#[trigger] self@[i]).1.scale == r.0,
            self@.len() == 0 ==> r.1 is None && r.0 == 1,
            self@.len() > 0 ==> r.1 is Some,
            r.1 is Some ==> exists|j: int|
                {
                    &&& 0 <= j < self@.len()
                    &&& #[trigger] self@[j] == r.1.unwrap()
                    &&& forall|k: int| 0 <= k < self@.len() ==> (#[trigger] self@[k]).1.scale
                        <= r.1.unwrap().1.scale
                    &&& forall|k: int| 0 <= k < j ==> (#[trigger] self@[k]).1.scale
                        < r.1.unwrap().1.scale
                },
    {
        let mut scale: i32 = 1;
        let mut current: Option<(u64, Output)> = None;
        let ghost mut chosen_at: int = 0;

        let n = self.entries.len();
        let mut i: usize = 0;
        while i < n
            invariant
                self.wf(),
                n == self@.len(),
                i <= n,
                1 <= scale <= MAX_OUTPUT_SCALE,
                forall|k: int| 0 <= k < i ==> (#[trigger] self@[k]).1.scale <= scale,
                scale != 1 ==> exists|k: int| 0 <= k < i && (#[trigger] self@[k]).1.scale == scale,
                i == 0 ==> current is None,
                i > 0 ==> current is Some,
                current is Some ==> {
                    &&& 0 <= chosen_at < i
                    &&& self@[chosen_at] == current.unwrap()
                    &&& forall|k: int| 0 <= k < i ==> (#[trigger] self@[k]).1.scale
                        <= current.unwrap().1.scale
                    &&& forall|k: int| 0 <= k < chosen_at ==> (#[trigger] self@[k]).1.scale
                        < current.unwrap().1.scale
                },
            decreases n - i,
        {
            let (id, output) = self.entries[i];
            match current {
                Some((_, incumbent)) => {
                    if output.scale > incumbent.scale {
                        current = Some((id, output));
                        proof {
                            chosen_at = i as int;
                        }
                    }
                },
                None => {
                    current = Some((id, output));
                    proof {
                        chosen_at = i as int;
                    }
                },
            }
            if output.scale > scale {
                scale = output.scale;
            }
            i = i + 1;
        }
        (scale, current)
    }
}

} // verus!
