//! Mutable countdown state scoped to one active split condition.
//!
//! The engine decrements a countdown each time the watched event occurs and
//! fires when it reaches zero. A fresh `SplitState` is built whenever the
//! host advances to a new split condition, seeded from that condition's
//! parameter.

use vstd::prelude::*;
use crate::split_type::SplitType;

verus! {

pub struct SplitState {
    pub pads_remaining: i32,
    pub cubes_remaining: i32,
}

impl SplitState {
    /// The countdown seeded for one split condition: a pad countdown for
    /// `PadsCrossed`, a cube countdown for `EnergyCubes`, zero otherwise.
    pub open spec fn spec_from_split(full_split: Option<SplitType>) -> SplitState {
        match full_split {
            Some(SplitType::PadsCrossed { num }) => SplitState {
                pads_remaining: num,
                cubes_remaining: 0,
            },
            Some(SplitType::EnergyCubes { num }) => SplitState {
                pads_remaining: 0,
                cubes_remaining: num,
            },
            _ => SplitState { pads_remaining: 0, cubes_remaining: 0 },
        }
    }

    pub fn visit_pad(&mut self)
        requires
            old(self).pads_remaining > i32::MIN,
        ensures
            final(self).pads_remaining == old(self).pads_remaining - 1,
            final(self).cubes_remaining == old(self).cubes_remaining,
    {
        self.pads_remaining -= 1;
    }

    pub fn place_cube(&mut self)
        requires
            old(self).cubes_remaining > i32::MIN,
        ensures
            final(self).cubes_remaining == old(self).cubes_remaining - 1,
            final(self).pads_remaining == old(self).pads_remaining,
    {
        self.cubes_remaining -= 1;
    }

    pub fn pads(&self) -> (r: i32)
        ensures
            r == self.pads_remaining,
    {
        self.pads_remaining
    }

    pub fn cubes(&self) -> (r: i32)
        ensures
            r == self.cubes_remaining,
    {
        self.cubes_remaining
    }

    pub fn from_split(full_split: Option<&SplitType>) -> (r: SplitState)
        ensures
            full_split matches Some(s) ==> r == SplitState::spec_from_split(Some(*s)),
            full_split is None ==> r == SplitState::spec_from_split(None::<SplitType>),
    {
        if let Some(split) = full_split {
            match split {
                SplitType::PadsCrossed { num } => SplitState {
                    cubes_remaining: 0,
                    pads_remaining: *num,
                },
                SplitType::EnergyCubes { num } => SplitState {
                    cubes_remaining: *num,
                    pads_remaining: 0,
                },
                _ => SplitState { pads_remaining: 0, cubes_remaining: 0 },
            }
        } else {
            SplitState { pads_remaining: 0, cubes_remaining: 0 }
        }
    }
}

} // verus!
