//! The game-state tracker and the split rule engine.
//!
//! `GameData` turns the host's periodic raw counter reads into a validated
//! progress model: normalized experience, current stage, pad count, inferred
//! difficulty, and a sticky validity flag. Each tick produces a
//! `StateChange` record of every tracked quantity before and after the tick,
//! and `StateChange::should_split` decides from that record whether a
//! configured split condition fired.
//!
//! The host owns all process I/O: it reads the 4-byte counter at the
//! resolved address and hands the result (or the read failure) to `update`.

use vstd::prelude::*;
use crate::split_state::SplitState;
use crate::split_type::{
    any_boss, spec_any_boss, Difficulty, SplitType, LARGEST_EXP_DIFFERENCE,
};

verus! {

use vstd::arithmetic::div_mod::{lemma_div_multiples_vanish, lemma_mod_multiples_basic};

/// Number of pads in a normal stage; reaching it completes the stage.
pub const PAD_COUNT: i32 = 19;

/// Raw experience is stored by the game as `4096 * normalized`.
pub const EXP_SCALE: i32 = 4096;

/// A `{previous, current}` snapshot of one tracked quantity across one tick.
#[derive(Debug, Clone, Copy)]
pub struct Pair<T> {
    pub previous: T,
    pub current: T,
}

/// The tracking session: the resolved counter address and the progress
/// model rebuilt from successive counter samples.
pub struct GameData {
    pub exp_pointer: Option<u64>,
    pub current_exp: Option<i32>,
    pub level: SplitType,
    pub current_pad: i32,
    pub valid: bool,
    pub difficulty: Option<Difficulty>,
}

/// Everything a tick changed: the pre- and post-update value of each
/// tracked quantity.
#[derive(Debug, Clone, Copy)]
pub struct StateChange {
    pub pads: Pair<i32>,
    pub exps: Pair<Option<i32>>,
    pub levels: Pair<SplitType>,
    pub valid: Pair<bool>,
    pub difficulty: Pair<Option<Difficulty>>,
}

/// True when a raw counter value is an exact multiple of the scale factor;
/// anything else means the pointer drifted.
pub open spec fn spec_is_scaled(val: i32) -> bool {
    val as int % (EXP_SCALE as int) == 0
}

/// The normalized experience held in a raw counter value.
pub open spec fn spec_normalized(val: i32) -> i32 {
    (val as int / EXP_SCALE as int) as i32
}

/// A tracker whose validity flag has been cleared; nothing else changes.
pub open spec fn spec_invalidate(s: GameData) -> GameData {
    GameData { valid: false, ..s }
}

/// Reading and validating one sample: fails (clearing validity) when the
/// address is unresolved, the read failed, or the value is not an exact
/// multiple of the scale; otherwise yields the normalized value.
pub open spec fn spec_read_exp(s: GameData, raw: Option<i32>) -> (Option<i32>, GameData) {
    if s.exp_pointer is None {
        (None::<i32>, spec_invalidate(s))
    } else {
        match raw {
            None => (None::<i32>, spec_invalidate(s)),
            Some(val) => if !spec_is_scaled(val) {
                (None::<i32>, spec_invalidate(s))
            } else {
                (Some(spec_normalized(val)), s)
            },
        }
    }
}

/// The experience part of one tick: validate the sample, bound the delta,
/// then either count a pad (difficulty known) or infer the difficulty from
/// the first matching per-pad delta (difficulty unknown).
pub open spec fn spec_update_exp(s: GameData, raw: Option<i32>) -> (Option<int>, GameData) {
    let (read, s1) = spec_read_exp(s, raw);
    match read {
        None => (None::<int>, s1),
        Some(exp) => {
            let difference: int = match s1.current_exp {
                Some(old_exp) => exp - old_exp,
                None => 0,
            };
            let s2 = GameData { current_exp: Some(exp), ..s1 };
            if !(0 <= difference <= LARGEST_EXP_DIFFERENCE) {
                (None::<int>, spec_invalidate(s2))
            } else {
                let s3 = match s2.difficulty {
                    Some(diff) => if s2.level.spec_is_normal_level() && difference
                        == s2.level.spec_unit_exp(diff) {
                        GameData { current_pad: (s2.current_pad + 1) as i32, ..s2 }
                    } else {
                        s2
                    },
                    None => if s2.level.spec_is_normal_level() {
                        if difference == s2.level.spec_unit_exp(Difficulty::Normal) {
                            GameData { difficulty: Some(Difficulty::Normal), current_pad: 1, ..s2 }
                        } else if difference == s2.level.spec_unit_exp(Difficulty::Hard) {
                            GameData { difficulty: Some(Difficulty::Hard), current_pad: 1, ..s2 }
                        } else if difference == s2.level.spec_unit_exp(Difficulty::Insane) {
                            GameData { difficulty: Some(Difficulty::Insane), current_pad: 1, ..s2 }
                        } else {
                            s2
                        }
                    } else {
                        s2
                    },
                };
                (Some(difference), s3)
            }
        },
    }
}

/// One whole tick: the experience update, then the stage-advance check —
/// a full pad counter completes a normal stage, and on a boss stage a delta
/// equal to the kill reward completes it.
pub open spec fn spec_step(s: GameData, raw: Option<i32>) -> GameData {
    let (_read, s1) = spec_update_exp(s, raw);
    if s1.valid {
        if s1.current_pad == PAD_COUNT {
            GameData { level: s1.level.spec_next(), current_pad: 0, ..s1 }
        } else if s1.level.spec_is_boss_level() {
            match s1.difficulty {
                Some(diff) => match (s.current_exp, s1.current_exp) {
                    (Some(old_exp), Some(cur_exp)) => if cur_exp - old_exp
                        == s1.level.spec_unit_exp(diff) {
                        GameData { level: s1.level.spec_next(), ..s1 }
                    } else {
                        s1
                    },
                    _ => spec_invalidate(s1),
                },
                None => s1,
            }
        } else {
            s1
        }
    } else {
        s1
    }
}

/// The record a tick emits: every tracked quantity before and after.
pub open spec fn spec_state_change(s0: GameData, s1: GameData) -> StateChange {
    StateChange {
        pads: Pair { previous: s0.current_pad, current: s1.current_pad },
        exps: Pair { previous: s0.current_exp, current: s1.current_exp },
        levels: Pair { previous: s0.level, current: s1.level },
        valid: Pair { previous: s0.valid, current: s1.valid },
        difficulty: Pair { previous: s0.difficulty, current: s1.difficulty },
    }
}

/// True when one tick's sample keeps the session alive: the address is
/// resolved, the read succeeded, the value is an exact multiple of the
/// scale, and the delta against the previous sample (none on the first
/// read) lies within `[0, LARGEST_EXP_DIFFERENCE]`.
pub open spec fn spec_sample_ok(s: GameData, raw: Option<i32>) -> bool {
    &&& s.exp_pointer is Some
    &&& raw matches Some(val) && spec_is_scaled(val) && (s.current_exp matches Some(old_exp)
        ==> 0 <= spec_normalized(val) - old_exp <= LARGEST_EXP_DIFFERENCE)
}

impl GameData {
    /// The tracker's invariant: the stage is one of the thirteen cycle
    /// members, the pad counter is level-scoped, normalized experience fits
    /// the scale bound, and a known difficulty implies a baseline sample.
    pub open spec fn wf(self) -> bool {
        &&& self.level.is_level()
        &&& 0 <= self.current_pad < PAD_COUNT
        &&& (self.current_exp matches Some(e) ==> -524288 <= e <= 524287)
        &&& (self.difficulty is Some ==> self.current_exp is Some)
    }

    /// A fresh session at the given resolved counter address: first stage,
    /// no baseline sample, no pads, difficulty unknown, valid.
    pub fn new(exp_pointer: u64) -> (r: GameData)
        ensures
            r == (GameData {
                exp_pointer: Some(exp_pointer),
                current_exp: None::<i32>,
                level: SplitType::Level1,
                current_pad: 0,
                valid: true,
                difficulty: None::<Difficulty>,
            }),
            r.wf(),
    {
        GameData {
            exp_pointer: Some(exp_pointer),
            current_exp: None,
            level: SplitType::Level1,
            current_pad: 0,
            valid: true,
            difficulty: None,
        }
    }

    /// Replaces the tracked address with a re-scan's outcome, keeping all
    /// progress state; returns true if the pattern is still present.
    pub fn rescan(&mut self, found: Option<u64>) -> (r: bool)
        ensures
            *final(self) == (GameData { exp_pointer: found, ..*old(self) }),
            r == (found is Some),
    {
        match found {
            Some(val) => {
                self.exp_pointer = Some(val);
                true
            },
            None => {
                self.exp_pointer = None;
                false
            },
        }
    }

    fn invalidate(&mut self)
        ensures
            *final(self) == spec_invalidate(*old(self)),
    {
        self.valid = false;
    }

    /// Returns if we are valid or not. If we are not valid, the host should
    /// make a new instance of this type and rescan.
    pub fn invalid(&self) -> (r: bool)
        ensures
            r == !self.valid,
    {
        !self.valid
    }

    pub fn exp(&self) -> (r: Option<i32>)
        ensures
            r == self.current_exp,
    {
        self.current_exp
    }

    /// The resolved counter address the host should read each tick.
    pub fn pointer(&self) -> (r: Option<u64>)
        ensures
            r == self.exp_pointer,
    {
        self.exp_pointer
    }

    /// Validates one sample handed in by the host (`None` for a failed
    /// read) and yields the normalized experience, invalidating the session
    /// on any failure.
    fn read_exp(&mut self, raw: Option<i32>) -> (r: Option<i32>)
        ensures
            ({
                let (rr, ss) = spec_read_exp(*old(self), raw);
                &&& r == rr
                &&& *final(self) == ss
            }),
            r matches Some(e) ==> -524288 <= e <= 524287,
    {
        if self.exp_pointer.is_some() {
            match raw {
                Some(val) => {
                    if val % EXP_SCALE != 0 {
                        self.invalidate();
                        None
                    } else {
                        Some(val / EXP_SCALE)
                    }
                },
                None => {
                    self.invalidate();
                    None
                },
            }
        } else {
            self.invalidate();
            None
        }
    }

    /// Returns the exp difference, if present; on a failed or senseless
    /// sample the session is invalidated and `None` returned.
    fn update_exp(&mut self, raw: Option<i32>) -> (r: Option<i32>)
        requires
            old(self).wf(),
        ensures
            ({
                let (rr, ss) = spec_update_exp(*old(self), raw);
                &&& *final(self) == ss
                &&& match r {
                    Some(d) => rr matches Some(dd) && dd == d as int,
                    None => rr is None,
                }
            }),
    {
        let exp_opt = self.read_exp(raw);
        if let Some(exp) = exp_opt {
            let difference: i32 = if let Some(old_exp) = self.current_exp {
                exp - old_exp
            } else {
                0
            };
            self.current_exp = Some(exp);
            if !(0 <= difference && difference <= LARGEST_EXP_DIFFERENCE) {
                self.invalidate();
                return None;
            }
            match self.difficulty {
                Some(diff) => {
                    if self.level.is_normal_level() {
                        if difference == self.level.standard_exp(diff) {
                            self.current_pad = self.current_pad + 1;
                        }
                    }
                },
                None => {
                    if self.level.is_normal_level() {
                        if difference == self.level.standard_exp(Difficulty::Normal) {
                            self.difficulty = Some(Difficulty::Normal);
                            self.current_pad = 1;
                        } else if difference == self.level.standard_exp(Difficulty::Hard) {
                            self.difficulty = Some(Difficulty::Hard);
                            self.current_pad = 1;
                        } else if difference == self.level.standard_exp(Difficulty::Insane) {
                            self.difficulty = Some(Difficulty::Insane);
                            self.current_pad = 1;
                        }
                    }
                },
            }
            Some(difference)
        } else {
            None
        }
    }

    /// One tick of the session. The host reads the 4-byte counter at
    /// `pointer()` and passes the result here (`None` for a failed read or
    /// an unresolved address).
    pub fn update(&mut self, raw: Option<i32>) -> (r: StateChange)
        requires
            old(self).wf(),
            old(self).valid,
        ensures
            final(self).wf(),
            *final(self) == spec_step(*old(self), raw),
            r == spec_state_change(*old(self), *final(self)),
            final(self).valid == spec_sample_ok(*old(self), raw),
            old(self).difficulty is Some ==> final(self).difficulty == old(self).difficulty,
            final(self).exp_pointer == old(self).exp_pointer,
    {
        let old_level = self.level;
        let old_pad = self.current_pad;
        let old_exp = self.current_exp;
        let old_valid = self.valid;
        let old_diff = self.difficulty;
        let _ = self.update_exp(raw);
        if !self.invalid() {
            if self.current_pad == PAD_COUNT {
                self.level = self.level.next();
                self.current_pad = 0;
            } else if self.level.is_boss_level() {
                if let Some(diff) = self.difficulty {
                    match (old_exp, self.current_exp) {
                        (Some(old_e), Some(cur_e)) => {
                            if cur_e - old_e == self.level.boss_exp(diff) {
                                self.level = self.level.next();
                            }
                        },
                        _ => self.invalidate(),
                    }
                }
            }
        }
        StateChange {
            levels: Pair { previous: old_level, current: self.level },
            pads: Pair { previous: old_pad, current: self.current_pad },
            exps: Pair { previous: old_exp, current: self.current_exp },
            valid: Pair { previous: old_valid, current: self.valid },
            difficulty: Pair { previous: old_diff, current: self.difficulty },
        }
    }
}

/// The decision table of the rule engine, and the countdown it leaves
/// behind: `spec_should_split(change, state, split)` is the pair of the
/// "split now" verdict and the updated countdown state.
pub open spec fn spec_should_split(sc: StateChange, st: SplitState, split: SplitType) -> (
    bool,
    SplitState,
) {
    if !sc.valid.current {
        (false, st)
    } else {
        match sc.difficulty.current {
            None => (false, st),
            Some(diff) => match (sc.exps.previous, sc.exps.current) {
                (Some(old_e), Some(cur_e)) => {
                    let d: int = cur_e - old_e;
                    let level_change = sc.levels.previous != sc.levels.current;
                    match split {
                        SplitType::Manual => (false, st),
                        SplitType::ExpGained => (d > 0, st),
                        SplitType::RawLevelComplete => (level_change, st),
                        SplitType::LevelComplete => (
                            level_change && sc.levels.previous.spec_is_normal_level(),
                            st,
                        ),
                        SplitType::BossComplete => (spec_any_boss(d, diff), st),
                        SplitType::Level1 | SplitType::Level2 | SplitType::Level3
                        | SplitType::Level4 | SplitType::Level5 | SplitType::Level6
                        | SplitType::Level7 | SplitType::Level8 | SplitType::Level9
                        | SplitType::Bot2000 | SplitType::Odin | SplitType::Diablo
                        | SplitType::CowLevel => (
                            (split.spec_is_boss_level() && split.spec_unit_exp(diff) == d) || (
                            level_change && sc.levels.previous == split),
                            st,
                        ),
                        SplitType::Bot2000Cube => (
                            sc.levels.current is Bot2000 && d == SplitType::Bot2000.spec_cube_exp(
                                diff,
                            ),
                            st,
                        ),
                        SplitType::OdinCube => (
                            sc.levels.current is Odin && d == SplitType::Odin.spec_cube_exp(diff),
                            st,
                        ),
                        SplitType::PadCrossed => (sc.pads.previous != sc.pads.current, st),
                        SplitType::PadCrossedForLevel { raw_level } => (
                            sc.levels.previous == SplitType::spec_from_raw_level(raw_level as int)
                                && sc.pads.previous != sc.pads.current,
                            st,
                        ),
                        SplitType::CompleteForLevel { raw_level } => (
                            level_change && sc.levels.previous == SplitType::spec_from_raw_level(
                                raw_level as int,
                            ),
                            st,
                        ),
                        SplitType::PadsCrossed { .. } => {
                            let st2 = if sc.pads.previous != sc.pads.current {
                                SplitState {
                                    pads_remaining: (st.pads_remaining - 1) as i32,
                                    ..st
                                }
                            } else {
                                st
                            };
                            (st2.pads_remaining == 0, st2)
                        },
                        SplitType::EnergyCubes { .. } => {
                            let st2 = if (sc.levels.current is Bot2000 || sc.levels.current
                                is Odin) && d == sc.levels.current.spec_cube_exp(diff) {
                                SplitState {
                                    cubes_remaining: (st.cubes_remaining - 1) as i32,
                                    ..st
                                }
                            } else {
                                st
                            };
                            (st2.cubes_remaining == 0, st2)
                        },
                    }
                },
                _ => (false, st),
            },
        }
    }
}

impl StateChange {
    /// Returns true if this tick's state change satisfies the given split
    /// condition, decrementing the countdown state where the condition
    /// counts events. No condition fires on an invalid change or before the
    /// difficulty is known.
    pub fn should_split(&self, split_state: &mut SplitState, split: SplitType) -> (r: bool)
        requires
            split.spec_valid_config(),
            old(split_state).pads_remaining > i32::MIN,
            old(split_state).cubes_remaining > i32::MIN,
        ensures
            ({
                let (res, st) = spec_should_split(*self, *old(split_state), split);
                &&& r == res
                &&& *final(split_state) == st
            }),
    {
        if !self.valid.current {
            false
        } else if let Some(diff) = self.difficulty.current {
            match (self.exps.previous, self.exps.current) {
                (Some(old_e), Some(cur_e)) => {
                    let exp_difference: i64 = cur_e as i64 - old_e as i64;
                    let raw_level_change = self.levels.previous != self.levels.current;
                    match split {
                        SplitType::Manual => false,
                        SplitType::ExpGained => exp_difference > 0,
                        SplitType::RawLevelComplete => raw_level_change,
                        SplitType::LevelComplete => {
                            raw_level_change && self.levels.previous.is_normal_level()
                        },
                        SplitType::BossComplete => {
                            // Kill rewards never exceed the largest one-tick
                            // delta, so a delta outside that band matches none.
                            if -(LARGEST_EXP_DIFFERENCE as i64) <= exp_difference
                                && exp_difference <= LARGEST_EXP_DIFFERENCE as i64 {
                                any_boss(exp_difference as i32, diff)
                            } else {
                                false
                            }
                        },
                        SplitType::Level1
                        | SplitType::Level2
                        | SplitType::Level3
                        | SplitType::Level4
                        | SplitType::Level5
                        | SplitType::Level6
                        | SplitType::Level7
                        | SplitType::Level8
                        | SplitType::Level9
                        | SplitType::Bot2000
                        | SplitType::Odin
                        | SplitType::Diablo
                        | SplitType::CowLevel => {
                            (split.is_boss_level() && split.boss_exp(diff) as i64
                                == exp_difference) || (raw_level_change && self.levels.previous
                                == split)
                        },
                        SplitType::Bot2000Cube => {
                            self.levels.current == SplitType::Bot2000 && exp_difference
                                == SplitType::Bot2000.cube_exp(diff) as i64
                        },
                        SplitType::OdinCube => {
                            self.levels.current == SplitType::Odin && exp_difference
                                == SplitType::Odin.cube_exp(diff) as i64
                        },
                        SplitType::PadCrossed => self.pads.previous != self.pads.current,
                        SplitType::PadCrossedForLevel { raw_level } => {
                            self.levels.previous == SplitType::from_raw_level(raw_level)
                                && self.pads.previous != self.pads.current
                        },
                        SplitType::CompleteForLevel { raw_level } => {
                            raw_level_change && self.levels.previous == SplitType::from_raw_level(
                                raw_level,
                            )
                        },
                        SplitType::PadsCrossed { .. } => {
                            if self.pads.previous != self.pads.current {
                                split_state.visit_pad();
                            }
                            split_state.pads() == 0
                        },
                        SplitType::EnergyCubes { .. } => {
                            if (self.levels.current == SplitType::Bot2000 || self.levels.current
                                == SplitType::Odin) && exp_difference
                                == self.levels.current.cube_exp(diff) as i64 {
                                split_state.place_cube();
                            }
                            split_state.cubes() == 0
                        },
                    }
                },
                _ => false,
            }
        } else {
            false
        }
    }
}

/// The raw counter value one pad crossing away from a tracker's current
/// sample: the normalized value plus the stage's per-pad constant, rescaled.
pub open spec fn spec_pad_tick_raw(s: GameData) -> i32 {
    ((s.current_exp->0 + s.level.spec_unit_exp(s.difficulty->0)) * (EXP_SCALE as int)) as i32
}

/// The tracker after `n` consecutive ticks in which every sample adds
/// exactly one pad's worth of experience.
pub open spec fn spec_pad_run(s: GameData, n: nat) -> GameData
    decreases n,
{
    if n == 0 {
        s
    } else {
        let prev = spec_pad_run(s, (n - 1) as nat);
        spec_step(prev, Some(spec_pad_tick_raw(prev)))
    }
}

/// Crossing the per-pad constant `PAD_COUNT` times on a normal stage
/// advances exactly one stage and resets the pad counter to zero; any
/// fewer crossings leave the stage unchanged with the crossings counted.
pub proof fn lemma_pad_crossings_advance_stage(s: GameData, n: nat)
    requires
        s.wf(),
        s.valid,
        s.exp_pointer is Some,
        s.level.spec_is_normal_level(),
        s.difficulty is Some,
        s.current_pad == 0,
        s.current_exp matches Some(e) && 0 <= e,
        s.current_exp->0 + PAD_COUNT * s.level.spec_unit_exp(s.difficulty->0) <= 524287,
        n <= PAD_COUNT,
    ensures
        ({
            let t = spec_pad_run(s, n);
            &&& t.valid
            &&& t.exp_pointer == s.exp_pointer
            &&& t.difficulty == s.difficulty
            &&& t.current_exp == Some(
                (s.current_exp->0 + n * s.level.spec_unit_exp(s.difficulty->0)) as i32,
            )
            &&& n < PAD_COUNT ==> t.level == s.level && t.current_pad == n
            &&& n == PAD_COUNT ==> t.level == s.level.spec_next() && t.current_pad == 0
        }),
    decreases n,
{
    let u = s.level.spec_unit_exp(s.difficulty->0);
    assert(2 <= u <= 39);
    if n > 0 {
        lemma_pad_crossings_advance_stage(s, (n - 1) as nat);
        let prev = spec_pad_run(s, (n - 1) as nat);
        let e0 = s.current_exp->0;
        assert(0 <= n * u && n * u <= PAD_COUNT * u) by (nonlinear_arith)
            requires
                0 <= n <= PAD_COUNT,
                u >= 0,
        ;
        assert((n - 1) * u + u == n * u) by (nonlinear_arith);
        let x = e0 + n * u;
        assert(0 <= x <= 524287);
        let raw = spec_pad_tick_raw(prev);
        assert(raw == (x * (EXP_SCALE as int)) as i32);
        assert(x * (EXP_SCALE as int) <= 524287 * (EXP_SCALE as int)) by (nonlinear_arith)
            requires
                0 <= x <= 524287,
        ;
        assert(x * (EXP_SCALE as int) >= 0) by (nonlinear_arith)
            requires
                0 <= x,
        ;
        assert(raw == x * (EXP_SCALE as int));
        lemma_mod_multiples_basic(x, EXP_SCALE as int);
        assert(spec_is_scaled(raw));
        lemma_div_multiples_vanish(x, EXP_SCALE as int);
        assert(spec_normalized(raw) == x);
        // The tick reads back exactly one pad's worth above the previous
        // sample, so it counts a pad; the stage advances only on the last
        // crossing, resetting the counter.
        let t = spec_pad_run(s, n);
        assert(t == spec_step(prev, Some(raw)));
        let (d_opt, s1) = spec_update_exp(prev, Some(raw));
        assert(spec_read_exp(prev, Some(raw)).0 == Some(spec_normalized(raw)));
        assert(spec_read_exp(prev, Some(raw)).1 == prev);
        assert(d_opt == Some(u as int));
        assert(s1.current_exp == Some(x as i32));
        assert(s1.current_pad == n);
        assert(s1.valid);
        assert(s1.level == s.level);
        assert(s1.difficulty == s.difficulty);
        if n == PAD_COUNT {
            assert(t.level == s.level.spec_next());
            assert(t.current_pad == 0);
        } else {
            assert(s1.current_pad < PAD_COUNT);
            assert(!s1.level.spec_is_boss_level());
            assert(t == s1);
        }
    }
}

/// A fresh `PadsCrossed { num: 3 }` countdown does not fire on the first
/// or second pad crossing and fires exactly on the third.
pub proof fn lemma_pads_crossed_three(sc1: StateChange, sc2: StateChange, sc3: StateChange)
    requires
        sc1.valid.current && sc2.valid.current && sc3.valid.current,
        sc1.difficulty.current is Some && sc2.difficulty.current is Some && sc3.difficulty.current
            is Some,
        sc1.exps.previous is Some && sc2.exps.previous is Some && sc3.exps.previous is Some,
        sc1.exps.current is Some && sc2.exps.current is Some && sc3.exps.current is Some,
        sc1.pads.previous != sc1.pads.current,
        sc2.pads.previous != sc2.pads.current,
        sc3.pads.previous != sc3.pads.current,
    ensures
        ({
            let split = SplitType::PadsCrossed { num: 3 };
            let st0 = SplitState::spec_from_split(Some(split));
            let (r1, st1) = spec_should_split(sc1, st0, split);
            let (r2, st2) = spec_should_split(sc2, st1, split);
            let (r3, _st3) = spec_should_split(sc3, st2, split);
            &&& !r1
            &&& !r2
            &&& r3
        }),
{
}

/// One tick whose sample adds exactly a boss stage's kill reward completes
/// that stage — advancing the cycle, wrapping from the last boss back to
/// the first stage — and `BossComplete` fires on the emitted change.
pub proof fn lemma_boss_kill_completes(s: GameData, raw: i32, st: SplitState)
    requires
        s.wf(),
        s.valid,
        s.exp_pointer is Some,
        s.level.spec_is_boss_level(),
        s.difficulty is Some,
        spec_is_scaled(raw),
        spec_normalized(raw) - s.current_exp->0 == s.level.spec_unit_exp(s.difficulty->0),
    ensures
        ({
            let t = spec_step(s, Some(raw));
            let sc = spec_state_change(s, t);
            &&& t.valid
            &&& t.level == s.level.spec_next()
            &&& t.current_pad == s.current_pad
            &&& spec_should_split(sc, st, SplitType::BossComplete).0
        }),
{
}

} // verus!
