//! The split conditions, the stage cycle, and the experience constants.
//!
//! A `SplitType` doubles as a stage identity: the thirteen level variants
//! (`Level1` .. `CowLevel`) name the stages of the fixed cycle, and the
//! remaining variants are pure split conditions. Every experience constant
//! scales linearly with the difficulty multiplier.

use vstd::prelude::*;

verus! {

/// A split condition, or a stage identity (the thirteen level variants).
#[derive(Debug, Clone, Copy, PartialEq, Eq, Structural)]
pub enum SplitType {
    Manual,
    Level1,
    Level2,
    Level3,
    Bot2000,
    Level4,
    Level5,
    Level6,
    Odin,
    Level7,
    Level8,
    Level9,
    Diablo,
    CowLevel,
    ExpGained,
    RawLevelComplete,
    LevelComplete,
    BossComplete,
    Bot2000Cube,
    OdinCube,
    PadCrossed,
    PadCrossedForLevel { raw_level: i32 },
    CompleteForLevel { raw_level: i32 },
    PadsCrossed { num: i32 },
    EnergyCubes { num: i32 },
}

/// The run-wide difficulty class; it fixes the multiplier applied to every
/// experience constant.
#[derive(Debug, Clone, Copy, PartialEq, Eq, Structural)]
pub enum Difficulty {
    Normal,
    Hard,
    Insane,
}

/// Largest experience delta a single tick can legitimately produce: the
/// final boss kill on the highest difficulty.
pub const LARGEST_EXP_DIFFERENCE: i32 = 300 * 3;

impl Difficulty {
    /// The multiplier applied to every experience constant.
    pub open spec fn spec_multiplier(self) -> int {
        match self {
            Difficulty::Normal => 1,
            Difficulty::Hard => 2,
            Difficulty::Insane => 3,
        }
    }

    pub fn multiplier(self) -> (m: i32)
        ensures
            m == self.spec_multiplier(),
    {
        match self {
            Difficulty::Normal => 1,
            Difficulty::Hard => 2,
            Difficulty::Insane => 3,
        }
    }
}

impl SplitType {
    /// True of the nine pad-based stages.
    pub open spec fn spec_is_normal_level(self) -> bool {
        match self {
            SplitType::Level1 | SplitType::Level2 | SplitType::Level3 | SplitType::Level4
            | SplitType::Level5 | SplitType::Level6 | SplitType::Level7 | SplitType::Level8
            | SplitType::Level9 => true,
            _ => false,
        }
    }

    /// True of the four boss stages.
    pub open spec fn spec_is_boss_level(self) -> bool {
        match self {
            SplitType::Bot2000 | SplitType::Odin | SplitType::Diablo | SplitType::CowLevel => true,
            _ => false,
        }
    }

    /// True of the thirteen stage identities.
    pub open spec fn is_level(self) -> bool {
        self.spec_is_normal_level() || self.spec_is_boss_level()
    }

    /// The ordinal of a stage in the fixed cycle, starting at 1.
    pub open spec fn spec_raw_level(self) -> int {
        match self {
            SplitType::Level1 => 1,
            SplitType::Level2 => 2,
            SplitType::Level3 => 3,
            SplitType::Bot2000 => 4,
            SplitType::Level4 => 5,
            SplitType::Level5 => 6,
            SplitType::Level6 => 7,
            SplitType::Odin => 8,
            SplitType::Level7 => 9,
            SplitType::Level8 => 10,
            SplitType::Level9 => 11,
            SplitType::Diablo => 12,
            SplitType::CowLevel => 13,
            _ => arbitrary(),
        }
    }

    /// The stage with the given ordinal.
    pub open spec fn spec_from_raw_level(raw_level: int) -> SplitType {
        if raw_level == 1 {
            SplitType::Level1
        } else if raw_level == 2 {
            SplitType::Level2
        } else if raw_level == 3 {
            SplitType::Level3
        } else if raw_level == 4 {
            SplitType::Bot2000
        } else if raw_level == 5 {
            SplitType::Level4
        } else if raw_level == 6 {
            SplitType::Level5
        } else if raw_level == 7 {
            SplitType::Level6
        } else if raw_level == 8 {
            SplitType::Odin
        } else if raw_level == 9 {
            SplitType::Level7
        } else if raw_level == 10 {
            SplitType::Level8
        } else if raw_level == 11 {
            SplitType::Level9
        } else if raw_level == 12 {
            SplitType::Diablo
        } else if raw_level == 13 {
            SplitType::CowLevel
        } else {
            arbitrary()
        }
    }

    /// The experience granted by one sub-objective of a stage, before any
    /// difficulty scaling caller-side: one pad on a normal stage, the kill
    /// on a boss stage. Meaningful only for the thirteen stage identities.
    pub open spec fn spec_unit_exp(self, difficulty: Difficulty) -> int {
        let m = difficulty.spec_multiplier();
        match self {
            SplitType::Bot2000 => 75 * m,
            SplitType::Odin => 150 * m,
            SplitType::Diablo => 300 * m,
            SplitType::CowLevel => 100 * m,
            SplitType::Level9 => if difficulty is Insane {
                13 * m
            } else {
                12 * m
            },
            SplitType::Level1 | SplitType::Level2 | SplitType::Level3 | SplitType::Level4
            | SplitType::Level5 | SplitType::Level6 | SplitType::Level7 | SplitType::Level8 => (1
                + self.spec_raw_level()) * m,
            _ => arbitrary(),
        }
    }

    /// The experience granted by a cube pickup on one of the two cube-bearing
    /// boss stages.
    pub open spec fn spec_cube_exp(self, difficulty: Difficulty) -> int {
        let m = difficulty.spec_multiplier();
        match self {
            SplitType::Bot2000 => 6 * m,
            SplitType::Odin => 10 * m,
            _ => arbitrary(),
        }
    }

    /// The successor of a stage in the fixed cycle; the last boss wraps back
    /// to the first normal stage.
    pub open spec fn spec_next(self) -> SplitType {
        match self {
            SplitType::Level1 => SplitType::Level2,
            SplitType::Level2 => SplitType::Level3,
            SplitType::Level3 => SplitType::Bot2000,
            SplitType::Bot2000 => SplitType::Level4,
            SplitType::Level4 => SplitType::Level5,
            SplitType::Level5 => SplitType::Level6,
            SplitType::Level6 => SplitType::Odin,
            SplitType::Odin => SplitType::Level7,
            SplitType::Level7 => SplitType::Level8,
            SplitType::Level8 => SplitType::Level9,
            SplitType::Level9 => SplitType::Diablo,
            SplitType::Diablo => SplitType::CowLevel,
            SplitType::CowLevel => SplitType::Level1,
            _ => arbitrary(),
        }
    }

    /// True where a split condition can only be decided once the run's
    /// difficulty is known.
    pub open spec fn spec_need_difficulty(self) -> bool {
        !(self is Manual || self is ExpGained)
    }

    /// True where the split condition carries a stage ordinal that lies in
    /// the cycle; conditions without an ordinal are always well formed.
    pub open spec fn spec_valid_config(self) -> bool {
        match self {
            SplitType::PadCrossedForLevel { raw_level } => 1 <= raw_level <= 13,
            SplitType::CompleteForLevel { raw_level } => 1 <= raw_level <= 13,
            _ => true,
        }
    }

    /// Returns the raw numerical level.
    pub fn raw_level(&self) -> (r: i32)
        requires
            self.is_level(),
        ensures
            r == self.spec_raw_level(),
            1 <= r <= 13,
    {
        match self {
            SplitType::Level1 => 1,
            SplitType::Level2 => 2,
            SplitType::Level3 => 3,
            SplitType::Bot2000 => 4,
            SplitType::Level4 => 5,
            SplitType::Level5 => 6,
            SplitType::Level6 => 7,
            SplitType::Odin => 8,
            SplitType::Level7 => 9,
            SplitType::Level8 => 10,
            SplitType::Level9 => 11,
            SplitType::Diablo => 12,
            SplitType::CowLevel => 13,
            _ => 1,
        }
    }

    /// Returns the stage with the given ordinal.
    pub fn from_raw_level(raw_level: i32) -> (r: SplitType)
        requires
            1 <= raw_level <= 13,
        ensures
            r == SplitType::spec_from_raw_level(raw_level as int),
            r.is_level(),
    {
        match raw_level {
            1 => SplitType::Level1,
            2 => SplitType::Level2,
            3 => SplitType::Level3,
            4 => SplitType::Bot2000,
            5 => SplitType::Level4,
            6 => SplitType::Level5,
            7 => SplitType::Level6,
            8 => SplitType::Odin,
            9 => SplitType::Level7,
            10 => SplitType::Level8,
            11 => SplitType::Level9,
            12 => SplitType::Diablo,
            _ => SplitType::CowLevel,
        }
    }

    /// Returns the exp for a cube on a particular boss level.
    pub fn cube_exp(&self, difficulty: Difficulty) -> (r: i32)
        requires
            self is Bot2000 || self is Odin,
        ensures
            r == self.spec_cube_exp(difficulty),
    {
        match self {
            SplitType::Bot2000 => 6 * difficulty.multiplier(),
            _ => 10 * difficulty.multiplier(),
        }
    }

    /// Returns true if we need the difficulty to be computed for the current
    /// split type.
    pub fn need_difficulty(&self) -> (r: bool)
        ensures
            r == self.spec_need_difficulty(),
    {
        !matches!(self, SplitType::Manual | SplitType::ExpGained)
    }

    pub fn is_normal_level(&self) -> (r: bool)
        ensures
            r == self.spec_is_normal_level(),
    {
        matches!(
            self,
            SplitType::Level1
                | SplitType::Level2
                | SplitType::Level3
                | SplitType::Level4
                | SplitType::Level5
                | SplitType::Level6
                | SplitType::Level7
                | SplitType::Level8
                | SplitType::Level9
        )
    }

    pub fn is_boss_level(&self) -> (r: bool)
        ensures
            r == self.spec_is_boss_level(),
    {
        matches!(
            self,
            SplitType::Bot2000 | SplitType::Odin | SplitType::Diablo | SplitType::CowLevel
        )
    }

    /// True where the split condition's stage ordinal, if it carries one,
    /// lies in the cycle. Checking this once at configuration time keeps a
    /// malformed ordinal from ever reaching the rule engine.
    pub fn valid_config(&self) -> (r: bool)
        ensures
            r == self.spec_valid_config(),
    {
        match self {
            SplitType::PadCrossedForLevel { raw_level } => 1 <= *raw_level && *raw_level <= 13,
            SplitType::CompleteForLevel { raw_level } => 1 <= *raw_level && *raw_level <= 13,
            _ => true,
        }
    }

    /// Returns the amount of exp granted for a single pad, or None otherwise.
    pub fn per_pad_exp(&self, difficulty: Difficulty) -> (r: Option<i32>)
        ensures
            r is Some <==> self.is_level(),
            r matches Some(v) ==> v == self.spec_unit_exp(difficulty),
    {
        let m = difficulty.multiplier();
        match self {
            SplitType::Bot2000 => Some(75 * m),
            SplitType::Odin => Some(150 * m),
            SplitType::Diablo => Some(300 * m),
            SplitType::CowLevel => Some(100 * m),
            SplitType::Level9 => Some(
                if matches!(difficulty, Difficulty::Insane) {
                    13
                } else {
                    12
                } * m,
            ),
            SplitType::Level1
            | SplitType::Level2
            | SplitType::Level3
            | SplitType::Level4
            | SplitType::Level5
            | SplitType::Level6
            | SplitType::Level7
            | SplitType::Level8 => Some((1 + self.raw_level()) * m),
            _ => None,
        }
    }

    /// Returns the boss completion exp.
    pub fn boss_exp(&self, difficulty: Difficulty) -> (r: i32)
        requires
            self.spec_is_boss_level(),
        ensures
            r == self.spec_unit_exp(difficulty),
            75 <= r <= 900,
    {
        match self.per_pad_exp(difficulty) {
            Some(v) => v,
            None => 0,
        }
    }

    /// Returns the exp granted by one pad of a normal stage.
    pub fn standard_exp(&self, difficulty: Difficulty) -> (r: i32)
        requires
            self.spec_is_normal_level(),
        ensures
            r == self.spec_unit_exp(difficulty),
            2 <= r <= 39,
    {
        match self.per_pad_exp(difficulty) {
            Some(v) => v,
            None => 0,
        }
    }

    /// Returns the next stage in the fixed cycle.
    pub fn next(&self) -> (r: SplitType)
        requires
            self.is_level(),
        ensures
            r == self.spec_next(),
            r.is_level(),
    {
        match self {
            SplitType::Level1 => SplitType::Level2,
            SplitType::Level2 => SplitType::Level3,
            SplitType::Level3 => SplitType::Bot2000,
            SplitType::Bot2000 => SplitType::Level4,
            SplitType::Level4 => SplitType::Level5,
            SplitType::Level5 => SplitType::Level6,
            SplitType::Level6 => SplitType::Odin,
            SplitType::Odin => SplitType::Level7,
            SplitType::Level7 => SplitType::Level8,
            SplitType::Level8 => SplitType::Level9,
            SplitType::Level9 => SplitType::Diablo,
            SplitType::Diablo => SplitType::CowLevel,
            _ => SplitType::Level1,
        }
    }
}

/// True when `difference` is exactly some boss stage's kill reward at the
/// given difficulty.
pub open spec fn spec_any_boss(difference: int, difficulty: Difficulty) -> bool {
    ||| difference == SplitType::Bot2000.spec_unit_exp(difficulty)
    ||| difference == SplitType::Odin.spec_unit_exp(difficulty)
    ||| difference == SplitType::Diablo.spec_unit_exp(difficulty)
    ||| difference == SplitType::CowLevel.spec_unit_exp(difficulty)
}

/// Returns true if any boss level was just completed for this difficulty.
pub fn any_boss(difference: i32, difficulty: Difficulty) -> (r: bool)
    ensures
        r == spec_any_boss(difference as int, difficulty),
{
    SplitType::Bot2000.boss_exp(difficulty) == difference
        || SplitType::Odin.boss_exp(difficulty) == difference
        || SplitType::Diablo.boss_exp(difficulty) == difference
        || SplitType::CowLevel.boss_exp(difficulty) == difference
}

} // verus!
