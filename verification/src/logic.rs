use vstd::prelude::*;

verus! {

/// Error raised by conversions out of the nine-valued logic domain and by
/// indexed access to a logic vector.
#[derive(Clone, Copy, Debug, PartialEq, Eq, Structural)]
pub enum LogicError {
    /// An indexed access at or past the width of a logic vector.
    IndexOutOfRange,
    /// A boolean or aggregate read of a signal that is not driven to a
    /// plain high or low level.
    UnresolvedState,
}

/// The nine-valued hardware signal state.
#[derive(Clone, Copy, Debug, PartialEq, Eq, Structural)]
pub enum LogicValue {
    Uninitialized,
    Unknown,
    High,
    Low,
    HiZ,
    Weak,
    WeakLow,
    WeakHigh,
    DontCare,
}

impl LogicValue {
    /// The small-integer code used at the simulator boundary.
    pub open spec fn spec_to_code(self) -> u8 {
        match self {
            LogicValue::Uninitialized => 0,
            LogicValue::Unknown => 1,
            LogicValue::Low => 2,
            LogicValue::High => 3,
            LogicValue::HiZ => 4,
            LogicValue::Weak => 5,
            LogicValue::WeakLow => 6,
            LogicValue::WeakHigh => 7,
            LogicValue::DontCare => 8,
        }
    }

    /// The state a boundary code denotes; every out-of-range code reads as Unknown.
    pub open spec fn spec_from_code(code: u8) -> LogicValue {
        match code {
            0 => LogicValue::Uninitialized,
            1 => LogicValue::Unknown,
            2 => LogicValue::Low,
            3 => LogicValue::High,
            4 => LogicValue::HiZ,
            5 => LogicValue::Weak,
            6 => LogicValue::WeakLow,
            7 => LogicValue::WeakHigh,
            8 => LogicValue::DontCare,
            _ => LogicValue::Unknown,
        }
    }

    /// A state is driven when it resolves to a plain boolean level.
    pub open spec fn spec_driven(self) -> bool {
        self == LogicValue::Low || self == LogicValue::High || self == LogicValue::WeakLow
            || self == LogicValue::WeakHigh
    }

    /// The boolean level of a driven state.
    pub open spec fn spec_bool(self) -> bool {
        self == LogicValue::High || self == LogicValue::WeakHigh
    }

    pub fn to_code(self) -> (r: u8)
        ensures
            r == self.spec_to_code(),
    {
        match self {
            LogicValue::Uninitialized => 0,
            LogicValue::Unknown => 1,
            LogicValue::Low => 2,
            LogicValue::High => 3,
            LogicValue::HiZ => 4,
            LogicValue::Weak => 5,
            LogicValue::WeakLow => 6,
            LogicValue::WeakHigh => 7,
            LogicValue::DontCare => 8,
        }
    }

    pub fn from_code(code: u8) -> (r: LogicValue)
        ensures
            r == LogicValue::spec_from_code(code),
            code > 8 ==> r == LogicValue::Unknown,
    {
        match code {
            0 => LogicValue::Uninitialized,
            1 => LogicValue::Unknown,
            2 => LogicValue::Low,
            3 => LogicValue::High,
            4 => LogicValue::HiZ,
            5 => LogicValue::Weak,
            6 => LogicValue::WeakLow,
            7 => LogicValue::WeakHigh,
            8 => LogicValue::DontCare,
            _ => LogicValue::Unknown,
        }
    }

    pub fn from_bool(level: bool) -> (r: LogicValue)
        ensures
            r == (if level {
                LogicValue::High
            } else {
                LogicValue::Low
            }),
    {
        if level {
            LogicValue::High
        } else {
            LogicValue::Low
        }
    }

    /// Resolves a driven state to its boolean level; an undriven state is
    /// reported as unresolved rather than defaulted, since masking it would
    /// hide a simulation defect.
    pub fn try_to_bool(self) -> (r: Result<bool, LogicError>)
        ensures
            self.spec_driven() <==> r is Ok,
            r is Ok ==> r->Ok_0 == self.spec_bool(),
            !self.spec_driven() ==> r == Result::<bool, LogicError>::Err(
                LogicError::UnresolvedState,
            ),
    {
        match self {
            LogicValue::Low | LogicValue::WeakLow => Ok(false),
            LogicValue::High | LogicValue::WeakHigh => Ok(true),
            _ => Err(LogicError::UnresolvedState),
        }
    }

    /// The canonical single-character diagnostic form of each state.
    pub open spec fn spec_to_char(self) -> char {
        match self {
            LogicValue::Uninitialized => 'U',
            LogicValue::Unknown => 'X',
            LogicValue::High => '1',
            LogicValue::Low => '0',
            LogicValue::HiZ => 'Z',
            LogicValue::Weak => 'W',
            LogicValue::WeakLow => 'L',
            LogicValue::WeakHigh => 'H',
            LogicValue::DontCare => '-',
        }
    }

    pub fn to_char(self) -> (r: char)
        ensures
            r == self.spec_to_char(),
    {
        match self {
            LogicValue::Uninitialized => 'U',
            LogicValue::Unknown => 'X',
            LogicValue::High => '1',
            LogicValue::Low => '0',
            LogicValue::HiZ => 'Z',
            LogicValue::Weak => 'W',
            LogicValue::WeakLow => 'L',
            LogicValue::WeakHigh => 'H',
            LogicValue::DontCare => '-',
        }
    }
}

impl Default for LogicValue {
    /// A fresh signal cell starts uninitialized.
    fn default() -> (r: Self)
        ensures
            r == LogicValue::Uninitialized,
    {
        LogicValue::Uninitialized
    }
}

/// Encoding a state and decoding the code again yields the same state,
/// for every one of the nine states: the code mapping is a bijection
/// onto the valid code range.
pub proof fn lemma_code_round_trip(v: LogicValue)
    ensures
        LogicValue::spec_from_code(v.spec_to_code()) == v,
{
}

} // verus!
