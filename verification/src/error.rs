use vstd::prelude::*;

verus! {

/// Why the vault refused an operation.
#[derive(Copy, Clone, Debug, PartialEq, Eq, Structural)]
pub enum Error {
    /// `initialize` found a record already in place.
    AlreadyInitialized,
    /// A deposit or a withdrawal came before `initialize`.
    NotInitialized,
    /// The unlock time has passed, but the holdings are below the goal.
    GoalNotReached,
    /// The unlock time has not passed yet.
    TooEarly,
    /// A deposit of zero or less.
    InvalidAmount,
}

impl Error {
    /// The number under which a host reports this error.
    pub open spec fn spec_code(self) -> u32 {
        match self {
            Error::AlreadyInitialized => 1,
            Error::NotInitialized => 2,
            Error::GoalNotReached => 3,
            Error::TooEarly => 4,
            Error::InvalidAmount => 5,
        }
    }

    /// The number under which a host reports this error.
    pub fn code(self) -> (code: u32)
        ensures
            code == self.spec_code(),
            1 <= code <= 5,
    {
        match self {
            Error::AlreadyInitialized => 1,
            Error::NotInitialized => 2,
            Error::GoalNotReached => 3,
            Error::TooEarly => 4,
            Error::InvalidAmount => 5,
        }
    }

    /// The error that a host reports under `code`, if there is one.
    pub fn from_code(code: u32) -> (error: Option<Error>)
        ensures
            error matches Some(e) ==> e.spec_code() == code,
            error is None <==> !(1 <= code <= 5),
    {
        match code {
            1 => Some(Error::AlreadyInitialized),
            2 => Some(Error::NotInitialized),
            3 => Some(Error::GoalNotReached),
            4 => Some(Error::TooEarly),
            5 => Some(Error::InvalidAmount),
            _ => None,
        }
    }
}

} // verus!
