//! The status code that a host callback returns, with its pinned numeric encoding.
use vstd::prelude::*;

verus! {

/// Names for the status codes returned from host callbacks.
///
/// The numeric value of each variant is part of the binary interface and is
/// pinned by [`GoResult::code`] and [`GoResult::from`]: changing one of them is a
/// breaking protocol change, and the two must always be changed together.
#[derive(Clone, Copy, Debug, PartialEq, Eq, Structural)]
pub enum GoResult {
    /// The call succeeded.
    Success,
    /// The callback panicked for an unexpected reason.
    Panic,
    /// The callback received a bad argument.
    BadArgument,
    /// Gas ran out while the callback was running (e.g. in storage).
    OutOfGas,
    /// An error during normal operation of a callback, which should abort the contract.
    Other,
    /// An error during normal operation of a callback, which should be fed back to the contract.
    User,
}

/// The integer that encodes each status code on the wire.
pub open spec fn code_of(r: GoResult) -> int {
    match r {
        GoResult::Success => 0,
        GoResult::Panic => 1,
        GoResult::BadArgument => 2,
        GoResult::OutOfGas => 3,
        GoResult::Other => 4,
        GoResult::User => 5,
    }
}

/// Decoding of a raw status integer: every value that names no other code is `Other`.
pub open spec fn decode(n: int) -> GoResult {
    if n == 0 {
        GoResult::Success
    } else if n == 1 {
        GoResult::Panic
    } else if n == 2 {
        GoResult::BadArgument
    } else if n == 3 {
        GoResult::OutOfGas
    } else if n == 5 {
        GoResult::User
    } else {
        GoResult::Other
    }
}

/// The diagnostic label of each status code.
pub open spec fn label_of(r: GoResult) -> Seq<char> {
    match r {
        GoResult::Success => "Ok"@,
        GoResult::Panic => "Panic"@,
        GoResult::BadArgument => "BadArgument"@,
        GoResult::OutOfGas => "OutOfGas"@,
        GoResult::Other => "Other Error"@,
        GoResult::User => "User Error"@,
    }
}

impl GoResult {
    /// The numeric encoding of this status code.
    pub fn code(&self) -> (r: i32)
        ensures
            r == code_of(*self),
    {
        match self {
            GoResult::Success => 0,
            GoResult::Panic => 1,
            GoResult::BadArgument => 2,
            GoResult::OutOfGas => 3,
            GoResult::Other => 4,
            GoResult::User => 5,
        }
    }

    /// A human-readable label for diagnostics.
    pub fn label(&self) -> (r: String)
        ensures
            r@ == label_of(*self),
    {
        match self {
            GoResult::Success => "Ok".to_owned(),
            GoResult::Panic => "Panic".to_owned(),
            GoResult::BadArgument => "BadArgument".to_owned(),
            GoResult::OutOfGas => "OutOfGas".to_owned(),
            GoResult::Other => "Other Error".to_owned(),
            GoResult::User => "User Error".to_owned(),
        }
    }
}

impl From<i32> for GoResult {
    /// Decodes a raw status integer; any number that is not otherwise an
    /// expected value becomes `GoResult::Other`.
    fn from(n: i32) -> (r: GoResult) {
        match n {
            0 => GoResult::Success,
            1 => GoResult::Panic,
            2 => GoResult::BadArgument,
            3 => GoResult::OutOfGas,
            5 => GoResult::User,
            _ => GoResult::Other,
        }
    }
}

impl vstd::std_specs::convert::FromSpecImpl<i32> for GoResult {
    open spec fn obeys_from_spec() -> bool {
        true
    }

    open spec fn from_spec(n: i32) -> GoResult {
        decode(n as int)
    }
}

/// Decoding is total: every integer decodes, and every integer outside
/// {0, 1, 2, 3, 5} decodes to `Other`.
pub proof fn lemma_decode_total(n: i32)
    ensures
        n != 0 && n != 1 && n != 2 && n != 3 && n != 5 ==> decode(n as int) == GoResult::Other,
        decode(n as int) == GoResult::Success <==> n == 0,
        decode(n as int) == GoResult::User <==> n == 5,
{
}

/// Encoding a status code and decoding the integer gives back the same code.
pub proof fn lemma_round_trip(r: GoResult)
    ensures
        decode(code_of(r)) == r,
{
}

} // verus!
