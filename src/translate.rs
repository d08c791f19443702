//! Translation of a status code, and of the message buffer that may come with
//! it, into the backend's typed result.
use vstd::prelude::*;

use cosmwasm_vm::BackendError;

use crate::buffer::{decode_lossy, lossy_utf8, Buffer};
use crate::status::GoResult;

verus! {

/// The backend's error type, `cosmwasm_vm::BackendError`. Its variants and their
/// public fields are read as they are declared, so contracts can name them.
#[verifier::external_type_specification]
pub struct ExBackendError(BackendError);

/// The first, structural stage of the translation: the result that a status code
/// gives by itself, or `None` where the code carries no fixed error and the
/// message buffer has to be consulted.
pub open spec fn structural(code: GoResult) -> Option<Result<(), BackendError>> {
    match code {
        GoResult::Success => Some(Ok(())),
        GoResult::Panic => Some(Err(BackendError::ForeignPanic {  })),
        GoResult::BadArgument => Some(Err(BackendError::BadArgument {  })),
        GoResult::OutOfGas => Some(Err(BackendError::OutOfGas {  })),
        GoResult::Other => None,
        GoResult::User => None,
    }
}

/// The error that a code without a fixed error gives with message `msg`: a user
/// error, which is fed back to the contract, for `User`, else an unknown error.
pub open spec fn fallback_error(code: GoResult, msg: String) -> BackendError {
    if code == GoResult::User {
        BackendError::UserErr { msg }
    } else {
        BackendError::Unknown { msg }
    }
}

/// The whole translation of `code` once the message `msg` is known.
pub open spec fn resolved(code: GoResult, msg: String) -> Result<(), BackendError> {
    match structural(code) {
        Some(r) => r,
        None => Err(fallback_error(code, msg)),
    }
}

/// The structural stage needs no message buffer: `Success` is success, `Panic`,
/// `BadArgument` and `OutOfGas` give their fixed errors, and exactly `Other` and
/// `User` ask for the fallback with the buffer.
pub proof fn lemma_structural_stage(code: GoResult)
    ensures
        code == GoResult::Success ==> structural(code) == Some(Ok::<(), BackendError>(())),
        code == GoResult::Panic ==> structural(code) == Some(
            Err::<(), BackendError>(BackendError::ForeignPanic {  }),
        ),
        code == GoResult::BadArgument ==> structural(code) == Some(
            Err::<(), BackendError>(BackendError::BadArgument {  }),
        ),
        code == GoResult::OutOfGas ==> structural(code) == Some(
            Err::<(), BackendError>(BackendError::OutOfGas {  }),
        ),
        structural(code) is None <==> (code == GoResult::Other || code == GoResult::User),
{
}

/// Once the message is known, a code without a fixed error always translates to
/// an error carrying that message, a user error exactly for `User`.
pub proof fn lemma_fallback_carries_message(code: GoResult, msg: String)
    requires
        code == GoResult::Other || code == GoResult::User,
    ensures
        resolved(code, msg) == Err::<(), BackendError>(fallback_error(code, msg)),
        code == GoResult::User ==> resolved(code, msg) == Err::<(), BackendError>(
            BackendError::UserErr { msg },
        ),
        code == GoResult::Other ==> resolved(code, msg) == Err::<(), BackendError>(
            BackendError::Unknown { msg },
        ),
{
}

/// Relies on `BackendError::foreign_panic`, which builds `ForeignPanic {}`.
#[verifier::external_body]
fn foreign_panic() -> (r: BackendError)
    ensures
        r == (BackendError::ForeignPanic {  }),
{
    BackendError::foreign_panic()
}

/// Relies on `BackendError::bad_argument`, which builds `BadArgument {}`.
#[verifier::external_body]
fn bad_argument() -> (r: BackendError)
    ensures
        r == (BackendError::BadArgument {  }),
{
    BackendError::bad_argument()
}

/// Relies on `BackendError::out_of_gas`, which builds `OutOfGas {}`.
#[verifier::external_body]
fn out_of_gas() -> (r: BackendError)
    ensures
        r == (BackendError::OutOfGas {  }),
{
    BackendError::out_of_gas()
}

/// Relies on `BackendError::unknown`, which builds `Unknown { msg }` from the
/// `String` that it is given, unchanged.
#[verifier::external_body]
fn unknown(msg: String) -> (r: BackendError)
    ensures
        r == (BackendError::Unknown { msg }),
{
    BackendError::unknown(msg)
}

/// Relies on `BackendError::user_err`, which builds `UserErr { msg }` from the
/// `String` that it is given, unchanged.
#[verifier::external_body]
fn user_err(msg: String) -> (r: BackendError)
    ensures
        r == (BackendError::UserErr { msg }),
{
    BackendError::user_err(msg)
}

impl GoResult {
    /// Converts the code into a result without consulting any message buffer.
    ///
    /// `Other` and `User` never carry a fixed error: for them this returns
    /// `None`, and the message buffer has to be consulted.
    pub fn try_structural(self) -> (r: Option<Result<(), BackendError>>)
        ensures
            r == structural(self),
    {
        match self {
            GoResult::Success => Some(Ok(())),
            GoResult::Panic => Some(Err(foreign_panic())),
            GoResult::BadArgument => Some(Err(bad_argument())),
            GoResult::OutOfGas => Some(Err(out_of_gas())),
            GoResult::Other => None,
            GoResult::User => None,
        }
    }

    /// Translates the code, using `msg` as the message of a code that has no
    /// fixed error.
    pub fn resolve_with_message(self, msg: String) -> (r: Result<(), BackendError>)
        ensures
            r == resolved(self, msg),
    {
        let is_user_error = self == GoResult::User;
        match self.try_structural() {
            Some(r) => r,
            None => {
                if is_user_error {
                    Err(user_err(msg))
                } else {
                    Err(unknown(msg))
                }
            },
        }
    }

    /// Translates the code, taking the message of a code without a fixed error
    /// from `output` where it holds one, else from `default`.
    ///
    /// A buffer that holds a message is consumed exactly once and decoded as
    /// UTF-8 leniently, so invalid bytes never make the translation fail;
    /// `default` is called only when the code has no fixed error and the buffer
    /// is absent or empty. A `User` code gives an error that is fed back to the
    /// contract; every other error aborts the contract's execution.
    pub fn into_ffi_result<F>(self, output: Buffer, default: F) -> (r: Result<(), BackendError>)
        where
            F: Fn() -> String,
        requires
            default.requires(()),
        ensures
            structural(self) is Some ==> r == structural(self)->0,
            structural(self) is None && output.carries_message() ==> exists|m: String|
                m@ == lossy_utf8(output@->0) && r == resolved(self, m),
            structural(self) is None && !output.carries_message() ==> exists|m: String|
                default.ensures((), m) && r == resolved(self, m),
    {
        match self.try_structural() {
            Some(r) => r,
            None => {
                let msg = if output.has_message() {
                    let bytes = output.consume();
                    decode_lossy(&bytes)
                } else {
                    default()
                };
                self.resolve_with_message(msg)
            },
        }
    }
}

} // verus!
