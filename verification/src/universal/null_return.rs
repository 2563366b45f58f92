use vstd::prelude::*;

use crate::error::{succeeded, ComError, HResult, S_OK};

verus! {

/// Some APIs report "nothing there" as a failed call whose error carries the
/// success code `S_OK`. `as_option` turns such a result into `Ok(None)`.
pub trait NullReturn<T>: Sized {
    fn as_option(self) -> Result<Option<T>, ComError>;
}

/// What `as_option` makes of a call's result.
pub open spec fn null_return_spec<T>(r: Result<T, ComError>) -> Result<Option<T>, ComError> {
    match r {
        Ok(value) => Ok(Some(value)),
        Err(error) => if error.code == HResult(S_OK) {
            Ok(None)
        } else {
            Err(error)
        },
    }
}

impl<T> NullReturn<T> for Result<T, ComError> {
    /// A value becomes `Some(value)`; an error with the code `S_OK` becomes
    /// `None`; any other error is returned as it is.
    fn as_option(self) -> (r: Result<Option<T>, ComError>)
        ensures
            r == null_return_spec(self),
            self is Ok ==> r == Ok::<Option<T>, ComError>(Some(self->Ok_0)),
            self is Err && self->Err_0.code.0 == S_OK ==> r == Ok::<Option<T>, ComError>(None),
            self is Err && self->Err_0.code.0 != S_OK ==> r == Err::<Option<T>, ComError>(
                self->Err_0,
            ),
    {
        match self {
            Ok(element) => Ok(Some(element)),
            Err(error) => {
                if error.code.0 == S_OK {
                    Ok(None)
                } else {
                    Err(error)
                }
            },
        }
    }
}

/// An error whose code is a failure code is never read as a null return:
/// it comes back unchanged.
pub proof fn lemma_failure_is_never_null<T>(code: HResult)
    requires
        !succeeded(code),
    ensures
        null_return_spec(Err::<T, ComError>(ComError { code })) == Err::<Option<T>, ComError>(
            ComError { code },
        ),
{
}

/// A success is never lost: `as_option` gives `Ok(None)` only for an error
/// carrying `S_OK`, and `Ok(Some(v))` exactly for `Ok(v)`.
pub proof fn lemma_null_return_cases<T>(r: Result<T, ComError>)
    ensures
        null_return_spec(r) is Ok && null_return_spec(r)->Ok_0 is None <==> r == Err::<T, ComError>(
            ComError { code: HResult(S_OK) },
        ),
        forall|v: T| #[trigger] null_return_spec(r) == Ok::<Option<T>, ComError>(Some(v)) <==> r == Ok::<T, ComError>(v),
{
}

} // verus!
