use vstd::prelude::*;

use crate::error::{and_some_spec, succeeded, ComError, HResult, E_NOINTERFACE};

verus! {

/// What a `QueryInterface` call that returned `code` and filled in `result`
/// means for a cast that may fail: `E_NOINTERFACE` is `Ok(None)`, any other
/// success code gives the interface that was filled in, and any other failure
/// code is the error carrying it.
pub open spec fn query_outcome_spec<T>(code: HResult, result: Option<T>) -> Result<Option<T>, ComError> {
    if code == HResult(E_NOINTERFACE) {
        Ok(None)
    } else if succeeded(code) {
        Ok(result)
    } else {
        Err(ComError { code })
    }
}

/// Decides the outcome of a cast from the code that `QueryInterface`
/// returned and the interface that it filled in.
pub fn query_outcome<T>(code: HResult, result: Option<T>) -> (r: Result<Option<T>, ComError>)
    ensures
        r == query_outcome_spec(code, result),
        code.0 == E_NOINTERFACE ==> r == Ok::<Option<T>, ComError>(None),
        code.0 >= 0 ==> r == Ok::<Option<T>, ComError>(result),
        code.0 < 0 && code.0 != E_NOINTERFACE ==> r == Err::<Option<T>, ComError>(
            ComError { code },
        ),
{
    if code.0 == E_NOINTERFACE {
        Ok(None)
    } else if code.is_ok() {
        Ok(result)
    } else {
        match code.ok() {
            Err(error) => Err(error),
            Ok(()) => Ok(result),
        }
    }
}

/// A cast never fails because the interface is missing: a missing
/// interface is `Ok(None)`, and an error always carries a failure code
/// other than `E_NOINTERFACE`.
pub proof fn lemma_query_error_is_real_failure<T>(code: HResult, result: Option<T>)
    ensures
        query_outcome_spec(code, result) is Err ==> {
            &&& !succeeded(query_outcome_spec(code, result)->Err_0.code)
            &&& query_outcome_spec(code, result)->Err_0.code != HResult(E_NOINTERFACE)
            &&& query_outcome_spec(code, result)->Err_0.code == code
        },
{
}

/// A cast that may fail and a cast that must succeed (`query`, then
/// `and_some`, as `windows` casts) agree on every `QueryInterface` call that
/// fills in an interface whenever it succeeds: the first gives `Some(t)`
/// exactly when the second gives `t`, it gives `None` exactly when the second
/// fails with `E_NOINTERFACE`, and otherwise both fail with the same error.
pub proof fn lemma_query_outcome_agrees_with_cast<T>(code: HResult, result: Option<T>)
    requires
        succeeded(code) ==> result is Some,
    ensures
        forall|t: T|
            #[trigger] query_outcome_spec(code, result) == Ok::<Option<T>, ComError>(Some(t))
                <==> and_some_spec(code, result) == Ok::<T, ComError>(t),
        query_outcome_spec(code, result) == Ok::<Option<T>, ComError>(None) <==> and_some_spec(
            code,
            result,
        ) == Err::<T, ComError>(ComError { code: HResult(E_NOINTERFACE) }),
        query_outcome_spec(code, result) is Err <==> (and_some_spec(code, result) is Err
            && and_some_spec(code, result)->Err_0.code != HResult(E_NOINTERFACE)),
        query_outcome_spec(code, result) is Err ==> query_outcome_spec(code, result)->Err_0
            == and_some_spec(code, result)->Err_0,
{
}

} // verus!
