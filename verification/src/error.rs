use vstd::prelude::*;

verus! {

/// A COM result code (`HRESULT`): negative values are failures, all other
/// values are successes.
#[derive(Clone, Copy, Debug, PartialEq, Eq, Structural)]
pub struct HResult(pub i32);

/// `S_OK`: the plain success code.
pub const S_OK: i32 = 0;

/// `E_NOTIMPL`: the operation is not implemented.
pub const E_NOTIMPL: i32 = -2147467263;

/// `E_NOINTERFACE`: the object does not support the requested interface.
pub const E_NOINTERFACE: i32 = -2147467262;

/// `DXGI_ERROR_UNSUPPORTED`: the requested functionality is not supported
/// by the device or the driver.
pub const DXGI_ERROR_UNSUPPORTED: i32 = -2005270524;

/// The error of a failed COM call, identified by its result code.
#[derive(Clone, Copy, Debug, PartialEq, Eq, Structural)]
pub struct ComError {
    pub code: HResult,
}

/// Whether a result code denotes success.
pub open spec fn succeeded(code: HResult) -> bool {
    code.0 >= 0
}

/// `windows::core::HRESULT::is_ok`, which returns `self.0 >= 0`.
#[verifier::external_body]
fn hresult_is_ok(code: i32) -> (ok: bool)
    ensures
        ok == (code >= 0),
{
    windows::core::HRESULT(code).is_ok()
}

/// What a call that returned `code` and filled in `some` gives for a value
/// that must be present.
pub open spec fn and_some_spec<T>(code: HResult, some: Option<T>) -> Result<T, ComError> {
    if succeeded(code) {
        match some {
            Some(result) => Ok(result),
            None => Err(ComError { code: HResult(S_OK) }),
        }
    } else {
        Err(ComError { code })
    }
}

impl HResult {
    /// Returns `true` if the code is a success code.
    pub fn is_ok(self) -> (ok: bool)
        ensures
            ok == succeeded(self),
    {
        hresult_is_ok(self.0)
    }

    /// Converts the code into a `Result`: `Ok` for a success code, otherwise
    /// the error that carries the code.
    pub fn ok(self) -> (r: Result<(), ComError>)
        ensures
            succeeded(self) ==> r == Ok::<(), ComError>(()),
            !succeeded(self) ==> r == Err::<(), ComError>(ComError { code: self }),
    {
        if self.is_ok() {
            Ok(())
        } else {
            Err(ComError { code: self })
        }
    }

    /// The value filled in by a call that returned this code: the value for a
    /// success code that came with one, the error carrying `S_OK` for a
    /// success code that came without one, and otherwise the error carrying
    /// this code. This is how `windows` reads a `QueryInterface` call in
    /// `cast`.
    pub fn and_some<T>(self, some: Option<T>) -> (r: Result<T, ComError>)
        ensures
            r == and_some_spec(self, some),
            self.0 >= 0 && some is Some ==> r == Ok::<T, ComError>(some->Some_0),
            self.0 >= 0 && some is None ==> r == Err::<T, ComError>(
                ComError { code: HResult(S_OK) },
            ),
            self.0 < 0 ==> r == Err::<T, ComError>(ComError { code: self }),
    {
        if self.is_ok() {
            match some {
                Some(result) => Ok(result),
                None => Err(ComError { code: HResult(S_OK) }),
            }
        } else {
            Err(ComError { code: self })
        }
    }
}

impl ComError {
    /// The error that carries the given result code.
    pub fn from_code(code: i32) -> (e: ComError)
        ensures
            e.code == HResult(code),
    {
        ComError { code: HResult(code) }
    }

    /// The result code describing the error.
    pub fn code(&self) -> (c: HResult)
        ensures
            c == self.code,
    {
        self.code
    }
}

} // verus!
