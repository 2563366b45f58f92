use robmikh_common::error::{ComError, HResult, E_NOTIMPL, S_OK};
use robmikh_common::universal::null_return::NullReturn;

#[test]
fn value_becomes_some() {
    let r: Result<u32, ComError> = Ok(5);
    assert_eq!(r.as_option(), Ok(Some(5)));
}

#[test]
fn error_with_success_code_becomes_none() {
    let r: Result<u32, ComError> = Err(ComError::from_code(S_OK));
    assert_eq!(r.as_option(), Ok(None));
}

#[test]
fn other_errors_are_kept() {
    let r: Result<u32, ComError> = Err(ComError::from_code(E_NOTIMPL));
    assert_eq!(r.as_option(), Err(ComError { code: HResult(E_NOTIMPL) }));
    let r: Result<u32, ComError> = Err(ComError::from_code(1));
    assert_eq!(r.as_option(), Err(ComError { code: HResult(1) }));
}

#[test]
fn failure_is_never_null() {
    for code in [-1, E_NOTIMPL, i32::MIN] {
        let r: Result<(), ComError> = HResult(code).ok();
        assert_eq!(r.as_option(), Err(ComError { code: HResult(code) }));
    }
    let r: Result<(), ComError> = HResult(S_OK).ok();
    assert_eq!(r.as_option(), Ok(Some(())));
}
