use cosmwasm_vm::BackendError;
use wasmvm::{Buffer, GoResult};

fn no_default() -> String {
    panic!("the default message must not be produced")
}

#[test]
fn decode_known_codes() {
    assert_eq!(GoResult::from(0), GoResult::Success);
    assert_eq!(GoResult::from(1), GoResult::Panic);
    assert_eq!(GoResult::from(2), GoResult::BadArgument);
    assert_eq!(GoResult::from(3), GoResult::OutOfGas);
    assert_eq!(GoResult::from(5), GoResult::User);
    assert_eq!(GoResult::from(42), GoResult::Other);
    assert_eq!(GoResult::from(-7), GoResult::Other);
}

#[test]
fn decode_is_total() {
    for n in [4, 6, 7, 100, -1, i32::MIN, i32::MAX] {
        assert_eq!(GoResult::from(n), GoResult::Other);
    }
    for n in -1000..1000 {
        let expected_other = !matches!(n, 0 | 1 | 2 | 3 | 5);
        assert_eq!(GoResult::from(n) == GoResult::Other, expected_other);
    }
}

#[test]
fn encoding_is_pinned() {
    assert_eq!(GoResult::Success.code(), 0);
    assert_eq!(GoResult::Panic.code(), 1);
    assert_eq!(GoResult::BadArgument.code(), 2);
    assert_eq!(GoResult::OutOfGas.code(), 3);
    assert_eq!(GoResult::Other.code(), 4);
    assert_eq!(GoResult::User.code(), 5);
}

#[test]
fn encode_then_decode_round_trips() {
    let all = [
        GoResult::Success,
        GoResult::Panic,
        GoResult::BadArgument,
        GoResult::OutOfGas,
        GoResult::Other,
        GoResult::User,
    ];
    for code in all {
        assert_eq!(GoResult::from(code.code()), code);
    }
}

#[test]
fn labels() {
    assert_eq!(GoResult::Success.label(), "Ok");
    assert_eq!(GoResult::Panic.label(), "Panic");
    assert_eq!(GoResult::BadArgument.label(), "BadArgument");
    assert_eq!(GoResult::OutOfGas.label(), "OutOfGas");
    assert_eq!(GoResult::Other.label(), "Other Error");
    assert_eq!(GoResult::User.label(), "User Error");
}

#[test]
fn structural_stage_of_success() {
    assert_eq!(GoResult::Success.try_structural(), Some(Ok(())));
}

#[test]
fn structural_stage_of_fixed_errors() {
    assert_eq!(
        GoResult::Panic.try_structural(),
        Some(Err(BackendError::foreign_panic()))
    );
    assert_eq!(
        GoResult::BadArgument.try_structural(),
        Some(Err(BackendError::bad_argument()))
    );
    assert_eq!(
        GoResult::OutOfGas.try_structural(),
        Some(Err(BackendError::out_of_gas()))
    );
}

#[test]
fn structural_stage_needs_fallback() {
    assert_eq!(GoResult::Other.try_structural(), None);
    assert_eq!(GoResult::User.try_structural(), None);
    assert_eq!(GoResult::from(9).try_structural(), None);
}

#[test]
fn fixed_codes_ignore_buffer_and_default() {
    let r = GoResult::Success.into_ffi_result(Buffer::Present(b"boom".to_vec()), no_default);
    assert_eq!(r, Ok(()));
    let r = GoResult::Panic.into_ffi_result(Buffer::Absent, no_default);
    assert_eq!(r, Err(BackendError::foreign_panic()));
    let r = GoResult::BadArgument.into_ffi_result(Buffer::Absent, no_default);
    assert_eq!(r, Err(BackendError::bad_argument()));
    let r = GoResult::OutOfGas.into_ffi_result(Buffer::Present(vec![1, 2]), no_default);
    assert_eq!(r, Err(BackendError::out_of_gas()));
}

#[test]
fn absent_buffer_uses_default() {
    let r = GoResult::Other.into_ffi_result(Buffer::Absent, || "D".to_string());
    assert_eq!(r, Err(BackendError::unknown("D")));
    let r = GoResult::User.into_ffi_result(Buffer::Absent, || "D".to_string());
    assert_eq!(r, Err(BackendError::user_err("D")));
}

#[test]
fn present_buffer_takes_precedence() {
    let r = GoResult::User.into_ffi_result(Buffer::Present(b"boom".to_vec()), no_default);
    assert_eq!(r, Err(BackendError::user_err("boom")));
    let r = GoResult::Other.into_ffi_result(Buffer::Present(b"boom".to_vec()), no_default);
    assert_eq!(r, Err(BackendError::unknown("boom")));
}

#[test]
fn empty_buffer_uses_default() {
    let r = GoResult::User.into_ffi_result(Buffer::Present(Vec::new()), || "D".to_string());
    assert_eq!(r, Err(BackendError::user_err("D")));
    let r = GoResult::from(77).into_ffi_result(Buffer::Present(Vec::new()), || "D".to_string());
    assert_eq!(r, Err(BackendError::unknown("D")));
}

#[test]
fn invalid_utf8_is_decoded_leniently() {
    let bytes = vec![b'a', 0xff, b'b', 0xc3];
    let r = GoResult::User.into_ffi_result(Buffer::Present(bytes), no_default);
    assert_eq!(r, Err(BackendError::user_err("a\u{fffd}b\u{fffd}")));
    let r = GoResult::Other.into_ffi_result(Buffer::Present(vec![0x80]), no_default);
    assert_eq!(r, Err(BackendError::unknown("\u{fffd}")));
}

#[test]
fn multibyte_message_is_kept() {
    let msg = "grüße ✓";
    let r = GoResult::User.into_ffi_result(Buffer::Present(msg.as_bytes().to_vec()), no_default);
    assert_eq!(r, Err(BackendError::user_err(msg)));
}

#[test]
fn resolve_with_known_message() {
    assert_eq!(
        GoResult::User.resolve_with_message("m".to_string()),
        Err(BackendError::user_err("m"))
    );
    assert_eq!(
        GoResult::Other.resolve_with_message("m".to_string()),
        Err(BackendError::unknown("m"))
    );
    assert_eq!(GoResult::Success.resolve_with_message("m".to_string()), Ok(()));
    assert_eq!(
        GoResult::OutOfGas.resolve_with_message("m".to_string()),
        Err(BackendError::out_of_gas())
    );
}

#[test]
fn buffer_consumed_once() {
    let buffer = Buffer::Present(b"boom".to_vec());
    assert!(buffer.has_message());
    assert_eq!(buffer.consume(), b"boom".to_vec());
    assert!(!Buffer::Absent.has_message());
    assert!(!Buffer::Present(Vec::new()).has_message());
}
