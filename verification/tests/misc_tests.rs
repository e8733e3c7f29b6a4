use wl_clip_persist::decimal::{parse_u64, push_decimal, ParseNumberError};
use wl_clip_persist::signal::{on_shutdown_signal, signal_exit_code, ShutdownAction, ShutdownPhase, ShutdownSignal};
use wl_clip_persist::reconnect::ExitCode;
use wl_clip_persist::text::{eq_ignore_ascii_case, join_lines, text_eq};
use wl_clip_persist::zeroize::{ZeroizeBuffer, ZeroizeSlice};

fn decimal(n: u64) -> String {
    let mut s = String::new();
    push_decimal(&mut s, n);
    s
}

#[test]
fn decimal_text_matches_std() {
    for n in [0u64, 1, 9, 10, 99, 100, 12345, u32::MAX as u64, u64::MAX] {
        assert_eq!(decimal(n), n.to_string());
    }
}

#[test]
fn decimal_roundtrip() {
    for n in [0u64, 7, 10, 4096, 1_000_000_007, u64::MAX - 1, u64::MAX] {
        let text: Vec<char> = decimal(n).chars().collect();
        assert_eq!(parse_u64(&text), Ok(n));
    }
}

#[test]
fn parse_error_messages() {
    assert_eq!(ParseNumberError::Empty.message(), "cannot parse integer from empty string");
    assert_eq!(ParseNumberError::InvalidDigit.message(), "invalid digit found in string");
    assert_eq!(ParseNumberError::PosOverflow.message(), "number too large to fit in target type");
}

#[test]
fn text_helpers() {
    assert!(text_eq("abc", "abc"));
    assert!(!text_eq("abc", "abd"));
    assert!(!text_eq("abc", "ab"));
    assert!(eq_ignore_ascii_case("InF", "inf"));
    assert!(!eq_ignore_ascii_case("ınf", "inf"));
    assert_eq!(join_lines("a\nb", ", "), "a, b");
    assert_eq!(join_lines("single line", "--"), "single line");
}

#[test]
fn signal_exit_codes() {
    assert_eq!(signal_exit_code(ShutdownSignal::Interrupt), ExitCode(130));
    assert_eq!(signal_exit_code(ShutdownSignal::Terminate), ExitCode(143));
}

#[test]
fn second_signal_forces_exit() {
    let (phase, action) = on_shutdown_signal(ShutdownPhase::Running, ShutdownSignal::Terminate);
    assert_eq!(phase, ShutdownPhase::ShuttingDown);
    assert_eq!(action, ShutdownAction::CancelToken);
    let (phase, action) = on_shutdown_signal(phase, ShutdownSignal::Interrupt);
    assert_eq!(phase, ShutdownPhase::ShuttingDown);
    assert_eq!(action, ShutdownAction::ForceExit(ExitCode(130)));
}

fn bytes_of(buffer: &ZeroizeBuffer) -> Vec<u8> {
    match buffer {
        ZeroizeBuffer::Growable(v) => v.clone(),
        ZeroizeBuffer::Boxed(b) => b.to_vec(),
    }
}

#[test]
fn zeroize_slice_keeps_and_zeroes() {
    let mut s = ZeroizeSlice::new(ZeroizeBuffer::Growable(vec![1, 2, 3]));
    assert_eq!(bytes_of(s.as_ref()), vec![1, 2, 3]);
    s.zeroize();
    assert_eq!(bytes_of(s.as_ref()), vec![0, 0, 0]);
}

#[test]
fn zeroize_slice_into_boxed_slice() {
    let s = ZeroizeSlice::new(ZeroizeBuffer::Growable(vec![4, 5]));
    let b = s.into_boxed_slice();
    assert!(matches!(b.as_ref(), ZeroizeBuffer::Boxed(_)));
    assert_eq!(bytes_of(&b), vec![4, 5]);
    let mut b = b;
    b.zeroize();
    assert_eq!(bytes_of(&b), vec![0, 0]);
}

#[test]
fn zeroize_slice_as_mut_writes_through() {
    let mut s = ZeroizeSlice::new(ZeroizeBuffer::Growable(vec![]));
    if let ZeroizeBuffer::Growable(v) = s.as_mut() {
        v.extend_from_slice(b"secret");
    }
    assert_eq!(bytes_of(&s), b"secret".to_vec());
}

#[test]
fn zeroize_slice_into_boxed_slice_with_spare_capacity() {
    let mut v = Vec::with_capacity(64);
    v.extend_from_slice(&[9, 8, 7]);
    let b = ZeroizeSlice::new(ZeroizeBuffer::Growable(v)).into_boxed_slice();
    match b.as_ref() {
        ZeroizeBuffer::Boxed(bytes) => assert_eq!(&**bytes, &[9, 8, 7]),
        ZeroizeBuffer::Growable(_) => panic!("expected a boxed slice"),
    }
    let again = b.into_boxed_slice();
    assert_eq!(bytes_of(&again), vec![9, 8, 7]);
}
