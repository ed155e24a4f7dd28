use webpublish::{ApplyError, Classification, InvocationResult, StdinBytes};

fn result(status: Option<i32>, stdout: &[u8], stderr: &[u8]) -> InvocationResult {
    InvocationResult::from_output(status, stdout.to_vec(), stderr.to_vec())
}

#[test]
fn zero_exit_is_success() {
    let r = result(Some(0), b"already exists", b"");
    assert!(r.is_success());
    assert!(!r.is_idempotent_failure());
    assert_eq!(r.classification(), Classification::Success);
    assert_eq!(r.exit_code(), 0);
}

#[test]
fn already_exists_is_idempotent_failure() {
    let r = result(Some(1), b"Error: project already exists", b"");
    assert!(!r.is_success());
    assert!(r.is_idempotent_failure());
    assert_eq!(r.classification(), Classification::IdempotentFailure);
    assert_eq!(r.exit_code(), 1);
}

#[test]
fn phrase_match_ignores_case() {
    let r = result(Some(1), b"", b"Domain ALREADY Exists on project");
    assert_eq!(r.classification(), Classification::IdempotentFailure);
}

#[test]
fn each_recognised_phrase_is_idempotent() {
    for phrase in ["already added", "Already Bound", "already associated"] {
        let r = result(Some(7), phrase.as_bytes(), b"");
        assert_eq!(r.classification(), Classification::IdempotentFailure, "{phrase}");
    }
}

#[test]
fn phrase_may_span_stdout_and_stderr() {
    let r = result(Some(1), b"it is already ", b"exists");
    assert_eq!(r.classification(), Classification::IdempotentFailure);
}

#[test]
fn invalid_utf8_does_not_hide_phrase() {
    let r = result(Some(1), &[0xff, 0xfe, b' '], b"already bound");
    assert_eq!(r.classification(), Classification::IdempotentFailure);
}

#[test]
fn other_failure_is_hard() {
    let r = result(Some(3), b"Error: authentication failed", b"");
    assert!(!r.is_idempotent_failure());
    assert_eq!(r.classification(), Classification::HardFailure);
    assert_eq!(r.exit_code(), 3);
}

#[test]
fn no_exit_code_means_one() {
    let r = result(None, b"", b"killed");
    assert!(!r.is_success());
    assert_eq!(r.classification(), Classification::HardFailure);
    assert_eq!(r.exit_code(), 1);
}

#[test]
fn output_is_kept_verbatim() {
    let r = result(Some(0), b"out\n", b"err\n");
    assert_eq!(r.stdout(), b"out\n");
    assert_eq!(r.stderr(), b"err\n");
}

#[test]
fn apply_error_exit_codes() {
    let e = ApplyError::from_invocation(result(Some(4), b"", b""));
    assert_eq!(e.exit_code(), 4);
    let e = ApplyError::from_invocation(result(None, b"", b""));
    assert_eq!(e.exit_code(), 1);
    let e = ApplyError::from_io(std::io::Error::new(std::io::ErrorKind::NotFound, "no tool"));
    assert_eq!(e.exit_code(), 1);
    match e {
        ApplyError::Io { message } => assert!(message.contains("no tool")),
        other => panic!("unexpected {other:?}"),
    }
}

#[test]
fn empty_input_is_detected() {
    assert!(StdinBytes::from_bytes(Vec::new()).is_empty());
    let bytes = StdinBytes::from_bytes(vec![0, 1]);
    assert!(!bytes.is_empty());
    assert_eq!(bytes.into_bytes(), vec![0, 1]);
}
