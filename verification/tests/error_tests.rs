use hdfs_mirror::error::{
    Cause, CodeMsgError, Error, ErrorKind, MsgError, PathError, PermError, RegexCaptureError,
    RegexError, TargetStringError, ValueFault,
};
use regex::Regex;

#[test]
fn test_code_msg_error_trait() {
    let e = Error::new(
        ErrorKind::ChildOutput,
        Cause::CodeMsg(CodeMsgError::new(None, "Fake".to_string())),
    );
    assert_eq!(e.kind(), ErrorKind::ChildOutput);
    assert_eq!(
        e.cause(),
        &Cause::CodeMsg(CodeMsgError { code: None, msg: "Fake".to_string() })
    );
}

#[test]
fn test_msg_error_trait() {
    let e = Error::new(ErrorKind::StderrValidMsg, Cause::Msg(MsgError::new("Fake".to_string())));
    assert_eq!(e.kind(), ErrorKind::StderrValidMsg);
    assert_eq!(e.cause(), &Cause::Msg(MsgError { msg: "Fake".to_string() }));
}

#[test]
fn test_path_error_trait() {
    let e = Error::new(
        ErrorKind::FileIo,
        Cause::Path(PathError::new("Fake path".to_string(), "Fake error".to_string())),
    );
    assert_eq!(e.kind(), ErrorKind::FileIo);
    assert_eq!(
        e.cause(),
        &Cause::Path(PathError { path: "Fake path".to_string(), inner: "Fake error".to_string() })
    );
}

#[test]
fn test_regex_capture_error_trait() {
    let fake_regex = Regex::new("");
    assert!(fake_regex.is_ok());
    let fake_regex = fake_regex.unwrap();

    let e = Error::new(
        ErrorKind::RegexInitialHdfsDfCap,
        Cause::RegexCapture(RegexCaptureError::new(fake_regex.as_str(), "Fake target".to_string())),
    );
    assert_eq!(
        e.cause(),
        &Cause::RegexCapture(RegexCaptureError {
            pattern: "".to_string(),
            target: "Fake target".to_string()
        })
    );
}

#[test]
fn test_target_string_error_trait() {
    let e = Error::new(
        ErrorKind::ParseHdfsDfUsedValue,
        Cause::TargetString(TargetStringError::new("Fake".to_string(), ValueFault::InvalidDigit)),
    );
    assert_eq!(
        e.cause(),
        &Cause::TargetString(TargetStringError {
            target: "Fake".to_string(),
            inner: ValueFault::InvalidDigit
        })
    );
}

#[test]
fn code_msg_error_keeps_code_and_message() {
    let e = CodeMsgError::new(Some(3), "no such file".to_string());
    assert_eq!(e.code, Some(3));
    assert_eq!(e.msg, "no such file");
}

#[test]
fn regex_capture_error_keeps_pattern_of_regex() {
    let re = Regex::new(r"^a+\d$").unwrap();
    let e = RegexCaptureError::new(re.as_str(), "bbb".to_string());
    assert_eq!(e.pattern, r"^a+\d$");
    assert_eq!(e.target, "bbb");
}

#[test]
fn perm_and_regex_errors_keep_their_text() {
    assert_eq!(PermError::new("rwxrwxrw".to_string()).perm, "rwxrwxrw");
    let e = RegexError::new("a(".to_string(), "unclosed group".to_string());
    assert_eq!(e.target, "a(");
    assert_eq!(e.inner, "unclosed group");
}

#[test]
fn error_from_kind_has_no_cause() {
    let e = Error::from_kind(ErrorKind::StderrEmpty);
    assert_eq!(e.kind(), ErrorKind::StderrEmpty);
    assert_eq!(e.cause(), &Cause::Absent);
}
