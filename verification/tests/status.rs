use smtp_session::status::Status;

#[test]
fn status_codes_are_exact() {
    assert_eq!(Status::Greeting.code(), 220);
    assert_eq!(Status::Success.code(), 250);
    assert_eq!(Status::BeginData.code(), 354);
    assert_eq!(Status::Goodbye.code(), 221);
    assert_eq!(Status::NotRecognized.code(), 500);
}

#[test]
fn status_lines_are_exact() {
    assert_eq!(Status::Greeting.line(), "220 Eccentric Mail Server Ready\r\n");
    assert_eq!(Status::Success.line(), "250 OK\r\n");
    assert_eq!(Status::BeginData.line(), "354 Start mail input; end with <CRLF>.<CRLF>\r\n");
    assert_eq!(Status::Goodbye.line(), "221 OK\r\n");
    assert_eq!(Status::NotRecognized.line(), "500 Command not recognized\r\n");
}

#[test]
fn status_lines_begin_with_code_and_space() {
    let all = [
        Status::Greeting,
        Status::Success,
        Status::BeginData,
        Status::Goodbye,
        Status::NotRecognized,
    ];
    for status in all {
        let line = status.line();
        assert!(line.starts_with(&format!("{} ", status.code())));
        assert!(line.ends_with("\r\n"));
        assert!(line.len() > 6);
        assert_eq!(line.matches('\r').count(), 1);
        assert_eq!(line.matches('\n').count(), 1);
    }
}
