use echo_supervisor::error::{ErrorKind, SampleError};

fn every_variant(text: &str) -> Vec<SampleError> {
    vec![
        SampleError::ConnectionError(text.to_string()),
        SampleError::StreamOpeningError(text.to_string()),
        SampleError::StreamReadError(text.to_string()),
        SampleError::StreamWriteError(text.to_string()),
        SampleError::SendDatagramError(text.to_string()),
        SampleError::JoinError(text.to_string()),
        SampleError::Io(text.to_string()),
        SampleError::Generic(text.to_string()),
    ]
}

#[test]
fn messages_of_every_variant() {
    let messages: Vec<String> = every_variant("x").iter().map(|e| e.message()).collect();
    assert_eq!(
        messages,
        vec![
            "Connection error",
            "Stream opening error",
            "Stream read error",
            "Stream write error",
            "Send datagram error",
            "Join error",
            "I/O error",
            "Generic error: x",
        ]
    );
}

#[test]
fn kinds_of_every_variant() {
    let kinds: Vec<ErrorKind> = every_variant("x").iter().map(|e| e.kind()).collect();
    assert_eq!(
        kinds,
        vec![
            ErrorKind::Connection,
            ErrorKind::StreamOpening,
            ErrorKind::StreamRead,
            ErrorKind::StreamWrite,
            ErrorKind::SendDatagram,
            ErrorKind::Join,
            ErrorKind::Io,
            ErrorKind::Generic,
        ]
    );
}

#[test]
fn diagnostics_of_every_variant() {
    let lines: Vec<String> = every_variant("TimedOut").iter().map(|e| e.diagnostic()).collect();
    assert_eq!(
        lines,
        vec![
            "ConnectionError(TimedOut)",
            "StreamOpeningError(TimedOut)",
            "StreamReadError(TimedOut)",
            "StreamWriteError(TimedOut)",
            "SendDatagramError(TimedOut)",
            "JoinError(TimedOut)",
            "Io(TimedOut)",
            "Generic(\"TimedOut\")",
        ]
    );
}

#[test]
fn generic_message_is_carried_whole() {
    let error = SampleError::Generic("No Connecting instance returned".to_string());
    assert_eq!(error.message(), "Generic error: No Connecting instance returned");
}

#[test]
fn generic_diagnostic_quotes_and_escapes_the_message() {
    let error = SampleError::Generic("say \"hi\"\n".to_string());
    assert_eq!(error.diagnostic(), "Generic(\"say \\\"hi\\\"\\n\")");
    assert_ne!(error.diagnostic(), "Generic(say \"hi\"\n)");
}

#[test]
fn generic_diagnostic_of_the_empty_message() {
    assert_eq!(SampleError::Generic(String::new()).diagnostic(), "Generic(\"\")");
    assert_eq!(SampleError::Generic(String::new()).message(), "Generic error: ");
}

#[test]
fn empty_cause() {
    assert_eq!(SampleError::Io(String::new()).diagnostic(), "Io()");
    assert_eq!(SampleError::Io(String::new()).message(), "I/O error");
}
