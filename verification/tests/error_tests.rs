use modal::Error;

#[test]
fn error_messages_name_their_kind() {
    let cases = [
        (Error::Auth("a".to_string()), "Authentication error: a"),
        (Error::Connection("b".to_string()), "Connection error: b"),
        (Error::FunctionNotFound("c".to_string()), "Function not found: c"),
        (Error::Serialization("d".to_string()), "Serialization error: d"),
        (Error::Deserialization("e".to_string()), "Deserialization error: e"),
        (Error::Grpc("f".to_string()), "gRPC error: f"),
        (Error::Http("g".to_string()), "HTTP error: g"),
        (Error::Io("h".to_string()), "IO error: h"),
        (Error::Other("i".to_string()), "Other error: i"),
    ];
    for (e, text) in cases {
        assert_eq!(e.message(), text);
    }
}

#[test]
fn codec_failures_are_serialization_errors() {
    assert_eq!(
        Error::from_cbor_failure("trailing data"),
        Error::Serialization("CBOR error: trailing data".to_string())
    );
}

#[test]
fn transport_failures_are_connection_errors() {
    assert_eq!(
        Error::from_transport_failure("refused"),
        Error::Connection("Transport error: refused".to_string())
    );
    assert_eq!(
        Error::from_transport_failure("refused").message(),
        "Connection error: Transport error: refused"
    );
}
