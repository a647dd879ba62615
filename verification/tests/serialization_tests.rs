use modal::serialization::{
    cbor_decoded, cbor_encoded, data_format_for_name, data_format_from_proto, data_format_to_proto,
    deserialize_result_with_format, preferred_data_format, serialize_args_with_format, DataFormat,
};
use modal::Error;

#[test]
fn default_format_is_cbor() {
    assert_eq!(DataFormat::default(), DataFormat::Cbor);
    assert_eq!(data_format_to_proto(DataFormat::default()), 4);
}

#[test]
fn formats_have_protocol_numbers() {
    assert_eq!(data_format_to_proto(DataFormat::Cbor), 4);
    assert_eq!(data_format_to_proto(DataFormat::Pickle), 1);
}

#[test]
fn protocol_numbers_read_back() {
    assert_eq!(data_format_from_proto(1), DataFormat::Pickle);
    assert_eq!(data_format_from_proto(4), DataFormat::Cbor);
}

#[test]
fn unknown_protocol_numbers_read_as_cbor() {
    assert_eq!(data_format_from_proto(0), DataFormat::Cbor);
    assert_eq!(data_format_from_proto(2), DataFormat::Cbor);
    assert_eq!(data_format_from_proto(-1), DataFormat::Cbor);
    assert_eq!(data_format_from_proto(i32::MAX), DataFormat::Cbor);
}

#[test]
fn format_round_trip() {
    for f in [DataFormat::Cbor, DataFormat::Pickle] {
        assert_eq!(data_format_from_proto(data_format_to_proto(f)), f);
    }
    for v in [1, 4] {
        assert_eq!(data_format_to_proto(data_format_from_proto(v)), v);
    }
    assert_ne!(data_format_to_proto(data_format_from_proto(7)), 7);
}

#[test]
fn format_names() {
    assert_eq!(data_format_for_name("pickle"), DataFormat::Pickle);
    assert_eq!(data_format_for_name("cbor"), DataFormat::Cbor);
    assert_eq!(data_format_for_name("json"), DataFormat::Cbor);
    assert_eq!(data_format_for_name(""), DataFormat::Cbor);
    assert_eq!(data_format_for_name("PICKLE"), DataFormat::Cbor);
}

#[test]
fn preferred_format_ignores_case() {
    assert_eq!(preferred_data_format(None), DataFormat::Cbor);
    assert_eq!(preferred_data_format(Some("pickle")), DataFormat::Pickle);
    assert_eq!(preferred_data_format(Some("PiCkLe")), DataFormat::Pickle);
    assert_eq!(preferred_data_format(Some("CBOR")), DataFormat::Cbor);
    assert_eq!(preferred_data_format(Some("pickles")), DataFormat::Cbor);
    assert_eq!(preferred_data_format(Some("")), DataFormat::Cbor);
}

#[test]
fn cbor_encoding_outcomes() {
    assert_eq!(cbor_encoded(Ok(vec![1, 2, 3])), Ok(vec![1, 2, 3]));
    assert_eq!(
        cbor_encoded(Err("bad".to_string())),
        Err(Error::Serialization("CBOR serialization failed: bad".to_string()))
    );
}

#[test]
fn cbor_decoding_outcomes() {
    assert_eq!(cbor_decoded::<u32>(Ok(7)), Ok(7));
    assert_eq!(
        cbor_decoded::<u32>(Err("eof".to_string())),
        Err(Error::Deserialization("CBOR deserialization failed: eof".to_string()))
    );
}

#[test]
fn cbor_arguments_are_encoded() {
    let r = serialize_args_with_format(|| Ok(vec![0xa1, 0x01]), DataFormat::Cbor);
    assert_eq!(r, Ok(vec![0xa1, 0x01]));
    let r = serialize_args_with_format(|| Err("no".to_string()), DataFormat::Cbor);
    assert_eq!(r, Err(Error::Serialization("CBOR serialization failed: no".to_string())));
}

#[test]
fn pickle_arguments_are_refused_without_encoding() {
    let mut ran = false;
    let r = serialize_args_with_format(
        || {
            ran = true;
            Ok(vec![1])
        },
        DataFormat::Pickle,
    );
    assert!(!ran);
    assert_eq!(
        r,
        Err(Error::Serialization(
            "Pickle format not yet supported in Rust SDK. Use CBOR format instead.".to_string()
        ))
    );
}

#[test]
fn results_are_decoded_by_format() {
    let r = deserialize_result_with_format(|| Ok(String::from("x")), DataFormat::Cbor);
    assert_eq!(r, Ok(String::from("x")));
    let r = deserialize_result_with_format::<u8, _>(|| Err("short".to_string()), DataFormat::Cbor);
    assert_eq!(r, Err(Error::Deserialization("CBOR deserialization failed: short".to_string())));
    let r = deserialize_result_with_format(|| Ok(3u8), DataFormat::Pickle);
    assert_eq!(
        r,
        Err(Error::Deserialization(
            "Pickle format not yet supported in Rust SDK. Use CBOR format instead.".to_string()
        ))
    );
}

#[test]
fn non_ascii_setting_is_lowercased_by_unicode() {
    // The Kelvin sign lowercases to a plain `k`.
    assert_eq!(preferred_data_format(Some("PIC\u{212A}LE")), DataFormat::Pickle);
    assert_eq!(preferred_data_format(Some("pïckle")), DataFormat::Cbor);
}
