use vstd::prelude::*;
use vstd::string::*;

use crate::error::Error;
use vstd::utf8::is_ascii_chars;

use crate::text::{all_ascii, ascii_lower, ascii_lowercase, lowercases_to, same_text, to_lowercase, unicode_lowercase};

verus! {

/// Wire format of function arguments and results.
#[derive(Debug, Clone, Copy, PartialEq, Eq, Structural)]
pub enum DataFormat {
    /// CBOR, the format this client prefers.
    Cbor,
    /// Python pickle, which this client cannot produce or read.
    Pickle,
}

/// The number that the protocol uses for a data format.
pub open spec fn format_code(format: DataFormat) -> i32 {
    match format {
        DataFormat::Cbor => 4,
        DataFormat::Pickle => 1,
    }
}

/// The data format that a protocol number stands for; unknown numbers read as CBOR.
pub open spec fn format_of_code(value: i32) -> DataFormat {
    if value == 1 {
        DataFormat::Pickle
    } else {
        DataFormat::Cbor
    }
}

impl Default for DataFormat {
    fn default() -> (r: DataFormat)
        ensures
            r == DataFormat::Cbor,
    {
        DataFormat::Cbor
    }
}

/// The protocol number of a data format.
pub fn data_format_to_proto(format: DataFormat) -> (r: i32)
    ensures
        r == format_code(format),
{
    match format {
        DataFormat::Cbor => 4,
        DataFormat::Pickle => 1,
    }
}

/// The data format of a protocol number; numbers other than those of the
/// known formats are read as CBOR.
pub fn data_format_from_proto(value: i32) -> (r: DataFormat)
    ensures
        r == format_of_code(value),
{
    match value {
        1 => DataFormat::Pickle,
        4 => DataFormat::Cbor,
        _ => DataFormat::Cbor,
    }
}

/// The format that a lowercased name stands for: `pickle` names pickle,
/// and every other name, known or not, reads as CBOR.
pub open spec fn format_for_name(lowered: Seq<char>) -> DataFormat {
    if lowered == "pickle"@ {
        DataFormat::Pickle
    } else {
        DataFormat::Cbor
    }
}

/// The format that an already lowercased name stands for.
pub fn data_format_for_name(lowered: &str) -> (r: DataFormat)
    ensures
        r == format_for_name(lowered@),
{
    if same_text(lowered, "pickle") {
        DataFormat::Pickle
    } else {
        DataFormat::Cbor
    }
}

/// The format to use, given the setting `MODAL_PAYLOAD_FORMAT` where it is
/// set: the setting is lowercased and read by `format_for_name`. A setting
/// made of ASCII characters is lowercased by turning its capitals into small
/// letters, which is what Unicode lowercasing does to ASCII text; any other
/// setting is lowercased by the standard library. Where the setting is not
/// set, the name `cbor` is meant, which reads as CBOR.
pub fn preferred_data_format(setting: Option<&str>) -> (r: DataFormat)
    ensures
        setting is None ==> r == DataFormat::Cbor,
        setting matches Some(s) ==> (is_ascii_chars(s@) ==> r == format_for_name(ascii_lowercase(s@))),
        setting matches Some(s) ==> (!is_ascii_chars(s@) ==> r == format_for_name(unicode_lowercase(s@))),
{
    match setting {
        None => DataFormat::Cbor,
        Some(s) => {
            if all_ascii(s) {
                if lowercases_to(s, "pickle") {
                    DataFormat::Pickle
                } else {
                    DataFormat::Cbor
                }
            } else {
                let lowered = to_lowercase(s);
                data_format_for_name(lowered.as_str())
            }
        },
    }
}

/// The text of the error for arguments that were to be sent as pickle.
pub open spec fn pickle_encode_text() -> Seq<char> {
    "Pickle format not yet supported in Rust SDK. Use CBOR format instead."@
}

/// The text of the error for a result that came as pickle.
pub open spec fn pickle_decode_text() -> Seq<char> {
    "Pickle format not yet supported in Rust SDK. Use CBOR format instead."@
}

/// The text of the error for arguments that the CBOR encoder refused.
pub open spec fn cbor_encode_failure_text(detail: Seq<char>) -> Seq<char> {
    "CBOR serialization failed: "@ + detail
}

/// The text of the error for a result that the CBOR decoder refused.
pub open spec fn cbor_decode_failure_text(detail: Seq<char>) -> Seq<char> {
    "CBOR deserialization failed: "@ + detail
}

/// The outcome of encoding, given what the encoder returned: its bytes, or
/// its description of the failure.
pub open spec fn encoded_as(outcome: Result<Vec<u8>, String>, r: Result<Vec<u8>, Error>) -> bool {
    match outcome {
        Ok(bytes) => r matches Ok(b) && b@ == bytes@,
        Err(detail) => r matches Err(Error::Serialization(m)) && m@ == cbor_encode_failure_text(detail@),
    }
}

/// The outcome of decoding, given what the decoder returned: its value, or
/// its description of the failure.
pub open spec fn decoded_as<T>(outcome: Result<T, String>, r: Result<T, Error>) -> bool {
    match outcome {
        Ok(v) => r matches Ok(x) && x == v,
        Err(detail) => r matches Err(Error::Deserialization(m)) && m@ == cbor_decode_failure_text(detail@),
    }
}

/// What the CBOR encoder returned, as an outcome of the client.
pub fn cbor_encoded(outcome: Result<Vec<u8>, String>) -> (r: Result<Vec<u8>, Error>)
    ensures
        encoded_as(outcome, r),
{
    match outcome {
        Ok(bytes) => Ok(bytes),
        Err(detail) => Err(
            Error::Serialization(String::from_str("CBOR serialization failed: ").concat(detail.as_str())),
        ),
    }
}

/// What the CBOR decoder returned, as an outcome of the client.
pub fn cbor_decoded<T>(outcome: Result<T, String>) -> (r: Result<T, Error>)
    ensures
        decoded_as(outcome, r),
{
    match outcome {
        Ok(v) => Ok(v),
        Err(detail) => Err(
            Error::Deserialization(String::from_str("CBOR deserialization failed: ").concat(detail.as_str())),
        ),
    }
}

/// Encodes arguments in a format: `encode` is the CBOR encoder applied to
/// the arguments, and it runs only where the format is CBOR; pickle is
/// refused without encoding anything.
pub fn serialize_args_with_format<F: FnOnce() -> Result<Vec<u8>, String>>(encode: F, format: DataFormat) -> (r: Result<Vec<u8>, Error>)
    requires
        format == DataFormat::Cbor ==> call_requires(encode, ()),
    ensures
        format == DataFormat::Pickle ==> (r matches Err(Error::Serialization(m)) && m@ == pickle_encode_text()),
        format == DataFormat::Cbor ==> exists|o: Result<Vec<u8>, String>| call_ensures(encode, (), o) && encoded_as(o, r),
{
    match format {
        DataFormat::Cbor => {
            let o = encode();
            cbor_encoded(o)
        },
        DataFormat::Pickle => Err(
            Error::Serialization(
                String::from_str("Pickle format not yet supported in Rust SDK. Use CBOR format instead."),
            ),
        ),
    }
}

/// Decodes a result in a format: `decode` is the CBOR decoder applied to
/// the result's bytes, and it runs only where the format is CBOR; pickle is
/// refused without decoding anything.
pub fn deserialize_result_with_format<T, F: FnOnce() -> Result<T, String>>(decode: F, format: DataFormat) -> (r: Result<T, Error>)
    requires
        format == DataFormat::Cbor ==> call_requires(decode, ()),
    ensures
        format == DataFormat::Pickle ==> (r matches Err(Error::Deserialization(m)) && m@ == pickle_decode_text()),
        format == DataFormat::Cbor ==> exists|o: Result<T, String>| call_ensures(decode, (), o) && decoded_as(o, r),
{
    match format {
        DataFormat::Cbor => {
            let o = decode();
            cbor_decoded(o)
        },
        DataFormat::Pickle => Err(
            Error::Deserialization(
                String::from_str("Pickle format not yet supported in Rust SDK. Use CBOR format instead."),
            ),
        ),
    }
}

/// Reading back the number of a format gives the format again.
pub proof fn lemma_format_code_round_trip(format: DataFormat)
    ensures
        format_of_code(format_code(format)) == format,
{
}

/// A number reads back to itself exactly when it is the number of a known format.
pub proof fn lemma_code_round_trip(value: i32)
    ensures
        (format_code(format_of_code(value)) == value) <==> (value == 1 || value == 4),
{
}

/// CBOR is protocol number 4 and pickle number 1; every other number reads
/// as CBOR.
pub proof fn lemma_protocol_numbers(value: i32)
    ensures
        format_code(DataFormat::Cbor) == 4,
        format_code(DataFormat::Pickle) == 1,
        value != 1 ==> format_of_code(value) == DataFormat::Cbor,
        format_of_code(1) == DataFormat::Pickle,
{
}

/// A setting of ASCII characters selects pickle exactly when it spells
/// `pickle` in any mix of small and capital letters; every other setting of
/// ASCII characters selects CBOR.
pub proof fn lemma_pickle_setting(setting: Seq<char>)
    ensures
        (format_for_name(ascii_lowercase(setting)) == DataFormat::Pickle) <==> (setting.len() == 6 && forall|i: int|
            0 <= i < 6 ==> (#[trigger] setting[i] == "pickle"@[i] || setting[i] as int + 32 == "pickle"@[i] as int)),
{
    reveal_strlit("pickle");
    let p = "pickle"@;
    if setting.len() == 6 && forall|i: int|
        0 <= i < 6 ==> (#[trigger] setting[i] == p[i] || setting[i] as int + 32 == p[i] as int) {
        assert forall|i: int| 0 <= i < 6 implies ascii_lowercase(setting)[i] == p[i] by {
            assert(setting[i] == p[i] || setting[i] as int + 32 == p[i] as int);
        }
        assert(ascii_lowercase(setting) =~= p);
    }
    if format_for_name(ascii_lowercase(setting)) == DataFormat::Pickle {
        assert(ascii_lowercase(setting) == p);
        assert(p.len() == 6);
        assert(ascii_lowercase(setting).len() == setting.len());
        assert(setting.len() == 6);
        assert forall|i: int| 0 <= i < 6 implies (#[trigger] setting[i] == p[i] || setting[i] as int + 32
            == p[i] as int) by {
            let c = setting[i];
            assert(ascii_lowercase(setting)[i] == ascii_lower(c));
            assert(ascii_lower(c) == p[i]);
            if 'A' <= c <= 'Z' {
                assert(((c as int + 32) as char) as int == c as int + 32);
            }
        }
    }
}

/// Encoding and decoding keep what the codec gives: its bytes or value
/// unchanged, or an error whose text ends with the codec's own description.
pub proof fn lemma_codec_outcomes(
    bytes_outcome: Result<Vec<u8>, String>,
    encoded: Result<Vec<u8>, Error>,
    value_outcome: Result<u32, String>,
    decoded: Result<u32, Error>,
)
    requires
        encoded_as(bytes_outcome, encoded),
        decoded_as(value_outcome, decoded),
    ensures
        bytes_outcome matches Ok(b) ==> (encoded matches Ok(x) && x@ == b@),
        bytes_outcome matches Err(d) ==> (encoded matches Err(Error::Serialization(m)) && d@.is_suffix_of(m@)),
        value_outcome matches Ok(v) ==> decoded == Ok::<u32, Error>(v),
        value_outcome matches Err(d) ==> (decoded matches Err(Error::Deserialization(m)) && d@.is_suffix_of(m@)),
{
    if let Err(d) = bytes_outcome {
        if let Err(Error::Serialization(m)) = encoded {
            assert(m@.subrange(m@.len() - d@.len(), m@.len() as int) =~= d@);
        }
    }
    if let Err(d) = value_outcome {
        if let Err(Error::Deserialization(m)) = decoded {
            assert(m@.subrange(m@.len() - d@.len(), m@.len() as int) =~= d@);
        }
    }
}

} // verus!
