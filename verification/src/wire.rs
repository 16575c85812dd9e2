//! The protobuf wire format, as far as the messages of this crate need it.
//!
//! Fields are written and read by the `protobuf` crate. Each function here
//! makes one call into it on a byte string of its own, so that the caller
//! keeps the position in the message: a reader is given the bytes that are
//! left and says how many of them it used.

use vstd::prelude::*;
use vstd::string::*;
use vstd::utf8::*;
use protobuf::ProtobufError;

verus! {

/// The error type of the `protobuf` crate. Nothing is read from it.
#[verifier::external_type_specification]
#[verifier::external_body]
pub struct ExProtobufError(protobuf::ProtobufError);

/// The largest number that a field can have.
pub const MAX_FIELD_NUMBER: u32 = 0x1fff_ffff;

/// The wire type of a field whose value is a length and as many bytes.
pub const LENGTH_DELIMITED: u32 = 2;

/// A number as a varint: seven bits to a byte, the low bits first, every
/// byte but the last with its high bit set.
pub open spec fn varint(value: nat) -> Seq<u8>
    decreases value,
{
    if value < 128 {
        seq![value as u8]
    } else {
        seq![(value % 128 + 128) as u8] + varint(value / 128)
    }
}

/// A string field on the wire: its tag (the field number and the wire type
/// of length-delimited values), the length of the text in bytes, and the
/// text as UTF-8.
pub open spec fn string_field(field_number: u32, value: Seq<char>) -> Seq<u8> {
    let text = encode_utf8(value);
    varint((field_number * 8 + LENGTH_DELIMITED) as nat) + varint(text.len()) + text
}

/// The tag at the start of `bytes`, if one can be read: the field number,
/// the wire type, and the number of bytes that the tag takes.
pub uninterp spec fn tag_read(bytes: Seq<u8>) -> Option<(u32, u32, usize)>;

/// The string field value at the start of `bytes`, if one can be read
/// under the wire type `wire_type`: the text, and the number of bytes that
/// the value takes.
pub uninterp spec fn string_read(bytes: Seq<u8>, wire_type: u32) -> Option<(Seq<char>, usize)>;

/// The number of bytes that the value of the unknown field `field_number`
/// takes at the start of `bytes`, if one can be read under the wire type
/// `wire_type`.
pub uninterp spec fn unknown_read(bytes: Seq<u8>, field_number: u32, wire_type: u32) -> Option<usize>;

/// Writes one string field.
///
/// Trusted: this is `CodedOutputStream::write_string` of the `protobuf`
/// crate, on a stream made by `CodedOutputStream::vec` over an empty vector
/// and flushed. It writes the tag, the length and the text as
/// [`string_field`] says, and a stream over a vector does not fail. A field
/// number outside 1..=[`MAX_FIELD_NUMBER`] makes it panic, and a length
/// beyond 32 bits is cut short, so neither is admitted.
#[verifier::external_body]
pub(crate) fn write_string_field(
    field_number: u32,
    value: &str,
) -> (written: Result<Vec<u8>, ProtobufError>)
    requires
        0 < field_number <= MAX_FIELD_NUMBER,
        value.spec_bytes().len() <= u32::MAX,
    ensures
        written is Ok,
        written matches Ok(bytes) ==> bytes@ == string_field(field_number, value@),
{
    let mut bytes = Vec::new();
    let mut stream = protobuf::CodedOutputStream::vec(&mut bytes);
    stream.write_string(field_number, value)?;
    stream.flush()?;
    drop(stream);
    Ok(bytes)
}

/// Reads the tag at the start of `bytes`.
///
/// Trusted: this is `CodedInputStream::read_tag_unpack` of the `protobuf`
/// crate, on a stream made by `CodedInputStream::from_bytes`, with
/// `CodedInputStream::pos` for the bytes used. What it reads depends on the
/// bytes alone, and a tag takes at least one byte and no more than there
/// are.
#[verifier::external_body]
pub(crate) fn read_tag(bytes: &[u8]) -> (read: Result<(u32, u32, usize), ProtobufError>)
    ensures
        match read {
            Ok(tag) => {
                &&& tag_read(bytes@) == Some(tag)
                &&& 0 < tag.2 <= bytes@.len()
            },
            Err(_) => tag_read(bytes@) is None,
        },
{
    let mut stream = protobuf::CodedInputStream::from_bytes(bytes);
    let (field_number, wire_type) = stream.read_tag_unpack()?;
    Ok((field_number, wire_type as u32, stream.pos() as usize))
}

/// Reads the value of a string field at the start of `bytes`.
///
/// Trusted: this is `rt::read_singular_proto3_string_into` of the
/// `protobuf` crate, on a stream made by `CodedInputStream::from_bytes`,
/// with `wire_format::WireType::new` for the wire type and
/// `CodedInputStream::pos` for the bytes used. What it reads depends on the
/// bytes and the wire type alone, and it uses no more bytes than there are.
#[verifier::external_body]
pub(crate) fn read_string_field(
    bytes: &[u8],
    wire_type: u32,
) -> (read: Result<(String, usize), ProtobufError>)
    ensures
        match read {
            Ok(field) => {
                &&& string_read(bytes@, wire_type) == Some((field.0@, field.1))
                &&& field.1 <= bytes@.len()
            },
            Err(_) => string_read(bytes@, wire_type) is None,
        },
{
    let mut stream = protobuf::CodedInputStream::from_bytes(bytes);
    let mut text = String::new();
    match protobuf::wire_format::WireType::new(wire_type) {
        Some(wire_type) => protobuf::rt::read_singular_proto3_string_into(
            wire_type,
            &mut stream,
            &mut text,
        )?,
        None => return Err(ProtobufError::WireError(protobuf::error::WireError::Other)),
    }
    Ok((text, stream.pos() as usize))
}

/// Passes over the value of an unknown field at the start of `bytes`.
///
/// Trusted: this is `rt::read_unknown_or_skip_group` of the `protobuf`
/// crate, on a stream made by `CodedInputStream::from_bytes`, with
/// `wire_format::WireType::new` for the wire type, `UnknownFields::new` for
/// the place where the value is put and left, and `CodedInputStream::pos`
/// for the bytes used. What it reads depends on the bytes, the field number
/// and the wire type alone, and it uses no more bytes than there are.
#[verifier::external_body]
pub(crate) fn skip_unknown_field(
    bytes: &[u8],
    field_number: u32,
    wire_type: u32,
) -> (read: Result<usize, ProtobufError>)
    ensures
        match read {
            Ok(used) => {
                &&& unknown_read(bytes@, field_number, wire_type) == Some(used)
                &&& used <= bytes@.len()
            },
            Err(_) => unknown_read(bytes@, field_number, wire_type) is None,
        },
{
    let mut stream = protobuf::CodedInputStream::from_bytes(bytes);
    let mut unknown = protobuf::UnknownFields::new();
    match protobuf::wire_format::WireType::new(wire_type) {
        Some(wire_type) => protobuf::rt::read_unknown_or_skip_group(
            field_number,
            wire_type,
            &mut stream,
            &mut unknown,
        )?,
        None => return Err(ProtobufError::WireError(protobuf::error::WireError::Other)),
    }
    Ok(stream.pos() as usize)
}

} // verus!
