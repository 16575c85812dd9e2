//! The two messages of the greeting service, and their form on the wire.
//!
//! Both are proto3 messages of string fields. A field that is empty is not
//! written. A reader takes the last value of a field that occurs more than
//! once, and passes over the fields that it does not know.

use vstd::prelude::*;
use vstd::slice::slice_subrange;
use vstd::string::*;
use crate::error::Fatal;
use crate::types::Bytes;
use crate::wire::{
    read_string_field,
    read_tag,
    skip_unknown_field,
    string_field,
    string_read,
    tag_read,
    unknown_read,
    write_string_field,
};

verus! {

/// The field number of [`SayHelloRequest::service_name`].
pub const SERVICE_NAME_FIELD: u32 = 1;

/// The field number of [`SayHelloRequest::name`].
pub const NAME_FIELD: u32 = 2;

/// The field number of [`SayHelloResponse::hello`].
pub const HELLO_FIELD: u32 = 1;

/// The request to greet someone.
#[derive(Clone, Debug, PartialEq, Eq)]
pub struct SayHelloRequest {
    /// The service that is to greet.
    pub service_name: String,
    /// Who is to be greeted.
    pub name: String,
}

/// The greeting.
#[derive(Clone, Debug, PartialEq, Eq)]
pub struct SayHelloResponse {
    pub hello: String,
}

/// One field of a message on the wire, or nothing where the field is empty.
pub open spec fn optional_field(field_number: u32, value: Seq<char>) -> Seq<u8> {
    if value.len() == 0 {
        Seq::empty()
    } else {
        string_field(field_number, value)
    }
}

/// A request on the wire: the service name, then the name.
pub open spec fn request_bytes(service_name: Seq<char>, name: Seq<char>) -> Seq<u8> {
    optional_field(SERVICE_NAME_FIELD, service_name) + optional_field(NAME_FIELD, name)
}

/// The largest length in bytes that a field's text can have on the wire.
pub open spec fn fits_field(value: Seq<char>) -> bool {
    vstd::utf8::encode_utf8(value).len() <= u32::MAX
}

/// What a reader does with a field, going by its number.
#[derive(Clone, Copy, Debug, PartialEq, Eq, Structural)]
pub enum ResponseField {
    /// The field holds the greeting.
    Hello,
    /// The field is not one of this message.
    Unknown,
}

impl ResponseField {
    /// The field that a number stands for in a response.
    pub open spec fn spec_of(field_number: u32) -> ResponseField {
        if field_number == HELLO_FIELD {
            ResponseField::Hello
        } else {
            ResponseField::Unknown
        }
    }

    #[verifier::when_used_as_spec(spec_of)]
    pub fn of(field_number: u32) -> (field: ResponseField)
        ensures
            field == Self::spec_of(field_number),
    {
        if field_number == HELLO_FIELD {
            ResponseField::Hello
        } else {
            ResponseField::Unknown
        }
    }
}

/// The greeting that `bytes` hold as the rest of a response, where the
/// fields read so far have left `hello`; `None` where they are no message.
pub open spec fn response_hello(bytes: Seq<u8>, hello: Seq<char>) -> Option<Seq<char>>
    decreases bytes.len(),
{
    if bytes.len() == 0 {
        Some(hello)
    } else {
        match tag_read(bytes) {
            Some((field_number, wire_type, used)) => if 0 < used <= bytes.len() {
                let value = bytes.skip(used as int);
                match ResponseField::spec_of(field_number) {
                    ResponseField::Hello => match string_read(value, wire_type) {
                        Some((text, taken)) => if taken <= value.len() {
                            response_hello(value.skip(taken as int), text)
                        } else {
                            None
                        },
                        None => None,
                    },
                    ResponseField::Unknown => match unknown_read(value, field_number, wire_type) {
                        Some(taken) => if taken <= value.len() {
                            response_hello(value.skip(taken as int), hello)
                        } else {
                            None
                        },
                        None => None,
                    },
                }
            } else {
                None
            },
            None => None,
        }
    }
}

fn write_optional_field(field_number: u32, value: &str) -> (written: Result<Bytes, Fatal>)
    requires
        0 < field_number <= crate::wire::MAX_FIELD_NUMBER,
    ensures
        match written {
            Ok(bytes) => fits_field(value@) && bytes@ == optional_field(field_number, value@),
            Err(fatal) => !fits_field(value@) && fatal == Fatal::MalformedMessage,
        },
{
    if value.as_bytes().len() > 0xffff_ffff {
        return Err(Fatal::MalformedMessage);
    }
    if value.is_empty() {
        return Ok(Vec::new());
    }
    match write_string_field(field_number, value) {
        Ok(bytes) => Ok(bytes),
        Err(_) => Err(Fatal::MalformedMessage),
    }
}

impl SayHelloRequest {
    /// A request with both fields empty.
    pub fn new() -> (request: Self)
        ensures
            request.service_name@ == Seq::<char>::empty(),
            request.name@ == Seq::<char>::empty(),
    {
        SayHelloRequest { service_name: String::new(), name: String::new() }
    }

    /// Puts the request on the wire. A field too long for the wire makes
    /// the message malformed.
    pub fn write_to_bytes(&self) -> (written: Result<Bytes, Fatal>)
        ensures
            match written {
                Ok(bytes) => {
                    &&& fits_field(self.service_name@)
                    &&& fits_field(self.name@)
                    &&& bytes@ == request_bytes(self.service_name@, self.name@)
                },
                Err(fatal) => {
                    &&& !(fits_field(self.service_name@) && fits_field(self.name@))
                    &&& fatal == Fatal::MalformedMessage
                },
            },
    {
        let mut bytes = match write_optional_field(SERVICE_NAME_FIELD, self.service_name.as_str()) {
            Ok(bytes) => bytes,
            Err(fatal) => {
                return Err(fatal);
            },
        };
        let name = match write_optional_field(NAME_FIELD, self.name.as_str()) {
            Ok(bytes) => bytes,
            Err(fatal) => {
                return Err(fatal);
            },
        };
        bytes.extend_from_slice(name.as_slice());
        Ok(bytes)
    }
}

impl SayHelloResponse {
    /// Reads a response off the wire.
    pub fn parse_from_bytes(bytes: &[u8]) -> (parsed: Result<Self, Fatal>)
        ensures
            match parsed {
                Ok(response) => response_hello(bytes@, Seq::empty()) == Some(response.hello@),
                Err(fatal) => response_hello(bytes@, Seq::empty()) is None && fatal
                    == Fatal::MalformedMessage,
            },
    {
        let mut hello = String::new();
        let mut position: usize = 0;
        assert(bytes@.skip(0) =~= bytes@);
        while position < bytes.len()
            invariant
                position <= bytes@.len(),
                response_hello(bytes@.skip(position as int), hello@) == response_hello(
                    bytes@,
                    Seq::empty(),
                ),
            decreases bytes@.len() - position,
        {
            let ghost rest = bytes@.skip(position as int);
            let tagged = slice_subrange(bytes, position, bytes.len());
            let (field_number, wire_type, used) = match read_tag(tagged) {
                Ok(tag) => tag,
                Err(_) => {
                    return Err(Fatal::MalformedMessage);
                },
            };
            position = position + used;
            let value = slice_subrange(bytes, position, bytes.len());
            assert(value@ =~= rest.skip(used as int));
            let taken = match ResponseField::of(field_number) {
                ResponseField::Hello => match read_string_field(value, wire_type) {
                    Ok((text, taken)) => {
                        hello = text;
                        taken
                    },
                    Err(_) => {
                        return Err(Fatal::MalformedMessage);
                    },
                },
                ResponseField::Unknown => match skip_unknown_field(value, field_number, wire_type) {
                    Ok(taken) => taken,
                    Err(_) => {
                        return Err(Fatal::MalformedMessage);
                    },
                },
            };
            position = position + taken;
            assert(bytes@.skip(position as int) =~= rest.skip(used as int).skip(taken as int));
        }
        Ok(SayHelloResponse { hello })
    }

    /// The greeting.
    pub fn get_hello(&self) -> (hello: &str)
        ensures
            hello@ == self.hello@,
    {
        self.hello.as_str()
    }
}

} // verus!
