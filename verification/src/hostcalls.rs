//! The calls that the guest makes into the host, and the decoding of what
//! comes back.
//!
//! Every imported call crosses the boundary as numbers and byte strings, and
//! comes back as a status code with, for the calls that return data, a byte
//! string or none. The functions of the first half put a memory-safe call
//! into that raw form; the functions of the second half read the raw reply.
//! What lies between the two, the crossing itself, is not done here.

use vstd::prelude::*;
use vstd::slice::slice_to_vec;
use vstd::string::*;
use vstd::utf8::*;
use crate::error::Fatal;
use crate::text::string_from_utf8;
use crate::types::{BufferType, Bytes, LogLevel, MapType, Status};

verus! {

/// One imported call in raw form: which import, and the numbers and byte
/// strings that it is given.
#[derive(Clone, Debug, PartialEq, Eq)]
pub enum HostCall {
    /// Hand a message to the host's log.
    Log { level: LogLevel, message: Bytes },
    /// Read at most `max_size` bytes of a host buffer, from offset `start` on.
    GetBufferBytes { buffer_type: BufferType, start: usize, max_size: usize },
    /// Put `data` in place of the `size` bytes of a host buffer that begin at `start`.
    SetBufferBytes { buffer_type: BufferType, start: usize, size: usize, data: Bytes },
    /// Look up one value of a host key-value map.
    GetHeaderMapValue { map_type: MapType, key: Bytes },
    /// Look up one value of a named persistent store.
    GetState { store_name: Bytes, key: Bytes },
    /// Call a method of another service and wait for its answer.
    InvokeService { id: Bytes, method: Bytes, param: Bytes },
    /// Call a function that the host has registered under a name; no
    /// arguments at all is not the same as an empty argument string.
    CallForeignFunction { function_name: Bytes, arguments: Option<Bytes> },
}

/// What a [`HostCall`] holds, as mathematical values.
pub enum HostCallView {
    Log { level: LogLevel, message: Seq<u8> },
    GetBufferBytes { buffer_type: BufferType, start: usize, max_size: usize },
    SetBufferBytes { buffer_type: BufferType, start: usize, size: usize, data: Seq<u8> },
    GetHeaderMapValue { map_type: MapType, key: Seq<u8> },
    GetState { store_name: Seq<u8>, key: Seq<u8> },
    InvokeService { id: Seq<u8>, method: Seq<u8>, param: Seq<u8> },
    CallForeignFunction { function_name: Seq<u8>, arguments: Option<Seq<u8>> },
}

/// The bytes of an optional buffer, if there is one.
pub open spec fn bytes_view(data: Option<Bytes>) -> Option<Seq<u8>> {
    match data {
        Some(bytes) => Some(bytes@),
        None => None,
    }
}

impl View for HostCall {
    type V = HostCallView;

    open spec fn view(&self) -> HostCallView {
        match *self {
            HostCall::Log { level, message } => HostCallView::Log { level, message: message@ },
            HostCall::GetBufferBytes { buffer_type, start, max_size } => HostCallView::GetBufferBytes {
                buffer_type,
                start,
                max_size,
            },
            HostCall::SetBufferBytes { buffer_type, start, size, data } => HostCallView::SetBufferBytes {
                buffer_type,
                start,
                size,
                data: data@,
            },
            HostCall::GetHeaderMapValue { map_type, key } => HostCallView::GetHeaderMapValue {
                map_type,
                key: key@,
            },
            HostCall::GetState { store_name, key } => HostCallView::GetState {
                store_name: store_name@,
                key: key@,
            },
            HostCall::InvokeService { id, method, param } => HostCallView::InvokeService {
                id: id@,
                method: method@,
                param: param@,
            },
            HostCall::CallForeignFunction { function_name, arguments } => HostCallView::CallForeignFunction {
                function_name: function_name@,
                arguments: bytes_view(arguments),
            },
        }
    }
}

/// The two-part raw result of an imported call: the status code, and the
/// buffer that the host handed over, `None` where its pointer was null.
///
/// The guest owns the buffer from here on. An empty buffer is a value; no
/// buffer is the absence of one.
#[derive(Clone, Debug, PartialEq, Eq)]
pub struct HostReply {
    pub status: u32,
    pub data: Option<Bytes>,
}

/// What a [`HostReply`] holds, as mathematical values.
pub struct HostReplyView {
    pub status: u32,
    pub data: Option<Seq<u8>>,
}

impl View for HostReply {
    type V = HostReplyView;

    open spec fn view(&self) -> HostReplyView {
        HostReplyView { status: self.status, data: bytes_view(self.data) }
    }
}

/// The request to log `message` at `level`.
pub fn log(level: LogLevel, message: &str) -> (call: HostCall)
    ensures
        call@ == (HostCallView::Log { level, message: message.spec_bytes() }),
{
    HostCall::Log { level, message: message.as_bytes_vec() }
}

/// The request to call `method` of the service `id` with `param`.
pub fn invoke_service(id: &str, method: &str, param: &str) -> (call: HostCall)
    ensures
        call@ == (HostCallView::InvokeService {
            id: id.spec_bytes(),
            method: method.spec_bytes(),
            param: param.spec_bytes(),
        }),
{
    HostCall::InvokeService {
        id: id.as_bytes_vec(),
        method: method.as_bytes_vec(),
        param: param.as_bytes_vec(),
    }
}

/// The request to write `value` into a host buffer at offset `start`.
///
/// The region to replace is given the length of `value` itself, so the
/// request always carries one length twice: hosts that cannot splice a
/// buffer take this as the replacement of a whole region.
pub fn set_buffer(buffer_type: BufferType, start: usize, value: &[u8]) -> (call: HostCall)
    ensures
        call@ == (HostCallView::SetBufferBytes {
            buffer_type,
            start,
            size: value@.len() as usize,
            data: value@,
        }),
{
    HostCall::SetBufferBytes { buffer_type, start, size: value.len(), data: slice_to_vec(value) }
}

/// The request to read at most `max_size` bytes of a host buffer, from
/// offset `start` on.
pub fn get_buffer(buffer_type: BufferType, start: usize, max_size: usize) -> (call: HostCall)
    ensures
        call@ == (HostCallView::GetBufferBytes { buffer_type, start, max_size }),
{
    HostCall::GetBufferBytes { buffer_type, start, max_size }
}

/// The request to look up `key` in the persistent store `store_name`.
pub fn get_state(store_name: &str, key: &str) -> (call: HostCall)
    ensures
        call@ == (HostCallView::GetState {
            store_name: store_name.spec_bytes(),
            key: key.spec_bytes(),
        }),
{
    HostCall::GetState { store_name: store_name.as_bytes_vec(), key: key.as_bytes_vec() }
}

/// The request to look up `key` in the host map `map_type`.
pub fn get_map_value(map_type: MapType, key: &str) -> (call: HostCall)
    ensures
        call@ == (HostCallView::GetHeaderMapValue { map_type, key: key.spec_bytes() }),
{
    HostCall::GetHeaderMapValue { map_type, key: key.as_bytes_vec() }
}

/// The request to call the foreign function `function_name`.
///
/// Without `arguments` the host is handed a null pointer and the length 0.
pub fn call_foreign_function(function_name: &str, arguments: Option<&[u8]>) -> (call: HostCall)
    ensures
        call@ == (HostCallView::CallForeignFunction {
            function_name: function_name.spec_bytes(),
            arguments: match arguments {
                Some(bytes) => Some(bytes@),
                None => None,
            },
        }),
{
    let arguments = match arguments {
        Some(bytes) => Some(slice_to_vec(bytes)),
        None => None,
    };
    HostCall::CallForeignFunction { function_name: function_name.as_bytes_vec(), arguments }
}

/// What a reply means for a call that returns data.
///
/// Success hands over the buffer, or no value where the host gave a null
/// pointer. `NotFound` is no value as well, whatever came with it. Every
/// other status breaks the contract.
pub open spec fn reply_bytes(reply: HostReplyView) -> Result<Option<Seq<u8>>, Fatal> {
    if reply.status == Status::Success.spec_code() {
        Ok(reply.data)
    } else if reply.status == Status::NotFound.spec_code() {
        Ok(None)
    } else {
        Err(Fatal::UnexpectedHostStatus { code: reply.status })
    }
}

/// What a reply means for a call that returns text: as [`reply_bytes`], and
/// a buffer that is not UTF-8 breaks the contract too.
pub open spec fn reply_text(reply: HostReplyView) -> Result<Option<Seq<char>>, Fatal> {
    match reply_bytes(reply) {
        Ok(Some(bytes)) => if valid_utf8(bytes) {
            Ok(Some(decode_utf8(bytes)))
        } else {
            Err(Fatal::InvalidUtf8)
        },
        Ok(None) => Ok(None),
        Err(fatal) => Err(fatal),
    }
}

/// What a reply means for a call that returns nothing: success, or a
/// breach of the contract.
pub open spec fn reply_done(reply: HostReplyView) -> Result<(), Fatal> {
    if reply.status == Status::Success.spec_code() {
        Ok(())
    } else {
        Err(Fatal::UnexpectedHostStatus { code: reply.status })
    }
}

/// Decodes the reply to a call that returns data, taking over the buffer
/// that came with it.
pub fn parse_proxy_status(reply: HostReply) -> (result: Result<Option<Bytes>, Fatal>)
    ensures
        match result {
            Ok(data) => reply_bytes(reply@) == Ok::<Option<Seq<u8>>, Fatal>(bytes_view(data)),
            Err(fatal) => reply_bytes(reply@) == Err::<Option<Seq<u8>>, Fatal>(fatal),
        },
{
    if reply.status == Status::Success.code() {
        Ok(reply.data)
    } else if reply.status == Status::NotFound.code() {
        Ok(None)
    } else {
        Err(Fatal::UnexpectedHostStatus { code: reply.status })
    }
}

/// Decodes the reply to a call that returns text.
pub fn parse_proxy_text(reply: HostReply) -> (result: Result<Option<String>, Fatal>)
    ensures
        match result {
            Ok(Some(text)) => reply_text(reply@) == Ok::<Option<Seq<char>>, Fatal>(Some(text@)),
            Ok(None) => reply_text(reply@) == Ok::<Option<Seq<char>>, Fatal>(None),
            Err(fatal) => reply_text(reply@) == Err::<Option<Seq<char>>, Fatal>(fatal),
        },
{
    match parse_proxy_status(reply) {
        Ok(Some(bytes)) => match string_from_utf8(bytes) {
            Some(text) => Ok(Some(text)),
            None => Err(Fatal::InvalidUtf8),
        },
        Ok(None) => Ok(None),
        Err(fatal) => Err(fatal),
    }
}

/// Decodes the reply to a call that returns nothing.
pub fn parse_proxy_done(reply: HostReply) -> (result: Result<(), Fatal>)
    ensures
        result == reply_done(reply@),
{
    if reply.status == Status::Success.code() {
        Ok(())
    } else {
        Err(Fatal::UnexpectedHostStatus { code: reply.status })
    }
}

/// The status `NotFound` is no value for every call that returns data,
/// whatever came with it: never a failure, and never a buffer, not even an
/// empty one.
pub proof fn lemma_not_found_is_no_value(reply: HostReplyView)
    requires
        reply.status == Status::NotFound.spec_code(),
    ensures
        reply_bytes(reply) == Ok::<Option<Seq<u8>>, Fatal>(None),
        reply_text(reply) == Ok::<Option<Seq<char>>, Fatal>(None),
{
}

/// A reply hands over a buffer only on success, and then the very buffer
/// that the host gave; it fails only on a status that is neither success
/// nor `NotFound`, and then with that status.
pub proof fn lemma_reply_bytes_cases(reply: HostReplyView)
    ensures
        reply_bytes(reply) matches Ok(Some(bytes)) ==> reply.status == Status::Success.spec_code()
            && reply.data == Some(bytes),
        reply_bytes(reply) is Err <==> reply.status != Status::Success.spec_code() && reply.status
            != Status::NotFound.spec_code(),
        reply_bytes(reply) matches Err(fatal) ==> fatal == (Fatal::UnexpectedHostStatus {
            code: reply.status,
        }),
{
}

} // verus!
