//! A byte region of the kind that the host manages, kept in guest memory.
//!
//! The bridge never sees the host's buffers, only the replies to its reads
//! and writes. This is the behaviour it counts on, written down as a region
//! that can be driven by the same calls: a stand-in for the host where
//! there is none, and the ground on which a write followed by a read can be
//! shown to give back what was written.

use vstd::prelude::*;
use vstd::slice::slice_subrange;
use crate::hostcalls::{reply_bytes, HostCall, HostCallView, HostReply, HostReplyView};
use crate::types::{BufferType, Bytes, Status};

verus! {

/// One buffer of a host: the selector that calls address it by, and the
/// bytes that it holds.
#[derive(Clone, Debug, PartialEq, Eq)]
pub struct BackingBuffer {
    buffer_type: BufferType,
    bytes: Bytes,
}

/// What a [`BackingBuffer`] holds, as mathematical values.
pub struct BackingBufferView {
    pub buffer_type: BufferType,
    pub bytes: Seq<u8>,
}

impl View for BackingBuffer {
    type V = BackingBufferView;

    closed spec fn view(&self) -> BackingBufferView {
        BackingBufferView { buffer_type: self.buffer_type, bytes: self.bytes@ }
    }
}

impl BackingBufferView {
    /// The bytes that a read of at most `max_size` bytes from `start` on
    /// gives: as many as are there.
    pub open spec fn read(self, start: usize, max_size: usize) -> Seq<u8>
        recommends
            start <= self.bytes.len(),
    {
        let end = if start + max_size <= self.bytes.len() {
            start + max_size
        } else {
            self.bytes.len() as int
        };
        self.bytes.subrange(start as int, end)
    }

    /// The bytes that the buffer holds after `data` has taken the place of
    /// the `size` bytes from `start` on, or of as many as were there.
    pub open spec fn written(self, start: usize, size: usize, data: Seq<u8>) -> Seq<u8>
        recommends
            start <= self.bytes.len(),
    {
        let end = if start + size <= self.bytes.len() {
            start + size
        } else {
            self.bytes.len() as int
        };
        self.bytes.subrange(0, start as int) + data + self.bytes.subrange(
            end,
            self.bytes.len() as int,
        )
    }

    /// The buffer after `call`.
    ///
    /// Only a write changes it, and only one that addresses this buffer and
    /// begins within it or at its end.
    pub open spec fn after(self, call: HostCallView) -> Self {
        match call {
            HostCallView::SetBufferBytes { buffer_type, start, size, data } => if buffer_type
                == self.buffer_type && start <= self.bytes.len() {
                BackingBufferView {
                    buffer_type: self.buffer_type,
                    bytes: self.written(start, size, data),
                }
            } else {
                self
            },
            _ => self,
        }
    }

    /// The reply to `call`.
    ///
    /// A read or a write that addresses this buffer succeeds where it
    /// begins within the buffer or at its end, a read with the bytes that
    /// are there; one that begins beyond is a bad argument. Every other
    /// call finds nothing here.
    pub open spec fn reply(self, call: HostCallView) -> HostReplyView {
        match call {
            HostCallView::GetBufferBytes { buffer_type, start, max_size } => if buffer_type
                != self.buffer_type {
                HostReplyView { status: Status::NotFound.spec_code(), data: None }
            } else if start <= self.bytes.len() {
                HostReplyView {
                    status: Status::Success.spec_code(),
                    data: Some(self.read(start, max_size)),
                }
            } else {
                HostReplyView { status: Status::BadArgument.spec_code(), data: None }
            },
            HostCallView::SetBufferBytes { buffer_type, start, size, data } => if buffer_type
                != self.buffer_type {
                HostReplyView { status: Status::NotFound.spec_code(), data: None }
            } else if start <= self.bytes.len() {
                HostReplyView { status: Status::Success.spec_code(), data: None }
            } else {
                HostReplyView { status: Status::BadArgument.spec_code(), data: None }
            },
            _ => HostReplyView { status: Status::NotFound.spec_code(), data: None },
        }
    }
}

impl BackingBuffer {
    /// The buffer `buffer_type` with `bytes` in it.
    pub fn new(buffer_type: BufferType, bytes: Bytes) -> (buffer: Self)
        ensures
            buffer@ == (BackingBufferView { buffer_type, bytes: bytes@ }),
    {
        BackingBuffer { buffer_type, bytes }
    }

    /// The bytes that the buffer holds.
    pub fn contents(&self) -> (bytes: &[u8])
        ensures
            bytes@ == self@.bytes,
    {
        self.bytes.as_slice()
    }

    /// Serves one call as a host would.
    pub fn serve(&mut self, call: &HostCall) -> (reply: HostReply)
        ensures
            final(self)@ == old(self)@.after(call@),
            reply@ == old(self)@.reply(call@),
    {
        match call {
            HostCall::GetBufferBytes { buffer_type, start, max_size } => {
                if *buffer_type != self.buffer_type {
                    return HostReply { status: Status::NotFound.code(), data: None };
                }
                let length = self.bytes.len();
                if *start > length {
                    return HostReply { status: Status::BadArgument.code(), data: None };
                }
                let end = if *max_size <= length - *start {
                    *start + *max_size
                } else {
                    length
                };
                let mut data: Bytes = Vec::new();
                data.extend_from_slice(slice_subrange(self.bytes.as_slice(), *start, end));
                assert(data@ =~= self@.read(*start, *max_size));
                HostReply { status: Status::Success.code(), data: Some(data) }
            },
            HostCall::SetBufferBytes { buffer_type, start, size, data } => {
                if *buffer_type != self.buffer_type {
                    return HostReply { status: Status::NotFound.code(), data: None };
                }
                let length = self.bytes.len();
                if *start > length {
                    return HostReply { status: Status::BadArgument.code(), data: None };
                }
                let end = if *size <= length - *start {
                    *start + *size
                } else {
                    length
                };
                let mut bytes: Bytes = Vec::new();
                bytes.extend_from_slice(slice_subrange(self.bytes.as_slice(), 0, *start));
                bytes.extend_from_slice(data.as_slice());
                bytes.extend_from_slice(slice_subrange(self.bytes.as_slice(), end, length));
                assert(bytes@ =~= self@.written(*start, *size, data@));
                self.bytes = bytes;
                HostReply { status: Status::Success.code(), data: None }
            },
            _ => HostReply { status: Status::NotFound.code(), data: None },
        }
    }
}

/// What is written at the start of a buffer is what a read of that length
/// from the start gives back: the write request of `bytes` at offset 0,
/// followed on the same buffer by the read request of as many bytes at
/// offset 0, is answered with a reply that decodes to exactly `bytes`.
pub proof fn lemma_write_then_read_round_trip(buffer: BackingBufferView, bytes: Seq<u8>)
    requires
        bytes.len() <= usize::MAX,
    ensures
        ({
            let write = HostCallView::SetBufferBytes {
                buffer_type: buffer.buffer_type,
                start: 0,
                size: bytes.len() as usize,
                data: bytes,
            };
            let read = HostCallView::GetBufferBytes {
                buffer_type: buffer.buffer_type,
                start: 0,
                max_size: bytes.len() as usize,
            };
            &&& buffer.reply(write).status == Status::Success.spec_code()
            &&& reply_bytes(buffer.after(write).reply(read)) == Ok::<Option<Seq<u8>>, crate::error::Fatal>(
                Some(bytes),
            )
        }),
{
    let write = HostCallView::SetBufferBytes {
        buffer_type: buffer.buffer_type,
        start: 0,
        size: bytes.len() as usize,
        data: bytes,
    };
    let after = buffer.after(write);
    assert(after.read(0, bytes.len() as usize) =~= bytes);
}

} // verus!
