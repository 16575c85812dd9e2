//! The entry points that the host looks up by name, as a table.
//!
//! Each entry point is a function of its own here, under the name that the
//! host knows it by, and [`Export`] lists them as values so that a module
//! boundary can hand any of them to [`handle`]. The entry points that reach
//! a context go through the dispatcher; the others answer with a constant.

use vstd::prelude::*;
use crate::dispatcher::{Dispatcher, DispatcherView};
use crate::error::Fatal;
use crate::traits::{RootContext, Step};
use crate::types::{Action, Bytes};

verus! {

/// One invocation of an entry point, with its arguments.
#[derive(Clone, Copy, Debug, PartialEq, Eq, Structural)]
#[allow(inconsistent_fields)]
pub enum Export {
    /// The host has created a context; the parent 0 makes it a root context.
    ContextCreate { context_id: u32, root_context_id: u32 },
    /// The request headers of an exchange have arrived.
    RequestHeaders { context_id: u32, num_headers: usize, end_of_stream: usize },
    /// A piece of the request body of an exchange has arrived.
    RequestBody { context_id: u32, body_size: usize, end_of_stream: bool },
    /// The request trailers of an exchange have arrived.
    RequestTrailers { context_id: u32, num_trailers: usize },
    /// The module's virtual machine has started.
    VmStart { context_id: u32, vm_configuration_size: usize },
    /// A plugin configuration is there to be read.
    Configure { context_id: u32, plugin_configuration_size: usize },
    /// The host is done with a context.
    Done { context_id: u32 },
    /// The host has torn a context down.
    Delete { context_id: u32 },
    /// The marker by which the host recognises the version of the interface.
    AbiVersion,
}

/// What an entry point hands back to the host.
#[derive(Clone, Debug, PartialEq, Eq)]
pub enum Answer {
    /// Nothing at all.
    Nothing,
    /// Whether the guest accepts.
    Accepted(bool),
    /// The verdict on an exchange, if no trip to the host stands between.
    Next(Step),
}

impl<R: RootContext, FR: Fn(u32) -> R, FS: Fn(u32, u32) -> R::Stream> DispatcherView<R, FR, FS> {
    /// Whether the invocation `export` may take this registry to `after`
    /// with `answer`.
    pub open spec fn handles(self, export: Export, after: Self, answer: Result<Answer, Fatal>) -> bool {
        match export {
            Export::ContextCreate { context_id, root_context_id } => match answer {
                Ok(Answer::Nothing) => self.creates(context_id, root_context_id, after, Ok(())),
                Err(fatal) => self.creates(context_id, root_context_id, after, Err(fatal)),
                _ => false,
            },
            Export::RequestHeaders { context_id, num_headers, end_of_stream } => match answer {
                Ok(Answer::Next(step)) => self.routes_request_headers(
                    context_id,
                    num_headers,
                    after,
                    Ok(step),
                ),
                Err(fatal) => self.routes_request_headers(
                    context_id,
                    num_headers,
                    after,
                    Err(fatal),
                ),
                _ => false,
            },
            Export::RequestBody { context_id, body_size, end_of_stream } => match answer {
                Ok(Answer::Next(step)) => self.routes_request_body(
                    context_id,
                    body_size,
                    end_of_stream,
                    after,
                    Ok(step),
                ),
                Err(fatal) => self.routes_request_body(
                    context_id,
                    body_size,
                    end_of_stream,
                    after,
                    Err(fatal),
                ),
                _ => false,
            },
            Export::RequestTrailers { context_id, num_trailers } => {
                &&& answer == Ok::<Answer, Fatal>(Answer::Next(Step::Done(Action::Continue)))
                &&& after == self
            },
            Export::VmStart { context_id, vm_configuration_size } => match answer {
                Ok(Answer::Accepted(accepted)) => self.routes_vm_start(
                    context_id,
                    vm_configuration_size,
                    after,
                    accepted,
                ),
                _ => false,
            },
            Export::Configure { context_id, plugin_configuration_size } => {
                &&& answer == Ok::<Answer, Fatal>(Answer::Accepted(true))
                &&& after == self
            },
            Export::Done { context_id } => {
                &&& answer == Ok::<Answer, Fatal>(Answer::Accepted(true))
                &&& after == self
            },
            Export::Delete { context_id } => {
                &&& answer == Ok::<Answer, Fatal>(Answer::Nothing)
                &&& after == self.without(context_id)
            },
            Export::AbiVersion => {
                &&& answer == Ok::<Answer, Fatal>(Answer::Nothing)
                &&& after == self
            },
        }
    }
}

/// The host asks for `size` bytes of guest memory to write into: a buffer
/// of exactly that length, zeroed.
pub fn proxy_on_memory_allocate(size: usize) -> (buffer: Bytes)
    ensures
        buffer@ == Seq::new(size as nat, |i: int| 0u8),
{
    let mut buffer: Bytes = Vec::with_capacity(size);
    let mut filled: usize = 0;
    while filled < size
        invariant
            filled <= size,
            buffer@ =~= Seq::new(filled as nat, |i: int| 0u8),
        decreases size - filled,
    {
        buffer.push(0);
        filled = filled + 1;
    }
    buffer
}

/// The host has created the context `context_id` under `root_context_id`.
pub fn proxy_on_context_create<R: RootContext, FR: Fn(u32) -> R, FS: Fn(u32, u32) -> R::Stream>(
    dispatcher: &mut Dispatcher<R, FR, FS>,
    context_id: u32,
    root_context_id: u32,
) -> (result: Result<(), Fatal>)
    ensures
        old(dispatcher)@.creates(context_id, root_context_id, final(dispatcher)@, result),
{
    dispatcher.on_create_context(context_id, root_context_id)
}

/// The request headers of the exchange `context_id` have arrived. Whether
/// the stream ends with them plays no part.
pub fn proxy_on_request_headers<R: RootContext, FR: Fn(u32) -> R, FS: Fn(u32, u32) -> R::Stream>(
    dispatcher: &mut Dispatcher<R, FR, FS>,
    context_id: u32,
    num_headers: usize,
    _end_of_stream: usize,
) -> (result: Result<Step, Fatal>)
    ensures
        old(dispatcher)@.routes_request_headers(context_id, num_headers, final(dispatcher)@, result),
{
    dispatcher.on_http_request_headers(context_id, num_headers)
}

/// A piece of the request body of the exchange `context_id` has arrived.
pub fn proxy_on_request_body<R: RootContext, FR: Fn(u32) -> R, FS: Fn(u32, u32) -> R::Stream>(
    dispatcher: &mut Dispatcher<R, FR, FS>,
    context_id: u32,
    body_size: usize,
    end_of_stream: bool,
) -> (result: Result<Step, Fatal>)
    ensures
        old(dispatcher)@.routes_request_body(
            context_id,
            body_size,
            end_of_stream,
            final(dispatcher)@,
            result,
        ),
{
    dispatcher.on_http_request_body(context_id, body_size, end_of_stream)
}

/// The request trailers of an exchange have arrived: the exchange proceeds.
pub fn proxy_on_request_trailers(_context_id: u32, _num_trailers: usize) -> (action: Action)
    ensures
        action == Action::Continue,
{
    Action::Continue
}

/// The marker by which the host recognises the version of the interface.
/// It does nothing, however often it is called.
pub fn proxy_abi_version_0_2_0() {
}

/// The module's virtual machine has started; the root context
/// `context_id`, where it lives, says whether the guest accepts.
pub fn proxy_on_vm_start<R: RootContext, FR: Fn(u32) -> R, FS: Fn(u32, u32) -> R::Stream>(
    dispatcher: &mut Dispatcher<R, FR, FS>,
    context_id: u32,
    vm_configuration_size: usize,
) -> (accepted: bool)
    ensures
        old(dispatcher)@.routes_vm_start(
            context_id,
            vm_configuration_size,
            final(dispatcher)@,
            accepted,
        ),
{
    dispatcher.on_vm_start(context_id, vm_configuration_size)
}

/// A plugin configuration is there to be read: the guest accepts.
pub fn proxy_on_configure(_context_id: u32, _plugin_configuration_size: usize) -> (accepted: bool)
    ensures
        accepted,
{
    true
}

/// The host is done with a context: the guest agrees.
pub fn proxy_on_done(_context_id: u32) -> (accepted: bool)
    ensures
        accepted,
{
    true
}

/// The host has torn down the context `context_id`.
pub fn proxy_on_delete<R: RootContext, FR: Fn(u32) -> R, FS: Fn(u32, u32) -> R::Stream>(
    dispatcher: &mut Dispatcher<R, FR, FS>,
    context_id: u32,
)
    ensures
        final(dispatcher)@ == old(dispatcher)@.without(context_id),
{
    dispatcher.on_delete(context_id)
}

/// Hands one invocation to the entry point that it names.
pub fn handle<R: RootContext, FR: Fn(u32) -> R, FS: Fn(u32, u32) -> R::Stream>(
    dispatcher: &mut Dispatcher<R, FR, FS>,
    export: Export,
) -> (answer: Result<Answer, Fatal>)
    ensures
        old(dispatcher)@.handles(export, final(dispatcher)@, answer),
{
    match export {
        Export::ContextCreate { context_id, root_context_id } => {
            match proxy_on_context_create(dispatcher, context_id, root_context_id) {
                Ok(()) => Ok(Answer::Nothing),
                Err(fatal) => Err(fatal),
            }
        },
        Export::RequestHeaders { context_id, num_headers, end_of_stream } => {
            match proxy_on_request_headers(dispatcher, context_id, num_headers, end_of_stream) {
                Ok(step) => Ok(Answer::Next(step)),
                Err(fatal) => Err(fatal),
            }
        },
        Export::RequestBody { context_id, body_size, end_of_stream } => {
            match proxy_on_request_body(dispatcher, context_id, body_size, end_of_stream) {
                Ok(step) => Ok(Answer::Next(step)),
                Err(fatal) => Err(fatal),
            }
        },
        Export::RequestTrailers { context_id, num_trailers } => {
            Ok(Answer::Next(Step::Done(proxy_on_request_trailers(context_id, num_trailers))))
        },
        Export::VmStart { context_id, vm_configuration_size } => {
            Ok(Answer::Accepted(proxy_on_vm_start(dispatcher, context_id, vm_configuration_size)))
        },
        Export::Configure { context_id, plugin_configuration_size } => {
            Ok(Answer::Accepted(proxy_on_configure(context_id, plugin_configuration_size)))
        },
        Export::Done { context_id } => Ok(Answer::Accepted(proxy_on_done(context_id))),
        Export::Delete { context_id } => {
            proxy_on_delete(dispatcher, context_id);
            Ok(Answer::Nothing)
        },
        Export::AbiVersion => {
            proxy_abi_version_0_2_0();
            Ok(Answer::Nothing)
        },
    }
}

} // verus!
