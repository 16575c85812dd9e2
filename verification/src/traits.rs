//! The capabilities that guest authors implement.
//!
//! A context is a unit of state that the host addresses by a number. A root
//! context lives as long as a plugin configuration and produces the stream
//! contexts under it; a stream context follows one request/response
//! exchange. Every callback has a default that does nothing and lets the
//! exchange proceed, so an implementer writes only the callbacks it needs.
//!
//! A callback never reaches into the host. It takes its context by value and
//! gives it back together with its decision; a stream callback that needs
//! the host answers with the call it wants made, and is resumed through
//! [`HttpContext::on_host_reply`] once the reply is there.

use vstd::prelude::*;
use std::marker::PhantomData;
use crate::error::Fatal;
use crate::hostcalls::{HostCall, HostCallView, HostReply};
use crate::types::{Action, ContextType};

verus! {

/// What a stream callback wants next: a call into the host, or to end with
/// its verdict.
#[derive(Clone, Debug, PartialEq, Eq)]
pub enum Step {
    Call(HostCall),
    Done(Action),
}

/// What a [`Step`] holds, as mathematical values.
pub enum StepView {
    Call(HostCallView),
    Done(Action),
}

impl View for Step {
    type V = StepView;

    open spec fn view(&self) -> StepView {
        match *self {
            Step::Call(call) => StepView::Call(call@),
            Step::Done(action) => StepView::Done(action),
        }
    }
}

/// The outcome of a stream callback as mathematical values.
pub open spec fn outcome_view(outcome: Result<Step, Fatal>) -> Result<StepView, Fatal> {
    match outcome {
        Ok(step) => Ok(step@),
        Err(fatal) => Err(fatal),
    }
}

/// Anchors the identity of a context object; asks for nothing.
pub trait Context {
}

/// A context that lives as long as a plugin configuration.
pub trait RootContext: Context + Sized {
    /// The stream contexts that this root produces.
    type Stream: HttpContext;

    /// Called once the module's virtual machine has started; `false` rejects
    /// the start. Accepts by default.
    fn on_vm_start(self, vm_configuration_size: usize) -> (next: (Self, bool))
        default_ensures
            next == (self, true),
    {
        (self, true)
    }

    /// Makes the stream context for a new exchange. Gives none by default.
    fn create_http_context(&self, context_id: u32) -> (stream: Option<Self::Stream>)
        default_ensures
            stream is None,
    {
        None
    }

    /// The kind of child that this root produces. Declares none by default.
    fn get_type(&self) -> (kind: Option<ContextType>)
        default_ensures
            kind is None,
    {
        None
    }
}

/// A context that follows one request/response exchange.
pub trait HttpContext: Context + Sized {
    /// The request headers have arrived. Proceeds by default.
    fn on_http_request_headers(self, num_headers: usize) -> (next: (Self, Result<Step, Fatal>))
        default_ensures
            next == (self, Ok::<Step, Fatal>(Step::Done(Action::Continue))),
    {
        (self, Ok(Step::Done(Action::Continue)))
    }

    /// A piece of the request body has arrived. Proceeds by default.
    fn on_http_request_body(self, body_size: usize, end_of_stream: bool) -> (next: (
        Self,
        Result<Step, Fatal>,
    ))
        default_ensures
            next == (self, Ok::<Step, Fatal>(Step::Done(Action::Continue))),
    {
        (self, Ok(Step::Done(Action::Continue)))
    }

    /// The host has answered the call that this context asked for last.
    /// Proceeds by default.
    fn on_host_reply(self, reply: HostReply) -> (next: (Self, Result<Step, Fatal>))
        default_ensures
            next == (self, Ok::<Step, Fatal>(Step::Done(Action::Continue))),
    {
        (self, Ok(Step::Done(Action::Continue)))
    }
}

/// The root context of a module with a single kind of stream context `T`:
/// it declares [`ContextType::HttpContext`] and makes a default `T` for
/// every exchange.
pub struct DefaultRootContext<T>(pub PhantomData<T>);

impl<T> Default for DefaultRootContext<T> {
    fn default() -> (root: Self)
        ensures
            root == DefaultRootContext::<T>(PhantomData),
    {
        DefaultRootContext(PhantomData)
    }
}

impl<T: HttpContext> Context for DefaultRootContext<T> {
}

impl<T: HttpContext + Default> RootContext for DefaultRootContext<T> {
    type Stream = T;

    fn create_http_context(&self, _context_id: u32) -> (stream: Option<T>)
        ensures
            stream matches Some(made) && call_ensures(T::default, (), made),
    {
        Some(T::default())
    }

    fn get_type(&self) -> (kind: Option<ContextType>)
        ensures
            kind == Some(ContextType::HttpContext),
    {
        Some(ContextType::HttpContext)
    }
}

} // verus!
