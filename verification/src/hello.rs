//! A stream context that has a foreign function greet the caller.
//!
//! When the request headers arrive the context logs the request, reads the
//! header `name`, sends a greeting request for that name (or for nobody) to
//! the foreign function `SayHello`, and writes the greeting that comes back
//! into the response body. Any failure on the way breaks the contract.

use vstd::prelude::*;
use vstd::string::*;
use vstd::utf8::*;
use crate::error::Fatal;
use crate::hostcalls::{
    call_foreign_function,
    get_map_value,
    log,
    parse_proxy_done,
    parse_proxy_status,
    parse_proxy_text,
    reply_bytes,
    reply_done,
    reply_text,
    set_buffer,
    HostCallView,
    HostReply,
    HostReplyView,
};
use crate::message::{fits_field, request_bytes, response_hello, SayHelloRequest, SayHelloResponse};
use crate::traits::{outcome_view, Context, HttpContext, RootContext, Step, StepView};
use crate::types::{Action, BufferType, Bytes, ContextType, LogLevel, MapType};

verus! {

/// How far an exchange has come.
#[derive(Clone, Copy, Debug, PartialEq, Eq, Structural)]
pub enum HelloPhase {
    /// No call into the host is under way.
    Idle,
    /// The request is being logged.
    Logging,
    /// The header `name` has been asked for.
    ReadingName,
    /// The foreign function has been called.
    Greeting,
    /// The response body is being written.
    WritingResponse,
}

/// The root context of the greeting module: it makes a [`MyHttpContext`]
/// for every exchange.
#[derive(Clone, Copy, Debug, PartialEq, Eq, Structural)]
pub struct HttpRoot;

/// The stream context of the greeting module.
#[derive(Clone, Copy, Debug, PartialEq, Eq, Structural)]
pub struct MyHttpContext {
    pub context_id: u32,
    pub phase: HelloPhase,
}

impl Context for HttpRoot {
}

impl RootContext for HttpRoot {
    type Stream = MyHttpContext;

    fn create_http_context(&self, context_id: u32) -> (stream: Option<MyHttpContext>)
        ensures
            stream == Some(MyHttpContext { context_id, phase: HelloPhase::Idle }),
    {
        Some(MyHttpContext { context_id, phase: HelloPhase::Idle })
    }

    fn get_type(&self) -> (kind: Option<ContextType>)
        ensures
            kind == Some(ContextType::HttpContext),
    {
        Some(ContextType::HttpContext)
    }
}

/// The factory that the greeting module registers when it starts: every
/// root context is an [`HttpRoot`].
pub fn new_root_context(_context_id: u32) -> (root: HttpRoot)
    ensures
        root == HttpRoot,
{
    HttpRoot
}

/// The name that is greeted: the header `name`, or nobody where the
/// request has no such header.
pub open spec fn greeted_name(header: Option<Seq<char>>) -> Seq<char> {
    match header {
        Some(name) => name,
        None => Seq::empty(),
    }
}

/// What the context does once it knows whether the request has a header
/// `name`: it calls the foreign function `SayHello` with a greeting request
/// to the service `helloworld`.
pub open spec fn hello_request(header: Option<Seq<char>>) -> (HelloPhase, Result<StepView, Fatal>) {
    let name = greeted_name(header);
    if fits_field(name) {
        (
            HelloPhase::Greeting,
            Ok(
                StepView::Call(
                    HostCallView::CallForeignFunction {
                        function_name: "SayHello".spec_bytes(),
                        arguments: Some(request_bytes("helloworld"@, name)),
                    },
                ),
            ),
        )
    } else {
        (HelloPhase::Idle, Err(Fatal::MalformedMessage))
    }
}

/// What the context does with the answer of the foreign function, where
/// `answer` is what the function sent, nothing counting as no bytes: it
/// writes the greeting into the response body.
pub open spec fn hello_response(answer: Seq<u8>) -> (HelloPhase, Result<StepView, Fatal>) {
    match response_hello(answer, Seq::empty()) {
        Some(hello) => {
            let text = encode_utf8(hello);
            (
                HelloPhase::WritingResponse,
                Ok(
                    StepView::Call(
                        HostCallView::SetBufferBytes {
                            buffer_type: BufferType::HttpResponseBody,
                            start: 0,
                            size: text.len() as usize,
                            data: text,
                        },
                    ),
                ),
            )
        },
        None => (HelloPhase::Idle, Err(Fatal::MalformedMessage)),
    }
}

/// What the context does with the host's reply in each phase.
pub open spec fn hello_reply(phase: HelloPhase, reply: HostReplyView) -> (
    HelloPhase,
    Result<StepView, Fatal>,
) {
    match phase {
        HelloPhase::Idle => (HelloPhase::Idle, Ok(StepView::Done(Action::Continue))),
        HelloPhase::Logging => match reply_done(reply) {
            Ok(()) => (
                HelloPhase::ReadingName,
                Ok(
                    StepView::Call(
                        HostCallView::GetHeaderMapValue {
                            map_type: MapType::HttpRequestHeaders,
                            key: "name".spec_bytes(),
                        },
                    ),
                ),
            ),
            Err(fatal) => (HelloPhase::Idle, Err(fatal)),
        },
        HelloPhase::ReadingName => match reply_text(reply) {
            Ok(header) => hello_request(header),
            Err(fatal) => (HelloPhase::Idle, Err(fatal)),
        },
        HelloPhase::Greeting => match reply_bytes(reply) {
            Ok(Some(answer)) => hello_response(answer),
            Ok(None) => hello_response(Seq::empty()),
            Err(fatal) => (HelloPhase::Idle, Err(fatal)),
        },
        HelloPhase::WritingResponse => match reply_done(reply) {
            Ok(()) => (HelloPhase::Idle, Ok(StepView::Done(Action::Continue))),
            Err(fatal) => (HelloPhase::Idle, Err(fatal)),
        },
    }
}

impl Context for MyHttpContext {
}

impl MyHttpContext {
    fn set_phase(self, phase: HelloPhase) -> (context: Self)
        ensures
            context == (MyHttpContext { context_id: self.context_id, phase }),
    {
        MyHttpContext { context_id: self.context_id, phase }
    }

    /// Goes on once it is known whether the request has a header `name`.
    pub fn greet(self, header: Option<String>) -> (next: (Self, Result<Step, Fatal>))
        ensures
            next.0.context_id == self.context_id,
            (next.0.phase, outcome_view(next.1)) == hello_request(
                match header {
                    Some(name) => Some(name@),
                    None => None,
                },
            ),
    {
        let name = match header {
            Some(name) => name,
            None => String::new(),
        };
        let request = SayHelloRequest { service_name: "helloworld".to_owned(), name };
        proof {
            reveal_strlit("helloworld");
            is_ascii_chars_encode_utf8("helloworld"@);
        }
        match request.write_to_bytes() {
            Ok(data) => (
                self.set_phase(HelloPhase::Greeting),
                Ok(Step::Call(call_foreign_function("SayHello", Some(data.as_slice())))),
            ),
            Err(fatal) => (self.set_phase(HelloPhase::Idle), Err(fatal)),
        }
    }

    /// Goes on with what the foreign function sent.
    pub fn respond(self, answer: Bytes) -> (next: (Self, Result<Step, Fatal>))
        ensures
            next.0.context_id == self.context_id,
            (next.0.phase, outcome_view(next.1)) == hello_response(answer@),
    {
        match SayHelloResponse::parse_from_bytes(answer.as_slice()) {
            Ok(response) => (
                self.set_phase(HelloPhase::WritingResponse),
                Ok(
                    Step::Call(
                        set_buffer(BufferType::HttpResponseBody, 0, response.get_hello().as_bytes()),
                    ),
                ),
            ),
            Err(fatal) => (self.set_phase(HelloPhase::Idle), Err(fatal)),
        }
    }
}

impl HttpContext for MyHttpContext {
    fn on_http_request_headers(self, _num_headers: usize) -> (next: (Self, Result<Step, Fatal>))
        ensures
            next.0 == (MyHttpContext { context_id: self.context_id, phase: HelloPhase::Logging }),
            outcome_view(next.1) == Ok::<StepView, Fatal>(
                StepView::Call(
                    HostCallView::Log {
                        level: LogLevel::Info,
                        message: "rust wasm receive a http request".spec_bytes(),
                    },
                ),
            ),
    {
        (
            self.set_phase(HelloPhase::Logging),
            Ok(Step::Call(log(LogLevel::Info, "rust wasm receive a http request"))),
        )
    }

    fn on_host_reply(self, reply: HostReply) -> (next: (Self, Result<Step, Fatal>))
        ensures
            next.0.context_id == self.context_id,
            (next.0.phase, outcome_view(next.1)) == hello_reply(self.phase, reply@),
    {
        match self.phase {
            HelloPhase::Idle => (self, Ok(Step::Done(Action::Continue))),
            HelloPhase::Logging => match parse_proxy_done(reply) {
                Ok(()) => (
                    self.set_phase(HelloPhase::ReadingName),
                    Ok(Step::Call(get_map_value(MapType::HttpRequestHeaders, "name"))),
                ),
                Err(fatal) => (self.set_phase(HelloPhase::Idle), Err(fatal)),
            },
            HelloPhase::ReadingName => match parse_proxy_text(reply) {
                Ok(header) => self.greet(header),
                Err(fatal) => (self.set_phase(HelloPhase::Idle), Err(fatal)),
            },
            HelloPhase::Greeting => match parse_proxy_status(reply) {
                Ok(Some(answer)) => self.respond(answer),
                Ok(None) => self.respond(Vec::new()),
                Err(fatal) => (self.set_phase(HelloPhase::Idle), Err(fatal)),
            },
            HelloPhase::WritingResponse => match parse_proxy_done(reply) {
                Ok(()) => (self.set_phase(HelloPhase::Idle), Ok(Step::Done(Action::Continue))),
                Err(fatal) => (self.set_phase(HelloPhase::Idle), Err(fatal)),
            },
        }
    }
}

} // verus!
