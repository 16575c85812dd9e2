//! A stream context that answers with the stored inventory of a book.
//!
//! The request body is the name of the book. The context reads the body,
//! looks the name up in the persistent store `state_demo`, and writes what
//! it finds into the response body; a book that the store does not know
//! has an empty inventory. A body that is no text, or a store that fails,
//! is logged as an error and holds the exchange; nothing is written then.

use vstd::prelude::*;
use vstd::string::*;
use vstd::utf8::*;
use crate::error::Fatal;
use crate::hostcalls::{
    get_buffer,
    get_state,
    log,
    parse_proxy_done,
    parse_proxy_status,
    reply_bytes,
    reply_done,
    set_buffer,
    HostCall,
    HostCallView,
    HostReply,
    HostReplyView,
};
use crate::text::{decimal, decimal_digits, string_from_utf8};
use crate::traits::{outcome_view, Context, DefaultRootContext, HttpContext, Step, StepView};
use crate::types::{Action, BufferType, LogLevel};

verus! {

/// How far an exchange has come.
#[derive(Clone, Copy, Debug, PartialEq, Eq, Structural)]
pub enum ServerPhase {
    /// No call into the host is under way.
    Idle,
    /// The request body has been asked for.
    ReadingBody,
    /// The inventory of the book has been asked for.
    ReadingState,
    /// The response body is being written.
    WritingResponse,
    /// A failure is being logged.
    Reporting,
}

/// The stream context of the inventory server.
#[derive(Clone, Copy, Debug, PartialEq, Eq, Structural)]
pub struct ServerHttpContext {
    phase: ServerPhase,
}

impl View for ServerHttpContext {
    type V = ServerPhase;

    closed spec fn view(&self) -> ServerPhase {
        self.phase
    }
}

impl Default for ServerHttpContext {
    fn default() -> (context: Self)
        ensures
            context@ == ServerPhase::Idle,
    {
        ServerHttpContext { phase: ServerPhase::Idle }
    }
}

/// The name of the book that a request body asks for: the body itself,
/// where it is text.
pub open spec fn requested_book(body: Option<Seq<u8>>) -> Option<Seq<char>> {
    match body {
        Some(bytes) => if valid_utf8(bytes) {
            Some(decode_utf8(bytes))
        } else {
            None
        },
        None => None,
    }
}

/// The request that the server makes for a request body of `body_size`
/// bytes: to read them.
pub open spec fn server_request_body(body_size: usize) -> (ServerPhase, Result<StepView, Fatal>) {
    (
        ServerPhase::ReadingBody,
        Ok(
            StepView::Call(
                HostCallView::GetBufferBytes {
                    buffer_type: BufferType::HttpRequestBody,
                    start: 0,
                    max_size: body_size,
                },
            ),
        ),
    )
}

/// The log entry with which the server ends an exchange that it holds.
pub open spec fn server_report(message: Seq<char>) -> (ServerPhase, Result<StepView, Fatal>) {
    (
        ServerPhase::Reporting,
        Ok(StepView::Call(HostCallView::Log { level: LogLevel::Error, message: encode_utf8(message) })),
    )
}

/// What the server does with the host's reply in each phase.
///
/// A body that cannot be read or is no text is reported as a missing
/// parameter. What the store holds for the book goes into the response
/// body, nothing where it holds nothing; a store that fails is reported
/// with the status it failed with. Once the host has taken the response
/// the exchange proceeds; once it has taken a report the exchange is held.
/// A host that refuses either breaks the contract.
pub open spec fn server_reply(phase: ServerPhase, reply: HostReplyView) -> (
    ServerPhase,
    Result<StepView, Fatal>,
) {
    match phase {
        ServerPhase::Idle => (ServerPhase::Idle, Ok(StepView::Done(Action::Continue))),
        ServerPhase::ReadingBody => {
            let body = match reply_bytes(reply) {
                Ok(body) => body,
                Err(_) => None,
            };
            match requested_book(body) {
                Some(name) => (
                    ServerPhase::ReadingState,
                    Ok(
                        StepView::Call(
                            HostCallView::GetState {
                                store_name: "state_demo".spec_bytes(),
                                key: encode_utf8(name),
                            },
                        ),
                    ),
                ),
                None => server_report("Param 'name' not found"@),
            }
        },
        ServerPhase::ReadingState => match reply_bytes(reply) {
            Ok(response) => {
                let inventory = match response {
                    Some(bytes) => bytes,
                    None => Seq::empty(),
                };
                (
                    ServerPhase::WritingResponse,
                    Ok(
                        StepView::Call(
                            HostCallView::SetBufferBytes {
                                buffer_type: BufferType::HttpResponseBody,
                                start: 0,
                                size: inventory.len() as usize,
                                data: inventory,
                            },
                        ),
                    ),
                )
            },
            Err(_) => server_report("Get State failed: "@ + decimal_digits(reply.status as nat)),
        },
        ServerPhase::WritingResponse => match reply_done(reply) {
            Ok(()) => (ServerPhase::Idle, Ok(StepView::Done(Action::Continue))),
            Err(fatal) => (ServerPhase::Idle, Err(fatal)),
        },
        ServerPhase::Reporting => match reply_done(reply) {
            Ok(()) => (ServerPhase::Idle, Ok(StepView::Done(Action::Pause))),
            Err(fatal) => (ServerPhase::Idle, Err(fatal)),
        },
    }
}

impl Context for ServerHttpContext {
}

impl HttpContext for ServerHttpContext {
    fn on_http_request_body(self, body_size: usize, _end_of_stream: bool) -> (next: (
        Self,
        Result<Step, Fatal>,
    ))
        ensures
            (next.0@, outcome_view(next.1)) == server_request_body(body_size),
    {
        (
            ServerHttpContext { phase: ServerPhase::ReadingBody },
            Ok(Step::Call(get_buffer(BufferType::HttpRequestBody, 0, body_size))),
        )
    }

    fn on_host_reply(self, reply: HostReply) -> (next: (Self, Result<Step, Fatal>))
        ensures
            (next.0@, outcome_view(next.1)) == server_reply(self@, reply@),
    {
        match self.phase {
            ServerPhase::Idle => (self, Ok(Step::Done(Action::Continue))),
            ServerPhase::ReadingBody => {
                let name = match parse_proxy_status(reply) {
                    Ok(Some(bytes)) => string_from_utf8(bytes),
                    _ => None,
                };
                match name {
                    Some(name) => (
                        ServerHttpContext { phase: ServerPhase::ReadingState },
                        Ok(Step::Call(get_state("state_demo", name.as_str()))),
                    ),
                    None => (
                        ServerHttpContext { phase: ServerPhase::Reporting },
                        Ok(Step::Call(log(LogLevel::Error, "Param 'name' not found"))),
                    ),
                }
            },
            ServerPhase::ReadingState => {
                let status = reply.status;
                match parse_proxy_status(reply) {
                    Ok(response) => {
                        let inventory = match response {
                            Some(bytes) => bytes,
                            None => Vec::new(),
                        };
                        (
                            ServerHttpContext { phase: ServerPhase::WritingResponse },
                            Ok(
                                Step::Call(
                                    set_buffer(
                                        BufferType::HttpResponseBody,
                                        0,
                                        inventory.as_slice(),
                                    ),
                                ),
                            ),
                        )
                    },
                    Err(_) => {
                        let mut message = "Get State failed: ".to_owned();
                        let digits = decimal(status);
                        message.append(digits.as_str());
                        (
                            ServerHttpContext { phase: ServerPhase::Reporting },
                            Ok(Step::Call(log(LogLevel::Error, message.as_str()))),
                        )
                    },
                }
            },
            ServerPhase::WritingResponse => match parse_proxy_done(reply) {
                Ok(()) => (
                    ServerHttpContext { phase: ServerPhase::Idle },
                    Ok(Step::Done(Action::Continue)),
                ),
                Err(fatal) => (ServerHttpContext { phase: ServerPhase::Idle }, Err(fatal)),
            },
            ServerPhase::Reporting => match parse_proxy_done(reply) {
                Ok(()) => (
                    ServerHttpContext { phase: ServerPhase::Idle },
                    Ok(Step::Done(Action::Pause)),
                ),
                Err(fatal) => (ServerHttpContext { phase: ServerPhase::Idle }, Err(fatal)),
            },
        }
    }
}

/// The factory that the server module registers when it starts: every root
/// context is a [`DefaultRootContext`] over [`ServerHttpContext`].
pub fn new_root_context(_context_id: u32) -> (root: DefaultRootContext<ServerHttpContext>)
    ensures
        root == DefaultRootContext::<ServerHttpContext>(std::marker::PhantomData),
{
    DefaultRootContext::default()
}

/// The request by which the server tells the host its own name, `id_2`.
pub fn proxy_get_id() -> (call: HostCall)
    ensures
        call@ == (HostCallView::SetBufferBytes {
            buffer_type: BufferType::BufferTypeCallData,
            start: 0,
            size: "id_2".spec_bytes().len() as usize,
            data: "id_2".spec_bytes(),
        }),
{
    set_buffer(BufferType::BufferTypeCallData, 0, "id_2".as_bytes())
}

/// Whether `phases`, `replies` and `outcomes` tell how the server went
/// through an exchange: each reply leads from its phase to the next with
/// its outcome.
pub open spec fn server_course(
    phases: Seq<ServerPhase>,
    replies: Seq<HostReplyView>,
    outcomes: Seq<Result<StepView, Fatal>>,
) -> bool {
    &&& phases.len() == replies.len() + 1
    &&& outcomes.len() == replies.len()
    &&& forall|k: int|
        0 <= k < replies.len() ==> (phases[k + 1], outcomes[k]) == server_reply(
            phases[k],
            #[trigger] replies[k],
        )
}

/// An exchange that the server holds has written nothing: where the server
/// has asked for the request body, has gone from call to call, and ends
/// with the verdict to pause, none of its calls wrote into a host buffer.
pub proof fn lemma_server_holds_without_writing(
    phases: Seq<ServerPhase>,
    replies: Seq<HostReplyView>,
    outcomes: Seq<Result<StepView, Fatal>>,
)
    requires
        server_course(phases, replies, outcomes),
        phases[0] == ServerPhase::ReadingBody,
        replies.len() > 0,
        forall|k: int| 0 <= k < replies.len() - 1 ==> #[trigger] outcomes[k] matches Ok(
            StepView::Call(_),
        ),
        outcomes[replies.len() - 1] == Ok::<StepView, Fatal>(StepView::Done(Action::Pause)),
    ensures
        forall|k: int|
            0 <= k < replies.len() ==> !(#[trigger] outcomes[k] matches Ok(
                StepView::Call(HostCallView::SetBufferBytes { .. }),
            )),
{
    let n = replies.len() as int;
    assert((phases[1], outcomes[0]) == server_reply(phases[0], replies[0]));
    if n >= 2 {
        assert((phases[2], outcomes[1]) == server_reply(phases[1], replies[1]));
    }
    if n >= 3 {
        assert((phases[3], outcomes[2]) == server_reply(phases[2], replies[2]));
    }
}

} // verus!
