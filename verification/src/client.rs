//! A stream context that asks another service how many copies of a book
//! there are.
//!
//! The request body names the book as the parameter `name` of a query
//! string. The context reads the body, asks the service `id_2` for the
//! inventory of that book, and writes a sentence with the answer into the
//! response body. A body without a name, or a service that fails, is logged
//! as an error and holds the exchange; nothing is written then.

use vstd::prelude::*;
use vstd::string::*;
use vstd::utf8::*;
use crate::error::Fatal;
use crate::hostcalls::{
    get_buffer,
    invoke_service,
    log,
    parse_proxy_done,
    parse_proxy_status,
    reply_bytes,
    reply_done,
    set_buffer,
    HostCall,
    HostCallView,
    HostReply,
    HostReplyView,
};
use crate::query::{book_name, get_book_name};
use crate::text::{decimal, decimal_digits, string_from_utf8};
use crate::traits::{outcome_view, Context, DefaultRootContext, HttpContext, Step, StepView};
use crate::types::{Action, BufferType, Bytes, LogLevel};

verus! {

/// How far an exchange has come.
#[derive(Clone, Debug, PartialEq, Eq)]
pub enum ClientPhase {
    /// No call into the host is under way.
    Idle,
    /// The request body has been asked for.
    ReadingBody,
    /// The inventory of `book_name` has been asked for.
    CallingService { book_name: String },
    /// The response body is being written.
    WritingResponse,
    /// A failure is being logged.
    Reporting,
}

/// What a [`ClientPhase`] holds, as mathematical values.
pub enum ClientPhaseView {
    Idle,
    ReadingBody,
    CallingService { book_name: Seq<char> },
    WritingResponse,
    Reporting,
}

impl View for ClientPhase {
    type V = ClientPhaseView;

    open spec fn view(&self) -> ClientPhaseView {
        match *self {
            ClientPhase::Idle => ClientPhaseView::Idle,
            ClientPhase::ReadingBody => ClientPhaseView::ReadingBody,
            ClientPhase::CallingService { book_name } => ClientPhaseView::CallingService {
                book_name: book_name@,
            },
            ClientPhase::WritingResponse => ClientPhaseView::WritingResponse,
            ClientPhase::Reporting => ClientPhaseView::Reporting,
        }
    }
}

/// The stream context of the inventory client.
#[derive(Clone, Debug, PartialEq, Eq)]
pub struct ClientHttpContext {
    phase: ClientPhase,
}

impl View for ClientHttpContext {
    type V = ClientPhaseView;

    closed spec fn view(&self) -> ClientPhaseView {
        self.phase@
    }
}

impl Default for ClientHttpContext {
    fn default() -> (context: Self)
        ensures
            context@ == ClientPhaseView::Idle,
    {
        ClientHttpContext { phase: ClientPhase::Idle }
    }
}

/// The number that a service reported, as text: what it sent, where that is
/// text, and nothing otherwise.
pub open spec fn inventory_count(response: Option<Seq<u8>>) -> Seq<char> {
    match response {
        Some(bytes) => if valid_utf8(bytes) {
            decode_utf8(bytes)
        } else {
            Seq::empty()
        },
        None => Seq::empty(),
    }
}

/// The sentence that answers a request for the inventory of `book_name`.
pub open spec fn inventory_message(response: Option<Seq<u8>>, book_name: Seq<char>) -> Seq<char> {
    "There are "@ + inventory_count(response) + " inventories for "@ + book_name + ".\n"@
}

/// The request that the client makes for a request body of `body_size`
/// bytes: to read them.
pub open spec fn client_request_body(body_size: usize) -> (ClientPhaseView, Result<StepView, Fatal>) {
    (
        ClientPhaseView::ReadingBody,
        Ok(
            StepView::Call(
                HostCallView::GetBufferBytes {
                    buffer_type: BufferType::HttpRequestBody,
                    start: 0,
                    max_size: body_size,
                },
            ),
        ),
    )
}

/// The log entry with which the client ends an exchange that it holds.
pub open spec fn client_report(message: Seq<char>) -> (ClientPhaseView, Result<StepView, Fatal>) {
    (
        ClientPhaseView::Reporting,
        Ok(StepView::Call(HostCallView::Log { level: LogLevel::Error, message: encode_utf8(message) })),
    )
}

/// What the client does with the host's reply in each phase.
///
/// A body that cannot be read, is no text or names no book is reported as a
/// missing parameter. A service that answers is quoted in the response
/// body; one that fails is reported with the status it failed with. Once
/// the host has taken the response the exchange proceeds; once it has taken
/// a report the exchange is held. A host that refuses either breaks the
/// contract.
pub open spec fn client_reply(phase: ClientPhaseView, reply: HostReplyView) -> (
    ClientPhaseView,
    Result<StepView, Fatal>,
) {
    match phase {
        ClientPhaseView::Idle => (ClientPhaseView::Idle, Ok(StepView::Done(Action::Continue))),
        ClientPhaseView::ReadingBody => {
            let body = match reply_bytes(reply) {
                Ok(body) => body,
                Err(_) => None,
            };
            match book_name(body) {
                Some(name) => (
                    ClientPhaseView::CallingService { book_name: name },
                    Ok(
                        StepView::Call(
                            HostCallView::InvokeService {
                                id: "id_2".spec_bytes(),
                                method: "".spec_bytes(),
                                param: encode_utf8(name),
                            },
                        ),
                    ),
                ),
                None => client_report("Param 'name' not found"@),
            }
        },
        ClientPhaseView::CallingService { book_name } => match reply_bytes(reply) {
            Ok(response) => {
                let message = encode_utf8(inventory_message(response, book_name));
                (
                    ClientPhaseView::WritingResponse,
                    Ok(
                        StepView::Call(
                            HostCallView::SetBufferBytes {
                                buffer_type: BufferType::HttpResponseBody,
                                start: 0,
                                size: message.len() as usize,
                                data: message,
                            },
                        ),
                    ),
                )
            },
            Err(_) => client_report(
                "Invoke service failed: "@ + decimal_digits(reply.status as nat),
            ),
        },
        ClientPhaseView::WritingResponse => match reply_done(reply) {
            Ok(()) => (ClientPhaseView::Idle, Ok(StepView::Done(Action::Continue))),
            Err(fatal) => (ClientPhaseView::Idle, Err(fatal)),
        },
        ClientPhaseView::Reporting => match reply_done(reply) {
            Ok(()) => (ClientPhaseView::Idle, Ok(StepView::Done(Action::Pause))),
            Err(fatal) => (ClientPhaseView::Idle, Err(fatal)),
        },
    }
}

/// Writes the sentence that answers a request for the inventory of
/// `book_name`.
pub fn inventory_sentence(response: Option<Bytes>, book_name: &str) -> (message: String)
    ensures
        message@ == inventory_message(crate::hostcalls::bytes_view(response), book_name@),
{
    let count = match response {
        Some(bytes) => match string_from_utf8(bytes) {
            Some(text) => text,
            None => String::new(),
        },
        None => String::new(),
    };
    let mut message = "There are ".to_owned();
    message.append(count.as_str());
    message.append(" inventories for ");
    message.append(book_name);
    message.append(".\n");
    message
}

impl Context for ClientHttpContext {
}

impl HttpContext for ClientHttpContext {
    fn on_http_request_body(self, body_size: usize, _end_of_stream: bool) -> (next: (
        Self,
        Result<Step, Fatal>,
    ))
        ensures
            (next.0@, outcome_view(next.1)) == client_request_body(body_size),
    {
        (
            ClientHttpContext { phase: ClientPhase::ReadingBody },
            Ok(Step::Call(get_buffer(BufferType::HttpRequestBody, 0, body_size))),
        )
    }

    fn on_host_reply(self, reply: HostReply) -> (next: (Self, Result<Step, Fatal>))
        ensures
            (next.0@, outcome_view(next.1)) == client_reply(self@, reply@),
    {
        match self.phase {
            ClientPhase::Idle => (self, Ok(Step::Done(Action::Continue))),
            ClientPhase::ReadingBody => {
                let body = match parse_proxy_status(reply) {
                    Ok(body) => body,
                    Err(_) => None,
                };
                match get_book_name(&body) {
                    Some(name) => {
                        let call = invoke_service("id_2", "", name.as_str());
                        (
                            ClientHttpContext { phase: ClientPhase::CallingService { book_name: name } },
                            Ok(Step::Call(call)),
                        )
                    },
                    None => (
                        ClientHttpContext { phase: ClientPhase::Reporting },
                        Ok(Step::Call(log(LogLevel::Error, "Param 'name' not found"))),
                    ),
                }
            },
            ClientPhase::CallingService { book_name } => {
                let status = reply.status;
                match parse_proxy_status(reply) {
                    Ok(response) => {
                        let message = inventory_sentence(response, book_name.as_str());
                        let call = set_buffer(
                            BufferType::HttpResponseBody,
                            0,
                            message.as_str().as_bytes(),
                        );
                        (
                            ClientHttpContext { phase: ClientPhase::WritingResponse },
                            Ok(Step::Call(call)),
                        )
                    },
                    Err(_) => {
                        let mut message = "Invoke service failed: ".to_owned();
                        let digits = decimal(status);
                        message.append(digits.as_str());
                        (
                            ClientHttpContext { phase: ClientPhase::Reporting },
                            Ok(Step::Call(log(LogLevel::Error, message.as_str()))),
                        )
                    },
                }
            },
            ClientPhase::WritingResponse => match parse_proxy_done(reply) {
                Ok(()) => (
                    ClientHttpContext { phase: ClientPhase::Idle },
                    Ok(Step::Done(Action::Continue)),
                ),
                Err(fatal) => (ClientHttpContext { phase: ClientPhase::Idle }, Err(fatal)),
            },
            ClientPhase::Reporting => match parse_proxy_done(reply) {
                Ok(()) => (
                    ClientHttpContext { phase: ClientPhase::Idle },
                    Ok(Step::Done(Action::Pause)),
                ),
                Err(fatal) => (ClientHttpContext { phase: ClientPhase::Idle }, Err(fatal)),
            },
        }
    }
}

/// The factory that the client module registers when it starts: every root
/// context is a [`DefaultRootContext`] over [`ClientHttpContext`].
pub fn new_root_context(_context_id: u32) -> (root: DefaultRootContext<ClientHttpContext>)
    ensures
        root == DefaultRootContext::<ClientHttpContext>(std::marker::PhantomData),
{
    DefaultRootContext::default()
}

/// The request by which the client tells the host its own name, `id_1`.
pub fn proxy_get_id() -> (call: HostCall)
    ensures
        call@ == (HostCallView::SetBufferBytes {
            buffer_type: BufferType::BufferTypeCallData,
            start: 0,
            size: "id_1".spec_bytes().len() as usize,
            data: "id_1".spec_bytes(),
        }),
{
    set_buffer(BufferType::BufferTypeCallData, 0, "id_1".as_bytes())
}

/// Whether an outcome is the call that writes into a host buffer.
pub open spec fn writes_buffer(outcome: Result<StepView, Fatal>) -> bool {
    outcome matches Ok(StepView::Call(HostCallView::SetBufferBytes { .. }))
}

/// Whether `phases`, `replies` and `outcomes` tell how the client went
/// through an exchange: each reply leads from its phase to the next with
/// its outcome.
pub open spec fn client_course(
    phases: Seq<ClientPhaseView>,
    replies: Seq<HostReplyView>,
    outcomes: Seq<Result<StepView, Fatal>>,
) -> bool {
    &&& phases.len() == replies.len() + 1
    &&& outcomes.len() == replies.len()
    &&& forall|k: int|
        0 <= k < replies.len() ==> (phases[k + 1], outcomes[k]) == client_reply(
            phases[k],
            #[trigger] replies[k],
        )
}

/// An exchange that the client holds has written nothing: where the client
/// has asked for the request body, has gone from call to call, and ends
/// with the verdict to pause, none of its calls wrote into a host buffer.
pub proof fn lemma_client_holds_without_writing(
    phases: Seq<ClientPhaseView>,
    replies: Seq<HostReplyView>,
    outcomes: Seq<Result<StepView, Fatal>>,
)
    requires
        client_course(phases, replies, outcomes),
        phases[0] == ClientPhaseView::ReadingBody,
        replies.len() > 0,
        forall|k: int| 0 <= k < replies.len() - 1 ==> #[trigger] outcomes[k] matches Ok(
            StepView::Call(_),
        ),
        outcomes[replies.len() - 1] == Ok::<StepView, Fatal>(StepView::Done(Action::Pause)),
    ensures
        forall|k: int| 0 <= k < replies.len() ==> !writes_buffer(#[trigger] outcomes[k]),
{
    let n = replies.len() as int;
    assert((phases[1], outcomes[0]) == client_reply(phases[0], replies[0]));
    if n >= 2 {
        assert((phases[2], outcomes[1]) == client_reply(phases[1], replies[1]));
    }
    if n >= 3 {
        assert((phases[3], outcomes[2]) == client_reply(phases[2], replies[2]));
    }
}

} // verus!
