//! What holds of a dispatcher over any course of events.
//!
//! A course of events is told by the states that the registry goes through,
//! the event that leads from each state to the next, and the answer given
//! to it. Each step is held to the same relations that the functions of the
//! dispatcher and of the export table promise, so whatever is shown here of
//! every course holds of every sequence of calls to them.

use vstd::prelude::*;
use crate::dispatcher::DispatcherView;
use crate::error::Fatal;
use crate::exports::{Answer, Export};
use crate::hostcalls::HostReply;
use crate::traits::RootContext;
use crate::types::ContextType;

verus! {

/// One thing that happens to a dispatcher.
pub enum Event<FR, FS> {
    /// The host invokes an entry point.
    Invoke(Export),
    /// The host's reply to a call is handed to the stream context that
    /// asked for it.
    Resume { context_id: u32, reply: HostReply },
    /// The module registers its factory of root contexts.
    SetRootContext(FR),
    /// The module registers its factory of stream contexts.
    SetHttpContext(FS),
}

impl<R: RootContext, FR: Fn(u32) -> R, FS: Fn(u32, u32) -> R::Stream> DispatcherView<R, FR, FS> {
    /// Whether `event` may take this registry to `after` with `answer`.
    pub open spec fn steps(
        self,
        event: Event<FR, FS>,
        after: Self,
        answer: Result<Answer, Fatal>,
    ) -> bool {
        match event {
            Event::Invoke(export) => self.handles(export, after, answer),
            Event::Resume { context_id, reply } => match answer {
                Ok(Answer::Next(step)) => self.routes_host_reply(context_id, reply, after, Ok(step)),
                Err(fatal) => self.routes_host_reply(context_id, reply, after, Err(fatal)),
                _ => false,
            },
            Event::SetRootContext(callback) => {
                &&& answer == Ok::<Answer, Fatal>(Answer::Nothing)
                &&& after == DispatcherView {
                    new_root: Some(callback),
                    roots: self.roots,
                    new_http_stream: self.new_http_stream,
                    http_streams: self.http_streams,
                }
            },
            Event::SetHttpContext(callback) => {
                &&& answer == Ok::<Answer, Fatal>(Answer::Nothing)
                &&& after == DispatcherView {
                    new_root: self.new_root,
                    roots: self.roots,
                    new_http_stream: Some(callback),
                    http_streams: self.http_streams,
                }
            },
        }
    }

    /// Whether the root context answers every request for the stream
    /// context `context_id`: it declares a kind of child, and it yields a
    /// context.
    pub open spec fn root_yields(root: R, context_id: u32) -> bool {
        &&& forall|kind: Option<ContextType>| #[trigger]
            call_ensures(R::get_type, (&root,), kind) ==> kind is Some
        &&& forall|made: Option<R::Stream>| #[trigger]
            call_ensures(R::create_http_context, (&root, context_id), made) ==> made is Some
    }
}

/// Whether `states`, `events` and `answers` tell a course of events: each
/// event leads from its state to the next with its answer.
pub open spec fn course<R: RootContext, FR: Fn(u32) -> R, FS: Fn(u32, u32) -> R::Stream>(
    states: Seq<DispatcherView<R, FR, FS>>,
    events: Seq<Event<FR, FS>>,
    answers: Seq<Result<Answer, Fatal>>,
) -> bool {
    &&& states.len() == events.len() + 1
    &&& answers.len() == events.len()
    &&& forall|k: int|
        0 <= k < events.len() ==> states[k].steps(#[trigger] events[k], states[k + 1], answers[k])
}

/// Whether `event` asks for the stream context `context_id` to be created.
pub open spec fn creates_stream_of<FR, FS>(event: Event<FR, FS>, context_id: u32) -> bool {
    event matches Event::Invoke(Export::ContextCreate { context_id: created, root_context_id })
        && created == context_id && root_context_id != 0
}

/// Whether `event` asks for the root context `context_id` to be created.
pub open spec fn creates_root_of<FR, FS>(event: Event<FR, FS>, context_id: u32) -> bool {
    event matches Event::Invoke(Export::ContextCreate { context_id: created, root_context_id })
        && created == context_id && root_context_id == 0
}

/// Whether `event` tears the context `context_id` down.
pub open spec fn deletes<FR, FS>(event: Event<FR, FS>, context_id: u32) -> bool {
    event matches Event::Invoke(Export::Delete { context_id: deleted }) && deleted == context_id
}

/// Whether `event` is a callback to the stream context `context_id`.
pub open spec fn calls_stream<FR, FS>(event: Event<FR, FS>, context_id: u32) -> bool {
    match event {
        Event::Invoke(Export::RequestHeaders { context_id: called, .. }) => called == context_id,
        Event::Invoke(Export::RequestBody { context_id: called, .. }) => called == context_id,
        Event::Resume { context_id: called, .. } => called == context_id,
        _ => false,
    }
}

proof fn lemma_stream_stays_unknown<R: RootContext, FR: Fn(u32) -> R, FS: Fn(u32, u32) -> R::Stream>(
    states: Seq<DispatcherView<R, FR, FS>>,
    events: Seq<Event<FR, FS>>,
    answers: Seq<Result<Answer, Fatal>>,
    context_id: u32,
    upto: int,
)
    requires
        course(states, events, answers),
        !states[0].http_streams.contains_key(context_id),
        forall|k: int| 0 <= k < events.len() ==> !creates_stream_of(#[trigger] events[k], context_id),
        0 <= upto <= events.len(),
    ensures
        !states[upto].http_streams.contains_key(context_id),
    decreases upto,
{
    if upto > 0 {
        lemma_stream_stays_unknown(states, events, answers, context_id, upto - 1);
        assert(!creates_stream_of(events[upto - 1], context_id));
    }
}

/// A stream callback to an identifier under which no stream context was
/// ever created breaks the contract: over any course of events that starts
/// without such a context and never creates one, every callback to that
/// identifier is answered with [`Fatal::UnknownContextId`] and leaves the
/// registry as it was.
pub proof fn lemma_never_created_is_unknown<
    R: RootContext,
    FR: Fn(u32) -> R,
    FS: Fn(u32, u32) -> R::Stream,
>(
    states: Seq<DispatcherView<R, FR, FS>>,
    events: Seq<Event<FR, FS>>,
    answers: Seq<Result<Answer, Fatal>>,
    context_id: u32,
)
    requires
        course(states, events, answers),
        !states[0].http_streams.contains_key(context_id),
        forall|k: int| 0 <= k < events.len() ==> !creates_stream_of(#[trigger] events[k], context_id),
    ensures
        forall|k: int|
            0 <= k < events.len() && calls_stream(#[trigger] events[k], context_id) ==> {
                &&& answers[k] == Err::<Answer, Fatal>(Fatal::UnknownContextId)
                &&& states[k + 1] == states[k]
            },
{
    assert forall|k: int|
        0 <= k < events.len() && calls_stream(#[trigger] events[k], context_id) implies {
        &&& answers[k] == Err::<Answer, Fatal>(Fatal::UnknownContextId)
        &&& states[k + 1] == states[k]
    } by {
        lemma_stream_stays_unknown(states, events, answers, context_id, k);
    }
}

proof fn lemma_root_stays_known<R: RootContext, FR: Fn(u32) -> R, FS: Fn(u32, u32) -> R::Stream>(
    states: Seq<DispatcherView<R, FR, FS>>,
    events: Seq<Event<FR, FS>>,
    answers: Seq<Result<Answer, Fatal>>,
    context_id: u32,
    first: int,
    upto: int,
)
    requires
        course(states, events, answers),
        0 <= first < upto <= events.len(),
        creates_root_of(events[first], context_id),
        answers[first] is Ok,
        forall|k: int| first < k < events.len() ==> !deletes(#[trigger] events[k], context_id),
    ensures
        states[upto].roots.contains_key(context_id),
        states[upto].new_root is Some,
    decreases upto,
{
    if upto > first + 1 {
        lemma_root_stays_known(states, events, answers, context_id, first, upto - 1);
        assert(!deletes(events[upto - 1], context_id));
    }
}

proof fn lemma_stream_stays_known<R: RootContext, FR: Fn(u32) -> R, FS: Fn(u32, u32) -> R::Stream>(
    states: Seq<DispatcherView<R, FR, FS>>,
    events: Seq<Event<FR, FS>>,
    answers: Seq<Result<Answer, Fatal>>,
    context_id: u32,
    first: int,
    upto: int,
)
    requires
        course(states, events, answers),
        0 <= first < upto <= events.len(),
        creates_stream_of(events[first], context_id),
        answers[first] is Ok,
        forall|k: int| first < k < events.len() ==> !deletes(#[trigger] events[k], context_id),
    ensures
        states[upto].http_streams.contains_key(context_id),
    decreases upto,
{
    if upto > first + 1 {
        lemma_stream_stays_known(states, events, answers, context_id, first, upto - 1);
        assert(!deletes(events[upto - 1], context_id));
    }
}

/// A root context cannot be created twice: once the root context
/// `context_id` has been created, and as long as it is not torn down, every
/// further creation of a root context under that identifier is answered
/// with [`Fatal::DuplicateContextId`] and leaves the registry as it was.
pub proof fn lemma_root_created_twice<R: RootContext, FR: Fn(u32) -> R, FS: Fn(u32, u32) -> R::Stream>(
    states: Seq<DispatcherView<R, FR, FS>>,
    events: Seq<Event<FR, FS>>,
    answers: Seq<Result<Answer, Fatal>>,
    context_id: u32,
    first: int,
    second: int,
)
    requires
        course(states, events, answers),
        0 <= first < second < events.len(),
        creates_root_of(events[first], context_id),
        answers[first] is Ok,
        creates_root_of(events[second], context_id),
        forall|k: int| first < k < events.len() ==> !deletes(#[trigger] events[k], context_id),
    ensures
        answers[second] == Err::<Answer, Fatal>(Fatal::DuplicateContextId),
        states[second + 1] == states[second],
{
    lemma_root_stays_known(states, events, answers, context_id, first, second);
}

/// A stream context cannot be created twice: once the stream context
/// `context_id` has been created, and as long as it is not torn down, every
/// further creation of a stream context under that identifier is answered
/// with [`Fatal::DuplicateContextId`] and leaves the registry as it was.
///
/// This is stated of the creations that get as far as registering what
/// they made. Where no stream factory is registered, that takes a parent
/// that is a live root context and that answers every request for this
/// stream context; a creation under another parent fails before, for the
/// parent's sake.
pub proof fn lemma_stream_created_twice<
    R: RootContext,
    FR: Fn(u32) -> R,
    FS: Fn(u32, u32) -> R::Stream,
>(
    states: Seq<DispatcherView<R, FR, FS>>,
    events: Seq<Event<FR, FS>>,
    answers: Seq<Result<Answer, Fatal>>,
    context_id: u32,
    first: int,
    second: int,
)
    requires
        course(states, events, answers),
        0 <= first < second < events.len(),
        creates_stream_of(events[first], context_id),
        answers[first] is Ok,
        creates_stream_of(events[second], context_id),
        forall|k: int| first < k < events.len() ==> !deletes(#[trigger] events[k], context_id),
        states[second].new_http_stream is None ==> {
            let parent = events[second]->Invoke_0->ContextCreate_root_context_id;
            &&& states[second].roots.contains_key(parent)
            &&& DispatcherView::<R, FR, FS>::root_yields(states[second].roots[parent], context_id)
        },
    ensures
        answers[second] == Err::<Answer, Fatal>(Fatal::DuplicateContextId),
        states[second + 1] == states[second],
{
    lemma_stream_stays_known(states, events, answers, context_id, first, second);
}

/// The version marker does nothing, however often it is invoked: over a
/// course of events that are all invocations of the marker, every answer
/// is [`Answer::Nothing`] and every state is the first.
pub proof fn lemma_abi_marker_changes_nothing<
    R: RootContext,
    FR: Fn(u32) -> R,
    FS: Fn(u32, u32) -> R::Stream,
>(
    states: Seq<DispatcherView<R, FR, FS>>,
    events: Seq<Event<FR, FS>>,
    answers: Seq<Result<Answer, Fatal>>,
)
    requires
        course(states, events, answers),
        forall|k: int|
            0 <= k < events.len() ==> #[trigger] events[k] == Event::<FR, FS>::Invoke(
                Export::AbiVersion,
            ),
    ensures
        forall|k: int| 0 <= k < events.len() ==> #[trigger] answers[k] == Ok::<Answer, Fatal>(Answer::Nothing),
        forall|k: int| 0 <= k <= events.len() ==> #[trigger] states[k] == states[0],
{
    assert forall|k: int| 0 <= k < events.len() implies #[trigger] answers[k] == Ok::<
        Answer,
        Fatal,
    >(Answer::Nothing) by {
        assert(states[k].steps(events[k], states[k + 1], answers[k]));
    }
    assert forall|k: int| 0 <= k <= events.len() implies #[trigger] states[k] == states[0] by {
        lemma_marker_keeps_state(states, events, answers, k);
    }
}

proof fn lemma_marker_keeps_state<R: RootContext, FR: Fn(u32) -> R, FS: Fn(u32, u32) -> R::Stream>(
    states: Seq<DispatcherView<R, FR, FS>>,
    events: Seq<Event<FR, FS>>,
    answers: Seq<Result<Answer, Fatal>>,
    upto: int,
)
    requires
        course(states, events, answers),
        forall|k: int|
            0 <= k < events.len() ==> #[trigger] events[k] == Event::<FR, FS>::Invoke(
                Export::AbiVersion,
            ),
        0 <= upto <= events.len(),
    ensures
        states[upto] == states[0],
    decreases upto,
{
    if upto > 0 {
        lemma_marker_keeps_state(states, events, answers, upto - 1);
        let k = upto - 1;
        assert(states[k].steps(events[k], states[k + 1], answers[k]));
    }
}

} // verus!
