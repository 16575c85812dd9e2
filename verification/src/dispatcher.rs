//! The registry of live contexts, and the routing of host callbacks to them.
//!
//! A dispatcher belongs to one module instance. It knows the factories that
//! the module registered at start, the live root contexts and the live
//! stream contexts, each registry keyed by the identifier that the host
//! chose. The host is the only driver: the dispatcher reacts to one entry
//! point at a time, and reports a breach of the protocol as a [`Fatal`]
//! without touching its registries.

use vstd::prelude::*;
use std::collections::HashMap;
use std::marker::PhantomData;
use crate::error::Fatal;
use crate::hostcalls::HostReply;
use crate::traits::{HttpContext, RootContext, Step};
use crate::types::ContextType;

verus! {

broadcast use vstd::std_specs::hash::group_hash_axioms;

/// The registry of one module instance.
///
/// `R` is the module's kind of root context, `FR` the factory that makes a
/// root context for an identifier, and `FS` the factory that makes a stream
/// context for an identifier and the identifier of its parent.
#[verifier::reject_recursive_types(R)]
pub struct Dispatcher<R: RootContext, FR: Fn(u32) -> R, FS: Fn(u32, u32) -> R::Stream> {
    new_root: Option<RootFactory<R, FR>>,
    roots: HashMap<u32, R>,
    new_http_stream: Option<StreamFactory<R::Stream, FS>>,
    http_streams: HashMap<u32, R::Stream>,
}

/// A registered factory of root contexts: one that can be asked for any
/// identifier.
#[verifier::reject_recursive_types(R)]
struct RootFactory<R, FR: Fn(u32) -> R> {
    make: FR,
    made: PhantomData<R>,
}

impl<R, FR: Fn(u32) -> R> RootFactory<R, FR> {
    #[verifier::type_invariant]
    spec fn total(self) -> bool {
        forall|context_id: u32| call_requires(self.make, (context_id,))
    }
}

/// A registered factory of stream contexts: one that can be asked for any
/// identifier under any parent.
#[verifier::reject_recursive_types(S)]
struct StreamFactory<S, FS: Fn(u32, u32) -> S> {
    make: FS,
    made: PhantomData<S>,
}

impl<S, FS: Fn(u32, u32) -> S> StreamFactory<S, FS> {
    #[verifier::type_invariant]
    spec fn total(self) -> bool {
        forall|context_id: u32, root_context_id: u32|
            call_requires(self.make, (context_id, root_context_id))
    }
}

/// What a [`Dispatcher`] holds, as mathematical values.
#[verifier::reject_recursive_types(R)]
pub struct DispatcherView<R: RootContext, FR, FS> {
    /// The registered root factory, if any.
    pub new_root: Option<FR>,
    /// The live root contexts by identifier.
    pub roots: Map<u32, R>,
    /// The registered stream factory, if any.
    pub new_http_stream: Option<FS>,
    /// The live stream contexts by identifier.
    pub http_streams: Map<u32, R::Stream>,
}

impl<R: RootContext, FR: Fn(u32) -> R, FS: Fn(u32, u32) -> R::Stream> DispatcherView<R, FR, FS> {
    /// This registry with a root context put under `context_id`.
    pub open spec fn with_root(self, context_id: u32, root: R) -> Self {
        DispatcherView {
            new_root: self.new_root,
            roots: self.roots.insert(context_id, root),
            new_http_stream: self.new_http_stream,
            http_streams: self.http_streams,
        }
    }

    /// This registry with a stream context put under `context_id`.
    pub open spec fn with_stream(self, context_id: u32, stream: R::Stream) -> Self {
        DispatcherView {
            new_root: self.new_root,
            roots: self.roots,
            new_http_stream: self.new_http_stream,
            http_streams: self.http_streams.insert(context_id, stream),
        }
    }

    /// This registry without the context that a teardown of `context_id`
    /// is about: the stream context of that name, or else the root context.
    pub open spec fn without(self, context_id: u32) -> Self {
        if self.http_streams.contains_key(context_id) {
            DispatcherView {
                new_root: self.new_root,
                roots: self.roots,
                new_http_stream: self.new_http_stream,
                http_streams: self.http_streams.remove(context_id),
            }
        } else {
            DispatcherView {
                new_root: self.new_root,
                roots: self.roots.remove(context_id),
                new_http_stream: self.new_http_stream,
                http_streams: self.http_streams,
            }
        }
    }

    /// Whether the creation of the root context `context_id` may take this
    /// registry to `after` with `result`.
    ///
    /// Without a factory nothing is made. With one, the factory is asked,
    /// and what it made is registered unless the identifier is taken.
    pub open spec fn creates_root(self, context_id: u32, after: Self, result: Result<(), Fatal>) -> bool {
        match self.new_root {
            None => result == Err::<(), Fatal>(Fatal::MissingRootFactory) && after == self,
            Some(factory) => if self.roots.contains_key(context_id) {
                result == Err::<(), Fatal>(Fatal::DuplicateContextId) && after == self
            } else {
                &&& result is Ok
                &&& after.roots.contains_key(context_id)
                &&& call_ensures(factory, (context_id,), after.roots[context_id])
                &&& after == self.with_root(context_id, after.roots[context_id])
            },
        }
    }

    /// Whether the creation of the stream context `context_id` under the
    /// root `root_context_id` may take this registry to `after` with
    /// `result`.
    ///
    /// A registered stream factory is asked before anything else, and then
    /// the parent is not even looked up. Without one the parent must be
    /// live, must declare a kind of child, and must yield a context. What
    /// was made is registered unless the identifier is taken.
    pub open spec fn creates_stream(
        self,
        context_id: u32,
        root_context_id: u32,
        after: Self,
        result: Result<(), Fatal>,
    ) -> bool {
        match self.new_http_stream {
            Some(factory) => if self.http_streams.contains_key(context_id) {
                result == Err::<(), Fatal>(Fatal::DuplicateContextId) && after == self
            } else {
                &&& result is Ok
                &&& after.http_streams.contains_key(context_id)
                &&& call_ensures(
                    factory,
                    (context_id, root_context_id),
                    after.http_streams[context_id],
                )
                &&& after == self.with_stream(context_id, after.http_streams[context_id])
            },
            None => if !self.roots.contains_key(root_context_id) {
                result == Err::<(), Fatal>(Fatal::UnknownRootContext) && after == self
            } else {
                let root = self.roots[root_context_id];
                match result {
                    Err(Fatal::UnknownContextType) => {
                        &&& call_ensures(R::get_type, (&root,), None::<ContextType>)
                        &&& after == self
                    },
                    Err(Fatal::FactoryReturnedNone) => {
                        &&& call_ensures(R::get_type, (&root,), Some(ContextType::HttpContext))
                        &&& call_ensures(
                            R::create_http_context,
                            (&root, context_id),
                            None::<R::Stream>,
                        )
                        &&& after == self
                    },
                    Err(Fatal::DuplicateContextId) => {
                        &&& call_ensures(R::get_type, (&root,), Some(ContextType::HttpContext))
                        &&& exists|made: R::Stream| #[trigger]
                            call_ensures(R::create_http_context, (&root, context_id), Some(made))
                        &&& self.http_streams.contains_key(context_id)
                        &&& after == self
                    },
                    Ok(()) => {
                        &&& call_ensures(R::get_type, (&root,), Some(ContextType::HttpContext))
                        &&& !self.http_streams.contains_key(context_id)
                        &&& after.http_streams.contains_key(context_id)
                        &&& call_ensures(
                            R::create_http_context,
                            (&root, context_id),
                            Some(after.http_streams[context_id]),
                        )
                        &&& after == self.with_stream(context_id, after.http_streams[context_id])
                    },
                    Err(_) => false,
                }
            },
        }
    }

    /// Whether the creation of the context `context_id` under the parent
    /// `root_context_id` may take this registry to `after` with `result`:
    /// the parent 0 asks for a root context, any other for a stream context.
    pub open spec fn creates(
        self,
        context_id: u32,
        root_context_id: u32,
        after: Self,
        result: Result<(), Fatal>,
    ) -> bool {
        if root_context_id == 0 {
            self.creates_root(context_id, after, result)
        } else {
            self.creates_stream(context_id, root_context_id, after, result)
        }
    }

    /// Whether the arrival of the request headers at the stream context
    /// `context_id` may take this registry to `after` with `result`.
    ///
    /// An identifier without a live stream context breaks the contract.
    /// Otherwise the context's own callback decides, and what it answers is
    /// the result, word for word.
    pub open spec fn routes_request_headers(
        self,
        context_id: u32,
        num_headers: usize,
        after: Self,
        result: Result<Step, Fatal>,
    ) -> bool {
        if !self.http_streams.contains_key(context_id) {
            result == Err::<Step, Fatal>(Fatal::UnknownContextId) && after == self
        } else {
            &&& after.http_streams.contains_key(context_id)
            &&& call_ensures(
                <R::Stream as HttpContext>::on_http_request_headers,
                (self.http_streams[context_id], num_headers),
                (after.http_streams[context_id], result),
            )
            &&& after == self.with_stream(context_id, after.http_streams[context_id])
        }
    }

    /// Whether the arrival of a piece of the request body at the stream
    /// context `context_id` may take this registry to `after` with `result`.
    pub open spec fn routes_request_body(
        self,
        context_id: u32,
        body_size: usize,
        end_of_stream: bool,
        after: Self,
        result: Result<Step, Fatal>,
    ) -> bool {
        if !self.http_streams.contains_key(context_id) {
            result == Err::<Step, Fatal>(Fatal::UnknownContextId) && after == self
        } else {
            &&& after.http_streams.contains_key(context_id)
            &&& call_ensures(
                <R::Stream as HttpContext>::on_http_request_body,
                (self.http_streams[context_id], body_size, end_of_stream),
                (after.http_streams[context_id], result),
            )
            &&& after == self.with_stream(context_id, after.http_streams[context_id])
        }
    }

    /// Whether the host's reply to the call that the stream context
    /// `context_id` asked for may take this registry to `after` with
    /// `result`.
    pub open spec fn routes_host_reply(
        self,
        context_id: u32,
        reply: HostReply,
        after: Self,
        result: Result<Step, Fatal>,
    ) -> bool {
        if !self.http_streams.contains_key(context_id) {
            result == Err::<Step, Fatal>(Fatal::UnknownContextId) && after == self
        } else {
            &&& after.http_streams.contains_key(context_id)
            &&& call_ensures(
                <R::Stream as HttpContext>::on_host_reply,
                (self.http_streams[context_id], reply),
                (after.http_streams[context_id], result),
            )
            &&& after == self.with_stream(context_id, after.http_streams[context_id])
        }
    }

    /// Whether the start of the virtual machine, reported to the root
    /// context `context_id`, may take this registry to `after` with the
    /// answer `accepted`. Where no such root context lives the start is
    /// accepted.
    pub open spec fn routes_vm_start(
        self,
        context_id: u32,
        vm_configuration_size: usize,
        after: Self,
        accepted: bool,
    ) -> bool {
        if !self.roots.contains_key(context_id) {
            accepted && after == self
        } else {
            &&& after.roots.contains_key(context_id)
            &&& call_ensures(
                R::on_vm_start,
                (self.roots[context_id], vm_configuration_size),
                (after.roots[context_id], accepted),
            )
            &&& after == self.with_root(context_id, after.roots[context_id])
        }
    }
}

impl<R: RootContext, FR: Fn(u32) -> R, FS: Fn(u32, u32) -> R::Stream> View for Dispatcher<R, FR, FS> {
    type V = DispatcherView<R, FR, FS>;

    closed spec fn view(&self) -> DispatcherView<R, FR, FS> {
        DispatcherView {
            new_root: match self.new_root {
                Some(factory) => Some(factory.make),
                None => None,
            },
            roots: self.roots@,
            new_http_stream: match self.new_http_stream {
                Some(factory) => Some(factory.make),
                None => None,
            },
            http_streams: self.http_streams@,
        }
    }
}

impl<R: RootContext, FR: Fn(u32) -> R, FS: Fn(u32, u32) -> R::Stream> Dispatcher<R, FR, FS> {
    /// A registry without factories and without contexts.
    pub fn new() -> (dispatcher: Self)
        ensures
            dispatcher@.new_root is None,
            dispatcher@.new_http_stream is None,
            dispatcher@.roots == Map::<u32, R>::empty(),
            dispatcher@.http_streams == Map::<u32, R::Stream>::empty(),
    {
        Dispatcher {
            new_root: None,
            roots: HashMap::new(),
            new_http_stream: None,
            http_streams: HashMap::new(),
        }
    }

    /// The live root context `context_id`, if there is one.
    pub fn root_context(&self, context_id: u32) -> (root: Option<&R>)
        ensures
            match root {
                Some(found) => self@.roots.contains_key(context_id) && *found
                    == self@.roots[context_id],
                None => !self@.roots.contains_key(context_id),
            },
    {
        self.roots.get(&context_id)
    }

    /// The live stream context `context_id`, if there is one.
    pub fn http_context(&self, context_id: u32) -> (stream: Option<&R::Stream>)
        ensures
            match stream {
                Some(found) => self@.http_streams.contains_key(context_id) && *found
                    == self@.http_streams[context_id],
                None => !self@.http_streams.contains_key(context_id),
            },
    {
        self.http_streams.get(&context_id)
    }

    /// Registers the factory of root contexts, in place of any earlier one.
    pub fn set_root_context(&mut self, callback: FR)
        requires
            forall|context_id: u32| call_requires(callback, (context_id,)),
        ensures
            final(self)@.new_root == Some(callback),
            final(self)@.roots == old(self)@.roots,
            final(self)@.new_http_stream == old(self)@.new_http_stream,
            final(self)@.http_streams == old(self)@.http_streams,
    {
        self.new_root = Some(RootFactory { make: callback, made: PhantomData });
    }

    /// Registers the factory of stream contexts, in place of any earlier
    /// one. Once registered it takes precedence over what the root contexts
    /// would make themselves.
    pub fn set_http_context(&mut self, callback: FS)
        requires
            forall|context_id: u32, root_context_id: u32|
                call_requires(callback, (context_id, root_context_id)),
        ensures
            final(self)@.new_root == old(self)@.new_root,
            final(self)@.roots == old(self)@.roots,
            final(self)@.new_http_stream == Some(callback),
            final(self)@.http_streams == old(self)@.http_streams,
    {
        self.new_http_stream = Some(StreamFactory { make: callback, made: PhantomData });
    }

    /// Makes the root context `context_id` and registers it.
    pub fn create_root_context(&mut self, context_id: u32) -> (result: Result<(), Fatal>)
        ensures
            old(self)@.creates_root(context_id, final(self)@, result),
    {
        let made = match &self.new_root {
            Some(factory) => {
                proof {
                    use_type_invariant(factory);
                }
                (factory.make)(context_id)
            },
            None => {
                return Err(Fatal::MissingRootFactory);
            },
        };
        if self.roots.contains_key(&context_id) {
            return Err(Fatal::DuplicateContextId);
        }
        self.roots.insert(context_id, made);
        Ok(())
    }

    /// Makes the stream context `context_id` under the root context
    /// `root_context_id` and registers it.
    pub fn create_http_context(&mut self, context_id: u32, root_context_id: u32) -> (result: Result<
        (),
        Fatal,
    >)
        ensures
            old(self)@.creates_stream(context_id, root_context_id, final(self)@, result),
    {
        let made = match &self.new_http_stream {
            Some(factory) => {
                proof {
                    use_type_invariant(factory);
                }
                (factory.make)(context_id, root_context_id)
            },
            None => match self.roots.get(&root_context_id) {
                Some(root) => {
                    let kind = root.get_type();
                    match kind {
                        Some(ContextType::HttpContext) => {
                            assert(kind == Some(ContextType::HttpContext));
                            let made = root.create_http_context(context_id);

                            match made {
                                Some(stream) => stream,
                                None => {
                                    return Err(Fatal::FactoryReturnedNone);
                                },
                            }
                        },
                        None => {
                            return Err(Fatal::UnknownContextType);
                        },
                    }
                },
                None => {
                    return Err(Fatal::UnknownRootContext);
                },
            },
        };
        if self.http_streams.contains_key(&context_id) {
            return Err(Fatal::DuplicateContextId);
        }
        self.http_streams.insert(context_id, made);
        Ok(())
    }

    /// The host has created the context `context_id`: a root context where
    /// the parent is 0, a stream context under that parent otherwise.
    pub fn on_create_context(&mut self, context_id: u32, root_context_id: u32) -> (result: Result<
        (),
        Fatal,
    >)
        ensures
            old(self)@.creates(context_id, root_context_id, final(self)@, result),
    {
        if root_context_id == 0 {
            self.create_root_context(context_id)
        } else {
            self.create_http_context(context_id, root_context_id)
        }
    }

    /// The request headers of the exchange `context_id` have arrived.
    pub fn on_http_request_headers(&mut self, context_id: u32, num_headers: usize) -> (result: Result<
        Step,
        Fatal,
    >)
        ensures
            old(self)@.routes_request_headers(context_id, num_headers, final(self)@, result),
    {
        match self.http_streams.remove(&context_id) {
            Some(stream) => {
                let (stream, result) = stream.on_http_request_headers(num_headers);
                self.http_streams.insert(context_id, stream);
                assert(self@.http_streams =~= old(self)@.http_streams.insert(context_id, stream));
                result
            },
            None => {
                assert(self@.http_streams =~= old(self)@.http_streams);
                Err(Fatal::UnknownContextId)
            },
        }
    }

    /// A piece of the request body of the exchange `context_id` has arrived.
    pub fn on_http_request_body(
        &mut self,
        context_id: u32,
        body_size: usize,
        end_of_stream: bool,
    ) -> (result: Result<Step, Fatal>)
        ensures
            old(self)@.routes_request_body(
                context_id,
                body_size,
                end_of_stream,
                final(self)@,
                result,
            ),
    {
        match self.http_streams.remove(&context_id) {
            Some(stream) => {
                let (stream, result) = stream.on_http_request_body(body_size, end_of_stream);
                self.http_streams.insert(context_id, stream);
                assert(self@.http_streams =~= old(self)@.http_streams.insert(context_id, stream));
                result
            },
            None => {
                assert(self@.http_streams =~= old(self)@.http_streams);
                Err(Fatal::UnknownContextId)
            },
        }
    }

    /// The host has answered the call that the stream context `context_id`
    /// asked for last.
    pub fn on_host_reply(&mut self, context_id: u32, reply: HostReply) -> (result: Result<
        Step,
        Fatal,
    >)
        ensures
            old(self)@.routes_host_reply(context_id, reply, final(self)@, result),
    {
        match self.http_streams.remove(&context_id) {
            Some(stream) => {
                let (stream, result) = stream.on_host_reply(reply);
                self.http_streams.insert(context_id, stream);
                assert(self@.http_streams =~= old(self)@.http_streams.insert(context_id, stream));
                result
            },
            None => {
                assert(self@.http_streams =~= old(self)@.http_streams);
                Err(Fatal::UnknownContextId)
            },
        }
    }

    /// The module's virtual machine has started; `context_id` names the
    /// root context that is told.
    pub fn on_vm_start(&mut self, context_id: u32, vm_configuration_size: usize) -> (accepted: bool)
        ensures
            old(self)@.routes_vm_start(context_id, vm_configuration_size, final(self)@, accepted),
    {
        match self.roots.remove(&context_id) {
            Some(root) => {
                let (root, accepted) = root.on_vm_start(vm_configuration_size);
                self.roots.insert(context_id, root);
                assert(self@.roots =~= old(self)@.roots.insert(context_id, root));
                accepted
            },
            None => {
                assert(self@.roots =~= old(self)@.roots);
                true
            },
        }
    }

    /// The host has torn down the context `context_id`: its entry leaves
    /// the registry, the stream context of that name or else the root
    /// context. An identifier that names neither is left alone.
    pub fn on_delete(&mut self, context_id: u32)
        ensures
            final(self)@ == old(self)@.without(context_id),
    {
        if self.http_streams.remove(&context_id).is_none() {
            assert(self@.http_streams =~= old(self)@.http_streams);
            self.roots.remove(&context_id);
        }
    }
}

/// Registers the factory of root contexts with a dispatcher, in place of any
/// earlier one. A module does this once, when it starts.
pub fn set_root_context<R: RootContext, FR: Fn(u32) -> R, FS: Fn(u32, u32) -> R::Stream>(
    dispatcher: &mut Dispatcher<R, FR, FS>,
    callback: FR,
)
    requires
        forall|context_id: u32| call_requires(callback, (context_id,)),
    ensures
        final(dispatcher)@.new_root == Some(callback),
        final(dispatcher)@.roots == old(dispatcher)@.roots,
        final(dispatcher)@.new_http_stream == old(dispatcher)@.new_http_stream,
        final(dispatcher)@.http_streams == old(dispatcher)@.http_streams,
{
    dispatcher.set_root_context(callback)
}

/// Registers the factory of stream contexts with a dispatcher, in place of
/// any earlier one.
pub fn set_http_context<R: RootContext, FR: Fn(u32) -> R, FS: Fn(u32, u32) -> R::Stream>(
    dispatcher: &mut Dispatcher<R, FR, FS>,
    callback: FS,
)
    requires
        forall|context_id: u32, root_context_id: u32|
            call_requires(callback, (context_id, root_context_id)),
    ensures
        final(dispatcher)@.new_root == old(dispatcher)@.new_root,
        final(dispatcher)@.roots == old(dispatcher)@.roots,
        final(dispatcher)@.new_http_stream == Some(callback),
        final(dispatcher)@.http_streams == old(dispatcher)@.http_streams,
{
    dispatcher.set_http_context(callback)
}

} // verus!
