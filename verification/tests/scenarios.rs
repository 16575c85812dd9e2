use std::collections::HashMap;

use proxy_wasm::buffer::BackingBuffer;
use proxy_wasm::client::{inventory_sentence, ClientHttpContext};
use proxy_wasm::dispatcher::Dispatcher;
use proxy_wasm::error::Fatal;
use proxy_wasm::hostcalls::{HostCall, HostReply};
use proxy_wasm::server::ServerHttpContext;
use proxy_wasm::traits::{DefaultRootContext, HttpContext, RootContext, Step};
use proxy_wasm::types::{Action, BufferType, ContextType, LogLevel, Status};

/// A host in memory: two buffers, a store, one service, and a record of what it was asked.
struct Host {
    request_body: BackingBuffer,
    response_body: BackingBuffer,
    store: HashMap<(Vec<u8>, Vec<u8>), Vec<u8>>,
    store_status: Status,
    service_status: Status,
    service_answer: Option<Vec<u8>>,
    log_status: Status,
    calls: Vec<HostCall>,
}

impl Host {
    fn with_body(body: &[u8]) -> Host {
        Host {
            request_body: BackingBuffer::new(BufferType::HttpRequestBody, body.to_vec()),
            response_body: BackingBuffer::new(BufferType::HttpResponseBody, b"untouched".to_vec()),
            store: HashMap::new(),
            store_status: Status::Success,
            service_status: Status::Success,
            service_answer: None,
            log_status: Status::Success,
            calls: Vec::new(),
        }
    }

    fn perform(&mut self, call: &HostCall) -> HostReply {
        self.calls.push(call.clone());
        match call {
            HostCall::Log { .. } => HostReply { status: self.log_status.code(), data: None },
            HostCall::GetBufferBytes { buffer_type: BufferType::HttpRequestBody, .. } => {
                self.request_body.serve(call)
            }
            HostCall::GetBufferBytes { .. } | HostCall::SetBufferBytes { .. } => {
                self.response_body.serve(call)
            }
            HostCall::GetState { store_name, key } => {
                if self.store_status != Status::Success {
                    return HostReply { status: self.store_status.code(), data: None };
                }
                match self.store.get(&(store_name.clone(), key.clone())) {
                    Some(value) => HostReply { status: 0, data: Some(value.clone()) },
                    None => HostReply { status: Status::NotFound.code(), data: None },
                }
            }
            HostCall::InvokeService { .. } => {
                HostReply { status: self.service_status.code(), data: self.service_answer.clone() }
            }
            _ => HostReply { status: Status::BadArgument.code(), data: None },
        }
    }

    fn logged(&self) -> Vec<(LogLevel, String)> {
        self.calls
            .iter()
            .filter_map(|call| match call {
                HostCall::Log { level, message } => {
                    Some((*level, String::from_utf8(message.clone()).unwrap()))
                }
                _ => None,
            })
            .collect()
    }

    fn wrote(&self) -> bool {
        self.calls.iter().any(|call| matches!(call, HostCall::SetBufferBytes { .. }))
    }
}

type ClientDispatcher = Dispatcher<
    DefaultRootContext<ClientHttpContext>,
    fn(u32) -> DefaultRootContext<ClientHttpContext>,
    fn(u32, u32) -> ClientHttpContext,
>;

type ServerDispatcher = Dispatcher<
    DefaultRootContext<ServerHttpContext>,
    fn(u32) -> DefaultRootContext<ServerHttpContext>,
    fn(u32, u32) -> ServerHttpContext,
>;

fn client_module() -> ClientDispatcher {
    let mut dispatcher = ClientDispatcher::new();
    dispatcher.set_root_context(|_| DefaultRootContext::default());
    dispatcher
}

fn server_module() -> ServerDispatcher {
    let mut dispatcher = ServerDispatcher::new();
    dispatcher.set_root_context(|_| DefaultRootContext::default());
    dispatcher
}

/// Plays the host's side of one request body callback to its verdict.
fn request_body<R, FR, FS>(
    dispatcher: &mut Dispatcher<R, FR, FS>,
    host: &mut Host,
    context_id: u32,
    body_size: usize,
) -> Result<Action, Fatal>
where
    R: RootContext,
    FR: Fn(u32) -> R,
    FS: Fn(u32, u32) -> R::Stream,
{
    let mut step = dispatcher.on_http_request_body(context_id, body_size, true)?;
    for _ in 0..16 {
        match step {
            Step::Done(action) => return Ok(action),
            Step::Call(call) => {
                let reply = host.perform(&call);
                step = dispatcher.on_host_reply(context_id, reply)?;
            }
        }
    }
    panic!("the callback does not come to an end");
}

#[test]
fn client_answers_with_the_inventory_of_the_named_book() {
    let mut dispatcher = client_module();
    assert_eq!(dispatcher.on_create_context(1, 0), Ok(()));
    assert_eq!(dispatcher.root_context(1).map(|root| root.get_type()), Some(Some(ContextType::HttpContext)));
    assert_eq!(dispatcher.on_create_context(2, 1), Ok(()));
    assert_eq!(dispatcher.http_context(2), Some(&ClientHttpContext::default()));

    let mut host = Host::with_body(b"k=v1&name=Foo");
    host.service_answer = Some(b"3".to_vec());
    assert_eq!(request_body(&mut dispatcher, &mut host, 2, 13), Ok(Action::Continue));

    assert_eq!(host.response_body.contents(), b"There are 3 inventories for Foo.\n");
    assert_eq!(
        host.calls,
        vec![
            HostCall::GetBufferBytes { buffer_type: BufferType::HttpRequestBody, start: 0, max_size: 13 },
            HostCall::InvokeService { id: b"id_2".to_vec(), method: Vec::new(), param: b"Foo".to_vec() },
            HostCall::SetBufferBytes {
                buffer_type: BufferType::HttpResponseBody,
                start: 0,
                size: 33,
                data: b"There are 3 inventories for Foo.\n".to_vec(),
            },
        ]
    );
    assert_eq!(dispatcher.http_context(2), Some(&ClientHttpContext::default()));
}

#[test]
fn client_holds_an_exchange_without_a_name() {
    let mut dispatcher = client_module();
    assert_eq!(dispatcher.on_create_context(1, 0), Ok(()));
    assert_eq!(dispatcher.on_create_context(2, 1), Ok(()));

    let mut host = Host::with_body(b"title=Foo&k=v");
    host.service_answer = Some(b"3".to_vec());
    assert_eq!(request_body(&mut dispatcher, &mut host, 2, 13), Ok(Action::Pause));

    assert_eq!(host.logged(), vec![(LogLevel::Error, "Param 'name' not found".to_string())]);
    assert!(!host.wrote());
    assert_eq!(host.response_body.contents(), b"untouched");
    assert_eq!(host.calls.len(), 2);
}

#[test]
fn client_holds_an_exchange_whose_body_cannot_be_read() {
    let mut dispatcher = client_module();
    assert_eq!(dispatcher.on_create_context(1, 0), Ok(()));
    assert_eq!(dispatcher.on_create_context(2, 1), Ok(()));

    let mut host = Host::with_body(&[b'n', b'a', b'm', b'e', b'=', 0xff]);
    assert_eq!(request_body(&mut dispatcher, &mut host, 2, 6), Ok(Action::Pause));
    assert_eq!(host.logged(), vec![(LogLevel::Error, "Param 'name' not found".to_string())]);
    assert!(!host.wrote());

    let context = ClientHttpContext::default();
    let (context, step) = context.on_http_request_body(4, true);
    assert!(matches!(step, Ok(Step::Call(HostCall::GetBufferBytes { .. }))));
    let (_, step) = context.on_host_reply(HostReply { status: Status::InternalFailure.code(), data: None });
    assert_eq!(
        step,
        Ok(Step::Call(HostCall::Log { level: LogLevel::Error, message: b"Param 'name' not found".to_vec() }))
    );
}

#[test]
fn client_holds_an_exchange_when_the_service_fails() {
    let mut dispatcher = client_module();
    assert_eq!(dispatcher.on_create_context(1, 0), Ok(()));
    assert_eq!(dispatcher.on_create_context(2, 1), Ok(()));

    let mut host = Host::with_body(b"name=Foo");
    host.service_status = Status::InternalFailure;
    assert_eq!(request_body(&mut dispatcher, &mut host, 2, 8), Ok(Action::Pause));

    assert_eq!(host.logged(), vec![(LogLevel::Error, "Invoke service failed: 10".to_string())]);
    assert!(!host.wrote());
    assert_eq!(host.response_body.contents(), b"untouched");
    assert_eq!(
        proxy_wasm::hostcalls::parse_proxy_status(HostReply {
            status: Status::InternalFailure.code(),
            data: None
        }),
        Err(Fatal::UnexpectedHostStatus { code: Status::InternalFailure.code() })
    );
}

#[test]
fn client_takes_an_absent_answer_for_an_empty_count() {
    let mut dispatcher = client_module();
    assert_eq!(dispatcher.on_create_context(1, 0), Ok(()));
    assert_eq!(dispatcher.on_create_context(2, 1), Ok(()));

    let mut host = Host::with_body(b"name=Foo");
    host.service_status = Status::NotFound;
    assert_eq!(request_body(&mut dispatcher, &mut host, 2, 8), Ok(Action::Continue));
    assert_eq!(host.response_body.contents(), b"There are  inventories for Foo.\n");

    let mut host = Host::with_body(b"name=Bar");
    host.service_answer = Some(vec![0xff]);
    assert_eq!(request_body(&mut dispatcher, &mut host, 2, 8), Ok(Action::Continue));
    assert_eq!(host.response_body.contents(), b"There are  inventories for Bar.\n");
}

#[test]
fn client_aborts_when_the_host_refuses_the_response_or_the_log() {
    let context = ClientHttpContext::default();
    let (context, _) = context.on_http_request_body(8, true);
    let (context, _) = context.on_host_reply(HostReply { status: 0, data: Some(b"name=Foo".to_vec()) });
    let (context, step) = context.on_host_reply(HostReply { status: 0, data: Some(b"12".to_vec()) });
    assert_eq!(
        step,
        Ok(Step::Call(HostCall::SetBufferBytes {
            buffer_type: BufferType::HttpResponseBody,
            start: 0,
            size: 34,
            data: b"There are 12 inventories for Foo.\n".to_vec(),
        }))
    );
    let (context, step) = context.on_host_reply(HostReply { status: Status::BadArgument.code(), data: None });
    assert_eq!(step, Err(Fatal::UnexpectedHostStatus { code: 2 }));
    assert_eq!(context, ClientHttpContext::default());

    let mut dispatcher = client_module();
    assert_eq!(dispatcher.on_create_context(1, 0), Ok(()));
    assert_eq!(dispatcher.on_create_context(2, 1), Ok(()));
    let mut host = Host::with_body(b"nothing");
    host.log_status = Status::InternalFailure;
    assert_eq!(
        request_body(&mut dispatcher, &mut host, 2, 7),
        Err(Fatal::UnexpectedHostStatus { code: 10 })
    );
}

#[test]
fn client_ignores_a_reply_that_it_did_not_ask_for() {
    let context = ClientHttpContext::default();
    let (context, step) = context.on_host_reply(HostReply { status: 10, data: None });
    assert_eq!(step, Ok(Step::Done(Action::Continue)));
    assert_eq!(context, ClientHttpContext::default());
    let (context, step) = context.on_http_request_headers(3);
    assert_eq!(step, Ok(Step::Done(Action::Continue)));
    assert_eq!(context, ClientHttpContext::default());
}

#[test]
fn inventory_sentence_quotes_count_and_name() {
    assert_eq!(inventory_sentence(Some(b"3".to_vec()), "Foo"), "There are 3 inventories for Foo.\n");
    assert_eq!(inventory_sentence(None, "Foo"), "There are  inventories for Foo.\n");
    assert_eq!(inventory_sentence(Some(vec![0xc0]), ""), "There are  inventories for .\n");
    assert_eq!(
        inventory_sentence(Some("\u{4e09}".as_bytes().to_vec()), "\u{66f8}"),
        "There are \u{4e09} inventories for \u{66f8}.\n"
    );
}

#[test]
fn client_and_server_tell_the_host_their_names() {
    assert_eq!(
        proxy_wasm::client::proxy_get_id(),
        HostCall::SetBufferBytes {
            buffer_type: BufferType::BufferTypeCallData,
            start: 0,
            size: 4,
            data: b"id_1".to_vec(),
        }
    );
    assert_eq!(
        proxy_wasm::server::proxy_get_id(),
        HostCall::SetBufferBytes {
            buffer_type: BufferType::BufferTypeCallData,
            start: 0,
            size: 4,
            data: b"id_2".to_vec(),
        }
    );
}

#[test]
fn server_answers_with_the_stored_inventory() {
    let mut dispatcher = server_module();
    assert_eq!(dispatcher.on_create_context(1, 0), Ok(()));
    assert_eq!(dispatcher.on_create_context(2, 1), Ok(()));

    let mut host = Host::with_body(b"Foo");
    host.response_body = BackingBuffer::new(BufferType::HttpResponseBody, Vec::new());
    host.store.insert((b"state_demo".to_vec(), b"Foo".to_vec()), b"3".to_vec());
    assert_eq!(request_body(&mut dispatcher, &mut host, 2, 3), Ok(Action::Continue));
    assert_eq!(host.response_body.contents(), b"3");
    assert_eq!(
        host.calls,
        vec![
            HostCall::GetBufferBytes { buffer_type: BufferType::HttpRequestBody, start: 0, max_size: 3 },
            HostCall::GetState { store_name: b"state_demo".to_vec(), key: b"Foo".to_vec() },
            HostCall::SetBufferBytes {
                buffer_type: BufferType::HttpResponseBody,
                start: 0,
                size: 1,
                data: b"3".to_vec(),
            },
        ]
    );
}

#[test]
fn server_takes_a_missing_key_for_an_empty_inventory() {
    let mut dispatcher = server_module();
    assert_eq!(dispatcher.on_create_context(1, 0), Ok(()));
    assert_eq!(dispatcher.on_create_context(2, 1), Ok(()));

    let mut host = Host::with_body(b"Bar");
    host.response_body = BackingBuffer::new(BufferType::HttpResponseBody, Vec::new());
    host.store.insert((b"state_demo".to_vec(), b"Foo".to_vec()), b"3".to_vec());
    assert_eq!(request_body(&mut dispatcher, &mut host, 2, 3), Ok(Action::Continue));
    assert_eq!(host.response_body.contents(), b"");
    assert!(host.logged().is_empty());
    assert_eq!(
        host.calls.last(),
        Some(&HostCall::SetBufferBytes {
            buffer_type: BufferType::HttpResponseBody,
            start: 0,
            size: 0,
            data: Vec::new(),
        })
    );
}

#[test]
fn server_holds_an_exchange_when_the_store_fails() {
    let mut dispatcher = server_module();
    assert_eq!(dispatcher.on_create_context(1, 0), Ok(()));
    assert_eq!(dispatcher.on_create_context(2, 1), Ok(()));

    let mut host = Host::with_body(b"Foo");
    host.store_status = Status::CasMismatch;
    assert_eq!(request_body(&mut dispatcher, &mut host, 2, 3), Ok(Action::Pause));
    assert_eq!(host.logged(), vec![(LogLevel::Error, "Get State failed: 8".to_string())]);
    assert!(!host.wrote());
    assert_eq!(host.response_body.contents(), b"untouched");
}

#[test]
fn server_holds_an_exchange_whose_body_is_no_text() {
    let mut dispatcher = server_module();
    assert_eq!(dispatcher.on_create_context(1, 0), Ok(()));
    assert_eq!(dispatcher.on_create_context(2, 1), Ok(()));

    let mut host = Host::with_body(&[0xff, 0xfe]);
    assert_eq!(request_body(&mut dispatcher, &mut host, 2, 2), Ok(Action::Pause));
    assert_eq!(host.logged(), vec![(LogLevel::Error, "Param 'name' not found".to_string())]);
    assert!(!host.wrote());

    let context = ServerHttpContext::default();
    let (context, _) = context.on_http_request_body(2, true);
    let (context, step) = context.on_host_reply(HostReply { status: 0, data: None });
    assert_eq!(
        step,
        Ok(Step::Call(HostCall::Log { level: LogLevel::Error, message: b"Param 'name' not found".to_vec() }))
    );
    let (context, step) = context.on_host_reply(HostReply { status: 0, data: None });
    assert_eq!(step, Ok(Step::Done(Action::Pause)));
    assert_eq!(context, ServerHttpContext::default());
}

#[test]
fn server_reads_only_as_much_of_the_body_as_it_is_told() {
    let mut dispatcher = server_module();
    assert_eq!(dispatcher.on_create_context(1, 0), Ok(()));
    assert_eq!(dispatcher.on_create_context(2, 1), Ok(()));

    let mut host = Host::with_body(b"FooBar");
    host.response_body = BackingBuffer::new(BufferType::HttpResponseBody, Vec::new());
    host.store.insert((b"state_demo".to_vec(), b"Foo".to_vec()), b"3".to_vec());
    host.store.insert((b"state_demo".to_vec(), b"FooBar".to_vec()), b"5".to_vec());
    assert_eq!(request_body(&mut dispatcher, &mut host, 2, 3), Ok(Action::Continue));
    assert_eq!(host.response_body.contents(), b"3");
    assert_eq!(request_body(&mut dispatcher, &mut host, 2, 100), Ok(Action::Continue));
    assert_eq!(host.response_body.contents(), b"5");
}
