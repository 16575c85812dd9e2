use proxy_wasm::dispatcher::Dispatcher;
use proxy_wasm::error::Fatal;
use proxy_wasm::hello::{HelloPhase, HttpRoot, MyHttpContext};
use proxy_wasm::hostcalls::{HostCall, HostReply};
use proxy_wasm::message::{ResponseField, SayHelloRequest, SayHelloResponse};
use proxy_wasm::traits::{HttpContext, RootContext, Step};
use proxy_wasm::types::{Action, BufferType, ContextType, LogLevel, MapType, Status};

fn request(service_name: &str, name: &str) -> SayHelloRequest {
    SayHelloRequest { service_name: service_name.to_string(), name: name.to_string() }
}

#[test]
fn request_is_written_field_by_field() {
    let mut expected = vec![0x0a, 10];
    expected.extend_from_slice(b"helloworld");
    expected.extend_from_slice(&[0x12, 3]);
    expected.extend_from_slice(b"Foo");
    assert_eq!(request("helloworld", "Foo").write_to_bytes(), Ok(expected));
}

#[test]
fn empty_fields_are_not_written() {
    assert_eq!(SayHelloRequest::new().write_to_bytes(), Ok(Vec::new()));
    assert_eq!(request("", "Foo").write_to_bytes(), Ok(vec![0x12, 3, b'F', b'o', b'o']));
    assert_eq!(request("s", "").write_to_bytes(), Ok(vec![0x0a, 1, b's']));
}

#[test]
fn long_fields_carry_their_length_as_a_varint() {
    let name = "x".repeat(300);
    let written = request("", &name).write_to_bytes().unwrap();
    assert_eq!(&written[..3], &[0x12, 0xac, 0x02]);
    assert_eq!(&written[3..], name.as_bytes());
    let name = "\u{e9}".repeat(64);
    let written = request("", &name).write_to_bytes().unwrap();
    assert_eq!(&written[..3], &[0x12, 0x80, 0x01]);
    assert_eq!(&written[3..], name.as_bytes());
    let name = "y".repeat(127);
    let written = request("", &name).write_to_bytes().unwrap();
    assert_eq!(&written[..2], &[0x12, 0x7f]);
    assert_eq!(written.len(), 129);
}

#[test]
fn response_is_read_off_the_wire() {
    assert_eq!(
        SayHelloResponse::parse_from_bytes(&[0x0a, 5, b'h', b'e', b'l', b'l', b'o']),
        Ok(SayHelloResponse { hello: "hello".to_string() })
    );
    assert_eq!(SayHelloResponse::parse_from_bytes(&[]), Ok(SayHelloResponse { hello: String::new() }));
    assert_eq!(
        SayHelloResponse::parse_from_bytes(&[0x0a, 0]),
        Ok(SayHelloResponse { hello: String::new() })
    );
    assert_eq!(SayHelloResponse { hello: "hi".to_string() }.get_hello(), "hi");
}

#[test]
fn the_last_greeting_of_a_response_wins() {
    assert_eq!(
        SayHelloResponse::parse_from_bytes(&[0x0a, 1, b'a', 0x0a, 2, b'b', b'c']),
        Ok(SayHelloResponse { hello: "bc".to_string() })
    );
}

#[test]
fn unknown_fields_of_a_response_are_passed_over() {
    // field 2 as a varint, field 3 as eight fixed bytes, field 4 as bytes, field 5 as four fixed bytes
    let mut bytes = vec![0x10, 0x96, 0x01];
    bytes.extend_from_slice(&[0x19, 1, 2, 3, 4, 5, 6, 7, 8]);
    bytes.extend_from_slice(&[0x0a, 2, b'h', b'i']);
    bytes.extend_from_slice(&[0x22, 3, 0xff, 0xfe, 0xfd]);
    bytes.extend_from_slice(&[0x2d, 1, 2, 3, 4]);
    assert_eq!(
        SayHelloResponse::parse_from_bytes(&bytes),
        Ok(SayHelloResponse { hello: "hi".to_string() })
    );
    // a group under field 6, holding a varint, is passed over whole
    assert_eq!(
        SayHelloResponse::parse_from_bytes(&[0x33, 0x08, 0x01, 0x34, 0x0a, 1, b'g']),
        Ok(SayHelloResponse { hello: "g".to_string() })
    );
}

#[test]
fn what_is_no_message_is_malformed() {
    for bytes in [
        &[0x0a][..],
        &[0x0a, 5, b'h', b'i'][..],
        &[0x0a, 2, 0xff, 0xfe][..],
        &[0x08, 1][..],
        &[0x00, 1][..],
        &[0x0f][..],
        &[0x10][..],
        &[0x10, 0x80][..],
        &[0x34][..],
        &[0x80, 0x80, 0x80, 0x80, 0x80, 0x80, 0x80, 0x80, 0x80, 0x80, 0x01][..],
    ] {
        assert_eq!(SayHelloResponse::parse_from_bytes(bytes), Err(Fatal::MalformedMessage));
    }
    assert_eq!(Fatal::MalformedMessage.message(), "malformed message");
    assert_eq!(Fatal::InvalidUtf8.message(), "invalid UTF-8 in host data");
}

#[test]
fn field_numbers_of_a_response() {
    assert_eq!(ResponseField::of(1), ResponseField::Hello);
    assert_eq!(ResponseField::of(0), ResponseField::Unknown);
    assert_eq!(ResponseField::of(2), ResponseField::Unknown);
    assert_eq!(ResponseField::of(u32::MAX), ResponseField::Unknown);
}

#[test]
fn what_is_written_can_be_read_back() {
    // a response has the greeting where a request has the service name
    let written = request("hall\u{f6}chen", "").write_to_bytes().unwrap();
    assert_eq!(
        SayHelloResponse::parse_from_bytes(&written),
        Ok(SayHelloResponse { hello: "hall\u{f6}chen".to_string() })
    );
    let written = request("first", "second").write_to_bytes().unwrap();
    assert_eq!(
        SayHelloResponse::parse_from_bytes(&written),
        Ok(SayHelloResponse { hello: "first".to_string() })
    );
}

type GreetingDispatcher = Dispatcher<HttpRoot, fn(u32) -> HttpRoot, fn(u32, u32) -> MyHttpContext>;

fn greeting_module() -> GreetingDispatcher {
    let mut dispatcher = GreetingDispatcher::new();
    dispatcher.set_root_context(|_| HttpRoot);
    dispatcher
}

fn hello_request_bytes(name: &[u8]) -> Vec<u8> {
    let mut bytes = vec![0x0a, 10];
    bytes.extend_from_slice(b"helloworld");
    if !name.is_empty() {
        bytes.push(0x12);
        bytes.push(name.len() as u8);
        bytes.extend_from_slice(name);
    }
    bytes
}

#[test]
fn the_root_makes_a_context_of_its_identifier() {
    assert_eq!(HttpRoot.get_type(), Some(ContextType::HttpContext));
    assert_eq!(
        HttpRoot.create_http_context(7),
        Some(MyHttpContext { context_id: 7, phase: HelloPhase::Idle })
    );
    let mut dispatcher = greeting_module();
    assert_eq!(dispatcher.on_create_context(1, 0), Ok(()));
    assert_eq!(dispatcher.on_create_context(9, 1), Ok(()));
    assert_eq!(dispatcher.http_context(9), Some(&MyHttpContext { context_id: 9, phase: HelloPhase::Idle }));
}

#[test]
fn the_caller_is_greeted_by_name() {
    let mut dispatcher = greeting_module();
    assert_eq!(dispatcher.on_create_context(1, 0), Ok(()));
    assert_eq!(dispatcher.on_create_context(2, 1), Ok(()));

    assert_eq!(
        dispatcher.on_http_request_headers(2, 3),
        Ok(Step::Call(HostCall::Log {
            level: LogLevel::Info,
            message: b"rust wasm receive a http request".to_vec(),
        }))
    );
    assert_eq!(
        dispatcher.on_host_reply(2, HostReply { status: 0, data: None }),
        Ok(Step::Call(HostCall::GetHeaderMapValue {
            map_type: MapType::HttpRequestHeaders,
            key: b"name".to_vec(),
        }))
    );
    assert_eq!(
        dispatcher.on_host_reply(2, HostReply { status: 0, data: Some(b"Foo".to_vec()) }),
        Ok(Step::Call(HostCall::CallForeignFunction {
            function_name: b"SayHello".to_vec(),
            arguments: Some(hello_request_bytes(b"Foo")),
        }))
    );
    assert_eq!(dispatcher.http_context(2), Some(&MyHttpContext { context_id: 2, phase: HelloPhase::Greeting }));
    let mut answer = vec![0x0a, 10];
    answer.extend_from_slice(b"Hello, Foo");
    assert_eq!(
        dispatcher.on_host_reply(2, HostReply { status: 0, data: Some(answer) }),
        Ok(Step::Call(HostCall::SetBufferBytes {
            buffer_type: BufferType::HttpResponseBody,
            start: 0,
            size: 10,
            data: b"Hello, Foo".to_vec(),
        }))
    );
    assert_eq!(
        dispatcher.on_host_reply(2, HostReply { status: 0, data: None }),
        Ok(Step::Done(Action::Continue))
    );
    assert_eq!(dispatcher.http_context(2), Some(&MyHttpContext { context_id: 2, phase: HelloPhase::Idle }));
}

#[test]
fn a_request_without_the_header_greets_nobody() {
    for reply in [
        HostReply { status: Status::NotFound.code(), data: None },
        HostReply { status: 0, data: None },
        HostReply { status: 0, data: Some(Vec::new()) },
    ] {
        let context = MyHttpContext { context_id: 4, phase: HelloPhase::ReadingName };
        let (context, step) = context.on_host_reply(reply);
        assert_eq!(context, MyHttpContext { context_id: 4, phase: HelloPhase::Greeting });
        assert_eq!(
            step,
            Ok(Step::Call(HostCall::CallForeignFunction {
                function_name: b"SayHello".to_vec(),
                arguments: Some(hello_request_bytes(b"")),
            }))
        );
    }
}

#[test]
fn an_absent_answer_is_an_empty_greeting() {
    for reply in [
        HostReply { status: Status::NotFound.code(), data: None },
        HostReply { status: 0, data: None },
        HostReply { status: 0, data: Some(Vec::new()) },
    ] {
        let context = MyHttpContext { context_id: 4, phase: HelloPhase::Greeting };
        let (context, step) = context.on_host_reply(reply);
        assert_eq!(context, MyHttpContext { context_id: 4, phase: HelloPhase::WritingResponse });
        assert_eq!(
            step,
            Ok(Step::Call(HostCall::SetBufferBytes {
                buffer_type: BufferType::HttpResponseBody,
                start: 0,
                size: 0,
                data: Vec::new(),
            }))
        );
    }
}

#[test]
fn every_failure_of_the_greeting_is_fatal() {
    let idle = MyHttpContext { context_id: 4, phase: HelloPhase::Idle };
    for phase in [HelloPhase::Logging, HelloPhase::ReadingName, HelloPhase::Greeting, HelloPhase::WritingResponse] {
        let context = MyHttpContext { context_id: 4, phase };
        let (context, step) = context.on_host_reply(HostReply { status: 10, data: None });
        assert_eq!(step, Err(Fatal::UnexpectedHostStatus { code: 10 }));
        assert_eq!(context, idle);
    }
    let (_, step) = MyHttpContext { context_id: 4, phase: HelloPhase::Logging }
        .on_host_reply(HostReply { status: Status::NotFound.code(), data: None });
    assert_eq!(step, Err(Fatal::UnexpectedHostStatus { code: 1 }));
    let (_, step) = MyHttpContext { context_id: 4, phase: HelloPhase::ReadingName }
        .on_host_reply(HostReply { status: 0, data: Some(vec![0xff]) });
    assert_eq!(step, Err(Fatal::InvalidUtf8));
    let (context, step) = MyHttpContext { context_id: 4, phase: HelloPhase::Greeting }
        .on_host_reply(HostReply { status: 0, data: Some(vec![0x0a, 9, b'x']) });
    assert_eq!(step, Err(Fatal::MalformedMessage));
    assert_eq!(context, idle);
    let (context, step) = idle.on_host_reply(HostReply { status: 10, data: None });
    assert_eq!(step, Ok(Step::Done(Action::Continue)));
    assert_eq!(context, idle);
    let (context, step) = idle.on_http_request_body(10, true);
    assert_eq!(step, Ok(Step::Done(Action::Continue)));
    assert_eq!(context, idle);
}

#[test]
fn greet_and_respond_take_what_the_host_sent() {
    let context = MyHttpContext { context_id: 1, phase: HelloPhase::ReadingName };
    let (next, step) = context.greet(Some("B\u{e4}r".to_string()));
    assert_eq!(next.phase, HelloPhase::Greeting);
    assert_eq!(
        step,
        Ok(Step::Call(HostCall::CallForeignFunction {
            function_name: b"SayHello".to_vec(),
            arguments: Some(hello_request_bytes("B\u{e4}r".as_bytes())),
        }))
    );
    let (next, step) = context.respond(vec![0x0a, 2, b'o', b'k', 0x10, 0x01]);
    assert_eq!(next, MyHttpContext { context_id: 1, phase: HelloPhase::WritingResponse });
    assert_eq!(
        step,
        Ok(Step::Call(HostCall::SetBufferBytes {
            buffer_type: BufferType::HttpResponseBody,
            start: 0,
            size: 2,
            data: b"ok".to_vec(),
        }))
    );
}
