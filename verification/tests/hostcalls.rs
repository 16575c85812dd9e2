use proxy_wasm::buffer::BackingBuffer;
use proxy_wasm::error::Fatal;
use proxy_wasm::hostcalls::{
    call_foreign_function, get_buffer, get_map_value, get_state, invoke_service, log,
    parse_proxy_done, parse_proxy_status, parse_proxy_text, set_buffer, HostCall, HostReply,
};
use proxy_wasm::types::{BufferType, LogLevel, MapType, Status};

fn reply(status: Status, data: Option<&[u8]>) -> HostReply {
    HostReply { status: status.code(), data: data.map(|bytes| bytes.to_vec()) }
}

#[test]
fn log_request_carries_level_and_message_bytes() {
    assert_eq!(
        log(LogLevel::Warn, "slow upstream"),
        HostCall::Log { level: LogLevel::Warn, message: b"slow upstream".to_vec() }
    );
    assert_eq!(
        log(LogLevel::Info, "gr\u{fc}n"),
        HostCall::Log { level: LogLevel::Info, message: vec![b'g', b'r', 0xc3, 0xbc, b'n'] }
    );
}

#[test]
fn set_buffer_request_uses_the_payload_length_for_the_region() {
    assert_eq!(
        set_buffer(BufferType::HttpResponseBody, 0, b"hello"),
        HostCall::SetBufferBytes {
            buffer_type: BufferType::HttpResponseBody,
            start: 0,
            size: 5,
            data: b"hello".to_vec(),
        }
    );
    assert_eq!(
        set_buffer(BufferType::BufferTypeCallData, 7, b""),
        HostCall::SetBufferBytes {
            buffer_type: BufferType::BufferTypeCallData,
            start: 7,
            size: 0,
            data: Vec::new(),
        }
    );
}

#[test]
fn get_buffer_request_carries_offset_and_limit() {
    assert_eq!(
        get_buffer(BufferType::HttpRequestBody, 3, 64),
        HostCall::GetBufferBytes { buffer_type: BufferType::HttpRequestBody, start: 3, max_size: 64 }
    );
}

#[test]
fn lookups_carry_their_names_as_bytes() {
    assert_eq!(
        get_state("state_demo", "Foo"),
        HostCall::GetState { store_name: b"state_demo".to_vec(), key: b"Foo".to_vec() }
    );
    assert_eq!(
        get_map_value(MapType::HttpRequestHeaders, "name"),
        HostCall::GetHeaderMapValue { map_type: MapType::HttpRequestHeaders, key: b"name".to_vec() }
    );
    assert_eq!(
        invoke_service("id_2", "", "Foo"),
        HostCall::InvokeService { id: b"id_2".to_vec(), method: Vec::new(), param: b"Foo".to_vec() }
    );
}

#[test]
fn foreign_function_without_arguments_is_not_one_with_empty_arguments() {
    assert_eq!(
        call_foreign_function("SayHello", None),
        HostCall::CallForeignFunction { function_name: b"SayHello".to_vec(), arguments: None }
    );
    assert_eq!(
        call_foreign_function("SayHello", Some(&[])),
        HostCall::CallForeignFunction {
            function_name: b"SayHello".to_vec(),
            arguments: Some(Vec::new()),
        }
    );
    assert_eq!(
        call_foreign_function("SayHello", Some(&[1, 2, 3])),
        HostCall::CallForeignFunction {
            function_name: b"SayHello".to_vec(),
            arguments: Some(vec![1, 2, 3]),
        }
    );
}

#[test]
fn success_with_a_buffer_hands_the_buffer_over() {
    assert_eq!(parse_proxy_status(reply(Status::Success, Some(b"3"))), Ok(Some(b"3".to_vec())));
    assert_eq!(parse_proxy_status(reply(Status::Success, Some(b""))), Ok(Some(Vec::new())));
}

#[test]
fn success_with_a_null_pointer_is_no_value() {
    assert_eq!(parse_proxy_status(reply(Status::Success, None)), Ok(None));
}

#[test]
fn not_found_is_no_value_and_never_an_empty_buffer() {
    assert_eq!(parse_proxy_status(reply(Status::NotFound, None)), Ok(None));
    assert_eq!(parse_proxy_status(reply(Status::NotFound, Some(b""))), Ok(None));
    assert_eq!(parse_proxy_status(reply(Status::NotFound, Some(b"stale"))), Ok(None));
    assert_eq!(parse_proxy_text(reply(Status::NotFound, None)), Ok(None));
    assert_eq!(parse_proxy_text(reply(Status::NotFound, Some(b""))), Ok(None));
    assert_ne!(parse_proxy_status(reply(Status::NotFound, Some(b""))), Ok(Some(Vec::new())));
}

#[test]
fn any_other_status_breaks_the_contract() {
    for status in [
        Status::BadArgument,
        Status::ParseFailure,
        Status::Empty,
        Status::CasMismatch,
        Status::InternalFailure,
    ] {
        assert_eq!(
            parse_proxy_status(reply(status, Some(b"ignored"))),
            Err(Fatal::UnexpectedHostStatus { code: status.code() })
        );
        assert_eq!(
            parse_proxy_text(reply(status, None)),
            Err(Fatal::UnexpectedHostStatus { code: status.code() })
        );
    }
    assert_eq!(
        parse_proxy_status(HostReply { status: 3, data: None }),
        Err(Fatal::UnexpectedHostStatus { code: 3 })
    );
    assert_eq!(
        parse_proxy_status(HostReply { status: u32::MAX, data: None }),
        Err(Fatal::UnexpectedHostStatus { code: u32::MAX })
    );
}

#[test]
fn text_replies_are_decoded_as_utf8() {
    assert_eq!(parse_proxy_text(reply(Status::Success, Some(b"Foo"))), Ok(Some("Foo".to_string())));
    assert_eq!(
        parse_proxy_text(reply(Status::Success, Some(&[0xe6, 0x9b, 0xb8]))),
        Ok(Some("\u{66f8}".to_string()))
    );
    assert_eq!(parse_proxy_text(reply(Status::Success, Some(b""))), Ok(Some(String::new())));
    assert_eq!(parse_proxy_text(reply(Status::Success, None)), Ok(None));
}

#[test]
fn text_replies_that_are_not_utf8_break_the_contract() {
    assert_eq!(parse_proxy_text(reply(Status::Success, Some(&[0xff, 0xfe]))), Err(Fatal::InvalidUtf8));
    assert_eq!(parse_proxy_text(reply(Status::Success, Some(&[b'a', 0xc3]))), Err(Fatal::InvalidUtf8));
    assert_eq!(
        parse_proxy_text(reply(Status::Success, Some(&[0xed, 0xa0, 0x80]))),
        Err(Fatal::InvalidUtf8)
    );
}

#[test]
fn calls_without_data_accept_success_only() {
    assert_eq!(parse_proxy_done(reply(Status::Success, None)), Ok(()));
    assert_eq!(parse_proxy_done(reply(Status::Success, Some(b"extra"))), Ok(()));
    assert_eq!(
        parse_proxy_done(reply(Status::NotFound, None)),
        Err(Fatal::UnexpectedHostStatus { code: 1 })
    );
    assert_eq!(
        parse_proxy_done(reply(Status::InternalFailure, None)),
        Err(Fatal::UnexpectedHostStatus { code: 10 })
    );
}

#[test]
fn write_then_read_gives_back_what_was_written() {
    for payload in [&b"There are 3 inventories for Foo.\n"[..], &b""[..], &b"x"[..], &[0u8, 255, 7][..]] {
        for initial in [&b""[..], &b"short"[..], &b"something much longer than any payload here"[..]] {
            let mut buffer = BackingBuffer::new(BufferType::HttpResponseBody, initial.to_vec());
            let written = buffer.serve(&set_buffer(BufferType::HttpResponseBody, 0, payload));
            assert_eq!(parse_proxy_done(written), Ok(()));
            let read = buffer.serve(&get_buffer(BufferType::HttpResponseBody, 0, payload.len()));
            assert_eq!(parse_proxy_status(read), Ok(Some(payload.to_vec())));
        }
    }
}

#[test]
fn backing_buffer_replaces_the_addressed_region() {
    let mut buffer = BackingBuffer::new(BufferType::HttpRequestBody, b"0123456789".to_vec());
    let written = buffer.serve(&set_buffer(BufferType::HttpRequestBody, 2, b"abc"));
    assert_eq!(written, HostReply { status: 0, data: None });
    assert_eq!(buffer.contents(), b"01abc56789");
    let written = buffer.serve(&set_buffer(BufferType::HttpRequestBody, 8, b"wxyz"));
    assert_eq!(written, HostReply { status: 0, data: None });
    assert_eq!(buffer.contents(), b"01abc567wxyz");
    let written = buffer.serve(&set_buffer(BufferType::HttpRequestBody, 12, b"!"));
    assert_eq!(written, HostReply { status: 0, data: None });
    assert_eq!(buffer.contents(), b"01abc567wxyz!");
    let written = buffer.serve(&HostCall::SetBufferBytes {
        buffer_type: BufferType::HttpRequestBody,
        start: 0,
        size: 100,
        data: b"new".to_vec(),
    });
    assert_eq!(written, HostReply { status: 0, data: None });
    assert_eq!(buffer.contents(), b"new");
}

#[test]
fn backing_buffer_reads_what_is_there() {
    let mut buffer = BackingBuffer::new(BufferType::HttpRequestBody, b"0123456789".to_vec());
    assert_eq!(
        buffer.serve(&get_buffer(BufferType::HttpRequestBody, 0, 4)),
        HostReply { status: 0, data: Some(b"0123".to_vec()) }
    );
    assert_eq!(
        buffer.serve(&get_buffer(BufferType::HttpRequestBody, 7, 100)),
        HostReply { status: 0, data: Some(b"789".to_vec()) }
    );
    assert_eq!(
        buffer.serve(&get_buffer(BufferType::HttpRequestBody, 10, usize::MAX)),
        HostReply { status: 0, data: Some(Vec::new()) }
    );
    assert_eq!(
        buffer.serve(&get_buffer(BufferType::HttpRequestBody, 3, usize::MAX)),
        HostReply { status: 0, data: Some(b"3456789".to_vec()) }
    );
    assert_eq!(buffer.contents(), b"0123456789");
}

#[test]
fn backing_buffer_refuses_what_it_cannot_serve() {
    let mut buffer = BackingBuffer::new(BufferType::HttpRequestBody, b"abc".to_vec());
    assert_eq!(
        buffer.serve(&get_buffer(BufferType::HttpRequestBody, 4, 1)),
        HostReply { status: Status::BadArgument.code(), data: None }
    );
    assert_eq!(
        buffer.serve(&set_buffer(BufferType::HttpRequestBody, 4, b"x")),
        HostReply { status: Status::BadArgument.code(), data: None }
    );
    assert_eq!(
        buffer.serve(&get_buffer(BufferType::HttpResponseBody, 0, 1)),
        HostReply { status: Status::NotFound.code(), data: None }
    );
    assert_eq!(
        buffer.serve(&set_buffer(BufferType::HttpResponseBody, 0, b"x")),
        HostReply { status: Status::NotFound.code(), data: None }
    );
    assert_eq!(
        buffer.serve(&log(LogLevel::Info, "not a buffer call")),
        HostReply { status: Status::NotFound.code(), data: None }
    );
    assert_eq!(buffer.contents(), b"abc");
}
