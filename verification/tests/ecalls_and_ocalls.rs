use ocall::enclave::{quote_buffers, read_quote_reply};
use ocall::host::{ocall_get_quote, ocall_get_service, quote_reply_bytes};
use ocall::status::SgxStatus;

#[test]
fn quote_handler_reads_request_and_writes_reply() {
    let mut output = b"1233890".to_vec();
    output.resize(16, 0);
    let mut value = b"ddddd".to_vec();
    value.resize(16, 0);
    let answer = ocall_get_quote(&output, &mut value);
    assert_eq!(answer.request_text, "1233890");
    assert_eq!(&value[..10], b"worileqing");
    assert_eq!(&value[10..], &[0u8; 6]);
}

#[test]
fn quote_handler_reads_only_seven_bytes() {
    let output = b"enclave_request".to_vec();
    let mut value = vec![0u8; 1000];
    let answer = ocall_get_quote(&output, &mut value);
    assert_eq!(answer.request_text, "enclave");
    assert_eq!(&value[..10], b"worileqing");
    assert!(value[10..].iter().all(|b| *b == 0));
}

#[test]
fn quote_handler_with_exact_buffers() {
    let mut value = vec![1u8; 10];
    let answer = ocall_get_quote(b"ABCDEFG", &mut value);
    assert_eq!(answer.request_text, "ABCDEFG");
    assert_eq!(value, b"worileqing".to_vec());
}

#[test]
fn quote_reply_is_worileqing() {
    assert_eq!(quote_reply_bytes(), b"worileqing".to_vec());
}

#[test]
fn service_handler_reads_sixteen_bytes() {
    let output = b"0123456789abcdefXYZ";
    let request = ocall_get_service(output);
    assert_eq!(request.bytes, b"0123456789abcdef".to_vec());
    assert_eq!(request.text, "0123456789abcdef");
    assert_eq!(request.status, SgxStatus { code: 0 });
}

#[test]
fn ecall_gets_the_reply_back() {
    let reply = ocall::enclave::say_something(b"This is a normal world string passed into Enclave!\n");
    assert!(reply.status.is_success());
    assert_eq!(reply.reply_text, "worileqing");
    let mut output = b"1233890".to_vec();
    output.resize(16, 0);
    let mut value = b"ddddd".to_vec();
    value.resize(16, 0);
    assert_eq!(reply.call.output, output);
    assert_eq!(reply.call.output_len, 16);
    assert_eq!(reply.call.value, value);
    assert_eq!(reply.call.value_len, 16);
    assert_eq!(reply.host_request_text, "1233890");
    let mut after = b"worileqing".to_vec();
    after.resize(16, 0);
    assert_eq!(reply.value_after, after);
}

#[test]
fn ecall_ignores_its_argument() {
    let a = ocall::enclave::say_something(b"");
    let b = ocall::enclave::say_something(b"something else entirely");
    assert_eq!(a.call.output, b.call.output);
    assert_eq!(a.call.value, b.call.value);
    assert_eq!(a.host_request_text, b.host_request_text);
    assert_eq!(a.value_after, b.value_after);
    assert_eq!(a.reply_text, b.reply_text);
    assert_eq!(a.status, b.status);
}

#[test]
fn ecall_buffers_have_the_declared_size() {
    let bufs = quote_buffers();
    let mut output = b"1233890".to_vec();
    output.resize(16, 0);
    let mut value = b"ddddd".to_vec();
    value.resize(16, 0);
    assert_eq!(bufs.output, output);
    assert_eq!(bufs.value, value);
}

#[test]
fn reply_read_back_is_ten_bytes() {
    assert_eq!(read_quote_reply(b"worileqingXXXXXX"), "worileqing");
    assert_eq!(read_quote_reply(b"ddddd\0\0\0\0\0\0"), "ddddd\0\0\0\0\0");
}

#[test]
fn beta_ecall_echoes_and_reads_within_the_unreported_length() {
    let reply = ocall::enclave_beta::say_something(b"hello");
    assert_eq!(reply.status.code, 0);
    assert_eq!(reply.echo, b"hello".to_vec());
    assert_eq!(reply.response_text, "");
    assert_eq!(reply.key_sent, b"enclave_request".to_vec());
    assert_eq!(reply.key_len, 15);
    assert_eq!(reply.value_sent, vec![0u8; 1000]);
    assert_eq!(reply.host_request_text, "enclave");
    assert_eq!(reply.value_len, 0);
    assert_eq!(&reply.value_after[..10], b"worileqing");
    assert!(reply.value_after[10..].iter().all(|b| *b == 0));
    assert_eq!(reply.value_after.len(), 1000);
    let empty = ocall::enclave_beta::say_something(b"");
    assert_eq!(empty.echo, Vec::<u8>::new());
    assert_eq!(empty.response_text, "");
}

#[test]
fn beta_reads_as_many_bytes_as_reported() {
    let value = b"worileqing\0\0\0".to_vec();
    assert_eq!(ocall::enclave_beta::read_value(&value, 10), "worileqing");
    assert_eq!(ocall::enclave_beta::read_value(&value, 0), "");
    assert_eq!(ocall::enclave_beta::read_value(&value, 3), "wor");
    assert_eq!(ocall::enclave_beta::request_key_bytes(), b"enclave_request".to_vec());
}

#[test]
fn status_names_come_from_the_sdk() {
    assert!(SgxStatus::success().is_success());
    assert_eq!(SgxStatus::success().as_str(), Some("SGX_SUCCESS.".to_string()));
    let unexpected = SgxStatus { code: 1 };
    assert!(!unexpected.is_success());
    assert_eq!(unexpected.as_str(), Some("SGX_ERROR_UNEXPECTED".to_string()));
    assert_eq!(SgxStatus { code: 0x1003 }.as_str(), Some("SGX_ERROR_OUT_OF_TCS".to_string()));
    assert_eq!(SgxStatus { code: 7 }.as_str(), None);
}
