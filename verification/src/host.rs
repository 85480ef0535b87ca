//! The untrusted side's answers to the enclave's ocalls.
use vstd::prelude::*;
use crate::buffer::{copy_into, overwrite_prefix, read_prefix};
use crate::latin1::{bytes_to_string, latin1_decode};
use crate::status::{SgxStatus, SGX_SUCCESS_CODE};

verus! {

/// How many bytes of the request the quote handler reads.
pub const QUOTE_REQUEST_LEN: usize = 7;

/// How many bytes of the request the service handler reads.
pub const SERVICE_REQUEST_LEN: usize = 16;

/// The reply that the quote handler writes: the bytes of `"worileqing"`.
pub open spec fn quote_reply() -> Seq<u8> {
    seq![119u8, 111, 114, 105, 108, 101, 113, 105, 110, 103]
}

/// The bytes of the quote reply.
pub fn quote_reply_bytes() -> (reply: Vec<u8>)
    ensures
        reply@ == quote_reply(),
{
    let reply: Vec<u8> = vec![119u8, 111, 114, 105, 108, 101, 113, 105, 110, 103];
    assert(reply@ =~= quote_reply());
    reply
}

/// What the quote handler read: the request, as text. The handler reports
/// no reply length back to the caller.
pub struct QuoteAnswer {
    pub request_text: String,
}

/// Answers a quote request: reads the first `QUOTE_REQUEST_LEN` bytes of
/// `output` as text and writes the reply over the start of `value`, leaving
/// the rest of `value` as it was. It reports no length back.
pub fn ocall_get_quote(output: &[u8], value: &mut Vec<u8>) -> (answer: QuoteAnswer)
    requires
        QUOTE_REQUEST_LEN <= output@.len(),
        quote_reply().len() <= old(value)@.len(),
    ensures
        answer.request_text@ == latin1_decode(output@.take(QUOTE_REQUEST_LEN as int)),
        final(value)@ == overwrite_prefix(old(value)@, quote_reply()),
{
    let request = read_prefix(output, QUOTE_REQUEST_LEN);
    let request_text = bytes_to_string(&request);
    let reply = quote_reply_bytes();
    copy_into(value, &reply);
    QuoteAnswer { request_text }
}

/// What the service handler read, as bytes and as text, and the status it
/// returns.
pub struct ServiceRequest {
    pub bytes: Vec<u8>,
    pub text: String,
    pub status: SgxStatus,
}

/// Answers a service request: reads the first `SERVICE_REQUEST_LEN` bytes
/// of `output`, as bytes and as text, and succeeds.
pub fn ocall_get_service(output: &[u8]) -> (request: ServiceRequest)
    requires
        SERVICE_REQUEST_LEN <= output@.len(),
    ensures
        request.bytes@ == output@.take(SERVICE_REQUEST_LEN as int),
        request.text@ == latin1_decode(output@.take(SERVICE_REQUEST_LEN as int)),
        request.status.code == SGX_SUCCESS_CODE,
{
    let bytes = read_prefix(output, SERVICE_REQUEST_LEN);
    let text = bytes_to_string(&bytes);
    ServiceRequest { bytes, text, status: SgxStatus::success() }
}

} // verus!
