//! The enclave's `say_something` ecall: it asks the untrusted side for a
//! quote through an ocall and reads the reply back as text.
use vstd::prelude::*;
use crate::buffer::{lemma_read_back_written, overwrite_prefix, padded, read_prefix, zero_padded};
use crate::host::{ocall_get_quote, quote_reply, QUOTE_REQUEST_LEN};
use crate::latin1::{bytes_to_string, latin1_decode};
use crate::status::{SgxStatus, SGX_SUCCESS_CODE};

verus! {

/// The size that both ocall buffers are declared with.
pub const OCALL_BUFFER_LEN: usize = 16;

/// How many bytes of the reply buffer the enclave reads back.
pub const REPLY_READ_LEN: usize = 10;

/// The request the enclave sends: the bytes of `"1233890"`.
pub open spec fn quote_request() -> Seq<u8> {
    seq![49u8, 50, 51, 51, 56, 57, 48]
}

/// What the reply buffer holds before the ocall: the bytes of `"ddddd"`.
pub open spec fn reply_placeholder() -> Seq<u8> {
    seq![100u8, 100, 100, 100, 100]
}

/// The two buffers of the quote ocall: the request, and the buffer that the
/// reply is written into.
pub struct QuoteBuffers {
    pub output: Vec<u8>,
    pub value: Vec<u8>,
}

/// The buffers of the quote ocall, each of the declared size: the request
/// and the placeholder, each followed by zeros.
pub fn quote_buffers() -> (bufs: QuoteBuffers)
    ensures
        bufs.output@ == zero_padded(quote_request(), OCALL_BUFFER_LEN as nat),
        bufs.value@ == zero_padded(reply_placeholder(), OCALL_BUFFER_LEN as nat),
{
    let request: Vec<u8> = vec![49u8, 50, 51, 51, 56, 57, 48];
    let placeholder: Vec<u8> = vec![100u8, 100, 100, 100, 100];
    assert(request@ =~= quote_request());
    assert(placeholder@ =~= reply_placeholder());
    let output = padded(request.as_slice(), OCALL_BUFFER_LEN);
    let value = padded(placeholder.as_slice(), OCALL_BUFFER_LEN);
    QuoteBuffers { output, value }
}

/// Reads the first `REPLY_READ_LEN` bytes of the reply buffer as text.
pub fn read_quote_reply(value: &[u8]) -> (text: String)
    requires
        REPLY_READ_LEN <= value@.len(),
    ensures
        text@ == latin1_decode(value@.take(REPLY_READ_LEN as int)),
{
    let reply = read_prefix(value, REPLY_READ_LEN);
    bytes_to_string(&reply)
}

/// Whatever the reply buffer held before the quote ocall, the enclave reads
/// back the host's reply, and as text nothing of it is lost.
pub proof fn lemma_reply_read_back(value: Seq<u8>)
    requires
        REPLY_READ_LEN <= value.len(),
    ensures
        overwrite_prefix(value, quote_reply()).take(REPLY_READ_LEN as int) == quote_reply(),
        latin1_decode(overwrite_prefix(value, quote_reply()).take(REPLY_READ_LEN as int))
            == latin1_decode(quote_reply()),
{
    lemma_read_back_written(value, quote_reply());
}

/// The quote ocall as the enclave makes it: the request buffer and the
/// reply buffer as they are handed over, each with the length it is
/// declared with.
pub struct QuoteCall {
    pub output: Vec<u8>,
    pub output_len: u32,
    pub value: Vec<u8>,
    pub value_len: u32,
}

/// What the ecall ends with: its status, the quote ocall it made, the
/// request as the host read it, the reply buffer as the ocall left it, and
/// the reply it read back, as text.
pub struct EcallReply {
    pub status: SgxStatus,
    pub call: QuoteCall,
    pub host_request_text: String,
    pub value_after: Vec<u8>,
    pub reply_text: String,
}

/// The ecall: hands the request `"1233890"` and the reply buffer `"ddddd"`,
/// each padded to the declared `OCALL_BUFFER_LEN` bytes, to the quote
/// ocall, which the host answers; reads the reply back as text and
/// succeeds. `some_string` is the ecall's argument; this ecall does not
/// read it, so nothing it does depends on it.
pub fn say_something(some_string: &[u8]) -> (reply: EcallReply)
    ensures
        reply.status.code == SGX_SUCCESS_CODE,
        reply.call.output@ == zero_padded(quote_request(), OCALL_BUFFER_LEN as nat),
        reply.call.output_len == OCALL_BUFFER_LEN,
        reply.call.value@ == zero_padded(reply_placeholder(), OCALL_BUFFER_LEN as nat),
        reply.call.value_len == OCALL_BUFFER_LEN,
        reply.host_request_text@ == latin1_decode(quote_request()),
        reply.value_after@ == overwrite_prefix(reply.call.value@, quote_reply()),
        reply.reply_text@ == latin1_decode(quote_reply()),
{
    let mut bufs = quote_buffers();
    let call = QuoteCall {
        output: bufs.output.clone(),
        output_len: OCALL_BUFFER_LEN as u32,
        value: bufs.value.clone(),
        value_len: OCALL_BUFFER_LEN as u32,
    };
    let ghost old_value = bufs.value@;
    let answer = ocall_get_quote(bufs.output.as_slice(), &mut bufs.value);
    proof {
        lemma_reply_read_back(old_value);
        assert(zero_padded(quote_request(), OCALL_BUFFER_LEN as nat).take(QUOTE_REQUEST_LEN as int)
            =~= quote_request());
    }
    let reply_text = read_quote_reply(bufs.value.as_slice());
    EcallReply {
        status: SgxStatus::success(),
        call,
        host_request_text: answer.request_text,
        value_after: bufs.value,
        reply_text,
    }
}

} // verus!
