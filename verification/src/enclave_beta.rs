//! The second version of the `say_something` ecall: it echoes its argument,
//! asks for a value by key through the quote ocall, and reads back as many
//! bytes as the value length says after the ocall. The quote handler writes
//! its reply into the buffer but reports no length, so the length stays at
//! its initial 0 and the text read back is empty.
use vstd::prelude::*;
use crate::buffer::{overwrite_prefix, read_prefix, zeroed};
use crate::host::{ocall_get_quote, quote_reply, QUOTE_REQUEST_LEN};
use crate::latin1::{bytes_to_string, latin1_decode};
use crate::status::{SgxStatus, SGX_SUCCESS_CODE};

verus! {

/// The size of the buffer that receives the value.
pub const VALUE_BUFFER_LEN: usize = 1000;

/// The key the enclave asks for: the bytes of `"enclave_request"`.
pub open spec fn request_key() -> Seq<u8> {
    seq![101u8, 110, 99, 108, 97, 118, 101, 95, 114, 101, 113, 117, 101, 115, 116]
}

/// The bytes of the key.
pub fn request_key_bytes() -> (key: Vec<u8>)
    ensures
        key@ == request_key(),
{
    let key: Vec<u8> = vec![101u8, 110, 99, 108, 97, 118, 101, 95, 114, 101, 113, 117, 101, 115, 116];
    assert(key@ =~= request_key());
    key
}

/// Reads back `value_len` bytes of the value buffer as text.
pub fn read_value(value: &[u8], value_len: u8) -> (text: String)
    requires
        value_len as int <= value@.len(),
    ensures
        text@ == latin1_decode(value@.take(value_len as int)),
{
    let bytes = read_prefix(value, value_len as usize);
    bytes_to_string(&bytes)
}

/// What the ecall ends with: its status, the argument it echoes, the key
/// and the value buffer as handed to the quote ocall (with the key's
/// declared length), the key as the host read it, the value buffer as the
/// ocall left it, the value length after the ocall (the handler reports
/// none, so it is still the initial 0), and the bytes of the buffer within
/// that length, read back as text.
pub struct BetaReply {
    pub status: SgxStatus,
    pub echo: Vec<u8>,
    pub key_sent: Vec<u8>,
    pub key_len: u32,
    pub value_sent: Vec<u8>,
    pub host_request_text: String,
    pub value_after: Vec<u8>,
    pub value_len: u8,
    pub response_text: String,
}

/// The ecall: echoes `some_string`, hands the key `"enclave_request"`, a
/// zeroed buffer of `VALUE_BUFFER_LEN` bytes and a value length of 0 to the
/// quote ocall, which the host answers by writing its reply into the buffer;
/// reads back as many bytes as the value length says, as text, and
/// succeeds. The quote handler reports no length, so the length is still 0
/// and the text read back is empty.
pub fn say_something(some_string: &[u8]) -> (reply: BetaReply)
    ensures
        reply.status.code == SGX_SUCCESS_CODE,
        reply.echo@ == some_string@,
        reply.key_sent@ == request_key(),
        reply.key_len == request_key().len(),
        reply.value_sent@ == Seq::new(VALUE_BUFFER_LEN as nat, |i: int| 0u8),
        reply.host_request_text@ == latin1_decode(request_key().take(QUOTE_REQUEST_LEN as int)),
        reply.value_after@ == overwrite_prefix(reply.value_sent@, quote_reply()),
        reply.value_len == 0,
        reply.response_text@ == latin1_decode(reply.value_after@.take(reply.value_len as int)),
        reply.response_text@ == Seq::<char>::empty(),
{
    let echo = read_prefix(some_string, some_string.len());
    assert(some_string@.take(some_string@.len() as int) =~= some_string@);
    let key = request_key_bytes();
    let mut value = zeroed(VALUE_BUFFER_LEN);
    let key_sent = key.clone();
    let key_len: u32 = key.len() as u32;
    let value_sent = value.clone();
    let value_len: u8 = 0;
    let answer = ocall_get_quote(key.as_slice(), &mut value);
    let response_text = read_value(value.as_slice(), value_len);
    assert(latin1_decode(value@.take(0)) =~= Seq::<char>::empty());
    BetaReply {
        status: SgxStatus::success(),
        echo,
        key_sent,
        key_len,
        value_sent,
        host_request_text: answer.request_text,
        value_after: value,
        value_len,
        response_text,
    }
}

} // verus!
