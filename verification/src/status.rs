//! The status code that ecalls and ocalls return.
use vstd::prelude::*;

verus! {

/// The text that `sgx_types::sgx_status_t::as_str` gives for the status with
/// this numeric code, or `None` where no status has this code.
pub uninterp spec fn sgx_status_text(code: u32) -> Option<Seq<char>>;

/// The view of an optional string.
pub open spec fn opt_text(s: Option<String>) -> Option<Seq<char>> {
    match s {
        Some(t) => Some(t@),
        None => None,
    }
}

/// Looks the code up with `sgx_types::sgx_status_t::from_repr` and, for a
/// known status, returns what `sgx_status_t::as_str` gives for it. The table
/// of names is the crate's; the contract claims only that the result is
/// the same for the same code.
#[verifier::external_body]
fn sgx_status_name(code: u32) -> (text: Option<String>)
    ensures
        opt_text(text) == sgx_status_text(code),
{
    match sgx_types::sgx_status_t::from_repr(code) {
        Some(status) => Some(status.as_str().to_string()),
        None => None,
    }
}

/// An SGX status, held as its numeric code (`sgx_status_t` is `repr(u32)`).
#[derive(Clone, Copy, Debug, PartialEq, Eq, Structural)]
pub struct SgxStatus {
    pub code: u32,
}

/// The code of `SGX_SUCCESS`.
pub const SGX_SUCCESS_CODE: u32 = 0;

impl SgxStatus {
    /// `SGX_SUCCESS`.
    pub fn success() -> (s: SgxStatus)
        ensures
            s.code == SGX_SUCCESS_CODE,
    {
        SgxStatus { code: SGX_SUCCESS_CODE }
    }

    /// Whether this is `SGX_SUCCESS`.
    pub fn is_success(&self) -> (b: bool)
        ensures
            b == (self.code == SGX_SUCCESS_CODE),
    {
        self.code == SGX_SUCCESS_CODE
    }

    /// The name that the SGX SDK prints for this status; `None` for a code
    /// that names no status.
    pub fn as_str(&self) -> (text: Option<String>)
        ensures
            opt_text(text) == sgx_status_text(self.code),
    {
        sgx_status_name(self.code)
    }
}

} // verus!
