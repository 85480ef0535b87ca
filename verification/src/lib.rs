//! Safe, verified core of an SGX sample in which an enclave and its
//! untrusted host exchange byte buffers through an ecall and ocalls.
pub mod buffer;
pub mod enclave;
pub mod enclave_beta;
pub mod host;
pub mod latin1;
pub mod launch;
pub mod status;
