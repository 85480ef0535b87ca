# ocall

The verified core of an Intel SGX sample in which an enclave and its
untrusted host exchange byte buffers through an ecall (`say_something`) and
ocalls (`ocall_get_quote`, `ocall_get_service`).

- `src/latin1.rs`: byte buffers read back as text, one character per byte.
- `src/buffer.rs`: bounded copies into buffers, prefix reads, zero padding,
  and the choice of region handed to C for a possibly empty slice.
- `src/host.rs`: the host's answers to the two ocalls.
- `src/enclave.rs`, `src/enclave_beta.rs`: the two versions of the ecall.
- `src/launch.rs`: the enclave launch (launch token file, enclave creation)
  as a state machine; the host performs each step.
- `src/status.rs`: SGX status codes and their SDK names.
- `app/`: the host program, the raw-pointer entry points and the file and
  enclave work around the library.
