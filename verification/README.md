# llama_xet

Verified core of the llama-xet C ABI, which lets llama.cpp download
Hugging Face model files through the `hf-xet` (xet-core) client.

- `src/` (Verus): status codes; keyword classification of failure
  messages; the per-thread last-error slot as a C string; C-string
  decoding; session handles; and the decisions of a batch download as a
  state machine (`DownloadDriver`) that the caller drives with the results
  of the outside work.
- `app/` (plain Rust): the exported `extern "C"` functions, the
  thread-local slot, pointer handling, and the xet-core I/O (group build,
  queueing, waiting, progress polling) performed on the driver's behalf.
- `tests/`: runtime tests of the library.
