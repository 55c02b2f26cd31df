//! Verified core of the llama-xet C ABI: status codes, failure
//! classification, the per-thread last-error slot, C-string decoding,
//! session handles and the decision logic of a batch download.

pub mod status;
pub mod text;
pub mod classify;
pub mod last_error;
pub mod cstr;
pub mod session;
pub mod download;

pub use status::{
    LXET_ERR_AUTH, LXET_ERR_CANCELLED, LXET_ERR_INTEGRITY, LXET_ERR_INVALID_ARG, LXET_ERR_NETWORK,
    LXET_ERR_OTHER, LXET_OK, Failure,
};
