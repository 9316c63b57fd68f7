//! User-space access to multi-queue TUN devices: the kernel configuration
//! record, queue descriptors, devices made of several queues, and the decisions
//! that drive readiness-based I/O across queues.

mod device;
mod error;
mod flags;
mod mux;
mod queue;
mod req;

pub use device::{
    close_each, closed_in_order, first_error, first_error_spec, kept_after_drain, lemma_close_after_drain,
    opened_device, opening_run, Closer, Device, Tun,
};
pub use error::{decimal_of, digits_of, Error, Result};
pub use flags::{after_request, has_mode, lemma_mode_request_idempotent, status_flags_update, with_mode};
pub use mux::{after_attempt, after_wait, classify, race_start, Attempt, Step};
pub use queue::{Queue, CONTROL_PATH};
pub use req::{
    echo_acceptable, kept_len, lemma_long_name_truncated, lemma_name_of_upto, lemma_short_name_round_trip,
    name_of, stored_name, valid_name, IfReq, IFF_FLAGS, IFF_MULTI_QUEUE, IFF_NO_PI, IFF_TUN, IF_NAME_SIZE,
    MAX_NAME_LEN,
};
