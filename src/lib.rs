//! Safety rules, progress decoding and bookkeeping for a privileged
//! disk-writing tool: image flashing, secure erase and formatting of
//! removable block devices.

pub mod split;
pub mod lines;
pub mod device;
pub mod progress;
pub mod tail;
pub mod operation;
pub mod launcher;
pub mod sampling;
pub mod digest;
pub mod inventory;
