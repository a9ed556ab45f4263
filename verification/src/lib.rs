//! A dynamic-DNS reconciler: decides, once per polling cycle, whether the
//! address published in a remote DNS record still matches the caller's
//! current public address, and drives the update of the record when it does
//! not. The network itself is driven by a host program; this crate holds the
//! decision logic: the retry disciplines, the record read/write contract,
//! and the reconciliation state machine.

pub mod reconcile;
pub mod record;
pub mod resolver;
pub mod retry;
