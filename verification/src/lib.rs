//! A typed bridge between user code and a handle-based, C-ABI tensor runtime.
//!
//! The crate covers the safe, decidable side of that bridge:
//! - an option registry that turns typed provider settings into the generic
//!   key/value protocol the native runtime expects ([`options`], [`encode`]);
//! - the configuration surface of the CUDA execution provider, its capability
//!   bitset and its platform table ([`cuda`]);
//! - the registration sequence that attaches a configured provider to a
//!   session, with its scope-guaranteed release of the native options object
//!   ([`register`]);
//! - the attribute decoding protocol (two-phase size-then-fill queries and
//!   positional reads with exact length checks) ([`attrs`]);
//! - the ownership discipline of native handles ([`handle`]) and the
//!   partitioning contract of parallel dispatch ([`parfor`]).
//!
//! The native calls themselves are opaque and live outside this crate; every
//! decision the bridge makes around them is stated and proved here.

pub mod attrs;
pub mod cuda;
pub mod handle;
pub mod encode;
pub mod error;
pub mod options;
pub mod parfor;
pub mod register;
