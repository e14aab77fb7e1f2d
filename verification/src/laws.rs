//! What the operations are for, stated on what they are given and what they return.
//!
//! Each law speaks of any call of a function: `call_ensures(f, args, r)` holds whenever `f`,
//! called with `args`, may return `r`.
//!
//! - [`flags`]: the flags of a build, setting by setting;
//! - [`sent`]: what is sent for a message, field by field;
//! - [`read`]: what a value is read as, field by field;
//! - [`answers`]: what a plugin is given, and how it is answered for;
//! - [`exchange`]: requests, replies, and the packets in the bytes that arrive;
//! - [`format`]: the bytes that stand for values and packets;
//! - [`parts`]: maps, optional values, defaults, copies and texts.
pub mod answers;
pub mod exchange;
pub mod flags;
pub mod format;
pub mod parts;
pub mod read;
pub mod sent;
