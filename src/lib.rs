//! A lightweight actor framework: stateful appliances that are reached only
//! through messages sent to their mailbox.
use vstd::prelude::*;

pub mod error;
pub mod outcome;
mod channel;
pub mod message;
pub mod appliance;

pub use crate::error::Error;
pub use crate::outcome::{Enqueued, ReplyEvent};
pub use crate::message::{Envelope, HandledBy, Handler, Message};
pub use crate::appliance::{reply_slot, Appliance, ApplianceHandle, PendingReply};
