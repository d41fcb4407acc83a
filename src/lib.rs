//! Message bridge between the backend-communication thread and the UI thread,
//! and the correlation of backend responses with the requests that caused them.
//!
//! The mailbox keeps its queue and a record of the wakeup channel's signal
//! state; the caller performs the actual write to (and read from) the channel
//! when an operation says so.
pub mod message;
pub mod mailbox;
pub mod correlator;
pub mod bridge;
pub mod source;
pub mod prefs;

pub use message::CoreMsg;
pub use mailbox::{MailboxOp, QueueModel, SharedQueue};
pub use correlator::{
    send_notification, CorrelatorModel, Correlator, Dispatch, Incoming, RequestFrame,
};
pub use bridge::{route_frame, Routed};
pub use source::QueueSource;
pub use prefs::{
    default_pairs, draw_flag_or_default, monospace_font_or_default, pair_texts, texts,
    theme_or_default, XiConfig,
};
