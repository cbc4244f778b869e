//! Event-translation core of a terminal chat client: membership transitions,
//! typing summaries, message records with dedupe identifiers, a bounded event
//! queue, session tokens, and the decisions of the terminal input and tick
//! producers.

pub mod client;
pub mod event_stream;
pub mod identifiers;
pub mod membership;
pub mod typing;
pub mod ui_loop;
pub mod uuid_ids;
