//! Assembly of ordered, role-tagged conversational context for a chat bot
//! that answers through a language-model completion endpoint.
//!
//! Two assemblers produce the same output shape — a sequence of
//! [`message::Utterance`] values, oldest first, led by a system entry —
//! from two different message topologies: a linear reply chain
//! ([`reply_chain`]) and a thread's recent-message window
//! ([`thread_window`]). Both rest on the role classifier in [`message`].
//! Whether an inbound event deserves a response at all is decided in
//! [`dispatch`], and [`scrub`] cleans the completion endpoint's reply
//! before it is posted.
//!
//! Platform I/O (fetching messages, posting replies, talking to the
//! completion endpoint) stays outside this crate: callers hand the
//! assemblers plain, already-fetched values and take plain values back.

pub mod dispatch;
pub mod message;
pub mod reply_chain;
pub mod scrub;
pub mod thread_window;
