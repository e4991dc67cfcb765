//! Core of a voice chat client: the packet format of the voice stream, the
//! playback fill rule, the voice engine's control state and network-loop
//! decisions, saved-session bookkeeping, the chat client's offline helpers and
//! the chat data model.
pub mod chat;
pub mod client;
pub mod packet;
pub mod playback;
pub mod session;
pub mod voice;
