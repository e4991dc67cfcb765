//! The chat data model: users, rooms and messages.
use vstd::prelude::*;

verus! {

/// Presence of a user.
#[derive(Clone, Copy, Debug, PartialEq, Eq, Structural)]
pub enum UserStatus {
    Online,
    Idle,
    DoNotDisturb,
    Offline,
}

/// A chat user.
#[derive(Clone, Debug)]
pub struct User {
    pub id: String,
    pub display_name: String,
    pub avatar_url: Option<String>,
    pub status: UserStatus,
}

/// Kind of a room.
#[derive(Clone, Copy, Debug, PartialEq, Eq, Structural)]
pub enum RoomType {
    Direct,
    Group,
    Public,
}

/// A chat room.
#[derive(Clone, Debug)]
pub struct Room {
    pub id: String,
    pub name: String,
    pub topic: Option<String>,
    pub room_type: RoomType,
    pub avatar_url: Option<String>,
}

/// Kind of a message's content.
#[derive(Clone, Copy, Debug, PartialEq, Eq, Structural)]
pub enum MessageType {
    Text,
    Image,
    File,
}

/// A chat message.
#[derive(Clone, Debug)]
pub struct Message {
    pub id: String,
    pub sender: String,
    pub content: String,
    pub schema: MessageType,
    pub timestamp: u64,
}

} // verus!
