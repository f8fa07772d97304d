//! The events that the client reports, and their kinds.

use std::time::Duration;
use vstd::prelude::*;

use crate::message_trait::{GroupMessageEvent, PrivateMessageEvent, TempMessageEvent};

verus! {

/// The kinds of event that handlers can declare themselves for.
///
/// Thirteen of them are kinds of events as they arrive. `AnyMessage` is
/// no kind of event: it is what a handler declares that takes a message
/// of any of the three conversation kinds.
#[derive(Clone, Copy, Debug, PartialEq, Eq, Structural)]
pub enum EventKind {
    GroupMessage,
    PrivateMessage,
    TempMessage,
    GroupRequest,
    FriendRequest,
    NewFriend,
    FriendPoke,
    DeleteFriend,
    GroupMute,
    GroupLeave,
    GroupNameUpdate,
    GroupMessageRecall,
    FriendMessageRecall,
    AnyMessage,
}

/// Someone asks to join a group.
#[derive(Clone, Debug, PartialEq, Eq)]
pub struct GroupRequestEvent {
    pub group_code: i64,
    pub req_uin: i64,
    pub message: String,
}

/// Someone asks to become a friend.
#[derive(Clone, Debug, PartialEq, Eq)]
pub struct FriendRequestEvent {
    pub req_uin: i64,
    pub message: String,
}

/// A new friend was added.
#[derive(Clone, Debug, PartialEq, Eq)]
pub struct NewFriendEvent {
    pub uin: i64,
    pub nick: String,
}

/// A friend poked someone.
#[derive(Clone, Debug, PartialEq, Eq)]
pub struct FriendPokeEvent {
    pub sender: i64,
    pub receiver: i64,
}

/// A friend was removed.
#[derive(Clone, Debug, PartialEq, Eq)]
pub struct DeleteFriendEvent {
    pub uin: i64,
}

/// A member of a group was muted.
#[derive(Debug, PartialEq, Eq)]
pub struct GroupMuteEvent {
    pub group_code: i64,
    pub operator_uin: i64,
    pub target_uin: i64,
    pub duration: Duration,
}

/// A member left a group, or was removed from it.
#[derive(Clone, Debug, PartialEq, Eq)]
pub struct GroupLeaveEvent {
    pub group_code: i64,
    pub member_uin: i64,
    pub operator_uin: Option<i64>,
}

/// A group was renamed.
#[derive(Clone, Debug, PartialEq, Eq)]
pub struct GroupNameUpdateEvent {
    pub group_code: i64,
    pub operator_uin: i64,
    pub group_name: String,
}

/// A message was withdrawn from a group.
#[derive(Clone, Debug, PartialEq, Eq)]
pub struct GroupMessageRecallEvent {
    pub msg_seq: i32,
    pub group_code: i64,
    pub operator_uin: i64,
    pub author_uin: i64,
    pub time: i32,
}

/// A friend withdrew a message.
#[derive(Clone, Debug, PartialEq, Eq)]
pub struct FriendMessageRecallEvent {
    pub msg_seq: i32,
    pub friend_uin: i64,
    pub time: i64,
}

/// An event as the client reports it.
#[derive(Debug, PartialEq, Eq)]
pub enum QEvent {
    GroupMessage(GroupMessageEvent),
    PrivateMessage(PrivateMessageEvent),
    TempMessage(TempMessageEvent),
    GroupRequest(GroupRequestEvent),
    FriendRequest(FriendRequestEvent),
    NewFriend(NewFriendEvent),
    FriendPoke(FriendPokeEvent),
    DeleteFriend(DeleteFriendEvent),
    GroupMute(GroupMuteEvent),
    GroupLeave(GroupLeaveEvent),
    GroupNameUpdate(GroupNameUpdateEvent),
    GroupMessageRecall(GroupMessageRecallEvent),
    FriendMessageRecall(FriendMessageRecallEvent),
}

/// Whether a handler declared for `capability` is offered events of
/// `kind`: its own kind, and, if it takes any message, the three kinds
/// of message.
pub open spec fn accepts(capability: EventKind, kind: EventKind) -> bool {
    capability == kind || (capability == EventKind::AnyMessage && kind.is_message())
}

impl EventKind {
    /// Whether events of this kind are messages of a conversation.
    #[verifier::when_used_as_spec(is_message_spec)]
    pub fn is_message(&self) -> (b: bool)
        ensures
            b == self.is_message_spec(),
    {
        match self {
            EventKind::GroupMessage | EventKind::PrivateMessage | EventKind::TempMessage => true,
            _ => false,
        }
    }

    pub open spec fn is_message_spec(&self) -> bool {
        *self == EventKind::GroupMessage || *self == EventKind::PrivateMessage || *self
            == EventKind::TempMessage
    }

    /// Whether a handler declared for this kind is offered events of `kind`.
    pub fn accepts(&self, kind: EventKind) -> (b: bool)
        ensures
            b == accepts(*self, kind),
    {
        *self == kind || (*self == EventKind::AnyMessage && kind.is_message())
    }
}

impl QEvent {
    /// The kind of this event. It is never `AnyMessage`.
    pub open spec fn kind_spec(&self) -> EventKind {
        match self {
            QEvent::GroupMessage(_) => EventKind::GroupMessage,
            QEvent::PrivateMessage(_) => EventKind::PrivateMessage,
            QEvent::TempMessage(_) => EventKind::TempMessage,
            QEvent::GroupRequest(_) => EventKind::GroupRequest,
            QEvent::FriendRequest(_) => EventKind::FriendRequest,
            QEvent::NewFriend(_) => EventKind::NewFriend,
            QEvent::FriendPoke(_) => EventKind::FriendPoke,
            QEvent::DeleteFriend(_) => EventKind::DeleteFriend,
            QEvent::GroupMute(_) => EventKind::GroupMute,
            QEvent::GroupLeave(_) => EventKind::GroupLeave,
            QEvent::GroupNameUpdate(_) => EventKind::GroupNameUpdate,
            QEvent::GroupMessageRecall(_) => EventKind::GroupMessageRecall,
            QEvent::FriendMessageRecall(_) => EventKind::FriendMessageRecall,
        }
    }

    #[verifier::when_used_as_spec(kind_spec)]
    pub fn kind(&self) -> (kind: EventKind)
        ensures
            kind == self.kind_spec(),
            kind != EventKind::AnyMessage,
    {
        match self {
            QEvent::GroupMessage(_) => EventKind::GroupMessage,
            QEvent::PrivateMessage(_) => EventKind::PrivateMessage,
            QEvent::TempMessage(_) => EventKind::TempMessage,
            QEvent::GroupRequest(_) => EventKind::GroupRequest,
            QEvent::FriendRequest(_) => EventKind::FriendRequest,
            QEvent::NewFriend(_) => EventKind::NewFriend,
            QEvent::FriendPoke(_) => EventKind::FriendPoke,
            QEvent::DeleteFriend(_) => EventKind::DeleteFriend,
            QEvent::GroupMute(_) => EventKind::GroupMute,
            QEvent::GroupLeave(_) => EventKind::GroupLeave,
            QEvent::GroupNameUpdate(_) => EventKind::GroupNameUpdate,
            QEvent::GroupMessageRecall(_) => EventKind::GroupMessageRecall,
            QEvent::FriendMessageRecall(_) => EventKind::FriendMessageRecall,
        }
    }
}

} // verus!
