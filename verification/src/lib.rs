//! Event dispatch and conversation handling for a chat bot.
//!
//! An incoming event is offered, in registration order, to the handlers of
//! the registered modules that accept its kind; the first handler that
//! claims the event, or fails on it, ends the walk. Message events of
//! the three conversation kinds share one set of operations, so that a
//! handler can answer "whoever sent this" without telling them apart.
//! Nothing here talks to the network: an operation on a conversation
//! yields the request that the embedding program puts to its client.

pub mod client_handler;
pub mod event;
pub mod message_chain;
pub mod message_trait;
pub mod walk;

pub use message_chain::{ElementView, MessageChain, MessageElement, Text};
pub use message_trait::{
    ClientRequest, ClientTrait, FriendMessage, GroupMessage, GroupMessageEvent,
    MessageChainParseTrait, MessageContentTrait, MessageEvent, MessageSendToSourceTrait,
    MessageTarget, MessageTargetTrait, PrivateMessageEvent, SourceError, SourceOperation,
    TempMessage, TempMessageEvent, TextEleParseTrait,
};
pub use event::{
    DeleteFriendEvent, EventKind, FriendMessageRecallEvent, FriendPokeEvent, FriendRequestEvent,
    GroupLeaveEvent, GroupMessageRecallEvent, GroupMuteEvent, GroupNameUpdateEvent,
    GroupRequestEvent, NewFriendEvent, QEvent,
};
pub use walk::{HandlerReply, HandlerView, ModuleView, OutcomeView};
pub use client_handler::{
    Claim, Claimed, ClientHandler, DeleteFriendEventProcess, DispatchOutcome,
    FriendMessageRecallEventProcess, FriendPokeEventProcess, FriendRequestEventProcess,
    GroupLeaveEventProcess, GroupMessageEventProcess, GroupMessageRecallEventProcess,
    GroupMuteEventProcess, GroupNameUpdateEventProcess, GroupRequestEventProcess, HandlerError,
    MessageEventProcess, Module, ModuleEventHandler, ModuleEventProcess, NewFriendEventProcess,
    PrivateMessageEventProcess, TempMessageEventProcess,
};
