//! Conversations: where a message came from, what it says, and the
//! requests by which a handler answers its sender.

use std::time::Duration;
use vstd::prelude::*;

use crate::message_chain::{render, text_chain, ElementView, MessageChain, Text};

verus! {

/// Where a message came from, and so where an answer to it goes.
#[derive(Clone, Copy, Debug, PartialEq, Eq)]
pub enum MessageTarget {
    /// A group conversation: the group's code, then the sender.
    Group(i64, i64),
    /// A one-to-one conversation with the sender.
    Private(i64),
    /// A temporary conversation: the group it was opened from, where
    /// known, then the sender.
    Temp(Option<i64>, i64),
}

/// An operation on a conversation that not every kind of conversation has.
#[derive(Clone, Copy, Debug, PartialEq, Eq)]
pub enum SourceOperation {
    UploadImage,
    SendAudio,
}

/// Why no request could be made for an operation on a conversation.
#[derive(Clone, Copy, Debug, PartialEq, Eq)]
pub enum SourceError {
    /// Temporary conversations carry neither images nor audio.
    UnsupportedOperation(SourceOperation),
}

/// What a handler asks of the client. The embedding program performs it.
#[derive(Debug, PartialEq, Eq)]
pub enum ClientRequest {
    /// Send the chain to the target.
    SendMessage { target: MessageTarget, message: MessageChain },
    /// Upload an image so that it can be shown in the group.
    UploadGroupImage { group_code: i64, data: Vec<u8> },
    /// Upload an image so that it can be shown to the friend.
    UploadFriendImage { uin: i64, data: Vec<u8> },
    /// Upload an audio clip for the group, and send it there.
    SendGroupAudio { group_code: i64, data: Vec<u8>, codec: u32 },
    /// Upload an audio clip for the friend, and send it there.
    SendFriendAudio { uin: i64, data: Vec<u8>, audio_duration: Duration },
    /// Look the group up, loading it anew if asked and not yet known.
    FindGroup { group_code: i64, auto_reload: bool },
    /// Tell the bot's own account number.
    BotUin,
}

/// A message received in a group.
#[derive(Clone, Debug, PartialEq, Eq)]
pub struct GroupMessage {
    pub group_code: i64,
    pub from_uin: i64,
    pub elements: MessageChain,
}

/// A message received from a friend.
#[derive(Clone, Debug, PartialEq, Eq)]
pub struct FriendMessage {
    pub from_uin: i64,
    pub elements: MessageChain,
}

/// A message received in a temporary conversation.
#[derive(Clone, Debug, PartialEq, Eq)]
pub struct TempMessage {
    pub group_code: Option<i64>,
    pub from_uin: i64,
    pub elements: MessageChain,
}

/// The arrival of a group message.
#[derive(Clone, Debug, PartialEq, Eq)]
pub struct GroupMessageEvent {
    pub message: GroupMessage,
}

/// The arrival of a message from a friend.
#[derive(Clone, Debug, PartialEq, Eq)]
pub struct PrivateMessageEvent {
    pub message: FriendMessage,
}

/// The arrival of a message in a temporary conversation.
#[derive(Clone, Debug, PartialEq, Eq)]
pub struct TempMessageEvent {
    pub message: TempMessage,
}

/// A message event of any of the three conversation kinds.
#[derive(Clone, Copy, Debug, PartialEq, Eq)]
pub enum MessageEvent<'a> {
    GroupMessage(&'a GroupMessageEvent),
    PrivateMessage(&'a PrivateMessageEvent),
    TempMessage(&'a TempMessageEvent),
}

/// The request that uploads an image for the conversation at `target`.
/// A temporary conversation has none.
pub open spec fn image_request(target: MessageTarget, data: Vec<u8>) -> Result<
    ClientRequest,
    SourceError,
> {
    match target {
        MessageTarget::Group(group_code, _) => Ok(
            ClientRequest::UploadGroupImage { group_code, data },
        ),
        MessageTarget::Private(uin) => Ok(ClientRequest::UploadFriendImage { uin, data }),
        MessageTarget::Temp(_, _) => Err(
            SourceError::UnsupportedOperation(SourceOperation::UploadImage),
        ),
    }
}

/// The request that sends an audio clip to the conversation at `target`.
/// A group takes the codec and has no use for the duration; a friend
/// takes the duration and has no use for the codec; a temporary
/// conversation has no such request.
pub open spec fn audio_request(
    target: MessageTarget,
    data: Vec<u8>,
    codec: u32,
    audio_duration: Duration,
) -> Result<ClientRequest, SourceError> {
    match target {
        MessageTarget::Group(group_code, _) => Ok(
            ClientRequest::SendGroupAudio { group_code, data, codec },
        ),
        MessageTarget::Private(uin) => Ok(
            ClientRequest::SendFriendAudio { uin, data, audio_duration },
        ),
        MessageTarget::Temp(_, _) => Err(
            SourceError::UnsupportedOperation(SourceOperation::SendAudio),
        ),
    }
}

impl SourceError {
    /// The operation that was asked for.
    pub open spec fn operation(self) -> SourceOperation {
        match self {
            SourceError::UnsupportedOperation(operation) => operation,
        }
    }

    /// The words the failure is reported with, as characters.
    pub open spec fn message_spec(self) -> Seq<char> {
        match self.operation() {
            SourceOperation::UploadImage => "tmp message not supported upload image"@,
            SourceOperation::SendAudio => "tmp message not supported upload audio"@,
        }
    }

    /// The words the failure is reported with.
    pub fn message(&self) -> (s: String)
        ensures
            s@ == self.message_spec(),
    {
        match self {
            SourceError::UnsupportedOperation(SourceOperation::UploadImage) => String::from_str(
                "tmp message not supported upload image",
            ),
            SourceError::UnsupportedOperation(SourceOperation::SendAudio) => String::from_str(
                "tmp message not supported upload audio",
            ),
        }
    }
}

/// Anything that knows where it came from.
pub trait MessageTargetTrait: Send + Sync {
    spec fn target_spec(&self) -> MessageTarget;

    fn target(&self) -> (t: MessageTarget)
        ensures
            t == self.target_spec(),
    ;
}

/// Anything that has a message body, which can be shown as text.
pub trait MessageContentTrait: Send + Sync {
    spec fn content_spec(&self) -> Seq<char>;

    fn message_content(&self) -> (s: String)
        ensures
            s@ == self.content_spec(),
    ;
}

/// The requests that reach the client through an event. None of them
/// looks at the event itself.
pub trait ClientTrait {
    /// The request that sends `message` to wherever `source` came from.
    fn send_message_to_target<T: MessageTargetTrait>(&self, source: &T, message: MessageChain) -> (r:
        ClientRequest)
        ensures
            r == (ClientRequest::SendMessage { target: source.target_spec(), message }),
    {
        ClientRequest::SendMessage { target: source.target(), message }
    }

    /// The request that looks a group up.
    fn must_find_group(&self, group_code: i64, auto_reload: bool) -> (r: ClientRequest)
        ensures
            r == (ClientRequest::FindGroup { group_code, auto_reload }),
    {
        ClientRequest::FindGroup { group_code, auto_reload }
    }

    /// The request that asks for the bot's own account number.
    fn bot_uin(&self) -> (r: ClientRequest)
        ensures
            r == ClientRequest::BotUin,
    {
        ClientRequest::BotUin
    }
}

/// The requests that answer the sender of a message.
pub trait MessageSendToSourceTrait: MessageTargetTrait + ClientTrait {
    /// The request that sends `message` back to where this came from.
    fn send_message_to_source(&self, message: MessageChain) -> (r: ClientRequest)
        ensures
            r == (ClientRequest::SendMessage { target: self.target_spec(), message }),
    ;

    /// The request that uploads an image for this conversation, or the
    /// reason why there is none.
    fn upload_image_to_source(&self, data: Vec<u8>) -> (r: Result<ClientRequest, SourceError>)
        ensures
            r == image_request(self.target_spec(), data),
    ;

    /// The request that sends an audio clip to this conversation, or the
    /// reason why there is none.
    fn send_audio_to_source(&self, data: Vec<u8>, codec: u32, audio_duration: Duration) -> (r:
        Result<ClientRequest, SourceError>)
        ensures
            r == audio_request(self.target_spec(), data, codec, audio_duration),
    ;
}

/// Strings that turn into a text element.
pub trait TextEleParseTrait: Sized {
    spec fn text_spec(self) -> Seq<char>;

    fn parse_text(self) -> (text: Text)
        ensures
            text@ == self.text_spec(),
    ;
}

/// Values that turn into a message body.
pub trait MessageChainParseTrait: Sized {
    spec fn chain_spec(self) -> Seq<ElementView>;

    fn parse_message_chain(self) -> (chain: MessageChain)
        ensures
            chain@ == self.chain_spec(),
    ;
}

impl MessageContentTrait for MessageChain {
    open spec fn content_spec(&self) -> Seq<char> {
        render(self@)
    }

    fn message_content(&self) -> (s: String) {
        self.to_string()
    }
}

impl MessageTargetTrait for GroupMessage {
    open spec fn target_spec(&self) -> MessageTarget {
        MessageTarget::Group(self.group_code, self.from_uin)
    }

    fn target(&self) -> (t: MessageTarget) {
        MessageTarget::Group(self.group_code, self.from_uin)
    }
}

impl MessageContentTrait for GroupMessage {
    open spec fn content_spec(&self) -> Seq<char> {
        render(self.elements@)
    }

    fn message_content(&self) -> (s: String) {
        self.elements.message_content()
    }
}

impl MessageTargetTrait for GroupMessageEvent {
    open spec fn target_spec(&self) -> MessageTarget {
        self.message.target_spec()
    }

    fn target(&self) -> (t: MessageTarget) {
        self.message.target()
    }
}

impl MessageContentTrait for GroupMessageEvent {
    open spec fn content_spec(&self) -> Seq<char> {
        self.message.content_spec()
    }

    fn message_content(&self) -> (s: String) {
        self.message.message_content()
    }
}

impl ClientTrait for GroupMessageEvent {

}

impl MessageSendToSourceTrait for GroupMessageEvent {
    fn send_message_to_source(&self, message: MessageChain) -> (r: ClientRequest) {
        self.send_message_to_target(self, message)
    }

    fn upload_image_to_source(&self, data: Vec<u8>) -> (r: Result<ClientRequest, SourceError>) {
        Ok(ClientRequest::UploadGroupImage { group_code: self.message.group_code, data })
    }

    fn send_audio_to_source(&self, data: Vec<u8>, codec: u32, _audio_duration: Duration) -> (r:
        Result<ClientRequest, SourceError>) {
        Ok(ClientRequest::SendGroupAudio { group_code: self.message.group_code, data, codec })
    }
}

impl MessageTargetTrait for FriendMessage {
    open spec fn target_spec(&self) -> MessageTarget {
        MessageTarget::Private(self.from_uin)
    }

    fn target(&self) -> (t: MessageTarget) {
        MessageTarget::Private(self.from_uin)
    }
}

impl MessageContentTrait for FriendMessage {
    open spec fn content_spec(&self) -> Seq<char> {
        render(self.elements@)
    }

    fn message_content(&self) -> (s: String) {
        self.elements.to_string()
    }
}

impl MessageTargetTrait for PrivateMessageEvent {
    open spec fn target_spec(&self) -> MessageTarget {
        self.message.target_spec()
    }

    fn target(&self) -> (t: MessageTarget) {
        self.message.target()
    }
}

impl MessageContentTrait for PrivateMessageEvent {
    open spec fn content_spec(&self) -> Seq<char> {
        self.message.content_spec()
    }

    fn message_content(&self) -> (s: String) {
        self.message.message_content()
    }
}

impl ClientTrait for PrivateMessageEvent {

}

impl MessageSendToSourceTrait for PrivateMessageEvent {
    fn send_message_to_source(&self, message: MessageChain) -> (r: ClientRequest) {
        self.send_message_to_target(self, message)
    }

    fn upload_image_to_source(&self, data: Vec<u8>) -> (r: Result<ClientRequest, SourceError>) {
        Ok(ClientRequest::UploadFriendImage { uin: self.message.from_uin, data })
    }

    fn send_audio_to_source(&self, data: Vec<u8>, _codec: u32, audio_duration: Duration) -> (r:
        Result<ClientRequest, SourceError>) {
        Ok(ClientRequest::SendFriendAudio { uin: self.message.from_uin, data, audio_duration })
    }
}

impl MessageTargetTrait for TempMessage {
    open spec fn target_spec(&self) -> MessageTarget {
        MessageTarget::Temp(self.group_code, self.from_uin)
    }

    fn target(&self) -> (t: MessageTarget) {
        MessageTarget::Temp(self.group_code, self.from_uin)
    }
}

impl MessageContentTrait for TempMessage {
    open spec fn content_spec(&self) -> Seq<char> {
        render(self.elements@)
    }

    fn message_content(&self) -> (s: String) {
        self.elements.to_string()
    }
}

impl MessageTargetTrait for TempMessageEvent {
    open spec fn target_spec(&self) -> MessageTarget {
        self.message.target_spec()
    }

    fn target(&self) -> (t: MessageTarget) {
        self.message.target()
    }
}

impl MessageContentTrait for TempMessageEvent {
    open spec fn content_spec(&self) -> Seq<char> {
        self.message.content_spec()
    }

    fn message_content(&self) -> (s: String) {
        self.message.message_content()
    }
}

impl ClientTrait for TempMessageEvent {

}

impl MessageSendToSourceTrait for TempMessageEvent {
    fn send_message_to_source(&self, message: MessageChain) -> (r: ClientRequest) {
        self.send_message_to_target(self, message)
    }

    fn upload_image_to_source(&self, _data: Vec<u8>) -> (r: Result<ClientRequest, SourceError>) {
        Err(SourceError::UnsupportedOperation(SourceOperation::UploadImage))
    }

    fn send_audio_to_source(&self, _data: Vec<u8>, _codec: u32, _audio_duration: Duration) -> (r:
        Result<ClientRequest, SourceError>) {
        Err(SourceError::UnsupportedOperation(SourceOperation::SendAudio))
    }
}

impl MessageTargetTrait for MessageEvent<'_> {
    open spec fn target_spec(&self) -> MessageTarget {
        match self {
            MessageEvent::GroupMessage(event) => event.target_spec(),
            MessageEvent::PrivateMessage(event) => event.target_spec(),
            MessageEvent::TempMessage(event) => event.target_spec(),
        }
    }

    fn target(&self) -> (t: MessageTarget) {
        match self {
            MessageEvent::GroupMessage(event) => event.target(),
            MessageEvent::PrivateMessage(event) => event.target(),
            MessageEvent::TempMessage(event) => event.target(),
        }
    }
}

impl MessageContentTrait for MessageEvent<'_> {
    open spec fn content_spec(&self) -> Seq<char> {
        match self {
            MessageEvent::GroupMessage(event) => event.content_spec(),
            MessageEvent::PrivateMessage(event) => event.content_spec(),
            MessageEvent::TempMessage(event) => event.content_spec(),
        }
    }

    fn message_content(&self) -> (s: String) {
        match self {
            MessageEvent::GroupMessage(event) => event.message_content(),
            MessageEvent::PrivateMessage(event) => event.message_content(),
            MessageEvent::TempMessage(event) => event.message_content(),
        }
    }
}

impl ClientTrait for MessageEvent<'_> {

}

impl MessageSendToSourceTrait for MessageEvent<'_> {
    fn send_message_to_source(&self, message: MessageChain) -> (r: ClientRequest) {
        match self {
            MessageEvent::GroupMessage(event) => event.send_message_to_source(message),
            MessageEvent::PrivateMessage(event) => event.send_message_to_source(message),
            MessageEvent::TempMessage(event) => event.send_message_to_source(message),
        }
    }

    fn upload_image_to_source(&self, data: Vec<u8>) -> (r: Result<ClientRequest, SourceError>) {
        match self {
            MessageEvent::GroupMessage(event) => event.upload_image_to_source(data),
            MessageEvent::PrivateMessage(event) => event.upload_image_to_source(data),
            MessageEvent::TempMessage(event) => event.upload_image_to_source(data),
        }
    }

    fn send_audio_to_source(&self, data: Vec<u8>, codec: u32, audio_duration: Duration) -> (r:
        Result<ClientRequest, SourceError>) {
        match self {
            MessageEvent::GroupMessage(event) => {
                event.send_audio_to_source(data, codec, audio_duration)
            },
            MessageEvent::PrivateMessage(event) => {
                event.send_audio_to_source(data, codec, audio_duration)
            },
            MessageEvent::TempMessage(event) => {
                event.send_audio_to_source(data, codec, audio_duration)
            },
        }
    }
}

impl TextEleParseTrait for String {
    open spec fn text_spec(self) -> Seq<char> {
        self@
    }

    fn parse_text(self) -> (text: Text) {
        Text::new(self)
    }
}

impl TextEleParseTrait for &str {
    open spec fn text_spec(self) -> Seq<char> {
        self@
    }

    fn parse_text(self) -> (text: Text) {
        Text::new(self.to_owned())
    }
}

impl MessageChainParseTrait for String {
    open spec fn chain_spec(self) -> Seq<ElementView> {
        text_chain(self@)
    }

    fn parse_message_chain(self) -> (chain: MessageChain) {
        MessageChain::new(self.parse_text())
    }
}

impl MessageChainParseTrait for &str {
    open spec fn chain_spec(self) -> Seq<ElementView> {
        text_chain(self@)
    }

    fn parse_message_chain(self) -> (chain: MessageChain) {
        MessageChain::new(self.parse_text())
    }
}

/// A temporary conversation never yields a request to upload an image or
/// to send audio: both are refused as unsupported, whatever is handed in.
pub proof fn law_temp_refuses_uploads(
    target: MessageTarget,
    data: Vec<u8>,
    codec: u32,
    audio_duration: Duration,
)
    requires
        target is Temp,
    ensures
        image_request(target, data) == Err::<ClientRequest, SourceError>(
            SourceError::UnsupportedOperation(SourceOperation::UploadImage),
        ),
        audio_request(target, data, codec, audio_duration) == Err::<ClientRequest, SourceError>(
            SourceError::UnsupportedOperation(SourceOperation::SendAudio),
        ),
{
}

} // verus!
