use std::time::Duration;

use proc_qq::{
    ClientRequest, ClientTrait, FriendMessage, GroupMessage, GroupMessageEvent,
    MessageChain, MessageChainParseTrait, MessageContentTrait, MessageElement, MessageEvent,
    MessageSendToSourceTrait, MessageTarget, MessageTargetTrait, PrivateMessageEvent,
    SourceError, SourceOperation, TempMessage, TempMessageEvent, Text, TextEleParseTrait,
};

fn group_event() -> GroupMessageEvent {
    GroupMessageEvent {
        message: GroupMessage {
            group_code: 100,
            from_uin: 200,
            elements: "to the group".parse_message_chain(),
        },
    }
}

fn private_event() -> PrivateMessageEvent {
    PrivateMessageEvent {
        message: FriendMessage { from_uin: 200, elements: "to you".parse_message_chain() },
    }
}

fn temp_event(group_code: Option<i64>) -> TempMessageEvent {
    TempMessageEvent {
        message: TempMessage {
            group_code,
            from_uin: 300,
            elements: "in passing".parse_message_chain(),
        },
    }
}

fn unsupported(operation: SourceOperation) -> Result<ClientRequest, SourceError> {
    Err(SourceError::UnsupportedOperation(operation))
}

#[test]
fn group_message_target_is_group_and_sender() {
    assert_eq!(group_event().target(), MessageTarget::Group(100, 200));
    assert_eq!(group_event().message.target(), MessageTarget::Group(100, 200));
}

#[test]
fn temp_message_target_keeps_a_missing_group() {
    assert_eq!(temp_event(None).target(), MessageTarget::Temp(None, 300));
    assert_eq!(temp_event(Some(7)).target(), MessageTarget::Temp(Some(7), 300));
    assert_eq!(temp_event(None).message.target(), MessageTarget::Temp(None, 300));
}

#[test]
fn private_message_target_is_the_sender() {
    assert_eq!(private_event().target(), MessageTarget::Private(200));
    assert_eq!(private_event().message.target(), MessageTarget::Private(200));
}

#[test]
fn union_target_is_that_of_the_wrapped_event() {
    let (g, p, t) = (group_event(), private_event(), temp_event(None));
    assert_eq!(MessageEvent::GroupMessage(&g).target(), MessageTarget::Group(100, 200));
    assert_eq!(MessageEvent::PrivateMessage(&p).target(), MessageTarget::Private(200));
    assert_eq!(MessageEvent::TempMessage(&t).target(), MessageTarget::Temp(None, 300));
}

#[test]
fn content_is_the_text_of_the_body() {
    assert_eq!(group_event().message_content(), "to the group");
    assert_eq!(group_event().message.message_content(), "to the group");
    assert_eq!(private_event().message_content(), "to you");
    assert_eq!(private_event().message.message_content(), "to you");
    assert_eq!(temp_event(None).message_content(), "in passing");
    assert_eq!(temp_event(None).message.message_content(), "in passing");
    let (g, p, t) = (group_event(), private_event(), temp_event(None));
    assert_eq!(MessageEvent::GroupMessage(&g).message_content(), "to the group");
    assert_eq!(MessageEvent::PrivateMessage(&p).message_content(), "to you");
    assert_eq!(MessageEvent::TempMessage(&t).message_content(), "in passing");
}

#[test]
fn string_to_chain_and_back_is_the_string() {
    for s in ["", "hello", " spaced  out ", "multi\nline\ttext", "数字 ✓ émoji 🙂", "[brackets]"] {
        assert_eq!(s.parse_message_chain().message_content(), s);
        assert_eq!(s.to_owned().parse_message_chain().message_content(), s);
        assert_eq!(s.parse_message_chain().to_string(), s);
    }
}

#[test]
fn string_becomes_a_chain_of_one_text_element() {
    let chain = "hello".parse_message_chain();
    assert_eq!(
        chain.elements,
        vec![MessageElement::Text(Text { content: "hello".to_owned() })]
    );
    assert_eq!("hello".to_owned().parse_message_chain(), chain);
    assert_eq!(MessageChain::new(Text::new("hello".to_owned())), chain);
    assert_eq!("".parse_message_chain().elements.len(), 1);
}

#[test]
fn parse_text_keeps_the_string() {
    assert_eq!("abc".parse_text(), Text { content: "abc".to_owned() });
    assert_eq!("abc".to_owned().parse_text(), Text { content: "abc".to_owned() });
    assert_eq!("".parse_text().content, "");
}

#[test]
fn chain_shows_its_elements_in_order() {
    let mut chain = MessageChain::empty();
    assert_eq!(chain.to_string(), "");
    assert!(chain.elements.is_empty());
    chain.push(MessageElement::Text("see ".parse_text()));
    chain.push(MessageElement::Other("[image]".to_owned()));
    chain.push(MessageElement::Text(" above".parse_text()));
    assert_eq!(chain.elements.len(), 3);
    assert_eq!(chain.to_string(), "see [image] above");
    assert_eq!(chain.message_content(), "see [image] above");
    assert_eq!(MessageElement::Other("[face]".to_owned()).as_str(), "[face]");
    assert_eq!(MessageElement::Text("t".parse_text()).as_str(), "t");
}

#[test]
fn reply_goes_to_where_the_message_came_from() {
    let chain = "pong".parse_message_chain();
    assert_eq!(
        group_event().send_message_to_source(chain.clone()),
        ClientRequest::SendMessage { target: MessageTarget::Group(100, 200), message: chain.clone() }
    );
    assert_eq!(
        private_event().send_message_to_source(chain.clone()),
        ClientRequest::SendMessage { target: MessageTarget::Private(200), message: chain.clone() }
    );
    assert_eq!(
        temp_event(None).send_message_to_source(chain.clone()),
        ClientRequest::SendMessage { target: MessageTarget::Temp(None, 300), message: chain.clone() }
    );
    let t = temp_event(Some(9));
    assert_eq!(
        MessageEvent::TempMessage(&t).send_message_to_source(chain.clone()),
        ClientRequest::SendMessage { target: MessageTarget::Temp(Some(9), 300), message: chain }
    );
}

#[test]
fn message_to_another_target_goes_there() {
    let chain = "psst".parse_message_chain();
    let elsewhere = private_event();
    assert_eq!(
        group_event().send_message_to_target(&elsewhere, chain.clone()),
        ClientRequest::SendMessage { target: MessageTarget::Private(200), message: chain.clone() }
    );
    let g = group_event();
    assert_eq!(
        MessageEvent::GroupMessage(&g).send_message_to_target(&temp_event(None), chain.clone()),
        ClientRequest::SendMessage { target: MessageTarget::Temp(None, 300), message: chain }
    );
}

#[test]
fn group_lookup_and_bot_identity_requests() {
    assert_eq!(
        group_event().must_find_group(42, true),
        ClientRequest::FindGroup { group_code: 42, auto_reload: true }
    );
    assert_eq!(
        private_event().must_find_group(42, false),
        ClientRequest::FindGroup { group_code: 42, auto_reload: false }
    );
    assert_eq!(temp_event(None).bot_uin(), ClientRequest::BotUin);
    let p = private_event();
    assert_eq!(MessageEvent::PrivateMessage(&p).bot_uin(), ClientRequest::BotUin);
    assert_eq!(
        MessageEvent::PrivateMessage(&p).must_find_group(-1, true),
        ClientRequest::FindGroup { group_code: -1, auto_reload: true }
    );
}

#[test]
fn group_image_goes_by_the_group_path() {
    assert_eq!(
        group_event().upload_image_to_source(vec![1, 2, 3]),
        Ok(ClientRequest::UploadGroupImage { group_code: 100, data: vec![1, 2, 3] })
    );
    let g = group_event();
    assert_eq!(
        MessageEvent::GroupMessage(&g).upload_image_to_source(Vec::new()),
        Ok(ClientRequest::UploadGroupImage { group_code: 100, data: Vec::new() })
    );
}

#[test]
fn private_image_goes_by_the_friend_path() {
    assert_eq!(
        private_event().upload_image_to_source(vec![1, 2, 3]),
        Ok(ClientRequest::UploadFriendImage { uin: 200, data: vec![1, 2, 3] })
    );
    let p = private_event();
    assert_eq!(
        MessageEvent::PrivateMessage(&p).upload_image_to_source(vec![9]),
        Ok(ClientRequest::UploadFriendImage { uin: 200, data: vec![9] })
    );
}

#[test]
fn group_audio_drops_the_duration() {
    for duration in [Duration::ZERO, Duration::from_secs(5), Duration::from_millis(1500)] {
        assert_eq!(
            group_event().send_audio_to_source(vec![7, 8], 1, duration),
            Ok(ClientRequest::SendGroupAudio { group_code: 100, data: vec![7, 8], codec: 1 })
        );
    }
    let g = group_event();
    assert_eq!(
        MessageEvent::GroupMessage(&g).send_audio_to_source(vec![7], 0, Duration::from_secs(1)),
        Ok(ClientRequest::SendGroupAudio { group_code: 100, data: vec![7], codec: 0 })
    );
}

#[test]
fn private_audio_drops_the_codec() {
    for codec in [0, 1, u32::MAX] {
        assert_eq!(
            private_event().send_audio_to_source(vec![7, 8], codec, Duration::from_millis(1500)),
            Ok(ClientRequest::SendFriendAudio {
                uin: 200,
                data: vec![7, 8],
                audio_duration: Duration::from_millis(1500),
            })
        );
    }
    let p = private_event();
    assert_eq!(
        MessageEvent::PrivateMessage(&p).send_audio_to_source(vec![7], 4, Duration::ZERO),
        Ok(ClientRequest::SendFriendAudio { uin: 200, data: vec![7], audio_duration: Duration::ZERO })
    );
}

#[test]
fn temp_conversation_refuses_images_and_audio() {
    for group_code in [None, Some(100)] {
        let t = temp_event(group_code);
        assert_eq!(
            t.upload_image_to_source(vec![1, 2, 3]),
            unsupported(SourceOperation::UploadImage)
        );
        assert_eq!(t.upload_image_to_source(Vec::new()), unsupported(SourceOperation::UploadImage));
        assert_eq!(
            t.send_audio_to_source(vec![1], 1, Duration::from_secs(3)),
            unsupported(SourceOperation::SendAudio)
        );
        assert_eq!(
            MessageEvent::TempMessage(&t).upload_image_to_source(vec![1]),
            unsupported(SourceOperation::UploadImage)
        );
        assert_eq!(
            MessageEvent::TempMessage(&t).send_audio_to_source(vec![1], 0, Duration::ZERO),
            unsupported(SourceOperation::SendAudio)
        );
    }
}

#[test]
fn unsupported_operation_says_what_was_asked() {
    assert_eq!(
        SourceError::UnsupportedOperation(SourceOperation::UploadImage).message(),
        "tmp message not supported upload image"
    );
    assert_eq!(
        SourceError::UnsupportedOperation(SourceOperation::SendAudio).message(),
        "tmp message not supported upload audio"
    );
}
