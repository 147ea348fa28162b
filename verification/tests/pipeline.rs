use porter::common::{ChatType, Endpoint, Platform};
use porter::onebot::protocol::segment::Segment;
use porter::telegram::bridge::{Bridge, UploadedInfo};
use porter::telegram::from_onebot::{
    build_send_plan, meta_notice_text, plan_recall, recall_reply_text, render_segment,
    resolve_route, send_as_document, should_deliver, RecallPlan, RenderState, Route, RouteTarget,
    SegmentInput, SendPlan, TgMsgType,
};
use porter::telegram::from_telegram::{classify_document, resolve_outbound_target, DocPlan, OutboundTarget};
use porter::telegram::telegram_helper::{ReplyHeader, TgDocumentInfo};

fn qq() -> Endpoint {
    Endpoint {
        platform: Platform::QQ,
        id: "10001".to_string(),
    }
}

fn upload(size: usize, width: u32, height: u32) -> UploadedInfo {
    UploadedInfo {
        handle: 1,
        file_name: "f.jpg".to_string(),
        file_size: size,
        mime_type: "image/jpeg".to_string(),
        width,
        height,
    }
}

#[test]
fn redelivery_is_skipped() {
    let mut b = Bridge::new(777);
    let chat_id = b.insert_remote_chat(&qq(), ChatType::Private, "42".to_string(), "A".to_string(), 1);
    assert!(should_deliver(&b, chat_id, "m1"));
    b.save_message_by_remote(chat_id, &"m1".to_string(), -1, 1, "hi".to_string(), 2)
        .unwrap();
    assert!(!should_deliver(&b, chat_id, "m1"));
    assert!(should_deliver(&b, chat_id, "m2"));
}

#[test]
fn oversized_images_become_documents() {
    assert!(!send_as_document(10 * 1024 * 1024, 100, 100));
    assert!(send_as_document(10 * 1024 * 1024 + 1, 100, 100));
    assert!(send_as_document(5, 2561, 100));
    assert!(send_as_document(5, 100, 2561));
    assert!(!send_as_document(5, 2560, 2560));
}

#[test]
fn gif_documents_split_on_size() {
    let gif = TgDocumentInfo {
        voice: false,
        video: false,
        has_image_size_attr: false,
        has_video_attr: true,
        mime_type: Some("video/mp4".to_string()),
    };
    assert_eq!(classify_document(&gif, 100 * 1024 + 1), DocPlan::GifAsVideo);
    assert_eq!(classify_document(&gif, 100 * 1024), DocPlan::GifTranscode);

    let voice = TgDocumentInfo {
        voice: true,
        video: false,
        has_image_size_attr: false,
        has_video_attr: false,
        mime_type: None,
    };
    assert_eq!(classify_document(&voice, 10), DocPlan::Voice);
}

#[test]
fn new_private_chat_routes_to_admin() {
    let mut b = Bridge::new(777);
    let chat_id = b.insert_remote_chat(&qq(), ChatType::Private, "42".to_string(), "A".to_string(), 1);

    let route = resolve_route(
        &b,
        &qq(),
        chat_id,
        ChatType::Private,
        &"A".to_string(),
        &"A".to_string(),
    );
    match &route.target {
        RouteTarget::AdminDm { tg_chat_id } => assert_eq!(*tg_chat_id, 777),
        other => panic!("expected the admin chat, got {:?}", other),
    }
    assert_eq!(route.title, "👤 A:");

    // Rendering the one text segment and sending as text yields the
    // captioned message.
    let mut state = RenderState::start(route.reply_to);
    let seg = Segment::Text(Segment::text("hi".to_string()));
    render_segment(&mut state, Platform::QQ, &seg, SegmentInput::Nothing);
    let plan = build_send_plan(state, route.title, 1);
    match plan {
        SendPlan::Text { text, reply_to } => {
            assert_eq!(text, "👤 A:\nhi");
            assert_eq!(reply_to, None);
        }
        other => panic!("expected a text send, got {:?}", other),
    }
    b.save_message_by_remote(chat_id, &"7".to_string(), 777, 1, "hi".to_string(), 2)
        .unwrap();
    assert!(b.find_message_by_remote(chat_id, "7").is_some());
}

#[test]
fn linked_chats_win_over_everything() {
    let mut b = Bridge::new(777);
    let chat_id = b.insert_remote_chat(&qq(), ChatType::Group, "gid".to_string(), "G".to_string(), 1);
    b.create_archive(&qq(), -1002, 1).unwrap();
    b.create_link(40, -1001, chat_id, 1).unwrap();

    let route = resolve_route(
        &b,
        &qq(),
        chat_id,
        ChatType::Group,
        &"G".to_string(),
        &"X".to_string(),
    );
    match &route.target {
        RouteTarget::Linked { tg_chat_id, .. } => assert_eq!(*tg_chat_id, -1001),
        other => panic!("expected the linked chat, got {:?}", other),
    }
    assert_eq!(route.title, "X:");
    assert_eq!(route.reply_to, None);

    let mut state = RenderState::start(route.reply_to);
    let seg = Segment::Text(Segment::text("yo".to_string()));
    render_segment(&mut state, Platform::QQ, &seg, SegmentInput::Nothing);
    let plan = build_send_plan(state, route.title, 1);
    match plan {
        SendPlan::Text { text, .. } => assert_eq!(text, "X:\nyo"),
        other => panic!("expected a text send, got {:?}", other),
    }
}

#[test]
fn archives_need_a_topic_first() {
    let mut b = Bridge::new(777);
    let chat_id = b.insert_remote_chat(&qq(), ChatType::Group, "gid".to_string(), "G".to_string(), 1);
    let archive_id = b.create_archive(&qq(), -1002, 1).unwrap();

    let route = resolve_route(
        &b,
        &qq(),
        chat_id,
        ChatType::Group,
        &"G".to_string(),
        &"sender".to_string(),
    );
    match &route.target {
        RouteTarget::NeedsTopic {
            tg_chat_id,
            archive_id: found,
            topic_title,
        } => {
            assert_eq!(*tg_chat_id, -1002);
            assert_eq!(*found, archive_id);
            assert_eq!(topic_title, "👥 G");
        }
        other => panic!("expected a topic creation, got {:?}", other),
    }

    // Once the topic is recorded the route goes under it.
    b.create_topic(archive_id, 31, chat_id, 2).unwrap();
    let route = resolve_route(
        &b,
        &qq(),
        chat_id,
        ChatType::Group,
        &"G".to_string(),
        &"sender".to_string(),
    );
    match &route.target {
        RouteTarget::Archived {
            tg_chat_id,
            tg_topic_id,
        } => {
            assert_eq!(*tg_chat_id, -1002);
            assert_eq!(*tg_topic_id, 31);
        }
        other => panic!("expected the archived topic, got {:?}", other),
    }
    assert_eq!(route.reply_to, Some(31));
    assert_eq!(route.title, "sender:");
}

#[test]
fn rendering_collects_media_and_types() {
    let mut state = RenderState::start(None);
    let text = Segment::Text(Segment::text("a".to_string()));
    render_segment(&mut state, Platform::QQ, &text, SegmentInput::Nothing);
    let image = Segment::Image(Segment::image("f".to_string(), None, None, None, None));
    render_segment(
        &mut state,
        Platform::QQ,
        &image,
        SegmentInput::Uploaded(Ok(upload(5, 10, 10))),
    );
    assert_eq!(state.content, "a[图片]");
    assert_eq!(state.msg_type, TgMsgType::Photo);
    assert_eq!(state.media.len(), 1);

    // A failed upload keeps the message textual and says so.
    let mut state = RenderState::start(None);
    render_segment(&mut state, Platform::QQ, &image, SegmentInput::Uploaded(Err(())));
    assert_eq!(state.content, "[图片上传失败]");
    assert_eq!(state.msg_type, TgMsgType::Text);

    // An at-segment prefers the resolved member name.
    let mut state = RenderState::start(None);
    let at = Segment::At(Segment::at("9".to_string()));
    render_segment(
        &mut state,
        Platform::QQ,
        &at,
        SegmentInput::MemberName(Some("Nine".to_string())),
    );
    render_segment(&mut state, Platform::QQ, &at, SegmentInput::MemberName(None));
    assert_eq!(state.content, "@Nine@9");
}

#[test]
fn single_large_photo_goes_as_document() {
    let mut state = RenderState::start(None);
    let image = Segment::Image(Segment::image("f".to_string(), None, None, None, None));
    render_segment(
        &mut state,
        Platform::QQ,
        &image,
        SegmentInput::Uploaded(Ok(upload(11 * 1024 * 1024, 10, 10))),
    );
    let plan = build_send_plan(state, "T:".to_string(), 1);
    match plan {
        SendPlan::Photo {
            caption,
            as_document,
            ..
        } => {
            assert!(as_document);
            assert_eq!(caption, "T:");
        }
        other => panic!("expected a photo plan, got {:?}", other),
    }
}

#[test]
fn meta_notices_name_the_endpoint() {
    assert_eq!(
        meta_notice_text(&qq(), true),
        "<b>[INFO] qq:10001 connected</b>"
    );
    assert_eq!(
        meta_notice_text(&qq(), false),
        "<b>[INFO] qq:10001 disconnected</b>"
    );
}

#[test]
fn private_self_recalls_are_dropped() {
    let notice = porter::onebot::protocol::event::NoticeEvent::FriendRecall(
        porter::onebot::protocol::event::FriendRecallEvent {
            time: 1,
            self_id: "10001".to_string(),
            message_id: "m".to_string(),
            user_id: "10001".to_string(),
        },
    );
    assert!(matches!(plan_recall(&notice), RecallPlan::Ignore));

    let notice = porter::onebot::protocol::event::NoticeEvent::GroupRecall(
        porter::onebot::protocol::event::GroupRecallEvent {
            time: 1,
            self_id: "10001".to_string(),
            message_id: "m3".to_string(),
            user_id: "42".to_string(),
            group_id: "g".to_string(),
            operator_id: "42".to_string(),
        },
    );
    match plan_recall(&notice) {
        RecallPlan::Handle {
            chat_type,
            chat_target_id,
            message_id,
        } => {
            assert_eq!(chat_type, ChatType::Group);
            assert_eq!(chat_target_id, "g");
            assert_eq!(message_id, "m3");
        }
        other => panic!("expected handling, got {:?}", other),
    }
    assert_eq!(
        recall_reply_text(&"X:".to_string()),
        "X:\n<del>Recalled this message</del>"
    );
}

#[test]
fn routes_expose_reply_targets() {
    // A plain structural check that Route carries its pieces through.
    let route = Route {
        target: RouteTarget::AdminDm { tg_chat_id: 1 },
        reply_to: Some(4),
        title: "t".to_string(),
    };
    assert_eq!(route.reply_to, Some(4));
}

#[test]
fn outbound_updates_resolve_their_chat() {
    let mut b = Bridge::new(777);
    let chat_id = b.insert_remote_chat(&qq(), ChatType::Group, "gid".to_string(), "G".to_string(), 1);
    b.create_link(40, -1001, chat_id, 1).unwrap();
    b.save_message_by_remote(chat_id, &"m1".to_string(), -500, 9, "t".to_string(), 2)
        .unwrap();

    // A link on the chat wins.
    assert_eq!(
        resolve_outbound_target(&b, -1001, &None),
        OutboundTarget::Remote {
            remote_chat_id: chat_id
        }
    );
    // A plain reply resolves through the message mapping.
    let reply = Some(ReplyHeader {
        forum_topic: false,
        reply_to_top_id: None,
        reply_to_msg_id: Some(9),
    });
    assert_eq!(
        resolve_outbound_target(&b, -500, &reply),
        OutboundTarget::Remote {
            remote_chat_id: chat_id
        }
    );
    // Nothing maps a bare chat.
    assert_eq!(
        resolve_outbound_target(&b, -999, &None),
        OutboundTarget::Unmapped
    );
}

#[test]
fn forum_replies_resolve_through_topics() {
    let mut b = Bridge::new(777);
    let chat_id = b.insert_remote_chat(&qq(), ChatType::Group, "gid".to_string(), "G".to_string(), 1);
    let archive_id = b.create_archive(&qq(), -1002, 1).unwrap();
    b.create_topic(archive_id, 31, chat_id, 2).unwrap();

    // A reply inside the forum thread resolves through Archive+Topic.
    let reply = Some(ReplyHeader {
        forum_topic: true,
        reply_to_top_id: Some(31),
        reply_to_msg_id: Some(40),
    });
    assert_eq!(
        resolve_outbound_target(&b, -1002, &reply),
        OutboundTarget::Remote {
            remote_chat_id: chat_id
        }
    );
    // Without a top id, the replied-to message names the topic.
    let reply = Some(ReplyHeader {
        forum_topic: true,
        reply_to_top_id: None,
        reply_to_msg_id: Some(31),
    });
    assert_eq!(
        resolve_outbound_target(&b, -1002, &reply),
        OutboundTarget::Remote {
            remote_chat_id: chat_id
        }
    );
    // An unknown topic resolves nothing.
    let reply = Some(ReplyHeader {
        forum_topic: true,
        reply_to_top_id: Some(99),
        reply_to_msg_id: Some(40),
    });
    assert_eq!(
        resolve_outbound_target(&b, -1002, &reply),
        OutboundTarget::Unmapped
    );
}
