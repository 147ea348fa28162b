use porter::common::{ChatType, Endpoint, Platform};
use porter::telegram::bridge::{Bridge, CommandCallback};
use porter::telegram::command::{
    archive_advisory_text, archive_allowed, build_archive_list, build_link_list,
    build_link_page_row, build_search_view, callback_token, command_keyword,
    command_not_supported_text, help_text, link_advisory_text, link_allowed, page_count,
    plan_search, put_callback, route_command, search_advisory_text, search_allowed,
    search_scope_advisory_text, CommandKind, LinkListView, SearchAction,
};
use porter::telegram::from_telegram::{convert_failed_text, send_failed_text, unmapped_reply_text};
use porter::telegram::telegram_helper::{get_command, BotCommandEntity, TgChat};

#[test]
fn commands_route_by_name() {
    assert_eq!(route_command("/help"), CommandKind::Help);
    assert_eq!(route_command("/archive"), CommandKind::Archive);
    assert_eq!(route_command("/link"), CommandKind::Link);
    assert_eq!(route_command("/search"), CommandKind::Search);
    assert_eq!(route_command("/start"), CommandKind::Unknown);
}

#[test]
fn chat_classes_decide_what_is_allowed() {
    assert!(archive_allowed(&TgChat::Megagroup { forum: true }));
    assert!(!archive_allowed(&TgChat::Megagroup { forum: false }));
    assert!(!archive_allowed(&TgChat::BasicGroup));

    assert!(link_allowed(&TgChat::BasicGroup));
    assert!(link_allowed(&TgChat::Megagroup { forum: false }));
    assert!(!link_allowed(&TgChat::Megagroup { forum: true }));
    assert!(!link_allowed(&TgChat::User));

    assert!(search_allowed(&TgChat::Megagroup { forum: true }));
    assert!(search_allowed(&TgChat::Megagroup { forum: false }));
    assert!(!search_allowed(&TgChat::Broadcast));
}

#[test]
fn keywords_are_trimmed() {
    assert_eq!(command_keyword("/link  hello ", 5), "hello");
    assert_eq!(command_keyword("/search 你好", 7), "你好");
    assert_eq!(command_keyword("/link", 5), "");
    assert_eq!(command_keyword("/link", 9), "");
}

#[test]
fn command_entities_slice_the_text() {
    let entity = Some(BotCommandEntity {
        offset: 0,
        length: 5,
    });
    assert_eq!(get_command("/link abc", &entity).unwrap(), "/link");
    let too_long = Some(BotCommandEntity {
        offset: 4,
        length: 40,
    });
    assert!(get_command("/link abc", &too_long).is_none());
    assert!(get_command("/link", &None).is_none());
}

#[test]
fn empty_search_keywords_draw_an_advisory() {
    assert_eq!(plan_search(&String::new()), SearchAction::Advise);
    assert_eq!(plan_search(&"k".to_string()), SearchAction::Run);
    assert_eq!(search_advisory_text(), "<b>Please input a keyword</b>");
}

#[test]
fn full_pages_offer_a_next_button() {
    let mut b = Bridge::new(1);
    let lines: Vec<String> = (0..10).map(|i| format!("line{}\n", i)).collect();
    let view = build_search_view(&mut b, 0, &"kw".to_string(), &lines, 990);
    assert!(view.next.is_some());
    assert!(view.content.starts_with("line0"));
    assert_eq!(view.cancel.text, "Cancel");

    let shorter: Vec<String> = (0..9).map(|i| format!("line{}\n", i)).collect();
    let view = build_search_view(&mut b, 0, &"kw".to_string(), &shorter, 990);
    assert!(view.next.is_none());

    let empty: Vec<String> = Vec::new();
    let view = build_search_view(&mut b, 0, &"kw".to_string(), &empty, 0);
    assert_eq!(
        view.content,
        "<blockquote>Have reached the edge of the world.</blockquote>"
    );
    assert!(view.next.is_none());
}

#[test]
fn link_pages_hide_missing_directions() {
    let mut b = Bridge::new(1);
    let row = build_link_page_row(&mut b, 0, 3, &String::new(), &String::new());
    assert!(row.prev.is_none());
    assert!(row.next.is_some());
    assert_eq!(row.indicator.text, "1/3 | Cancel");

    let row = build_link_page_row(&mut b, 2, 3, &String::new(), &String::new());
    assert!(row.prev.is_some());
    assert!(row.next.is_none());
    assert_eq!(row.indicator.text, "3/3 | Cancel");

    let row = build_link_page_row(&mut b, 1, 3, &String::new(), &String::new());
    assert!(row.prev.is_some());
    assert!(row.next.is_some());
}

#[test]
fn page_counts_round_up() {
    assert_eq!(page_count(0), 0);
    assert_eq!(page_count(1), 1);
    assert_eq!(page_count(10), 1);
    assert_eq!(page_count(11), 2);
}

#[test]
fn callback_tokens_are_single_use() {
    let mut b = Bridge::new(1);
    let cb = CommandCallback::new("link", "create", 2, "kw".to_string(), "77".to_string());
    let token = put_callback(&mut b, &cb);
    assert_eq!(token, callback_token(&cb));

    let resolved = b.get_callback(&token).expect("stored once");
    assert_eq!(resolved.category, "link");
    assert_eq!(resolved.action, "create");
    assert_eq!(resolved.page, 2);
    assert_eq!(resolved.keyword, "kw");
    assert_eq!(resolved.data, "77");

    // Tokens burn on use.
    assert!(b.get_callback(&token).is_none());
}

#[test]
fn equal_callbacks_share_a_token() {
    let a = CommandCallback::new("search", "list", 1, "k".to_string(), "9".to_string());
    let b = CommandCallback::new("search", "list", 1, "k".to_string(), "9".to_string());
    let c = CommandCallback::new("search", "list", 2, "k".to_string(), "9".to_string());
    assert_eq!(callback_token(&a), callback_token(&b));
    assert_ne!(callback_token(&a), callback_token(&c));
}

#[test]
fn link_listing_renders_pages() {
    let qq = Endpoint {
        platform: Platform::QQ,
        id: "10001".to_string(),
    };
    let mut b = Bridge::new(1);

    // Nothing matches: the advisory, typo and all.
    match build_link_list(&mut b, -1001, 0, &String::new(), &String::new()) {
        LinkListView::Empty { text } => {
            assert_eq!(text, "<b>There are no remote chats avaiable</b>")
        }
        other => panic!("expected the advisory, got {:?}", other),
    }

    let alpha = b.insert_remote_chat(&qq, ChatType::Group, "g1".to_string(), "Alpha".to_string(), 1);
    let _beta = b.insert_remote_chat(&qq, ChatType::Private, "u2".to_string(), "beta".to_string(), 1);
    let link_id = b.create_link(40, -1001, alpha, 2).unwrap();

    let view = match build_link_list(&mut b, -1001, 0, &String::new(), &String::new()) {
        LinkListView::Page(view) => view,
        other => panic!("expected a page, got {:?}", other),
    };
    assert_eq!(view.header, "Link: 🔗Alpha(g1) from (qq:10001)");
    assert_eq!(view.rows.len(), 2);
    assert_eq!(view.rows[0].text, "🔗👥Alpha(g1) from (qq:10001)");
    assert_eq!(view.rows[1].text, "👤beta(u2) from (qq:10001)");
    assert!(view.nav.prev.is_none());
    assert!(view.nav.next.is_none());
    assert_eq!(view.nav.indicator.text, "1/1 | Cancel");

    // The linked row's button resolves to its delete callback.
    let cb = b.get_callback(&view.rows[0].token).expect("stored");
    assert_eq!(cb.category, "link");
    assert_eq!(cb.action, "delete");
    assert_eq!(cb.data, link_id.to_string());
    let cb = b.get_callback(&view.rows[1].token).expect("stored");
    assert_eq!(cb.action, "create");

    // An unlinked chat renders the bare header.
    let view = match build_link_list(&mut b, -2222, 0, &String::new(), &String::new()) {
        LinkListView::Page(view) => view,
        other => panic!("expected a page, got {:?}", other),
    };
    assert_eq!(view.header, "Link:");
}

#[test]
fn link_listing_filters_and_paginates() {
    let qq = Endpoint {
        platform: Platform::QQ,
        id: "10001".to_string(),
    };
    let mut b = Bridge::new(1);
    for i in 0..11 {
        b.insert_remote_chat(
            &qq,
            ChatType::Group,
            format!("g{}", i),
            format!("Group {}", i),
            1,
        );
    }

    // The keyword filter matches names case-insensitively.
    let view = match build_link_list(&mut b, -1, 0, &"group 3".to_string(), &String::new()) {
        LinkListView::Page(view) => view,
        other => panic!("expected a page, got {:?}", other),
    };
    assert_eq!(view.rows.len(), 1);
    assert_eq!(view.rows[0].text, "👥Group 3(g3) from (qq:10001)");

    // Eleven rows make two pages of ten and one.
    let view = match build_link_list(&mut b, -1, 0, &String::new(), &String::new()) {
        LinkListView::Page(view) => view,
        other => panic!("expected a page, got {:?}", other),
    };
    assert_eq!(view.rows.len(), 10);
    assert_eq!(view.rows[0].text, "👥Group 0(g0) from (qq:10001)");
    assert!(view.nav.prev.is_none());
    assert!(view.nav.next.is_some());
    assert_eq!(view.nav.indicator.text, "1/2 | Cancel");

    let view = match build_link_list(&mut b, -1, 1, &String::new(), &String::new()) {
        LinkListView::Page(view) => view,
        other => panic!("expected a page, got {:?}", other),
    };
    assert_eq!(view.rows.len(), 1);
    assert_eq!(view.rows[0].text, "👥Group 10(g10) from (qq:10001)");
    assert!(view.nav.prev.is_some());
    assert!(view.nav.next.is_none());
    assert_eq!(view.nav.indicator.text, "2/2 | Cancel");
}

#[test]
fn archive_listing_marks_archived_endpoints() {
    let qq = Endpoint {
        platform: Platform::QQ,
        id: "10001".to_string(),
    };
    let wechat = Endpoint {
        platform: Platform::WeChat,
        id: "w1".to_string(),
    };
    let mut b = Bridge::new(1);
    b.insert_remote_chat(&qq, ChatType::Group, "g1".to_string(), "G".to_string(), 1);
    b.insert_remote_chat(&qq, ChatType::Private, "u1".to_string(), "U".to_string(), 1);
    b.insert_remote_chat(&wechat, ChatType::Private, "u2".to_string(), "V".to_string(), 1);
    let archive_id = b.create_archive(&qq, -1002, 2).unwrap();

    let view = build_archive_list(&mut b, -1002);
    assert_eq!(view.content, "Archive: qq:10001");
    // Endpoints appear once each, in first-appearance order.
    assert_eq!(view.rows.len(), 2);
    assert_eq!(view.rows[0].text, "🗃qq:10001");
    assert_eq!(view.rows[1].text, "wechat:w1");
    assert_eq!(view.cancel.text, "cancel");

    let cb = b.get_callback(&view.rows[0].token).expect("stored");
    assert_eq!(cb.category, "archive");
    assert_eq!(cb.action, "delete");
    assert_eq!(cb.data, archive_id.to_string());
    let cb = b.get_callback(&view.rows[1].token).expect("stored");
    assert_eq!(cb.action, "create");
    assert_eq!(cb.data, "wechat:w1");

    // Another chat shows an empty archived-endpoints header.
    let view = build_archive_list(&mut b, -9);
    assert_eq!(view.content, "Archive: ");
}

#[test]
fn command_advisories_are_fixed() {
    assert_eq!(command_not_supported_text(), "<b>Command not supported</b>");
    assert_eq!(
        help_text(),
        "help - Show command list.\nlink - Manage remote chat link.\narchive - Archive remote chat.\nsearch - search messages."
    );
    assert_eq!(
        archive_advisory_text(),
        "<b>Currently, archive is only supported in forum groups</b>"
    );
    assert_eq!(
        link_advisory_text(),
        "<b>Currently, link creation is only supported in regular groups</b>"
    );
    assert_eq!(
        search_scope_advisory_text(),
        "<b>Currently, search is only supported in mega groups</b>"
    );
    assert_eq!(
        unmapped_reply_text(),
        "<b>The message can't be mapped to a remote chat</b>"
    );
    assert_eq!(convert_failed_text(), "<b>Failed to convert message for remote</b>");
    assert_eq!(send_failed_text(), "<b>Failed to send message to remote</b>");
}
