use porter::common::{ChatType, DeliveryStatus, Endpoint, Platform};
use porter::telegram::bridge::Bridge;
use porter::telegram::from_onebot::{fake_remote_id, new_uuid_hex};

fn qq() -> Endpoint {
    Endpoint {
        platform: Platform::QQ,
        id: "10001".to_string(),
    }
}

#[test]
fn message_rows_are_unique() {
    let mut b = Bridge::new(777);
    let chat_id = b.insert_remote_chat(&qq(), ChatType::Private, "42".to_string(), "A".to_string(), 1);

    assert!(b
        .save_message_by_remote(chat_id, &"m1".to_string(), -100, 5, "hi".to_string(), 2)
        .is_ok());
    // A second row for the same Telegram message is silently skipped.
    assert!(b
        .save_message_by_remote(chat_id, &"m2".to_string(), -100, 5, "again".to_string(), 3)
        .is_err());

    let row = b.find_message_by_remote(chat_id, "m1").expect("row exists");
    assert_eq!(row.tg_chat_id, -100);
    assert_eq!(row.tg_msg_id, 5);
    assert_eq!(row.delivery_status, DeliveryStatus::Sent);
    assert!(b.find_message_by_remote(chat_id, "m2").is_none());

    let by_tg = b.find_message_by_tg(-100, 5).expect("row exists");
    assert_eq!(by_tg.remote_msg_id, "m1");
}

#[test]
fn recall_marks_existing_mapping() {
    let mut b = Bridge::new(777);
    let chat_id = b.insert_remote_chat(&qq(), ChatType::Group, "g1".to_string(), "G".to_string(), 1);
    b.save_message_by_remote(chat_id, &"m9".to_string(), -200, 8, "text".to_string(), 2)
        .unwrap();

    let hit = b.mark_message_recalled(chat_id, "m9", 5);
    assert_eq!(hit, Some((-200, 8)));
    let row = b.find_message_by_remote(chat_id, "m9").expect("row kept");
    assert_eq!(row.delivery_status, DeliveryStatus::Recalled);

    // The synthetic marker id has the documented shape.
    let uuid = new_uuid_hex();
    let fake = fake_remote_id(&uuid);
    assert_eq!(fake.len(), 37);
    assert!(fake.starts_with("fake:"));
    assert!(fake[5..]
        .chars()
        .all(|c| c.is_ascii_hexdigit() && !c.is_ascii_uppercase()));
    assert!(b
        .save_message_by_remote(chat_id, &fake, -200, 9, String::new(), 6)
        .is_ok());
}

#[test]
fn recall_without_mapping_changes_nothing() {
    let mut b = Bridge::new(777);
    let chat_id = b.insert_remote_chat(&qq(), ChatType::Group, "g1".to_string(), "G".to_string(), 1);
    assert_eq!(b.mark_message_recalled(chat_id, "missing", 5), None);
    assert!(b.find_message_by_remote(chat_id, "missing").is_none());
    assert!(b.find_message_by_tg(-200, 8).is_none());
}

#[test]
fn links_are_unique_per_side() {
    let mut b = Bridge::new(777);
    let c1 = b.insert_remote_chat(&qq(), ChatType::Group, "g1".to_string(), "G".to_string(), 1);
    let c2 = b.insert_remote_chat(&qq(), ChatType::Group, "g2".to_string(), "H".to_string(), 1);

    let id = b.create_link(40, -1001, c1, 2).expect("first link");
    assert!(b.create_link(40, -1001, c2, 3).is_err());
    assert!(b.create_link(40, -1002, c1, 3).is_err());

    assert_eq!(b.find_link_by_tg(-1001).unwrap().remote_chat_id, c1);
    assert_eq!(b.find_link_by_remote(c1).unwrap().tg_chat_id, -1001);

    b.delete_link(id);
    assert!(b.find_link_by_tg(-1001).is_none());
}

#[test]
fn archives_cascade_topics() {
    let mut b = Bridge::new(777);
    let chat_id = b.insert_remote_chat(&qq(), ChatType::Group, "g1".to_string(), "G".to_string(), 1);
    let archive_id = b.create_archive(&qq(), -1002, 2).expect("archive");
    assert!(b.create_archive(&qq(), -1003, 3).is_err());

    b.create_topic(archive_id, 17, chat_id, 4).expect("topic");
    assert!(b.create_topic(archive_id, 18, chat_id, 5).is_err());
    assert_eq!(b.find_topic_by_remote_chat(chat_id).unwrap().tg_topic_id, 17);
    assert_eq!(b.find_archive_by_tg(-1002, 17).unwrap().id, chat_id);

    b.delete_archive(archive_id);
    assert!(b.find_archive_by_endpoint(&qq()).is_none());
    assert!(b.find_topic_by_remote_chat(chat_id).is_none());
}

#[test]
fn remote_chat_upsert_refreshes_names() {
    let mut b = Bridge::new(777);
    b.update_remote_chat(&qq(), ChatType::Private, &"42".to_string(), "Old".to_string(), 1);
    let row = b
        .find_remote_chat(&qq(), ChatType::Private, "42")
        .expect("created");
    assert_eq!(row.name, "Old");
    let id = row.id;

    b.update_remote_chat(&qq(), ChatType::Private, &"42".to_string(), "New".to_string(), 2);
    let row = b
        .find_remote_chat(&qq(), ChatType::Private, "42")
        .expect("still there");
    assert_eq!(row.name, "New");
    assert_eq!(row.id, id);
    assert_eq!(row.to_id().2, "42");
}
