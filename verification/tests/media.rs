use porter::common::Platform;
use porter::onebot::protocol::response::FileInfo;
use porter::onebot::protocol::segment::Segment;
use porter::telegram::bridge::{
    base64_decode, base64_encode, extract_file_payload, generate_file_base64,
    mime_guess_extensions, mime_is_gif, plan_download, plan_transcode, sniff_kind, DownloadPlan,
    TranscodePlan,
};
use porter::telegram::from_telegram::{
    classify_sticker, generate_location_segment, outbound_image_segment, prepend_reply,
    StickerPlan,
};
use porter::telegram::index_service::{
    make_index_doc, make_search_request, search_result_line, should_commit,
};

#[test]
fn base64_wrappers_encode_and_decode() {
    let data = vec![b'a', b'b'];
    assert_eq!(base64_encode(&data), "YWI=");
    assert_eq!(base64_decode("YWI=").unwrap(), data);
    assert!(base64_decode("!!!").is_err());
    assert_eq!(generate_file_base64(&data), "base64://YWI=");
}

#[test]
fn file_payloads_come_from_the_base64_field() {
    let info = FileInfo {
        file: "f".to_string(),
        file_name: "voice.wav".to_string(),
        file_size: None,
        url: None,
        base64: Some("YWI=".to_string()),
    };
    let (name, bytes) = extract_file_payload(&info).expect("payload");
    assert_eq!(name, "voice.wav");
    assert_eq!(bytes, vec![b'a', b'b']);

    let missing = FileInfo {
        file: "f".to_string(),
        file_name: "x".to_string(),
        file_size: None,
        url: None,
        base64: None,
    };
    assert!(extract_file_payload(&missing).is_err());
}

#[test]
fn content_sniffing_sees_gifs() {
    let gif: Vec<u8> = b"GIF89a\x01\x00\x01\x00\x00\x00\x00;".to_vec();
    let (ext, mime) = sniff_kind(&gif).expect("sniffed");
    assert_eq!(ext, "gif");
    assert_eq!(mime, "image/gif");
    assert!(mime_is_gif(&mime));

    let noise: Vec<u8> = vec![0, 1, 2, 3];
    assert!(sniff_kind(&noise).is_none());
}

#[test]
fn mime_tables_know_png() {
    let exts = mime_guess_extensions("image/png").expect("known type");
    assert!(exts.iter().any(|e| e == "png"));
    assert!(mime_guess_extensions("application/x-none-such").is_none());
}

#[test]
fn sticker_sources_transcode_by_kind() {
    let sticker = Segment::MarketFace(Segment::mface("e1".to_string(), None));
    assert_eq!(
        plan_transcode(&sticker, Platform::QQ, true),
        TranscodePlan::GifToWebm
    );
    assert_eq!(
        plan_transcode(&sticker, Platform::QQ, false),
        TranscodePlan::ImageToWebp
    );
    let record = Segment::Record(Segment::record("f".to_string(), None));
    assert_eq!(
        plan_transcode(&record, Platform::QQ, false),
        TranscodePlan::WavToOgg
    );
    assert_eq!(
        plan_transcode(&record, Platform::WeChat, false),
        TranscodePlan::Keep
    );
    let plain = Segment::Image(Segment::image("f".to_string(), None, None, None, None));
    assert_eq!(plan_transcode(&plain, Platform::QQ, true), TranscodePlan::Keep);
}

#[test]
fn downloads_pick_their_source() {
    let image = Segment::Image(Segment::image(
        "file1".to_string(),
        None,
        Some("https://cdn/x.gif".to_string()),
        None,
        Some("e9".to_string()),
    ));
    assert!(matches!(
        plan_download(&image, Platform::QQ),
        DownloadPlan::FetchUrl { .. }
    ));

    let plain_image = Segment::Image(Segment::image(
        "file1".to_string(),
        None,
        None,
        None,
        None,
    ));
    match plan_download(&plain_image, Platform::QQ) {
        DownloadPlan::GetImage { file, file_id, emoji_id } => {
            assert_eq!(file, "file1");
            assert_eq!(file_id, "file1");
            assert!(emoji_id.is_none());
        }
        other => panic!("expected the image action, got {:?}", other),
    }

    let record = Segment::Record(Segment::record("v".to_string(), None));
    match plan_download(&record, Platform::QQ) {
        DownloadPlan::GetRecord { out_format, .. } => assert_eq!(out_format, "wav"),
        other => panic!("expected the record action, got {:?}", other),
    }
    match plan_download(&record, Platform::WeChat) {
        DownloadPlan::GetRecord { out_format, .. } => assert_eq!(out_format, "ogg"),
        other => panic!("expected the record action, got {:?}", other),
    }
}

#[test]
fn stickers_classify_by_mime() {
    assert_eq!(
        classify_sticker(&Some("video/webm".to_string())),
        StickerPlan::WebmToGif
    );
    assert_eq!(
        classify_sticker(&Some("application/x-tgsticker".to_string())),
        StickerPlan::TgsToGif
    );
    assert_eq!(
        classify_sticker(&Some("image/webp".to_string())),
        StickerPlan::AsFile
    );
    assert_eq!(classify_sticker(&None), StickerPlan::Skip);
}

#[test]
fn outbound_segments_carry_inline_data() {
    let data = vec![b'a', b'b'];
    let seg = outbound_image_segment(&data, "p.jpg".to_string());
    match seg {
        Segment::Image(img) => {
            assert_eq!(img.file, "base64://YWI=");
            assert_eq!(img.name.as_deref(), Some("p.jpg"));
        }
        other => panic!("expected an image segment, got {:?}", other),
    }

    let mut segments = vec![Segment::Text(Segment::text("t".to_string()))];
    prepend_reply(&mut segments, "m7".to_string());
    assert_eq!(segments.len(), 2);
    assert!(matches!(&segments[0], Segment::Reply(r) if r.id == "m7"));
}

#[test]
fn location_segments_differ_by_platform() {
    let seg = generate_location_segment(
        Platform::WeChat,
        &"Spot".to_string(),
        &"Addr".to_string(),
        &"39.90000".to_string(),
        &"116.40000".to_string(),
    )
    .expect("wechat location");
    match seg {
        Segment::Location(l) => {
            assert_eq!(l.lat, "39.90000");
            assert_eq!(l.title.as_deref(), Some("Spot"));
        }
        other => panic!("expected a location segment, got {:?}", other),
    }

    let seg = generate_location_segment(
        Platform::QQ,
        &"Spot".to_string(),
        &"Addr".to_string(),
        &"39.90000".to_string(),
        &"116.40000".to_string(),
    )
    .expect("qq card");
    match seg {
        Segment::Json(j) => {
            assert!(j.data.contains("\"view\": \"LocationShare\""));
            assert!(j.data.contains("39.90000"));
            assert!(j.data.contains("Spot"));
        }
        other => panic!("expected a card segment, got {:?}", other),
    }

    assert!(generate_location_segment(
        Platform::Telegram,
        &String::new(),
        &String::new(),
        &"0".to_string(),
        &"0".to_string(),
    )
    .is_err());
}

#[test]
fn index_documents_and_commits() {
    let doc = make_index_doc(-100, 7, Some(31), 99, "hello".to_string());
    assert_eq!(doc.chat_id, -100);
    assert_eq!(doc.message_id, 7);
    assert_eq!(doc.reply_to, 31);
    let doc = make_index_doc(-100, 7, None, 99, "hello".to_string());
    assert_eq!(doc.reply_to, 0);

    assert!(should_commit(100, 0));
    assert!(!should_commit(99, 29));
    assert!(should_commit(0, 30));

    let req = make_search_request(-100, Some(31), "kw".to_string(), Some(88), 10);
    assert_eq!(req.chat_id, -100);
    assert_eq!(req.reply_to, Some(31));
    assert_eq!(req.before_id, Some(88));
    assert_eq!(req.limit, 10);
}

#[test]
fn search_hits_render_deep_links() {
    let line = search_result_line(100, Some(31), 7, "2024", "snippet");
    assert_eq!(
        line,
        "https://t.me/c/100/31/7\n<blockquote>[2024]\nsnippet</blockquote>"
    );
    let line = search_result_line(100, None, 7, "2024", "snippet");
    assert_eq!(
        line,
        "https://t.me/c/100/7\n<blockquote>[2024]\nsnippet</blockquote>"
    );
}
