use porter::telegram::bridge::{
    extract_filename_from_headers, extract_filename_from_url, generate_default_filename,
    get_final_filename, get_tg_doc_file_name, guess_exts, percent_decode, sanitize_filename,
};

#[test]
fn percent_sequences_decode() {
    assert_eq!(percent_decode(&b"a%20b".to_vec()), b"a b".to_vec());
    assert_eq!(percent_decode(&b"%C2%A3".to_vec()), vec![0xC2, 0xA3]);
    // Broken escapes pass through untouched.
    assert_eq!(percent_decode(&b"100%".to_vec()), b"100%".to_vec());
    assert_eq!(percent_decode(&b"%zz".to_vec()), b"%zz".to_vec());
}

#[test]
fn disposition_headers_name_files() {
    assert_eq!(
        extract_filename_from_headers("attachment; filename=\"cat.png\"").unwrap(),
        "cat.png"
    );
    // The RFC 5987 form wins and decodes UTF-8.
    assert_eq!(
        extract_filename_from_headers(
            "attachment; filename=\"x.bin\"; filename*=UTF-8''%C2%A3.txt"
        )
        .unwrap(),
        "£.txt"
    );
    assert!(extract_filename_from_headers("attachment").is_none());
    // A malformed starred directive fails the whole scan.
    assert!(extract_filename_from_headers("attachment; filename*=broken").is_none());
}

#[test]
fn url_paths_yield_their_last_segment() {
    assert_eq!(
        extract_filename_from_url("/stickers/pack/face.gif").unwrap(),
        "face.gif"
    );
    assert_eq!(extract_filename_from_url("/a/b/").unwrap(), "b");
    assert!(extract_filename_from_url("///").is_none());
    assert!(extract_filename_from_url("").is_none());
}

#[test]
fn default_names_follow_the_content_type() {
    let name = generate_default_filename(&Some("image/png".to_string()));
    assert_eq!(name, "data.png");
    let name = generate_default_filename(&Some("application/x-none-such".to_string()));
    assert_eq!(name, "data.bin");
    let name = generate_default_filename(&None);
    assert_eq!(name, "data.bin");
}

#[test]
fn content_type_parameters_are_cut() {
    let exts = guess_exts("  text/html; charset=utf-8");
    assert!(exts.iter().any(|e| e == "html"));
    assert!(guess_exts("no/such-type").is_empty());
}

#[test]
fn hostile_characters_become_underscores() {
    assert_eq!(sanitize_filename("a/b\\c:d*e?f\"g<h>i|j"), "a_b_c_d_e_f_g_h_i_j");
    assert_eq!(sanitize_filename("plain.txt"), "plain.txt");
}

#[test]
fn fetched_files_get_final_names() {
    let name = get_final_filename(
        &Some("attachment; filename=\"a:b.png\"".to_string()),
        "/x/y.gif",
        &None,
    );
    assert_eq!(name, "a_b.png");
    let name = get_final_filename(&None, "/x/y.gif", &None);
    assert_eq!(name, "y.gif");
    let name = get_final_filename(&None, "", &Some("image/png".to_string()));
    assert_eq!(name, "data.png");
}

#[test]
fn telegram_documents_get_named() {
    let gif: Vec<u8> = b"GIF89a\x01\x00\x01\x00\x00\x00\x00;".to_vec();
    // A named document with an extension keeps its name.
    assert_eq!(
        get_tg_doc_file_name(&"clip.mp4".to_string(), 9, &None, &gif),
        "clip.mp4"
    );
    // A nameless document takes its id and the MIME extension.
    let name = get_tg_doc_file_name(&String::new(), 9, &Some("image/png".to_string()), &gif);
    assert_eq!(name, "9.png");
    // A nameless, typeless document falls back to sniffing.
    let name = get_tg_doc_file_name(&String::new(), 9, &None, &gif);
    assert_eq!(name, ".gif");
    // A named document without an extension gets the sniffed one.
    let name = get_tg_doc_file_name(&"voice".to_string(), 9, &None, &gif);
    assert_eq!(name, "voice.gif");
}
