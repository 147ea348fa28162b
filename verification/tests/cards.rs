use porter::onebot::protocol::json::JsonValue;
use porter::telegram::onebot_helper::{extract_location_from_json, extract_share_from_json};

fn obj(fields: Vec<(&str, JsonValue)>) -> JsonValue {
    JsonValue::Object(
        fields
            .into_iter()
            .map(|(k, v)| (k.to_string(), v))
            .collect(),
    )
}

fn text(s: &str) -> JsonValue {
    JsonValue::Text(s.to_string())
}

#[test]
fn location_cards_yield_venues() {
    let card = obj(vec![
        ("view", text("LocationShare")),
        (
            "meta",
            obj(vec![(
                "Location.Search",
                obj(vec![
                    ("name", text("Spot")),
                    ("address", text("Addr")),
                    ("lat", text("39.9")),
                    ("lng", text("116.4")),
                ]),
            )]),
        ),
    ]);
    let venue = extract_location_from_json(&card).expect("venue");
    assert_eq!(venue.title, "Spot");
    assert_eq!(venue.address, "Addr");
    assert_eq!(venue.lat, "39.9");
    assert_eq!(venue.lon, "116.4");
}

#[test]
fn malformed_location_cards_are_rejected() {
    let no_coords = obj(vec![(
        "meta",
        obj(vec![("child", obj(vec![("name", text("Spot"))]))]),
    )]);
    assert!(extract_location_from_json(&no_coords).is_err());
}

#[test]
fn share_cards_render_links() {
    let card = obj(vec![
        ("prompt", text("A <title>")),
        (
            "meta",
            obj(vec![(
                "news",
                obj(vec![
                    ("qqdocurl", text("https://doc")),
                    ("title", text("Src")),
                    ("desc", text("Desc")),
                ]),
            )]),
        ),
    ]);
    let html = extract_share_from_json(&card).expect("share body");
    assert_eq!(
        html,
        "<u>A &lt;title&gt;</u>\n\nDesc\n\nvia <a href=\"https://doc\">Src</a>"
    );
}

#[test]
fn jump_links_are_the_fallback() {
    let card = obj(vec![
        ("prompt", text("T")),
        (
            "meta",
            obj(vec![(
                "news",
                obj(vec![
                    ("jumpUrl", text("https://jump")),
                    ("tag", text("Tag")),
                    ("desc", text("D")),
                ]),
            )]),
        ),
    ]);
    let html = extract_share_from_json(&card).expect("share body");
    assert_eq!(html, "<u>T</u>\n\nD\n\nvia <a href=\"https://jump\">Tag</a>");
}

#[test]
fn linkless_cards_yield_nothing() {
    let card = obj(vec![("prompt", text("T")), ("meta", obj(vec![]))]);
    assert_eq!(extract_share_from_json(&card).expect("empty body"), "");
    let no_meta = obj(vec![("prompt", text("T"))]);
    assert_eq!(extract_share_from_json(&no_meta).expect("empty body"), "");
}
