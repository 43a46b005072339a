use tweet2md::json::JsonValue;
use tweet2md::media::{resolve_media, MediaType};

fn s(t: &str) -> JsonValue {
    JsonValue::Text(t.to_string())
}

fn obj(fields: Vec<(&str, JsonValue)>) -> JsonValue {
    JsonValue::Object(fields.into_iter().map(|(k, v)| (k.to_string(), v)).collect())
}

fn arr(items: Vec<JsonValue>) -> JsonValue {
    JsonValue::Array(items)
}

fn variant(url: &str, bitrate: Option<u64>) -> JsonValue {
    let mut fields = vec![("url", s(url))];
    if let Some(b) = bitrate {
        fields.push(("bitrate", JsonValue::UInt(b)));
    }
    obj(fields)
}

fn video_entry(cover: &str, variants: Vec<JsonValue>) -> JsonValue {
    obj(vec![
        ("type", s("video")),
        ("media_url_https", s(cover)),
        ("video_info", obj(vec![("variants", arr(variants))])),
    ])
}

#[test]
fn video_selection_prefers_highest_bitrate() {
    let items = vec![video_entry(
        "https://img/cover.jpg",
        vec![
            variant("https://v/500", Some(500)),
            variant("https://v/1200", Some(1200)),
            variant("https://v/900", Some(900)),
        ],
    )];
    let ms = resolve_media(&items).unwrap();
    assert_eq!(ms.len(), 1);
    assert_eq!(
        ms[0].markdown,
        "[![video](https://img/cover.jpg)](https://v/1200)"
    );
    assert_eq!(ms[0].media_type, MediaType::Video);
}

#[test]
fn video_selection_all_missing_bitrates_takes_first() {
    let items = vec![video_entry(
        "https://img/cover.jpg",
        vec![
            variant("https://v/first", None),
            variant("https://v/second", None),
        ],
    )];
    let ms = resolve_media(&items).unwrap();
    assert_eq!(
        ms[0].markdown,
        "[![video](https://img/cover.jpg)](https://v/first)"
    );
}

#[test]
fn video_selection_first_wins_ties() {
    let items = vec![video_entry(
        "https://img/cover.jpg",
        vec![
            variant("https://v/a", Some(700)),
            variant("https://v/b", Some(700)),
        ],
    )];
    let ms = resolve_media(&items).unwrap();
    assert_eq!(
        ms[0].markdown,
        "[![video](https://img/cover.jpg)](https://v/a)"
    );
}

#[test]
fn video_selection_ignores_non_numeric_bitrate() {
    let items = vec![video_entry(
        "https://img/cover.jpg",
        vec![
            variant("https://v/first", Some(100)),
            {
                let mut fields = vec![("url", s("https://v/odd"))];
                fields.push(("bitrate", s("900")));
                obj(fields)
            },
        ],
    )];
    let ms = resolve_media(&items).unwrap();
    assert_eq!(
        ms[0].markdown,
        "[![video](https://img/cover.jpg)](https://v/first)"
    );
}

#[test]
fn media_order_is_preserved() {
    let items = vec![
        obj(vec![
            ("type", s("photo")),
            ("media_url_https", s("https://img/1.jpg")),
        ]),
        video_entry("https://img/cover.jpg", vec![variant("https://v/x", Some(1))]),
        obj(vec![
            ("type", s("photo")),
            ("media_url_https", s("https://img/2.jpg")),
        ]),
    ];
    let ms = resolve_media(&items).unwrap();
    assert_eq!(ms.len(), 3);
    assert_eq!(ms[0].markdown, "![photo](https://img/1.jpg)");
    assert_eq!(
        ms[1].markdown,
        "[![video](https://img/cover.jpg)](https://v/x)"
    );
    assert_eq!(ms[2].markdown, "![photo](https://img/2.jpg)");
}
