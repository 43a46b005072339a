use tweet2md::errors::ExtractError;
use tweet2md::json::JsonValue;
use tweet2md::media::MediaType;
use tweet2md::twitter_threads::TwitterThread;

fn s(t: &str) -> JsonValue {
    JsonValue::Text(t.to_string())
}

fn obj(fields: Vec<(&str, JsonValue)>) -> JsonValue {
    JsonValue::Object(fields.into_iter().map(|(k, v)| (k.to_string(), v)).collect())
}

fn arr(items: Vec<JsonValue>) -> JsonValue {
    JsonValue::Array(items)
}

fn tweet_node(
    id: &str,
    handle: &str,
    name: &str,
    text: &str,
    created: &str,
    media: Option<JsonValue>,
) -> JsonValue {
    let mut legacy = vec![("full_text", s(text)), ("created_at", s(created))];
    if let Some(m) = media {
        legacy.push(("extended_entities", obj(vec![("media", m)])));
    }
    obj(vec![
        ("__typename", s("Tweet")),
        ("rest_id", s(id)),
        (
            "core",
            obj(vec![(
                "user_results",
                obj(vec![(
                    "result",
                    obj(vec![(
                        "legacy",
                        obj(vec![("name", s(name)), ("screen_name", s(handle))]),
                    )]),
                )]),
            )]),
        ),
        ("legacy", obj(legacy)),
    ])
}

fn entry_for_root(root: JsonValue) -> JsonValue {
    obj(vec![(
        "content",
        obj(vec![(
            "itemContent",
            obj(vec![("tweet_results", obj(vec![("result", root)]))]),
        )]),
    )])
}

fn item_for_reply(reply: JsonValue) -> JsonValue {
    obj(vec![(
        "item",
        obj(vec![(
            "itemContent",
            obj(vec![("tweet_results", obj(vec![("result", reply)]))]),
        )]),
    )])
}

fn doc_from_entries(entries: JsonValue) -> JsonValue {
    obj(vec![(
        "data",
        obj(vec![(
            "threaded_conversation_with_injections_v2",
            obj(vec![(
                "instructions",
                arr(vec![obj(vec![("entries", entries)])]),
            )]),
        )]),
    )])
}

fn doc_with(root: JsonValue, replies: Option<Vec<JsonValue>>) -> JsonValue {
    let mut entries = vec![entry_for_root(root)];
    if let Some(rs) = replies {
        let items: Vec<JsonValue> = rs.into_iter().map(item_for_reply).collect();
        entries.push(obj(vec![("content", obj(vec![("items", arr(items))]))]));
    }
    doc_from_entries(arr(entries))
}

#[test]
fn scenario_root_and_two_replies() {
    let doc = doc_with(
        tweet_node("1", "alice", "Alice", "Hello", "Mon Jan 01", None),
        Some(vec![
            tweet_node("2", "alice", "Alice", "Second", "Mon Jan 01", None),
            tweet_node("3", "alice", "Alice", "Third", "Mon Jan 01", None),
        ]),
    );
    let t = TwitterThread::try_from(&doc).unwrap();
    assert_eq!(t.tweet.index, 1);
    assert_eq!(t.tweet.id, "1");
    assert_eq!(t.tweet.url, "https://x.com/alice/status/1");
    assert_eq!(t.tweet.author.handle, "alice");
    assert_eq!(t.tweet.author.url, "https://x.com/alice");
    assert_eq!(t.tweet.text, "Hello");
    assert!(t.tweet.media.is_none());
    assert_eq!(t.thread.len(), 2);
    assert_eq!(t.thread[0].index, 2);
    assert_eq!(t.thread[0].id, "2");
    assert_eq!(t.thread[0].url, "https://x.com/alice/status/2");
    assert_eq!(t.thread[1].index, 3);
    assert_eq!(t.thread[1].id, "3");
    assert_eq!(t.thread[1].url, "https://x.com/alice/status/3");
}

#[test]
fn scenario_photo_media() {
    let media = arr(vec![obj(vec![
        ("type", s("photo")),
        ("media_url_https", s("https://img/a.jpg")),
    ])]);
    let doc = doc_with(
        tweet_node("1", "alice", "Alice", "Look", "Mon Jan 01", Some(media)),
        Some(vec![]),
    );
    let t = TwitterThread::try_from(&doc).unwrap();
    let ms = t.tweet.media.as_ref().unwrap();
    assert_eq!(ms.len(), 1);
    assert_eq!(ms[0].markdown, "![photo](https://img/a.jpg)");
    assert_eq!(ms[0].media_type, MediaType::Photo);
}

#[test]
fn scenario_tombstone_is_type_mismatch() {
    let node = obj(vec![("__typename", s("TweetTombstone"))]);
    let doc = doc_with(node, Some(vec![]));
    let e = TwitterThread::try_from(&doc).unwrap_err();
    assert_eq!(
        e,
        ExtractError::TypeMismatch {
            path: "__typename".to_string(),
            expected: "Tweet".to_string(),
            actual: "TweetTombstone".to_string(),
        }
    );
}

#[test]
fn scenario_absent_reply_section_is_empty_thread() {
    let doc = doc_with(
        tweet_node("1", "alice", "Alice", "Hello", "Mon Jan 01", None),
        None,
    );
    let t = TwitterThread::try_from(&doc).unwrap();
    assert_eq!(t.tweet.index, 1);
    assert_eq!(t.thread.len(), 0);
}

#[test]
fn empty_media_array_is_no_media() {
    let doc = doc_with(
        tweet_node("1", "alice", "Alice", "Hello", "Mon Jan 01", Some(arr(vec![]))),
        None,
    );
    let t = TwitterThread::try_from(&doc).unwrap();
    assert!(t.tweet.media.is_none());
}

#[test]
fn non_array_media_node_is_no_media() {
    let doc = doc_with(
        tweet_node("1", "alice", "Alice", "Hello", "Mon Jan 01", Some(s("odd"))),
        None,
    );
    let t = TwitterThread::try_from(&doc).unwrap();
    assert!(t.tweet.media.is_none());
}

#[test]
fn missing_full_text_is_missing_field() {
    let node = obj(vec![
        ("__typename", s("Tweet")),
        ("rest_id", s("1")),
        (
            "core",
            obj(vec![(
                "user_results",
                obj(vec![(
                    "result",
                    obj(vec![(
                        "legacy",
                        obj(vec![("name", s("Alice")), ("screen_name", s("alice"))]),
                    )]),
                )]),
            )]),
        ),
        ("legacy", obj(vec![("created_at", s("Mon Jan 01"))])),
    ]);
    let doc = doc_with(node, None);
    let e = TwitterThread::try_from(&doc).unwrap_err();
    assert_eq!(
        e,
        ExtractError::MissingField {
            path: "legacy.full_text".to_string(),
        }
    );
}

#[test]
fn numeric_full_text_is_type_mismatch() {
    let node = obj(vec![
        ("__typename", s("Tweet")),
        ("rest_id", s("1")),
        (
            "core",
            obj(vec![(
                "user_results",
                obj(vec![(
                    "result",
                    obj(vec![(
                        "legacy",
                        obj(vec![("name", s("Alice")), ("screen_name", s("alice"))]),
                    )]),
                )]),
            )]),
        ),
        (
            "legacy",
            obj(vec![
                ("full_text", JsonValue::UInt(7)),
                ("created_at", s("Mon Jan 01")),
            ]),
        ),
    ]);
    let doc = doc_with(node, None);
    let e = TwitterThread::try_from(&doc).unwrap_err();
    assert_eq!(
        e,
        ExtractError::TypeMismatch {
            path: "legacy.full_text".to_string(),
            expected: "string".to_string(),
            actual: "number".to_string(),
        }
    );
}

#[test]
fn entries_of_wrong_kind_is_malformed_response() {
    let doc = doc_from_entries(s("oops"));
    let e = TwitterThread::try_from(&doc).unwrap_err();
    assert_eq!(
        e,
        ExtractError::MalformedResponse {
            path: "data.threaded_conversation_with_injections_v2.instructions[0].entries"
                .to_string(),
        }
    );
}

#[test]
fn missing_entries_is_malformed_response() {
    let doc = obj(vec![("data", obj(vec![]))]);
    let e = TwitterThread::try_from(&doc).unwrap_err();
    assert_eq!(
        e,
        ExtractError::MalformedResponse {
            path: "data.threaded_conversation_with_injections_v2.instructions[0].entries"
                .to_string(),
        }
    );
}

#[test]
fn unknown_media_type_is_reported() {
    let media = arr(vec![obj(vec![
        ("type", s("animated_gif")),
        ("media_url_https", s("https://img/a.gif")),
    ])]);
    let doc = doc_with(
        tweet_node("1", "alice", "Alice", "Hello", "Mon Jan 01", Some(media)),
        None,
    );
    let e = TwitterThread::try_from(&doc).unwrap_err();
    assert_eq!(
        e,
        ExtractError::UnknownMediaType {
            value: "animated_gif".to_string(),
        }
    );
}

#[test]
fn empty_variants_is_missing_variants() {
    let media = arr(vec![obj(vec![
        ("type", s("video")),
        ("media_url_https", s("https://img/cover.jpg")),
        ("video_info", obj(vec![("variants", arr(vec![]))])),
    ])]);
    let doc = doc_with(
        tweet_node("1", "alice", "Alice", "Hello", "Mon Jan 01", Some(media)),
        None,
    );
    let e = TwitterThread::try_from(&doc).unwrap_err();
    assert_eq!(e, ExtractError::MissingVariants);
}

#[test]
fn failing_reply_aborts_whole_extraction() {
    let doc = doc_with(
        tweet_node("1", "alice", "Alice", "Hello", "Mon Jan 01", None),
        Some(vec![obj(vec![("__typename", s("TweetTombstone"))])]),
    );
    let e = TwitterThread::try_from(&doc).unwrap_err();
    assert_eq!(
        e,
        ExtractError::TypeMismatch {
            path: "__typename".to_string(),
            expected: "Tweet".to_string(),
            actual: "TweetTombstone".to_string(),
        }
    );
}
