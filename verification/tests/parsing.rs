use tweet2md::errors::ExtractError;
use tweet2md::twitter_threads::{thread_from_text, TwitterThread};

fn response_text() -> String {
    r#"{
      "data": {
        "threaded_conversation_with_injections_v2": {
          "instructions": [
            {
              "entries": [
                {
                  "content": {
                    "itemContent": {
                      "tweet_results": {
                        "result": {
                          "__typename": "Tweet",
                          "rest_id": "1",
                          "core": {
                            "user_results": {
                              "result": {
                                "legacy": {
                                  "name": "Alice",
                                  "screen_name": "alice"
                                }
                              }
                            }
                          },
                          "legacy": {
                            "full_text": "Hello",
                            "created_at": "Mon Jan 01"
                          }
                        }
                      }
                    }
                  }
                },
                {
                  "content": {
                    "items": [
                      {
                        "item": {
                          "itemContent": {
                            "tweet_results": {
                              "result": {
                                "__typename": "Tweet",
                                "rest_id": "2",
                                "core": {
                                  "user_results": {
                                    "result": {
                                      "legacy": {
                                        "name": "Alice",
                                        "screen_name": "alice"
                                      }
                                    }
                                  }
                                },
                                "legacy": {
                                  "full_text": "Video reply",
                                  "created_at": "Mon Jan 01",
                                  "extended_entities": {
                                    "media": [
                                      {
                                        "type": "video",
                                        "media_url_https": "https://img/cover.jpg",
                                        "video_info": {
                                          "variants": [
                                            {"url": "https://v/500", "bitrate": 500},
                                            {"url": "https://v/1200", "bitrate": 1200},
                                            {"url": "https://v/900", "bitrate": 900}
                                          ]
                                        }
                                      }
                                    ]
                                  }
                                }
                              }
                            }
                          }
                        }
                      }
                    ]
                  }
                }
              ]
            }
          ]
        }
      }
    }"#
    .to_string()
}

#[test]
fn thread_from_text_extracts_full_thread() {
    let t: TwitterThread = thread_from_text(&response_text()).unwrap();
    assert_eq!(t.tweet.index, 1);
    assert_eq!(t.tweet.id, "1");
    assert_eq!(t.tweet.text, "Hello");
    assert_eq!(t.tweet.url, "https://x.com/alice/status/1");
    assert!(t.tweet.media.is_none());
    assert_eq!(t.thread.len(), 1);
    assert_eq!(t.thread[0].index, 2);
    let ms = t.thread[0].media.as_ref().unwrap();
    assert_eq!(
        ms[0].markdown,
        "[![video](https://img/cover.jpg)](https://v/1200)"
    );
}

#[test]
fn thread_from_text_rejects_invalid_json() {
    let e = thread_from_text("this is not json").unwrap_err();
    assert_eq!(
        e,
        ExtractError::MalformedResponse {
            path: String::new(),
        }
    );
}

#[test]
fn thread_from_text_rejects_wrong_shape() {
    let e = thread_from_text("{\"data\": {}}").unwrap_err();
    assert_eq!(
        e,
        ExtractError::MalformedResponse {
            path: "data.threaded_conversation_with_injections_v2.instructions[0].entries"
                .to_string(),
        }
    );
}

#[test]
fn thread_from_text_ignores_float_bitrates() {
    let text = r#"{
      "data": {"threaded_conversation_with_injections_v2": {"instructions": [{"entries": [
        {"content": {"itemContent": {"tweet_results": {"result": {
          "__typename": "Tweet",
          "rest_id": "1",
          "core": {"user_results": {"result": {"legacy": {"name": "A", "screen_name": "a"}}}},
          "legacy": {
            "full_text": "x",
            "created_at": "now",
            "extended_entities": {"media": [{
              "type": "video",
              "media_url_https": "https://img/c.jpg",
              "video_info": {"variants": [
                {"url": "https://v/first", "bitrate": 0.5},
                {"url": "https://v/second", "bitrate": -3}
              ]}
            }]}
          }
        }}}}}
      ]}]}}
    }"#;
    let t = thread_from_text(text).unwrap();
    let ms = t.tweet.media.as_ref().unwrap();
    assert_eq!(
        ms[0].markdown,
        "[![video](https://img/c.jpg)](https://v/first)"
    );
}
