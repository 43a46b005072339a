use tweet2md::media::{Media, MediaType};
use tweet2md::render::render_markdown;
use tweet2md::twitter_threads::{Author, Tweet, TwitterThread};

fn author() -> Author {
    Author {
        name: "Alice".to_string(),
        handle: "alice".to_string(),
        url: "https://x.com/alice".to_string(),
    }
}

fn tweet(id: &str, index: u64, text: &str, media: Option<Vec<Media>>) -> Tweet {
    Tweet {
        id: id.to_string(),
        index,
        author: author(),
        text: text.to_string(),
        media,
        created_at: "Mon Jan 01".to_string(),
        url: format!("https://x.com/alice/status/{}", id),
    }
}

#[test]
fn render_exact_root_only() {
    let t = TwitterThread {
        tweet: tweet("1", 1, "Hello", None),
        thread: vec![],
    };
    let md = render_markdown(&t);
    let expected = "# Alice ([@alice](https://x.com/alice))\n\
                    _Mon Jan 01_\n\
                    \n\
                    # [#1](https://x.com/alice/status/1)\n\
                    Hello\n\
                    \n\
                    \n\
                    ### [_View on Twitter_](https://x.com/alice/status/1)\n";
    assert_eq!(md, expected);
}

#[test]
fn render_exact_with_reply_and_media() {
    let media = vec![Media {
        markdown: "![photo](https://img/a.jpg)".to_string(),
        media_type: MediaType::Photo,
    }];
    let t = TwitterThread {
        tweet: tweet("1", 1, "Hello", Some(media)),
        thread: vec![tweet("2", 2, "World", None)],
    };
    let md = render_markdown(&t);
    let expected = "# Alice ([@alice](https://x.com/alice))\n\
                    _Mon Jan 01_\n\
                    \n\
                    # [#1](https://x.com/alice/status/1)\n\
                    Hello\n\
                    ![photo](https://img/a.jpg)\n\
                    \n\
                    # [#2](https://x.com/alice/status/2)\n\
                    World\n\
                    \n\
                    ### [_View on Twitter_](https://x.com/alice/status/1)\n";
    assert_eq!(md, expected);
}

#[test]
fn render_is_idempotent() {
    let t = TwitterThread {
        tweet: tweet("10", 1, "Same in, same out", None),
        thread: vec![tweet("11", 2, "Reply", None)],
    };
    let first = render_markdown(&t);
    let second = render_markdown(&t);
    assert_eq!(first, second);
}

#[test]
fn render_two_digit_index() {
    let t = TwitterThread {
        tweet: tweet("1", 1, "Root", None),
        thread: vec![tweet("12", 12, "Twelfth", None)],
    };
    let md = render_markdown(&t);
    assert!(md.contains("# [#12](https://x.com/alice/status/12)\n"));
}
