//! The thread extractor: the single validating transform from a parsed
//! response document to a [`TwitterThread`].
//!
//! Extraction is atomic: any failure in any sub-step aborts the whole
//! operation with the first error encountered, and no partial thread is ever
//! returned.  A response whose reply section cannot be resolved to an array
//! after the root tweet resolved successfully is read as a thread with zero
//! replies (the alternative — rejecting it as malformed — would also reject
//! every thread that simply has no replies).

use vstd::prelude::*;
use vstd::string::StringExecFns;
use crate::errors::{ExtractError, ExtractErrorView};
use crate::json::{
    array_at, get_array, get_opt_array, get_text, index_seg, key_seg, lookup, lookup_spec,
    opt_array_at, path_text, path_to_text, segs_view, text_at, JsonValue, PathSeg, SegView,
};
use crate::media::{media_list_spec, media_views, resolve_media, Media, MediaView};

verus! {

/// A tweet's author.
#[derive(Debug)]
pub struct Author {
    pub name: String,
    pub handle: String,
    pub url: String,
}

/// The mathematical shape of an [`Author`].
pub struct AuthorView {
    pub name: Seq<char>,
    pub handle: Seq<char>,
    pub url: Seq<char>,
}

impl View for Author {
    type V = AuthorView;

    open spec fn view(&self) -> AuthorView {
        AuthorView { name: self.name@, handle: self.handle@, url: self.url@ }
    }
}

/// One message of a thread.  `index` is its 1-based position in the rendered
/// thread: the root is 1, replies are 2 onwards in array order.  `url` is
/// derived from the author handle and the tweet id.
#[derive(Debug)]
pub struct Tweet {
    pub id: String,
    pub index: u64,
    pub author: Author,
    pub text: String,
    pub media: Option<Vec<Media>>,
    pub created_at: String,
    pub url: String,
}

/// The mathematical shape of a [`Tweet`].
pub struct TweetView {
    pub id: Seq<char>,
    pub index: u64,
    pub author: AuthorView,
    pub text: Seq<char>,
    pub media: Option<Seq<MediaView>>,
    pub created_at: Seq<char>,
    pub url: Seq<char>,
}

impl View for Tweet {
    type V = TweetView;

    open spec fn view(&self) -> TweetView {
        TweetView {
            id: self.id@,
            index: self.index,
            author: self.author@,
            text: self.text@,
            media: match self.media {
                Option::Some(ms) => Option::Some(media_views(ms@)),
                Option::None => Option::None,
            },
            created_at: self.created_at@,
            url: self.url@,
        }
    }
}

/// A whole conversation thread: the root tweet and its replies, in source
/// array order.
#[derive(Debug)]
pub struct TwitterThread {
    pub tweet: Tweet,
    pub thread: Vec<Tweet>,
}

/// The mathematical shape of a [`TwitterThread`].
pub struct TwitterThreadView {
    pub tweet: TweetView,
    pub thread: Seq<TweetView>,
}

impl View for TwitterThread {
    type V = TwitterThreadView;

    open spec fn view(&self) -> TwitterThreadView {
        TwitterThreadView { tweet: self.tweet@, thread: tweet_views(self.thread@) }
    }
}

/// The views of a sequence of tweets.
pub open spec fn tweet_views(ts: Seq<Tweet>) -> Seq<TweetView> {
    ts.map_values(|t: Tweet| t@)
}

/// An author's page URL, derived from the handle.
pub open spec fn author_url_spec(handle: Seq<char>) -> Seq<char> {
    "https://x.com/"@ + handle
}

/// A tweet's URL, derived from the author handle and the tweet id.
pub open spec fn tweet_url_spec(handle: Seq<char>, id: Seq<char>) -> Seq<char> {
    "https://x.com/"@ + handle + "/status/"@ + id
}

/// The path of a tweet node's type discriminator.
pub open spec fn typename_path() -> Seq<SegView> {
    seq![SegView::Key("__typename"@)]
}

/// The path of a tweet node's id.
pub open spec fn rest_id_path() -> Seq<SegView> {
    seq![SegView::Key("rest_id"@)]
}

/// The path of the author's handle within a tweet node.
pub open spec fn screen_name_path() -> Seq<SegView> {
    seq![
        SegView::Key("core"@),
        SegView::Key("user_results"@),
        SegView::Key("result"@),
        SegView::Key("legacy"@),
        SegView::Key("screen_name"@),
    ]
}

/// The path of the author's display name within a tweet node.
pub open spec fn author_name_path() -> Seq<SegView> {
    seq![
        SegView::Key("core"@),
        SegView::Key("user_results"@),
        SegView::Key("result"@),
        SegView::Key("legacy"@),
        SegView::Key("name"@),
    ]
}

/// The path of a tweet node's full text.
pub open spec fn full_text_path() -> Seq<SegView> {
    seq![SegView::Key("legacy"@), SegView::Key("full_text"@)]
}

/// The path of a tweet node's creation timestamp.
pub open spec fn created_at_path() -> Seq<SegView> {
    seq![SegView::Key("legacy"@), SegView::Key("created_at"@)]
}

/// The path of a tweet node's extended-media array.
pub open spec fn media_path() -> Seq<SegView> {
    seq![SegView::Key("legacy"@), SegView::Key("extended_entities"@), SegView::Key("media"@)]
}

/// The path of the entries array within a response document.
pub open spec fn entries_path() -> Seq<SegView> {
    seq![
        SegView::Key("data"@),
        SegView::Key("threaded_conversation_with_injections_v2"@),
        SegView::Key("instructions"@),
        SegView::Index(0),
        SegView::Key("entries"@),
    ]
}

/// The path of the root tweet node within a response document.
pub open spec fn root_node_path() -> Seq<SegView> {
    entries_path() + seq![
        SegView::Index(0),
        SegView::Key("content"@),
        SegView::Key("itemContent"@),
        SegView::Key("tweet_results"@),
        SegView::Key("result"@),
    ]
}

/// The path of the reply items array within a response document.
pub open spec fn items_path() -> Seq<SegView> {
    entries_path() + seq![
        SegView::Index(1),
        SegView::Key("content"@),
        SegView::Key("items"@),
    ]
}

/// The path of a reply's tweet node within one reply item.
pub open spec fn reply_node_path() -> Seq<SegView> {
    seq![
        SegView::Key("item"@),
        SegView::Key("itemContent"@),
        SegView::Key("tweet_results"@),
        SegView::Key("result"@),
    ]
}

/// What a tweet node's extended-media array resolves to: `None` where the
/// node is absent, not an array, or an empty array; otherwise the resolved
/// entries, or the first resolution error.
pub open spec fn tweet_media_spec(node: JsonValue) -> Result<
    Option<Seq<MediaView>>,
    ExtractErrorView,
> {
    match opt_array_at(node, media_path()) {
        Option::None => Ok(Option::None),
        Option::Some(items) => if items.len() == 0 {
            Ok(Option::None)
        } else {
            match media_list_spec(items) {
                Ok(ms) => Ok(Option::Some(ms)),
                Err(e) => Err(e),
            }
        },
    }
}

/// What one tweet node extracts to under index `index`: the validated tweet,
/// or the first error.  The type discriminator must be the literal `Tweet`;
/// id, text, timestamp, author name and handle are required strings; the
/// URLs are derived from handle and id.
pub open spec fn tweet_spec(node: JsonValue, index: u64) -> Result<TweetView, ExtractErrorView> {
    match text_at(node, typename_path()) {
        Err(e) => Err(e),
        Ok(tn) => if tn != "Tweet"@ {
            Err(
                ExtractErrorView::TypeMismatch {
                    path: path_text(typename_path()),
                    expected: "Tweet"@,
                    actual: tn,
                },
            )
        } else {
            match text_at(node, screen_name_path()) {
                Err(e) => Err(e),
                Ok(handle) => match text_at(node, rest_id_path()) {
                    Err(e) => Err(e),
                    Ok(id) => match text_at(node, author_name_path()) {
                        Err(e) => Err(e),
                        Ok(name) => match tweet_media_spec(node) {
                            Err(e) => Err(e),
                            Ok(media) => match text_at(node, full_text_path()) {
                                Err(e) => Err(e),
                                Ok(text) => match text_at(node, created_at_path()) {
                                    Err(e) => Err(e),
                                    Ok(created_at) => Ok(
                                        TweetView {
                                            id: id,
                                            index: index,
                                            author: AuthorView {
                                                name: name,
                                                handle: handle,
                                                url: author_url_spec(handle),
                                            },
                                            text: text,
                                            media: media,
                                            created_at: created_at,
                                            url: tweet_url_spec(handle, id),
                                        },
                                    ),
                                },
                            },
                        },
                    },
                },
            }
        },
    }
}

/// What one reply item extracts to: its nested tweet node under `index`.
pub open spec fn reply_spec(item: JsonValue, index: u64) -> Result<TweetView, ExtractErrorView> {
    match lookup_spec(item, reply_node_path()) {
        Err(e) => Err(e),
        Ok(node) => tweet_spec(node, index),
    }
}

/// What the first `n` reply items extract to, with indices 2 onwards, or the
/// first error.
pub open spec fn replies_upto(items: Seq<JsonValue>, n: nat) -> Result<
    Seq<TweetView>,
    ExtractErrorView,
>
    decreases n,
{
    if n == 0 {
        Ok(Seq::empty())
    } else {
        match replies_upto(items, (n - 1) as nat) {
            Err(e) => Err(e),
            Ok(rest) => match reply_spec(items[n - 1], ((n - 1) + 2) as u64) {
                Ok(t) => Ok(rest.push(t)),
                Err(e) => Err(e),
            },
        }
    }
}

/// What a whole response document extracts to: the thread, or the first
/// error.  The entries array is required structurally; the root tweet is the
/// node under entry 0; the replies are the items under entry 1, read as an
/// empty list when that section does not resolve to an array.
pub open spec fn extract_spec(doc: JsonValue) -> Result<TwitterThreadView, ExtractErrorView> {
    match array_at(doc, entries_path()) {
        Err(e) => Err(e),
        Ok(_entries) => match lookup_spec(doc, root_node_path()) {
            Err(e) => Err(e),
            Ok(root_node) => match tweet_spec(root_node, 1) {
                Err(e) => Err(e),
                Ok(root) => match opt_array_at(doc, items_path()) {
                    Option::None => Ok(TwitterThreadView { tweet: root, thread: Seq::empty() }),
                    Option::Some(items) => if items.len() + 2 > u64::MAX {
                        Err(ExtractErrorView::MalformedResponse { path: path_text(items_path()) })
                    } else {
                        match replies_upto(items, items.len()) {
                            Ok(rs) => Ok(TwitterThreadView { tweet: root, thread: rs }),
                            Err(e) => Err(e),
                        }
                    },
                },
            },
        },
    }
}

/// Extracts one tweet from its node.
pub fn parse_tweet(node: &JsonValue, index: u64) -> (r: Result<Tweet, ExtractError>)
    ensures
        match r {
            Ok(t) => tweet_spec(*node, index) == Ok::<TweetView, ExtractErrorView>(t@),
            Err(e) => tweet_spec(*node, index) == Err::<TweetView, ExtractErrorView>(e@),
        },
{
    let typename_segs = vec![key_seg("__typename")];
    proof {
        assert(segs_view(typename_segs@) =~= typename_path());
    }
    let typename = match get_text(node, &typename_segs) {
        Ok(s) => s,
        Err(e) => {
            return Err(e);
        },
    };
    if !(*typename == String::from_str("Tweet")) {
        return Err(
            ExtractError::TypeMismatch {
                path: path_to_text(&typename_segs),
                expected: String::from_str("Tweet"),
                actual: typename.clone(),
            },
        );
    }
    let screen_name_segs = vec![
        key_seg("core"),
        key_seg("user_results"),
        key_seg("result"),
        key_seg("legacy"),
        key_seg("screen_name"),
    ];
    proof {
        assert(segs_view(screen_name_segs@) =~= screen_name_path());
    }
    let handle = match get_text(node, &screen_name_segs) {
        Ok(s) => s,
        Err(e) => {
            return Err(e);
        },
    };
    let rest_id_segs = vec![key_seg("rest_id")];
    proof {
        assert(segs_view(rest_id_segs@) =~= rest_id_path());
    }
    let id = match get_text(node, &rest_id_segs) {
        Ok(s) => s,
        Err(e) => {
            return Err(e);
        },
    };
    let name_segs = vec![
        key_seg("core"),
        key_seg("user_results"),
        key_seg("result"),
        key_seg("legacy"),
        key_seg("name"),
    ];
    proof {
        assert(segs_view(name_segs@) =~= author_name_path());
    }
    let name = match get_text(node, &name_segs) {
        Ok(s) => s,
        Err(e) => {
            return Err(e);
        },
    };
    let media_segs = vec![
        key_seg("legacy"),
        key_seg("extended_entities"),
        key_seg("media"),
    ];
    proof {
        assert(segs_view(media_segs@) =~= media_path());
    }
    let media: Option<Vec<Media>> = match get_opt_array(node, &media_segs) {
        Option::None => Option::None,
        Option::Some(items) => {
            if items.len() == 0 {
                Option::None
            } else {
                match resolve_media(items) {
                    Ok(ms) => Option::Some(ms),
                    Err(e) => {
                        return Err(e);
                    },
                }
            }
        },
    };
    let full_text_segs = vec![key_seg("legacy"), key_seg("full_text")];
    proof {
        assert(segs_view(full_text_segs@) =~= full_text_path());
    }
    let text = match get_text(node, &full_text_segs) {
        Ok(s) => s,
        Err(e) => {
            return Err(e);
        },
    };
    let created_at_segs = vec![key_seg("legacy"), key_seg("created_at")];
    proof {
        assert(segs_view(created_at_segs@) =~= created_at_path());
    }
    let created_at = match get_text(node, &created_at_segs) {
        Ok(s) => s,
        Err(e) => {
            return Err(e);
        },
    };
    let author_url = String::from_str("https://x.com/").concat(handle.as_str());
    proof {
        assert(author_url@ =~= author_url_spec(handle@));
    }
    let tweet_url = String::from_str("https://x.com/").concat(handle.as_str()).concat(
        "/status/",
    ).concat(id.as_str());
    proof {
        assert(tweet_url@ =~= tweet_url_spec(handle@, id@));
    }
    let t = Tweet {
        id: id.clone(),
        index: index,
        author: Author { name: name.clone(), handle: handle.clone(), url: author_url },
        text: text.clone(),
        media: media,
        created_at: created_at.clone(),
        url: tweet_url,
    };
    Ok(t)
}

proof fn lemma_replies_err(items: Seq<JsonValue>, j: nat, n: nat, e: ExtractErrorView)
    requires
        j < n <= items.len(),
        replies_upto(items, j) is Ok,
        reply_spec(items[j as int], (j + 2) as u64) == Err::<TweetView, ExtractErrorView>(e),
    ensures
        replies_upto(items, n) == Err::<Seq<TweetView>, ExtractErrorView>(e),
    decreases n,
{
    if n > j + 1 {
        lemma_replies_err(items, j, (n - 1) as nat, e);
    }
}

impl TwitterThread {
    /// Validates and projects a parsed response document into a thread: the
    /// single entry point of the extractor.
    #[verifier::loop_isolation(false)]
    pub fn try_from(doc: &JsonValue) -> (r: Result<TwitterThread, ExtractError>)
        ensures
            match r {
                Ok(t) => extract_spec(*doc) == Ok::<TwitterThreadView, ExtractErrorView>(t@),
                Err(e) => extract_spec(*doc) == Err::<TwitterThreadView, ExtractErrorView>(e@),
            },
    {
        let entries_segs = vec![
            key_seg("data"),
            key_seg("threaded_conversation_with_injections_v2"),
            key_seg("instructions"),
            index_seg(0),
            key_seg("entries"),
        ];
        proof {
            assert(segs_view(entries_segs@) =~= entries_path());
        }
        match get_array(doc, &entries_segs) {
            Ok(_) => {},
            Err(e) => {
                return Err(e);
            },
        }
        let root_segs = vec![
            key_seg("data"),
            key_seg("threaded_conversation_with_injections_v2"),
            key_seg("instructions"),
            index_seg(0),
            key_seg("entries"),
            index_seg(0),
            key_seg("content"),
            key_seg("itemContent"),
            key_seg("tweet_results"),
            key_seg("result"),
        ];
        proof {
            assert(segs_view(root_segs@) =~= root_node_path());
        }
        let root_node = match lookup(doc, &root_segs) {
            Ok(n) => n,
            Err(e) => {
                return Err(e);
            },
        };
        let root = match parse_tweet(root_node, 1) {
            Ok(t) => t,
            Err(e) => {
                return Err(e);
            },
        };
        let items_segs = vec![
            key_seg("data"),
            key_seg("threaded_conversation_with_injections_v2"),
            key_seg("instructions"),
            index_seg(0),
            key_seg("entries"),
            index_seg(1),
            key_seg("content"),
            key_seg("items"),
        ];
        proof {
            assert(segs_view(items_segs@) =~= items_path());
        }
        let items = match get_opt_array(doc, &items_segs) {
            Option::Some(items) => items,
            Option::None => {
                let empty_thread: Vec<Tweet> = Vec::new();
                proof {
                    assert(tweet_views(empty_thread@) =~= Seq::<TweetView>::empty());
                }
                return Ok(TwitterThread { tweet: root, thread: empty_thread });
            },
        };
        if items.len() as u64 > u64::MAX - 2 {
            return Err(ExtractError::MalformedResponse { path: path_to_text(&items_segs) });
        }
        let reply_segs = vec![
            key_seg("item"),
            key_seg("itemContent"),
            key_seg("tweet_results"),
            key_seg("result"),
        ];
        proof {
            assert(segs_view(reply_segs@) =~= reply_node_path());
        }
        let mut thread: Vec<Tweet> = Vec::new();
        let mut j: usize = 0;
        proof {
            assert(tweet_views(thread@) =~= Seq::<TweetView>::empty());
        }
        while j < items.len()
            invariant
                j <= items.len(),
                items@.len() + 2 <= u64::MAX,
                segs_view(reply_segs@) == reply_node_path(),
                replies_upto(items@, j as nat) == Ok::<Seq<TweetView>, ExtractErrorView>(
                    tweet_views(thread@),
                ),
            decreases items.len() - j,
        {
            let node = match lookup(&items[j], &reply_segs) {
                Ok(n) => n,
                Err(e) => {
                    proof {
                        lemma_replies_err(items@, j as nat, items@.len(), e@);
                    }
                    return Err(e);
                },
            };
            match parse_tweet(node, j as u64 + 2) {
                Ok(t) => {
                    let ghost prev = tweet_views(thread@);
                    thread.push(t);
                    proof {
                        assert(tweet_views(thread@) =~= prev.push(thread@[thread@.len() - 1]@));
                    }
                },
                Err(e) => {
                    proof {
                        lemma_replies_err(items@, j as nat, items@.len(), e@);
                    }
                    return Err(e);
                },
            }
            j = j + 1;
        }
        Ok(TwitterThread { tweet: root, thread: thread })
    }
}

/// Extracts a thread straight from response text: the text is parsed into a
/// document and the document extracted.  Text that is not valid JSON fails
/// with `MalformedResponse` naming the empty path (the document root).
pub fn thread_from_text(text: &str) -> (r: Result<TwitterThread, ExtractError>)
    ensures
        match crate::json::parsed_document(text@) {
            Option::Some(doc) => match r {
                Ok(t) => extract_spec(doc) == Ok::<TwitterThreadView, ExtractErrorView>(t@),
                Err(e) => extract_spec(doc) == Err::<TwitterThreadView, ExtractErrorView>(e@),
            },
            Option::None => r matches Err(e) && e@ == (ExtractErrorView::MalformedResponse {
                path: Seq::empty(),
            }),
        },
{
    match crate::json::parse_document(text) {
        Option::Some(doc) => TwitterThread::try_from(&doc),
        Option::None => {
            let e = ExtractError::MalformedResponse { path: String::new() };
            proof {
                assert(e@ == (ExtractErrorView::MalformedResponse { path: Seq::<char>::empty() }));
            }
            Err(e)
        },
    }
}

/// Law: in any extracted thread, the root has index 1 and the reply at
/// position `i` has index `i + 2`.
pub proof fn lemma_thread_indices(doc: JsonValue, t: TwitterThreadView)
    requires
        extract_spec(doc) == Ok::<TwitterThreadView, ExtractErrorView>(t),
    ensures
        t.tweet.index == 1,
        forall|i: int| 0 <= i < t.thread.len() ==> #[trigger] t.thread[i].index == i + 2,
{
    lemma_extract_shape(doc, t);
}

/// Law: in any extracted thread, every tweet's URL is derived from its
/// author handle and id, and every author URL from the handle, by the fixed
/// concatenations [`tweet_url_spec`] and [`author_url_spec`].
pub proof fn lemma_thread_urls(doc: JsonValue, t: TwitterThreadView)
    requires
        extract_spec(doc) == Ok::<TwitterThreadView, ExtractErrorView>(t),
    ensures
        t.tweet.url == tweet_url_spec(t.tweet.author.handle, t.tweet.id),
        t.tweet.author.url == author_url_spec(t.tweet.author.handle),
        forall|i: int| 0 <= i < t.thread.len() ==> #[trigger] t.thread[i].url == tweet_url_spec(
            t.thread[i].author.handle,
            t.thread[i].id,
        ) && t.thread[i].author.url == author_url_spec(t.thread[i].author.handle),
{
    lemma_extract_shape(doc, t);
}

/// Law: a tweet whose extended-media node is absent, not an array, or an
/// empty array extracts with no media; this holds for the root and for every
/// reply, since each goes through [`tweet_spec`].
pub proof fn lemma_no_media(node: JsonValue, index: u64, t: TweetView)
    requires
        tweet_spec(node, index) == Ok::<TweetView, ExtractErrorView>(t),
        match opt_array_at(node, media_path()) {
            Option::None => true,
            Option::Some(items) => items.len() == 0,
        },
    ensures
        t.media is None,
{
}

/// The per-tweet facts behind the index and URL laws.
proof fn lemma_tweet_spec_fields(node: JsonValue, index: u64, t: TweetView)
    requires
        tweet_spec(node, index) == Ok::<TweetView, ExtractErrorView>(t),
    ensures
        t.index == index,
        t.url == tweet_url_spec(t.author.handle, t.id),
        t.author.url == author_url_spec(t.author.handle),
{
}

proof fn lemma_replies_shape(items: Seq<JsonValue>, n: nat, rs: Seq<TweetView>)
    requires
        n <= items.len(),
        n + 2 <= u64::MAX,
        replies_upto(items, n) == Ok::<Seq<TweetView>, ExtractErrorView>(rs),
    ensures
        rs.len() == n,
        forall|i: int| 0 <= i < n ==> #[trigger] rs[i].index == i + 2,
        forall|i: int| 0 <= i < n ==> #[trigger] rs[i].url == tweet_url_spec(
            rs[i].author.handle,
            rs[i].id,
        ) && rs[i].author.url == author_url_spec(rs[i].author.handle),
        forall|i: int| 0 <= i < n ==> reply_spec(items[i], ((i + 2) as u64)) == Ok::<
            TweetView,
            ExtractErrorView,
        >(#[trigger] rs[i]),
    decreases n,
{
    if n > 0 {
        let prev = replies_upto(items, (n - 1) as nat);
        match prev {
            Ok(rest) => {
                lemma_replies_shape(items, (n - 1) as nat, rest);
                match reply_spec(items[n - 1], ((n - 1) + 2) as u64) {
                    Ok(last) => {
                        match lookup_spec(items[n - 1], reply_node_path()) {
                            Ok(node) => {
                                lemma_tweet_spec_fields(node, ((n - 1) + 2) as u64, last);
                                assert(rs == rest.push(last));
                                assert forall|i: int| 0 <= i < n implies #[trigger] rs[i].index == i
                                    + 2 by {
                                    if i < n - 1 {
                                        assert(rs[i] == rest[i]);
                                    } else {
                                        assert(rs[i] == last);
                                    }
                                }
                                assert forall|i: int| 0 <= i < n implies #[trigger] rs[i].url
                                    == tweet_url_spec(rs[i].author.handle, rs[i].id)
                                    && rs[i].author.url == author_url_spec(
                                    rs[i].author.handle,
                                ) by {
                                    if i < n - 1 {
                                        assert(rs[i] == rest[i]);
                                    } else {
                                        assert(rs[i] == last);
                                    }
                                }
                                assert forall|i: int| 0 <= i < n implies reply_spec(
                                    items[i],
                                    ((i + 2) as u64),
                                ) == Ok::<TweetView, ExtractErrorView>(#[trigger] rs[i]) by {
                                    if i < n - 1 {
                                        assert(rs[i] == rest[i]);
                                    } else {
                                        assert(rs[i] == last);
                                    }
                                }
                            },
                            Err(_) => {
                                assert(false);
                            },
                        }
                    },
                    Err(_) => {
                        assert(false);
                    },
                }
            },
            Err(_) => {
                assert(false);
            },
        }
    }
}

/// Law: an extracted thread is exactly the per-node extractions — the root
/// tweet is the extraction of the root node under index 1, and the reply at
/// position `i` the extraction of its item under index `i + 2`.  Together
/// with [`lemma_no_media`] this carries per-tweet facts, such as the absence
/// of media, to the root and to every reply of a whole thread.
pub proof fn lemma_thread_decomposition(doc: JsonValue, t: TwitterThreadView)
    requires
        extract_spec(doc) == Ok::<TwitterThreadView, ExtractErrorView>(t),
    ensures
        match lookup_spec(doc, root_node_path()) {
            Ok(root_node) => tweet_spec(root_node, 1) == Ok::<TweetView, ExtractErrorView>(
                t.tweet,
            ),
            Err(_) => false,
        },
        match opt_array_at(doc, items_path()) {
            Option::None => t.thread.len() == 0,
            Option::Some(items) => t.thread.len() == items.len() && forall|i: int|
                0 <= i < items.len() ==> reply_spec(items[i], ((i + 2) as u64)) == Ok::<
                    TweetView,
                    ExtractErrorView,
                >(#[trigger] t.thread[i]),
        },
{
    match lookup_spec(doc, root_node_path()) {
        Ok(_) => {
            match opt_array_at(doc, items_path()) {
                Option::None => {},
                Option::Some(items) => {
                    lemma_replies_shape(items, items.len(), t.thread);
                },
            }
        },
        Err(_) => {
            assert(false);
        },
    }
}

proof fn lemma_extract_shape(doc: JsonValue, t: TwitterThreadView)
    requires
        extract_spec(doc) == Ok::<TwitterThreadView, ExtractErrorView>(t),
    ensures
        t.tweet.index == 1,
        t.tweet.url == tweet_url_spec(t.tweet.author.handle, t.tweet.id),
        t.tweet.author.url == author_url_spec(t.tweet.author.handle),
        forall|i: int| 0 <= i < t.thread.len() ==> #[trigger] t.thread[i].index == i + 2,
        forall|i: int| 0 <= i < t.thread.len() ==> #[trigger] t.thread[i].url == tweet_url_spec(
            t.thread[i].author.handle,
            t.thread[i].id,
        ) && t.thread[i].author.url == author_url_spec(t.thread[i].author.handle),
{
    match lookup_spec(doc, root_node_path()) {
        Ok(root_node) => {
            lemma_tweet_spec_fields(root_node, 1, t.tweet);
            match opt_array_at(doc, items_path()) {
                Option::None => {},
                Option::Some(items) => {
                    lemma_replies_shape(items, items.len(), t.thread);
                },
            }
        },
        Err(_) => {
            assert(false);
        },
    }
}

} // verus!
