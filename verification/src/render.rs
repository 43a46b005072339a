//! The markdown renderer: a pure, total function from a thread to one fixed
//! textual document.
//!
//! The document is, in order: a heading naming the author and linking the
//! handle to the author URL; the root timestamp in italics; one block per
//! tweet (a `#<index>` heading linking to the tweet URL, the verbatim text,
//! then one line per media item); a blank line after the root block and after
//! the reply blocks; and a footer linking back to the root tweet.  No
//! escaping, reordering or truncation is applied.

use vstd::prelude::*;
use vstd::string::StringExecFns;
use crate::digits::{dec_str, u64_text};
use crate::media::MediaView;
use crate::twitter_threads::{Tweet, TweetView, TwitterThread, TwitterThreadView};

verus! {

/// The media lines of a tweet block: the first `n` pre-rendered markdown
/// snippets, each on its own line.
pub open spec fn media_lines_upto(ms: Seq<MediaView>, n: nat) -> Seq<char>
    decreases n,
{
    if n == 0 {
        Seq::empty()
    } else {
        media_lines_upto(ms, (n - 1) as nat) + ms[n - 1].markdown + "\n"@
    }
}

/// The media lines of a tweet block: empty where the tweet has no media.
pub open spec fn media_lines_spec(media: Option<Seq<MediaView>>) -> Seq<char> {
    match media {
        Option::None => Seq::empty(),
        Option::Some(ms) => media_lines_upto(ms, ms.len()),
    }
}

/// One tweet's block: heading, text, media lines.
pub open spec fn tweet_block_spec(tw: TweetView) -> Seq<char> {
    "# [#"@ + dec_str(tw.index as nat) + "]("@ + tw.url + ")\n"@ + tw.text + "\n"@
        + media_lines_spec(tw.media)
}

/// The blocks of the first `n` replies, in stored order.
pub open spec fn reply_blocks_upto(rs: Seq<TweetView>, n: nat) -> Seq<char>
    decreases n,
{
    if n == 0 {
        Seq::empty()
    } else {
        reply_blocks_upto(rs, (n - 1) as nat) + tweet_block_spec(rs[n - 1])
    }
}

/// The whole rendered document of a thread.
pub open spec fn render_spec(t: TwitterThreadView) -> Seq<char> {
    "# "@ + t.tweet.author.name + " ([@"@ + t.tweet.author.handle + "]("@ + t.tweet.author.url
        + "))\n_"@ + t.tweet.created_at + "_\n\n"@ + tweet_block_spec(t.tweet) + "\n"@
        + reply_blocks_upto(t.thread, t.thread.len()) + "\n### [_View on Twitter_]("@
        + t.tweet.url + ")\n"@
}

/// Appends one tweet's block to the output.
#[verifier::loop_isolation(false)]
fn append_tweet_block(out: &mut String, tw: &Tweet)
    ensures
        final(out)@ == old(out)@ + tweet_block_spec(tw@),
{
    out.append("# [#");
    let idx = u64_text(tw.index);
    out.append(idx.as_str());
    out.append("](");
    out.append(tw.url.as_str());
    out.append(")\n");
    out.append(tw.text.as_str());
    out.append("\n");
    let ghost base = out@;
    proof {
        assert(base =~= old(out)@ + "# [#"@ + dec_str(tw.index as nat) + "]("@ + tw@.url + ")\n"@
            + tw@.text + "\n"@);
    }
    match &tw.media {
        Option::None => {
            proof {
                assert(out@ =~= old(out)@ + tweet_block_spec(tw@));
            }
        },
        Option::Some(ms) => {
            let ghost mviews = crate::media::media_views(ms@);
            let mut j: usize = 0;
            proof {
                assert(media_lines_upto(mviews, 0) =~= Seq::<char>::empty());
                assert(out@ =~= base + media_lines_upto(mviews, 0));
            }
            while j < ms.len()
                invariant
                    j <= ms.len(),
                    out@ == base + media_lines_upto(mviews, j as nat),
                decreases ms.len() - j,
            {
                out.append(ms[j].markdown.as_str());
                out.append("\n");
                proof {
                    assert(mviews[j as int] == ms@[j as int]@);
                    assert(out@ =~= base + media_lines_upto(mviews, (j + 1) as nat));
                }
                j = j + 1;
            }
            proof {
                assert(out@ =~= old(out)@ + tweet_block_spec(tw@));
            }
        },
    }
}

/// Renders a thread into its markdown document.  Rendering is a pure
/// function of the thread — it performs no input or output and never fails —
/// and two renderings of equal threads are byte-identical.
#[verifier::loop_isolation(false)]
pub fn render_markdown(t: &TwitterThread) -> (r: String)
    ensures
        r@ == render_spec(t@),
{
    let mut out = String::new();
    out.append("# ");
    out.append(t.tweet.author.name.as_str());
    out.append(" ([@");
    out.append(t.tweet.author.handle.as_str());
    out.append("](");
    out.append(t.tweet.author.url.as_str());
    out.append("))\n_");
    out.append(t.tweet.created_at.as_str());
    out.append("_\n\n");
    append_tweet_block(&mut out, &t.tweet);
    out.append("\n");
    let ghost base = out@;
    proof {
        assert(base =~= "# "@ + t@.tweet.author.name + " ([@"@ + t@.tweet.author.handle + "]("@
            + t@.tweet.author.url + "))\n_"@ + t@.tweet.created_at + "_\n\n"@ + tweet_block_spec(
            t@.tweet,
        ) + "\n"@);
        assert(reply_blocks_upto(t@.thread, 0) =~= Seq::<char>::empty());
        assert(out@ =~= base + reply_blocks_upto(t@.thread, 0));
    }
    let mut j: usize = 0;
    while j < t.thread.len()
        invariant
            j <= t.thread.len(),
            out@ == base + reply_blocks_upto(t@.thread, j as nat),
        decreases t.thread.len() - j,
    {
        append_tweet_block(&mut out, &t.thread[j]);
        proof {
            assert(t@.thread[j as int] == t.thread@[j as int]@);
            assert(out@ =~= base + reply_blocks_upto(t@.thread, (j + 1) as nat));
        }
        j = j + 1;
    }
    out.append("\n### [_View on Twitter_](");
    out.append(t.tweet.url.as_str());
    out.append(")\n");
    proof {
        assert(out@ =~= render_spec(t@));
    }
    out
}

/// Law: rendering is deterministic and pure — it is a function of the
/// thread's shape alone, so threads of equal shape render to identical text.
pub proof fn lemma_render_deterministic(a: TwitterThreadView, b: TwitterThreadView)
    requires
        a == b,
    ensures
        render_spec(a) == render_spec(b),
{
}

} // verus!
