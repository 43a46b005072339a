//! The media resolver: turns a tweet's raw media array into pre-rendered
//! markdown snippets, selecting one rendition URL for each video.

use vstd::prelude::*;
use vstd::string::StringExecFns;
use crate::errors::{ExtractError, ExtractErrorView};
use crate::json::{
    array_at, get_array, get_text, get_uint_or_zero, key_seg, segs_view, text_at, uint_at_or_zero,
    JsonValue, PathSeg, SegView,
};

verus! {

/// Whether a media entry is a photo or a video.
#[derive(Debug, Clone, Copy, PartialEq, Eq, Structural)]
pub enum MediaType {
    Photo,
    Video,
}

/// One resolved media entry: its pre-rendered markdown line and its kind.
#[derive(Debug)]
pub struct Media {
    pub markdown: String,
    pub media_type: MediaType,
}

/// The mathematical shape of a [`Media`].
pub struct MediaView {
    pub markdown: Seq<char>,
    pub media_type: MediaType,
}

impl View for Media {
    type V = MediaView;

    open spec fn view(&self) -> MediaView {
        MediaView { markdown: self.markdown@, media_type: self.media_type }
    }
}

/// The views of a sequence of media entries.
pub open spec fn media_views(ms: Seq<Media>) -> Seq<MediaView> {
    ms.map_values(|m: Media| m@)
}

/// The path of a media entry's type tag.
pub open spec fn type_path() -> Seq<SegView> {
    seq![SegView::Key("type"@)]
}

/// The path of a media entry's display URL (photo image, or video cover).
pub open spec fn media_url_path() -> Seq<SegView> {
    seq![SegView::Key("media_url_https"@)]
}

/// The path of a video entry's rendition variants.
pub open spec fn variants_path() -> Seq<SegView> {
    seq![SegView::Key("video_info"@), SegView::Key("variants"@)]
}

/// The path of a variant's URL.
pub open spec fn variant_url_path() -> Seq<SegView> {
    seq![SegView::Key("url"@)]
}

/// The path of a variant's bitrate.
pub open spec fn variant_bitrate_path() -> Seq<SegView> {
    seq![SegView::Key("bitrate"@)]
}

/// A variant's effective bitrate: its unsigned numeric `bitrate` field, and
/// zero where that field is absent or of another shape.
pub open spec fn variant_bitrate(v: JsonValue) -> u64 {
    uint_at_or_zero(v, variant_bitrate_path())
}

/// The chosen (URL, best bitrate) pair after scanning the first `n` variants.
/// The scan starts from the first variant's URL with a best bitrate of zero,
/// and replaces its choice whenever a variant's effective bitrate is strictly
/// greater than the best seen so far — so the first variant wins ties, and
/// variants without a numeric bitrate never displace an existing choice.
pub open spec fn scan_variants(vs: Seq<JsonValue>, n: nat) -> Result<
    (Seq<char>, u64),
    ExtractErrorView,
>
    decreases n,
{
    if n == 0 {
        match text_at(vs[0], variant_url_path()) {
            Ok(u) => Ok((u, 0u64)),
            Err(e) => Err(e),
        }
    } else {
        match scan_variants(vs, (n - 1) as nat) {
            Ok(p) => {
                let nb = variant_bitrate(vs[n - 1]);
                if nb > p.1 {
                    match text_at(vs[n - 1], variant_url_path()) {
                        Ok(u2) => Ok((u2, nb)),
                        Err(e) => Err(e),
                    }
                } else {
                    Ok(p)
                }
            },
            Err(e) => Err(e),
        }
    }
}

/// What resolving one raw media entry yields: its markdown and kind, or the
/// classified error.  A photo entry renders as `![photo](<url>)`; a video
/// entry renders as `[![video](<cover>)](<chosen variant url>)`.
pub open spec fn media_spec(m: JsonValue) -> Result<MediaView, ExtractErrorView> {
    match text_at(m, type_path()) {
        Err(e) => Err(e),
        Ok(t) => if t == "photo"@ {
            match text_at(m, media_url_path()) {
                Ok(u) => Ok(
                    MediaView {
                        markdown: "![photo]("@ + u + ")"@,
                        media_type: MediaType::Photo,
                    },
                ),
                Err(e) => Err(e),
            }
        } else if t == "video"@ {
            match array_at(m, variants_path()) {
                Err(e) => Err(e),
                Ok(vs) => if vs.len() == 0 {
                    Err(ExtractErrorView::MissingVariants)
                } else {
                    match scan_variants(vs, vs.len()) {
                        Err(e) => Err(e),
                        Ok(p) => match text_at(m, media_url_path()) {
                            Ok(cover) => Ok(
                                MediaView {
                                    markdown: "[![video]("@ + cover + ")]("@ + p.0 + ")"@,
                                    media_type: MediaType::Video,
                                },
                            ),
                            Err(e) => Err(e),
                        },
                    }
                },
            }
        } else {
            Err(ExtractErrorView::UnknownMediaType { value: t })
        },
    }
}

/// What resolving the first `n` entries of a raw media array yields: their
/// resolved forms in array order, or the first error.
pub open spec fn media_list_upto(items: Seq<JsonValue>, n: nat) -> Result<
    Seq<MediaView>,
    ExtractErrorView,
>
    decreases n,
{
    if n == 0 {
        Ok(Seq::empty())
    } else {
        match media_list_upto(items, (n - 1) as nat) {
            Err(e) => Err(e),
            Ok(rest) => match media_spec(items[n - 1]) {
                Ok(m) => Ok(rest.push(m)),
                Err(e) => Err(e),
            },
        }
    }
}

/// What resolving a whole raw media array yields.
pub open spec fn media_list_spec(items: Seq<JsonValue>) -> Result<
    Seq<MediaView>,
    ExtractErrorView,
> {
    media_list_upto(items, items.len())
}

proof fn lemma_media_list_err(items: Seq<JsonValue>, j: nat, n: nat, e: ExtractErrorView)
    requires
        j < n <= items.len(),
        media_list_upto(items, j) is Ok,
        media_spec(items[j as int]) == Err::<MediaView, ExtractErrorView>(e),
    ensures
        media_list_upto(items, n) == Err::<Seq<MediaView>, ExtractErrorView>(e),
    decreases n,
{
    if n > j + 1 {
        lemma_media_list_err(items, j, (n - 1) as nat, e);
    }
}

proof fn lemma_scan_err(vs: Seq<JsonValue>, k: nat, n: nat, e: ExtractErrorView)
    requires
        k <= n,
        scan_variants(vs, k) == Err::<(Seq<char>, u64), ExtractErrorView>(e),
    ensures
        scan_variants(vs, n) == Err::<(Seq<char>, u64), ExtractErrorView>(e),
    decreases n - k,
{
    if n > k {
        lemma_scan_err(vs, k, (n - 1) as nat, e);
    }
}

/// Resolves one raw media entry.
fn resolve_one(m: &JsonValue) -> (r: Result<Media, ExtractError>)
    ensures
        match r {
            Ok(mm) => media_spec(*m) == Ok::<MediaView, ExtractErrorView>(mm@),
            Err(e) => media_spec(*m) == Err::<MediaView, ExtractErrorView>(e@),
        },
{
    let type_segs = vec![key_seg("type")];
    proof {
        assert(segs_view(type_segs@) =~= type_path());
    }
    let t = match get_text(m, &type_segs) {
        Ok(s) => s,
        Err(e) => {
            return Err(e);
        },
    };
    let url_segs = vec![key_seg("media_url_https")];
    proof {
        assert(segs_view(url_segs@) =~= media_url_path());
    }
    if *t == String::from_str("photo") {
        let u = match get_text(m, &url_segs) {
            Ok(s) => s,
            Err(e) => {
                return Err(e);
            },
        };
        let md = String::from_str("![photo](").concat(u.as_str()).concat(")");
        proof {
            assert(md@ =~= "![photo]("@ + u@ + ")"@);
        }
        Ok(Media { markdown: md, media_type: MediaType::Photo })
    } else if *t == String::from_str("video") {
        let variants_segs = vec![key_seg("video_info"), key_seg("variants")];
        proof {
            assert(segs_view(variants_segs@) =~= variants_path());
        }
        let vs = match get_array(m, &variants_segs) {
            Ok(a) => a,
            Err(e) => {
                return Err(e);
            },
        };
        if vs.len() == 0 {
            return Err(ExtractError::MissingVariants);
        }
        let chosen_url = select_variant_url(vs)?;
        let cover = match get_text(m, &url_segs) {
            Ok(s) => s,
            Err(e) => {
                return Err(e);
            },
        };
        let md = String::from_str("[![video](").concat(cover.as_str()).concat(")](").concat(
            chosen_url.as_str(),
        ).concat(")");
        proof {
            assert(md@ =~= "[![video]("@ + cover@ + ")]("@ + chosen_url@ + ")"@);
        }
        Ok(Media { markdown: md, media_type: MediaType::Video })
    } else {
        Err(ExtractError::UnknownMediaType { value: t.clone() })
    }
}

/// Selects the rendition URL of a non-empty variants array, preferring the
/// strictly greatest bitrate and letting the first variant win ties.
fn select_variant_url(vs: &Vec<JsonValue>) -> (r: Result<String, ExtractError>)
    requires
        vs@.len() > 0,
    ensures
        match r {
            Ok(u) => scan_variants(vs@, vs@.len()) == Ok::<(Seq<char>, u64), ExtractErrorView>(
                (u@, scan_variants(vs@, vs@.len())->Ok_0.1),
            ),
            Err(e) => scan_variants(vs@, vs@.len()) == Err::<(Seq<char>, u64), ExtractErrorView>(
                e@,
            ),
        },
{
    let url_segs = vec![key_seg("url")];
    proof {
        assert(segs_view(url_segs@) =~= variant_url_path());
    }
    let bitrate_segs = vec![key_seg("bitrate")];
    proof {
        assert(segs_view(bitrate_segs@) =~= variant_bitrate_path());
    }
    let mut chosen: &String = match get_text(&vs[0], &url_segs) {
        Ok(u) => u,
        Err(e) => {
            proof {
                lemma_scan_err(vs@, 0, vs@.len(), e@);
            }
            return Err(e);
        },
    };
    let mut best: u64 = 0;
    let mut j: usize = 0;
    while j < vs.len()
        invariant
            j <= vs.len(),
            vs@.len() > 0,
            segs_view(url_segs@) == variant_url_path(),
            segs_view(bitrate_segs@) == variant_bitrate_path(),
            scan_variants(vs@, j as nat) == Ok::<(Seq<char>, u64), ExtractErrorView>(
                (chosen@, best),
            ),
        decreases vs.len() - j,
    {
        let nb = get_uint_or_zero(&vs[j], &bitrate_segs);
        if nb > best {
            chosen = match get_text(&vs[j], &url_segs) {
                Ok(u) => u,
                Err(e) => {
                    proof {
                        lemma_scan_err(vs@, (j + 1) as nat, vs@.len(), e@);
                    }
                    return Err(e);
                },
            };
            best = nb;
        }
        j = j + 1;
    }
    Ok(chosen.clone())
}

/// Resolves a whole raw media array, in array order.
pub fn resolve_media(items: &Vec<JsonValue>) -> (r: Result<Vec<Media>, ExtractError>)
    ensures
        match r {
            Ok(ms) => media_list_spec(items@) == Ok::<Seq<MediaView>, ExtractErrorView>(
                media_views(ms@),
            ),
            Err(e) => media_list_spec(items@) == Err::<Seq<MediaView>, ExtractErrorView>(e@),
        },
{
    let mut out: Vec<Media> = Vec::new();
    let mut j: usize = 0;
    proof {
        assert(media_views(out@) =~= Seq::<MediaView>::empty());
    }
    while j < items.len()
        invariant
            j <= items.len(),
            media_list_upto(items@, j as nat) == Ok::<Seq<MediaView>, ExtractErrorView>(
                media_views(out@),
            ),
        decreases items.len() - j,
    {
        match resolve_one(&items[j]) {
            Ok(m) => {
                let ghost prev = media_views(out@);
                out.push(m);
                proof {
                    assert(media_views(out@) =~= prev.push(out@[out@.len() - 1]@));
                }
            },
            Err(e) => {
                proof {
                    lemma_media_list_err(items@, j as nat, items@.len(), e@);
                }
                return Err(e);
            },
        }
        j = j + 1;
    }
    Ok(out)
}

/// Law: the scan's choice is deterministic and maximal.  When selection
/// succeeds, every variant's effective bitrate is at most the chosen one;
/// with a chosen bitrate of zero (no variant carries a positive bitrate that
/// beat the default) the chosen URL is the first variant's, and otherwise it
/// is the URL of the first variant that attains the chosen bitrate.
pub proof fn lemma_variant_selection(vs: Seq<JsonValue>, u: Seq<char>, b: u64)
    requires
        vs.len() > 0,
        scan_variants(vs, vs.len()) == Ok::<(Seq<char>, u64), ExtractErrorView>((u, b)),
    ensures
        forall|k: int| 0 <= k < vs.len() ==> variant_bitrate(vs[k]) <= b,
        b == 0 ==> text_at(vs[0], variant_url_path()) == Ok::<Seq<char>, ExtractErrorView>(u),
        b > 0 ==> exists|j: int|
            0 <= j < vs.len() && variant_bitrate(vs[j]) == b && text_at(vs[j], variant_url_path())
                == Ok::<Seq<char>, ExtractErrorView>(u) && (forall|k: int|
                0 <= k < j ==> variant_bitrate(vs[k]) < b),
{
    lemma_scan_props(vs, vs.len(), u, b);
}

proof fn lemma_scan_props(vs: Seq<JsonValue>, n: nat, u: Seq<char>, b: u64)
    requires
        n <= vs.len(),
        vs.len() > 0,
        scan_variants(vs, n) == Ok::<(Seq<char>, u64), ExtractErrorView>((u, b)),
    ensures
        forall|k: int| 0 <= k < n ==> variant_bitrate(vs[k]) <= b,
        b == 0 ==> text_at(vs[0], variant_url_path()) == Ok::<Seq<char>, ExtractErrorView>(u),
        b > 0 ==> exists|j: int|
            0 <= j < n && variant_bitrate(vs[j]) == b && text_at(vs[j], variant_url_path())
                == Ok::<Seq<char>, ExtractErrorView>(u) && (forall|k: int|
                0 <= k < j ==> variant_bitrate(vs[k]) < b),
    decreases n,
{
    if n > 0 {
        let prev = scan_variants(vs, (n - 1) as nat);
        match prev {
            Ok(p) => {
                lemma_scan_props(vs, (n - 1) as nat, p.0, p.1);
                let nb = variant_bitrate(vs[n - 1]);
                if nb > p.1 {
                    assert(forall|k: int| 0 <= k < n - 1 ==> variant_bitrate(vs[k]) < nb);
                } else {
                }
            },
            Err(_) => {
                assert(false);
            },
        }
    }
}

} // verus!
