//! The thumbnail cache: one directory per source directory, holding a `.jpg`
//! thumbnail per source file, keyed by the source file's stem; and the
//! decisions taken for one listing entry, from cache lookup to cache write.
use crate::codec::{
    accept_encoded, accept_scaled_jpeg, png_thumbnail_pixels, webp_thumbnail_pixels,
    FailureStage, PixelBuffer, PixelLayout, ThumbnailError,
};
use crate::media::{file_stem, last_dot, stem_of, MediaElement, MediaFormat};
use vstd::prelude::*;
use vstd::string::StringExecFns;

verus! {

/// Sources shorter than this many bytes stand as their own thumbnails.
pub const SMALL_FILE_FLOOR: u64 = 1000;

/// `dir` and `name` joined by a `/`.
pub open spec fn joined(dir: Seq<char>, name: Seq<char>) -> Seq<char> {
    dir + "/"@ + name
}

/// Joins a directory and a name with a `/`.
pub fn join_path(dir: &str, name: &str) -> (r: String)
    ensures
        r@ == joined(dir@, name@),
{
    let mut path = dir.to_owned();
    path.append("/");
    path.append(name);
    path
}

/// File name of the thumbnail of a source with the given stem.
pub open spec fn thumbnail_file_name(stem: Seq<char>) -> Seq<char> {
    stem + ".jpg"@
}

/// Where the thumbnail of a source with the given stem lives in a cache directory.
pub open spec fn cache_file_path(dir: Seq<char>, stem: Seq<char>) -> Seq<char> {
    joined(dir, thumbnail_file_name(stem))
}

/// Returns where the thumbnail of a source with the given stem is written.
pub fn thumbnail_path_for(dir: &str, stem: &str) -> (r: String)
    ensures
        r@ == cache_file_path(dir@, stem@),
{
    let mut name = stem.to_owned();
    name.append(".jpg");
    join_path(dir, name.as_str())
}

/// The stem of a thumbnail's file name is the stem it was made for.
pub proof fn lemma_thumbnail_stem(stem: Seq<char>)
    requires
        stem.len() > 0,
    ensures
        stem_of(thumbnail_file_name(stem)) == stem,
{
    reveal_strlit(".jpg");
    let s = thumbnail_file_name(stem);
    let n = stem.len() as int;
    assert(s.len() == n + 4);
    assert(s[n] == '.' && s[n + 1] == 'j' && s[n + 2] == 'p' && s[n + 3] == 'g');
    let t1 = s.drop_last();
    let t2 = t1.drop_last();
    let t3 = t2.drop_last();
    assert(t3 =~= stem.push('.'));
    assert(last_dot(t3) == n);
    assert(t2.last() == 'j' && t2.drop_last() == t3);
    assert(last_dot(t2) == n);
    assert(t1.last() == 'p' && t1.drop_last() == t2);
    assert(last_dot(t1) == n);
    assert(s.last() == 'g' && s.drop_last() == t1);
    assert(last_dot(s) == n);
    assert(s.subrange(0, n) == stem);
}

/// Index of the first entry whose stem is `stem`, or the number of entries when none is.
pub open spec fn first_stem_match(entries: Seq<String>, stem: Seq<char>) -> int
    decreases entries.len(),
{
    if entries.len() == 0 {
        0
    } else if stem_of(entries[0]@) == stem {
        0
    } else {
        1 + first_stem_match(entries.drop_first(), stem)
    }
}

proof fn lemma_first_stem_match(entries: Seq<String>, stem: Seq<char>)
    ensures
        0 <= first_stem_match(entries, stem) <= entries.len(),
        forall|j: int| 0 <= j < first_stem_match(entries, stem) ==> stem_of(entries[j]@) != stem,
        first_stem_match(entries, stem) < entries.len() ==> stem_of(
            entries[first_stem_match(entries, stem)]@,
        ) == stem,
    decreases entries.len(),
{
    if entries.len() > 0 && stem_of(entries[0]@) != stem {
        lemma_first_stem_match(entries.drop_first(), stem);
        assert forall|j: int| 0 <= j < first_stem_match(entries, stem) implies stem_of(
            entries[j]@,
        ) != stem by {
            if j > 0 {
                assert(entries[j] == entries.drop_first()[j - 1]);
            }
        }
    }
}

pub proof fn lemma_first_stem_match_unique(entries: Seq<String>, stem: Seq<char>, i: int)
    requires
        0 <= i <= entries.len(),
        forall|j: int| 0 <= j < i ==> stem_of(entries[j]@) != stem,
        i < entries.len() ==> stem_of(entries[i]@) == stem,
    ensures
        first_stem_match(entries, stem) == i,
    decreases entries.len(),
{
    if entries.len() > 0 && i > 0 {
        assert forall|j: int| 0 <= j < i - 1 implies stem_of(entries.drop_first()[j]@) != stem by {
            assert(entries.drop_first()[j] == entries[j + 1]);
        }
        lemma_first_stem_match_unique(entries.drop_first(), stem, i - 1);
    }
}

/// Looks up the cached thumbnail of a source by its stem: the first entry of
/// `cache_set` whose stem is `file_name`, whatever its extension. Sources of
/// one directory that share a stem (`a.jpg`, `a.png`) share this entry.
pub fn find_cached_file<'a>(file_name: &str, cache_set: &'a Vec<String>) -> (r: Option<&'a String>)
    ensures
        0 <= first_stem_match(cache_set@, file_name@) <= cache_set@.len(),
        r is None <==> first_stem_match(cache_set@, file_name@) == cache_set@.len(),
        r matches Some(p) ==> *p == cache_set@[first_stem_match(cache_set@, file_name@)],
        r matches Some(p) ==> stem_of(p@) == file_name@,
{
    proof {
        lemma_first_stem_match(cache_set@, file_name@);
    }
    let key = file_name.to_owned();
    let mut i: usize = 0;
    while i < cache_set.len()
        invariant
            i <= cache_set@.len(),
            key@ == file_name@,
            forall|j: int| 0 <= j < i ==> stem_of(cache_set@[j]@) != file_name@,
        decreases cache_set.len() - i,
    {
        let entry: &String = &cache_set[i];
        if file_stem(entry.as_str()) == key {
            proof {
                lemma_first_stem_match_unique(cache_set@, file_name@, i as int);
            }
            return Some(entry);
        }
        i = i + 1;
    }
    proof {
        lemma_first_stem_match_unique(cache_set@, file_name@, i as int);
    }
    None
}

/// A cache directory and the names of the files it held when the request began.
#[derive(Debug)]
pub struct ThumbnailCache {
    pub directory: String,
    pub entries: Vec<String>,
}

/// What came of the thumbnail of one listing entry.
#[derive(Debug)]
pub enum ThumbnailOutcome {
    /// The source is small enough to stand as its own thumbnail.
    SmallSource,
    /// A thumbnail was already cached, under this path.
    Cached(String),
    /// A thumbnail was made and written to this path.
    Generated(String),
    /// Making a thumbnail failed; the source stands in for it.
    Fallback(ThumbnailError),
}

/// A `ThumbnailOutcome` with paths as character sequences and a failure as its stage.
pub enum OutcomeView {
    SmallSource,
    Cached(Seq<char>),
    Generated(Seq<char>),
    Fallback(FailureStage),
}

impl View for ThumbnailOutcome {
    type V = OutcomeView;

    open spec fn view(&self) -> OutcomeView {
        match self {
            ThumbnailOutcome::SmallSource => OutcomeView::SmallSource,
            ThumbnailOutcome::Cached(p) => OutcomeView::Cached(p@),
            ThumbnailOutcome::Generated(p) => OutcomeView::Generated(p@),
            ThumbnailOutcome::Fallback(e) => OutcomeView::Fallback(e.stage),
        }
    }
}

/// The path that stands as the thumbnail of a source, given what came of it.
pub open spec fn outcome_thumbnail(o: OutcomeView, source: Seq<char>) -> Seq<char> {
    match o {
        OutcomeView::Cached(p) => p,
        OutcomeView::Generated(p) => p,
        _ => source,
    }
}

impl ThumbnailOutcome {
    /// The path to show as the thumbnail of `element`: the cached thumbnail,
    /// or the source itself when it is small or no thumbnail could be made.
    pub fn thumbnail_path(&self, element: &MediaElement) -> (r: String)
        ensures
            r@ == outcome_thumbnail(self@, element.full_path@),
    {
        match self {
            ThumbnailOutcome::Cached(p) => p.clone(),
            ThumbnailOutcome::Generated(p) => p.clone(),
            _ => element.full_path.clone(),
        }
    }
}

/// What the caller reports back after performing an `ItemAction`.
#[derive(Debug)]
pub enum ItemEvent {
    /// Work on the entry begins.
    Start,
    /// The source file was read, up to the read limit.
    SourceRead(Result<Vec<u8>, String>),
    /// A JPEG source was decoded with the decoder scaling it to one eighth, to RGB.
    JpegDecoded(Result<PixelBuffer, String>),
    /// Pixels were compressed to JPEG at quality 50 with 2x2 chroma subsampling.
    JpegEncoded(Result<Vec<u8>, String>),
    /// The thumbnail was written to the path that `WriteCache` gave.
    CacheWritten(Result<(), String>),
}

/// What the caller performs next for an entry.
#[derive(Debug)]
pub enum ItemAction {
    /// Read the source file at this path.
    ReadSource(String),
    /// Decode these JPEG bytes at one eighth scale, to RGB.
    DecodeScaledJpeg(Vec<u8>),
    /// Compress these pixels to JPEG at quality 50 with 2x2 chroma subsampling.
    EncodeJpeg(PixelBuffer),
    /// Write these bytes to this path, replacing any file there.
    WriteCache(String, Vec<u8>),
    /// The entry is done.
    Finish(ThumbnailOutcome),
}

/// An `ItemAction` with its strings and buffers as sequences.
pub enum ActionView {
    ReadSource(Seq<char>),
    DecodeScaledJpeg(Seq<u8>),
    EncodeJpeg(u32, u32, PixelLayout, Seq<u8>),
    WriteCache(Seq<char>, Seq<u8>),
    Finish(OutcomeView),
}

impl View for ItemAction {
    type V = ActionView;

    open spec fn view(&self) -> ActionView {
        match self {
            ItemAction::ReadSource(p) => ActionView::ReadSource(p@),
            ItemAction::DecodeScaledJpeg(b) => ActionView::DecodeScaledJpeg(b@),
            ItemAction::EncodeJpeg(p) => ActionView::EncodeJpeg(p.width, p.height, p.layout, p.pixels@),
            ItemAction::WriteCache(p, b) => ActionView::WriteCache(p@, b@),
            ItemAction::Finish(o) => ActionView::Finish(o@),
        }
    }
}

/// First step for an entry: a small source stands as its own thumbnail, a
/// cached thumbnail is used as it is, and otherwise the source is read.
pub open spec fn begin_view(element: &MediaElement, cache: &ThumbnailCache) -> ActionView {
    let i = first_stem_match(cache.entries@, element.media_name@);
    if element.size < SMALL_FILE_FLOOR {
        ActionView::Finish(OutcomeView::SmallSource)
    } else if i < cache.entries@.len() {
        ActionView::Finish(OutcomeView::Cached(joined(cache.directory@, cache.entries@[i]@)))
    } else {
        ActionView::ReadSource(element.full_path@)
    }
}

/// The step after downscaling a decoded PNG or WebP image: encode the planned
/// pixels, or fall back with the stage that `eighth_scale_plan` names.
pub open spec fn downscaled_step(
    a: ActionView,
    width: u32,
    height: u32,
    layout: Option<PixelLayout>,
    pixels: Seq<u8>,
) -> bool {
    match crate::codec::eighth_scale_plan(width, height, layout, pixels) {
        Err(stage) => a == ActionView::Finish(OutcomeView::Fallback(stage)),
        Ok((w, h, l)) => a == ActionView::EncodeJpeg(
            w,
            h,
            l,
            crate::codec::nearest_resized(pixels, l, width, height, w, h),
        ),
    }
}

/// The step after the source's bytes were read: JPEG goes to the decoder's
/// own scaling, PNG and WebP are decoded and downscaled here.
pub open spec fn source_step(format: MediaFormat, bytes: Seq<u8>, a: ActionView) -> bool {
    match format {
        MediaFormat::JPG => a == ActionView::DecodeScaledJpeg(bytes),
        MediaFormat::PNG => match crate::codec::png_decoding(bytes) {
            None => a == ActionView::Finish(OutcomeView::Fallback(FailureStage::Decode)),
            Some((w, h, l, px)) => downscaled_step(a, w, h, l, px),
        },
        MediaFormat::WEBP => match crate::codec::webp_decoding(bytes) {
            None => a == ActionView::Finish(OutcomeView::Fallback(FailureStage::Decode)),
            Some((w, h, l, px)) => downscaled_step(a, w, h, Some(l), px),
        },
    }
}

/// Whether a buffer is what a JPEG decoder at reduced scale should produce.
pub open spec fn acceptable_scaled_jpeg(p: &PixelBuffer) -> bool {
    p.layout == PixelLayout::Rgb && p.width > 0 && p.height > 0 && p.pixels@.len()
        == crate::codec::frame_len(p.width, p.height, p.layout)
}

/// The decision that follows `event` for `element`. No failure ends the
/// request: each one finishes the entry with a fallback to its source.
pub fn next_action(element: &MediaElement, cache: &ThumbnailCache, event: ItemEvent) -> (r:
    ItemAction)
    ensures
        match event {
            ItemEvent::Start => r@ == begin_view(element, cache),
            ItemEvent::SourceRead(Err(_)) => r@ == ActionView::Finish(
                OutcomeView::Fallback(FailureStage::Read),
            ),
            ItemEvent::SourceRead(Ok(bytes)) => source_step(element.media_type, bytes@, r@),
            ItemEvent::JpegDecoded(Err(_)) => r@ == ActionView::Finish(
                OutcomeView::Fallback(FailureStage::Decode),
            ),
            ItemEvent::JpegDecoded(Ok(p)) => if acceptable_scaled_jpeg(&p) {
                r@ == ActionView::EncodeJpeg(p.width, p.height, p.layout, p.pixels@)
            } else {
                r@ == ActionView::Finish(
                    OutcomeView::Fallback(crate::codec::scaled_jpeg_failure(&p)),
                )
            },
            ItemEvent::JpegEncoded(Err(_)) => r@ == ActionView::Finish(
                OutcomeView::Fallback(FailureStage::Encode),
            ),
            ItemEvent::JpegEncoded(Ok(b)) => if b@.len() > 0 {
                r@ == ActionView::WriteCache(
                    cache_file_path(cache.directory@, element.media_name@),
                    b@,
                )
            } else {
                r@ == ActionView::Finish(OutcomeView::Fallback(FailureStage::EmptyEncoding))
            },
            ItemEvent::CacheWritten(Err(_)) => r@ == ActionView::Finish(
                OutcomeView::Fallback(FailureStage::Write),
            ),
            ItemEvent::CacheWritten(Ok(_)) => r@ == ActionView::Finish(
                OutcomeView::Generated(cache_file_path(cache.directory@, element.media_name@)),
            ),
        },
{
    match event {
        ItemEvent::Start => {
            if element.size < SMALL_FILE_FLOOR {
                return ItemAction::Finish(ThumbnailOutcome::SmallSource);
            }
            match find_cached_file(element.media_name.as_str(), &cache.entries) {
                Some(name) => ItemAction::Finish(
                    ThumbnailOutcome::Cached(join_path(cache.directory.as_str(), name.as_str())),
                ),
                None => ItemAction::ReadSource(element.full_path.clone()),
            }
        },
        ItemEvent::SourceRead(Err(detail)) => ItemAction::Finish(
            ThumbnailOutcome::Fallback(ThumbnailError { stage: FailureStage::Read, detail }),
        ),
        ItemEvent::SourceRead(Ok(bytes)) => {
            let pixels = match element.media_type {
                MediaFormat::JPG => return ItemAction::DecodeScaledJpeg(bytes),
                MediaFormat::PNG => png_thumbnail_pixels(bytes.as_slice()),
                MediaFormat::WEBP => webp_thumbnail_pixels(bytes.as_slice()),
            };
            match pixels {
                Ok(p) => ItemAction::EncodeJpeg(p),
                Err(e) => ItemAction::Finish(ThumbnailOutcome::Fallback(e)),
            }
        },
        ItemEvent::JpegDecoded(Err(detail)) => ItemAction::Finish(
            ThumbnailOutcome::Fallback(ThumbnailError { stage: FailureStage::Decode, detail }),
        ),
        ItemEvent::JpegDecoded(Ok(decoded)) => match accept_scaled_jpeg(decoded) {
            Ok(p) => ItemAction::EncodeJpeg(p),
            Err(e) => ItemAction::Finish(ThumbnailOutcome::Fallback(e)),
        },
        ItemEvent::JpegEncoded(Err(detail)) => ItemAction::Finish(
            ThumbnailOutcome::Fallback(ThumbnailError { stage: FailureStage::Encode, detail }),
        ),
        ItemEvent::JpegEncoded(Ok(jpeg)) => match accept_encoded(jpeg) {
            Ok(b) => ItemAction::WriteCache(
                thumbnail_path_for(cache.directory.as_str(), element.media_name.as_str()),
                b,
            ),
            Err(e) => ItemAction::Finish(ThumbnailOutcome::Fallback(e)),
        },
        ItemEvent::CacheWritten(Err(detail)) => ItemAction::Finish(
            ThumbnailOutcome::Fallback(ThumbnailError { stage: FailureStage::Write, detail }),
        ),
        ItemEvent::CacheWritten(Ok(())) => ItemAction::Finish(
            ThumbnailOutcome::Generated(
                thumbnail_path_for(cache.directory.as_str(), element.media_name.as_str()),
            ),
        ),
    }
}

} // verus!
