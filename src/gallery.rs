//! Answering a batch request: which entries of the sorted listing a request
//! covers, what each entry of the response holds, and the listing of
//! sub-folders.
use crate::cache::{
    begin_view, cache_file_path, joined, lemma_thumbnail_stem,
    outcome_thumbnail, thumbnail_file_name, ActionView, OutcomeView, ThumbnailCache,
    ThumbnailOutcome, SMALL_FILE_FLOOR, join_path,
};
use crate::codec::FailureStage;
use crate::media::{stem_of, MediaElement};
use crate::natural::{sort_naturally, naturally_sorted};
use vstd::prelude::*;
use vstd::string::StringExecFns;

verus! {

/// Prefix under which the front end fetches local files.
pub const ASSET_PREFIX: &'static str = "http://asset.localhost/";

/// Name of the cache root directory, reserved in every project.
pub const CACHE_DIR_NAME: &'static str = ".cache";

/// The URL under which the front end fetches the file at `path`.
pub open spec fn asset_url(path: Seq<char>) -> Seq<char> {
    ASSET_PREFIX@ + path
}

/// Returns the URL under which the front end fetches the file at `path`.
pub fn to_asset_url(path: &str) -> (r: String)
    ensures
        r@ == asset_url(path@),
{
    let mut url = ASSET_PREFIX.to_owned();
    url.append(path);
    url
}

/// One entry of a batch response. Width, height and size are those of the
/// source, whatever stands as its thumbnail.
#[derive(Debug)]
pub struct ImageElementData {
    /// Position in the whole sorted listing.
    pub index: u32,
    pub name: String,
    pub path: String,
    pub thumbnail_path: String,
    pub width: u32,
    pub height: u32,
    /// Size of the source in kilobytes (thousands of bytes, rounded down).
    pub size: u64,
}

/// One page of a listing.
#[derive(Debug)]
pub struct LoadImagesResponse {
    pub medias: Vec<ImageElementData>,
    pub no_more_batches: bool,
}

/// `d` is the response entry for `element` at position `index` of the
/// listing, whose thumbnail came out as `outcome`.
pub open spec fn describes(
    d: &ImageElementData,
    index: int,
    element: &MediaElement,
    outcome: OutcomeView,
) -> bool {
    &&& d.index == index as u32
    &&& d.name@ == element.media_name@
    &&& d.path@ == asset_url(element.full_path@)
    &&& d.thumbnail_path@ == asset_url(outcome_thumbnail(outcome, element.full_path@))
    &&& d.width == element.width
    &&& d.height == element.height
    &&& d.size == element.size / 1000
}

/// Builds the response entry for `element` at position `index` of the listing.
pub fn image_element_data(index: usize, element: &MediaElement, outcome: &ThumbnailOutcome) -> (r:
    ImageElementData)
    ensures
        describes(&r, index as int, element, outcome@),
{
    let thumbnail = outcome.thumbnail_path(element);
    ImageElementData {
        index: index as u32,
        name: element.media_name.clone(),
        path: to_asset_url(element.full_path.as_str()),
        thumbnail_path: to_asset_url(thumbnail.as_str()),
        width: element.width,
        height: element.height,
        size: element.size / 1000,
    }
}

/// What a request covers.
#[derive(Debug, Clone, Copy, PartialEq, Eq, Structural)]
pub enum BatchPlan {
    /// The start lies after the stop: an empty answer that does not claim the end.
    Rejected,
    /// The start lies at or past the end of the listing.
    Exhausted,
    /// Entries `start` (inclusive) to `stop` (exclusive) of the listing.
    Page { start: usize, stop: usize },
}

/// A bound of a request, negative values counting as zero.
pub open spec fn clamp_index(x: i32) -> int {
    if x < 0 {
        0
    } else {
        x as int
    }
}

/// What a request for entries `start` to `stop` of a listing of `total` covers.
pub open spec fn batch_plan(start: i32, stop: i32, total: nat) -> BatchPlan {
    let s = clamp_index(start);
    let t = clamp_index(stop);
    if s > t {
        BatchPlan::Rejected
    } else if s >= total {
        BatchPlan::Exhausted
    } else {
        BatchPlan::Page { start: s as usize, stop: (if t < total { t } else { total as int }) as usize }
    }
}

impl BatchPlan {
    /// Position of the first entry covered.
    pub open spec fn first(self) -> int {
        match self {
            BatchPlan::Page { start, .. } => start as int,
            _ => 0,
        }
    }

    /// Number of entries covered.
    pub open spec fn len(self) -> nat {
        match self {
            BatchPlan::Page { start, stop } => (stop - start) as nat,
            _ => 0,
        }
    }
}

/// Whether the answer to a request says that nothing follows it: the stop
/// reaches the end of the listing (counted on the whole listing, not on the page).
pub open spec fn no_more_after(start: i32, stop: i32, total: nat) -> bool {
    match batch_plan(start, stop, total) {
        BatchPlan::Rejected => false,
        _ => clamp_index(stop) >= total,
    }
}

/// Whether a request is rejected before the directory is even read.
pub fn is_rejected(start: i32, stop: i32) -> (r: bool)
    ensures
        r == (clamp_index(start) > clamp_index(stop)),
        r == (batch_plan(start, stop, 0) == BatchPlan::Rejected),
{
    let s: i32 = if start < 0 { 0 } else { start };
    let t: i32 = if stop < 0 { 0 } else { stop };
    s > t
}

/// Decides what a request covers in a listing of `total` entries.
pub fn plan_batch(start: i32, stop: i32, total: usize) -> (r: BatchPlan)
    ensures
        r == batch_plan(start, stop, total as nat),
{
    let s: usize = if start < 0 { 0 } else { start as usize };
    let t: usize = if stop < 0 { 0 } else { stop as usize };
    if s > t {
        BatchPlan::Rejected
    } else if s >= total {
        BatchPlan::Exhausted
    } else {
        BatchPlan::Page { start: s, stop: if t < total { t } else { total } }
    }
}

/// Assembles the answer to a request for entries `start` to `stop` of the
/// sorted listing `media`, given what came of the thumbnail of each covered
/// entry, in order.
pub fn batch_response(
    start: i32,
    stop: i32,
    media: &Vec<MediaElement>,
    outcomes: &Vec<ThumbnailOutcome>,
) -> (r: LoadImagesResponse)
    requires
        outcomes@.len() == batch_plan(start, stop, media@.len()).len(),
    ensures
        r.no_more_batches == no_more_after(start, stop, media@.len()),
        r.medias@.len() == batch_plan(start, stop, media@.len()).len(),
        forall|k: int|
            0 <= k < r.medias@.len() ==> describes(
                #[trigger] &r.medias@[k],
                batch_plan(start, stop, media@.len()).first() + k,
                &media@[batch_plan(start, stop, media@.len()).first() + k],
                outcomes@[k]@,
            ),
{
    let plan = plan_batch(start, stop, media.len());
    let mut medias: Vec<ImageElementData> = Vec::new();
    let (first, end) = match plan {
        BatchPlan::Page { start, stop } => (start, stop),
        _ => (0, 0),
    };
    let mut i: usize = first;
    while i < end
        invariant
            plan == batch_plan(start, stop, media@.len()),
            first == plan.first(),
            end - first == plan.len(),
            first <= i <= end <= media@.len(),
            outcomes@.len() == end - first,
            medias@.len() == i - first,
            forall|k: int|
                0 <= k < medias@.len() ==> describes(
                    #[trigger] &medias@[k],
                    first + k,
                    &media@[first + k],
                    outcomes@[k]@,
                ),
        decreases end - i,
    {
        let d = image_element_data(i, &media[i], &outcomes[i - first]);
        medias.push(d);
        i = i + 1;
    }
    let no_more_batches = match plan {
        BatchPlan::Rejected => false,
        _ => (if stop < 0 { 0 } else { stop as usize }) >= media.len(),
    };
    LoadImagesResponse { medias, no_more_batches }
}

/// The project whose directories are listed: the root that relative
/// directories of requests are resolved against, if one was chosen.
#[derive(Debug)]
pub struct ProjectPath {
    pub root: Option<String>,
}

impl ProjectPath {
    /// A project with the given root, or none yet.
    pub fn new(root: Option<String>) -> (r: ProjectPath)
        ensures
            r.root == root,
    {
        ProjectPath { root }
    }

    /// Chooses the project root.
    pub fn set(&mut self, path: String)
        ensures
            final(self).root == Some(path),
    {
        self.root = Some(path);
    }

    /// The source directory that a relative directory names.
    pub fn source_directory(&self, directory: &str) -> (r: Option<String>)
        ensures
            r is None <==> self.root is None,
            r matches Some(p) ==> p@ == joined(self.root->Some_0@, directory@),
    {
        match &self.root {
            Some(root) => Some(join_path(root.as_str(), directory)),
            None => None,
        }
    }

    /// The cache directory that mirrors a relative source directory.
    pub fn cache_directory(&self, directory: &str) -> (r: Option<String>)
        ensures
            r is None <==> self.root is None,
            r matches Some(p) ==> p@ == joined(joined(self.root->Some_0@, CACHE_DIR_NAME@), directory@),
    {
        match &self.root {
            Some(root) => {
                let cache_root = join_path(root.as_str(), CACHE_DIR_NAME);
                Some(join_path(cache_root.as_str(), directory))
            },
            None => None,
        }
    }
}

/// Whether a sub-folder name is shown: every name but the cache root's.
pub open spec fn shown_folder(name: String) -> bool {
    name@ != CACHE_DIR_NAME@
}

/// The sub-folders to show, from the names of a directory's sub-folders:
/// every one but the cache root, in natural order.
pub fn visible_folder_names(names: Vec<String>) -> (r: Vec<String>)
    ensures
        r@.to_multiset() == names@.filter(|n: String| shown_folder(n)).to_multiset(),
        naturally_sorted(r@),
{
    let reserved = CACHE_DIR_NAME.to_owned();
    let ghost all = names@;
    let ghost pred = |n: String| shown_folder(n);
    let mut rest = names;
    let mut kept: Vec<String> = Vec::new();
    let ghost mut taken: int = 0;
    while rest.len() > 0
        invariant
            reserved@ == CACHE_DIR_NAME@,
            pred == (|n: String| shown_folder(n)),
            0 <= taken <= all.len(),
            rest@ == all.subrange(taken, all.len() as int),
            kept@ == all.subrange(0, taken).filter(pred),
        decreases rest.len(),
    {
        let name = rest.remove(0);
        proof {
            assert(all.subrange(0, taken + 1) =~= all.subrange(0, taken).push(name));
            all.subrange(0, taken).lemma_filter_push(name, pred);
            taken = taken + 1;
            assert(rest@ =~= all.subrange(taken, all.len() as int));
        }
        let shown = !(name == reserved);
        assert(shown == pred(name));
        if shown {
            kept.push(name);
        }
    }
    proof {
        assert(all.subrange(0, taken) == all);
    }
    sort_naturally(kept)
}

/// Pagination: negative bounds count as zero; a start after the stop gives an
/// empty answer that does not claim the end; otherwise a start at or past the
/// end gives an empty answer that claims it, and a stop at or past the end
/// gives the tail of the listing and claims the end.
pub proof fn pagination_law(start: i32, stop: i32, total: nat)
    ensures
        start < 0 ==> batch_plan(start, stop, total) == batch_plan(0, stop, total)
            && no_more_after(start, stop, total) == no_more_after(0, stop, total),
        stop < 0 ==> batch_plan(start, stop, total) == batch_plan(start, 0, total)
            && no_more_after(start, stop, total) == no_more_after(start, 0, total),
        clamp_index(start) > clamp_index(stop) ==> batch_plan(start, stop, total).len() == 0
            && !no_more_after(start, stop, total),
        clamp_index(start) <= clamp_index(stop) && clamp_index(start) >= total ==> batch_plan(
            start,
            stop,
            total,
        ).len() == 0 && no_more_after(start, stop, total),
        clamp_index(start) <= clamp_index(stop) && clamp_index(start) < total <= clamp_index(stop)
            ==> batch_plan(start, stop, total) == (BatchPlan::Page {
            start: clamp_index(start) as usize,
            stop: total as usize,
        }) && no_more_after(start, stop, total),
{
}

/// A small source is its own thumbnail: the entry finishes at once, with
/// nothing read, decoded or written, and its thumbnail URL is its source URL.
pub proof fn small_file_law(
    element: &MediaElement,
    cache: &ThumbnailCache,
    index: int,
    d: &ImageElementData,
)
    requires
        element.size < SMALL_FILE_FLOOR,
    ensures
        begin_view(element, cache) == ActionView::Finish(OutcomeView::SmallSource),
        describes(d, index, element, OutcomeView::SmallSource) ==> d.thumbnail_path@ == d.path@,
{
}

/// A failed entry does not fail its batch: whatever stage failed, the entry
/// is still described, and its thumbnail URL is its source URL.
pub proof fn fallback_law(
    element: &MediaElement,
    stage: FailureStage,
    index: int,
    d: &ImageElementData,
)
    ensures
        describes(d, index, element, OutcomeView::Fallback(stage)) ==> d.thumbnail_path@
            == d.path@,
{
}

/// Cache idempotence: once the thumbnail made for an entry has been written,
/// a later request whose cache listing holds it, with no file of the same stem
/// listed before it, finishes the entry at once with that very thumbnail, with
/// nothing decoded, resized or encoded, and describes the entry as the first
/// request did.
pub proof fn cache_idempotence_law(
    element: &MediaElement,
    cache: &ThumbnailCache,
    i: int,
    index: int,
    d: &ImageElementData,
)
    requires
        element.size >= SMALL_FILE_FLOOR,
        element.media_name@.len() > 0,
        0 <= i < cache.entries@.len(),
        cache.entries@[i]@ == thumbnail_file_name(element.media_name@),
        forall|j: int| 0 <= j < i ==> stem_of(#[trigger] cache.entries@[j]@) != element.media_name@,
    ensures
        begin_view(element, cache) == ActionView::Finish(
            OutcomeView::Cached(cache_file_path(cache.directory@, element.media_name@)),
        ),
        describes(
            d,
            index,
            element,
            OutcomeView::Generated(cache_file_path(cache.directory@, element.media_name@)),
        ) == describes(
            d,
            index,
            element,
            OutcomeView::Cached(cache_file_path(cache.directory@, element.media_name@)),
        ),
{
    lemma_thumbnail_stem(element.media_name@);
    crate::cache::lemma_first_stem_match_unique(cache.entries@, element.media_name@, i);
}

} // verus!
