//! Content-based classification of image files and the elements of a
//! directory listing.
use crate::natural::{sort_naturally, naturally_sorted, Named};
use vstd::prelude::*;

verus! {

/// The kinds of media the gallery recognises, by content rather than by extension.
#[derive(Debug, Clone, Copy, PartialEq, Eq, Structural)]
pub enum MediaFormat {
    JPG,
    PNG,
    WEBP,
}

/// `b` begins with the bytes of `prefix`.
pub open spec fn starts_with(b: Seq<u8>, prefix: Seq<u8>) -> bool {
    prefix.len() <= b.len() && b.subrange(0, prefix.len() as int) == prefix
}

/// The eight bytes that open every PNG file.
pub open spec fn png_signature() -> Seq<u8> {
    seq![0x89u8, 0x50u8, 0x4eu8, 0x47u8, 0x0du8, 0x0au8, 0x1au8, 0x0au8]
}

/// The three bytes that open every JPEG file.
pub open spec fn jpeg_signature() -> Seq<u8> {
    seq![0xffu8, 0xd8u8, 0xffu8]
}

/// A RIFF container (`RIFF`, a four-byte length, then `WEBP`).
pub open spec fn is_webp_header(b: Seq<u8>) -> bool {
    &&& b.len() >= 12
    &&& b.subrange(0, 4) == seq![0x52u8, 0x49u8, 0x46u8, 0x46u8]
    &&& b.subrange(8, 12) == seq![0x57u8, 0x45u8, 0x42u8, 0x50u8]
}

/// The format that the leading bytes of a file announce, if it is one of ours.
pub open spec fn sniffed_format(b: Seq<u8>) -> Option<MediaFormat> {
    if starts_with(b, png_signature()) {
        Some(MediaFormat::PNG)
    } else if starts_with(b, jpeg_signature()) {
        Some(MediaFormat::JPG)
    } else if is_webp_header(b) {
        Some(MediaFormat::WEBP)
    } else {
        None
    }
}

/// Relies on `image::guess_format`: it matches the leading bytes against a
/// table of signatures in which PNG and JPEG come first, WebP is matched as
/// `RIFF`, four free bytes and `WEBP`, and no entry that comes before one of
/// these three can match the same bytes.
#[verifier::external_body]
fn guess_format(bytes: &[u8]) -> (r: Option<MediaFormat>)
    ensures
        r == sniffed_format(bytes@),
{
    match image::guess_format(bytes) {
        Ok(image::ImageFormat::Png) => Some(MediaFormat::PNG),
        Ok(image::ImageFormat::Jpeg) => Some(MediaFormat::JPG),
        Ok(image::ImageFormat::WebP) => Some(MediaFormat::WEBP),
        _ => None,
    }
}

/// Width and height that the header of an encoded image gives, if it can be read.
pub uninterp spec fn header_dimensions(bytes: Seq<u8>, format: MediaFormat) -> Option<(u32, u32)>;

/// Relies on `image::ImageReader::into_dimensions` on an in-memory image of a
/// given format: it reads the header alone, and its answer depends on the
/// bytes and the format alone.
#[verifier::external_body]
fn read_dimensions(bytes: &[u8], format: MediaFormat) -> (r: Option<(u32, u32)>)
    ensures
        r == header_dimensions(bytes@, format),
{
    let format = match format {
        MediaFormat::JPG => image::ImageFormat::Jpeg,
        MediaFormat::PNG => image::ImageFormat::Png,
        MediaFormat::WEBP => image::ImageFormat::WebP,
    };
    image::ImageReader::with_format(std::io::Cursor::new(bytes), format).into_dimensions().ok()
}

/// Classifies a file by its leading bytes.
pub fn classify(bytes: &[u8]) -> (r: Option<MediaFormat>)
    ensures
        r == sniffed_format(bytes@),
{
    guess_format(bytes)
}

/// Position of the last `.` in `s`, or -1 when there is none.
pub open spec fn last_dot(s: Seq<char>) -> int
    decreases s.len(),
{
    if s.len() == 0 {
        -1
    } else if s.last() == '.' {
        s.len() - 1
    } else {
        last_dot(s.drop_last())
    }
}

/// A file name without its extension: everything before the last `.`, unless
/// that dot opens the name or there is none.
pub open spec fn stem_of(name: Seq<char>) -> Seq<char> {
    if last_dot(name) <= 0 {
        name
    } else {
        name.subrange(0, last_dot(name))
    }
}

proof fn lemma_last_dot_prefix(s: Seq<char>, n: int)
    requires
        0 <= n <= s.len(),
        forall|k: int| n <= k < s.len() ==> s[k] != '.',
    ensures
        last_dot(s) == last_dot(s.subrange(0, n)),
    decreases s.len() - n,
{
    if n < s.len() {
        assert(s.subrange(0, n) == s.drop_last().subrange(0, n));
        lemma_last_dot_prefix(s.drop_last(), n);
    } else {
        assert(s.subrange(0, n) == s);
    }
}

/// Returns the stem of a file name, the key under which its thumbnail is cached.
pub fn file_stem(name: &str) -> (r: String)
    ensures
        r@ == stem_of(name@),
{
    let n = name.unicode_len();
    let mut i: usize = n;
    while i > 0 && name.get_char(i - 1) != '.'
        invariant
            i <= n == name@.len(),
            forall|k: int| i <= k < n ==> name@[k] != '.',
        decreases i,
    {
        i = i - 1;
    }
    proof {
        lemma_last_dot_prefix(name@, i as int);
        if i > 0 {
            assert(name@.subrange(0, i as int).last() == '.');
        } else {
            assert(name@.subrange(0, 0).len() == 0);
        }
    }
    if i <= 1 {
        name.to_owned()
    } else {
        name.substring_char(0, i - 1).to_owned()
    }
}

/// A recognised image in a source directory, as the scan found it.
#[derive(Debug)]
pub struct MediaElement {
    pub full_path: String,
    pub media_type: MediaFormat,
    pub media_name: String,
    pub width: u32,
    pub height: u32,
    /// Length of the source file in bytes.
    pub size: u64,
}

impl Named for MediaElement {
    open spec fn name_view(&self) -> Seq<char> {
        self.media_name@
    }

    fn name_str(&self) -> (r: &str) {
        self.media_name.as_str()
    }
}

/// Builds the listing entry of a file from its path, its name, its contents
/// (or their beginning, enough for the header) and its length. Files whose
/// content is not JPEG, PNG or WebP, or whose header cannot be read, are left out.
pub fn path_to_media_element(full_path: String, file_name: &str, head: &[u8], size: u64) -> (r:
    Option<MediaElement>)
    ensures
        r is Some <==> sniffed_format(head@) is Some && header_dimensions(
            head@,
            sniffed_format(head@).unwrap(),
        ) is Some,
        r matches Some(e) ==> {
            &&& e.full_path@ == full_path@
            &&& e.media_type == sniffed_format(head@).unwrap()
            &&& e.media_name@ == stem_of(file_name@)
            &&& (e.width, e.height) == header_dimensions(head@, e.media_type).unwrap()
            &&& e.size == size
        },
{
    let media_type = match guess_format(head) {
        Some(f) => f,
        None => return None,
    };
    let (width, height) = match read_dimensions(head, media_type) {
        Some(d) => d,
        None => return None,
    };
    let media_name = file_stem(file_name);
    Some(MediaElement { full_path, media_type, media_name, width, height, size })
}

/// Sorts a scan's elements by name in natural order; this order is the index
/// space of pagination.
pub fn sort_media_elements(media: Vec<MediaElement>) -> (r: Vec<MediaElement>)
    ensures
        r@.to_multiset() == media@.to_multiset(),
        naturally_sorted(r@),
{
    sort_naturally(media)
}

} // verus!
