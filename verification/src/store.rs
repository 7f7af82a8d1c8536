//! Clip records as the history database holds them, and the eviction policy
//! that keeps the history within its limits.

use vstd::prelude::*;
use crate::config::Settings;
use crate::text::str_equal;

verus! {

/// What a clip holds.
#[derive(Debug, Clone, Copy, PartialEq, Eq, Structural)]
pub enum ClipKind {
    Text,
    Image,
}

/// The text stored in the `kind` column for each kind.
pub open spec fn kind_name(k: ClipKind) -> Seq<char> {
    match k {
        ClipKind::Text => "text"@,
        ClipKind::Image => "image"@,
    }
}

/// The kind a `kind` column value stands for: `image` is an image, anything
/// else is text.
pub open spec fn parse_kind_spec(raw: Seq<char>) -> ClipKind {
    if raw == "image"@ {
        ClipKind::Image
    } else {
        ClipKind::Text
    }
}

impl ClipKind {
    /// The column value for this kind.
    pub fn as_str(self) -> (s: &'static str)
        ensures
            s@ == kind_name(self),
    {
        match self {
            ClipKind::Text => "text",
            ClipKind::Image => "image",
        }
    }

    /// Reads a `kind` column value.
    pub fn parse(raw: &str) -> (k: ClipKind)
        ensures
            k == parse_kind_spec(raw@),
    {
        if str_equal(raw, "image") {
            ClipKind::Image
        } else {
            ClipKind::Text
        }
    }
}

/// Reading back the stored name of a kind gives that kind.
pub proof fn lemma_kind_roundtrip(k: ClipKind)
    ensures
        parse_kind_spec(kind_name(k)) == k,
{
    reveal_strlit("text");
    reveal_strlit("image");
    assert("text"@.len() != "image"@.len());
}

/// One row of a history listing.
#[derive(Debug, Clone)]
pub struct ListRow {
    pub id: i64,
    pub kind: ClipKind,
    pub text: String,
    pub thumb_png: Option<Vec<u8>>,
    pub created_at: i64,
}

/// The full content of a clip.
#[derive(Debug, Clone)]
pub enum ClipBody {
    Text(String),
    ImagePng(Vec<u8>),
}

/// A listing row from the columns `id, kind, text, thumb_png, created_at`;
/// a missing text reads as empty.
pub fn list_row_from_columns(
    id: i64,
    kind: &str,
    text: Option<String>,
    thumb_png: Option<Vec<u8>>,
    created_at: i64,
) -> (row: ListRow)
    ensures
        row.id == id,
        row.kind == parse_kind_spec(kind@),
        row.text@ == (match text {
            Some(t) => t@,
            None => Seq::<char>::empty(),
        }),
        row.thumb_png == thumb_png,
        row.created_at == created_at,
{
    let text = match text {
        Some(t) => t,
        None => String::new(),
    };
    ListRow { id, kind: ClipKind::parse(kind), text, thumb_png, created_at }
}

/// A clip's content from the columns `kind, text, image_png`: an image kind
/// gives its PNG bytes, any other kind its text; a missing column reads as
/// empty.
pub fn body_from_columns(kind: &str, text: Option<String>, image: Option<Vec<u8>>) -> (body:
    ClipBody)
    ensures
        match parse_kind_spec(kind@) {
            ClipKind::Image => body matches ClipBody::ImagePng(png) && png@ == (match image {
                Some(i) => i@,
                None => Seq::<u8>::empty(),
            }),
            ClipKind::Text => body matches ClipBody::Text(t) && t@ == (match text {
                Some(t) => t@,
                None => Seq::<char>::empty(),
            }),
        },
{
    if ClipKind::parse(kind) == ClipKind::Image {
        match image {
            Some(i) => ClipBody::ImagePng(i),
            None => ClipBody::ImagePng(Vec::new()),
        }
    } else {
        match text {
            Some(t) => ClipBody::Text(t),
            None => ClipBody::Text(String::new()),
        }
    }
}

/// Bytes a clip accounts for: the UTF-8 length of its text plus the lengths
/// of its thumbnail and image.
pub open spec fn byte_len_spec(text: Option<&str>, thumb: Option<&[u8]>, image: Option<&[u8]>) -> int {
    (match text {
        Some(t) => t.len() as int,
        None => 0int,
    }) + (match thumb {
        Some(b) => b@.len() as int,
        None => 0int,
    }) + (match image {
        Some(b) => b@.len() as int,
        None => 0int,
    })
}

/// The `byte_len` column value of a new clip.
pub fn clip_byte_len(text: Option<&str>, thumb: Option<&[u8]>, image: Option<&[u8]>) -> (n: i64)
    requires
        byte_len_spec(text, thumb, image) <= i64::MAX,
    ensures
        n == byte_len_spec(text, thumb, image),
{
    let a: usize = match text {
        Some(t) => t.len(),
        None => 0,
    };
    let b: usize = match thumb {
        Some(x) => x.len(),
        None => 0,
    };
    let c: usize = match image {
        Some(x) => x.len(),
        None => 0,
    };
    assert(a + b + c == byte_len_spec(text, thumb, image));
    let a64 = a as i64;
    let b64 = b as i64;
    let c64 = c as i64;
    a64 + b64 + c64
}

/// Database size limit in bytes.
pub open spec fn max_bytes_spec(s: Settings) -> int {
    s.max_db_mb as int * 1024 * 1024
}

/// The database size limit of the settings, in bytes.
pub fn max_bytes(s: &Settings) -> (n: i64)
    ensures
        n == max_bytes_spec(*s),
{
    let mb = s.max_db_mb as i64;
    assert(mb * 1024 * 1024 <= 0xffff_ffff * 1024 * 1024) by (nonlinear_arith)
        requires
            0 <= mb <= 0xffff_ffff,
    ;
    mb * 1024 * 1024
}

/// Whether the history is over a limit: more clips than `max_entries`, or more
/// bytes than the size limit while it still holds a clip.
pub open spec fn over_limit(count: int, bytes: int, s: Settings) -> bool {
    count > s.max_entries as int || (bytes > max_bytes_spec(s) && count > 0)
}

/// One step of eviction: whether the oldest clip has to go, given the current
/// clip count and total byte length.
pub fn should_evict(count: i64, bytes: i64, s: &Settings) -> (evict: bool)
    ensures
        evict == over_limit(count as int, bytes as int, *s),
{
    let max_entries = s.max_entries as i64;
    if count > max_entries {
        return true;
    }
    let limit = max_bytes(s);
    bytes > limit && count > 0
}

/// When eviction stops, the history is within its limits: no more clips than
/// `max_entries`, and no more bytes than the size limit unless it is empty.
pub proof fn lemma_evict_stops_within_limits(count: int, bytes: int, s: Settings)
    requires
        !over_limit(count, bytes, s),
    ensures
        count <= s.max_entries,
        bytes <= max_bytes_spec(s) || count <= 0,
{
}

/// The oldest clip goes exactly when the history breaks a limit: more clips
/// than `max_entries`, or more bytes than `max_db_mb` megabytes while a clip
/// is left. A history within both limits loses nothing.
pub proof fn lemma_evict_exactly_over_limits(count: int, bytes: int, s: Settings)
    ensures
        over_limit(count, bytes, s) <==> (count > s.max_entries as int
            || (bytes > s.max_db_mb as int * 1048576 && count > 0)),
        count <= s.max_entries as int && bytes <= s.max_db_mb as int * 1048576
            ==> !over_limit(count, bytes, s),
{
}

/// Eviction never goes on for an empty history.
pub proof fn lemma_evict_empty_stops(bytes: int, s: Settings)
    ensures
        !over_limit(0, bytes, s),
{
}

} // verus!
