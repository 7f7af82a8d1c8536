//! The clipboard watcher's decisions: fingerprints of clipboard content,
//! which content is new and worth storing, and the images it stores.

use vstd::prelude::*;
use crate::text::{push_char, chars_of};
use crate::store::ClipBody;
use vstd::utf8::encode_utf8;

verus! {

/// Largest uncompressed image (RGBA bytes) the watcher stores.
pub const MAX_IMAGE_BYTES: usize = 8 * 1024 * 1024;

/// The image crate's default allocation limit when it decodes (512 MiB):
/// pixel buffers up to this size decode without hitting it.
pub const PNG_DECODE_LIMIT: usize = 512 * 1024 * 1024;

/// Commands the palette sends to the clipboard watcher.
#[derive(Debug)]
pub enum WatcherCmd {
    /// Put this text on the clipboard.
    RestoreText(String),
    /// Put this image (RGBA pixels) on the clipboard.
    RestoreImage { width: u32, height: u32, rgba: Vec<u8> },
    /// The database moved: open it again.
    Reopen,
    /// Stop watching.
    Shutdown,
}

// ---------------------------------------------------------------------------
// Fingerprints
// ---------------------------------------------------------------------------

/// The BLAKE3 digest (32 bytes) of some data.
pub uninterp spec fn blake3_digest(data: Seq<u8>) -> Seq<u8>;

/// `blake3::hash`: the 32-byte digest, named by `blake3_digest`.
#[verifier::external_body]
fn blake3_hash(data: &[u8]) -> (d: [u8; 32])
    ensures
        d@ == blake3_digest(data@),
{
    *blake3::hash(data).as_bytes()
}

/// Lower-case hexadecimal digit for a value below 16.
pub open spec fn hex_digit(v: int) -> char {
    if v < 10 {
        ('0' as int + v) as char
    } else {
        ('a' as int + v - 10) as char
    }
}

/// Lower-case hexadecimal text of some bytes, two digits per byte, high
/// nibble first (`blake3::Hash::to_hex`).
pub open spec fn hex_lower(bytes: Seq<u8>) -> Seq<char>
    decreases bytes.len(),
{
    if bytes.len() == 0 {
        Seq::empty()
    } else {
        hex_lower(bytes.drop_last()).push(hex_digit(bytes.last() as int / 16)).push(
            hex_digit(bytes.last() as int % 16),
        )
    }
}

/// The fingerprint of some data: its BLAKE3 digest in lower-case hex.
pub open spec fn fingerprint(data: Seq<u8>) -> Seq<char> {
    hex_lower(blake3_digest(data))
}

fn hex_char(v: u8) -> (c: char)
    requires
        v < 16,
    ensures
        c == hex_digit(v as int),
{
    if v < 10 {
        let c = ('0' as u8 + v) as char;
        c
    } else {
        let c = ('a' as u8 + (v - 10)) as char;
        c
    }
}

/// Fingerprint of clipboard content, used to recognise content already seen.
pub fn hash_bytes(bytes: &[u8]) -> (h: String)
    ensures
        h@ == fingerprint(bytes@),
        h@.len() == 64,
{
    let d = blake3_hash(bytes);
    let mut out = String::new();
    let mut i: usize = 0;
    while i < 32
        invariant
            d@ == blake3_digest(bytes@),
            d@.len() == 32,
            i <= 32,
            out@ == hex_lower(d@.take(i as int)),
            out@.len() == 2 * i,
        decreases 32 - i,
    {
        let b = d[i];
        push_char(&mut out, hex_char(b / 16));
        push_char(&mut out, hex_char(b % 16));
        assert(d@.take(i + 1).drop_last() =~= d@.take(i as int));
        i = i + 1;
    }
    assert(d@.take(32) =~= d@);
    out
}

// ---------------------------------------------------------------------------
// Text on the clipboard
// ---------------------------------------------------------------------------

/// `s` without trailing NUL characters (`trim_end_matches('\0')`).
pub open spec fn trim_end_nul(s: Seq<char>) -> Seq<char>
    decreases s.len(),
{
    if s.len() > 0 && s.last() == '\0' {
        trim_end_nul(s.drop_last())
    } else {
        s
    }
}

/// What the watcher does with text found on the clipboard.
#[derive(Debug)]
pub enum TextCapture {
    /// Nothing but NULs: look for an image instead.
    Empty,
    /// The same content as last seen: nothing to do.
    Unchanged,
    /// New text to store, with its fingerprint.
    Store { text: String, hash: String },
}

/// The decision about clipboard text `text` when the last content seen had
/// fingerprint `last`.
pub open spec fn text_capture_ok(text: Seq<char>, last: Seq<char>, r: TextCapture) -> bool {
    let t = trim_end_nul(text);
    if t.len() == 0 {
        r is Empty
    } else {
        let h = fingerprint(encode_utf8(t));
        if h == last {
            r is Unchanged
        } else {
            r matches TextCapture::Store { text: st, hash } && st@ == t && hash@ == h
        }
    }
}

/// Decides about clipboard text: trailing NULs are dropped; empty text is
/// passed over, text whose fingerprint is `last_hash` is unchanged, other
/// text is stored.
pub fn text_capture(text: &str, last_hash: &str) -> (r: TextCapture)
    ensures
        text_capture_ok(text@, last_hash@, r),
{
    let cs = chars_of(text);
    let mut n = cs.len();
    assert(cs@.take(n as int) =~= cs@);
    while n > 0 && cs[n - 1] == '\0'
        invariant
            n <= cs@.len(),
            cs@ == text@,
            trim_end_nul(text@) == trim_end_nul(cs@.take(n as int)),
        decreases n,
    {
        assert(cs@.take(n as int).drop_last() =~= cs@.take(n - 1));
        n = n - 1;
    }
    let t = crate::text::string_from_range(&cs, 0, n);
    assert(cs@.take(n as int) =~= cs@.subrange(0, n as int));
    if n == 0 {
        return TextCapture::Empty;
    }
    let h = hash_bytes(t.as_str().as_bytes());
    if crate::text::str_equal(h.as_str(), last_hash) {
        TextCapture::Unchanged
    } else {
        TextCapture::Store { text: t, hash: h }
    }
}

// ---------------------------------------------------------------------------
// Images on the clipboard
// ---------------------------------------------------------------------------

/// Uncompressed RGBA size of an image, saturating at the largest `usize`.
pub open spec fn rgba_len(width: u32, height: u32) -> int {
    let n = width as int * height as int * 4;
    if n > usize::MAX {
        usize::MAX as int
    } else {
        n
    }
}

fn saturating_rgba_len(width: u32, height: u32) -> (n: usize)
    ensures
        n == rgba_len(width, height),
{
    let w = width as u128;
    let h = height as u128;
    assert(w * h * 4 <= 0xffff_ffff * 0xffff_ffff * 4) by (nonlinear_arith)
        requires
            w <= 0xffff_ffff,
            h <= 0xffff_ffff,
    ;
    let big = w * h * 4;
    if big > usize::MAX as u128 {
        usize::MAX
    } else {
        big as usize
    }
}

/// An image taken from the clipboard: its pixels and their fingerprint.
#[derive(Debug)]
pub struct ImageCapture {
    pub rgba: Vec<u8>,
    pub hash: String,
}

/// The decision about an image of the given size whose buffer is `raw`, when
/// the last content seen had fingerprint `last`.
pub open spec fn image_capture_ok(width: u32, height: u32, raw: Seq<u8>, last: Seq<char>, r: Option<ImageCapture>) -> bool {
    let n = rgba_len(width, height);
    if n == 0 || n > MAX_IMAGE_BYTES || raw.len() < n {
        r is None
    } else {
        let px = raw.take(n);
        if fingerprint(px) == last {
            r is None
        } else {
            r matches Some(c) && c.rgba@ == px && c.hash@ == fingerprint(px)
        }
    }
}

/// Decides about an image found on the clipboard: it is taken when its
/// uncompressed size is not zero and at most `MAX_IMAGE_BYTES`, the buffer
/// holds that many bytes, and the fingerprint of those bytes is not
/// `last_hash`. The pixels taken are the first `width * height * 4` bytes.
pub fn image_capture(width: u32, height: u32, raw: &[u8], last_hash: &str) -> (r: Option<ImageCapture>)
    ensures
        image_capture_ok(width, height, raw@, last_hash@, r),
{
    let n = saturating_rgba_len(width, height);
    if n == 0 || n > MAX_IMAGE_BYTES {
        return None;
    }
    if raw.len() < n {
        return None;
    }
    let mut px: Vec<u8> = Vec::new();
    let mut i: usize = 0;
    while i < n
        invariant
            n <= raw@.len(),
            i <= n,
            px@ == raw@.take(i as int),
        decreases n - i,
    {
        px.push(raw[i]);
        i = i + 1;
        assert(px@ =~= raw@.take(i as int));
    }
    let h = hash_bytes(px.as_slice());
    if crate::text::str_equal(h.as_str(), last_hash) {
        None
    } else {
        Some(ImageCapture { rgba: px, hash: h })
    }
}

// ---------------------------------------------------------------------------
// Restoring clips
// ---------------------------------------------------------------------------

impl WatcherCmd {
    /// The fingerprint the watcher remembers after carrying out a command:
    /// that of the text or pixels it put on the clipboard.
    pub fn restored_hash(&self) -> (h: Option<String>)
        ensures
            match self {
                WatcherCmd::RestoreText(t) => h matches Some(s) && s@ == fingerprint(encode_utf8(t@)),
                WatcherCmd::RestoreImage { rgba, .. } => h matches Some(s) && s@ == fingerprint(
                    rgba@,
                ),
                _ => h is None,
            },
    {
        match self {
            WatcherCmd::RestoreText(t) => Some(hash_bytes(t.as_str().as_bytes())),
            WatcherCmd::RestoreImage { rgba, .. } => Some(hash_bytes(rgba.as_slice())),
            _ => None,
        }
    }
}

/// What the watcher does with the clipboard or the database for a command.
#[derive(Debug)]
pub enum WatcherAction {
    /// Stop watching.
    Stop,
    /// Open the database at the configured path again, then tell
    /// `after_reopen` whether that worked.
    Reopen,
    /// Put this text on the clipboard.
    PutText(String),
    /// Put this image on the clipboard.
    PutImage { width: u32, height: u32, rgba: Vec<u8> },
}

impl WatcherCmd {
    /// Decides what the watcher does for a command and updates the
    /// fingerprint of the content it last saw: a restore remembers the
    /// fingerprint of what it puts on the clipboard, so it is not stored
    /// again; the other commands leave it.
    pub fn watcher_step(self, last_hash: &mut String) -> (a: WatcherAction)
        ensures
            match self {
                WatcherCmd::Shutdown => a is Stop && final(last_hash)@ == old(last_hash)@,
                WatcherCmd::Reopen => a is Reopen && final(last_hash)@ == old(last_hash)@,
                WatcherCmd::RestoreText(t) => (a matches WatcherAction::PutText(u) && u@ == t@)
                    && final(last_hash)@ == fingerprint(encode_utf8(t@)),
                WatcherCmd::RestoreImage { width, height, rgba } => (a matches WatcherAction::PutImage {
                    width: w,
                    height: h,
                    rgba: px,
                } && w == width && h == height && px@ == rgba@)
                    && final(last_hash)@ == fingerprint(rgba@),
            },
    {
        match self.restored_hash() {
            Some(h) => {
                *last_hash = h;
            },
            None => {},
        }
        match self {
            WatcherCmd::Shutdown => WatcherAction::Stop,
            WatcherCmd::Reopen => WatcherAction::Reopen,
            WatcherCmd::RestoreText(t) => WatcherAction::PutText(t),
            WatcherCmd::RestoreImage { width, height, rgba } => WatcherAction::PutImage { width, height, rgba },
        }
    }
}

/// After the watcher reopened the database: the fingerprint is forgotten
/// when the new database is open (its history may differ), and kept when
/// reopening failed.
pub fn after_reopen(last_hash: &mut String, reopened: bool)
    ensures
        reopened ==> final(last_hash)@ == Seq::<char>::empty(),
        !reopened ==> final(last_hash)@ == old(last_hash)@,
{
    if reopened {
        *last_hash = String::new();
    }
}

/// Copies of the same text (up to trailing NULs) get the same fingerprint,
/// which is what the history is keyed by: identical copies are stored once.
pub proof fn lemma_identical_text_same_key(a: Seq<char>, b: Seq<char>, last: Seq<char>, ra: TextCapture, rb: TextCapture)
    requires
        trim_end_nul(a) == trim_end_nul(b),
        text_capture_ok(a, last, ra),
        text_capture_ok(b, last, rb),
    ensures
        ra matches TextCapture::Store { hash: ha, .. } ==> (rb matches TextCapture::Store { hash: hb, .. } && ha@ == hb@),
        ra is Unchanged <==> rb is Unchanged,
        ra is Empty <==> rb is Empty,
{
}

/// Only NUL characters are dropped from the end of clipboard text: what is
/// kept is a prefix of the text that does not end in NUL, and everything
/// after it is NUL. Text that does not end in NUL is kept whole.
pub proof fn lemma_only_trailing_nuls_dropped(s: Seq<char>)
    ensures
        trim_end_nul(s).len() <= s.len(),
        trim_end_nul(s) == s.take(trim_end_nul(s).len() as int),
        forall|i: int| trim_end_nul(s).len() <= i < s.len() ==> s[i] == '\0',
        trim_end_nul(s).len() == 0 || trim_end_nul(s).last() != '\0',
        s.len() > 0 && s.last() != '\0' ==> trim_end_nul(s) == s,
    decreases s.len(),
{
    if s.len() > 0 && s.last() == '\0' {
        lemma_only_trailing_nuls_dropped(s.drop_last());
        let t = trim_end_nul(s.drop_last());
        assert(s.drop_last().take(t.len() as int) =~= s.take(t.len() as int));
        assert forall|i: int| t.len() <= i < s.len() implies s[i] == '\0' by {
            if i < s.len() - 1 {
                assert(s.drop_last()[i] == s[i]);
            }
        }
    } else {
        assert(s.take(s.len() as int) =~= s);
    }
}

/// Clipboard text that does not end in NUL is stored exactly as it was
/// copied, with the fingerprint of exactly that text.
pub proof fn lemma_text_stored_as_copied(text: Seq<char>, last: Seq<char>, r: TextCapture)
    requires
        text.len() > 0,
        text.last() != '\0',
        text_capture_ok(text, last, r),
        fingerprint(encode_utf8(text)) != last,
    ensures
        r matches TextCapture::Store { text: st, hash } && st@ == text
            && hash@ == fingerprint(encode_utf8(text)),
{
    lemma_only_trailing_nuls_dropped(text);
}

/// Text the watcher just put on the clipboard is not stored again when it
/// sees it there (text without trailing NULs).
pub proof fn lemma_restored_text_not_stored_again(t: String, r: TextCapture)
    requires
        trim_end_nul(t@) == t@,
        t@.len() > 0,
        text_capture_ok(t@, fingerprint(encode_utf8(t@)), r),
    ensures
        r is Unchanged,
{
}

/// An image the watcher just put on the clipboard is not stored again when it
/// sees the same pixels there.
pub proof fn lemma_restored_image_not_stored_again(width: u32, height: u32, rgba: Seq<u8>, r: Option<ImageCapture>)
    requires
        rgba.len() == rgba_len(width, height),
        image_capture_ok(width, height, rgba, fingerprint(rgba), r),
    ensures
        r is None,
{
    assert(rgba.take(rgba.len() as int) =~= rgba);
}

// ---------------------------------------------------------------------------
// PNG
// ---------------------------------------------------------------------------

/// What the image crate decodes from some bytes (`load_from_memory`, then
/// RGBA with 8 bits per channel): width, height and pixels, or the error's
/// message.
pub uninterp spec fn png_rgba(png: Seq<u8>) -> Result<(u32, u32, Seq<u8>), Seq<char>>;

/// The PNG encoding the image crate writes for RGBA pixels, or the error's
/// message.
pub uninterp spec fn png_encoding(width: u32, height: u32, rgba: Seq<u8>) -> Result<Seq<u8>, Seq<char>>;

/// `image::load_from_memory` followed by `to_rgba8`: named by `png_rgba`;
/// a decoded RGBA buffer holds four bytes per pixel.
#[verifier::external_body]
fn load_rgba(png: &[u8]) -> (r: Result<(u32, u32, Vec<u8>), String>)
    ensures
        match r {
            Ok((w, h, px)) => png_rgba(png@) == Ok::<(u32, u32, Seq<u8>), Seq<char>>((w, h, px@))
                && px@.len() == w as int * h as int * 4,
            Err(e) => png_rgba(png@) == Err::<(u32, u32, Seq<u8>), Seq<char>>(e@),
        },
{
    match image::load_from_memory(png) {
        Ok(img) => {
            let rgba = img.to_rgba8();
            let (w, h) = rgba.dimensions();
            Ok((w, h, rgba.into_raw()))
        },
        Err(e) => Err(e.to_string()),
    }
}

/// `DynamicImage::write_to` in PNG format, for an RGBA buffer of the given
/// size: named by `png_encoding`. The PNG encoder writes 8-bit RGBA as it is
/// given, so a PNG written from RGBA pixels decodes to the same size and
/// pixels, stated for pixel buffers within the decoder's default allocation
/// limit (`PNG_DECODE_LIMIT`; larger ones are refused by `load_from_memory`).
#[verifier::external_body]
fn write_png(width: u32, height: u32, rgba: Vec<u8>) -> (r: Result<Vec<u8>, String>)
    requires
        rgba@.len() == width as int * height as int * 4,
    ensures
        match r {
            Ok(png) => png_encoding(width, height, rgba@) == Ok::<Seq<u8>, Seq<char>>(png@)
                && (rgba@.len() <= PNG_DECODE_LIMIT ==> png_rgba(png@) == Ok::<
                (u32, u32, Seq<u8>),
                Seq<char>,
            >((width, height, rgba@))),
            Err(e) => png_encoding(width, height, rgba@) == Err::<Seq<u8>, Seq<char>>(e@),
        },
{
    match image::RgbaImage::from_raw(width, height, rgba) {
        Some(img) => {
            let mut buf: Vec<u8> = Vec::new();
            let mut cursor = std::io::Cursor::new(&mut buf);
            match image::DynamicImage::ImageRgba8(img).write_to(&mut cursor, image::ImageFormat::Png) {
                Ok(()) => Ok(buf),
                Err(e) => Err(e.to_string()),
            }
        },
        None => Err(String::from("buffer does not match the image size")),
    }
}

/// Decodes a stored PNG to its width, height and RGBA pixels.
pub fn decode_png_rgba(png: &[u8]) -> (r: Result<(u32, u32, Vec<u8>), String>)
    ensures
        match r {
            Ok((w, h, px)) => png_rgba(png@) == Ok::<(u32, u32, Seq<u8>), Seq<char>>((w, h, px@))
                && px@.len() == w as int * h as int * 4,
            Err(e) => png_rgba(png@) == Err::<(u32, u32, Seq<u8>), Seq<char>>(e@),
        },
{
    load_rgba(png)
}

/// Encodes RGBA pixels as PNG. An image within the decoder's allocation
/// limit decodes back to the same size and pixels.
pub fn encode_png(width: u32, height: u32, rgba: Vec<u8>) -> (r: Result<Vec<u8>, String>)
    requires
        rgba@.len() == width as int * height as int * 4,
    ensures
        match r {
            Ok(png) => png_encoding(width, height, rgba@) == Ok::<Seq<u8>, Seq<char>>(png@)
                && (rgba@.len() <= PNG_DECODE_LIMIT ==> png_rgba(png@) == Ok::<
                (u32, u32, Seq<u8>),
                Seq<char>,
            >((width, height, rgba@))),
            Err(e) => png_encoding(width, height, rgba@) == Err::<Seq<u8>, Seq<char>>(e@),
        },
{
    write_png(width, height, rgba)
}

/// The command that puts a stored clip back on the clipboard: its text, or
/// the pixels its PNG decodes to; the decoder's message when the PNG does
/// not decode.
pub fn restore_command(body: ClipBody) -> (c: Result<WatcherCmd, String>)
    ensures
        match body {
            ClipBody::Text(t) => c matches Ok(WatcherCmd::RestoreText(s)) && s@ == t@,
            ClipBody::ImagePng(p) => match png_rgba(p@) {
                Ok((w, h, px)) => c matches Ok(WatcherCmd::RestoreImage { width, height, rgba })
                    && width == w && height == h && rgba@ == px,
                Err(e) => c matches Err(m) && m@ == e,
            },
        },
{
    match body {
        ClipBody::Text(t) => Ok(WatcherCmd::RestoreText(t)),
        ClipBody::ImagePng(p) => match decode_png_rgba(p.as_slice()) {
            Ok((width, height, rgba)) => Ok(WatcherCmd::RestoreImage { width, height, rgba }),
            Err(e) => Err(e),
        },
    }
}

// ---------------------------------------------------------------------------
// Labels
// ---------------------------------------------------------------------------

/// Decimal digits of a number, without leading zeros.
pub open spec fn decimal(n: nat) -> Seq<char>
    decreases n,
{
    if n < 10 {
        seq![('0' as int + n) as char]
    } else {
        decimal(n / 10).push(('0' as int + n % 10) as char)
    }
}

/// Appends the decimal digits of `n`.
pub fn push_decimal(out: &mut String, n: u32)
    ensures
        final(out)@ == old(out)@ + decimal(n as nat),
    decreases n,
{
    if n >= 10 {
        push_decimal(out, n / 10);
    }
    let d = (n % 10) as u8;
    let c = ('0' as u8 + d) as char;
    push_char(out, c);
    assert(out@ =~= old(out)@ + decimal(n as nat));
}

/// The label stored for an image clip: `image {width}x{height}`.
pub fn image_label(width: u32, height: u32) -> (l: String)
    ensures
        l@ == "image "@ + decimal(width as nat) + "x"@ + decimal(height as nat),
{
    let mut out = String::from_str("image ");
    push_decimal(&mut out, width);
    out.append("x");
    push_decimal(&mut out, height);
    assert(out@ =~= "image "@ + decimal(width as nat) + "x"@ + decimal(height as nat));
    out
}

} // verus!
