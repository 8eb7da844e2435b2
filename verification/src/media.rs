//! Audio uploads and streaming: content sniffing, byte ranges, content
//! types, and the names a track is filed under.
use vstd::prelude::*;

use crate::netguard::opt_view;
use crate::paths::{
    extension_of, file_stem_of, lowercase_of, path_extension, path_file_stem, path_starts_with, starts_with_path,
    unicode_lowercase,
};
use crate::text::{chars_of, dec, is_prefix, parse_u64, push_decimal, push_str, str_eq, string_of, decimal_value};

verus! {

// ─── Audio content sniffing ────────────────────────────────────────────

/// `s` starts with the bytes `p`.
pub open spec fn bytes_start_with(s: Seq<u8>, p: Seq<u8>) -> bool {
    p.len() <= s.len() && s.take(p.len() as int) == p
}

/// The bytes `s[at..at + p.len()]` are `p`.
pub open spec fn bytes_at(s: Seq<u8>, at: int, p: Seq<u8>) -> bool {
    0 <= at && at + p.len() <= s.len() && s.subrange(at, at + p.len()) == p
}

/// Whether the first bytes of a file are those of a known audio container:
/// MP3 (ID3 tag or frame sync), FLAC, Ogg, WAV, AIFF, MP4/M4A (`ftyp` box)
/// or ASF/WMA.  Files under 12 bytes are never audio.
pub open spec fn is_audio_magic(d: Seq<u8>) -> bool {
    &&& d.len() >= 12
    &&& {
        ||| bytes_start_with(d, seq![0x49u8, 0x44, 0x33])
        ||| (d[0] == 0xFFu8 && (d[1] & 0xE0u8) == 0xE0u8)
        ||| bytes_start_with(d, seq![0x66u8, 0x4C, 0x61, 0x43])
        ||| bytes_start_with(d, seq![0x4Fu8, 0x67, 0x67, 0x53])
        ||| (bytes_start_with(d, seq![0x52u8, 0x49, 0x46, 0x46]) && bytes_at(
            d,
            8,
            seq![0x57u8, 0x41, 0x56, 0x45],
        ))
        ||| (bytes_start_with(d, seq![0x46u8, 0x4F, 0x52, 0x4D]) && bytes_at(
            d,
            8,
            seq![0x41u8, 0x49, 0x46, 0x46],
        ))
        ||| bytes_at(d, 4, seq![0x66u8, 0x74, 0x79, 0x70])
        ||| bytes_start_with(d, seq![0x30u8, 0x26, 0xB2, 0x75])
    }
}

fn has_bytes_at(d: &[u8], at: usize, p: &[u8]) -> (b: bool)
    ensures
        b == bytes_at(d@, at as int, p@),
{
    let n = d.len();
    if at > n || p.len() > n - at {
        return false;
    }
    let mut i: usize = 0;
    while i < p.len()
        invariant
            n == d@.len(),
            at <= d@.len(),
            at + p@.len() <= d@.len(),
            i <= p@.len(),
            forall|j: int| 0 <= j < i ==> d@[at + j] == p@[j],
        decreases p.len() - i,
    {
        assert(at + i < d@.len());
        if d[at + i] != p[i] {
            assert(d@.subrange(at as int, at + p@.len())[i as int] != p@[i as int]);
            return false;
        }
        i = i + 1;
    }
    assert(d@.subrange(at as int, at + p@.len()) =~= p@);
    true
}

/// Checks that uploaded bytes look like audio (see `is_audio_magic`).
pub fn validate_audio_magic_bytes(data: &[u8]) -> (b: bool)
    ensures
        b == is_audio_magic(data@),
{
    if data.len() < 12 {
        return false;
    }
    let id3: [u8; 3] = [0x49, 0x44, 0x33];
    let flac: [u8; 4] = [0x66, 0x4C, 0x61, 0x43];
    let ogg: [u8; 4] = [0x4F, 0x67, 0x67, 0x53];
    let riff: [u8; 4] = [0x52, 0x49, 0x46, 0x46];
    let wave: [u8; 4] = [0x57, 0x41, 0x56, 0x45];
    let form: [u8; 4] = [0x46, 0x4F, 0x52, 0x4D];
    let aiff: [u8; 4] = [0x41, 0x49, 0x46, 0x46];
    let ftyp: [u8; 4] = [0x66, 0x74, 0x79, 0x70];
    let asf: [u8; 4] = [0x30, 0x26, 0xB2, 0x75];
    proof {
        assert(id3@ =~= seq![0x49u8, 0x44, 0x33]);
        assert(flac@ =~= seq![0x66u8, 0x4C, 0x61, 0x43]);
        assert(ogg@ =~= seq![0x4Fu8, 0x67, 0x67, 0x53]);
        assert(riff@ =~= seq![0x52u8, 0x49, 0x46, 0x46]);
        assert(wave@ =~= seq![0x57u8, 0x41, 0x56, 0x45]);
        assert(form@ =~= seq![0x46u8, 0x4F, 0x52, 0x4D]);
        assert(aiff@ =~= seq![0x41u8, 0x49, 0x46, 0x46]);
        assert(ftyp@ =~= seq![0x66u8, 0x74, 0x79, 0x70]);
        assert(asf@ =~= seq![0x30u8, 0x26, 0xB2, 0x75]);
        assert forall|p: Seq<u8>| p.len() <= data@.len() implies (bytes_start_with(data@, p)
            <==> bytes_at(data@, 0, p)) by {
            assert(data@.take(p.len() as int) =~= data@.subrange(0, p.len() as int));
        }
    }
    has_bytes_at(data, 0, &id3) || (data[0] == 0xFF && (data[1] & 0xE0) == 0xE0) || has_bytes_at(
        data,
        0,
        &flac,
    ) || has_bytes_at(data, 0, &ogg) || (has_bytes_at(data, 0, &riff) && has_bytes_at(
        data,
        8,
        &wave,
    )) || (has_bytes_at(data, 0, &form) && has_bytes_at(data, 8, &aiff)) || has_bytes_at(
        data,
        4,
        &ftyp,
    ) || has_bytes_at(data, 0, &asf)
}

// ─── Cover images ──────────────────────────────────────────────────────

/// Largest cover image accepted: 10 MB.
pub const MAX_COVER_BYTES: usize = 10485760;

/// Why a cover image is refused.
#[derive(Debug, Clone, Copy, PartialEq, Eq, Structural)]
pub enum CoverRejection {
    TooSmall,
    NotAnImage,
    TooLarge,
}

/// Whether bytes start like a JPEG, PNG or WebP image.
pub open spec fn is_cover_magic(d: Seq<u8>) -> bool {
    ||| bytes_start_with(d, seq![0xFFu8, 0xD8, 0xFF])
    ||| bytes_start_with(d, seq![0x89u8, 0x50, 0x4E, 0x47])
    ||| (d.len() > 12 && bytes_at(d, 8, seq![0x57u8, 0x45, 0x42, 0x50]))
}

/// The verdict on a cover image: too small (under 4 bytes), not a JPEG, PNG
/// or WebP, then too large (over 10 MB).
pub open spec fn cover_verdict(d: Seq<u8>) -> Option<CoverRejection> {
    if d.len() < 4 {
        Some(CoverRejection::TooSmall)
    } else if !is_cover_magic(d) {
        Some(CoverRejection::NotAnImage)
    } else if d.len() > MAX_COVER_BYTES {
        Some(CoverRejection::TooLarge)
    } else {
        None
    }
}

/// Checks an uploaded album cover.
pub fn check_cover_image(data: &[u8]) -> (r: Result<(), CoverRejection>)
    ensures
        match cover_verdict(data@) {
            None => r is Ok,
            Some(why) => r == Err::<(), CoverRejection>(why),
        },
{
    if data.len() < 4 {
        return Err(CoverRejection::TooSmall);
    }
    let jpeg: [u8; 3] = [0xFF, 0xD8, 0xFF];
    let png: [u8; 4] = [0x89, 0x50, 0x4E, 0x47];
    let webp: [u8; 4] = [0x57, 0x45, 0x42, 0x50];
    proof {
        assert(jpeg@ =~= seq![0xFFu8, 0xD8, 0xFF]);
        assert(png@ =~= seq![0x89u8, 0x50, 0x4E, 0x47]);
        assert(webp@ =~= seq![0x57u8, 0x45, 0x42, 0x50]);
        assert forall|p: Seq<u8>| p.len() <= data@.len() implies (bytes_start_with(data@, p)
            <==> bytes_at(data@, 0, p)) by {
            assert(data@.take(p.len() as int) =~= data@.subrange(0, p.len() as int));
        }
    }
    let valid = has_bytes_at(data, 0, &jpeg) || has_bytes_at(data, 0, &png) || (data.len() > 12
        && has_bytes_at(data, 8, &webp));
    if !valid {
        return Err(CoverRejection::NotAnImage);
    }
    if data.len() > MAX_COVER_BYTES {
        return Err(CoverRejection::TooLarge);
    }
    Ok(())
}

impl CoverRejection {
    /// The message the client gets.
    pub fn message(&self) -> (s: &'static str)
        ensures
            s@ == match *self {
                CoverRejection::TooSmall => "File too small to be a valid image"@,
                CoverRejection::NotAnImage => "Invalid image format (JPEG, PNG, or WebP only)"@,
                CoverRejection::TooLarge => "Cover image exceeds 10MB limit"@,
            },
    {
        match self {
            CoverRejection::TooSmall => "File too small to be a valid image",
            CoverRejection::NotAnImage => "Invalid image format (JPEG, PNG, or WebP only)",
            CoverRejection::TooLarge => "Cover image exceeds 10MB limit",
        }
    }
}

/// Who may change an album's cover: a user who uploaded one of its tracks,
/// or an administrator; anyone else is answered 403 Forbidden.
pub fn may_change_cover(uploaded_a_track: bool, is_admin: bool) -> (r: Result<(), (u16, &'static str)>)
    ensures
        r is Ok <==> (uploaded_a_track || is_admin),
        !(uploaded_a_track || is_admin) ==> (r matches Err((status, m)) && status == 403 && m@
            == "Only the uploader or an admin can change album cover"@),
{
    if uploaded_a_track || is_admin {
        Ok(())
    } else {
        Err((403, "Only the uploader or an admin can change album cover"))
    }
}

/// Whether a stored media file is served: its canonical path lies under
/// the media root's canonical path (anything else is a path traversal) and
/// names a regular file.
pub fn media_file_servable(canonical: &str, root_canonical: &str, is_file: bool) -> (b: bool)
    ensures
        b == (path_starts_with(canonical@, root_canonical@) && is_file),
{
    starts_with_path(canonical, root_canonical) && is_file
}

/// The URL a stored media file is served under: `/api/media/{path}`.
pub fn media_url(stored_path: &str) -> (u: String)
    ensures
        u@ == "/api/media/"@ + stored_path@,
{
    let mut v: Vec<char> = Vec::new();
    push_str(&mut v, "/api/media/");
    push_str(&mut v, stored_path);
    string_of(&v)
}

// ─── Range requests ────────────────────────────────────────────────────

/// An unsigned number as `str::parse::<u64>` reads it.
pub open spec fn u64_value(t: Seq<char>) -> Option<u64> {
    match decimal_value(t) {
        Some(n) => if n <= u64::MAX {
            Some(n as u64)
        } else {
            None
        },
        None => None,
    }
}

/// Index of the first `c` in `s`, if any.
pub open spec fn first_index_of(s: Seq<char>, c: char) -> Option<int>
    decreases s.len(),
{
    if s.len() == 0 {
        None
    } else if s[0] == c {
        Some(0)
    } else {
        match first_index_of(s.drop_first(), c) {
            Some(i) => Some(i + 1),
            None => None,
        }
    }
}

/// A `Range` header `bytes=START-END` read as the server reads it: the
/// start must be a number; the end is absent when there is no `-`, when
/// nothing follows it, or when what follows is not a number.
pub open spec fn range_of(header: Seq<char>) -> Option<(u64, Option<u64>)> {
    if !is_prefix("bytes="@, header) {
        None
    } else {
        let r = header.skip(6);
        let (start_text, end_text) = match first_index_of(r, '-') {
            Some(k) => (r.take(k), Some(r.skip(k + 1))),
            None => (r, None),
        };
        match u64_value(start_text) {
            None => None,
            Some(start) => Some(
                (
                    start,
                    match end_text {
                        None => None,
                        Some(t) => if t.len() == 0 {
                            None
                        } else {
                            u64_value(t)
                        },
                    },
                ),
            ),
        }
    }
}

proof fn lemma_first_index_found(s: Seq<char>, c: char, k: int)
    requires
        0 <= k < s.len(),
        s[k] == c,
        forall|j: int| 0 <= j < k ==> s[j] != c,
    ensures
        first_index_of(s, c) == Some(k),
    decreases k,
{
    if k > 0 {
        lemma_first_index_found(s.drop_first(), c, k - 1);
    }
}

proof fn lemma_first_index_none(s: Seq<char>, c: char)
    requires
        forall|j: int| 0 <= j < s.len() ==> s[j] != c,
    ensures
        first_index_of(s, c) is None,
    decreases s.len(),
{
    if s.len() > 0 {
        lemma_first_index_none(s.drop_first(), c);
    }
}

fn read_u64(v: &Vec<char>) -> (r: Option<u64>)
    ensures
        r == u64_value(v@),
{
    let s = string_of(v);
    parse_u64(s.as_str())
}

/// Parses a `Range` header value (see `range_of`).
pub fn parse_range_header(header: &str) -> (r: Option<(u64, Option<u64>)>)
    ensures
        r == range_of(header@),
{
    let h = chars_of(header);
    let prefix = chars_of("bytes=");
    proof {
        reveal_strlit("bytes=");
    }
    if h.len() < 6 {
        return None;
    }
    let mut i: usize = 0;
    while i < 6
        invariant
            h@ == header@,
            prefix@ == "bytes="@,
            prefix@.len() == 6,
            h@.len() >= 6,
            i <= 6,
            forall|j: int| 0 <= j < i ==> h@[j] == prefix@[j],
        decreases 6 - i,
    {
        if h[i] != prefix[i] {
            assert(!is_prefix("bytes="@, header@)) by {
                if is_prefix("bytes="@, header@) {
                    assert(header@.take(6)[i as int] == h@[i as int]);
                }
            }
            return None;
        }
        i = i + 1;
    }
    assert(header@.take(6) =~= "bytes="@);
    let ghost r = header@.skip(6);
    let mut dash: usize = 6;
    while dash < h.len() && h[dash] != '-'
        invariant
            h@ == header@,
            6 <= dash <= h@.len(),
            r == h@.skip(6),
            forall|j: int| 6 <= j < dash ==> h@[j] != '-',
        decreases h.len() - dash,
    {
        dash = dash + 1;
    }
    let mut start_chars: Vec<char> = Vec::new();
    let mut k: usize = 6;
    while k < dash
        invariant
            h@ == header@,
            6 <= k <= dash <= h@.len(),
            start_chars@ == h@.subrange(6, k as int),
        decreases dash - k,
    {
        start_chars.push(h[k]);
        assert(h@.subrange(6, k + 1) =~= h@.subrange(6, k as int).push(h@[k as int]));
        k = k + 1;
    }
    let start = read_u64(&start_chars);
    let ghost split = first_index_of(r, '-');
    proof {
        if dash < h@.len() {
            assert forall|j: int| 0 <= j < dash - 6 implies r[j] != '-' by {
                assert(r[j] == h@[j + 6]);
            }
            lemma_first_index_found(r, '-', dash - 6);
            assert(r.take(dash - 6) =~= h@.subrange(6, dash as int));
        } else {
            assert forall|j: int| 0 <= j < r.len() implies r[j] != '-' by {
                assert(r[j] == h@[j + 6]);
            }
            lemma_first_index_none(r, '-');
            assert(r =~= h@.subrange(6, dash as int));
        }
    }
    match start {
        None => None,
        Some(s) => {
            if dash >= h.len() {
                return Some((s, None));
            }
            let mut end_chars: Vec<char> = Vec::new();
            let mut m: usize = dash + 1;
            while m < h.len()
                invariant
                    h@ == header@,
                    dash < h@.len(),
                    dash + 1 <= m <= h@.len(),
                    end_chars@ == h@.subrange(dash + 1, m as int),
                decreases h.len() - m,
            {
                end_chars.push(h[m]);
                assert(h@.subrange(dash + 1, m + 1) =~= h@.subrange(dash + 1, m as int).push(
                    h@[m as int],
                ));
                m = m + 1;
            }
            proof {
                assert(r.skip(dash - 6 + 1) =~= h@.subrange(dash + 1, h@.len() as int));
            }
            if end_chars.len() == 0 {
                return Some((s, None));
            }
            let end = read_u64(&end_chars);
            Some((s, end))
        },
    }
}

/// The part of a file a stream response carries.
#[derive(Debug, Clone, Copy, PartialEq, Eq, Structural)]
pub struct StreamWindow {
    /// First byte sent.
    pub start: u64,
    /// Last byte sent.
    pub end: u64,
    /// Number of bytes sent.
    pub length: u64,
    /// Whether the response is partial content (a range was asked for).
    pub partial: bool,
}

/// The last byte a range asks for, clamped to the file.
pub open spec fn range_end(range: Option<(u64, Option<u64>)>, file_size: u64) -> int {
    match range {
        Some((_, Some(e))) => if e < file_size - 1 {
            e as int
        } else {
            file_size - 1
        },
        _ => file_size - 1,
    }
}

/// The first byte a range asks for.
pub open spec fn range_start(range: Option<(u64, Option<u64>)>) -> int {
    match range {
        Some((s, _)) => s as int,
        None => 0,
    }
}

/// Which bytes of a non-empty file to send for a (parsed) `Range` header:
/// from its start to its end, the end clamped to the last byte; the whole
/// file without a range.  The range must not start past its clamped end.
pub fn stream_window(range: Option<(u64, Option<u64>)>, file_size: u64) -> (w: StreamWindow)
    requires
        file_size > 0,
        range_start(range) <= range_end(range, file_size),
    ensures
        w.start == range_start(range),
        w.end == range_end(range, file_size),
        w.length == w.end - w.start + 1,
        w.partial == range is Some,
{
    let last = file_size - 1;
    match range {
        Some((s, e)) => {
            let end = match e {
                Some(x) => if x < last {
                    x
                } else {
                    last
                },
                None => last,
            };
            StreamWindow { start: s, end, length: end - s + 1, partial: true }
        },
        None => StreamWindow { start: 0, end: last, length: file_size, partial: false },
    }
}

/// Which bytes to send for a (parsed) `Range` header, for any file: the
/// window of `stream_window`, or `None` when no byte can be sent (an empty
/// file, or a range starting past its clamped end), which the caller
/// answers with 416 Range Not Satisfiable.
pub fn plan_stream(range: Option<(u64, Option<u64>)>, file_size: u64) -> (r: Option<StreamWindow>)
    ensures
        r is None <==> (file_size == 0 || range_start(range) > range_end(range, file_size)),
        r matches Some(w) ==> {
            &&& w.start == range_start(range)
            &&& w.end == range_end(range, file_size)
            &&& w.length == w.end - w.start + 1
            &&& w.partial == range is Some
            &&& w.end < file_size
        },
{
    if file_size == 0 {
        return None;
    }
    let last = file_size - 1;
    let start: u64 = match range {
        Some((s, _)) => s,
        None => 0,
    };
    let end: u64 = match range {
        Some((_, Some(x))) => if x < last {
            x
        } else {
            last
        },
        _ => last,
    };
    if start > end {
        return None;
    }
    Some(stream_window(range, file_size))
}

/// The `Content-Range` value: `bytes START-END/SIZE`.
pub fn content_range(start: u64, end: u64, file_size: u64) -> (s: String)
    ensures
        s@ == "bytes "@ + dec(start as nat) + "-"@ + dec(end as nat) + "/"@ + dec(
            file_size as nat,
        ),
{
    let mut v: Vec<char> = Vec::new();
    push_str(&mut v, "bytes ");
    push_decimal(&mut v, start);
    push_str(&mut v, "-");
    push_decimal(&mut v, end);
    push_str(&mut v, "/");
    push_decimal(&mut v, file_size);
    string_of(&v)
}

// ─── Content types ─────────────────────────────────────────────────────

/// The MIME type a track is streamed with, by its stored format.
pub open spec fn audio_mime(format: Seq<char>) -> Seq<char> {
    if format == "mp3"@ {
        "audio/mpeg"@
    } else if format == "flac"@ {
        "audio/flac"@
    } else if format == "ogg"@ {
        "audio/ogg"@
    } else if format == "wav"@ {
        "audio/wav"@
    } else if format == "aac"@ {
        "audio/aac"@
    } else if format == "opus"@ {
        "audio/opus"@
    } else if format == "aiff"@ {
        "audio/aiff"@
    } else {
        "application/octet-stream"@
    }
}

/// The content type of a track names its stored format: each of `flac`,
/// `ogg`, `wav`, `aac`, `opus` and `aiff` is served as `audio/` followed by
/// the format, and `audio/mpeg` is the type of `mp3` and of no other format.
pub proof fn law_content_type_names_format(format: Seq<char>)
    ensures
        (format == "flac"@ || format == "ogg"@ || format == "wav"@ || format == "aac"@ || format
            == "opus"@ || format == "aiff"@) ==> audio_mime(format) == "audio/"@ + format,
        audio_mime(format) == "audio/mpeg"@ <==> format == "mp3"@,
        !(format == "mp3"@ || format == "flac"@ || format == "ogg"@ || format == "wav"@ || format
            == "aac"@ || format == "opus"@ || format == "aiff"@) ==> audio_mime(format)
            == "application/octet-stream"@,
{
    reveal_strlit("mp3");
    reveal_strlit("flac");
    reveal_strlit("ogg");
    reveal_strlit("wav");
    reveal_strlit("aac");
    reveal_strlit("opus");
    reveal_strlit("aiff");
    reveal_strlit("audio/");
    reveal_strlit("audio/mpeg");
    reveal_strlit("audio/flac");
    reveal_strlit("audio/ogg");
    reveal_strlit("audio/wav");
    reveal_strlit("audio/aac");
    reveal_strlit("audio/opus");
    reveal_strlit("audio/aiff");
    reveal_strlit("application/octet-stream");
    assert("audio/"@ + "flac"@ =~= "audio/flac"@);
    assert("audio/"@ + "ogg"@ =~= "audio/ogg"@);
    assert("audio/"@ + "wav"@ =~= "audio/wav"@);
    assert("audio/"@ + "aac"@ =~= "audio/aac"@);
    assert("audio/"@ + "opus"@ =~= "audio/opus"@);
    assert("audio/"@ + "aiff"@ =~= "audio/aiff"@);
    assert("audio/flac"@ != "audio/mpeg"@) by { assert("audio/flac"@[6] != "audio/mpeg"@[6]); }
    assert("audio/opus"@ != "audio/mpeg"@) by { assert("audio/opus"@[6] != "audio/mpeg"@[6]); }
    assert("audio/aiff"@ != "audio/mpeg"@) by { assert("audio/aiff"@[6] != "audio/mpeg"@[6]); }
    assert("audio/ogg"@.len() != "audio/mpeg"@.len());
    assert("audio/wav"@.len() != "audio/mpeg"@.len());
    assert("audio/aac"@.len() != "audio/mpeg"@.len());
    assert("application/octet-stream"@.len() != "audio/mpeg"@.len());
    assert("ogg"@ != "mp3"@) by { assert("ogg"@[0] != "mp3"@[0]); }
    assert("wav"@ != "mp3"@) by { assert("wav"@[0] != "mp3"@[0]); }
    assert("wav"@ != "ogg"@) by { assert("wav"@[0] != "ogg"@[0]); }
    assert("aac"@ != "mp3"@) by { assert("aac"@[0] != "mp3"@[0]); }
    assert("aac"@ != "ogg"@) by { assert("aac"@[0] != "ogg"@[0]); }
    assert("aac"@ != "wav"@) by { assert("aac"@[0] != "wav"@[0]); }
    assert("opus"@ != "flac"@) by { assert("opus"@[0] != "flac"@[0]); }
    assert("aiff"@ != "flac"@) by { assert("aiff"@[0] != "flac"@[0]); }
    assert("aiff"@ != "opus"@) by { assert("aiff"@[0] != "opus"@[0]); }
}

/// Content type of a streamed track.
pub fn audio_content_type(format: &str) -> (t: &'static str)
    ensures
        t@ == audio_mime(format@),
{
    if str_eq(format, "mp3") {
        "audio/mpeg"
    } else if str_eq(format, "flac") {
        "audio/flac"
    } else if str_eq(format, "ogg") {
        "audio/ogg"
    } else if str_eq(format, "wav") {
        "audio/wav"
    } else if str_eq(format, "aac") {
        "audio/aac"
    } else if str_eq(format, "opus") {
        "audio/opus"
    } else if str_eq(format, "aiff") {
        "audio/aiff"
    } else {
        "application/octet-stream"
    }
}

/// The MIME type of a served media file, by its extension.
pub open spec fn image_mime(ext: Seq<char>) -> Seq<char> {
    if ext == "jpg"@ || ext == "jpeg"@ {
        "image/jpeg"@
    } else if ext == "png"@ {
        "image/png"@
    } else if ext == "webp"@ {
        "image/webp"@
    } else if ext == "gif"@ {
        "image/gif"@
    } else {
        "application/octet-stream"@
    }
}

/// Content type of a served media file (covers and the like), from the
/// extension of its path (none counts as unknown).
pub fn media_content_type(path: &str) -> (t: &'static str)
    ensures
        t@ == image_mime(
            match path_extension(path@) {
                Some(e) => e,
                None => Seq::<char>::empty(),
            },
        ),
{
    let ext = match extension_of(path) {
        Some(e) => e,
        None => string_of(&Vec::new()),
    };
    let e = ext.as_str();
    if str_eq(e, "jpg") || str_eq(e, "jpeg") {
        "image/jpeg"
    } else if str_eq(e, "png") {
        "image/png"
    } else if str_eq(e, "webp") {
        "image/webp"
    } else if str_eq(e, "gif") {
        "image/gif"
    } else {
        "application/octet-stream"
    }
}

// ─── Peer-to-peer tracks ───────────────────────────────────────────────

/// A stored file path names a peer-to-peer blob when it starts with
/// `p2p://`; the rest is the blob hash.
pub open spec fn p2p_hash_of(file_path: Seq<char>) -> Option<Seq<char>> {
    if is_prefix("p2p://"@, file_path) {
        Some(file_path.skip(6))
    } else {
        None
    }
}

fn strip_p2p(s: &str) -> (r: Option<String>)
    ensures
        match r {
            Some(x) => p2p_hash_of(s@) == Some(x@),
            None => p2p_hash_of(s@) is None,
        },
{
    let v = chars_of(s);
    let p = chars_of("p2p://");
    proof {
        reveal_strlit("p2p://");
    }
    if v.len() < 6 {
        return None;
    }
    let mut i: usize = 0;
    while i < 6
        invariant
            v@ == s@,
            p@ == "p2p://"@,
            p@.len() == 6,
            v@.len() >= 6,
            i <= 6,
            forall|j: int| 0 <= j < i ==> v@[j] == p@[j],
        decreases 6 - i,
    {
        if v[i] != p[i] {
            assert(!is_prefix("p2p://"@, s@)) by {
                if is_prefix("p2p://"@, s@) {
                    assert(s@.take(6)[i as int] == v@[i as int]);
                }
            }
            return None;
        }
        i = i + 1;
    }
    assert(s@.take(6) =~= "p2p://"@);
    let mut rest: Vec<char> = Vec::new();
    let mut k: usize = 6;
    while k < v.len()
        invariant
            v@ == s@,
            6 <= k <= v@.len(),
            rest@ == v@.subrange(6, k as int),
        decreases v.len() - k,
    {
        rest.push(v[k]);
        assert(v@.subrange(6, k + 1) =~= v@.subrange(6, k as int).push(v@[k as int]));
        k = k + 1;
    }
    assert(v@.subrange(6, v@.len() as int) =~= s@.skip(6));
    Some(string_of(&rest))
}

/// The blob hash of a peer-to-peer track, or `None` for a local file.
pub fn p2p_hash(file_path: &str) -> (r: Option<String>)
    ensures
        match r {
            Some(x) => p2p_hash_of(file_path@) == Some(x@),
            None => p2p_hash_of(file_path@) is None,
        },
{
    strip_p2p(file_path)
}

/// The node a remote track came from: its instance domain without a
/// leading `p2p://`.
pub fn origin_node(instance_domain: &str) -> (r: String)
    ensures
        r@ == match p2p_hash_of(instance_domain@) {
            Some(rest) => rest,
            None => instance_domain@,
        },
{
    match strip_p2p(instance_domain) {
        Some(rest) => rest,
        None => string_of(&chars_of(instance_domain)),
    }
}

/// Why a peer-to-peer track cannot be streamed.
#[derive(Debug, Clone, Copy, PartialEq, Eq, Structural)]
pub enum P2pStreamRefusal {
    /// No peer-to-peer node runs on this instance (503).
    NodeUnavailable,
    /// The remote track is recorded as no longer available (410).
    Gone,
    /// The hash in the track's path does not parse (400).
    InvalidHash,
    /// No peer handed over the track's data (404).
    DataUnavailable,
}

/// What the steps of streaming a peer-to-peer track decide, in the order
/// they run: is a node running, is the remote track (where one is
/// recorded) still available, does the hash parse, did a peer hand over the
/// data.  A step after the first refusal does not run, and what is passed
/// for it does not matter.
pub open spec fn p2p_refusal_of(
    node_running: bool,
    recorded_available: Option<bool>,
    hash_parses: bool,
    fetched: bool,
) -> Option<P2pStreamRefusal> {
    if !node_running {
        Some(P2pStreamRefusal::NodeUnavailable)
    } else if recorded_available == Some(false) {
        Some(P2pStreamRefusal::Gone)
    } else if !hash_parses {
        Some(P2pStreamRefusal::InvalidHash)
    } else if !fetched {
        Some(P2pStreamRefusal::DataUnavailable)
    } else {
        None
    }
}

/// Decides whether a peer-to-peer track is streamed (see `p2p_refusal_of`).
pub fn p2p_stream_refusal(
    node_running: bool,
    recorded_available: Option<bool>,
    hash_parses: bool,
    fetched: bool,
) -> (r: Option<P2pStreamRefusal>)
    ensures
        r == p2p_refusal_of(node_running, recorded_available, hash_parses, fetched),
{
    if !node_running {
        return Some(P2pStreamRefusal::NodeUnavailable);
    }
    if let Some(false) = recorded_available {
        return Some(P2pStreamRefusal::Gone);
    }
    if !hash_parses {
        return Some(P2pStreamRefusal::InvalidHash);
    }
    if !fetched {
        return Some(P2pStreamRefusal::DataUnavailable);
    }
    None
}

impl P2pStreamRefusal {
    /// The HTTP status of the refusal.
    pub fn status(&self) -> (s: u16)
        ensures
            s == match *self {
                P2pStreamRefusal::NodeUnavailable => 503u16,
                P2pStreamRefusal::Gone => 410u16,
                P2pStreamRefusal::InvalidHash => 400u16,
                P2pStreamRefusal::DataUnavailable => 404u16,
            },
    {
        match self {
            P2pStreamRefusal::NodeUnavailable => 503,
            P2pStreamRefusal::Gone => 410,
            P2pStreamRefusal::InvalidHash => 400,
            P2pStreamRefusal::DataUnavailable => 404,
        }
    }

    /// The message the client gets.
    pub fn message(&self) -> (m: &'static str)
        ensures
            m@ == match *self {
                P2pStreamRefusal::NodeUnavailable => "P2P node not available"@,
                P2pStreamRefusal::Gone => "P2P track is no longer available"@,
                P2pStreamRefusal::InvalidHash => "Invalid P2P hash"@,
                P2pStreamRefusal::DataUnavailable => "P2P track data not available"@,
            },
    {
        match self {
            P2pStreamRefusal::NodeUnavailable => "P2P node not available",
            P2pStreamRefusal::Gone => "P2P track is no longer available",
            P2pStreamRefusal::InvalidHash => "Invalid P2P hash",
            P2pStreamRefusal::DataUnavailable => "P2P track data not available",
        }
    }
}

// ─── Uploads ───────────────────────────────────────────────────────────

/// Largest number of files in one batch upload.
pub const MAX_BATCH_FILES: usize = 50;

/// Why an upload is refused before it is stored.
#[derive(Debug, Clone, PartialEq, Eq)]
pub enum UploadRejection {
    /// The file extension (lowercased) is not a supported audio format.
    UnsupportedFormat(String),
    /// The content does not start like audio.
    NotAudio,
}

impl UploadRejection {
    /// The message the client gets.
    pub fn message(&self) -> (s: String)
        ensures
            s@ == match *self {
                UploadRejection::UnsupportedFormat(ext) => "Unsupported format: "@ + ext@,
                UploadRejection::NotAudio => "File content does not match a recognized audio format"@,
            },
    {
        match self {
            UploadRejection::UnsupportedFormat(ext) => {
                let mut v: Vec<char> = Vec::new();
                push_str(&mut v, "Unsupported format: ");
                push_str(&mut v, ext.as_str());
                string_of(&v)
            },
            UploadRejection::NotAudio => string_of(
                &chars_of("File content does not match a recognized audio format"),
            ),
        }
    }
}

/// The lowercased extension of an uploaded file's name (empty when it has
/// none).
pub open spec fn upload_ext(filename: Seq<char>) -> Seq<char> {
    match path_extension(filename) {
        Some(e) => unicode_lowercase(e),
        None => unicode_lowercase(Seq::<char>::empty()),
    }
}

/// The extension an upload is judged by: that of its file name, lowercased.
pub fn upload_extension(filename: &str) -> (e: String)
    ensures
        e@ == upload_ext(filename@),
{
    proof {
        reveal_strlit("");
    }
    match extension_of(filename) {
        Some(x) => {
            assert(path_extension(filename@) == Some(x@));
            lowercase_of(x.as_str())
        },
        None => {
            let e = lowercase_of("");
            assert(""@ =~= Seq::<char>::empty());
            e
        },
    }
}

/// Decides whether an upload may be stored: its format must be supported
/// (`supported`, which the audio library decides for `ext`), then its bytes
/// must look like audio.
pub fn check_upload(ext: &str, supported: bool, data: &[u8]) -> (r: Result<(), UploadRejection>)
    ensures
        !supported ==> (r matches Err(UploadRejection::UnsupportedFormat(x)) && x@ == ext@),
        supported && !is_audio_magic(data@) ==> r == Err::<(), UploadRejection>(
            UploadRejection::NotAudio,
        ),
        supported && is_audio_magic(data@) ==> r is Ok,
{
    if !supported {
        return Err(UploadRejection::UnsupportedFormat(string_of(&chars_of(ext))));
    }
    if !validate_audio_magic_bytes(data) {
        return Err(UploadRejection::NotAudio);
    }
    Ok(())
}

/// Whether a batch upload holds more files than allowed.
pub fn batch_too_large(files: usize) -> (b: bool)
    ensures
        b == (files > MAX_BATCH_FILES),
{
    files > MAX_BATCH_FILES
}

/// Metadata fields sent with a single upload.
#[derive(Debug, Clone)]
pub struct UploadForm {
    pub title: Option<String>,
    pub album: Option<String>,
    pub artist: Option<String>,
}

/// Names read from the audio file's tags.
#[derive(Debug, Clone)]
pub struct AudioTags {
    pub title: Option<String>,
    pub artist: Option<String>,
    pub album: Option<String>,
    pub album_artist: Option<String>,
}

/// The names a new track is filed under.
#[derive(Debug, Clone)]
pub struct UploadNames {
    pub artist: String,
    pub album_artist: String,
    pub album: String,
    pub title: String,
}

/// The first present value of `a`, then `b`.
pub open spec fn or_else(a: Option<Seq<char>>, b: Option<Seq<char>>) -> Option<Seq<char>> {
    match a {
        Some(x) => Some(x),
        None => b,
    }
}

/// A value, or `default` when absent.
pub open spec fn or_default(a: Option<Seq<char>>, default: Seq<char>) -> Seq<char> {
    match a {
        Some(x) => x,
        None => default,
    }
}

/// The track artist: the form's, the tag's, or `Unknown Artist`.
pub open spec fn artist_name(form: UploadForm, tags: AudioTags) -> Seq<char> {
    or_default(or_else(opt_view(form.artist), opt_view(tags.artist)), "Unknown Artist"@)
}

/// The album artist: the tag's album artist, then the form's artist, the
/// tag's artist, or `Unknown Artist`.
pub open spec fn album_artist_name(form: UploadForm, tags: AudioTags) -> Seq<char> {
    or_default(
        or_else(
            opt_view(tags.album_artist),
            or_else(opt_view(form.artist), opt_view(tags.artist)),
        ),
        "Unknown Artist"@,
    )
}

/// The album: the form's, the tag's, or `Singles`.
pub open spec fn album_title(form: UploadForm, tags: AudioTags) -> Seq<char> {
    or_default(or_else(opt_view(form.album), opt_view(tags.album)), "Singles"@)
}

/// The title: the form's, the tag's, the file name's stem, or `Unknown`.
pub open spec fn track_title(form: UploadForm, tags: AudioTags, filename: Seq<char>) -> Seq<char> {
    or_default(
        or_else(
            opt_view(form.title),
            or_else(opt_view(tags.title), path_file_stem(filename)),
        ),
        "Unknown"@,
    )
}

/// How an upload is filed: a value given in the form wins, else the file's
/// tag, else the default.  In particular a batch upload (empty form) files
/// a track under its tags' album, artist and title; `Singles` and `Unknown
/// Artist` only when the tags have none.  The album artist is the tag's
/// album artist when there is one, else the track artist.
pub proof fn law_upload_filing(form: UploadForm, tags: AudioTags, filename: Seq<char>)
    ensures
        form.album matches Some(a) ==> album_title(form, tags) == a@,
        form.album is None ==> (tags.album matches Some(a) ==> album_title(form, tags) == a@),
        form.album is None && tags.album is None ==> album_title(form, tags) == "Singles"@,
        form.artist matches Some(a) ==> artist_name(form, tags) == a@,
        form.artist is None ==> (tags.artist matches Some(a) ==> artist_name(form, tags) == a@),
        form.artist is None && tags.artist is None ==> artist_name(form, tags) == "Unknown Artist"@,
        form.title matches Some(t) ==> track_title(form, tags, filename) == t@,
        form.title is None ==> (tags.title matches Some(t) ==> track_title(form, tags, filename) == t@),
        form.title is None && tags.title is None ==> track_title(form, tags, filename) == match path_file_stem(
            filename,
        ) {
            Some(stem) => stem,
            None => "Unknown"@,
        },
        tags.album_artist matches Some(a) ==> album_artist_name(form, tags) == a@,
        tags.album_artist is None ==> album_artist_name(form, tags) == artist_name(form, tags),
{
}

fn copy_str(s: &String) -> (r: String)
    ensures
        r@ == s@,
{
    string_of(&chars_of(s.as_str()))
}

fn first_of(a: &Option<String>, b: &Option<String>) -> (r: Option<String>)
    ensures
        opt_view(r) == or_else(opt_view(*a), opt_view(*b)),
{
    match a {
        Some(x) => Some(copy_str(x)),
        None => match b {
            Some(y) => Some(copy_str(y)),
            None => None,
        },
    }
}

fn value_or(a: Option<String>, default: &str) -> (r: String)
    ensures
        r@ == or_default(opt_view(a), default@),
{
    match a {
        Some(x) => x,
        None => string_of(&chars_of(default)),
    }
}

/// The names an upload is filed under.  A batch upload has no form fields:
/// it passes an empty form.
pub fn upload_names(form: &UploadForm, tags: &AudioTags, filename: &str) -> (n: UploadNames)
    ensures
        n.artist@ == artist_name(*form, *tags),
        n.album_artist@ == album_artist_name(*form, *tags),
        n.album@ == album_title(*form, *tags),
        n.title@ == track_title(*form, *tags, filename@),
{
    let artist = value_or(first_of(&form.artist, &tags.artist), "Unknown Artist");
    let fallback = first_of(&form.artist, &tags.artist);
    let album_artist = value_or(
        match &tags.album_artist {
            Some(x) => Some(copy_str(x)),
            None => fallback,
        },
        "Unknown Artist",
    );
    let album = value_or(first_of(&form.album, &tags.album), "Singles");
    let stem = file_stem_of(filename);
    let title_source = match &form.title {
        Some(x) => Some(copy_str(x)),
        None => match &tags.title {
            Some(y) => Some(copy_str(y)),
            None => stem,
        },
    };
    let title = value_or(title_source, "Unknown");
    UploadNames { artist, album_artist, album, title }
}

/// The stored path of a file converted from AIFF to FLAC: the extension
/// after the last `.` becomes `flac`; a path without `.` is kept.
pub open spec fn flac_path_of(path: Seq<char>) -> Seq<char> {
    match crate::paths::last_dot(path) {
        Some(i) => path.take(i) + ".flac"@,
        None => path,
    }
}

/// Renames a stored path after AIFF to FLAC conversion.
pub fn flac_path(relative_path: &str) -> (p: String)
    ensures
        p@ == flac_path_of(relative_path@),
{
    let v = chars_of(relative_path);
    let mut i: usize = v.len();
    assert(v@.take(i as int) =~= v@);
    while i > 0 && v[i - 1] != '.'
        invariant
            v@ == relative_path@,
            i <= v@.len(),
            crate::paths::last_dot(v@) == crate::paths::last_dot(v@.take(i as int)),
        decreases i,
    {
        proof {
            assert(v@.take(i as int).drop_last() =~= v@.take(i - 1));
        }
        i = i - 1;
    }
    if i == 0 {
        proof {
            assert(crate::paths::last_dot(v@.take(0)) is None);
        }
        return string_of(&v);
    }
    proof {
        assert(v@.take(i as int).last() == '.');
    }
    let mut out: Vec<char> = Vec::new();
    let mut k: usize = 0;
    while k < i - 1
        invariant
            v@ == relative_path@,
            0 < i <= v@.len(),
            k <= i - 1,
            out@ == v@.take(k as int),
        decreases i - 1 - k,
    {
        out.push(v[k]);
        assert(v@.take(k + 1) =~= v@.take(k as int).push(v@[k as int]));
        k = k + 1;
    }
    push_str(&mut out, ".flac");
    string_of(&out)
}

/// How many uploads of a batch succeeded and failed.
#[derive(Debug, Clone, Copy, PartialEq, Eq, Structural)]
pub struct BatchCounts {
    pub total: usize,
    pub success: usize,
    pub failed: usize,
}

/// Number of `true` among `outcomes`.
pub open spec fn count_true(outcomes: Seq<bool>) -> nat
    decreases outcomes.len(),
{
    if outcomes.len() == 0 {
        0
    } else {
        count_true(outcomes.drop_last()) + if outcomes.last() {
            1nat
        } else {
            0nat
        }
    }
}

/// Counts the outcomes of a batch upload (`true` for each stored file).
pub fn batch_counts(outcomes: &Vec<bool>) -> (c: BatchCounts)
    ensures
        c.total == outcomes@.len(),
        c.success == count_true(outcomes@),
        c.failed == c.total - c.success,
{
    let mut success: usize = 0;
    let mut i: usize = 0;
    while i < outcomes.len()
        invariant
            i <= outcomes@.len(),
            success == count_true(outcomes@.take(i as int)),
            success <= i,
        decreases outcomes.len() - i,
    {
        proof {
            assert(outcomes@.take(i + 1).drop_last() =~= outcomes@.take(i as int));
        }
        if outcomes[i] {
            success = success + 1;
        }
        i = i + 1;
    }
    proof {
        assert(outcomes@.take(outcomes@.len() as int) =~= outcomes@);
    }
    BatchCounts { total: outcomes.len(), success, failed: outcomes.len() - success }
}

// ─── Cover URLs ────────────────────────────────────────────────────────

/// The URL a client loads a cover from: a stored path is served under
/// `/api/media/`; a URL already under it, or starting with `http`, is kept.
pub open spec fn public_cover(url: Seq<char>) -> Seq<char> {
    if is_prefix("/api/media/"@, url) || is_prefix("http"@, url) {
        url
    } else {
        "/api/media/"@ + url
    }
}

/// Makes a stored cover reference loadable by clients (see `public_cover`).
pub fn public_cover_url(url: &str) -> (u: String)
    ensures
        u@ == public_cover(url@),
{
    let v = chars_of(url);
    let media = chars_of("/api/media/");
    let http = chars_of("http");
    if crate::text::starts_with(&v, &media) || crate::text::starts_with(&v, &http) {
        string_of(&v)
    } else {
        media_url(url)
    }
}

/// Normalising a cover URL twice gives what normalising it once gives.
pub proof fn law_public_cover_idempotent(url: Seq<char>)
    ensures
        public_cover(public_cover(url)) == public_cover(url),
{
    reveal_strlit("/api/media/");
    if !(is_prefix("/api/media/"@, url) || is_prefix("http"@, url)) {
        let u = "/api/media/"@ + url;
        assert(u.subrange(0, 11) =~= "/api/media/"@);
    }
}

} // verus!
