//! On-demand lyrics: which provider is asked, with which request, and how
//! its reply becomes the answer.
use vstd::prelude::*;
use vstd::utf8::encode_utf8;

use crate::lastfm::{percent_encoded, url_encode};
use crate::netguard::opt_view;
use crate::text::{chars_of, push_str, str_eq, string_of};

verus! {

/// Lyrics of a track, and where they came from.
#[derive(Debug, Clone)]
pub struct LyricsResponse {
    pub lyrics: Option<String>,
    pub source: Option<String>,
}

impl LyricsResponse {
    /// No lyrics and no source (no provider configured).
    pub fn none() -> (r: Self)
        ensures
            r.lyrics is None && r.source is None,
    {
        LyricsResponse { lyrics: None, source: None }
    }
}

/// The value of a lyrics setting: its first stored value, when not empty.
pub open spec fn setting_value(settings: Seq<(String, String)>, key: Seq<char>) -> Option<Seq<char>>
    decreases settings.len(),
{
    if settings.len() == 0 {
        None
    } else if settings[0].0@ == key {
        if settings[0].1@.len() > 0 {
            Some(settings[0].1@)
        } else {
            None
        }
    } else {
        setting_value(settings.drop_first(), key)
    }
}

/// Reads a lyrics setting (see `setting_value`).
pub fn get_setting(settings: &Vec<(String, String)>, key: &str) -> (r: Option<String>)
    ensures
        opt_view(r) == setting_value(settings@, key@),
{
    let mut i: usize = 0;
    proof {
        assert(settings@.skip(0) =~= settings@);
    }
    while i < settings.len()
        invariant
            i <= settings@.len(),
            setting_value(settings@, key@) == setting_value(settings@.skip(i as int), key@),
        decreases settings.len() - i,
    {
        proof {
            assert(settings@.skip(i as int).drop_first() =~= settings@.skip(i + 1));
            assert(settings@.skip(i as int)[0] == settings@[i as int]);
        }
        if str_eq(settings[i].0.as_str(), key) {
            if settings[i].1.as_str().is_empty() {
                return None;
            }
            return Some(string_of(&chars_of(settings[i].1.as_str())));
        }
        i = i + 1;
    }
    None
}

/// Which lyrics provider to ask.
#[derive(Debug, Clone)]
pub enum LyricsSource {
    /// No provider: the answer has no lyrics and no source.
    Off,
    Musixmatch { api_key: String },
    LyricsCom { api_key: String },
}

/// The provider chosen by the settings `lyrics_provider`,
/// `lyrics_musixmatch_key` and `lyrics_lyricscom_key`; a chosen provider
/// without its key is an error.
pub open spec fn source_outcome(settings: Seq<(String, String)>, r: Result<LyricsSource, &'static str>) -> bool {
    let provider = setting_value(settings, "lyrics_provider"@);
    match provider {
        Some(p) => if p == "musixmatch"@ {
            match setting_value(settings, "lyrics_musixmatch_key"@) {
                Some(k) => r matches Ok(LyricsSource::Musixmatch { api_key }) && api_key@ == k,
                None => r matches Err(m) && m@ == "Musixmatch API key not configured"@,
            }
        } else if p == "lyricscom"@ {
            match setting_value(settings, "lyrics_lyricscom_key"@) {
                Some(k) => r matches Ok(LyricsSource::LyricsCom { api_key }) && api_key@ == k,
                None => r matches Err(m) && m@ == "Lyrics.com API key not configured"@,
            }
        } else {
            r matches Ok(LyricsSource::Off)
        },
        None => r matches Ok(LyricsSource::Off),
    }
}

/// Chooses the lyrics provider from the instance settings.
pub fn choose_source(settings: &Vec<(String, String)>) -> (r: Result<LyricsSource, &'static str>)
    ensures
        source_outcome(settings@, r),
{
    let provider = match get_setting(settings, "lyrics_provider") {
        Some(p) => p,
        None => return Ok(LyricsSource::Off),
    };
    if str_eq(provider.as_str(), "musixmatch") {
        match get_setting(settings, "lyrics_musixmatch_key") {
            Some(k) => Ok(LyricsSource::Musixmatch { api_key: k }),
            None => Err("Musixmatch API key not configured"),
        }
    } else if str_eq(provider.as_str(), "lyricscom") {
        match get_setting(settings, "lyrics_lyricscom_key") {
            Some(k) => Ok(LyricsSource::LyricsCom { api_key: k }),
            None => Err("Lyrics.com API key not configured"),
        }
    } else {
        Ok(LyricsSource::Off)
    }
}

/// The Musixmatch request for a track.
pub open spec fn musixmatch_url_of(api_key: Seq<char>, title: Seq<char>, artist: Seq<char>) -> Seq<char> {
    "https://api.musixmatch.com/ws/1.1/matcher.lyrics.get?q_track="@ + percent_encoded(
        encode_utf8(title),
    ) + "&q_artist="@ + percent_encoded(encode_utf8(artist)) + "&apikey="@ + percent_encoded(
        encode_utf8(api_key),
    )
}

/// The Lyrics.com request for a track.
pub open spec fn lyricscom_url_of(api_key: Seq<char>, title: Seq<char>, artist: Seq<char>) -> Seq<char> {
    "https://www.stands4.com/services/v2/lyrics.php?uid=1&tokenid="@ + percent_encoded(
        encode_utf8(api_key),
    ) + "&term="@ + percent_encoded(encode_utf8(title)) + "&artist="@ + percent_encoded(
        encode_utf8(artist),
    ) + "&format=json"@
}

/// Builds the Musixmatch request URL.
pub fn musixmatch_url(api_key: &str, title: &str, artist: &str) -> (u: String)
    ensures
        u@ == musixmatch_url_of(api_key@, title@, artist@),
{
    let mut v: Vec<char> = Vec::new();
    push_str(&mut v, "https://api.musixmatch.com/ws/1.1/matcher.lyrics.get?q_track=");
    push_str(&mut v, url_encode(title).as_str());
    push_str(&mut v, "&q_artist=");
    push_str(&mut v, url_encode(artist).as_str());
    push_str(&mut v, "&apikey=");
    push_str(&mut v, url_encode(api_key).as_str());
    string_of(&v)
}

/// Builds the Lyrics.com request URL.
pub fn lyricscom_url(api_key: &str, title: &str, artist: &str) -> (u: String)
    ensures
        u@ == lyricscom_url_of(api_key@, title@, artist@),
{
    let mut v: Vec<char> = Vec::new();
    push_str(&mut v, "https://www.stands4.com/services/v2/lyrics.php?uid=1&tokenid=");
    push_str(&mut v, url_encode(api_key).as_str());
    push_str(&mut v, "&term=");
    push_str(&mut v, url_encode(title).as_str());
    push_str(&mut v, "&artist=");
    push_str(&mut v, url_encode(artist).as_str());
    push_str(&mut v, "&format=json");
    string_of(&v)
}

fn non_empty(s: Option<String>) -> (r: Option<String>)
    ensures
        opt_view(r) == match opt_view(s) {
            Some(x) => if x.len() > 0 {
                Some(x)
            } else {
                None
            },
            None => None,
        },
{
    match s {
        Some(x) => if x.as_str().is_empty() {
            None
        } else {
            Some(x)
        },
        None => None,
    }
}

/// The answer from a Musixmatch reply: its lyrics when the reply's status
/// is 200 and they are not empty.
pub fn musixmatch_answer(status_code: u32, lyrics_body: Option<String>) -> (r: LyricsResponse)
    ensures
        opt_view(r.source) == Some("musixmatch"@),
        opt_view(r.lyrics) == if status_code != 200 {
            None
        } else {
            match opt_view(lyrics_body) {
                Some(x) => if x.len() > 0 {
                    Some(x)
                } else {
                    None
                },
                None => None,
            }
        },
{
    let source = Some(string_of(&chars_of("musixmatch")));
    if status_code != 200 {
        return LyricsResponse { lyrics: None, source };
    }
    LyricsResponse { lyrics: non_empty(lyrics_body), source }
}

/// The answer from a Lyrics.com reply: nothing when it reports an error,
/// else its lyrics when not empty.
pub fn lyricscom_answer(has_error: bool, lyric: Option<String>) -> (r: LyricsResponse)
    ensures
        opt_view(r.source) == Some("lyricscom"@),
        opt_view(r.lyrics) == if has_error {
            None
        } else {
            match opt_view(lyric) {
                Some(x) => if x.len() > 0 {
                    Some(x)
                } else {
                    None
                },
                None => None,
            }
        },
{
    let source = Some(string_of(&chars_of("lyricscom")));
    if has_error {
        return LyricsResponse { lyrics: None, source };
    }
    LyricsResponse { lyrics: non_empty(lyric), source }
}

} // verus!
