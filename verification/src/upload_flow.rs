//! Uploading a track, as a sequence of steps.  The flow decides; whoever
//! drives it does the outside work (storage, the audio library, the
//! database) and reports each outcome.
//!
//! The file must have a supported extension and look like audio; it is
//! stored, made local, converted from AIFF to FLAC when needed, and its tags
//! are read.  The track is filed under its artist, its album artist (the
//! artist again when the names agree) and its album, each found or created;
//! a new album takes the file's cover art when it has one.  Then the track
//! is recorded.
use vstd::prelude::*;

use crate::media::{
    album_artist_name, album_title, artist_name, flac_path, flac_path_of, is_audio_magic,
    media_url, track_title, upload_ext, upload_extension, upload_names,
    validate_audio_magic_bytes, AudioTags, UploadForm, UploadNames, batch_too_large, MAX_BATCH_FILES,
};
use crate::text::{push_str, str_eq, string_of};

verus! {

/// A single upload (with its form fields) or one file of a batch.
#[derive(Debug, Clone, Copy, PartialEq, Eq, Structural)]
pub enum UploadMode {
    Single,
    Batch,
}

/// Why an upload failed: the HTTP status and the message.
#[derive(Debug, Clone)]
pub struct UploadFailure {
    pub status: u16,
    pub message: String,
}

/// The outside work an upload waits for.
#[derive(Debug, Clone, Copy, PartialEq, Eq, Structural)]
pub enum UploadStage {
    Start,
    Store,
    Localize,
    Convert,
    Tags,
    FindArtist,
    CreateArtist,
    FindAlbumArtist,
    CreateAlbumArtist,
    FindAlbum,
    CreateAlbum,
    StoreCover,
    SetCover,
    InsertTrack,
    Finished,
}

/// The outcome of a step of outside work.
#[derive(Debug)]
pub enum UploadEvent {
    /// The audio library's verdict on the extension: supported, and in
    /// need of conversion to FLAC.
    Begin { supported: bool, needs_conversion: bool },
    /// A path: where the file was stored, made local or converted, or where
    /// the cover was stored; on failure, the error's text.
    Path(Result<String, String>),
    /// The file's tags, and whether it has cover art.
    Tags(Result<(AudioTags, bool), String>),
    /// The ID of the artist or album found by name, if any.
    Found(Result<Option<u128>, String>),
    /// The ID of the artist or album created.
    Created(Result<u128, String>),
    /// A step that yields nothing finished.
    Done(Result<(), String>),
}

/// The track to record.
#[derive(Debug)]
pub struct NewTrack {
    pub title: String,
    pub album_id: u128,
    pub artist_id: u128,
    pub file_path: String,
    pub uploaded_by: u128,
}

/// The recorded track, with the names it was filed under.
#[derive(Debug)]
pub struct UploadedTrack {
    pub names: UploadNames,
    pub message: String,
}

/// The outside work to do next.
#[derive(Debug)]
pub enum UploadAction {
    /// Store the file's bytes for the uploader, under this album for a
    /// single upload.
    StoreFile(Option<String>),
    /// Make the stored file (this relative path) available locally.
    EnsureLocal(String),
    /// Convert this local AIFF file to FLAC.
    ConvertToFlac(String),
    /// Read the tags of this local file.
    ReadTags(String),
    /// Look up an artist by name.
    FindArtist(String),
    /// Create an artist with this name.
    CreateArtist(String),
    /// Look up an album by title and artist.
    FindAlbum(String, u128),
    /// Create an album with this title and artist (with the file's genre and
    /// year).
    CreateAlbum(String, u128),
    /// Store the file's cover art for this album title.
    StoreCover(String),
    /// Set an album's cover URL (errors are ignored).
    SetCover(u128, String),
    /// Record the track (with the file's numbers: duration, size, ...).
    InsertTrack(NewTrack),
    /// The upload failed.
    Fail(UploadFailure),
    /// The track was recorded.
    Finish(UploadedTrack),
}

/// An upload in progress.
#[derive(Debug)]
pub struct UploadFlow {
    pub mode: UploadMode,
    pub uploader: u128,
    pub filename: String,
    pub ext: String,
    pub looks_like_audio: bool,
    pub form: UploadForm,
    pub needs_conversion: bool,
    pub stage: UploadStage,
    pub stored_path: String,
    pub local_path: String,
    pub names: Option<UploadNames>,
    pub has_cover: bool,
    pub artist_id: u128,
    pub album_artist_id: u128,
    pub album_id: u128,
}

// ─── Specification ─────────────────────────────────────────────────────

/// The flow ends with a failure of this status and text.
pub open spec fn fails_with(g: UploadFlow, a: UploadAction, status: u16, text: Seq<char>) -> bool {
    &&& g.stage == UploadStage::Finished
    &&& a matches UploadAction::Fail(f)
    &&& f.status == status
    &&& f.message@ == text
}

/// The text of a failed outside step: the single upload's fixed message,
/// or, for a batch, `batch` followed by the error.
pub open spec fn step_error(mode: UploadMode, single: Seq<char>, batch: Seq<char>, e: Seq<char>) -> Seq<char> {
    if mode == UploadMode::Single {
        single
    } else {
        batch + e
    }
}

/// The text of a failed database step.
pub open spec fn db_error(mode: UploadMode, e: Seq<char>) -> Seq<char> {
    if mode == UploadMode::Single {
        "DB error: "@ + e
    } else {
        "DB: "@ + e
    }
}

/// The flow moves to `stage`, keeping its other data.
pub open spec fn moves_to(f: UploadFlow, g: UploadFlow, stage: UploadStage) -> bool {
    g == UploadFlow { stage, ..f }
}

/// The names the upload is filed under, once its tags were read.
pub open spec fn names_of(f: UploadFlow) -> UploadNames {
    f.names->0
}

/// The album step after the album artist is known to be `id`.
pub open spec fn seeks_album(f: UploadFlow, g: UploadFlow, a: UploadAction, id: u128) -> bool {
    &&& g == UploadFlow { stage: UploadStage::FindAlbum, album_artist_id: id, ..f }
    &&& a matches UploadAction::FindAlbum(t, x) && t@ == names_of(f).album@ && x == id
}

/// The artist step after the artist is known to be `id`: the album artist
/// is the artist when the names agree, else it is looked up.
pub open spec fn after_artist(f: UploadFlow, g: UploadFlow, a: UploadAction, id: u128) -> bool {
    let n = names_of(f);
    if n.album_artist@ == n.artist@ {
        seeks_album(UploadFlow { artist_id: id, ..f }, g, a, id)
    } else {
        &&& g == UploadFlow { stage: UploadStage::FindAlbumArtist, artist_id: id, ..f }
        &&& a matches UploadAction::FindArtist(x) && x@ == n.album_artist@
    }
}

/// The step that records the track once the album is known to be `id`.
pub open spec fn records(f: UploadFlow, g: UploadFlow, a: UploadAction, id: u128) -> bool {
    &&& g.stage == UploadStage::InsertTrack
    &&& g.album_id == id
    &&& g.names == f.names
    &&& g.mode == f.mode
    &&& a matches UploadAction::InsertTrack(t)
    &&& t.title@ == names_of(f).title@
    &&& t.album_id == id
    &&& t.artist_id == f.artist_id
    &&& t.file_path == f.stored_path
    &&& t.uploaded_by == f.uploader
}

/// What the flow holds at each stage: past the start, a file that looks
/// like audio; the names once the tags were read.
pub open spec fn holds(f: UploadFlow) -> bool {
    &&& (f.stage != UploadStage::Start && f.stage != UploadStage::Finished) ==> f.looks_like_audio
    &&& (f.stage == UploadStage::FindArtist || f.stage == UploadStage::CreateArtist || f.stage
        == UploadStage::FindAlbumArtist || f.stage == UploadStage::CreateAlbumArtist || f.stage
        == UploadStage::FindAlbum || f.stage == UploadStage::CreateAlbum || f.stage
        == UploadStage::StoreCover || f.stage == UploadStage::SetCover || f.stage
        == UploadStage::InsertTrack) ==> f.names is Some
}

/// Whether `ev` is the outcome of the work the flow waits for.
pub open spec fn expects(f: UploadFlow, ev: UploadEvent) -> bool {
    match f.stage {
        UploadStage::Start => ev is Begin,
        UploadStage::Store | UploadStage::Localize | UploadStage::Convert | UploadStage::StoreCover => ev is Path,
        UploadStage::Tags => ev is Tags,
        UploadStage::FindArtist | UploadStage::FindAlbumArtist | UploadStage::FindAlbum => ev is Found,
        UploadStage::CreateArtist | UploadStage::CreateAlbumArtist | UploadStage::CreateAlbum => ev is Created,
        UploadStage::SetCover | UploadStage::InsertTrack => ev is Done,
        UploadStage::Finished => false,
    }
}

/// One step of an upload: from `f`, on the outcome `ev`, to `g` with the
/// next work `a`.
pub open spec fn stepped(f: UploadFlow, ev: UploadEvent, g: UploadFlow, a: UploadAction) -> bool {
    let single = f.mode == UploadMode::Single;
    match f.stage {
        UploadStage::Start => match ev {
            UploadEvent::Begin { supported, needs_conversion } => if !supported {
                fails_with(g, a, 400, "Unsupported format: "@ + f.ext@)
            } else if !f.looks_like_audio {
                fails_with(g, a, 400, "File content does not match a recognized audio format"@)
            } else {
                &&& g == UploadFlow { stage: UploadStage::Store, needs_conversion, ..f }
                &&& a matches UploadAction::StoreFile(album)
                &&& album == (if single { f.form.album } else { None })
            },
            _ => false,
        },
        UploadStage::Store => match ev {
            UploadEvent::Path(Err(e)) => fails_with(g, a, 500, step_error(f.mode, "Failed to store file"@, "Storage error: "@, e@)),
            UploadEvent::Path(Ok(p)) => g == UploadFlow { stage: UploadStage::Localize, stored_path: p, ..f }
                && (a matches UploadAction::EnsureLocal(x) && x == p),
            _ => false,
        },
        UploadStage::Localize => match ev {
            UploadEvent::Path(Err(e)) => fails_with(g, a, 500, step_error(f.mode, "Failed to access file locally"@, "Local file: "@, e@)),
            UploadEvent::Path(Ok(p)) => if f.needs_conversion {
                g == UploadFlow { stage: UploadStage::Convert, local_path: p, ..f } && (a matches UploadAction::ConvertToFlac(x) && x == p)
            } else {
                g == UploadFlow { stage: UploadStage::Tags, local_path: p, ..f } && (a matches UploadAction::ReadTags(x) && x == p)
            },
            _ => false,
        },
        UploadStage::Convert => match ev {
            UploadEvent::Path(Err(e)) => fails_with(g, a, 500, if single {
                "AIFF conversion failed: "@ + e@
            } else {
                "AIFF→FLAC conversion: "@ + e@
            }),
            UploadEvent::Path(Ok(p)) => {
                &&& g.stage == UploadStage::Tags
                &&& g.local_path == p
                &&& g.stored_path@ == flac_path_of(f.stored_path@)
                &&& g.mode == f.mode && g.uploader == f.uploader && g.filename == f.filename && g.form == f.form
                &&& a matches UploadAction::ReadTags(x) && x == p
            },
            _ => false,
        },
        UploadStage::Tags => match ev {
            UploadEvent::Tags(Err(e)) => fails_with(g, a, 500, step_error(f.mode, "Failed to extract metadata"@, "Metadata: "@, e@)),
            UploadEvent::Tags(Ok((tags, cover))) => {
                let form = if single { f.form } else { UploadForm { title: None, album: None, artist: None } };
                &&& g.stage == UploadStage::FindArtist
                &&& g.names matches Some(n)
                &&& n.artist@ == artist_name(form, tags)
                &&& n.album_artist@ == album_artist_name(form, tags)
                &&& n.album@ == album_title(form, tags)
                &&& n.title@ == track_title(form, tags, f.filename@)
                &&& g.has_cover == cover
                &&& g.mode == f.mode && g.uploader == f.uploader && g.stored_path == f.stored_path && g.form == f.form
                &&& a matches UploadAction::FindArtist(x) && x@ == n.artist@
            },
            _ => false,
        },
        UploadStage::FindArtist => match ev {
            UploadEvent::Found(Err(e)) => fails_with(g, a, 500, db_error(f.mode, e@)),
            UploadEvent::Found(Ok(Some(id))) => after_artist(f, g, a, id),
            UploadEvent::Found(Ok(None)) => moves_to(f, g, UploadStage::CreateArtist)
                && (a matches UploadAction::CreateArtist(x) && x@ == names_of(f).artist@),
            _ => false,
        },
        UploadStage::CreateArtist => match ev {
            UploadEvent::Created(Err(e)) => fails_with(g, a, 500, db_error(f.mode, e@)),
            UploadEvent::Created(Ok(id)) => after_artist(f, g, a, id),
            _ => false,
        },
        UploadStage::FindAlbumArtist => match ev {
            UploadEvent::Found(Err(e)) => fails_with(g, a, 500, db_error(f.mode, e@)),
            UploadEvent::Found(Ok(Some(id))) => seeks_album(f, g, a, id),
            UploadEvent::Found(Ok(None)) => moves_to(f, g, UploadStage::CreateAlbumArtist)
                && (a matches UploadAction::CreateArtist(x) && x@ == names_of(f).album_artist@),
            _ => false,
        },
        UploadStage::CreateAlbumArtist => match ev {
            UploadEvent::Created(Err(e)) => fails_with(g, a, 500, db_error(f.mode, e@)),
            UploadEvent::Created(Ok(id)) => seeks_album(f, g, a, id),
            _ => false,
        },
        UploadStage::FindAlbum => match ev {
            UploadEvent::Found(Err(e)) => fails_with(g, a, 500, db_error(f.mode, e@)),
            UploadEvent::Found(Ok(Some(id))) => records(f, g, a, id),
            UploadEvent::Found(Ok(None)) => moves_to(f, g, UploadStage::CreateAlbum)
                && (a matches UploadAction::CreateAlbum(x, y) && x@ == names_of(f).album@ && y == f.album_artist_id),
            _ => false,
        },
        UploadStage::CreateAlbum => match ev {
            UploadEvent::Created(Err(e)) => fails_with(g, a, 500, db_error(f.mode, e@)),
            UploadEvent::Created(Ok(id)) => if f.has_cover {
                g == UploadFlow { stage: UploadStage::StoreCover, album_id: id, ..f }
                    && (a matches UploadAction::StoreCover(x) && x@ == names_of(f).album@)
            } else {
                records(f, g, a, id)
            },
            _ => false,
        },
        UploadStage::StoreCover => match ev {
            UploadEvent::Path(Ok(p)) => moves_to(f, g, UploadStage::SetCover)
                && (a matches UploadAction::SetCover(id, u) && id == f.album_id && u@ == "/api/media/"@ + p@),
            _ => records(f, g, a, f.album_id),
        },
        UploadStage::SetCover => records(f, g, a, f.album_id),
        UploadStage::InsertTrack => match ev {
            UploadEvent::Done(Err(e)) => fails_with(g, a, 500, db_error(f.mode, e@)),
            _ => {
                &&& g.stage == UploadStage::Finished
                &&& a matches UploadAction::Finish(t)
                &&& t.names == names_of(f)
                &&& t.message@ == "Track uploaded successfully"@
            },
        },
        UploadStage::Finished => false,
    }
}

// ─── Running an upload ─────────────────────────────────────────────────

fn failure(status: u16, text: &str) -> (f: UploadFailure)
    ensures
        f.status == status,
        f.message@ == text@,
{
    let mut v: Vec<char> = Vec::new();
    push_str(&mut v, text);
    UploadFailure { status, message: string_of(&v) }
}

fn failure_with(status: u16, prefix: &str, detail: &str) -> (f: UploadFailure)
    ensures
        f.status == status,
        f.message@ == prefix@ + detail@,
{
    let mut v: Vec<char> = Vec::new();
    push_str(&mut v, prefix);
    push_str(&mut v, detail);
    UploadFailure { status, message: string_of(&v) }
}

fn step_failure(mode: UploadMode, single: &str, batch: &str, e: &str) -> (f: UploadFailure)
    ensures
        f.status == 500,
        f.message@ == step_error(mode, single@, batch@, e@),
{
    match mode {
        UploadMode::Single => failure(500, single),
        UploadMode::Batch => failure_with(500, batch, e),
    }
}

fn db_failure(mode: UploadMode, e: &str) -> (f: UploadFailure)
    ensures
        f.status == 500,
        f.message@ == db_error(mode, e@),
{
    match mode {
        UploadMode::Single => failure_with(500, "DB error: ", e),
        UploadMode::Batch => failure_with(500, "DB: ", e),
    }
}

fn copy_text(s: &String) -> (r: String)
    ensures
        r@ == s@,
{
    string_of(&crate::text::chars_of(s.as_str()))
}

impl UploadFlow {
    /// An upload of `data` as `filename` by `uploader`; a single upload
    /// carries its form fields, a batch file an empty form.
    pub fn new(mode: UploadMode, uploader: u128, filename: String, form: UploadForm, data: &[u8]) -> (f: UploadFlow)
        ensures
            f.stage == UploadStage::Start,
            f.mode == mode,
            f.uploader == uploader,
            f.filename == filename,
            f.ext@ == upload_ext(filename@),
            f.looks_like_audio == is_audio_magic(data@),
            f.form == form,
            f.names is None,
            holds(f),
    {
        let ext = upload_extension(filename.as_str());
        let looks_like_audio = validate_audio_magic_bytes(data);
        UploadFlow {
            mode,
            uploader,
            filename,
            ext,
            looks_like_audio,
            form,
            needs_conversion: false,
            stage: UploadStage::Start,
            stored_path: String::new(),
            local_path: String::new(),
            names: None,
            has_cover: false,
            artist_id: 0,
            album_artist_id: 0,
            album_id: 0,
        }
    }

    /// Starts a single upload from the form's file part, if it has one:
    /// without a file the upload is refused with 400 "No file provided"
    /// before any step (nothing is stored); with one, the flow starts as
    /// `new` starts it, and the file's bytes come back for the store step.
    pub fn start_single(uploader: u128, file: Option<(String, Vec<u8>)>, form: UploadForm) -> (r: Result<
        (UploadFlow, Vec<u8>),
        UploadFailure,
    >)
        ensures
            file is None ==> (r matches Err(e) && e.status == 400 && e.message@ == "No file provided"@),
            file matches Some((name, data)) ==> (r matches Ok((f, d)) && d@ == data@ && f.stage
                == UploadStage::Start && f.mode == UploadMode::Single && f.uploader == uploader
                && f.filename == name && f.ext@ == upload_ext(name@) && f.looks_like_audio
                == is_audio_magic(data@) && f.form == form && f.names is None && holds(f)),
    {
        match file {
            None => Err(failure(400, "No file provided")),
            Some((name, data)) => {
                let f = UploadFlow::new(UploadMode::Single, uploader, name, form, data.as_slice());
                Ok((f, data))
            },
        }
    }

    fn fail(self, f: UploadFailure) -> (r: (UploadFlow, UploadAction))
        ensures
            r.0.stage == UploadStage::Finished,
            r.1 == UploadAction::Fail(f),
            holds(r.0),
    {
        let mut g = self;
        g.stage = UploadStage::Finished;
        (g, UploadAction::Fail(f))
    }

    fn goto(self, stage: UploadStage, a: UploadAction) -> (r: (UploadFlow, UploadAction))
        ensures
            moves_to(self, r.0, stage),
            r.1 == a,
    {
        let mut g = self;
        g.stage = stage;
        (g, a)
    }

    fn seek_album(self, id: u128) -> (r: (UploadFlow, UploadAction))
        requires
            self.names is Some,
            self.looks_like_audio,
        ensures
            seeks_album(self, r.0, r.1, id),
            holds(r.0),
    {
        let album = copy_text(&self.names.as_ref().unwrap().album);
        let mut g = self;
        g.stage = UploadStage::FindAlbum;
        g.album_artist_id = id;
        (g, UploadAction::FindAlbum(album, id))
    }

    fn artist_known(self, id: u128) -> (r: (UploadFlow, UploadAction))
        requires
            self.names is Some,
            self.looks_like_audio,
        ensures
            after_artist(self, r.0, r.1, id),
            holds(r.0),
    {
        let same = {
            let n = self.names.as_ref().unwrap();
            str_eq(n.album_artist.as_str(), n.artist.as_str())
        };
        let mut g = self;
        g.artist_id = id;
        if same {
            g.seek_album(id)
        } else {
            let name = copy_text(&g.names.as_ref().unwrap().album_artist);
            g.stage = UploadStage::FindAlbumArtist;
            (g, UploadAction::FindArtist(name))
        }
    }

    fn record(self, id: u128) -> (r: (UploadFlow, UploadAction))
        requires
            self.names is Some,
            self.looks_like_audio,
        ensures
            records(self, r.0, r.1, id),
            holds(r.0),
    {
        let title = copy_text(&self.names.as_ref().unwrap().title);
        let track = NewTrack {
            title,
            album_id: id,
            artist_id: self.artist_id,
            file_path: self.stored_path.clone(),
            uploaded_by: self.uploader,
        };
        let mut g = self;
        g.album_id = id;
        g.stage = UploadStage::InsertTrack;
        (g, UploadAction::InsertTrack(track))
    }

    fn on_start(self, ev: UploadEvent) -> (r: (UploadFlow, UploadAction))
        requires
            holds(self),
            expects(self, ev),
            self.stage == UploadStage::Start,
        ensures
            stepped(self, ev, r.0, r.1),
            holds(r.0),
    {
        match ev {
            UploadEvent::Begin { supported, needs_conversion } => {
                if !supported {
                    let f = failure_with(400, "Unsupported format: ", self.ext.as_str());
                    return self.fail(f);
                }
                if !self.looks_like_audio {
                    return self.fail(failure(400, "File content does not match a recognized audio format"));
                }
                let album = match self.mode {
                    UploadMode::Single => self.form.album.clone(),
                    UploadMode::Batch => None,
                };
                let mut g = self;
                g.needs_conversion = needs_conversion;
                g.stage = UploadStage::Store;
                (g, UploadAction::StoreFile(album))
            },
            _ => self.fail(failure(500, "")),
        }
    }

    fn on_store(self, ev: UploadEvent) -> (r: (UploadFlow, UploadAction))
        requires
            holds(self),
            expects(self, ev),
            self.stage == UploadStage::Store,
        ensures
            stepped(self, ev, r.0, r.1),
            holds(r.0),
    {
        match ev {
            UploadEvent::Path(Err(e)) => {
                let f = step_failure(self.mode, "Failed to store file", "Storage error: ", e.as_str());
                self.fail(f)
            },
            UploadEvent::Path(Ok(p)) => {
                let p2 = p.clone();
                let mut g = self;
                g.stored_path = p;
                g.stage = UploadStage::Localize;
                (g, UploadAction::EnsureLocal(p2))
            },
            _ => self.fail(failure(500, "")),
        }
    }

    fn on_localize(self, ev: UploadEvent) -> (r: (UploadFlow, UploadAction))
        requires
            holds(self),
            expects(self, ev),
            self.stage == UploadStage::Localize,
        ensures
            stepped(self, ev, r.0, r.1),
            holds(r.0),
    {
        match ev {
            UploadEvent::Path(Err(e)) => {
                let f = step_failure(self.mode, "Failed to access file locally", "Local file: ", e.as_str());
                self.fail(f)
            },
            UploadEvent::Path(Ok(p)) => {
                let p2 = p.clone();
                let mut g = self;
                g.local_path = p;
                if g.needs_conversion {
                    g.stage = UploadStage::Convert;
                    (g, UploadAction::ConvertToFlac(p2))
                } else {
                    g.stage = UploadStage::Tags;
                    (g, UploadAction::ReadTags(p2))
                }
            },
            _ => self.fail(failure(500, "")),
        }
    }

    fn on_convert(self, ev: UploadEvent) -> (r: (UploadFlow, UploadAction))
        requires
            holds(self),
            expects(self, ev),
            self.stage == UploadStage::Convert,
        ensures
            stepped(self, ev, r.0, r.1),
            holds(r.0),
    {
        match ev {
            UploadEvent::Path(Err(e)) => {
                let f = match self.mode {
                    UploadMode::Single => failure_with(500, "AIFF conversion failed: ", e.as_str()),
                    UploadMode::Batch => failure_with(500, "AIFF→FLAC conversion: ", e.as_str()),
                };
                self.fail(f)
            },
            UploadEvent::Path(Ok(p)) => {
                let renamed = flac_path(self.stored_path.as_str());
                let p2 = p.clone();
                let mut g = self;
                g.stored_path = renamed;
                g.local_path = p;
                g.stage = UploadStage::Tags;
                (g, UploadAction::ReadTags(p2))
            },
            _ => self.fail(failure(500, "")),
        }
    }

    fn on_tags(self, ev: UploadEvent) -> (r: (UploadFlow, UploadAction))
        requires
            holds(self),
            expects(self, ev),
            self.stage == UploadStage::Tags,
        ensures
            stepped(self, ev, r.0, r.1),
            holds(r.0),
    {
        match ev {
            UploadEvent::Tags(Err(e)) => {
                let f = step_failure(self.mode, "Failed to extract metadata", "Metadata: ", e.as_str());
                self.fail(f)
            },
            UploadEvent::Tags(Ok((tags, cover))) => {
                let names = match self.mode {
                    UploadMode::Single => upload_names(&self.form, &tags, self.filename.as_str()),
                    UploadMode::Batch => {
                        let empty = UploadForm { title: None, album: None, artist: None };
                        upload_names(&empty, &tags, self.filename.as_str())
                    },
                };
                let artist = copy_text(&names.artist);
                let mut g = self;
                g.names = Some(names);
                g.has_cover = cover;
                g.stage = UploadStage::FindArtist;
                (g, UploadAction::FindArtist(artist))
            },
            _ => self.fail(failure(500, "")),
        }
    }

    fn on_find_artist(self, ev: UploadEvent) -> (r: (UploadFlow, UploadAction))
        requires
            holds(self),
            expects(self, ev),
            self.stage == UploadStage::FindArtist,
        ensures
            stepped(self, ev, r.0, r.1),
            holds(r.0),
    {
        match ev {
            UploadEvent::Found(Err(e)) => {
                let f = db_failure(self.mode, e.as_str());
                self.fail(f)
            },
            UploadEvent::Found(Ok(Some(id))) => self.artist_known(id),
            UploadEvent::Found(Ok(None)) => {
                let name = copy_text(&self.names.as_ref().unwrap().artist);
                self.goto(UploadStage::CreateArtist, UploadAction::CreateArtist(name))
            },
            _ => self.fail(failure(500, "")),
        }
    }

    fn on_create_artist(self, ev: UploadEvent) -> (r: (UploadFlow, UploadAction))
        requires
            holds(self),
            expects(self, ev),
            self.stage == UploadStage::CreateArtist,
        ensures
            stepped(self, ev, r.0, r.1),
            holds(r.0),
    {
        match ev {
            UploadEvent::Created(Err(e)) => {
                let f = db_failure(self.mode, e.as_str());
                self.fail(f)
            },
            UploadEvent::Created(Ok(id)) => self.artist_known(id),
            _ => self.fail(failure(500, "")),
        }
    }

    fn on_find_album_artist(self, ev: UploadEvent) -> (r: (UploadFlow, UploadAction))
        requires
            holds(self),
            expects(self, ev),
            self.stage == UploadStage::FindAlbumArtist,
        ensures
            stepped(self, ev, r.0, r.1),
            holds(r.0),
    {
        match ev {
            UploadEvent::Found(Err(e)) => {
                let f = db_failure(self.mode, e.as_str());
                self.fail(f)
            },
            UploadEvent::Found(Ok(Some(id))) => self.seek_album(id),
            UploadEvent::Found(Ok(None)) => {
                let name = copy_text(&self.names.as_ref().unwrap().album_artist);
                self.goto(UploadStage::CreateAlbumArtist, UploadAction::CreateArtist(name))
            },
            _ => self.fail(failure(500, "")),
        }
    }

    fn on_create_album_artist(self, ev: UploadEvent) -> (r: (UploadFlow, UploadAction))
        requires
            holds(self),
            expects(self, ev),
            self.stage == UploadStage::CreateAlbumArtist,
        ensures
            stepped(self, ev, r.0, r.1),
            holds(r.0),
    {
        match ev {
            UploadEvent::Created(Err(e)) => {
                let f = db_failure(self.mode, e.as_str());
                self.fail(f)
            },
            UploadEvent::Created(Ok(id)) => self.seek_album(id),
            _ => self.fail(failure(500, "")),
        }
    }

    fn on_find_album(self, ev: UploadEvent) -> (r: (UploadFlow, UploadAction))
        requires
            holds(self),
            expects(self, ev),
            self.stage == UploadStage::FindAlbum,
        ensures
            stepped(self, ev, r.0, r.1),
            holds(r.0),
    {
        match ev {
            UploadEvent::Found(Err(e)) => {
                let f = db_failure(self.mode, e.as_str());
                self.fail(f)
            },
            UploadEvent::Found(Ok(Some(id))) => self.record(id),
            UploadEvent::Found(Ok(None)) => {
                let title = copy_text(&self.names.as_ref().unwrap().album);
                let artist = self.album_artist_id;
                self.goto(UploadStage::CreateAlbum, UploadAction::CreateAlbum(title, artist))
            },
            _ => self.fail(failure(500, "")),
        }
    }

    fn on_create_album(self, ev: UploadEvent) -> (r: (UploadFlow, UploadAction))
        requires
            holds(self),
            expects(self, ev),
            self.stage == UploadStage::CreateAlbum,
        ensures
            stepped(self, ev, r.0, r.1),
            holds(r.0),
    {
        match ev {
            UploadEvent::Created(Err(e)) => {
                let f = db_failure(self.mode, e.as_str());
                self.fail(f)
            },
            UploadEvent::Created(Ok(id)) => {
                if self.has_cover {
                    let title = copy_text(&self.names.as_ref().unwrap().album);
                    let mut g = self;
                    g.album_id = id;
                    g.stage = UploadStage::StoreCover;
                    (g, UploadAction::StoreCover(title))
                } else {
                    self.record(id)
                }
            },
            _ => self.fail(failure(500, "")),
        }
    }

    fn on_store_cover(self, ev: UploadEvent) -> (r: (UploadFlow, UploadAction))
        requires
            holds(self),
            expects(self, ev),
            self.stage == UploadStage::StoreCover,
        ensures
            stepped(self, ev, r.0, r.1),
            holds(r.0),
    {
        match ev {
            UploadEvent::Path(Ok(p)) => {
                let url = media_url(p.as_str());
                let id = self.album_id;
                self.goto(UploadStage::SetCover, UploadAction::SetCover(id, url))
            },
            _ => {
                let id = self.album_id;
                self.record(id)
            },
        }
    }

    fn on_set_cover(self, ev: UploadEvent) -> (r: (UploadFlow, UploadAction))
        requires
            holds(self),
            expects(self, ev),
            self.stage == UploadStage::SetCover,
        ensures
            stepped(self, ev, r.0, r.1),
            holds(r.0),
    {
        let id = self.album_id;
        self.record(id)
    }

    fn on_insert_track(self, ev: UploadEvent) -> (r: (UploadFlow, UploadAction))
        requires
            holds(self),
            expects(self, ev),
            self.stage == UploadStage::InsertTrack,
        ensures
            stepped(self, ev, r.0, r.1),
            holds(r.0),
    {
        if let UploadEvent::Done(Err(e)) = ev {
            let f = db_failure(self.mode, e.as_str());
            return self.fail(f);
        }
        let mut g = self;
        let names = g.names.take().unwrap();
        g.stage = UploadStage::Finished;
        let mut v: Vec<char> = Vec::new();
        push_str(&mut v, "Track uploaded successfully");
        (g, UploadAction::Finish(UploadedTrack { names, message: string_of(&v) }))
    }

    /// Takes the outcome of the work the upload waited for and decides the
    /// next work (see `stepped`).
    pub fn advance(self, ev: UploadEvent) -> (r: (UploadFlow, UploadAction))
        requires
            holds(self),
            expects(self, ev),
        ensures
            stepped(self, ev, r.0, r.1),
            holds(r.0),
    {
        match self.stage {
            UploadStage::Start => self.on_start(ev),
            UploadStage::Store => self.on_store(ev),
            UploadStage::Localize => self.on_localize(ev),
            UploadStage::Convert => self.on_convert(ev),
            UploadStage::Tags => self.on_tags(ev),
            UploadStage::FindArtist => self.on_find_artist(ev),
            UploadStage::CreateArtist => self.on_create_artist(ev),
            UploadStage::FindAlbumArtist => self.on_find_album_artist(ev),
            UploadStage::CreateAlbumArtist => self.on_create_album_artist(ev),
            UploadStage::FindAlbum => self.on_find_album(ev),
            UploadStage::CreateAlbum => self.on_create_album(ev),
            UploadStage::StoreCover => self.on_store_cover(ev),
            UploadStage::SetCover => self.on_set_cover(ev),
            UploadStage::InsertTrack => self.on_insert_track(ev),
            UploadStage::Finished => self.goto(UploadStage::Finished, UploadAction::Fail(failure(500, ""))),
        }
    }
}

// ─── Laws ──────────────────────────────────────────────────────────────

/// A track is recorded only from a file that looks like audio, under the
/// artist and album the flow settled on; when the album artist's name is
/// the artist's, the album is sought under the artist itself.
pub proof fn law_records_only_audio(f: UploadFlow, ev: UploadEvent, g: UploadFlow, a: UploadAction)
    requires
        holds(f),
        expects(f, ev),
        stepped(f, ev, g, a),
    ensures
        a is InsertTrack ==> f.looks_like_audio,
        a matches UploadAction::FindAlbum(_, id) ==> (f.stage != UploadStage::FindAlbumArtist && f.stage
            != UploadStage::CreateAlbumArtist ==> names_of(f).album_artist@ == names_of(f).artist@ && id
            == g.artist_id),
{
}

// ─── Batch uploads ─────────────────────────────────────────────────────

/// Why a batch upload is refused before any file is stored: no file part
/// (400 "No files provided"), or more than 50 (400 "Too many files.
/// Maximum is 50").
pub fn batch_refusal(files: usize) -> (r: Option<UploadFailure>)
    ensures
        r is None <==> (1 <= files && files <= MAX_BATCH_FILES),
        files == 0 ==> (r matches Some(e) && e.status == 400 && e.message@ == "No files provided"@),
        files > MAX_BATCH_FILES ==> (r matches Some(e) && e.status == 400 && e.message@
            == "Too many files. Maximum is 50"@),
{
    if files == 0 {
        Some(failure(400, "No files provided"))
    } else if batch_too_large(files) {
        Some(failure(400, "Too many files. Maximum is 50"))
    } else {
        None
    }
}

/// What came of one file of a batch: its name, and the recorded track or
/// the error's text.
#[derive(Debug)]
pub struct BatchItem {
    pub filename: String,
    pub result: Result<UploadedTrack, String>,
}

/// The answer to a batch upload: how many files, how many were stored and
/// how many failed, and each file's outcome in the order sent.
#[derive(Debug)]
pub struct BatchResult {
    pub total: usize,
    pub success: usize,
    pub failed: usize,
    pub results: Vec<BatchItem>,
}

/// Number of stored files among batch outcomes.
pub open spec fn stored_count(items: Seq<BatchItem>) -> nat
    decreases items.len(),
{
    if items.len() == 0 {
        0
    } else {
        stored_count(items.drop_last()) + if items.last().result is Ok {
            1nat
        } else {
            0nat
        }
    }
}

proof fn lemma_stored_count_le(items: Seq<BatchItem>)
    ensures
        stored_count(items) <= items.len(),
    decreases items.len(),
{
    if items.len() > 0 {
        lemma_stored_count_le(items.drop_last());
    }
}

/// Gathers the outcomes of a batch, in the order the files were sent.
pub fn batch_result(items: Vec<BatchItem>) -> (r: BatchResult)
    ensures
        r.results@ == items@,
        r.total == items@.len(),
        r.success == stored_count(items@),
        r.failed == r.total - r.success,
{
    let mut success: usize = 0;
    let mut i: usize = 0;
    while i < items.len()
        invariant
            i <= items@.len(),
            success == stored_count(items@.take(i as int)),
            success <= i,
        decreases items.len() - i,
    {
        proof {
            assert(items@.take(i + 1).drop_last() =~= items@.take(i as int));
        }
        if items[i].result.is_ok() {
            success = success + 1;
        }
        i = i + 1;
    }
    proof {
        assert(items@.take(items@.len() as int) =~= items@);
    }
    let total = items.len();
    BatchResult { total, success, failed: total - success, results: items }
}

} // verus!
