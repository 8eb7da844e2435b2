//! A run that generates the editorial playlists, as a state machine: the
//! library decides each step (settings, tracks, the request to the
//! service, its answer, replacing the old playlists, recording the new
//! ones); the caller reads the settings and the database, sends the
//! request, reads JSON and reports each outcome.
//!
//! An administrator's request and the weekly schedule run the same steps;
//! they differ in the wording of two refusals, in the status the request is
//! answered with, and in the naming the service is asked for (French names
//! on request).
use vstd::prelude::*;

use crate::editorial::{
    ai_base_url, ai_model, bearer, chat_completions_url, clean_ai_content, clean_content,
    generate_result, plan_playlists, planned, plans_as, playlist_count_for, playlist_shape,
    prompt_text, system_prompt, tracks_per_playlist_for, user_prompt, AiPlaylist, AlbumCover,
    EditorialTrack, GenerateResult, PlannedPlaylist, DEFAULT_AI_BASE_URL, DEFAULT_AI_MODEL,
    MIN_EDITORIAL_TRACKS,
};
use crate::text::{chars_of, dec, push_str, string_of};

verus! {

/// Who started a run.
#[derive(Debug, Clone, Copy, PartialEq, Eq, Structural)]
pub enum EditorialMode {
    /// An administrator's request, answered over HTTP.
    Manual,
    /// The weekly schedule; failures are only logged.
    Scheduled,
}

/// The outside work a run waits for.
#[derive(Debug, Clone, Copy, PartialEq, Eq, Structural)]
pub enum EditorialStage {
    Settings,
    Tracks,
    Ask,
    Parse,
    DeleteOld,
    Admin,
    Create,
    Stamp,
    Finished,
}

/// Why a run failed: the status the administrator's request is answered
/// with, and the message (all a scheduled run logs).
#[derive(Debug, Clone)]
pub struct EditorialFailure {
    pub status: u16,
    pub message: String,
}

/// What came back from the service.
#[derive(Debug, Clone)]
pub enum AiReply {
    /// The request could not be sent.
    SendFailed,
    /// An unsuccessful status, as the HTTP client shows it.
    Status(String),
    /// A body that is not JSON, with the reader's error.
    BadBody(String),
    /// The body's `choices[0].message.content`, when it is a string.
    Content(Option<String>),
}

/// The outcome of the work a run waited for.
pub enum EditorialEvent {
    /// The settings `ai_api_key`, `ai_base_url` and `ai_model`.
    Settings { api_key: Option<String>, base_url: Option<String>, model: Option<String> },
    /// The tracks (ordered by title) and albums of the instance, and the
    /// JSON list of the tracks shown to the service; on failure, the
    /// database's error.
    Tracks(Result<(Vec<EditorialTrack>, Vec<AlbumCover>, String), String>),
    /// The service's answer.
    Reply(AiReply),
    /// The proposals read from the answer's JSON, or the reader's error.
    Parsed(Result<Vec<AiPlaylist>, String>),
    /// The ID of an administrator, if any; on failure, the database's error.
    Admin(Result<Option<u128>, String>),
    /// Whether the playlist asked for was inserted.
    Inserted(bool),
    /// A step that yields nothing finished (its errors are ignored).
    Done,
}

/// The outside work to do next.
pub enum EditorialAction {
    /// Read the settings.
    ReadSettings,
    /// Read the tracks and albums.
    LoadTracks,
    /// Post a chat completion request (temperature 0.8, at most 4000
    /// tokens) to `url` with this `Authorization` header.
    CallAi { url: String, authorization: String, model: String, system_prompt: String, user_prompt: String },
    /// Read this text as a JSON list of proposals.
    ParseJson(String),
    /// Delete the editorial playlists (their tracks first).
    DeleteOldEditorials,
    /// Look up an administrator.
    FindAdmin,
    /// Insert playlist `index` of the run's plan, public and editorial,
    /// owned by `admin`, with its tracks at positions 0, 1, ...
    CreatePlaylist { index: usize, admin: u128 },
    /// Record the time of this generation (`editorial_last_generated`).
    StampGenerated,
    /// The run failed.
    Fail(EditorialFailure),
    /// The run ended.
    Finish(GenerateResult),
}

/// A run in progress.
pub struct EditorialFlow {
    pub mode: EditorialMode,
    pub stage: EditorialStage,
    pub api_key: String,
    pub base_url: String,
    pub model: String,
    pub tracks: Vec<EditorialTrack>,
    pub albums: Vec<AlbumCover>,
    pub planned: Vec<PlannedPlaylist>,
    pub admin: u128,
    pub next: usize,
    pub created: usize,
}

// ─── Specification ─────────────────────────────────────────────────────

/// The run ends with a failure of this status and text.
pub open spec fn fails_with(g: EditorialFlow, a: EditorialAction, status: u16, text: Seq<char>) -> bool {
    &&& g.stage == EditorialStage::Finished
    &&& a matches EditorialAction::Fail(x)
    &&& x.status == status
    &&& x.message@ == text
}

/// The refusal when no API key is set.
pub open spec fn key_missing_text(mode: EditorialMode) -> Seq<char> {
    if mode == EditorialMode::Manual {
        "AI API key not configured. Set 'ai_api_key' in settings."@
    } else {
        "AI API key not configured"@
    }
}

/// The refusal when the instance has fewer than five tracks.
pub open spec fn too_few_text(mode: EditorialMode) -> Seq<char> {
    if mode == EditorialMode::Manual {
        "Not enough tracks to generate playlists (minimum 5)"@
    } else {
        "Not enough tracks"@
    }
}

/// The view of an optional string.
pub open spec fn opt_text(o: Option<String>) -> Option<Seq<char>> {
    match o {
        Some(s) => Some(s@),
        None => None,
    }
}

/// `o`'s text, or `default`.
pub open spec fn text_or(o: Option<String>, default: Seq<char>) -> Seq<char> {
    match o {
        Some(s) => s@,
        None => default,
    }
}

/// The plan of a run holds what `planned` gives for the proposals.
pub open spec fn plans(g: EditorialFlow, ai: Seq<AiPlaylist>, tracks: Seq<EditorialTrack>, albums: Seq<AlbumCover>) -> bool {
    &&& g.planned@.len() == planned(ai, tracks, albums).len()
    &&& forall|i: int| 0 <= i < g.planned@.len() ==> plans_as(#[trigger] g.planned@[i], planned(ai, tracks, albums)[i])
}

/// What a run holds at each stage: while playlists are created, the next
/// one is in the plan and no more were created than asked for.
pub open spec fn holds(f: EditorialFlow) -> bool {
    &&& f.created <= f.next
    &&& f.stage == EditorialStage::Create ==> f.next < f.planned@.len() <= usize::MAX
    &&& f.stage == EditorialStage::Stamp ==> f.created <= f.planned@.len()
}

/// Whether `ev` is the outcome of the work the run waits for.
pub open spec fn expects(f: EditorialFlow, ev: EditorialEvent) -> bool {
    match f.stage {
        EditorialStage::Settings => ev is Settings,
        EditorialStage::Tracks => ev is Tracks,
        EditorialStage::Ask => ev is Reply,
        EditorialStage::Parse => ev is Parsed,
        EditorialStage::DeleteOld | EditorialStage::Stamp => ev is Done,
        EditorialStage::Admin => ev is Admin,
        EditorialStage::Create => ev is Inserted,
        EditorialStage::Finished => false,
    }
}

/// The request to the service once the tracks are known.
pub open spec fn asks(f: EditorialFlow, a: EditorialAction, n: nat, track_json: Seq<char>) -> bool {
    a matches EditorialAction::CallAi { url, authorization, model, system_prompt, user_prompt } && url@
        == f.base_url@ + "/chat/completions"@ && authorization@ == "Bearer "@ + f.api_key@ && model@
        == f.model@ && system_prompt@ == prompt_text(
        playlist_count_for(n),
        tracks_per_playlist_for(n),
        f.mode == EditorialMode::Manual,
    ) && user_prompt@ == "Here are the available tracks:\n"@ + track_json
}

/// One step of a run: from `f`, on the outcome `ev`, to `g` with the next
/// work `a`.
pub open spec fn stepped(f: EditorialFlow, ev: EditorialEvent, g: EditorialFlow, a: EditorialAction) -> bool {
    match f.stage {
        EditorialStage::Settings => match ev {
            EditorialEvent::Settings { api_key, base_url, model } => match api_key {
                None => fails_with(g, a, 400, key_missing_text(f.mode)),
                Some(k) => if k@.len() == 0 {
                    fails_with(g, a, 400, "AI API key is empty"@)
                } else {
                    &&& g.stage == EditorialStage::Tracks
                    &&& g.mode == f.mode
                    &&& g.api_key@ == k@
                    &&& g.base_url@ == text_or(base_url, DEFAULT_AI_BASE_URL@)
                    &&& g.model@ == text_or(model, DEFAULT_AI_MODEL@)
                    &&& g.created == f.created && g.next == f.next
                    &&& a is LoadTracks
                },
            },
            _ => false,
        },
        EditorialStage::Tracks => match ev {
            EditorialEvent::Tracks(Err(e)) => fails_with(g, a, 500, "DB error: "@ + e@),
            EditorialEvent::Tracks(Ok((ts, al, json))) => if ts@.len() < MIN_EDITORIAL_TRACKS {
                fails_with(g, a, 400, too_few_text(f.mode))
            } else {
                &&& g == EditorialFlow { stage: EditorialStage::Ask, tracks: ts, albums: al, ..f }
                &&& asks(f, a, ts@.len(), json@)
            },
            _ => false,
        },
        EditorialStage::Ask => match ev {
            EditorialEvent::Reply(AiReply::SendFailed) => fails_with(g, a, 502, "AI API request failed"@),
            EditorialEvent::Reply(AiReply::Status(s)) => fails_with(g, a, 502, "AI API returned status "@ + s@),
            EditorialEvent::Reply(AiReply::BadBody(e)) => fails_with(g, a, 502, "Failed to parse AI response: "@ + e@),
            EditorialEvent::Reply(AiReply::Content(c)) => {
                &&& g == EditorialFlow { stage: EditorialStage::Parse, ..f }
                &&& a matches EditorialAction::ParseJson(t) && t@ == clean_content(text_or(c, "[]"@))
            },
            _ => false,
        },
        EditorialStage::Parse => match ev {
            EditorialEvent::Parsed(Err(e)) => fails_with(g, a, 502, "AI returned invalid JSON: "@ + e@),
            EditorialEvent::Parsed(Ok(ai)) => {
                &&& g.stage == EditorialStage::DeleteOld
                &&& g.mode == f.mode && g.tracks == f.tracks && g.albums == f.albums
                &&& g.created == f.created && g.next == f.next
                &&& plans(g, ai@, f.tracks@, f.albums@)
                &&& a is DeleteOldEditorials
            },
            _ => false,
        },
        EditorialStage::DeleteOld => match ev {
            EditorialEvent::Done => g == EditorialFlow { stage: EditorialStage::Admin, ..f } && a is FindAdmin,
            _ => false,
        },
        EditorialStage::Admin => match ev {
            EditorialEvent::Admin(Err(e)) => fails_with(g, a, 500, "DB error: "@ + e@),
            EditorialEvent::Admin(Ok(None)) => fails_with(g, a, 500, "No admin user found"@),
            EditorialEvent::Admin(Ok(Some(id))) => if f.planned@.len() == 0 {
                g == EditorialFlow { stage: EditorialStage::Stamp, admin: id, created: 0, next: 0, ..f }
                    && a is StampGenerated
            } else {
                g == EditorialFlow { stage: EditorialStage::Create, admin: id, created: 0, next: 0, ..f }
                    && a == EditorialAction::CreatePlaylist { index: 0, admin: id }
            },
            _ => false,
        },
        EditorialStage::Create => match ev {
            EditorialEvent::Inserted(ok) => {
                let created = if ok {
                    f.created + 1
                } else {
                    f.created as int
                };
                let next = f.next + 1;
                if next < f.planned@.len() {
                    g == EditorialFlow { created: created as usize, next: next as usize, ..f }
                        && a == EditorialAction::CreatePlaylist { index: next as usize, admin: f.admin }
                } else {
                    g == EditorialFlow {
                        stage: EditorialStage::Stamp,
                        created: created as usize,
                        next: next as usize,
                        ..f
                    } && a is StampGenerated
                }
            },
            _ => false,
        },
        EditorialStage::Stamp => match ev {
            EditorialEvent::Done => {
                &&& g == EditorialFlow { stage: EditorialStage::Finished, ..f }
                &&& a matches EditorialAction::Finish(r) && r.playlists_created == f.created
                    && r.message@ == dec(f.created as nat) + " playlists éditoriales créées avec succès"@
            },
            _ => false,
        },
        EditorialStage::Finished => false,
    }
}

// ─── The run ───────────────────────────────────────────────────────────

fn text(s: &str) -> (r: String)
    ensures
        r@ == s@,
{
    string_of(&chars_of(s))
}

impl EditorialFlow {
    /// A run started by `mode`; its first work is reading the settings.
    pub fn start(mode: EditorialMode) -> (r: (EditorialFlow, EditorialAction))
        ensures
            r.0.stage == EditorialStage::Settings,
            r.0.mode == mode,
            r.0.created == 0 && r.0.next == 0,
            r.0.planned@.len() == 0,
            holds(r.0),
            r.1 is ReadSettings,
    {
        let f = EditorialFlow {
            mode,
            stage: EditorialStage::Settings,
            api_key: string_of(&Vec::new()),
            base_url: string_of(&Vec::new()),
            model: string_of(&Vec::new()),
            tracks: Vec::new(),
            albums: Vec::new(),
            planned: Vec::new(),
            admin: 0,
            next: 0,
            created: 0,
        };
        (f, EditorialAction::ReadSettings)
    }

    fn fail(self, status: u16, message: String) -> (r: (EditorialFlow, EditorialAction))
        ensures
            fails_with(r.0, r.1, status, message@),
            r.0 == (EditorialFlow { stage: EditorialStage::Finished, ..self }),
    {
        let ghost m = message@;
        let mut g = self;
        g.stage = EditorialStage::Finished;
        let x = EditorialFailure { status, message };
        assert(x.message@ == m);
        (g, EditorialAction::Fail(x))
    }

    fn on_settings(self, ev: EditorialEvent) -> (r: (EditorialFlow, EditorialAction))
        requires
            self.stage == EditorialStage::Settings,
            expects(self, ev),
        ensures
            stepped(self, ev, r.0, r.1),
            r.0.created == self.created && r.0.next == self.next,
    {
        match ev {
            EditorialEvent::Settings { api_key, base_url, model } => match api_key {
                None => {
                    let m = if self.mode == EditorialMode::Manual {
                        "AI API key not configured. Set 'ai_api_key' in settings."
                    } else {
                        "AI API key not configured"
                    };
                    let msg = text(m);
                    self.fail(400, msg)
                },
                Some(k) => {
                    if chars_of(k.as_str()).len() == 0 {
                        let msg = text("AI API key is empty");
                        return self.fail(400, msg);
                    }
                    let ghost kv = k@;
                    let mut g = self;
                    g.stage = EditorialStage::Tracks;
                    g.api_key = k;
                    g.base_url = ai_base_url(base_url);
                    g.model = ai_model(model);
                    assert(g.api_key@ == kv);
                    (g, EditorialAction::LoadTracks)
                },
            },
            _ => self.fail(500, string_of(&Vec::new())),
        }
    }

    fn on_tracks(self, ev: EditorialEvent) -> (r: (EditorialFlow, EditorialAction))
        requires
            self.stage == EditorialStage::Tracks,
            expects(self, ev),
        ensures
            stepped(self, ev, r.0, r.1),
            r.0.created == self.created && r.0.next == self.next,
    {
        match ev {
            EditorialEvent::Tracks(Err(e)) => {
                let mut v: Vec<char> = Vec::new();
                push_str(&mut v, "DB error: ");
                push_str(&mut v, e.as_str());
                self.fail(500, string_of(&v))
            },
            EditorialEvent::Tracks(Ok((ts, al, json))) => {
                match playlist_shape(ts.len()) {
                    Err(_) => {
                        let m = if self.mode == EditorialMode::Manual {
                            "Not enough tracks to generate playlists (minimum 5)"
                        } else {
                            "Not enough tracks"
                        };
                        let msg = text(m);
                        self.fail(400, msg)
                    },
                    Ok((num, per)) => {
                        let url = chat_completions_url(self.base_url.as_str());
                        let authorization = bearer(self.api_key.as_str());
                        let model = string_of(&crate::text::chars_of(self.model.as_str()));
                        let system = system_prompt(num, per, self.mode == EditorialMode::Manual);
                        let user = user_prompt(json.as_str());
                        let mut g = self;
                        g.stage = EditorialStage::Ask;
                        g.tracks = ts;
                        g.albums = al;
                        (
                            g,
                            EditorialAction::CallAi {
                                url,
                                authorization,
                                model,
                                system_prompt: system,
                                user_prompt: user,
                            },
                        )
                    },
                }
            },
            _ => self.fail(500, string_of(&Vec::new())),
        }
    }

    fn on_reply(self, ev: EditorialEvent) -> (r: (EditorialFlow, EditorialAction))
        requires
            self.stage == EditorialStage::Ask,
            expects(self, ev),
        ensures
            stepped(self, ev, r.0, r.1),
            r.0.created == self.created && r.0.next == self.next,
    {
        match ev {
            EditorialEvent::Reply(AiReply::SendFailed) => {
                let msg = text("AI API request failed");
                self.fail(502, msg)
            },
            EditorialEvent::Reply(AiReply::Status(s)) => {
                let mut v: Vec<char> = Vec::new();
                push_str(&mut v, "AI API returned status ");
                push_str(&mut v, s.as_str());
                self.fail(502, string_of(&v))
            },
            EditorialEvent::Reply(AiReply::BadBody(e)) => {
                let mut v: Vec<char> = Vec::new();
                push_str(&mut v, "Failed to parse AI response: ");
                push_str(&mut v, e.as_str());
                self.fail(502, string_of(&v))
            },
            EditorialEvent::Reply(AiReply::Content(c)) => {
                let text = match &c {
                    Some(s) => clean_ai_content(Some(s.as_str())),
                    None => clean_ai_content(None),
                };
                let mut g = self;
                g.stage = EditorialStage::Parse;
                (g, EditorialAction::ParseJson(text))
            },
            _ => self.fail(500, string_of(&Vec::new())),
        }
    }

    fn on_parsed(self, ev: EditorialEvent) -> (r: (EditorialFlow, EditorialAction))
        requires
            self.stage == EditorialStage::Parse,
            expects(self, ev),
        ensures
            stepped(self, ev, r.0, r.1),
            r.0.created == self.created && r.0.next == self.next,
    {
        match ev {
            EditorialEvent::Parsed(Err(e)) => {
                let mut v: Vec<char> = Vec::new();
                push_str(&mut v, "AI returned invalid JSON: ");
                push_str(&mut v, e.as_str());
                self.fail(502, string_of(&v))
            },
            EditorialEvent::Parsed(Ok(ai)) => {
                let ghost proposals = ai@;
                let plan = plan_playlists(ai, &self.tracks, &self.albums);
                let mut g = self;
                g.stage = EditorialStage::DeleteOld;
                g.planned = plan;
                assert(plans(g, proposals, self.tracks@, self.albums@));
                (g, EditorialAction::DeleteOldEditorials)
            },
            _ => self.fail(500, string_of(&Vec::new())),
        }
    }

    fn on_admin(self, ev: EditorialEvent) -> (r: (EditorialFlow, EditorialAction))
        requires
            self.stage == EditorialStage::Admin,
            holds(self),
            expects(self, ev),
        ensures
            stepped(self, ev, r.0, r.1),
            holds(r.0),
    {
        match ev {
            EditorialEvent::Admin(Err(e)) => {
                let mut v: Vec<char> = Vec::new();
                push_str(&mut v, "DB error: ");
                push_str(&mut v, e.as_str());
                self.fail(500, string_of(&v))
            },
            EditorialEvent::Admin(Ok(None)) => {
                let msg = text("No admin user found");
                self.fail(500, msg)
            },
            EditorialEvent::Admin(Ok(Some(id))) => {
                let mut g = self;
                g.admin = id;
                g.created = 0;
                g.next = 0;
                if g.planned.len() == 0 {
                    g.stage = EditorialStage::Stamp;
                    (g, EditorialAction::StampGenerated)
                } else {
                    g.stage = EditorialStage::Create;
                    (g, EditorialAction::CreatePlaylist { index: 0, admin: id })
                }
            },
            _ => self.fail(500, string_of(&Vec::new())),
        }
    }

    fn on_inserted(self, ev: EditorialEvent) -> (r: (EditorialFlow, EditorialAction))
        requires
            self.stage == EditorialStage::Create,
            holds(self),
            expects(self, ev),
        ensures
            stepped(self, ev, r.0, r.1),
            holds(r.0),
    {
        match ev {
            EditorialEvent::Inserted(ok) => {
                let mut g = self;
                if ok {
                    g.created = g.created + 1;
                }
                g.next = g.next + 1;
                if g.next < g.planned.len() {
                    let index = g.next;
                    let admin = g.admin;
                    (g, EditorialAction::CreatePlaylist { index, admin })
                } else {
                    g.stage = EditorialStage::Stamp;
                    (g, EditorialAction::StampGenerated)
                }
            },
            _ => self.fail(500, string_of(&Vec::new())),
        }
    }

    fn on_stamped(self, ev: EditorialEvent) -> (r: (EditorialFlow, EditorialAction))
        requires
            self.stage == EditorialStage::Stamp,
            expects(self, ev),
        ensures
            stepped(self, ev, r.0, r.1),
            holds(self) ==> holds(r.0),
    {
        let result = generate_result(self.created);
        let mut g = self;
        g.stage = EditorialStage::Finished;
        (g, EditorialAction::Finish(result))
    }

    /// Takes the outcome of the work the run waited for and decides the
    /// next work (see `stepped`).
    pub fn advance(self, ev: EditorialEvent) -> (r: (EditorialFlow, EditorialAction))
        requires
            holds(self),
            expects(self, ev),
        ensures
            stepped(self, ev, r.0, r.1),
            holds(r.0),
    {
        match self.stage {
            EditorialStage::Settings => self.on_settings(ev),
            EditorialStage::Tracks => self.on_tracks(ev),
            EditorialStage::Ask => self.on_reply(ev),
            EditorialStage::Parse => self.on_parsed(ev),
            EditorialStage::DeleteOld => {
                let mut g = self;
                g.stage = EditorialStage::Admin;
                (g, EditorialAction::FindAdmin)
            },
            EditorialStage::Admin => self.on_admin(ev),
            EditorialStage::Create => self.on_inserted(ev),
            EditorialStage::Stamp => self.on_stamped(ev),
            EditorialStage::Finished => self.fail(500, string_of(&Vec::new())),
        }
    }
}

// ─── Laws ──────────────────────────────────────────────────────────────

/// The old editorial playlists are deleted only once the service answered
/// and its answer was read as proposals: a failed request, an unsuccessful
/// status or an unreadable answer leaves them in place.
pub proof fn law_old_playlists_kept_until_answer_read(
    f: EditorialFlow,
    ev: EditorialEvent,
    g: EditorialFlow,
    a: EditorialAction,
)
    requires
        holds(f),
        expects(f, ev),
        stepped(f, ev, g, a),
    ensures
        a is DeleteOldEditorials ==> f.stage == EditorialStage::Parse && ev matches EditorialEvent::Parsed(Ok(_)),
        f.stage == EditorialStage::Ask ==> !(a is DeleteOldEditorials) && !(a is CreatePlaylist),
{
}

/// Playlists are created only after the old ones were deleted and an
/// administrator was found, one planned playlist after another, each owned
/// by that administrator; the count reported is the number inserted.
pub proof fn law_playlists_created_in_plan_order(
    f: EditorialFlow,
    ev: EditorialEvent,
    g: EditorialFlow,
    a: EditorialAction,
)
    requires
        holds(f),
        expects(f, ev),
        stepped(f, ev, g, a),
    ensures
        a matches EditorialAction::CreatePlaylist { index, admin } ==> (f.stage == EditorialStage::Admin
            || f.stage == EditorialStage::Create) && index == g.next && index < g.planned@.len()
            && admin == g.admin,
        f.stage == EditorialStage::Create ==> (ev matches EditorialEvent::Inserted(ok) && g.created == f.created
            + (if ok {
            1int
        } else {
            0int
        })),
        a matches EditorialAction::Finish(r) ==> f.stage == EditorialStage::Stamp && r.playlists_created
            == f.created,
{
}

} // verus!
