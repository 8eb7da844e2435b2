//! Moderation: track reports and their resolution, the moderation track
//! list, and the instance's Terms of Service.
use vstd::prelude::*;

use crate::pagination::{page_number, page_of, page_size, page_size_of};
use crate::text::{byte_len, chars_of, push_str, str_eq, string_of, trim, trim_str};

verus! {

/// A user's report of a track.
#[derive(Debug, Clone)]
pub struct ReportRequest {
    pub reason: String,
}

/// An administrator's decision on a report.
#[derive(Debug, Clone)]
pub struct ResolveReportRequest {
    /// `resolved` or `dismissed`.
    pub action: String,
    /// `delete`, `unlist` or `none`.
    pub track_action: Option<String>,
    pub admin_note: Option<String>,
}

/// Paging and search of the moderation track list.
#[derive(Debug, Clone)]
pub struct TrackBrowseParams {
    pub page: Option<u64>,
    pub per_page: Option<u64>,
    pub search: Option<String>,
}

/// The Terms of Service shown to users.
#[derive(Debug, Clone)]
pub struct TosResponse {
    pub content: String,
    pub is_default: bool,
}

/// New Terms of Service.
#[derive(Debug, Clone)]
pub struct UpdateTosRequest {
    pub content: String,
}

/// The message a report with an unusable reason gets.
pub open spec fn bad_reason_message() -> Seq<char> {
    "La raison doit faire entre 1 et 500 caractères."@
}

/// The reason stored for a report: trimmed, and between 1 and 500 bytes of
/// UTF-8 once trimmed.
pub fn check_report_reason(reason: &str) -> (r: Result<String, &'static str>)
    ensures
        (0 < byte_len(trim(reason@)) <= 500) <==> r is Ok,
        r matches Ok(s) ==> s@ == trim(reason@),
        r matches Err(m) ==> m@ == bad_reason_message(),
{
    let t = string_of(&trim_str(reason));
    let n = t.as_str().as_bytes().len();
    if n == 0 || n > 500 {
        return Err("La raison doit faire entre 1 et 500 caractères.");
    }
    Ok(t)
}

/// What happens to the reported track when a report is closed.
#[derive(Debug, Clone, Copy, PartialEq, Eq, Structural)]
pub enum TrackOutcome {
    /// The (local) track and its file are deleted.
    DeleteLocal,
    /// The track is left as it is.
    Keep,
}

/// How a report is closed.
#[derive(Debug, Clone)]
pub struct Resolution {
    /// `resolved` or `dismissed`.
    pub status: String,
    pub track: TrackOutcome,
    /// The confirmation shown to the administrator.
    pub message: String,
}

/// The track outcome of closing a report: only a resolved report whose
/// track still exists, with the track action `delete`, deletes it (every
/// track here is local).
pub open spec fn track_outcome_of(action: Seq<char>, track_action: Option<Seq<char>>, track_exists: bool) -> TrackOutcome {
    if action == "resolved"@ && track_exists && track_action == Some("delete"@) {
        TrackOutcome::DeleteLocal
    } else {
        TrackOutcome::Keep
    }
}

/// Decides how to close a report: the action must be `resolved` or
/// `dismissed`; the confirmation is `Signalement {status}. ` followed by
/// what happened to the track.
pub fn resolve_report(req: &ResolveReportRequest, track_exists: bool) -> (r: Result<Resolution, &'static str>)
    ensures
        (req.action@ == "resolved"@ || req.action@ == "dismissed"@) <==> r is Ok,
        r matches Err(m) ==> m@ == "Action invalide (resolved ou dismissed)."@,
        r matches Ok(res) ==> res.status@ == req.action@ && res.track == track_outcome_of(
            req.action@,
            crate::netguard::opt_view(req.track_action),
            track_exists,
        ) && res.message@ == "Signalement "@ + req.action@ + ". "@ + (if res.track
            == TrackOutcome::DeleteLocal {
            "Piste locale supprimée."@
        } else {
            Seq::<char>::empty()
        }),
{
    proof {
        reveal_strlit("resolved");
        reveal_strlit("dismissed");
        reveal_strlit("delete");
        reveal_strlit("none");
        assert("resolved"@.len() != "dismissed"@.len());
    }
    let resolved = str_eq(req.action.as_str(), "resolved");
    if !resolved && !str_eq(req.action.as_str(), "dismissed") {
        return Err("Action invalide (resolved ou dismissed).");
    }
    let delete = match &req.track_action {
        Some(a) => str_eq(a.as_str(), "delete"),
        None => false,
    };
    let track = if resolved && track_exists && delete {
        TrackOutcome::DeleteLocal
    } else {
        TrackOutcome::Keep
    };
    let mut m: Vec<char> = Vec::new();
    push_str(&mut m, "Signalement ");
    push_str(&mut m, req.action.as_str());
    push_str(&mut m, ". ");
    if track == TrackOutcome::DeleteLocal {
        push_str(&mut m, "Piste locale supprimée.");
    } else {
        proof {
            assert(m@ + Seq::<char>::empty() =~= m@);
        }
    }
    Ok(Resolution { status: string_of(&chars_of(req.action.as_str())), track, message: string_of(&m) })
}

/// The title filter of the moderation list: the search text trimmed, when
/// anything is left.
pub fn browse_filter(params: &TrackBrowseParams) -> (f: Option<String>)
    ensures
        match params.search {
            Some(s) => if trim(s@).len() > 0 {
                f matches Some(t) && t@ == trim(s@)
            } else {
                f is None
            },
            None => f is None,
        },
{
    match &params.search {
        Some(s) => {
            let t = trim_str(s.as_str());
            if t.len() > 0 {
                Some(string_of(&t))
            } else {
                None
            }
        },
        None => None,
    }
}

impl TrackBrowseParams {
    /// The page shown: `page` (default 1), at least 1.
    pub fn page(&self) -> (p: u64)
        ensures
            p == page_of(self.page),
    {
        page_number(self.page)
    }

    /// The page size: `per_page` (default 50), at most 100.
    pub fn per_page(&self) -> (n: u64)
        ensures
            n == page_size_of(self.per_page, 50, 100),
    {
        page_size(self.per_page, 50, 100)
    }
}

/// The Terms of Service used until an administrator writes others.
pub const DEFAULT_TOS: &'static str = r#"# Conditions d'utilisation — SoundTime

Bienvenue sur cette instance SoundTime. En utilisant ce service, vous acceptez les conditions suivantes :

## 1. Utilisation du service
- Ce service est une plateforme de streaming musical fédérée.
- Vous êtes responsable du contenu que vous uploadez.
- Tout contenu enfreignant les droits d'auteur peut être supprimé sans préavis.

## 2. Contenu interdit
- Contenu violant les droits de propriété intellectuelle.
- Contenu illégal, haineux, ou diffamatoire.
- Spam ou contenu non musical.

## 3. Signalements
- Les utilisateurs peuvent signaler du contenu qu'ils estiment problématique.
- L'administrateur se réserve le droit de supprimer tout contenu signalé.

## 4. Responsabilité
- L'administrateur de cette instance n'est pas responsable du contenu uploadé par les utilisateurs.
- Nous faisons nos meilleurs efforts pour modérer le contenu de manière réactive.

## 5. Données personnelles
- Seules les données nécessaires au fonctionnement du service sont collectées.
- Aucune donnée n'est revendue à des tiers.

## 6. Modifications
- Ces conditions peuvent être modifiées à tout moment par l'administrateur de l'instance.

---
*Dernière mise à jour : généré automatiquement par SoundTime.*
"#;

/// The Terms of Service to show: the stored text unless it is blank, else
/// the default.
pub fn tos_response(stored: Option<String>) -> (r: TosResponse)
    ensures
        match stored {
            Some(s) => if trim(s@).len() > 0 {
                r.content == s && !r.is_default
            } else {
                r.content@ == DEFAULT_TOS@ && r.is_default
            },
            None => r.content@ == DEFAULT_TOS@ && r.is_default,
        },
{
    match stored {
        Some(s) => {
            if trim_str(s.as_str()).len() > 0 {
                TosResponse { content: s, is_default: false }
            } else {
                TosResponse { content: string_of(&chars_of(DEFAULT_TOS)), is_default: true }
            }
        },
        None => TosResponse { content: string_of(&chars_of(DEFAULT_TOS)), is_default: true },
    }
}

/// Report counts by status, and their total.
#[derive(Debug, Clone, Copy, PartialEq, Eq, Structural)]
pub struct ReportStats {
    pub pending: u64,
    pub resolved: u64,
    pub dismissed: u64,
    pub total: u64,
}

/// Report counts with their total.
pub fn report_stats(pending: u64, resolved: u64, dismissed: u64) -> (s: ReportStats)
    requires
        pending + resolved + dismissed <= u64::MAX,
    ensures
        s.pending == pending && s.resolved == resolved && s.dismissed == dismissed,
        s.total == pending + resolved + dismissed,
{
    ReportStats { pending, resolved, dismissed, total: pending + resolved + dismissed }
}

} // verus!
