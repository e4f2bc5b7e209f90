//! Presence builder: turns a session, the tracker's report and the resolved
//! artwork into the payload that is shown.

use vstd::prelude::*;
use crate::caption::{display_lines, display_lines_of};
use crate::session::{LibraryItem, LibraryItemView, Session, SessionView};
use crate::tracker::Inference;

verus! {

/// Start and end of the progress bar, in seconds since the Unix epoch.
#[derive(Clone, Copy, Debug, PartialEq, Eq)]
pub struct Timestamps {
    pub start: i64,
    pub end: i64,
}

/// The image of a presence and the text shown with it.
#[derive(Clone, Debug, PartialEq, Eq)]
pub struct Artwork {
    pub image_url: String,
    pub caption: String,
}

pub struct ArtworkView {
    pub image_url: Seq<char>,
    pub caption: Seq<char>,
}

impl View for Artwork {
    type V = ArtworkView;

    open spec fn view(&self) -> ArtworkView {
        ArtworkView { image_url: self.image_url@, caption: self.caption@ }
    }
}

/// What is pushed to the presence sink.
#[derive(Clone, Debug, PartialEq, Eq)]
pub struct PresencePayload {
    pub details: String,
    pub state: String,
    pub timestamps: Option<Timestamps>,
    pub artwork: Option<Artwork>,
}

pub struct PresencePayloadView {
    pub details: Seq<char>,
    pub state: Seq<char>,
    pub timestamps: Option<Timestamps>,
    pub artwork: Option<ArtworkView>,
}

impl View for PresencePayload {
    type V = PresencePayloadView;

    open spec fn view(&self) -> PresencePayloadView {
        PresencePayloadView {
            details: self.details@,
            state: self.state@,
            timestamps: self.timestamps,
            artwork: match self.artwork {
                Some(a) => Some(a@),
                None => None,
            },
        }
    }
}

/// View of an optional payload.
pub open spec fn opt_payload(p: Option<PresencePayload>) -> Option<PresencePayloadView> {
    match p {
        Some(p) => Some(p@),
        None => None,
    }
}

/// The progress window of an item of `duration_ms` that is at `position_ms`
/// at the instant `now_ms`: it started `position` whole seconds before now
/// and lasts `duration` whole seconds.
pub open spec fn progress_window(now_ms: u64, position_ms: u64, duration_ms: u64) -> Timestamps {
    let start = now_ms / 1000 - position_ms / 1000;
    Timestamps { start: start as i64, end: (start + duration_ms / 1000) as i64 }
}

/// The payload of a session.
///
/// * Not playing: the two lines only.
/// * Playing: the two lines, the progress window and, when artwork was
///   resolved, the image with its caption.
pub open spec fn composed_of(
    session: SessionView,
    item: LibraryItemView,
    report: Inference,
    now_ms: u64,
    artwork: Option<Seq<char>>,
    caption: Seq<char>,
) -> PresencePayloadView {
    let lines = display_lines_of(session, item);
    if report.is_playing {
        PresencePayloadView {
            details: lines.0,
            state: lines.1,
            timestamps: Some(progress_window(now_ms, report.position_ms, session.duration_ms)),
            artwork: match artwork {
                Some(url) => Some(ArtworkView { image_url: url, caption }),
                None => None,
            },
        }
    } else {
        PresencePayloadView { details: lines.0, state: lines.1, timestamps: None, artwork: None }
    }
}

/// The payload for a tick: nothing when there is no session, which means
/// that the presence is to be cleared; else the payload of the session.
pub open spec fn payload_of(
    current: Option<(SessionView, LibraryItemView)>,
    report: Inference,
    now_ms: u64,
    artwork: Option<Seq<char>>,
    caption: Seq<char>,
) -> Option<PresencePayloadView> {
    match current {
        None => None,
        Some((session, item)) => Some(composed_of(session, item, report, now_ms, artwork, caption)),
    }
}

/// View of an optional session with its item detail.
pub open spec fn opt_current(current: Option<(&Session, &LibraryItem)>) -> Option<
    (SessionView, LibraryItemView),
> {
    match current {
        Some((s, i)) => Some((s@, i@)),
        None => None,
    }
}

/// Start and end of the progress bar.
pub fn window(now_ms: u64, position_ms: u64, duration_ms: u64) -> (w: Timestamps)
    ensures
        w == progress_window(now_ms, position_ms, duration_ms),
        w.start == now_ms / 1000 - position_ms / 1000,
        w.end == w.start + duration_ms / 1000,
{
    let now_s: i64 = (now_ms / 1000) as i64;
    let position_s: i64 = (position_ms / 1000) as i64;
    let duration_s: i64 = (duration_ms / 1000) as i64;
    let start: i64 = now_s - position_s;
    Timestamps { start, end: start + duration_s }
}

/// Builds the payload of a session.
pub fn compose(
    session: &Session,
    item: &LibraryItem,
    report: Inference,
    now_ms: u64,
    artwork: Option<String>,
    caption: String,
) -> (p: PresencePayload)
    ensures
        p@ == composed_of(
            session@,
            item@,
            report,
            now_ms,
            crate::session::opt_text(artwork),
            caption@,
        ),
{
    let (details, state) = display_lines(session, item);
    if report.is_playing {
        let timestamps = window(now_ms, report.position_ms, session.duration_ms);
        let artwork = match artwork {
            Some(url) => Some(Artwork { image_url: url, caption }),
            None => None,
        };
        PresencePayload { details, state, timestamps: Some(timestamps), artwork }
    } else {
        PresencePayload { details, state, timestamps: None, artwork: None }
    }
}

/// Builds the payload for a tick; `None` means that the presence is to be
/// cleared.
pub fn build(
    current: Option<(&Session, &LibraryItem)>,
    report: Inference,
    now_ms: u64,
    artwork: Option<String>,
    caption: String,
) -> (r: Option<PresencePayload>)
    ensures
        opt_payload(r) == payload_of(
            opt_current(current),
            report,
            now_ms,
            crate::session::opt_text(artwork),
            caption@,
        ),
{
    match current {
        None => None,
        Some((session, item)) => Some(compose(session, item, report, now_ms, artwork, caption)),
    }
}

} // verus!
