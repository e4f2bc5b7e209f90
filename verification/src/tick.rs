//! One tick of the pipeline, as the decisions between its requests.
//!
//! The caller fetches the sessions and hands them to `start_tick`. When that
//! asks for a presentation, the caller fetches the item's detail, has the
//! cover resolved for `cover_query`, and pushes what `presence_for` builds.

use vstd::prelude::*;
use crate::caption::{caption, caption_of, display_lines, display_lines_of, is_podcast, is_podcast_of};
use crate::presence::{compose, composed_of, PresencePayload, PresencePayloadView};
use crate::session::{Config, LibraryItem, LibraryItemView, Session, SessionView, opt_text};
use crate::tracker::{observe_step, Inference, Tracker, TrackerView};

verus! {

/// What a tick does once the sessions are known.
#[derive(Clone, Copy, Debug, PartialEq, Eq)]
pub enum TickStart {
    /// Clear the presence; the tick is over and no artwork is resolved.
    Clear,
    /// Present the first session with this report.
    Present(Inference),
}

/// View of a session list.
pub open spec fn session_views(v: Seq<Session>) -> Seq<SessionView> {
    Seq::new(v.len(), |i: int| v[i]@)
}

/// The start of a tick.
///
/// * No session: the presence is cleared and the tracker is left as it was.
/// * Otherwise the first session is observed, and the presence is cleared
///   unless the tracker reports "playing".
pub open spec fn start_tick_of(t: TrackerView, sessions: Seq<SessionView>, now_ms: u64) -> (
    TrackerView,
    TickStart,
) {
    if sessions.len() == 0 {
        (t, TickStart::Clear)
    } else {
        let s = sessions[0];
        let (after, report) = observe_step(
            t,
            s.display_title,
            s.current_time_ms,
            s.duration_ms,
            now_ms,
        );
        if report.is_playing {
            (after, TickStart::Present(report))
        } else {
            (after, TickStart::Clear)
        }
    }
}

/// Starts a tick on the sessions that the server reported at `now_ms`.
pub fn start_tick(tracker: &mut Tracker, sessions: &Vec<Session>, now_ms: u64) -> (r: TickStart)
    ensures
        (final(tracker)@, r) == start_tick_of(old(tracker)@, session_views(sessions@), now_ms),
        sessions@.len() == 0 ==> r is Clear && final(tracker)@ == old(tracker)@,
        r matches TickStart::Present(report) ==> report.is_playing && report.position_ms
            <= sessions@[0].duration_ms,
{
    if sessions.len() == 0 {
        return TickStart::Clear;
    }
    let s = &sessions[0];
    let report = tracker.observe(
        s.display_title.as_str(),
        s.current_time_ms,
        s.duration_ms,
        now_ms,
    );
    if report.is_playing {
        TickStart::Present(report)
    } else {
        TickStart::Clear
    }
}

/// What the cover is resolved for.
#[derive(Clone, Debug, PartialEq, Eq)]
pub struct CoverQuery {
    pub title: String,
    pub author: String,
    pub is_podcast: bool,
}

/// The title and author to resolve a cover for, the two lines of the
/// presence, and whether the item is a podcast.
pub fn cover_query(session: &Session, item: &LibraryItem) -> (q: CoverQuery)
    ensures
        (q.title@, q.author@) == display_lines_of(session@, item@),
        q.is_podcast == is_podcast_of(item@.media_type, session@.media_metadata.podcast_title),
{
    let (title, author) = display_lines(session, item);
    CoverQuery { title, author, is_podcast: is_podcast(&session.media_metadata, item) }
}

/// The payload of a presented session: its caption is chosen at the
/// session's raw offset.
pub open spec fn presence_of(
    show_chapters: bool,
    session: SessionView,
    item: LibraryItemView,
    report: Inference,
    now_ms: u64,
    artwork: Option<Seq<char>>,
) -> PresencePayloadView {
    composed_of(
        session,
        item,
        report,
        now_ms,
        artwork,
        caption_of(session.media_metadata, item, show_chapters, session.current_time_ms as int),
    )
}

/// Builds the payload of a presented session once its artwork is resolved.
pub fn presence_for(
    config: &Config,
    session: &Session,
    item: &LibraryItem,
    report: Inference,
    now_ms: u64,
    artwork: Option<String>,
) -> (p: PresencePayload)
    ensures
        p@ == presence_of(config.wants_chapters(), session@, item@, report, now_ms, opt_text(artwork)),
{
    let text = caption(
        &session.media_metadata,
        item,
        config.chapters_enabled(),
        session.current_time_ms,
    );
    compose(session, item, report, now_ms, artwork, text)
}

} // verus!
