//! Playback state tracker: turns successive raw position samples into a
//! play/pause verdict and an extrapolated position.
//!
//! All times are integers. Offsets and durations are milliseconds of media
//! time; instants are milliseconds since the Unix epoch.

use vstd::prelude::*;
use vstd::string::*;

verus! {

/// An unchanged offset counts as a pause once this much wall-clock time has
/// passed since the previous sample.
pub const QUIET_INTERVAL_MS: u64 = 2000;

/// Numerator of the playback rate factor applied to elapsed wall-clock time
/// while bridging the gap between two observed changes.
pub const RATE_NUMERATOR: u64 = 4;

/// Denominator of the playback rate factor.
pub const RATE_DENOMINATOR: u64 = 5;

/// One raw position sample: the offset the server reported and when it was
/// fetched.
#[derive(Clone, Copy, Debug, PartialEq, Eq)]
pub struct Sample {
    pub offset_ms: i64,
    pub at_ms: u64,
}

/// The previous raw sample, kept only to tell whether the offset advanced
/// between polls. `None` means "unset".
#[derive(Clone, Copy, Debug, PartialEq, Eq)]
pub struct TimingInfo {
    pub last: Option<Sample>,
}

/// The instant at which a genuinely new offset was last observed, and the
/// current verdict.
#[derive(Clone, Copy, Debug, PartialEq, Eq)]
pub struct PlaybackState {
    pub last_change_ms: u64,
    pub is_playing: bool,
}

/// What one inference reports.
#[derive(Clone, Copy, Debug, PartialEq, Eq)]
pub struct Inference {
    pub is_playing: bool,
    pub position_ms: u64,
}

/// Identity of the book or episode currently believed to be playing.
#[derive(Clone, Debug, PartialEq, Eq)]
pub struct TrackedBook {
    pub name: String,
}

/// The loop-owned timing context that is threaded through every tick.
#[derive(Clone, Debug, PartialEq, Eq)]
pub struct Tracker {
    pub book: Option<TrackedBook>,
    pub playback: PlaybackState,
    pub timing: TimingInfo,
}

/// Mathematical model of a `Tracker`.
pub struct TrackerView {
    pub book: Option<Seq<char>>,
    pub playback: PlaybackState,
    pub timing: TimingInfo,
}

impl View for Tracker {
    type V = TrackerView;

    open spec fn view(&self) -> TrackerView {
        TrackerView {
            book: match self.book {
                Some(b) => Some(b.name@),
                None => None,
            },
            playback: self.playback,
            timing: self.timing,
        }
    }
}

/// Wall-clock time from `earlier` to `later`; zero when the clock went back.
pub open spec fn elapsed_between(earlier: int, later: int) -> int {
    if later >= earlier {
        later - earlier
    } else {
        0
    }
}

/// `x` clamped to `[0, duration]`.
pub open spec fn clamp_position(x: int, duration: int) -> int {
    if x < 0 {
        0
    } else if x > duration {
        duration
    } else {
        x
    }
}

/// Position reached from `last` after `elapsed` milliseconds of wall-clock
/// time at the playback rate factor.
pub open spec fn extrapolate(last: int, elapsed: int) -> int {
    last + (elapsed * RATE_NUMERATOR as int) / (RATE_DENOMINATOR as int)
}

/// The timing state after a sample has been recorded.
pub open spec fn recorded(raw: i64, now: u64) -> TimingInfo {
    TimingInfo { last: Some(Sample { offset_ms: raw, at_ms: now }) }
}

/// One inference step: the new playback state, the new timing state and the
/// report, from the old states and a raw sample taken at `now`.
///
/// * Timing unset: record the sample, report "not playing".
/// * Offset changed: playing; extrapolation restarts from the raw offset.
/// * Offset unchanged for at least the quiet interval: paused.
/// * Offset unchanged for less than that: the verdict stands; while playing
///   the position is bridged from the stored offset at the rate factor.
pub open spec fn infer_step(
    playback: PlaybackState,
    timing: TimingInfo,
    raw: i64,
    duration: u64,
    now: u64,
) -> (PlaybackState, TimingInfo, Inference) {
    let at_raw = clamp_position(raw as int, duration as int) as u64;
    match timing.last {
        None => (
            PlaybackState { last_change_ms: playback.last_change_ms, is_playing: false },
            recorded(raw, now),
            Inference { is_playing: false, position_ms: at_raw },
        ),
        Some(prev) => {
            if raw != prev.offset_ms {
                (
                    PlaybackState { last_change_ms: now, is_playing: true },
                    recorded(raw, now),
                    Inference { is_playing: true, position_ms: at_raw },
                )
            } else if elapsed_between(prev.at_ms as int, now as int) >= QUIET_INTERVAL_MS {
                (
                    PlaybackState { last_change_ms: playback.last_change_ms, is_playing: false },
                    recorded(raw, now),
                    Inference { is_playing: false, position_ms: at_raw },
                )
            } else if playback.is_playing {
                (
                    playback,
                    recorded(raw, now),
                    Inference {
                        is_playing: true,
                        position_ms: clamp_position(
                            extrapolate(
                                prev.offset_ms as int,
                                elapsed_between(playback.last_change_ms as int, now as int),
                            ),
                            duration as int,
                        ) as u64,
                    },
                )
            } else {
                (playback, recorded(raw, now), Inference { is_playing: false, position_ms: at_raw })
            }
        },
    }
}

/// Whether a session titled `title` is a switch away from the tracked book.
pub open spec fn is_switch(book: Option<Seq<char>>, title: Seq<char>) -> bool {
    book != Some(title)
}

/// The tracker after a hard reset onto `title` at `now`: nothing is playing
/// and the timing state is unset.
pub open spec fn reset_onto(title: Seq<char>, now: u64) -> TrackerView {
    TrackerView {
        book: Some(title),
        playback: PlaybackState { last_change_ms: now, is_playing: false },
        timing: TimingInfo { last: None },
    }
}

/// One observation of a session: a switch of title resets the tracker first,
/// then the sample goes through `infer_step`.
pub open spec fn observe_step(
    t: TrackerView,
    title: Seq<char>,
    raw: i64,
    duration: u64,
    now: u64,
) -> (TrackerView, Inference) {
    let base = if is_switch(t.book, title) {
        reset_onto(title, now)
    } else {
        t
    };
    let (playback, timing, report) = infer_step(base.playback, base.timing, raw, duration, now);
    (TrackerView { book: base.book, playback, timing }, report)
}

/// The playback and timing state reached from `(playback, timing)` once the
/// first `n` samples of `polls` have gone through `infer_step`.
pub open spec fn state_after(
    playback: PlaybackState,
    timing: TimingInfo,
    polls: Seq<Sample>,
    duration: u64,
    n: nat,
) -> (PlaybackState, TimingInfo)
    decreases n,
{
    if n == 0 {
        (playback, timing)
    } else {
        let before = state_after(playback, timing, polls, duration, (n - 1) as nat);
        let step = infer_step(
            before.0,
            before.1,
            polls[n - 1].offset_ms,
            duration,
            polls[n - 1].at_ms,
        );
        (step.0, step.1)
    }
}

/// What the tracker reports for sample `n` of `polls` when the samples are
/// fed to it in order, starting from `(playback, timing)`.
pub open spec fn report_at(
    playback: PlaybackState,
    timing: TimingInfo,
    polls: Seq<Sample>,
    duration: u64,
    n: nat,
) -> Inference {
    let before = state_after(playback, timing, polls, duration, n);
    infer_step(before.0, before.1, polls[n as int].offset_ms, duration, polls[n as int].at_ms).2
}

/// Every sample repeats the offset of the one before it and is taken at
/// least the quiet interval later.
pub open spec fn identical_and_spaced(polls: Seq<Sample>) -> bool {
    forall|i: int|
        0 < i < polls.len() ==> {
            &&& (#[trigger] polls[i]).offset_ms == polls[i - 1].offset_ms
            &&& polls[i].at_ms - polls[i - 1].at_ms >= QUIET_INTERVAL_MS
        }
}

/// Every sample reports a larger offset than the one before it.
pub open spec fn strictly_increasing(polls: Seq<Sample>) -> bool {
    forall|i: int| 0 < i < polls.len() ==> polls[i - 1].offset_ms < (#[trigger] polls[i]).offset_ms
}

proof fn lemma_state_after_records(
    playback: PlaybackState,
    timing: TimingInfo,
    polls: Seq<Sample>,
    duration: u64,
    n: nat,
)
    requires
        n >= 1,
    ensures
        state_after(playback, timing, polls, duration, n).1 == recorded(
            polls[n - 1].offset_ms,
            polls[n - 1].at_ms,
        ),
{
}

proof fn lemma_identical_offsets(polls: Seq<Sample>, n: nat)
    requires
        identical_and_spaced(polls),
        n < polls.len(),
    ensures
        polls[n as int].offset_ms == polls[0].offset_ms,
    decreases n,
{
    if n > 0 {
        lemma_identical_offsets(polls, (n - 1) as nat);
    }
}

proof fn lemma_increasing_offsets(polls: Seq<Sample>, i: nat, j: nat)
    requires
        strictly_increasing(polls),
        i <= j < polls.len(),
    ensures
        polls[i as int].offset_ms <= polls[j as int].offset_ms,
    decreases j - i,
{
    if i < j {
        lemma_increasing_offsets(polls, i, (j - 1) as nat);
    }
}

/// While the tracker reports "not playing", the position it reports is the
/// raw offset, clamped: no elapsed time is added to it.
pub proof fn lemma_paused_position_is_raw(
    playback: PlaybackState,
    timing: TimingInfo,
    raw: i64,
    duration: u64,
    now: u64,
)
    ensures
        !infer_step(playback, timing, raw, duration, now).2.is_playing ==> infer_step(
            playback,
            timing,
            raw,
            duration,
            now,
        ).2.position_ms == clamp_position(raw as int, duration as int),
{
}

/// Polls that keep reporting one offset, each at least the quiet interval
/// after the one before: from the second poll on, whatever the state the
/// tracker started in, every report says "not playing" and carries the same
/// position, the repeated offset clamped to the duration.
pub proof fn lemma_identical_offsets_pause(
    playback: PlaybackState,
    timing: TimingInfo,
    polls: Seq<Sample>,
    duration: u64,
    n: nat,
)
    requires
        identical_and_spaced(polls),
        1 <= n < polls.len(),
    ensures
        !report_at(playback, timing, polls, duration, n).is_playing,
        report_at(playback, timing, polls, duration, n).position_ms == clamp_position(
            polls[0].offset_ms as int,
            duration as int,
        ),
{
    lemma_state_after_records(playback, timing, polls, duration, n);
    lemma_identical_offsets(polls, n);
    assert(polls[n as int].offset_ms == polls[n - 1].offset_ms);
}

/// Polls whose raw offset strictly increases: from the second poll on,
/// whatever the state the tracker started in, every report says "playing" and
/// carries the raw offset clamped to the duration; those positions never
/// decrease from one poll to a later one and never exceed the duration. When
/// the tracker starts with its timing state unset, the first report's
/// position does not exceed the later ones either.
pub proof fn lemma_increasing_offsets_play(
    playback: PlaybackState,
    timing: TimingInfo,
    polls: Seq<Sample>,
    duration: u64,
    i: nat,
    j: nat,
)
    requires
        strictly_increasing(polls),
        i <= j < polls.len(),
    ensures
        i >= 1 ==> report_at(playback, timing, polls, duration, i).is_playing,
        i >= 1 ==> report_at(playback, timing, polls, duration, i).position_ms == clamp_position(
            polls[i as int].offset_ms as int,
            duration as int,
        ),
        i >= 1 || timing.last is None ==> report_at(playback, timing, polls, duration, i).position_ms
            <= report_at(playback, timing, polls, duration, j).position_ms,
        report_at(playback, timing, polls, duration, j).position_ms <= duration,
{
    lemma_increasing_offsets(polls, i, j);
    if i >= 1 {
        lemma_state_after_records(playback, timing, polls, duration, i);
        assert(polls[i - 1].offset_ms < polls[i as int].offset_ms);
    }
    if j >= 1 {
        lemma_state_after_records(playback, timing, polls, duration, j);
        assert(polls[j - 1].offset_ms < polls[j as int].offset_ms);
    }
}

/// A session whose title differs from the tracked book resets the tracker:
/// whatever the state before, the inference made on that session reports
/// "not playing", with the raw offset as position, and leaves the tracker on
/// the new title with just this sample recorded.
pub proof fn lemma_switch_reports_not_playing(
    t: TrackerView,
    title: Seq<char>,
    raw: i64,
    duration: u64,
    now: u64,
)
    requires
        is_switch(t.book, title),
    ensures
        !observe_step(t, title, raw, duration, now).1.is_playing,
        observe_step(t, title, raw, duration, now).1.position_ms == clamp_position(
            raw as int,
            duration as int,
        ),
        observe_step(t, title, raw, duration, now).0.book == Some(title),
        !observe_step(t, title, raw, duration, now).0.playback.is_playing,
        observe_step(t, title, raw, duration, now).0.timing == recorded(raw, now),
{
}

/// After a hard reset the next inference reports "not playing", whatever the
/// sample and whatever the tracker held before the reset.
pub proof fn lemma_reset_then_infer_not_playing(
    title: Seq<char>,
    at: u64,
    raw: i64,
    duration: u64,
    now: u64,
)
    ensures
        !infer_step(
            reset_onto(title, at).playback,
            reset_onto(title, at).timing,
            raw,
            duration,
            now,
        ).2.is_playing,
{
}

/// Wall-clock milliseconds from `earlier` to `later`, zero if the clock went
/// back.
pub fn elapsed_ms(earlier: u64, later: u64) -> (e: u64)
    ensures
        e == elapsed_between(earlier as int, later as int),
{
    if later >= earlier {
        later - earlier
    } else {
        0
    }
}

/// `raw` clamped to `[0, duration]`.
pub fn clamp_offset(raw: i64, duration: u64) -> (p: u64)
    ensures
        p == clamp_position(raw as int, duration as int),
        p <= duration,
{
    if raw < 0 {
        0
    } else if raw as u64 > duration {
        duration
    } else {
        raw as u64
    }
}

/// The position bridged from `last` over `elapsed` milliseconds, clamped to
/// `[0, duration]`.
pub fn bridged_position(last: i64, elapsed: u64, duration: u64) -> (p: u64)
    ensures
        p == clamp_position(extrapolate(last as int, elapsed as int), duration as int),
        p <= duration,
{
    let gained: u128 = (elapsed as u128) * (RATE_NUMERATOR as u128) / (RATE_DENOMINATOR as u128);
    let reached: i128 = (last as i128) + (gained as i128);
    if reached < 0 {
        0
    } else if reached > duration as i128 {
        duration
    } else {
        reached as u64
    }
}

impl Tracker {
    /// A tracker that follows no book, with nothing playing and the timing
    /// state unset.
    pub fn new(now: u64) -> (t: Tracker)
        ensures
            t@.book is None,
            t@.playback == (PlaybackState { last_change_ms: now, is_playing: false }),
            t@.timing.last is None,
    {
        Tracker {
            book: None,
            playback: PlaybackState { last_change_ms: now, is_playing: false },
            timing: TimingInfo { last: None },
        }
    }

    /// Forgets the tracked timing and follows `title` from now on.
    pub fn reset(&mut self, title: &str, now: u64)
        ensures
            final(self)@ == reset_onto(title@, now),
    {
        self.book = Some(TrackedBook { name: String::from_str(title) });
        self.playback = PlaybackState { last_change_ms: now, is_playing: false };
        self.timing = TimingInfo { last: None };
    }

    /// Whether `title` differs from the tracked book (or none is tracked).
    pub fn switches_to(&self, title: &str) -> (b: bool)
        ensures
            b == is_switch(self@.book, title@),
    {
        match &self.book {
            None => true,
            Some(b) => {
                let wanted = String::from_str(title);
                !(b.name == wanted)
            },
        }
    }

    /// Runs one raw sample through the tracker: updates the playback and
    /// timing state and reports the verdict with the position to display.
    pub fn infer(&mut self, raw_offset_ms: i64, duration_ms: u64, now_ms: u64) -> (r: Inference)
        ensures
            (final(self)@.playback, final(self)@.timing, r) == infer_step(
                old(self)@.playback,
                old(self)@.timing,
                raw_offset_ms,
                duration_ms,
                now_ms,
            ),
            final(self)@.book == old(self)@.book,
            r.position_ms <= duration_ms,
    {
        let at_raw = clamp_offset(raw_offset_ms, duration_ms);
        let report = match self.timing.last {
            None => {
                self.playback.is_playing = false;
                Inference { is_playing: false, position_ms: at_raw }
            },
            Some(prev) => {
                if raw_offset_ms != prev.offset_ms {
                    self.playback = PlaybackState { last_change_ms: now_ms, is_playing: true };
                    Inference { is_playing: true, position_ms: at_raw }
                } else if elapsed_ms(prev.at_ms, now_ms) >= QUIET_INTERVAL_MS {
                    self.playback.is_playing = false;
                    Inference { is_playing: false, position_ms: at_raw }
                } else if self.playback.is_playing {
                    let since_change = elapsed_ms(self.playback.last_change_ms, now_ms);
                    Inference {
                        is_playing: true,
                        position_ms: bridged_position(prev.offset_ms, since_change, duration_ms),
                    }
                } else {
                    Inference { is_playing: false, position_ms: at_raw }
                }
            },
        };
        self.timing = TimingInfo { last: Some(Sample { offset_ms: raw_offset_ms, at_ms: now_ms }) };
        report
    }

    /// Observes one session snapshot: a change of title resets the tracker
    /// onto the new book before the sample is run through `infer`.
    pub fn observe(&mut self, title: &str, raw_offset_ms: i64, duration_ms: u64, now_ms: u64) -> (r:
        Inference)
        ensures
            (final(self)@, r) == observe_step(old(self)@, title@, raw_offset_ms, duration_ms, now_ms),
            r.position_ms <= duration_ms,
    {
        if self.switches_to(title) {
            self.reset(title, now_ms);
        }
        self.infer(raw_offset_ms, duration_ms, now_ms)
    }
}

} // verus!
