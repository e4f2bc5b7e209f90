//! Poll loop: what to do between ticks, and when to reconnect the sink.

use vstd::prelude::*;

verus! {

/// Seconds from one tick to the next.
pub const POLL_INTERVAL_SECS: u64 = 15;

/// Seconds to wait before a new sink handle is opened.
pub const RECONNECT_BACKOFF_SECS: u64 = 5;

/// Operating-system error code for a write to a pipe with no reader.
pub const BROKEN_PIPE_CODE: i32 = 32;

/// Operating-system error code for a pipe that is being closed.
pub const PIPE_CLOSING_CODE: i32 = 232;

/// What is known of an I/O error.
#[derive(Clone, Copy, Debug, PartialEq, Eq)]
pub struct IoFailure {
    /// Its kind is "broken pipe".
    pub broken_pipe: bool,
    /// The operating system's code for it, if it has one.
    pub os_code: Option<i32>,
}

/// One error in a chain of causes; `io` is set when it is an I/O error.
#[derive(Clone, Copy, Debug, PartialEq, Eq)]
pub struct ErrorLink {
    pub io: Option<IoFailure>,
}

/// The two states of the loop.
#[derive(Clone, Copy, Debug, PartialEq, Eq)]
pub enum SinkState {
    Connected,
    Reconnecting,
}

/// What the loop does before the next tick.
#[derive(Clone, Copy, Debug, PartialEq, Eq)]
pub enum LoopAction {
    /// Wait for the next tick.
    Wait { secs: u64 },
    /// Close the sink handle, wait `backoff_secs`, open a new one and report
    /// to `after_reconnect`.
    Reconnect { backoff_secs: u64 },
}

/// An error that says the sink's connection is broken.
pub open spec fn link_is_broken_connection(link: ErrorLink) -> bool {
    link.io matches Some(io) && (io.broken_pipe || io.os_code == Some(PIPE_CLOSING_CODE)
        || io.os_code == Some(BROKEN_PIPE_CODE))
}

/// Some error of the chain says the sink's connection is broken.
pub open spec fn chain_is_broken_connection(chain: Seq<ErrorLink>) -> bool {
    exists|i: int| 0 <= i < chain.len() && link_is_broken_connection(#[trigger] chain[i])
}

/// After a tick. `failure` is `None` when the tick went through, else the
/// error with its chain of causes.
///
/// * No error: wait for the next tick.
/// * A broken connection, or any error while reconnecting: reconnect.
/// * Any other error: wait for the next tick; nothing is retried within the
///   tick.
pub open spec fn after_tick_of(state: SinkState, failure: Option<Seq<ErrorLink>>) -> (
    SinkState,
    LoopAction,
) {
    match failure {
        None => (state, LoopAction::Wait { secs: POLL_INTERVAL_SECS }),
        Some(chain) => if state is Reconnecting || chain_is_broken_connection(chain) {
            (SinkState::Reconnecting, LoopAction::Reconnect { backoff_secs: RECONNECT_BACKOFF_SECS })
        } else {
            (state, LoopAction::Wait { secs: POLL_INTERVAL_SECS })
        },
    }
}

/// After an attempt to reconnect: connected again when it succeeded, still
/// reconnecting when it did not; either way the next tick comes after the
/// usual wait.
pub open spec fn after_reconnect_of(connected: bool) -> (SinkState, LoopAction) {
    (
        if connected {
            SinkState::Connected
        } else {
            SinkState::Reconnecting
        },
        LoopAction::Wait { secs: POLL_INTERVAL_SECS },
    )
}

/// View of an optional error chain.
pub open spec fn opt_chain(failure: Option<&Vec<ErrorLink>>) -> Option<Seq<ErrorLink>> {
    match failure {
        Some(chain) => Some(chain@),
        None => None,
    }
}

/// Whether one error says the sink's connection is broken.
pub fn is_broken_connection(link: &ErrorLink) -> (b: bool)
    ensures
        b == link_is_broken_connection(*link),
{
    match link.io {
        Some(io) => io.broken_pipe || match io.os_code {
            Some(code) => code == PIPE_CLOSING_CODE || code == BROKEN_PIPE_CODE,
            None => false,
        },
        None => false,
    }
}

/// Whether an error, or one of its causes, says the sink's connection is
/// broken.
pub fn is_pipe_error(chain: &Vec<ErrorLink>) -> (b: bool)
    ensures
        b == chain_is_broken_connection(chain@),
{
    let mut i: usize = 0;
    while i < chain.len()
        invariant
            i <= chain@.len(),
            forall|j: int| 0 <= j < i ==> !link_is_broken_connection(#[trigger] chain@[j]),
        decreases chain@.len() - i,
    {
        if is_broken_connection(&chain[i]) {
            return true;
        }
        i += 1;
    }
    false
}

/// Decides what the loop does after a tick.
pub fn after_tick(state: SinkState, failure: Option<&Vec<ErrorLink>>) -> (r: (SinkState, LoopAction))
    ensures
        r == after_tick_of(state, opt_chain(failure)),
{
    match failure {
        None => (state, LoopAction::Wait { secs: POLL_INTERVAL_SECS }),
        Some(chain) => {
            let reconnecting = match state {
                SinkState::Reconnecting => true,
                SinkState::Connected => false,
            };
            if reconnecting || is_pipe_error(chain) {
                (
                    SinkState::Reconnecting,
                    LoopAction::Reconnect { backoff_secs: RECONNECT_BACKOFF_SECS },
                )
            } else {
                (state, LoopAction::Wait { secs: POLL_INTERVAL_SECS })
            }
        },
    }
}

/// Decides what the loop does after an attempt to reconnect.
pub fn after_reconnect(connected: bool) -> (r: (SinkState, LoopAction))
    ensures
        r == after_reconnect_of(connected),
{
    let state = if connected {
        SinkState::Connected
    } else {
        SinkState::Reconnecting
    };
    (state, LoopAction::Wait { secs: POLL_INTERVAL_SECS })
}

/// Whatever a tick came to, the loop goes on: every failure leads to a wait
/// or to a reconnect, after which the next tick follows.
pub proof fn lemma_loop_never_stops(state: SinkState, failure: Option<Seq<ErrorLink>>)
    ensures
        after_tick_of(state, failure).1 == (LoopAction::Wait { secs: POLL_INTERVAL_SECS })
            || after_tick_of(state, failure).1 == (LoopAction::Reconnect {
            backoff_secs: RECONNECT_BACKOFF_SECS,
        }),
        after_tick_of(state, failure).1 is Reconnect ==> after_tick_of(state, failure).0 is Reconnecting,
{
}

} // verus!
