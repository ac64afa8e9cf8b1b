//! What holds of every run of the update flow, whatever events arrive and in
//! whatever order.
//!
//! A run is the sequence of events that an attempt is told of, from its
//! beginning. The state before each event and the action that the event
//! brings about are functions of that sequence.

use crate::flow::{Action, Event, FlowState, Phase};
use vstd::prelude::*;

verus! {

/// The state of an attempt that has taken in the first `i` events of `events`.
pub open spec fn state_at(events: Seq<Event>, i: int) -> FlowState
    recommends
        0 <= i <= events.len(),
    decreases i,
{
    if i <= 0 {
        FlowState::initial()
    } else {
        state_at(events, i - 1).step(events[i - 1])
    }
}

/// The action that the event at index `i` of `events` brings about.
pub open spec fn action_at(events: Seq<Event>, i: int) -> Action
    recommends
        0 <= i < events.len(),
{
    state_at(events, i).action(events[i])
}

/// Whether `action` is one that changes the phase whenever it is asked for.
/// Reports of download progress are not, and neither is doing nothing.
pub open spec fn advances(action: Action) -> bool {
    action is CheckForUpdate || action is DownloadAndInstall || action is AskRestart
        || action is Restart || action is ReportError
}

/// An attempt never goes back: the rank of its phase does not fall.
pub proof fn lemma_rank_never_falls(events: Seq<Event>, i: int, j: int)
    requires
        0 <= i <= j <= events.len(),
    ensures
        state_at(events, i).phase.rank() <= state_at(events, j).phase.rank(),
    decreases j - i,
{
    if i < j {
        lemma_rank_never_falls(events, i, j - 1);
    }
}

/// Once an attempt is over, no event changes it and none brings about an
/// action.
pub proof fn lemma_over_stays_over(events: Seq<Event>, i: int, j: int)
    requires
        0 <= i <= j <= events.len(),
        state_at(events, i).phase.terminal(),
    ensures
        state_at(events, j) == state_at(events, i),
        j < events.len() ==> action_at(events, j) is Nothing,
    decreases j - i,
{
    if i < j {
        lemma_over_stays_over(events, i, j - 1);
    }
}

/// Before a download has begun, no byte has been counted and nothing is
/// known of the download's length.
pub proof fn lemma_nothing_counted_before_download(events: Seq<Event>, i: int)
    requires
        0 <= i <= events.len(),
        state_at(events, i).phase.rank() < Phase::Applying.rank(),
    ensures
        state_at(events, i).downloaded == 0,
        state_at(events, i).content_length is None,
    decreases i,
{
    if 0 < i {
        lemma_rank_never_falls(events, i - 1, i);
        lemma_nothing_counted_before_download(events, i - 1);
    }
}

/// Each action that changes the phase is asked for at most once in a run.
pub proof fn lemma_at_most_once(events: Seq<Event>, j: int, k: int)
    requires
        0 <= j < events.len(),
        0 <= k < events.len(),
        advances(action_at(events, j)),
        action_at(events, j) == action_at(events, k),
    ensures
        j == k,
{
    if j < k {
        lemma_rank_never_falls(events, j + 1, k);
    } else if k < j {
        lemma_rank_never_falls(events, k + 1, j);
    }
}

/// If the update source answers that nothing newer exists, the attempt is
/// over: no download is asked for, no question is put to the user and no
/// restart happens, before or after that answer.
pub proof fn lemma_no_update_no_action(events: Seq<Event>, i: int)
    requires
        0 <= i < events.len(),
        state_at(events, i).phase is Checking,
        events[i] is NoUpdate,
    ensures
        state_at(events, events.len() as int).phase is UpToDate,
        state_at(events, events.len() as int).downloaded == 0,
        forall|k: int|
            0 <= k < events.len() ==> {
                let action = #[trigger] action_at(events, k);
                action is Nothing || (action is CheckForUpdate && k < i)
            },
{
    lemma_over_stays_over(events, i + 1, events.len() as int);
    lemma_nothing_counted_before_download(events, i);
    assert forall|k: int| 0 <= k < events.len() implies {
        let action = #[trigger] action_at(events, k);
        action is Nothing || (action is CheckForUpdate && k < i)
    } by {
        if k < i {
            lemma_rank_never_falls(events, k, i);
            lemma_rank_never_falls(events, k + 1, i);
        } else if k > i {
            lemma_over_stays_over(events, i + 1, k);
        }
    }
}

/// While the user has been asked and has not answered, the attempt waits
/// for the answer.
pub proof fn lemma_waits_for_answer(events: Seq<Event>, i: int, k: int)
    requires
        0 <= i <= k <= events.len(),
        state_at(events, i).phase is Confirming,
        forall|m: int| i <= m < k ==> !(#[trigger] events[m] is Answered),
    ensures
        state_at(events, k).phase is Confirming,
    decreases k - i,
{
    if i < k {
        lemma_waits_for_answer(events, i, k - 1);
    }
}

/// If a newer version is downloaded and installed, the user is asked
/// whether to restart exactly once, at that moment. The application is
/// restarted if and only if the user confirms: the restart comes with the
/// first answer that follows the question, and only if that answer is yes.
/// No failure is reported in such a run.
pub proof fn lemma_installed_asks_once(events: Seq<Event>, i: int)
    requires
        0 <= i < events.len(),
        state_at(events, i).phase is Applying,
        events[i] is Installed,
    ensures
        forall|k: int|
            0 <= k < events.len() ==> (#[trigger] action_at(events, k) is AskRestart <==> k == i),
        forall|k: int|
            0 <= k < events.len() ==> (#[trigger] action_at(events, k) is Restart <==> {
                &&& i < k
                &&& events[k] == (Event::Answered { restart: true })
                &&& forall|m: int| i < m < k ==> !(#[trigger] events[m] is Answered)
            }),
        forall|k: int|
            0 <= k < events.len() ==> !(#[trigger] action_at(events, k) is ReportError),
{
    assert forall|k: int| 0 <= k < events.len() implies (#[trigger] action_at(events, k)
        is AskRestart <==> k == i) by {
        if action_at(events, k) is AskRestart {
            lemma_at_most_once(events, k, i);
        }
    }
    assert forall|k: int| 0 <= k < events.len() implies (#[trigger] action_at(events, k)
        is Restart <==> {
        &&& i < k
        &&& events[k] == (Event::Answered { restart: true })
        &&& forall|m: int| i < m < k ==> !(#[trigger] events[m] is Answered)
    }) by {
        if action_at(events, k) is Restart {
            if k <= i {
                lemma_rank_never_falls(events, k + 1, i);
            }
            assert forall|m: int| i < m < k implies !(#[trigger] events[m] is Answered) by {
                lemma_rank_never_falls(events, i + 1, m);
                lemma_rank_never_falls(events, m, k);
                lemma_rank_never_falls(events, m + 1, k);
            }
        } else if i < k && forall|m: int| i < m < k ==> !(#[trigger] events[m] is Answered) {
            lemma_waits_for_answer(events, i + 1, k);
        }
    }
    assert forall|k: int| 0 <= k < events.len() implies !(#[trigger] action_at(events, k)
        is ReportError) by {
        if k < i {
            lemma_rank_never_falls(events, k + 1, i);
        } else if k > i {
            lemma_rank_never_falls(events, i + 1, k);
        }
    }
}

/// The answer that the attempt waits for decides: it brings about a restart
/// exactly when it is a yes, no other event of the run does, and the attempt
/// is over with it.
pub proof fn lemma_restart_iff_confirmed(events: Seq<Event>, i: int)
    requires
        0 <= i < events.len(),
        state_at(events, i).phase is Confirming,
        events[i] is Answered,
    ensures
        forall|k: int|
            0 <= k < events.len() ==> (#[trigger] action_at(events, k) is Restart <==> k == i
                && events[i]->restart),
        state_at(events, events.len() as int).phase == if events[i]->restart {
            Phase::Restarting
        } else {
            Phase::Declined
        },
{
    lemma_over_stays_over(events, i + 1, events.len() as int);
    assert forall|k: int| 0 <= k < events.len() implies (#[trigger] action_at(events, k)
        is Restart <==> k == i && events[i]->restart) by {
        if k < i {
            lemma_rank_never_falls(events, k + 1, i);
        } else if k > i {
            lemma_over_stays_over(events, i + 1, k);
        }
    }
}

/// Without a yes from the user there is no restart: a restart is only ever
/// brought about by the answer yes to the question that was asked.
pub proof fn lemma_restart_needs_yes(events: Seq<Event>, k: int)
    requires
        0 <= k < events.len(),
        action_at(events, k) is Restart,
    ensures
        state_at(events, k).phase is Confirming,
        events[k] == (Event::Answered { restart: true }),
{
}

/// If checking, downloading or installing fails, the attempt is over and the
/// application keeps running: the failure is reported exactly once, the user
/// is never asked and no restart happens.
pub proof fn lemma_failure_reported_once(events: Seq<Event>, i: int)
    requires
        0 <= i < events.len(),
        state_at(events, i).phase is Checking || state_at(events, i).phase is Applying,
        events[i] is Failed,
    ensures
        state_at(events, events.len() as int).phase is Failed,
        forall|k: int|
            0 <= k < events.len() ==> (#[trigger] action_at(events, k) is ReportError <==> k == i),
        forall|k: int|
            0 <= k < events.len() ==> {
                let action = #[trigger] action_at(events, k);
                !(action is AskRestart) && !(action is Restart)
            },
{
    lemma_over_stays_over(events, i + 1, events.len() as int);
    assert forall|k: int| 0 <= k < events.len() implies {
        let action = #[trigger] action_at(events, k);
        &&& action is ReportError <==> k == i
        &&& !(action is AskRestart)
        &&& !(action is Restart)
    } by {
        if k < i {
            lemma_rank_never_falls(events, k + 1, i);
        } else if k > i {
            lemma_over_stays_over(events, i + 1, k);
        }
    }
}

/// The number of bytes downloaded never falls.
pub proof fn lemma_downloaded_never_falls(events: Seq<Event>, i: int, j: int)
    requires
        0 <= i <= j <= events.len(),
    ensures
        state_at(events, i).downloaded <= state_at(events, j).downloaded,
    decreases j - i,
{
    if i < j {
        lemma_downloaded_never_falls(events, i, j - 1);
    }
}

/// The bytes of the chunks among the events from index `from` up to, and
/// without, index `to`.
pub open spec fn chunk_bytes(events: Seq<Event>, from: int, to: int) -> nat
    recommends
        0 <= from <= to <= events.len(),
    decreases to - from,
{
    if to <= from {
        0
    } else {
        let rest = chunk_bytes(events, from, to - 1);
        match events[to - 1] {
            Event::Chunk { length, .. } => rest + length as nat,
            _ => rest,
        }
    }
}

/// While a download is under way, the byte count is the sum of the chunks
/// that have arrived since it began.
pub proof fn lemma_downloaded_is_sum_of_chunks(events: Seq<Event>, i: int, j: int)
    requires
        0 <= i < j <= events.len(),
        state_at(events, i).phase is Checking,
        events[i] is UpdateFound,
        state_at(events, j).phase is Applying,
    ensures
        state_at(events, j).downloaded == chunk_bytes(events, i + 1, j),
    decreases j - i,
{
    if i + 1 == j {
        lemma_nothing_counted_before_download(events, i);
    } else {
        lemma_rank_never_falls(events, i + 1, j - 1);
        lemma_rank_never_falls(events, j - 1, j);
        lemma_downloaded_is_sum_of_chunks(events, i, j - 1);
    }
}

/// Once the download is behind it, an attempt counts no more bytes.
pub proof fn lemma_count_settles(events: Seq<Event>, i: int, j: int)
    requires
        0 <= i <= j <= events.len(),
        state_at(events, i).phase.rank() > Phase::Applying.rank(),
    ensures
        state_at(events, j).downloaded == state_at(events, i).downloaded,
        state_at(events, j).content_length == state_at(events, i).content_length,
    decreases j - i,
{
    if i < j {
        lemma_rank_never_falls(events, i, j - 1);
        lemma_count_settles(events, i, j - 1);
    }
}

/// The byte count that a progress report shows: the count once the chunk at
/// index `i` is taken in.
pub open spec fn reported_at(events: Seq<Event>, i: int) -> nat
    recommends
        0 <= i < events.len(),
{
    state_at(events, i + 1).downloaded
}

/// Of two progress reports in a run, the later never shows fewer bytes than
/// the earlier.
pub proof fn lemma_progress_never_falls(events: Seq<Event>, j: int, k: int)
    requires
        0 <= j <= k < events.len(),
        action_at(events, j) is ReportProgress,
        action_at(events, k) is ReportProgress,
    ensures
        reported_at(events, j) <= reported_at(events, k),
{
    lemma_downloaded_never_falls(events, j + 1, k + 1);
}

} // verus!
