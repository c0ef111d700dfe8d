//! The per-endpoint scrape loop as a state machine, and the shutdown rule
//! with its deadline.

use vstd::prelude::*;

verus! {

/// Where one endpoint's scrape loop stands.
#[derive(Debug, Clone, Copy, PartialEq, Eq)]
pub enum ScrapePhase {
    Idle,
    Requesting,
    Emitting,
    Stopped,
}

/// What the scrape loop observed.
#[derive(Debug, Clone, Copy, PartialEq, Eq)]
pub enum ScrapeEvent {
    /// The endpoint's interval timer fired.
    Tick,
    /// The request returned a success status with a body.
    ResponseOk,
    /// The request failed: transport error or a non-success status.
    ResponseFailed,
    /// The decoded events were accepted downstream.
    Emitted,
    /// Shutdown was signalled.
    Shutdown,
}

/// What the scrape loop does next.
#[derive(Debug, Clone, Copy, PartialEq, Eq)]
pub enum ScrapeAction {
    Nothing,
    /// Send the request.
    Request,
    /// Decode and enrich the body, and send the events downstream.
    DecodeAndEmit,
    /// Release everything and end.
    Stop,
}

/// The next phase and action of a scrape loop.
pub open spec fn scrape_next(p: ScrapePhase, e: ScrapeEvent) -> (ScrapePhase, ScrapeAction) {
    match p {
        ScrapePhase::Stopped => (ScrapePhase::Stopped, ScrapeAction::Nothing),
        _ => match e {
            ScrapeEvent::Shutdown => (ScrapePhase::Stopped, ScrapeAction::Stop),
            ScrapeEvent::Tick => match p {
                ScrapePhase::Idle => (ScrapePhase::Requesting, ScrapeAction::Request),
                _ => (p, ScrapeAction::Nothing),
            },
            ScrapeEvent::ResponseOk => match p {
                ScrapePhase::Requesting => (ScrapePhase::Emitting, ScrapeAction::DecodeAndEmit),
                _ => (p, ScrapeAction::Nothing),
            },
            ScrapeEvent::ResponseFailed => match p {
                ScrapePhase::Requesting => (ScrapePhase::Idle, ScrapeAction::Nothing),
                _ => (p, ScrapeAction::Nothing),
            },
            ScrapeEvent::Emitted => match p {
                ScrapePhase::Emitting => (ScrapePhase::Idle, ScrapeAction::Nothing),
                _ => (p, ScrapeAction::Nothing),
            },
        },
    }
}

/// One step of a scrape loop.
pub fn scrape_step(p: &ScrapePhase, e: &ScrapeEvent) -> (r: (ScrapePhase, ScrapeAction))
    ensures
        r == scrape_next(*p, *e),
{
    match p {
        ScrapePhase::Stopped => (ScrapePhase::Stopped, ScrapeAction::Nothing),
        _ => {
            let same = match p {
                ScrapePhase::Idle => ScrapePhase::Idle,
                ScrapePhase::Requesting => ScrapePhase::Requesting,
                ScrapePhase::Emitting => ScrapePhase::Emitting,
                ScrapePhase::Stopped => ScrapePhase::Stopped,
            };
            match e {
                ScrapeEvent::Shutdown => (ScrapePhase::Stopped, ScrapeAction::Stop),
                ScrapeEvent::Tick => match p {
                    ScrapePhase::Idle => (ScrapePhase::Requesting, ScrapeAction::Request),
                    _ => (same, ScrapeAction::Nothing),
                },
                ScrapeEvent::ResponseOk => match p {
                    ScrapePhase::Requesting => (ScrapePhase::Emitting, ScrapeAction::DecodeAndEmit),
                    _ => (same, ScrapeAction::Nothing),
                },
                ScrapeEvent::ResponseFailed => match p {
                    ScrapePhase::Requesting => (ScrapePhase::Idle, ScrapeAction::Nothing),
                    _ => (same, ScrapeAction::Nothing),
                },
                ScrapeEvent::Emitted => match p {
                    ScrapePhase::Emitting => (ScrapePhase::Idle, ScrapeAction::Nothing),
                    _ => (same, ScrapeAction::Nothing),
                },
            }
        },
    }
}

/// The phase after a run of events, and the actions taken on the way.
pub open spec fn scrape_run(p: ScrapePhase, es: Seq<ScrapeEvent>) -> (ScrapePhase, Seq<ScrapeAction>)
    decreases es.len(),
{
    if es.len() == 0 {
        (p, seq![])
    } else {
        let (q, a) = scrape_next(p, es[0]);
        let (r, rest) = scrape_run(q, es.drop_first());
        (r, seq![a] + rest)
    }
}

/// Once shutdown is signalled the loop is stopped, whatever it was doing,
/// and whatever comes after it neither requests nor emits anything; a
/// shutdown whose component ends by the deadline counts as completed.
pub proof fn lemma_stopped_after_shutdown(p: ScrapePhase, after: Seq<ScrapeEvent>)
    ensures
        scrape_next(p, ScrapeEvent::Shutdown).0 == ScrapePhase::Stopped,
        scrape_run(ScrapePhase::Stopped, after).0 == ScrapePhase::Stopped,
        scrape_run(ScrapePhase::Stopped, after).1.len() == after.len(),
        forall|deadline: u64, now: u64, t: u64|
            t <= deadline ==> #[trigger] shutdown_state(deadline, now, Some(t)) == ShutdownOutcome::Completed,
        forall|i: int| 0 <= i < after.len() ==> #[trigger] scrape_run(ScrapePhase::Stopped, after).1[i]
            == ScrapeAction::Nothing,
    decreases after.len(),
{
    if after.len() > 0 {
        lemma_stopped_after_shutdown(p, after.drop_first());
        let rest = scrape_run(ScrapePhase::Stopped, after.drop_first()).1;
        assert(scrape_run(ScrapePhase::Stopped, after).1 == seq![ScrapeAction::Nothing] + rest);
        assert forall|i: int| 0 <= i < after.len() implies #[trigger] scrape_run(ScrapePhase::Stopped, after).1[i]
            == ScrapeAction::Nothing by {
            if i > 0 {
                assert((seq![ScrapeAction::Nothing] + rest)[i] == rest[i - 1]);
            }
        }
    }
}

/// How a shutdown request stands.
#[derive(Debug, Clone, Copy, PartialEq, Eq)]
pub enum ShutdownOutcome {
    /// The component has not finished and the deadline has not passed.
    Pending,
    /// The component finished by the deadline.
    Completed,
    /// The deadline passed first; the component is not forced to stop.
    TimedOut,
}

/// How a shutdown with `deadline` stands at time `now`, given when the
/// component finished, if it has.
pub open spec fn shutdown_state(deadline: u64, now: u64, finished_at: Option<u64>) -> ShutdownOutcome {
    match finished_at {
        Some(t) => if t <= deadline {
            ShutdownOutcome::Completed
        } else {
            ShutdownOutcome::TimedOut
        },
        None => if now > deadline {
            ShutdownOutcome::TimedOut
        } else {
            ShutdownOutcome::Pending
        },
    }
}

pub fn shutdown_outcome(deadline: u64, now: u64, finished_at: Option<u64>) -> (r: ShutdownOutcome)
    ensures
        r == shutdown_state(deadline, now, finished_at),
{
    match finished_at {
        Some(t) => if t <= deadline {
            ShutdownOutcome::Completed
        } else {
            ShutdownOutcome::TimedOut
        },
        None => if now > deadline {
            ShutdownOutcome::TimedOut
        } else {
            ShutdownOutcome::Pending
        },
    }
}

} // verus!
