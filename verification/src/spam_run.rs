//! A spam run that a session has started.
use crate::handles::{cancelled_through, ever_cancelled, token_is_cancelled};
use crate::params::{RunOpts, SpammerType};
use crate::session::Host;
use tokio::sync::watch;
use tokio_util::sync::CancellationToken;
use vstd::prelude::*;

verus! {

/// Everything that a run needs once the server has let it start.
pub struct SpamRun<H: Host> {
    /// The session's load generator, which the run gives back at its end.
    pub contender: H::Contender,
    /// Tells the run to stop.
    pub cancel: CancellationToken,
    pub opts: RunOpts,
    pub spammer: SpammerType,
    /// Whether the run starts over until it is stopped.
    pub run_forever: bool,
    /// Whether receipts are collected.
    pub save_receipts: bool,
    /// The live priority ratio, in a priority-ratio run.
    pub priority: Option<watch::Receiver<u8>>,
    /// What the caller is told.
    pub reply: String,
}

/// The period of a timed run, in seconds.
pub const SPAM_PERIOD_SECS: u64 = 1;

/// How one round of a run spams.
#[derive(Clone, Copy, Debug, PartialEq, Eq, Structural)]
pub enum RunKind {
    /// Two pools blended by the live priority ratio, timed.
    PriorityRatio { period_secs: u64 },
    /// One batch per period.
    Timed { period_secs: u64 },
    /// One batch per block.
    Blockwise,
}

/// What follows a round.
#[derive(Clone, Copy, Debug, PartialEq, Eq, Structural)]
pub enum LoopStep {
    /// The run ends with the outcome of the round.
    Finish,
    /// The funding task is told to check balances, and the next round starts.
    Restart,
}

/// How a run spams: with a live ratio it is a timed blend, whatever spammer was
/// asked for.
pub open spec fn run_kind(priority: bool, spammer: SpammerType) -> RunKind {
    if priority {
        RunKind::PriorityRatio { period_secs: SPAM_PERIOD_SECS }
    } else {
        match spammer {
            SpammerType::Timed => RunKind::Timed { period_secs: SPAM_PERIOD_SECS },
            SpammerType::Blockwise => RunKind::Blockwise,
        }
    }
}

/// What follows a round: only a run that goes on forever starts over, and only
/// if the round did not fail and the run was not cancelled.
pub open spec fn next_step(run_forever: bool, failed: bool, cancelled: bool) -> LoopStep {
    if run_forever && !failed && !cancelled {
        LoopStep::Restart
    } else {
        LoopStep::Finish
    }
}

/// A run that was not asked to go on forever has one round; one that was goes on
/// until a round fails or the run is cancelled.
pub proof fn rounds_of_a_run(failed: bool, cancelled: bool)
    ensures
        next_step(false, failed, cancelled) == LoopStep::Finish,
        next_step(true, failed, cancelled) == LoopStep::Finish <==> failed || cancelled,
{
}

/// Decides what follows a round.
pub fn loop_step(run_forever: bool, failed: bool, cancelled: bool) -> (step: LoopStep)
    ensures
        step == next_step(run_forever, failed, cancelled),
{
    if !run_forever || failed || cancelled {
        LoopStep::Finish
    } else {
        LoopStep::Restart
    }
}

impl<H: Host> SpamRun<H> {
    /// Returns how the next round spams.
    pub fn kind(&self) -> (kind: RunKind)
        ensures
            kind == run_kind(self.priority is Some, self.spammer),
            self.priority is Some ==> kind == (RunKind::PriorityRatio { period_secs: 1 }),
            self.priority is None && self.spammer == SpammerType::Timed ==> kind == (
            RunKind::Timed { period_secs: 1 }),
            self.priority is None && self.spammer == SpammerType::Blockwise ==> kind
                == RunKind::Blockwise,
    {
        if self.priority.is_some() {
            RunKind::PriorityRatio { period_secs: SPAM_PERIOD_SECS }
        } else {
            match self.spammer {
                SpammerType::Timed => RunKind::Timed { period_secs: SPAM_PERIOD_SECS },
                SpammerType::Blockwise => RunKind::Blockwise,
            }
        }
    }

    /// Decides what follows a round, and asks the stop signal.
    pub fn after_round(&self, failed: bool) -> (step: LoopStep)
        ensures
            exists|cancelled: bool|
                {
                    &&& cancelled_through(self.cancel) ==> cancelled
                    &&& cancelled ==> ever_cancelled(self.cancel)
                    &&& step == #[trigger] next_step(self.run_forever, failed, cancelled)
                },
            !self.run_forever ==> step == LoopStep::Finish,
            failed ==> step == LoopStep::Finish,
            cancelled_through(self.cancel) ==> step == LoopStep::Finish,
            self.run_forever && !failed && !ever_cancelled(self.cancel) ==> step
                == LoopStep::Restart,
    {
        let cancelled = token_is_cancelled(&self.cancel);
        loop_step(self.run_forever, failed, cancelled)
    }
}

/// Picks the text with which a panic is reported: the panic's own, if it is
/// text.
pub fn panic_message(borrowed: Option<&str>, owned: Option<&String>) -> (text: String)
    ensures
        text@ == match (borrowed, owned) {
            (Some(s), _) => s@,
            (None, Some(s)) => s@,
            (None, None) => "unknown panic"@,
        },
{
    match borrowed {
        Some(s) => s.to_owned(),
        None => match owned {
            Some(s) => s.clone(),
            None => "unknown panic".to_owned(),
        },
    }
}

/// A run that holds a live ratio always blends the two pools, once per second,
/// whichever spammer was asked for; a run without one goes by its spammer, and a
/// timed one sends once per second.
pub proof fn live_ratio_decides_the_kind(spammer: SpammerType)
    ensures
        run_kind(true, spammer) == (RunKind::PriorityRatio { period_secs: 1 }),
        spammer == SpammerType::Timed ==> run_kind(false, spammer) == (RunKind::Timed {
            period_secs: 1,
        }),
        spammer == SpammerType::Blockwise ==> run_kind(false, spammer) == RunKind::Blockwise,
{
}

} // verus!
