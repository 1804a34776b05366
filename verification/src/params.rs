//! The parameters of the server's methods.
use crate::agents::AgentClass;
use crate::amount::Amount;
use vstd::prelude::*;

verus! {

/// Which spammer a run uses.
#[derive(Clone, Copy, Debug, PartialEq, Eq, Structural)]
pub enum SpammerType {
    /// One batch per period of a clock.
    Timed,
    /// One batch per block.
    Blockwise,
}

impl Default for SpammerType {
    fn default() -> (spammer: Self)
        ensures
            spammer == SpammerType::Timed,
    {
        SpammerType::Timed
    }
}

/// How much a run sends.
#[derive(Clone, Copy, Debug)]
pub struct RunOpts {
    pub txs_per_period: Option<u64>,
    pub duration: Option<u64>,
}

/// A request to spam with a session.
#[derive(Clone, Copy, Debug)]
pub struct SpamParams {
    pub session_id: usize,
    pub txs_per_period: Option<u64>,
    pub duration: Option<u64>,
    pub spammer: Option<SpammerType>,
    pub save_receipts: Option<bool>,
    pub run_forever: Option<bool>,
    pub priority_pct: Option<u8>,
}

impl SpamParams {
    /// Whether the run starts over until it is stopped.
    pub open spec fn forever(self) -> bool {
        self.run_forever == Some(true)
    }

    /// The part that says how much to send.
    pub fn as_run_opts(&self) -> (opts: RunOpts)
        ensures
            opts.txs_per_period == self.txs_per_period,
            opts.duration == self.duration,
    {
        RunOpts { txs_per_period: self.txs_per_period, duration: self.duration }
    }
}

/// A request to change the priority ratio of a running session.
#[derive(Clone, Copy, Debug)]
pub struct SetMixParams {
    pub session_id: usize,
    pub priority_pct: u8,
}

/// A request to fund the accounts of a session.
#[derive(Clone, Copy, Debug)]
pub struct FundAccountsParams {
    pub session_id: usize,
    pub amount: Amount,
    pub agent_class: Option<AgentClass>,
}

/// A request to add a session.
pub struct AddSessionParams {
    pub name: String,
    pub rpc_url: String,
    pub seed: Option<String>,
}

/// What the server tells about itself.
#[derive(Clone, Copy, Debug, PartialEq, Eq, Structural)]
pub struct ServerStatus {
    pub num_sessions: usize,
}

} // verus!
