//! How the server answers requests about its sessions.
use crate::agents::{pool_models, pools_of, AgentClass, AgentPool, AgentStore, PoolModel};
use crate::amount::Amount;
use crate::error::{reply, ContenderRpcError, ErrorModel};
use crate::handles::{
    cancel_token, cancelled_through, clone_token, ever_cancelled, feeds, held_pct, new_token,
    ratio_channel, replace_pct, same_token, sent_pct,
};
use crate::params::{
    AddSessionParams, FundAccountsParams, ServerStatus, SetMixParams, SpamParams, SpammerType,
};
use crate::session::{
    ContenderSession, ContenderSessionCache, ContenderSessionInfo, Host, InfoModel, SessionModel,
    SessionStatus, StatusModel,
};
use crate::spam_run::SpamRun;
use crate::text::{big_endian, decimal, joined, numbered, word_bytes};
use tokio::sync::watch;
use tokio_util::sync::CancellationToken;
use vstd::prelude::*;

verus! {

/// The sessions of a server, by number.
pub type Sessions<H> = Map<usize, SessionModel<H>>;

/// The server's sessions and the answers to requests about them.
pub struct ContenderServer<H: Host> {
    pub sessions: ContenderSessionCache<H>,
}

impl<H: Host> View for ContenderServer<H> {
    type V = Sessions<H>;

    open spec fn view(&self) -> Sessions<H> {
        self.sessions@
    }
}

/// Why a session cannot start a run, if it cannot.
pub open spec fn not_ready(info: InfoModel) -> Option<ErrorModel> {
    match info.status {
        StatusModel::Failed(text) => Some(ErrorModel::SessionFailed { info, error: text }),
        StatusModel::Spamming(_) => Some(ErrorModel::SessionBusy(info)),
        StatusModel::Ready => None,
        StatusModel::Initializing => Some(ErrorModel::SessionNotInitialized(info)),
    }
}

/// Checks whether a session is ready to spam, returning an appropriate error if
/// it is not.
pub fn error_if_session_not_ready(info: &ContenderSessionInfo) -> (result: Result<
    (),
    ContenderRpcError,
>)
    ensures
        match result {
            Ok(()) => not_ready(info@) is None,
            Err(e) => not_ready(info@) == Some(e@),
        },
{
    match &info.status {
        SessionStatus::Failed(text) => Err(
            ContenderRpcError::SessionFailed { info: info.clone(), error: text.clone() },
        ),
        SessionStatus::Spamming(_) => Err(ContenderRpcError::SessionBusy(info.clone())),
        SessionStatus::Ready => Ok(()),
        SessionStatus::Initializing => Err(ContenderRpcError::SessionNotInitialized(info.clone())),
    }
}

impl<H: Host> ContenderServer<H> {
    /// Every session is sound, and numbers are given out once.
    pub open spec fn wf(&self) -> bool {
        self.sessions.wf()
    }

    pub fn new(sessions: ContenderSessionCache<H>) -> (server: Self)
        ensures
            server@ == sessions@,
            server.sessions == sessions,
    {
        Self { sessions }
    }

    /// Returns how many sessions there are.
    pub fn status(&self) -> (status: ServerStatus)
        requires
            self.wf(),
        ensures
            self@.dom().finite(),
            status.num_sessions == self@.dom().len(),
    {
        ServerStatus { num_sessions: self.sessions.num_sessions() }
    }

    /// Returns what is told about a session.
    pub fn get_session(&self, id: usize) -> (info: Option<ContenderSessionInfo>)
        requires
            self.wf(),
        ensures
            match info {
                Some(i) => self@.contains_key(id) && i@ == self@[id].info,
                None => !self@.contains_key(id),
            },
    {
        match self.sessions.get_session(id) {
            Some(session) => Some(session.info.clone()),
            None => None,
        }
    }

    /// Returns what is told about each session, in the order of their numbers.
    pub fn get_all_sessions(&self) -> (infos: Vec<ContenderSessionInfo>)
        requires
            self.wf(),
        ensures
            self@.dom().finite(),
            infos@.len() == self@.dom().len(),
            forall|i: int|
                0 <= i < infos@.len() ==> {
                    &&& self@.contains_key((#[trigger] infos@[i]).id)
                    &&& infos@[i]@ == self@[infos@[i].id].info
                },
            forall|i: int, j: int|
                0 <= i < j < infos@.len() ==> (#[trigger] infos@[i]).id < (#[trigger] infos@[j]).id,
    {
        self.sessions.all_sessions()
    }

    /// Removes a session, if it is there.
    pub fn remove_session(&mut self, id: usize)
        requires
            old(self).wf(),
        ensures
            final(self).wf(),
            final(self).sessions.next_id() == old(self).sessions.next_id(),
            final(self)@ == old(self)@.remove(id),
    {
        self.sessions.remove_session(id);
    }
}

/// The state of a session after a run has taken its load generator out.
pub open spec fn marked_spamming<H: Host>(
    before: SessionModel<H>,
    params: SpamParams,
    stop: CancellationToken,
) -> SessionModel<H> {
    SessionModel { contender: None, spam_cancel: Some(stop), ..before }.with_status(
        StatusModel::Spamming(params),
    )
}

/// Why the ratio of a run is refused, if it is: it has to be a percentage, and a
/// run with a ratio has to have an end, because its streams are generated
/// beforehand.
pub open spec fn bad_ratio(params: SpamParams) -> Option<ErrorModel> {
    match params.priority_pct {
        Some(pct) => if pct > 100 {
            Some(ErrorModel::InvalidArguments("priorityPct must be 0..=100"@))
        } else if params.forever() {
            Some(
                ErrorModel::InvalidArguments(
                    "priority-ratio runs require a fixed duration; --forever is not supported"@,
                ),
            )
        } else {
            None
        },
        None => None,
    }
}

/// Checks whether the ratio of a run makes sense, returning an appropriate error
/// if it does not.
fn error_if_bad_ratio(params: &SpamParams) -> (result: Result<(), ContenderRpcError>)
    ensures
        match result {
            Ok(()) => bad_ratio(*params) is None,
            Err(e) => bad_ratio(*params) == Some(e@),
        },
{
    match params.priority_pct {
        None => Ok(()),
        Some(pct) => {
            if pct > 100 {
                Err(ContenderRpcError::InvalidArguments("priorityPct must be 0..=100".to_owned()))
            } else if params.run_forever.unwrap_or(false) {
                Err(
                    ContenderRpcError::InvalidArguments(
                        "priority-ratio runs require a fixed duration; --forever is not supported".to_owned(),
                    ),
                )
            } else {
                Ok(())
            }
        },
    }
}

/// Why a session cannot spam, whatever the run, if it cannot.
pub open spec fn cannot_spam<H: Host>(sessions: Sessions<H>, id: usize) -> Option<ErrorModel> {
    if !sessions.contains_key(id) {
        Some(ErrorModel::SessionNotFound(id))
    } else {
        not_ready(sessions[id].info)
    }
}

/// Why a run is refused, if it is: because of its session, or else because of
/// its ratio.
pub open spec fn run_refused<H: Host>(
    sessions: Sessions<H>,
    params: SpamParams,
) -> Option<ErrorModel> {
    if cannot_spam(sessions, params.session_id) is Some {
        cannot_spam(sessions, params.session_id)
    } else {
        bad_ratio(params)
    }
}

impl<H: Host> ContenderServer<H> {
    /// Starts a run: marks the session, takes its load generator out so that the
    /// run does not hold the sessions, and sets up the live ratio if one was
    /// asked for. A run that is refused leaves everything as it was.
    pub fn spam(&mut self, params: SpamParams) -> (result: Result<SpamRun<H>, ContenderRpcError>)
        requires
            old(self).wf(),
        ensures
            final(self).wf(),
            final(self).sessions.next_id() == old(self).sessions.next_id(),
            ({
                let id = params.session_id;
                let refused = run_refused(old(self)@, params);
                let after = final(self)@[id];
                if refused is Some {
                    &&& result matches Err(e) && Some(e@) == refused
                    &&& final(self)@ == old(self)@
                } else {
                    &&& result matches Ok(run) && run_starts(old(self)@[id], params, run, after)
                    &&& after.spam_cancel matches Some(stop) && !cancelled_through(stop)
                    &&& final(self)@ == old(self)@.insert(
                        id,
                        SessionModel {
                            priority_pct: after.priority_pct,
                            ..marked_spamming(old(self)@[id], params, after.spam_cancel->0)
                        },
                    )
                }
            }),
    {
        let id = params.session_id;
        match self.sessions.get_session_mut(id) {
            None => Err(ContenderRpcError::SessionNotFound(id)),
            Some(session) => {
                assert(old(self)@.insert(id, session@) =~= old(self)@);
                match error_if_session_not_ready(&session.info) {
                    Err(e) => {
                        return Err(e);
                    },
                    Ok(()) => {},
                }
                match error_if_bad_ratio(&params) {
                    Err(e) => {
                        return Err(e);
                    },
                    Ok(()) => {},
                }
                match session.contender.take() {
                    // Never taken: a ready session has its load generator.
                    None => Err(ContenderRpcError::SessionNotFound(id)),
                    Some(contender) => {
                        let stop = new_token();
                        let cancel = clone_token(&stop);
                        session.info.status = SessionStatus::Spamming(params);
                        session.spam_cancel = Some(stop);
                        let priority = match params.priority_pct {
                            None => None,
                            Some(pct) => {
                                let (sender, receiver) = ratio_channel(pct);
                                session.priority_pct = Some(sender);
                                Some(receiver)
                            },
                        };
                        Ok(
                            SpamRun {
                                contender,
                                cancel,
                                opts: params.as_run_opts(),
                                spammer: params.spammer.unwrap_or_default(),
                                run_forever: params.run_forever.unwrap_or(false),
                                save_receipts: params.save_receipts.unwrap_or(false),
                                priority,
                                reply: numbered("Spamming session ", id as u64),
                            },
                        )
                    },
                }
            },
        }
    }
}

/// What a run is given, from the session `before` it, and what the session keeps
/// of it `after` it has started: the run stops on the session's stop signal, and
/// its live ratio is the one that the session can set.
pub open spec fn run_starts<H: Host>(
    before: SessionModel<H>,
    params: SpamParams,
    run: SpamRun<H>,
    after: SessionModel<H>,
) -> bool {
    &&& before.contender == Some(run.contender)
    &&& after.spam_cancel matches Some(stop) && same_token(stop, run.cancel)
    &&& !cancelled_through(run.cancel)
    &&& run.opts.txs_per_period == params.txs_per_period
    &&& run.opts.duration == params.duration
    &&& run.spammer == match params.spammer {
        Some(spammer) => spammer,
        None => SpammerType::Timed,
    }
    &&& run.run_forever == params.forever()
    &&& run.save_receipts == (params.save_receipts == Some(true))
    &&& run.reply@ == "Spamming session "@ + decimal(params.session_id as nat)
    &&& match params.priority_pct {
        Some(pct) => {
            &&& run.priority is Some
            &&& after.priority_pct is Some
            &&& sent_pct(after.priority_pct->0) == pct
            &&& feeds(after.priority_pct->0, run.priority->0)
            &&& held_pct(run.priority->0, pct)
        },
        None => run.priority is None && after.priority_pct == before.priority_pct,
    }
}

/// A session after a run has come to its end and given the load generator back.
pub open spec fn run_finished<H: Host>(
    before: SessionModel<H>,
    contender: H::Contender,
    outcome: Result<(), Seq<char>>,
) -> SessionModel<H> {
    SessionModel {
        contender: Some(contender),
        spam_cancel: None,
        priority_pct: None,
        ..before
    }.with_status(
        match outcome {
            Ok(()) => StatusModel::Ready,
            Err(e) => StatusModel::Failed("spam failed: "@ + e),
        },
    )
}

/// A session after a run has panicked; the load generator is lost with the run.
pub open spec fn run_panicked<H: Host>(
    before: SessionModel<H>,
    text: Seq<char>,
) -> SessionModel<H> {
    SessionModel { spam_cancel: None, priority_pct: None, ..before }.with_status(
        StatusModel::Failed("spam panicked: "@ + text),
    )
}

/// The sessions after `change` was made to one of them, if it is still there.
pub open spec fn changed<H: Host>(
    sessions: Sessions<H>,
    id: usize,
    change: SessionModel<H>,
) -> Sessions<H> {
    if sessions.contains_key(id) {
        sessions.insert(id, change)
    } else {
        sessions
    }
}

/// How a request to stop is answered.
pub open spec fn stop_reply<H: Host>(
    sessions: Sessions<H>,
    id: usize,
) -> Result<Seq<char>, ErrorModel> {
    if !sessions.contains_key(id) {
        Err(ErrorModel::SessionNotFound(id))
    } else if sessions[id].spam_cancel is None {
        Err(ErrorModel::SessionNotBusy(id))
    } else {
        Ok("Stopping session "@ + decimal(id as nat))
    }
}

/// A session after its run was told to stop: the stop signal is cancelled, for
/// all of its handles, and nothing else has changed.
pub open spec fn stop_sent<H: Host>(before: SessionModel<H>, after: SessionModel<H>) -> bool {
    &&& after.spam_cancel is Some
    &&& cancelled_through(after.spam_cancel->0)
    &&& forall|handle: CancellationToken|
        #![trigger same_token(after.spam_cancel->0, handle)]
        #![trigger same_token(before.spam_cancel->0, handle)]
        {
            &&& same_token(after.spam_cancel->0, handle) == same_token(
                before.spam_cancel->0,
                handle,
            )
            &&& same_token(after.spam_cancel->0, handle) ==> ever_cancelled(handle)
        }
    &&& after == SessionModel { spam_cancel: after.spam_cancel, ..before }
}

/// A session after the ratio of its run was set to `pct`: the channel of the
/// ratio holds `pct`, for all who read it, and nothing else has changed.
pub open spec fn ratio_set<H: Host>(
    before: SessionModel<H>,
    after: SessionModel<H>,
    pct: u8,
) -> bool {
    &&& after.priority_pct is Some
    &&& sent_pct(after.priority_pct->0) == pct
    &&& forall|receiver: watch::Receiver<u8>|
        #![trigger feeds(after.priority_pct->0, receiver)]
        #![trigger feeds(before.priority_pct->0, receiver)]
        {
            &&& feeds(after.priority_pct->0, receiver) == feeds(before.priority_pct->0, receiver)
            &&& feeds(after.priority_pct->0, receiver) ==> held_pct(receiver, pct)
        }
    &&& after == SessionModel { priority_pct: after.priority_pct, ..before }
}

/// How a request to set the ratio is answered.
pub open spec fn set_mix_reply<H: Host>(
    sessions: Sessions<H>,
    params: SetMixParams,
) -> Result<Seq<char>, ErrorModel> {
    if params.priority_pct > 100 {
        Err(ErrorModel::InvalidArguments("priorityPct must be 0..=100"@))
    } else if !sessions.contains_key(params.session_id) {
        Err(ErrorModel::SessionNotFound(params.session_id))
    } else if sessions[params.session_id].priority_pct is None {
        Err(ErrorModel::InvalidArguments("session is not running a priority-ratio spam"@))
    } else {
        Ok("priority_pct set to "@ + decimal(params.priority_pct as nat))
    }
}

impl<H: Host> ContenderServer<H> {
    /// Takes in that a run has ended, with its load generator and its outcome.
    /// Afterwards the ratio can no longer be set, and there is nothing to stop.
    pub fn spam_finished(
        &mut self,
        id: usize,
        contender: H::Contender,
        outcome: Result<(), String>,
    )
        requires
            old(self).wf(),
        ensures
            final(self).wf(),
            final(self).sessions.next_id() == old(self).sessions.next_id(),
            final(self)@ == changed(
                old(self)@,
                id,
                run_finished(
                    old(self)@[id],
                    contender,
                    match outcome {
                        Ok(()) => Ok(()),
                        Err(e) => Err(e@),
                    },
                ),
            ),
    {
        match self.sessions.get_session_mut(id) {
            Some(session) => {
                session.contender = Some(contender);
                session.spam_cancel = None;
                session.priority_pct = None;
                session.info.status = match outcome {
                    Ok(()) => SessionStatus::Ready,
                    Err(e) => SessionStatus::Failed(joined("spam failed: ", e.as_str())),
                };
            },
            None => {},
        }
    }

    /// Takes in that a run has panicked, so that the session always comes out of
    /// spamming.
    pub fn spam_panicked(&mut self, id: usize, text: &str)
        requires
            old(self).wf(),
        ensures
            final(self).wf(),
            final(self).sessions.next_id() == old(self).sessions.next_id(),
            final(self)@ == changed(old(self)@, id, run_panicked(old(self)@[id], text@)),
    {
        match self.sessions.get_session_mut(id) {
            Some(session) => {
                session.spam_cancel = None;
                session.priority_pct = None;
                session.info.status = SessionStatus::Failed(joined("spam panicked: ", text));
            },
            None => {},
        }
    }

    /// Tells the run of a session to stop.
    pub fn stop(&mut self, id: usize) -> (result: Result<String, ContenderRpcError>)
        requires
            old(self).wf(),
        ensures
            final(self).wf(),
            final(self).sessions.next_id() == old(self).sessions.next_id(),
            reply(result) == stop_reply(old(self)@, id),
            result is Err ==> final(self)@ == old(self)@,
            result is Ok ==> {
                &&& stop_sent(old(self)@[id], final(self)@[id])
                &&& final(self)@ == old(self)@.insert(id, final(self)@[id])
            },
    {
        match self.sessions.get_session_mut(id) {
            None => Err(ContenderRpcError::SessionNotFound(id)),
            Some(session) => {
                match &mut session.spam_cancel {
                    None => {
                        assert(old(self)@.insert(id, old(self)@[id]) =~= old(self)@);
                        Err(ContenderRpcError::SessionNotBusy(id))
                    },
                    Some(token) => {
                        cancel_token(token);
                        Ok(numbered("Stopping session ", id as u64))
                    },
                }
            },
        }
    }

    /// Sets the priority ratio of a session's run while it is running.
    pub fn set_mix(&mut self, params: SetMixParams) -> (result: Result<String, ContenderRpcError>)
        requires
            old(self).wf(),
        ensures
            final(self).wf(),
            final(self).sessions.next_id() == old(self).sessions.next_id(),
            reply(result) == set_mix_reply(old(self)@, params),
            result is Err ==> final(self)@ == old(self)@,
            result is Ok ==> {
                let id = params.session_id;
                &&& ratio_set(old(self)@[id], final(self)@[id], params.priority_pct)
                &&& final(self)@[id].priority_pct matches Some(sender) && sent_pct(sender)
                    == params.priority_pct
                &&& final(self)@ == old(self)@.insert(id, final(self)@[id])
            },
    {
        if params.priority_pct > 100 {
            return Err(
                ContenderRpcError::InvalidArguments("priorityPct must be 0..=100".to_owned()),
            );
        }
        let id = params.session_id;
        match self.sessions.get_session_mut(id) {
            None => Err(ContenderRpcError::SessionNotFound(id)),
            Some(session) => {
                match &mut session.priority_pct {
                    None => {
                        assert(old(self)@.insert(id, old(self)@[id]) =~= old(self)@);
                        Err(
                            ContenderRpcError::InvalidArguments(
                                "session is not running a priority-ratio spam".to_owned(),
                            ),
                        )
                    },
                    Some(sender) => {
                        replace_pct(sender, params.priority_pct);
                        Ok(numbered("priority_pct set to ", params.priority_pct as u64))
                    },
                }
            },
        }
    }
}

/// What it takes to fund the accounts of a session in the background of a run.
pub struct FundingData<'a, H: Host> {
    pub funder: &'a H::Signer,
    pub agent_store: &'a AgentStore,
    pub rpc_client: &'a H::Client,
    pub min_balance: Amount,
    /// Ends the funding together with the run.
    pub cancel: CancellationToken,
}

/// Whether a run of a session has its accounts funded in the background: the run
/// goes on until it is stopped, and everything that funding takes is known.
pub open spec fn funds_in_background<H: Host>(session: SessionModel<H>, run_forever: bool) -> bool {
    &&& run_forever
    &&& session.funder is Some
    &&& session.agent_store is Some
    &&& session.rpc_client is Some
    &&& session.min_balance is Some
}

/// What it takes to fund the pools of a class.
pub struct FundingOrder<'a, H: Host> {
    pub funder: &'a H::Signer,
    pub rpc_client: &'a H::Client,
    /// Every pool of the class.
    pub pools: Vec<AgentPool>,
    pub amount: Amount,
    /// What the caller is told.
    pub reply: String,
}

/// Why the accounts of a session cannot be funded, if they cannot: any
/// initialized session can be, also while it is spamming.
pub open spec fn cannot_fund<H: Host>(sessions: Sessions<H>, id: usize) -> Option<ErrorModel> {
    if !sessions.contains_key(id) {
        Some(ErrorModel::SessionNotFound(id))
    } else {
        let session = sessions[id];
        match session.info.status {
            StatusModel::Failed(text) => Some(
                ErrorModel::SessionFailed { info: session.info, error: text },
            ),
            StatusModel::Initializing => Some(ErrorModel::SessionNotInitialized(session.info)),
            _ => if session.funder is None || session.rpc_client is None
                || session.agent_store is None {
                Some(ErrorModel::SessionNotInitialized(session.info))
            } else {
                None
            },
        }
    }
}

/// The class of the pools that are to be funded.
pub open spec fn class_to_fund(params: FundAccountsParams) -> AgentClass {
    match params.agent_class {
        Some(class) => class,
        None => AgentClass::Spammer,
    }
}

impl<H: Host> ContenderServer<H> {
    /// Returns what it takes to fund a session's accounts in the background of
    /// `run`, if the run is to have that. A run without it goes on all the same.
    pub fn background_funding(&self, id: usize, run: &SpamRun<H>) -> (data: Option<
        FundingData<'_, H>,
    >)
        requires
            self.wf(),
        ensures
            data is Some <==> self@.contains_key(id) && funds_in_background(
                self@[id],
                run.run_forever,
            ),
            data matches Some(d) ==> {
                let session = self@[id];
                &&& session.funder == Some(*d.funder)
                &&& session.agent_store == Some(d.agent_store@)
                &&& session.rpc_client == Some(*d.rpc_client)
                &&& session.min_balance == Some(d.min_balance@)
                &&& same_token(run.cancel, d.cancel)
                &&& cancelled_through(d.cancel) == cancelled_through(run.cancel)
                &&& ever_cancelled(d.cancel) == ever_cancelled(run.cancel)
            },
    {
        if !run.run_forever {
            return None;
        }
        match self.sessions.get_session(id) {
            None => None,
            Some(session) => match (
                &session.funder,
                &session.agent_store,
                &session.rpc_client,
                &session.min_balance,
            ) {
                (Some(funder), Some(agent_store), Some(rpc_client), Some(min_balance)) => Some(
                    FundingData {
                        funder,
                        agent_store,
                        rpc_client,
                        min_balance: *min_balance,
                        cancel: clone_token(&run.cancel),
                    },
                ),
                _ => None,
            },
        }
    }

    /// Plans to fund every pool of the requested class, not just the first.
    pub fn fund_accounts(&self, params: FundAccountsParams) -> (result: Result<
        FundingOrder<'_, H>,
        ContenderRpcError,
    >)
        requires
            self.wf(),
        ensures
            match result {
                Ok(order) => {
                    let session = self@[params.session_id];
                    &&& cannot_fund(self@, params.session_id) is None
                    &&& session.funder == Some(*order.funder)
                    &&& session.rpc_client == Some(*order.rpc_client)
                    &&& pool_models(order.pools@) == pools_of(
                        session.agent_store->0,
                        class_to_fund(params),
                    )
                    &&& pool_models(order.pools@) == pools_of(
                        session.agent_store->0,
                        match params.agent_class {
                            Some(class) => class,
                            None => AgentClass::Spammer,
                        },
                    )
                    &&& order.amount@ == params.amount@
                    &&& order.reply@ == "Funding accounts for session "@ + decimal(
                        params.session_id as nat,
                    )
                },
                Err(e) => cannot_fund(self@, params.session_id) == Some(e@),
            },
    {
        let id = params.session_id;
        let session = match self.sessions.get_session(id) {
            None => {
                return Err(ContenderRpcError::SessionNotFound(id));
            },
            Some(session) => session,
        };
        match &session.info.status {
            SessionStatus::Failed(text) => {
                return Err(
                    ContenderRpcError::SessionFailed {
                        info: session.info.clone(),
                        error: text.clone(),
                    },
                );
            },
            SessionStatus::Initializing => {
                return Err(ContenderRpcError::SessionNotInitialized(session.info.clone()));
            },
            _ => {},
        }
        let class = params.agent_class.unwrap_or_default();
        match (&session.funder, &session.rpc_client, &session.agent_store) {
            (Some(funder), Some(rpc_client), Some(agent_store)) => Ok(
                FundingOrder {
                    funder,
                    rpc_client,
                    pools: agent_store.pools_of_class(class),
                    amount: params.amount,
                    reply: numbered("Funding accounts for session ", id as u64),
                },
            ),
            _ => Err(ContenderRpcError::SessionNotInitialized(session.info.clone())),
        }
    }

    /// Takes in that the accounts of a session could not be funded.
    pub fn funding_failed(&mut self, id: usize, error: &str)
        requires
            old(self).wf(),
        ensures
            final(self).wf(),
            final(self).sessions.next_id() == old(self).sessions.next_id(),
            final(self)@ == changed(
                old(self)@,
                id,
                old(self)@[id].with_status(
                    StatusModel::Failed("funding accounts failed: "@ + error@),
                ),
            ),
    {
        match self.sessions.get_session_mut(id) {
            Some(session) => {
                session.info.status = SessionStatus::Failed(
                    joined("funding accounts failed: ", error),
                );
            },
            None => {},
        }
    }
}

/// Where the seed of a session comes from.
pub enum SessionSeed {
    /// The text that the caller gave.
    Text(String),
    /// The bytes of the session's index.
    Bytes(Vec<u8>),
}

/// A session after its load generator was initialized.
pub open spec fn initialized<H: Host>(
    before: SessionModel<H>,
    contender: H::Contender,
) -> SessionModel<H> {
    if before.info.status is Initializing {
        SessionModel { contender: Some(contender), ..before }.with_status(StatusModel::Ready)
    } else {
        before
    }
}

impl<H: Host> ContenderServer<H> {
    /// Picks the seed of a session that is to be added. A seed from the caller is
    /// honored, so that pool addresses are predictable; otherwise the seed comes
    /// from the number of sessions.
    pub fn session_seed(&self, params: &AddSessionParams) -> (seed: SessionSeed)
        requires
            self.wf(),
        ensures
            match params.seed {
                Some(text) => seed matches SessionSeed::Text(t) && t@ == text@,
                None => {
                    &&& self@.dom().finite()
                    &&& seed matches SessionSeed::Bytes(bytes) && bytes@.len() == usize::BITS / 8
                        && big_endian(bytes@) == self@.dom().len()
                },
            },
    {
        match &params.seed {
            Some(text) => SessionSeed::Text(text.clone()),
            None => SessionSeed::Bytes(word_bytes(self.sessions.num_sessions())),
        }
    }

    /// Adds a session whose load generator is still to be initialized.
    pub fn add_session(
        &mut self,
        params: AddSessionParams,
        fresh: H::Fresh,
        log_channel: H::Logs,
    ) -> (info: ContenderSessionInfo)
        requires
            old(self).wf(),
            old(self).sessions.next_id() < usize::MAX,
        ensures
            final(self).wf(),
            !old(self)@.contains_key(old(self).sessions.next_id()),
            final(self).sessions.next_id() == old(self).sessions.next_id() + 1,
            info@ == (InfoModel {
                id: old(self).sessions.next_id(),
                name: params.name@,
                rpc_url: params.rpc_url@,
                status: StatusModel::Initializing,
            }),
            exists|cancel: CancellationToken|
                {
                    &&& !cancelled_through(cancel)
                    &&& final(self)@ == old(self)@.insert(
                        old(self).sessions.next_id(),
                        #[trigger] SessionModel::<H>::added(
                            old(self).sessions.next_id(),
                            params.name@,
                            params.rpc_url@,
                            fresh,
                            log_channel,
                            cancel,
                        ),
                    )
                },
    {
        self.sessions.add_session(params.name, params.rpc_url, fresh, log_channel)
    }

    /// Takes a session's load generator out, to initialize it without holding the
    /// sessions.
    pub fn begin_init(&mut self, id: usize) -> (fresh: Option<H::Fresh>)
        requires
            old(self).wf(),
        ensures
            final(self).wf(),
            final(self).sessions.next_id() == old(self).sessions.next_id(),
            final(self)@ == changed(
                old(self)@,
                id,
                SessionModel { fresh: None, ..old(self)@[id] },
            ),
            fresh == (if old(self)@.contains_key(id) {
                old(self)@[id].fresh
            } else {
                None
            }),
    {
        match self.sessions.get_session_mut(id) {
            Some(session) => session.fresh.take(),
            None => None,
        }
    }

    /// Takes in that a session was initialized. A session that is not waiting
    /// for it is left alone.
    pub fn init_succeeded(&mut self, id: usize, contender: H::Contender)
        requires
            old(self).wf(),
        ensures
            final(self).wf(),
            final(self).sessions.next_id() == old(self).sessions.next_id(),
            final(self)@ == changed(old(self)@, id, initialized(old(self)@[id], contender)),
    {
        match self.sessions.get_session_mut(id) {
            Some(session) => {
                match session.info.status {
                    SessionStatus::Initializing => {
                        session.contender = Some(contender);
                        session.info.status = SessionStatus::Ready;
                    },
                    _ => {},
                }
            },
            None => {},
        }
    }

    /// Takes in that a session could not be initialized.
    pub fn init_failed(&mut self, id: usize, error: String)
        requires
            old(self).wf(),
        ensures
            final(self).wf(),
            final(self).sessions.next_id() == old(self).sessions.next_id(),
            final(self)@ == changed(
                old(self)@,
                id,
                old(self)@[id].with_status(StatusModel::Failed(error@)),
            ),
    {
        match self.sessions.get_session_mut(id) {
            Some(session) => {
                session.info.status = SessionStatus::Failed(error);
            },
            None => {},
        }
    }

    /// Keeps what it takes to fund a session's accounts, so that it is at hand
    /// also while a run has taken the load generator out.
    pub fn cache_funding(
        &mut self,
        id: usize,
        funder: H::Signer,
        agent_store: AgentStore,
        rpc_client: H::Client,
        min_balance: Amount,
    )
        requires
            old(self).wf(),
        ensures
            final(self).wf(),
            final(self).sessions.next_id() == old(self).sessions.next_id(),
            final(self)@ == changed(
                old(self)@,
                id,
                SessionModel {
                    funder: Some(funder),
                    agent_store: Some(agent_store@),
                    rpc_client: Some(rpc_client),
                    min_balance: Some(min_balance@),
                    ..old(self)@[id]
                },
            ),
    {
        match self.sessions.get_session_mut(id) {
            Some(session) => {
                session.funder = Some(funder);
                session.agent_store = Some(agent_store);
                session.rpc_client = Some(rpc_client);
                session.min_balance = Some(min_balance);
            },
            None => {},
        }
    }
}

/// A subscription to the log lines of a session.
pub struct LogSubscription<'a, H: Host> {
    /// The channel to subscribe to.
    pub logs: &'a H::Logs,
    /// Ends the subscription.
    pub cancel: CancellationToken,
}

/// Why a subscription was rejected.
pub struct LogReject {
    pub code: i32,
    pub message: String,
}

/// What happens to a subscription.
pub enum LogEvent {
    /// The session logged a line.
    Line(String),
    /// No more lines can be read.
    LinesEnded,
    /// The subscriber was sent a line.
    Sent,
    /// The subscriber could not be sent a line.
    SendFailed,
    /// The session was cancelled.
    Cancelled,
}

/// What a subscription does next.
pub enum LogStep {
    /// Wait for a line or for cancellation.
    Await,
    /// Send a line to the subscriber.
    Send(String),
    /// End.
    Stop,
}

/// Decides what a subscription does next: lines go to the subscriber one by one,
/// until the lines end, one cannot be sent, or the session is cancelled.
pub fn log_step(event: LogEvent) -> (step: LogStep)
    ensures
        match event {
            LogEvent::Line(line) => step matches LogStep::Send(text) && text == line,
            LogEvent::Sent => step is Await,
            LogEvent::LinesEnded => step is Stop,
            LogEvent::SendFailed => step is Stop,
            LogEvent::Cancelled => step is Stop,
        },
{
    match event {
        LogEvent::Line(line) => LogStep::Send(line),
        LogEvent::Sent => LogStep::Await,
        _ => LogStep::Stop,
    }
}

impl<H: Host> ContenderServer<H> {
    /// Subscribes to the log lines of a session.
    pub fn subscribe_logs(&self, id: usize) -> (result: Result<LogSubscription<'_, H>, LogReject>)
        requires
            self.wf(),
        ensures
            match result {
                Ok(subscription) => {
                    &&& self@.contains_key(id)
                    &&& *subscription.logs == self@[id].log_channel
                    &&& same_token(self@[id].cancel, subscription.cancel)
                    &&& cancelled_through(subscription.cancel) == cancelled_through(
                        self@[id].cancel,
                    )
                },
                Err(reject) => {
                    &&& !self@.contains_key(id)
                    &&& reject.code == 5
                    &&& reject.message@ == "Session "@ + decimal(id as nat) + " not found"@
                },
            },
    {
        match self.sessions.get_session(id) {
            None => {
                let head = numbered("Session ", id as u64);
                Err(LogReject { code: 5, message: joined(head.as_str(), " not found") })
            },
            Some(session) => Ok(
                LogSubscription { logs: &session.log_channel, cancel: clone_token(&session.cancel) },
            ),
        }
    }
}

} // verus!
