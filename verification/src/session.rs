//! Sessions and the cache that holds them.
use crate::agents::{AgentStore, PoolModel};
use crate::amount::Amount;
use crate::handles::{cancelled_through, new_token, sent_pct};
use crate::params::SpamParams;
use tokio::sync::watch;
use tokio_util::sync::CancellationToken;
use vstd::prelude::*;

verus! {

/// The values that a session carries for the program around it. The library
/// hands them on and never looks inside.
pub trait Host {
    /// A load generator before it is initialized.
    type Fresh;

    /// A load generator that can spam.
    type Contender;

    /// The account that funds the others.
    type Signer;

    /// The connection to the node.
    type Client;

    /// The channel of the session's log lines.
    type Logs;
}

/// What a session is doing.
pub enum SessionStatus {
    Initializing,
    Ready,
    Spamming(SpamParams),
    Failed(String),
}

/// What a [`SessionStatus`] tells.
pub enum StatusModel {
    Initializing,
    Ready,
    Spamming(SpamParams),
    Failed(Seq<char>),
}

impl View for SessionStatus {
    type V = StatusModel;

    open spec fn view(&self) -> StatusModel {
        match self {
            SessionStatus::Initializing => StatusModel::Initializing,
            SessionStatus::Ready => StatusModel::Ready,
            SessionStatus::Spamming(params) => StatusModel::Spamming(*params),
            SessionStatus::Failed(text) => StatusModel::Failed(text@),
        }
    }
}

impl Clone for SessionStatus {
    fn clone(&self) -> (copy: Self)
        ensures
            copy@ == self@,
    {
        match self {
            SessionStatus::Initializing => SessionStatus::Initializing,
            SessionStatus::Ready => SessionStatus::Ready,
            SessionStatus::Spamming(params) => SessionStatus::Spamming(*params),
            SessionStatus::Failed(text) => SessionStatus::Failed(text.clone()),
        }
    }
}

/// What is told about a session.
pub struct ContenderSessionInfo {
    pub id: usize,
    pub name: String,
    pub rpc_url: String,
    pub status: SessionStatus,
}

/// What a [`ContenderSessionInfo`] tells.
pub struct InfoModel {
    pub id: usize,
    pub name: Seq<char>,
    pub rpc_url: Seq<char>,
    pub status: StatusModel,
}

impl View for ContenderSessionInfo {
    type V = InfoModel;

    open spec fn view(&self) -> InfoModel {
        InfoModel {
            id: self.id,
            name: self.name@,
            rpc_url: self.rpc_url@,
            status: self.status@,
        }
    }
}

impl Clone for ContenderSessionInfo {
    fn clone(&self) -> (copy: Self)
        ensures
            copy@ == self@,
    {
        ContenderSessionInfo {
            id: self.id,
            name: self.name.clone(),
            rpc_url: self.rpc_url.clone(),
            status: self.status.clone(),
        }
    }
}

/// A session: a load generator and what the server keeps about it.
pub struct ContenderSession<H: Host> {
    pub info: ContenderSessionInfo,
    /// The load generator, until its initialization starts.
    pub fresh: Option<H::Fresh>,
    /// The initialized load generator, while no run has taken it out.
    pub contender: Option<H::Contender>,
    /// Stops the run in progress.
    pub spam_cancel: Option<CancellationToken>,
    /// Ends the session's log subscriptions.
    pub cancel: CancellationToken,
    /// Sets the priority ratio of the run in progress.
    pub priority_pct: Option<watch::Sender<u8>>,
    pub funder: Option<H::Signer>,
    pub agent_store: Option<AgentStore>,
    pub rpc_client: Option<H::Client>,
    pub min_balance: Option<Amount>,
    pub log_channel: H::Logs,
}

/// What a [`ContenderSession`] holds.
pub struct SessionModel<H: Host> {
    pub info: InfoModel,
    pub fresh: Option<H::Fresh>,
    pub contender: Option<H::Contender>,
    pub spam_cancel: Option<CancellationToken>,
    pub cancel: CancellationToken,
    pub priority_pct: Option<watch::Sender<u8>>,
    pub funder: Option<H::Signer>,
    pub agent_store: Option<Seq<PoolModel>>,
    pub rpc_client: Option<H::Client>,
    pub min_balance: Option<nat>,
    pub log_channel: H::Logs,
}

impl<H: Host> View for ContenderSession<H> {
    type V = SessionModel<H>;

    open spec fn view(&self) -> SessionModel<H> {
        SessionModel {
            info: self.info@,
            fresh: self.fresh,
            contender: self.contender,
            spam_cancel: self.spam_cancel,
            cancel: self.cancel,
            priority_pct: self.priority_pct,
            funder: self.funder,
            agent_store: match self.agent_store {
                Some(store) => Some(store@),
                None => None,
            },
            rpc_client: self.rpc_client,
            min_balance: match self.min_balance {
                Some(amount) => Some(amount@),
                None => None,
            },
            log_channel: self.log_channel,
        }
    }
}

impl<H: Host> SessionModel<H> {
    /// A session that was just added.
    pub open spec fn added(
        id: usize,
        name: Seq<char>,
        rpc_url: Seq<char>,
        fresh: H::Fresh,
        log_channel: H::Logs,
        cancel: CancellationToken,
    ) -> SessionModel<H> {
        SessionModel {
            info: InfoModel { id, name, rpc_url, status: StatusModel::Initializing },
            fresh: Some(fresh),
            contender: None,
            spam_cancel: None,
            cancel,
            priority_pct: None,
            funder: None,
            agent_store: None,
            rpc_client: None,
            min_balance: None,
            log_channel,
        }
    }

    /// The session with another status.
    pub open spec fn with_status(self, status: StatusModel) -> SessionModel<H> {
        SessionModel { info: InfoModel { status, ..self.info }, ..self }
    }

    /// A ready session has its load generator, and one that is initializing or
    /// spamming has not. A spamming session can be stopped; one that is
    /// initializing or ready has nothing to stop. A priority ratio can be set
    /// only while a run can be stopped, and is a percentage.
    pub open spec fn sound(self) -> bool {
        &&& self.info.status is Ready ==> self.contender is Some
        &&& self.info.status is Initializing || self.info.status is Spamming
            ==> self.contender is None
        &&& self.info.status is Spamming ==> self.spam_cancel is Some
        &&& self.info.status is Initializing || self.info.status is Ready
            ==> self.spam_cancel is None
        &&& self.priority_pct is Some ==> self.spam_cancel is Some
        &&& self.priority_pct is Some ==> sent_pct(self.priority_pct->0) <= 100
    }
}

/// The sessions of a server, by number.
pub struct ContenderSessionCache<H: Host> {
    sessions: Vec<ContenderSession<H>>,
    next_id: usize,
}

impl<H: Host> ContenderSessionCache<H> {
    spec fn holds(sessions: Seq<ContenderSession<H>>, id: usize) -> bool {
        exists|i: int| 0 <= i < sessions.len() && (#[trigger] sessions[i]).info.id == id
    }

    spec fn position(sessions: Seq<ContenderSession<H>>, id: usize) -> int {
        choose|i: int| 0 <= i < sessions.len() && (#[trigger] sessions[i]).info.id == id
    }

    spec fn by_id(sessions: Seq<ContenderSession<H>>) -> Map<usize, SessionModel<H>> {
        Map::new(
            |id: usize| Self::holds(sessions, id),
            |id: usize| sessions[Self::position(sessions, id)]@,
        )
    }

    spec fn rising(sessions: Seq<ContenderSession<H>>) -> bool {
        forall|i: int, j: int|
            0 <= i < j < sessions.len() ==> (#[trigger] sessions[i]).info.id < (
            #[trigger] sessions[j]).info.id
    }

    /// The number that the next session gets.
    pub closed spec fn next_id(&self) -> usize {
        self.next_id
    }

    /// Sessions are kept in the order of their numbers, all numbers are below
    /// the next one, and every session is sound.
    pub closed spec fn wf(&self) -> bool {
        &&& Self::rising(self.sessions@)
        &&& forall|i: int|
            0 <= i < self.sessions@.len() ==> {
                &&& (#[trigger] self.sessions@[i]).info.id < self.next_id
                &&& self.sessions@[i]@.sound()
            }
    }
}

impl<H: Host> View for ContenderSessionCache<H> {
    type V = Map<usize, SessionModel<H>>;

    closed spec fn view(&self) -> Map<usize, SessionModel<H>> {
        Self::by_id(self.sessions@)
    }
}

impl<H: Host> ContenderSessionCache<H> {
    proof fn lemma_position(sessions: Seq<ContenderSession<H>>, i: int)
        requires
            Self::rising(sessions),
            0 <= i < sessions.len(),
        ensures
            Self::holds(sessions, sessions[i].info.id),
            Self::position(sessions, sessions[i].info.id) == i,
            Self::by_id(sessions).contains_key(sessions[i].info.id),
            Self::by_id(sessions)[sessions[i].info.id] == sessions[i]@,
    {
        let p = Self::position(sessions, sessions[i].info.id);
        assert(sessions[i].info.id == sessions[i].info.id);
        assert(0 <= p < sessions.len() && sessions[p].info.id == sessions[i].info.id);
        if p < i {
            assert(sessions[p].info.id < sessions[i].info.id);
        }
        if i < p {
            assert(sessions[i].info.id < sessions[p].info.id);
        }
    }

    proof fn lemma_update(sessions: Seq<ContenderSession<H>>, i: int, session: ContenderSession<H>)
        requires
            Self::rising(sessions),
            0 <= i < sessions.len(),
            session.info.id == sessions[i].info.id,
        ensures
            Self::rising(sessions.update(i, session)),
            Self::by_id(sessions.update(i, session)) == Self::by_id(sessions).insert(
                session.info.id,
                session@,
            ),
    {
        let updated = sessions.update(i, session);
        assert forall|id: usize| Self::holds(updated, id) == Self::holds(sessions, id) by {
            if Self::holds(updated, id) {
                let k = Self::position(updated, id);
                assert(sessions[k].info.id == id);
            }
            if Self::holds(sessions, id) {
                let k = Self::position(sessions, id);
                assert(updated[k].info.id == id);
            }
        }
        Self::lemma_position(sessions, i);
        Self::lemma_position(updated, i);
        assert forall|id: usize| Self::holds(sessions, id) && id != session.info.id implies (
        #[trigger] Self::by_id(updated)[id]) == Self::by_id(sessions)[id] by {
            let k = Self::position(sessions, id);
            Self::lemma_position(sessions, k);
            assert(updated[k] == sessions[k]);
            Self::lemma_position(updated, k);
        }
        assert(Self::by_id(updated) =~= Self::by_id(sessions).insert(session.info.id, session@));
    }

    /// An empty cache.
    pub fn new() -> (cache: Self)
        ensures
            cache.wf(),
            cache@ == Map::<usize, SessionModel<H>>::empty(),
            cache.next_id() == 0,
    {
        let cache = ContenderSessionCache { sessions: Vec::new(), next_id: 0 };
        assert(cache@ =~= Map::<usize, SessionModel<H>>::empty());
        cache
    }

    fn find(&self, id: usize) -> (found: Option<usize>)
        requires
            self.wf(),
        ensures
            match found {
                Some(i) => {
                    &&& i < self.sessions@.len()
                    &&& self.sessions@[i as int].info.id == id
                    &&& self@.contains_key(id)
                    &&& self@[id] == self.sessions@[i as int]@
                },
                None => !self@.contains_key(id),
            },
    {
        let mut i: usize = 0;
        while i < self.sessions.len()
            invariant
                self.wf(),
                i <= self.sessions@.len(),
                forall|j: int| 0 <= j < i ==> (#[trigger] self.sessions@[j]).info.id != id,
            decreases self.sessions@.len() - i,
        {
            if self.sessions[i].info.id == id {
                proof {
                    Self::lemma_position(self.sessions@, i as int);
                }
                return Some(i);
            }
            i += 1;
        }
        None
    }

    /// Looks a session up.
    pub(crate) fn get_session(&self, id: usize) -> (session: Option<&ContenderSession<H>>)
        requires
            self.wf(),
        ensures
            match session {
                Some(s) => self@.contains_key(id) && s@ == self@[id] && s.info.id == id,
                None => !self@.contains_key(id),
            },
    {
        match self.find(id) {
            Some(i) => Some(&self.sessions[i]),
            None => None,
        }
    }

    /// Looks a session up, to change it. A change has to keep the number and
    /// leave the session sound.
    pub(crate) fn get_session_mut(&mut self, id: usize) -> (session: Option<
        &mut ContenderSession<H>,
    >)
        requires
            old(self).wf(),
        ensures
            match session {
                Some(s) => {
                    &&& old(self)@.contains_key(id)
                    &&& s@ == old(self)@[id]
                    &&& s.info.id == id
                    &&& s@.sound()
                    &&& final(s)@.info.id == id && final(s)@.sound() ==> {
                        &&& final(self).wf()
                        &&& final(self).next_id() == old(self).next_id()
                        &&& final(self)@ == old(self)@.insert(id, final(s)@)
                    }
                },
                None => !old(self)@.contains_key(id) && *final(self) == *old(self),
            },
    {
        match self.find(id) {
            Some(i) => {
                let ghost before = self.sessions@;
                proof {
                    assert forall|session: ContenderSession<H>| session.info.id == id implies {
                        &&& Self::rising(#[trigger] before.update(i as int, session))
                        &&& Self::by_id(before.update(i as int, session)) == Self::by_id(
                            before,
                        ).insert(id, session@)
                    } by {
                        Self::lemma_update(before, i as int, session);
                    }
                }
                Some(&mut self.sessions[i])
            },
            None => None,
        }
    }

    spec fn ids(sessions: Seq<ContenderSession<H>>) -> Seq<usize> {
        sessions.map_values(|session: ContenderSession<H>| session.info.id)
    }

    proof fn lemma_count(sessions: Seq<ContenderSession<H>>)
        requires
            Self::rising(sessions),
        ensures
            Self::by_id(sessions).dom().finite(),
            Self::by_id(sessions).dom().len() == sessions.len(),
    {
        let ids = Self::ids(sessions);
        assert(ids.no_duplicates()) by {
            assert forall|i: int, j: int|
                0 <= i < ids.len() && 0 <= j < ids.len() && i != j implies ids[i] != ids[j] by {
                if i < j {
                    assert(sessions[i].info.id < sessions[j].info.id);
                } else {
                    assert(sessions[j].info.id < sessions[i].info.id);
                }
            }
        }
        ids.unique_seq_to_set();
        assert forall|id: usize| ids.to_set().contains(id) == Self::by_id(
            sessions,
        ).dom().contains(id) by {
            if ids.contains(id) {
                let i = choose|i: int| 0 <= i < ids.len() && ids[i] == id;
                assert(sessions[i].info.id == id);
            }
            if Self::holds(sessions, id) {
                let i = Self::position(sessions, id);
                assert(ids[i] == id);
            }
        }
        assert(ids.to_set() =~= Self::by_id(sessions).dom());
    }

    /// Returns how many sessions there are.
    pub fn num_sessions(&self) -> (count: usize)
        requires
            self.wf(),
        ensures
            self@.dom().finite(),
            count == self@.dom().len(),
    {
        proof {
            Self::lemma_count(self.sessions@);
        }
        self.sessions.len()
    }

    /// Whether every session number has been given out.
    pub fn is_full(&self) -> (full: bool)
        ensures
            full == (self.next_id() == usize::MAX),
    {
        self.next_id == usize::MAX
    }

    /// Adds a session whose load generator is still to be initialized, under a
    /// number that no session has had before.
    pub fn add_session(
        &mut self,
        name: String,
        rpc_url: String,
        fresh: H::Fresh,
        log_channel: H::Logs,
    ) -> (info: ContenderSessionInfo)
        requires
            old(self).wf(),
            old(self).next_id() < usize::MAX,
        ensures
            final(self).wf(),
            !old(self)@.contains_key(old(self).next_id()),
            final(self).next_id() == old(self).next_id() + 1,
            info@ == (InfoModel {
                id: old(self).next_id(),
                name: name@,
                rpc_url: rpc_url@,
                status: StatusModel::Initializing,
            }),
            exists|cancel: CancellationToken|
                {
                    &&& !cancelled_through(cancel)
                    &&& final(self)@ == old(self)@.insert(
                        old(self).next_id(),
                        #[trigger] SessionModel::<H>::added(
                            old(self).next_id(),
                            name@,
                            rpc_url@,
                            fresh,
                            log_channel,
                            cancel,
                        ),
                    )
                },
    {
        let id = self.next_id;
        let info = ContenderSessionInfo { id, name, rpc_url, status: SessionStatus::Initializing };
        let copy = info.clone();
        let session = ContenderSession {
            info,
            fresh: Some(fresh),
            contender: None,
            spam_cancel: None,
            cancel: new_token(),
            priority_pct: None,
            funder: None,
            agent_store: None,
            rpc_client: None,
            min_balance: None,
            log_channel,
        };
        let ghost before = self.sessions@;
        let ghost model = session@;
        self.sessions.push(session);
        self.next_id = id + 1;
        proof {
            let after = self.sessions@;
            assert(model == SessionModel::<H>::added(
                id,
                name@,
                rpc_url@,
                fresh,
                log_channel,
                model.cancel,
            ));
            assert(after[before.len() as int].info.id == id);
            assert forall|i: int, j: int| 0 <= i < j < after.len() implies (
            #[trigger] after[i]).info.id < (#[trigger] after[j]).info.id by {
                assert(after[i] == before[i]);
                if j < before.len() {
                    assert(after[j] == before[j]);
                }
            }
            assert forall|i: int| 0 <= i < after.len() implies {
                &&& (#[trigger] after[i]).info.id < self.next_id
                &&& after[i]@.sound()
            } by {
                if i < before.len() {
                    assert(after[i] == before[i]);
                }
            }
            assert(!Self::holds(before, id)) by {
                if Self::holds(before, id) {
                    let k = Self::position(before, id);
                    assert(before[k].info.id < id);
                }
            }
            assert forall|other: usize|
                Self::holds(after, other) == (other == id || Self::holds(before, other)) by {
                if Self::holds(after, other) {
                    let k = Self::position(after, other);
                    if k < before.len() {
                        assert(before[k].info.id == other);
                    }
                }
                if Self::holds(before, other) {
                    let k = Self::position(before, other);
                    assert(after[k].info.id == other);
                }
            }
            Self::lemma_position(after, before.len() as int);
            assert forall|other: usize| Self::holds(before, other) implies (
            #[trigger] Self::by_id(after)[other]) == Self::by_id(before)[other] by {
                let k = Self::position(before, other);
                Self::lemma_position(before, k);
                assert(after[k] == before[k]);
                Self::lemma_position(after, k);
            }
            assert(self@ =~= old(self)@.insert(id, model));
        }
        copy
    }

    /// Returns what is told about each session, in the order of their numbers.
    pub fn all_sessions(&self) -> (infos: Vec<ContenderSessionInfo>)
        requires
            self.wf(),
        ensures
            self@.dom().finite(),
            infos@.len() == self@.dom().len(),
            forall|i: int|
                0 <= i < infos@.len() ==> {
                    &&& self@.contains_key((#[trigger] infos@[i]).id)
                    &&& infos@[i]@ == self@[infos@[i].id].info
                },
            forall|i: int, j: int|
                0 <= i < j < infos@.len() ==> (#[trigger] infos@[i]).id < (#[trigger] infos@[j]).id,
    {
        proof {
            Self::lemma_count(self.sessions@);
        }
        let mut infos: Vec<ContenderSessionInfo> = Vec::new();
        let mut i: usize = 0;
        while i < self.sessions.len()
            invariant
                self.wf(),
                i <= self.sessions@.len(),
                infos@.len() == i,
                forall|j: int|
                    0 <= j < i ==> (#[trigger] infos@[j])@ == self.sessions@[j].info@,
            decreases self.sessions@.len() - i,
        {
            infos.push(self.sessions[i].info.clone());
            i += 1;
        }
        proof {
            assert forall|j: int| 0 <= j < infos@.len() implies {
                &&& self@.contains_key((#[trigger] infos@[j]).id)
                &&& infos@[j]@ == self@[infos@[j].id].info
            } by {
                assert(infos@[j]@.id == self.sessions@[j].info@.id);
                Self::lemma_position(self.sessions@, j);
            }
            assert forall|j: int, k: int| 0 <= j < k < infos@.len() implies (
            #[trigger] infos@[j]).id < (#[trigger] infos@[k]).id by {
                assert(infos@[j]@.id == self.sessions@[j].info@.id);
                assert(infos@[k]@.id == self.sessions@[k].info@.id);
            }
        }
        infos
    }

    /// Removes a session, if it is there.
    pub fn remove_session(&mut self, id: usize)
        requires
            old(self).wf(),
        ensures
            final(self).wf(),
            final(self).next_id() == old(self).next_id(),
            final(self)@ == old(self)@.remove(id),
    {
        match self.find(id) {
            Some(i) => {
                let ghost before = self.sessions@;
                let _ = self.sessions.remove(i);
                proof {
                    let after = self.sessions@;
                    assert forall|j: int| 0 <= j < after.len() implies (#[trigger] after[j])
                        == before[if j < i {
                        j
                    } else {
                        j + 1
                    }] by {}
                    assert(Self::rising(after));
                    assert forall|other: usize|
                        Self::holds(after, other) == (other != id && Self::holds(
                            before,
                            other,
                        )) by {
                        if Self::holds(after, other) {
                            let k = Self::position(after, other);
                            let m = if k < i {
                                k
                            } else {
                                k + 1
                            };
                            assert(before[m].info.id == other);
                            if other == id {
                                Self::lemma_position(before, i as int);
                                Self::lemma_position(before, m);
                            }
                        }
                        if other != id && Self::holds(before, other) {
                            let m = Self::position(before, other);
                            assert(m != i);
                            let k = if m < i {
                                m
                            } else {
                                m - 1
                            };
                            assert(after[k].info.id == other);
                        }
                    }
                    assert forall|other: usize| Self::holds(after, other) implies (
                    #[trigger] Self::by_id(after)[other]) == Self::by_id(before)[other] by {
                        let k = Self::position(after, other);
                        let m = if k < i {
                            k
                        } else {
                            k + 1
                        };
                        Self::lemma_position(after, k);
                        Self::lemma_position(before, m);
                    }
                    assert(self@ =~= old(self)@.remove(id));
                }
            },
            None => {
                assert(self@ =~= old(self)@.remove(id));
            },
        }
    }

    /// Every session that the cache holds is sound, is kept under its own number,
    /// and has a number that was given out.
    pub proof fn sessions_are_sound(&self, id: usize)
        requires
            self.wf(),
            self@.contains_key(id),
        ensures
            self@[id].sound(),
            self@[id].info.id == id,
            id < self.next_id(),
            self@[id].info.status is Ready ==> self@[id].contender is Some,
            self@[id].info.status is Spamming ==> self@[id].contender is None
                && self@[id].spam_cancel is Some,
            self@[id].info.status is Initializing ==> self@[id].contender is None,
            self@[id].info.status is Initializing || self@[id].info.status is Ready
                ==> self@[id].spam_cancel is None && self@[id].priority_pct is None,
            self@[id].priority_pct matches Some(ratio) ==> self@[id].spam_cancel is Some
                && sent_pct(ratio) <= 100,
    {
        let i = Self::position(self.sessions@, id);
        assert(self.sessions@[i].info.id == id);
    }
}

/// What is told about a session leaves nothing out.
pub proof fn info_model_is_faithful(info: ContenderSessionInfo)
    ensures
        info@.id == info.id,
        info@.name == info.name@,
        info@.rpc_url == info.rpc_url@,
        match info.status {
            SessionStatus::Initializing => info@.status == StatusModel::Initializing,
            SessionStatus::Ready => info@.status == StatusModel::Ready,
            SessionStatus::Spamming(params) => info@.status == StatusModel::Spamming(params),
            SessionStatus::Failed(text) => info@.status == StatusModel::Failed(text@),
        },
{
}

/// The model of a session leaves nothing out.
pub proof fn session_model_is_faithful<H: Host>(session: ContenderSession<H>)
    ensures
        session@.info == session.info@,
        session@.fresh == session.fresh,
        session@.contender == session.contender,
        session@.spam_cancel == session.spam_cancel,
        session@.cancel == session.cancel,
        session@.priority_pct == session.priority_pct,
        session@.funder == session.funder,
        session@.rpc_client == session.rpc_client,
        session@.log_channel == session.log_channel,
        session.agent_store is None <==> session@.agent_store is None,
        session.agent_store matches Some(store) ==> session@.agent_store == Some(store@),
        session.min_balance is None <==> session@.min_balance is None,
        session.min_balance matches Some(amount) ==> session@.min_balance == Some(amount@),
{
}

impl<H: Host> SessionModel<H> {
    /// A session that was just added holds what it was added with, is still to be
    /// initialized, and has nothing else.
    pub proof fn added_session_is_to_be_initialized(
        id: usize,
        name: Seq<char>,
        rpc_url: Seq<char>,
        fresh: H::Fresh,
        log_channel: H::Logs,
        cancel: CancellationToken,
    )
        ensures
            ({
                let added = Self::added(id, name, rpc_url, fresh, log_channel, cancel);
                &&& added.info.id == id
                &&& added.info.name == name
                &&& added.info.rpc_url == rpc_url
                &&& added.info.status == StatusModel::Initializing
                &&& added.fresh == Some(fresh)
                &&& added.log_channel == log_channel
                &&& added.cancel == cancel
                &&& added.contender is None
                &&& added.spam_cancel is None
                &&& added.priority_pct is None
                &&& added.funder is None
                &&& added.agent_store is None
                &&& added.rpc_client is None
                &&& added.min_balance is None
            }),
    {
    }

    /// Another status changes nothing but the status.
    pub proof fn status_changes_alone(self, status: StatusModel)
        ensures
            self.with_status(status).info.status == status,
            self.with_status(status).with_status(self.info.status) == self,
            self.with_status(status).info.id == self.info.id,
            self.with_status(status).info.name == self.info.name,
            self.with_status(status).info.rpc_url == self.info.rpc_url,
            self.with_status(status).fresh == self.fresh,
            self.with_status(status).contender == self.contender,
            self.with_status(status).spam_cancel == self.spam_cancel,
            self.with_status(status).cancel == self.cancel,
            self.with_status(status).priority_pct == self.priority_pct,
            self.with_status(status).funder == self.funder,
            self.with_status(status).agent_store == self.agent_store,
            self.with_status(status).rpc_client == self.rpc_client,
            self.with_status(status).min_balance == self.min_balance,
            self.with_status(status).log_channel == self.log_channel,
    {
    }
}

} // verus!
