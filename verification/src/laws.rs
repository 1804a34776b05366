//! What holds of a session over several requests.
use crate::agents::{
    pools_of, pools_of_class_are_complete, pools_of_class_keep_their_places, AgentClass, PoolModel,
};
use crate::error::ErrorModel;
use crate::handles::{
    cancelled_through, ever_cancelled, feeds, held_pct, same_token, sent_pct,
};
use crate::params::{FundAccountsParams, SetMixParams, SpamParams, SpammerType};
use crate::server::{
    bad_ratio, cannot_fund, cannot_spam, changed, class_to_fund, funds_in_background, initialized,
    marked_spamming, not_ready, ratio_set, run_finished, run_panicked, run_refused, run_starts,
    set_mix_reply, stop_reply, stop_sent, ContenderServer, Sessions,
};
use crate::session::{Host, InfoModel, SessionModel, StatusModel};
use crate::spam_run::{run_kind, RunKind, SpamRun};
use crate::text::decimal;
use tokio::sync::watch;
use tokio_util::sync::CancellationToken;
use vstd::prelude::*;

verus! {

/// A ready session can start any run whose ratio makes sense.
pub proof fn ready_session_can_spam<H: Host>(sessions: Sessions<H>, params: SpamParams)
    requires
        sessions.contains_key(params.session_id),
        sessions[params.session_id].info.status is Ready,
        bad_ratio(params) is None,
    ensures
        run_refused(sessions, params) is None,
{
}

/// A run that is refused for its ratio costs the session nothing: the run is
/// refused although the session could spam, and with a ratio that makes sense it
/// is accepted next.
pub proof fn refused_ratio_can_be_corrected<H: Host>(
    sessions: Sessions<H>,
    params: SpamParams,
    corrected: SpamParams,
)
    requires
        cannot_spam(sessions, params.session_id) is None,
        bad_ratio(params) is Some,
        corrected.session_id == params.session_id,
        bad_ratio(corrected) is None,
    ensures
        run_refused(sessions, params) == bad_ratio(params),
        run_refused(sessions, corrected) is None,
{
}

/// A spamming session can always be stopped.
pub proof fn spamming_session_can_be_stopped<H: Host>(sessions: Sessions<H>, id: usize)
    requires
        sessions.contains_key(id),
        sessions[id].sound(),
        sessions[id].info.status is Spamming,
    ensures
        stop_reply(sessions, id) == Ok::<Seq<char>, ErrorModel>(
            "Stopping session "@ + decimal(id as nat),
        ),
{
}

/// A session that is initializing or ready has no run: there is nothing to stop,
/// and no ratio can be set.
pub proof fn idle_session_has_nothing_running<H: Host>(
    sessions: Sessions<H>,
    id: usize,
    pct: u8,
)
    requires
        sessions.contains_key(id),
        sessions[id].sound(),
        sessions[id].info.status is Initializing || sessions[id].info.status is Ready,
        pct <= 100,
    ensures
        stop_reply(sessions, id) == Err::<Seq<char>, ErrorModel>(ErrorModel::SessionNotBusy(id)),
        set_mix_reply(sessions, SetMixParams { session_id: id, priority_pct: pct }) == Err::<
            Seq<char>,
            ErrorModel,
        >(ErrorModel::InvalidArguments("session is not running a priority-ratio spam"@)),
{
}

/// The ratio of a run that was started without one cannot be set.
pub proof fn plain_run_has_no_ratio<H: Host>(
    sessions: Sessions<H>,
    params: SpamParams,
    run: SpamRun<H>,
    started: SessionModel<H>,
    pct: u8,
)
    requires
        sessions.contains_key(params.session_id),
        sessions[params.session_id].sound(),
        run_refused(sessions, params) is None,
        params.priority_pct is None,
        run_starts(sessions[params.session_id], params, run, started),
        pct <= 100,
    ensures
        run.priority is None,
        set_mix_reply(
            sessions.insert(params.session_id, started),
            SetMixParams { session_id: params.session_id, priority_pct: pct },
        ) == Err::<Seq<char>, ErrorModel>(
            ErrorModel::InvalidArguments("session is not running a priority-ratio spam"@),
        ),
{
}

/// A run has background funding if and only if it was asked to go on forever and
/// the session knew, before the run, everything that funding takes.
pub proof fn endless_run_is_funded<H: Host>(
    before: SessionModel<H>,
    params: SpamParams,
    run: SpamRun<H>,
    stop: CancellationToken,
    ratio: Option<watch::Sender<u8>>,
)
    requires
        run_starts(
            before,
            params,
            run,
            SessionModel { priority_pct: ratio, ..marked_spamming(before, params, stop) },
        ),
    ensures
        funds_in_background(
            SessionModel { priority_pct: ratio, ..marked_spamming(before, params, stop) },
            run.run_forever,
        ) <==> {
            &&& params.run_forever == Some(true)
            &&& before.funder is Some
            &&& before.agent_store is Some
            &&& before.rpc_client is Some
            &&& before.min_balance is Some
        },
{
}

/// A request to stop reaches the run that the session has started: its own
/// handle of the stop signal is cancelled, and stays a handle of the signal that
/// the session holds.
pub proof fn stop_reaches_the_run<H: Host>(
    before: SessionModel<H>,
    params: SpamParams,
    run: SpamRun<H>,
    started: SessionModel<H>,
    stopped: SessionModel<H>,
)
    requires
        run_starts(before, params, run, started),
        stop_sent(started, stopped),
    ensures
        ever_cancelled(run.cancel),
        stopped.spam_cancel matches Some(stop) && same_token(stop, run.cancel),
{
}

/// A ratio that is set while a run is in progress reaches the run: the channel
/// that the run reads holds it, and the session can set the next one.
pub proof fn set_ratio_reaches_the_run<H: Host>(
    before: SessionModel<H>,
    params: SpamParams,
    run: SpamRun<H>,
    started: SessionModel<H>,
    mixed: SessionModel<H>,
    pct: u8,
)
    requires
        params.priority_pct is Some,
        run_starts(before, params, run, started),
        ratio_set(started, mixed, pct),
    ensures
        run.priority matches Some(ratio) && held_pct(ratio, pct),
        mixed.priority_pct matches Some(sender) && feeds(sender, run.priority->0),
{
}

/// While a run is in progress, a second one is refused as busy.
pub proof fn busy_session_refuses_a_second_run<H: Host>(
    sessions: Sessions<H>,
    params: SpamParams,
    stop: CancellationToken,
    ratio: Option<watch::Sender<u8>>,
)
    ensures
        ({
            let running = SessionModel {
                priority_pct: ratio,
                ..marked_spamming(sessions[params.session_id], params, stop)
            };
            cannot_spam(sessions.insert(params.session_id, running), params.session_id) == Some(
                ErrorModel::SessionBusy(running.info),
            )
        }),
{
}

/// While a run with a ratio is in progress, every percentage is accepted as its
/// new ratio.
pub proof fn running_ratio_can_be_set<H: Host>(
    sessions: Sessions<H>,
    params: SpamParams,
    stop: CancellationToken,
    ratio: watch::Sender<u8>,
    pct: u8,
)
    requires
        pct <= 100,
    ensures
        ({
            let id = params.session_id;
            let running = SessionModel {
                priority_pct: Some(ratio),
                ..marked_spamming(sessions[id], params, stop)
            };
            set_mix_reply(
                sessions.insert(id, running),
                SetMixParams { session_id: id, priority_pct: pct },
            ) == Ok::<Seq<char>, ErrorModel>("priority_pct set to "@ + decimal(pct as nat))
        }),
{
}

/// A ratio above 100 is refused whatever the sessions are, at the start of a run
/// and while one is running.
pub proof fn ratio_above_100_is_refused<H: Host>(
    sessions: Sessions<H>,
    spam: SpamParams,
    mix: SetMixParams,
)
    requires
        spam.priority_pct matches Some(pct) && pct > 100,
        mix.priority_pct > 100,
    ensures
        bad_ratio(spam) == Some(ErrorModel::InvalidArguments("priorityPct must be 0..=100"@)),
        set_mix_reply(sessions, mix) == Err::<Seq<char>, ErrorModel>(
            ErrorModel::InvalidArguments("priorityPct must be 0..=100"@),
        ),
{
}

/// A run with a ratio has to have an end.
pub proof fn endless_ratio_run_is_refused(params: SpamParams)
    requires
        params.priority_pct is Some,
        params.run_forever == Some(true),
    ensures
        bad_ratio(params) is Some,
        params.priority_pct->0 <= 100 ==> bad_ratio(params) == Some(
            ErrorModel::InvalidArguments(
                "priority-ratio runs require a fixed duration; --forever is not supported"@,
            ),
        ),
{
}

/// A run that ends well undoes what its start did: a ready session is as it was
/// before the run.
pub proof fn finished_run_restores_the_session<H: Host>(
    before: SessionModel<H>,
    params: SpamParams,
    stop: CancellationToken,
    ratio: Option<watch::Sender<u8>>,
    contender: H::Contender,
)
    requires
        before.sound(),
        before.info.status is Ready,
        before.contender == Some(contender),
    ensures
        run_finished(
            SessionModel { priority_pct: ratio, ..marked_spamming(before, params, stop) },
            contender,
            Ok(()),
        ) == before,
{
}

/// After a run that ended well, the next run gets the load generator that this
/// one gave back.
pub proof fn finished_run_can_be_followed<H: Host>(
    sessions: Sessions<H>,
    id: usize,
    contender: H::Contender,
    next: SpamParams,
)
    requires
        sessions.contains_key(id),
        next.session_id == id,
        bad_ratio(next) is None,
    ensures
        ({
            let after = changed(sessions, id, run_finished(sessions[id], contender, Ok(())));
            &&& run_refused(after, next) is None
            &&& after[id].contender == Some(contender)
        }),
{
}

/// However a run ends, the session is no longer spamming, there is nothing to
/// stop, and the ratio can no longer be set.
pub proof fn ended_run_leaves_nothing_running<H: Host>(
    sessions: Sessions<H>,
    id: usize,
    contender: H::Contender,
    outcome: Result<(), Seq<char>>,
    panic: Seq<char>,
    pct: u8,
)
    requires
        sessions.contains_key(id),
        pct <= 100,
    ensures
        ({
            let mix = SetMixParams { session_id: id, priority_pct: pct };
            let not_busy = Err::<Seq<char>, ErrorModel>(ErrorModel::SessionNotBusy(id));
            let not_mixed = Err::<Seq<char>, ErrorModel>(
                ErrorModel::InvalidArguments("session is not running a priority-ratio spam"@),
            );
            let finished = changed(sessions, id, run_finished(sessions[id], contender, outcome));
            let panicked = changed(sessions, id, run_panicked(sessions[id], panic));
            &&& !(finished[id].info.status is Spamming)
            &&& !(panicked[id].info.status is Spamming)
            &&& stop_reply(finished, id) == not_busy
            &&& stop_reply(panicked, id) == not_busy
            &&& set_mix_reply(finished, mix) == not_mixed
            &&& set_mix_reply(panicked, mix) == not_mixed
        }),
{
}

/// A run that failed or panicked is reported to whoever wants to spam with the
/// session or to fund its accounts.
pub proof fn failed_run_is_reported<H: Host>(
    sessions: Sessions<H>,
    id: usize,
    contender: H::Contender,
    error: Seq<char>,
)
    requires
        sessions.contains_key(id),
    ensures
        ({
            let failed = changed(sessions, id, run_finished(sessions[id], contender, Err(error)));
            let refusal = Some(
                ErrorModel::SessionFailed {
                    info: failed[id].info,
                    error: "spam failed: "@ + error,
                },
            );
            cannot_spam(failed, id) == refusal && cannot_fund(failed, id) == refusal
        }),
        ({
            let panicked = changed(sessions, id, run_panicked(sessions[id], error));
            let refusal = Some(
                ErrorModel::SessionFailed {
                    info: panicked[id].info,
                    error: "spam panicked: "@ + error,
                },
            );
            cannot_spam(panicked, id) == refusal && cannot_fund(panicked, id) == refusal
        }),
{
}

/// The accounts of a session can be funded while it is spamming whenever they
/// could be funded before.
pub proof fn spamming_session_can_be_funded<H: Host>(
    sessions: Sessions<H>,
    params: SpamParams,
    stop: CancellationToken,
    ratio: Option<watch::Sender<u8>>,
)
    requires
        cannot_fund(sessions, params.session_id) is None,
    ensures
        ({
            let running = SessionModel {
                priority_pct: ratio,
                ..marked_spamming(sessions[params.session_id], params, stop)
            };
            cannot_fund(sessions.insert(params.session_id, running), params.session_id) is None
        }),
{
}

/// A session that was added cannot spam before it is initialized, and can once
/// it is.
pub proof fn initialized_session_can_spam<H: Host>(
    sessions: Sessions<H>,
    added: SessionModel<H>,
    contender: H::Contender,
    params: SpamParams,
)
    requires
        added.info.status is Initializing,
        bad_ratio(params) is None,
    ensures
        ({
            let id = params.session_id;
            let new = sessions.insert(id, added);
            let ready = changed(new, id, initialized(new[id], contender));
            &&& cannot_spam(new, id) == Some(ErrorModel::SessionNotInitialized(added.info))
            &&& cannot_fund(new, id) == Some(ErrorModel::SessionNotInitialized(added.info))
            &&& run_refused(ready, params) is None
            &&& ready[id].contender == Some(contender)
        }),
{
}

/// A change to one session leaves the others as they are, and nothing that is
/// told of a session that is gone brings it back.
pub proof fn changes_stay_within_a_session<H: Host>(
    sessions: Sessions<H>,
    id: usize,
    other: usize,
    change: SessionModel<H>,
)
    requires
        other != id,
    ensures
        changed(sessions, id, change).contains_key(other) == sessions.contains_key(other),
        sessions.contains_key(other) ==> changed(sessions, id, change)[other] == sessions[other],
        changed(sessions.remove(id), id, change) == sessions.remove(id),
        cannot_spam(sessions.remove(id), id) == Some(ErrorModel::SessionNotFound(id)),
        cannot_fund(sessions.remove(id), id) == Some(ErrorModel::SessionNotFound(id)),
        stop_reply(sessions.remove(id), id) == Err::<Seq<char>, ErrorModel>(
            ErrorModel::SessionNotFound(id),
        ),
{
}

/// A session is ready if and only if its status says so; a session in any other
/// status is answered with the error of that status, which tells the session.
pub proof fn readiness_is_the_status(info: InfoModel)
    ensures
        not_ready(info) is None <==> info.status is Ready,
        info.status matches StatusModel::Failed(text) ==> not_ready(info) == Some(
            ErrorModel::SessionFailed { info, error: text },
        ),
        info.status is Spamming ==> not_ready(info) == Some(ErrorModel::SessionBusy(info)),
        info.status is Initializing ==> not_ready(info) == Some(
            ErrorModel::SessionNotInitialized(info),
        ),
{
}

/// A run is accepted if and only if its session is there and ready, and it has
/// either no ratio, or a ratio of at most 100 and an end. Otherwise it is
/// refused: first because there is no session, then because of the session's
/// status, then because of a ratio above 100, then because it has no end.
pub proof fn run_is_accepted_exactly_when_it_makes_sense<H: Host>(
    sessions: Sessions<H>,
    params: SpamParams,
)
    ensures
        ({
            let id = params.session_id;
            let ready = sessions.contains_key(id) && sessions[id].info.status is Ready;
            let too_high = params.priority_pct matches Some(pct) && pct > 100;
            let endless = params.priority_pct is Some && params.run_forever == Some(true);
            &&& run_refused(sessions, params) is None <==> ready && !too_high && !endless
            &&& !sessions.contains_key(id) ==> run_refused(sessions, params) == Some(
                ErrorModel::SessionNotFound(id),
            )
            &&& sessions.contains_key(id) ==> cannot_spam(sessions, id) == not_ready(
                sessions[id].info,
            )
            &&& sessions.contains_key(id) && !ready ==> run_refused(sessions, params) == not_ready(
                sessions[id].info,
            )
            &&& ready && too_high ==> run_refused(sessions, params) == Some(
                ErrorModel::InvalidArguments("priorityPct must be 0..=100"@),
            )
            &&& ready && !too_high && endless ==> run_refused(sessions, params) == Some(
                ErrorModel::InvalidArguments(
                    "priority-ratio runs require a fixed duration; --forever is not supported"@,
                ),
            )
            &&& ready ==> run_refused(sessions, params) == bad_ratio(params)
            &&& params.forever() <==> params.run_forever == Some(true)
        }),
{
}

/// A run that has started gets the session's load generator, all that the
/// request asks for, and what it leaves open in its default: a timed spammer, an
/// end, no receipts. It shares the session's stop signal, which nobody has used,
/// and with a ratio it shares the channel, into which that ratio was put.
pub proof fn started_run_gets_what_was_asked_for<H: Host>(
    before: SessionModel<H>,
    params: SpamParams,
    run: SpamRun<H>,
    started: SessionModel<H>,
)
    requires
        run_starts(before, params, run, started),
    ensures
        before.contender == Some(run.contender),
        run.opts.txs_per_period == params.txs_per_period,
        run.opts.duration == params.duration,
        params.spammer matches Some(spammer) ==> run.spammer == spammer,
        params.spammer is None ==> run.spammer == SpammerType::Timed,
        run.run_forever <==> params.run_forever == Some(true),
        run.save_receipts <==> params.save_receipts == Some(true),
        run.reply@ == "Spamming session "@ + decimal(params.session_id as nat),
        !cancelled_through(run.cancel),
        started.spam_cancel matches Some(stop) && same_token(stop, run.cancel),
        run.priority is Some <==> params.priority_pct is Some,
        params.priority_pct matches Some(pct) ==> {
            &&& started.priority_pct matches Some(sender)
            &&& sent_pct(sender) == pct
            &&& run.priority matches Some(ratio)
            &&& feeds(sender, ratio)
            &&& held_pct(ratio, pct)
        },
        params.priority_pct is None ==> started.priority_pct == before.priority_pct,
{
}

/// A run that was started with a ratio blends the two pools once per second,
/// whichever spammer was asked for; one that was started without goes by the
/// spammer.
pub proof fn started_run_blends_exactly_with_a_ratio<H: Host>(
    before: SessionModel<H>,
    params: SpamParams,
    run: SpamRun<H>,
    started: SessionModel<H>,
)
    requires
        run_starts(before, params, run, started),
    ensures
        ({
            let kind = run_kind(run.priority is Some, run.spammer);
            &&& params.priority_pct is Some <==> kind == (RunKind::PriorityRatio { period_secs: 1 })
            &&& params.priority_pct is None && params.spammer != Some(SpammerType::Blockwise)
                <==> kind == (RunKind::Timed { period_secs: 1 })
            &&& params.priority_pct is None && params.spammer == Some(SpammerType::Blockwise)
                <==> kind == RunKind::Blockwise
        }),
{
}

/// Starting a run takes the load generator out, keeps the stop signal, and tells
/// that the session is spamming and with what; nothing else changes.
pub proof fn start_marks_the_session<H: Host>(
    before: SessionModel<H>,
    params: SpamParams,
    stop: CancellationToken,
)
    ensures
        ({
            let marked = marked_spamming(before, params, stop);
            &&& marked.contender is None
            &&& marked.spam_cancel == Some(stop)
            &&& marked.info.status == StatusModel::Spamming(params)
            &&& marked == SessionModel {
                contender: None,
                spam_cancel: Some(stop),
                info: InfoModel { status: StatusModel::Spamming(params), ..before.info },
                ..before
            }
        }),
{
}

/// The end of a run puts the load generator back, takes the stop signal and the
/// ratio away, and tells whether the run went well; nothing else changes.
pub proof fn end_clears_the_session<H: Host>(
    before: SessionModel<H>,
    contender: H::Contender,
    error: Seq<char>,
)
    ensures
        run_finished(before, contender, Ok(())) == (SessionModel {
            contender: Some(contender),
            spam_cancel: None,
            priority_pct: None,
            info: InfoModel { status: StatusModel::Ready, ..before.info },
            ..before
        }),
        run_finished(before, contender, Err(error)) == (SessionModel {
            contender: Some(contender),
            spam_cancel: None,
            priority_pct: None,
            info: InfoModel {
                status: StatusModel::Failed("spam failed: "@ + error),
                ..before.info
            },
            ..before
        }),
        run_panicked(before, error) == (SessionModel {
            spam_cancel: None,
            priority_pct: None,
            info: InfoModel {
                status: StatusModel::Failed("spam panicked: "@ + error),
                ..before.info
            },
            ..before
        }),
{
}

/// An initialization gives its load generator to a session that waits for it and
/// makes it ready; nothing else changes, and no other session does.
pub proof fn initialization_makes_ready<H: Host>(before: SessionModel<H>, contender: H::Contender)
    ensures
        before.info.status is Initializing ==> initialized(before, contender) == (SessionModel {
            contender: Some(contender),
            info: InfoModel { status: StatusModel::Ready, ..before.info },
            ..before
        }),
        !(before.info.status is Initializing) ==> initialized(before, contender) == before,
{
}

/// A change reaches the session that it is made to, if that is there.
pub proof fn change_reaches_its_session<H: Host>(
    sessions: Sessions<H>,
    id: usize,
    change: SessionModel<H>,
)
    ensures
        sessions.contains_key(id) ==> changed(sessions, id, change) == sessions.insert(id, change),
        !sessions.contains_key(id) ==> changed(sessions, id, change) == sessions,
{
}

/// What the server holds is what its cache holds.
pub proof fn server_holds_its_cache<H: Host>(server: ContenderServer<H>)
    ensures
        server@ == server.sessions@,
        server.wf() <==> server.sessions.wf(),
{
}

/// A request to stop is answered by the session alone: there is none, there is
/// nothing to stop, or it is told so with its number.
pub proof fn stop_is_answered_by_the_session<H: Host>(sessions: Sessions<H>, id: usize)
    ensures
        match stop_reply(sessions, id) {
            Ok(text) => {
                &&& sessions.contains_key(id) && sessions[id].spam_cancel is Some
                &&& text == "Stopping session "@ + decimal(id as nat)
            },
            Err(e) => {
                &&& e == ErrorModel::SessionNotFound(id) <==> !sessions.contains_key(id)
                &&& e == ErrorModel::SessionNotBusy(id) <==> sessions.contains_key(id)
                    && sessions[id].spam_cancel is None
                &&& e is SessionNotFound || e is SessionNotBusy
            },
        },
{
}

/// A stop that was sent cancels the session's stop signal for all of its handles,
/// and changes nothing else of the session.
pub proof fn sent_stop_cancels_every_handle<H: Host>(
    before: SessionModel<H>,
    after: SessionModel<H>,
    handle: CancellationToken,
)
    requires
        before.spam_cancel is Some,
        stop_sent(before, after),
    ensures
        after.spam_cancel matches Some(stop) && cancelled_through(stop),
        same_token(before.spam_cancel->0, handle) ==> ever_cancelled(handle) && same_token(
            after.spam_cancel->0,
            handle,
        ),
        (SessionModel { spam_cancel: before.spam_cancel, ..after }) == before,
{
}

/// A request to set the ratio is accepted if and only if it is a percentage and
/// the session is running with a ratio; the reply tells the ratio. Otherwise the
/// ratio is looked at first, then whether there is a session.
pub proof fn mix_is_answered_by_ratio_and_session<H: Host>(
    sessions: Sessions<H>,
    params: SetMixParams,
)
    ensures
        ({
            let there = sessions.contains_key(params.session_id);
            let running = there && sessions[params.session_id].priority_pct is Some;
            match set_mix_reply(sessions, params) {
                Ok(text) => {
                    &&& params.priority_pct <= 100 && running
                    &&& text == "priority_pct set to "@ + decimal(params.priority_pct as nat)
                },
                Err(e) => {
                    &&& params.priority_pct > 100 || !running
                    &&& params.priority_pct > 100 ==> e == ErrorModel::InvalidArguments(
                        "priorityPct must be 0..=100"@,
                    )
                    &&& params.priority_pct <= 100 && !there ==> e == ErrorModel::SessionNotFound(
                        params.session_id,
                    )
                    &&& params.priority_pct <= 100 && there ==> e == ErrorModel::InvalidArguments(
                        "session is not running a priority-ratio spam"@,
                    )
                },
            }
        }),
{
}

/// A ratio that was set is the value that was put last into the session's
/// channel, every reader of the channel finds it there, and nothing else of the
/// session changes.
pub proof fn set_ratio_is_the_last_one_sent<H: Host>(
    before: SessionModel<H>,
    after: SessionModel<H>,
    pct: u8,
    receiver: watch::Receiver<u8>,
)
    requires
        before.priority_pct is Some,
        ratio_set(before, after, pct),
    ensures
        after.priority_pct matches Some(sender) && sent_pct(sender) == pct,
        feeds(before.priority_pct->0, receiver) ==> held_pct(receiver, pct) && feeds(
            after.priority_pct->0,
            receiver,
        ),
        (SessionModel { priority_pct: before.priority_pct, ..after }) == before,
{
}

/// The accounts of a session can be funded if and only if it is there, ready or
/// spamming, and its funder, connection and pools are known. Otherwise there is
/// no session, it has failed, or it is not initialized.
pub proof fn funding_needs_an_initialized_session<H: Host>(sessions: Sessions<H>, id: usize)
    ensures
        ({
            let session = sessions[id];
            let there = sessions.contains_key(id);
            let known = session.funder is Some && session.rpc_client is Some
                && session.agent_store is Some;
            &&& cannot_fund(sessions, id) is None <==> there && known && (
            session.info.status is Ready || session.info.status is Spamming)
            &&& !there ==> cannot_fund(sessions, id) == Some(ErrorModel::SessionNotFound(id))
            &&& there ==> (session.info.status matches StatusModel::Failed(text) ==> cannot_fund(
                sessions,
                id,
            ) == Some(ErrorModel::SessionFailed { info: session.info, error: text }))
            &&& there && (session.info.status is Initializing || !(
            session.info.status is Failed) && !known) ==> cannot_fund(sessions, id) == Some(
                ErrorModel::SessionNotInitialized(session.info),
            )
        }),
{
}

/// A request to fund accounts covers a pool if and only if the store holds it and
/// it has the class that the request names, which is that of the spammers where
/// it names none; each as often as the store has it and in the store's order:
/// `places` are rising, the pool at each of them is covered, and every place of a
/// pool of the class is among them.
pub proof fn funding_covers_the_class_that_was_named(
    store: Seq<PoolModel>,
    params: FundAccountsParams,
    class: AgentClass,
    pool: PoolModel,
) -> (places: Seq<int>)
    requires
        params.agent_class == Some(class) || params.agent_class is None && class
            == AgentClass::Spammer,
    ensures
        ({
            let covered = pools_of(store, class_to_fund(params));
            &&& covered.contains(pool) <==> store.contains(pool) && pool.agent_class == class
            &&& places.len() == covered.len()
            &&& forall|k: int|
                0 <= k < places.len() ==> {
                    &&& 0 <= #[trigger] places[k] < store.len()
                    &&& covered[k] == store[places[k]]
                }
            &&& forall|j: int, k: int| 0 <= j < k < places.len() ==> places[j] < places[k]
            &&& forall|i: int|
                0 <= i < store.len() && (#[trigger] store[i]).agent_class == class
                    ==> places.contains(i)
        }),
{
    pools_of_class_are_complete(store, class, pool);
    pools_of_class_keep_their_places(store, class)
}

/// Accounts are funded in the background if and only if the run has no end and
/// the funder, the pools, the connection and the minimum are all known.
pub proof fn background_funding_needs_all_four<H: Host>(session: SessionModel<H>, endless: bool)
    ensures
        funds_in_background(session, endless) <==> endless && session.funder is Some
            && session.agent_store is Some && session.rpc_client is Some
            && session.min_balance is Some,
{
}

} // verus!
