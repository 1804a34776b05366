use alloy::rpc::types::TransactionRequest;
use contender::agents::{AgentClass, AgentPool, AgentStore};
use contender::amount::Amount;
use contender::batch_composer::{BatchComposer, PriorityRatioComposer};
use contender::error::ContenderRpcError;
use contender::params::{
    AddSessionParams, FundAccountsParams, SetMixParams, SpamParams, SpammerType,
};
use contender::request::{ExecutionRequest, NamedTxRequest};
use contender::server::{
    error_if_session_not_ready, log_step, ContenderServer, LogEvent, LogStep, SessionSeed,
};
use contender::session::{ContenderSessionCache, ContenderSessionInfo, Host, SessionStatus};
use contender::spam_run::{loop_step, panic_message, LoopStep, RunKind};
use contender::text::{decimal_text, word_bytes};

struct TestHost;

impl Host for TestHost {
    type Fresh = &'static str;
    type Contender = String;
    type Signer = u32;
    type Client = &'static str;
    type Logs = u8;
}

type Server = ContenderServer<TestHost>;

fn add_params(name: &str, seed: Option<&str>) -> AddSessionParams {
    AddSessionParams {
        name: name.to_string(),
        rpc_url: "http://localhost:8545".to_string(),
        seed: seed.map(|s| s.to_string()),
    }
}

fn spam_params(session_id: usize) -> SpamParams {
    SpamParams {
        session_id,
        txs_per_period: Some(20),
        duration: Some(5),
        spammer: None,
        save_receipts: None,
        run_forever: None,
        priority_pct: None,
    }
}

fn store() -> AgentStore {
    AgentStore {
        pools: vec![
            AgentPool {
                name: "priority".to_string(),
                agent_class: AgentClass::Spammer,
                addresses: vec![[1; 20]],
            },
            AgentPool {
                name: "setup".to_string(),
                agent_class: AgentClass::Setup,
                addresses: vec![[2; 20]],
            },
            AgentPool {
                name: "normal".to_string(),
                agent_class: AgentClass::Spammer,
                addresses: vec![[3; 20]],
            },
        ],
    }
}

fn empty_server() -> Server {
    ContenderServer::new(ContenderSessionCache::new())
}

/// A server with one session, number 0, that is ready to spam.
fn ready_server() -> Server {
    let mut server = empty_server();
    let info = server.add_session(add_params("alpha", None), "fresh", 7);
    assert_eq!(info.id, 0);
    assert_eq!(server.begin_init(0), Some("fresh"));
    server.cache_funding(0, 42, store(), "client", Amount::from_units(100));
    server.init_succeeded(0, "generator".to_string());
    server
}

fn status_of(server: &Server, id: usize) -> String {
    show_status(&server.get_session(id).unwrap())
}

fn show_status(info: &ContenderSessionInfo) -> String {
    match &info.status {
        SessionStatus::Initializing => "initializing".to_string(),
        SessionStatus::Ready => "ready".to_string(),
        SessionStatus::Spamming(p) => format!("spamming {}", p.session_id),
        SessionStatus::Failed(text) => format!("failed: {text}"),
    }
}

fn show_error(error: ContenderRpcError) -> String {
    match error {
        ContenderRpcError::SessionNotFound(id) => format!("not found {id}"),
        ContenderRpcError::SessionNotBusy(id) => format!("not busy {id}"),
        ContenderRpcError::SessionBusy(info) => format!("busy {}", info.name),
        ContenderRpcError::SessionFailed { info, error } => {
            format!("failed {}: {}", info.name, error)
        }
        ContenderRpcError::SessionNotInitialized(info) => format!("not initialized {}", info.name),
        ContenderRpcError::InvalidArguments(text) => format!("invalid: {text}"),
    }
}

fn refused<T>(result: Result<T, ContenderRpcError>) -> String {
    match result {
        Ok(_) => panic!("accepted"),
        Err(e) => show_error(e),
    }
}

fn accepted<T>(result: Result<T, ContenderRpcError>) -> T {
    match result {
        Ok(value) => value,
        Err(e) => panic!("{}", show_error(e)),
    }
}

#[test]
fn numbers_are_written_in_decimal() {
    assert_eq!(decimal_text(0), "0");
    assert_eq!(decimal_text(9), "9");
    assert_eq!(decimal_text(10), "10");
    assert_eq!(decimal_text(1_234_567_890), "1234567890");
    assert_eq!(decimal_text(u64::MAX), "18446744073709551615");
}

#[test]
fn words_are_written_in_big_endian() {
    for n in [0usize, 1, 255, 256, 0x0102_0304, usize::MAX] {
        assert_eq!(word_bytes(n), n.to_be_bytes().to_vec());
    }
}

#[test]
fn sessions_are_counted_and_listed() {
    let mut server = empty_server();
    assert_eq!(server.status().num_sessions, 0);
    assert!(server.get_all_sessions().is_empty());
    for name in ["a", "b", "c"] {
        server.add_session(add_params(name, None), "fresh", 0);
    }
    assert_eq!(server.status().num_sessions, 3);
    server.remove_session(1);
    server.remove_session(1);
    assert_eq!(server.status().num_sessions, 2);
    assert!(server.get_session(1).is_none());
    let info = server.add_session(add_params("d", None), "fresh", 0);
    assert_eq!(info.id, 3);
    assert_eq!(info.name, "d");
    assert_eq!(info.rpc_url, "http://localhost:8545");
    assert_eq!(show_status(&info), "initializing");
    let listed: Vec<(usize, String)> = server
        .get_all_sessions()
        .into_iter()
        .map(|i| (i.id, i.name))
        .collect();
    assert_eq!(
        listed,
        vec![
            (0, "a".to_string()),
            (2, "c".to_string()),
            (3, "d".to_string())
        ]
    );
    assert!(!server.sessions.is_full());
}

#[test]
fn seed_comes_from_the_caller_or_the_index() {
    let mut server = empty_server();
    match server.session_seed(&add_params("a", Some("777"))) {
        SessionSeed::Text(text) => assert_eq!(text, "777"),
        SessionSeed::Bytes(_) => unreachable!(),
    }
    server.add_session(add_params("a", None), "fresh", 0);
    server.add_session(add_params("b", None), "fresh", 0);
    match server.session_seed(&add_params("c", None)) {
        SessionSeed::Bytes(bytes) => assert_eq!(bytes, 2usize.to_be_bytes().to_vec()),
        SessionSeed::Text(_) => unreachable!(),
    }
}

#[test]
fn initialization_takes_the_generator_once() {
    let mut server = empty_server();
    server.add_session(add_params("a", None), "fresh", 0);
    assert_eq!(server.begin_init(9), None);
    assert_eq!(server.begin_init(0), Some("fresh"));
    assert_eq!(server.begin_init(0), None);
    assert_eq!(refused(server.spam(spam_params(0))), "not initialized a");
    server.init_failed(0, "Timeout".to_string());
    assert_eq!(status_of(&server, 0), "failed: Timeout");
    assert_eq!(refused(server.spam(spam_params(0))), "failed a: Timeout");
    server.init_succeeded(5, "nobody".to_string());
    server.init_failed(5, "nobody".to_string());
    assert_eq!(server.status().num_sessions, 1);
}

#[test]
fn readiness_is_told_by_the_status() {
    let mut info = ready_server().get_session(0).unwrap();
    assert!(error_if_session_not_ready(&info).is_ok());
    info.status = SessionStatus::Initializing;
    assert_eq!(
        refused(error_if_session_not_ready(&info)),
        "not initialized alpha"
    );
    info.status = SessionStatus::Spamming(spam_params(0));
    assert_eq!(refused(error_if_session_not_ready(&info)), "busy alpha");
    info.status = SessionStatus::Failed("boom".to_string());
    assert_eq!(
        refused(error_if_session_not_ready(&info)),
        "failed alpha: boom"
    );
}

#[test]
fn run_takes_the_generator_and_gives_it_back() {
    let mut server = ready_server();
    assert_eq!(refused(server.spam(spam_params(3))), "not found 3");
    let run = accepted(server.spam(spam_params(0)));
    assert_eq!(run.contender, "generator");
    assert_eq!(run.reply, "Spamming session 0");
    assert_eq!(run.opts.txs_per_period, Some(20));
    assert_eq!(run.opts.duration, Some(5));
    assert_eq!(run.spammer, SpammerType::Timed);
    assert!(!run.run_forever);
    assert!(!run.save_receipts);
    assert!(run.priority.is_none());
    assert_eq!(run.kind(), RunKind::Timed { period_secs: 1 });
    assert_eq!(status_of(&server, 0), "spamming 0");
    assert_eq!(refused(server.spam(spam_params(0))), "busy alpha");
    server.spam_finished(0, run.contender, Ok(()));
    assert_eq!(status_of(&server, 0), "ready");
    let mut params = spam_params(0);
    params.spammer = Some(SpammerType::Blockwise);
    params.save_receipts = Some(true);
    let run = accepted(server.spam(params));
    assert_eq!(run.contender, "generator");
    assert_eq!(run.kind(), RunKind::Blockwise);
    assert!(run.save_receipts);
}

#[test]
fn failed_run_is_reported_to_later_requests() {
    let mut server = ready_server();
    let run = accepted(server.spam(spam_params(0)));
    server.spam_finished(0, run.contender, Err("rpc down".to_string()));
    assert_eq!(status_of(&server, 0), "failed: spam failed: rpc down");
    assert_eq!(
        refused(server.spam(spam_params(0))),
        "failed alpha: spam failed: rpc down"
    );
    assert_eq!(refused(server.stop(0)), "not busy 0");
}

#[test]
fn panicked_run_leaves_a_failed_session() {
    let mut server = ready_server();
    let mut params = spam_params(0);
    params.priority_pct = Some(10);
    let _run = accepted(server.spam(params));
    server.spam_panicked(0, "index out of bounds");
    assert_eq!(
        status_of(&server, 0),
        "failed: spam panicked: index out of bounds"
    );
    assert_eq!(refused(server.stop(0)), "not busy 0");
    assert_eq!(
        refused(server.set_mix(SetMixParams {
            session_id: 0,
            priority_pct: 10
        })),
        "invalid: session is not running a priority-ratio spam"
    );
}

#[test]
fn panics_are_told_in_their_own_words() {
    let owned = "owned".to_string();
    assert_eq!(panic_message(Some("text"), None), "text");
    assert_eq!(panic_message(Some("text"), Some(&owned)), "text");
    assert_eq!(panic_message(None, Some(&owned)), "owned");
    assert_eq!(panic_message(None, None), "unknown panic");
}

#[test]
fn run_that_outlives_its_session_changes_nothing() {
    let mut server = ready_server();
    let run = accepted(server.spam(spam_params(0)));
    server.remove_session(0);
    server.spam_finished(0, run.contender, Ok(()));
    server.spam_panicked(0, "late");
    server.funding_failed(0, "late");
    assert_eq!(server.status().num_sessions, 0);
    assert_eq!(refused(server.stop(0)), "not found 0");
}

#[test]
fn stop_reaches_the_run() {
    let mut server = ready_server();
    assert_eq!(refused(server.stop(0)), "not busy 0");
    assert_eq!(refused(server.stop(8)), "not found 8");
    let mut params = spam_params(0);
    params.run_forever = Some(true);
    let run = accepted(server.spam(params));
    assert!(run.run_forever);
    assert_eq!(run.after_round(false), LoopStep::Restart);
    assert_eq!(run.after_round(true), LoopStep::Finish);
    assert!(!run.cancel.is_cancelled());
    assert_eq!(accepted(server.stop(0)), "Stopping session 0");
    assert!(run.cancel.is_cancelled());
    assert_eq!(run.after_round(false), LoopStep::Finish);
    assert_eq!(status_of(&server, 0), "spamming 0");
    assert_eq!(accepted(server.stop(0)), "Stopping session 0");
}

#[test]
fn stop_of_one_run_leaves_the_next_alone() {
    let mut server = ready_server();
    let first = accepted(server.spam(spam_params(0)));
    accepted(server.stop(0));
    server.spam_finished(0, first.contender, Ok(()));
    let second = accepted(server.spam(spam_params(0)));
    assert!(first.cancel.is_cancelled());
    assert!(!second.cancel.is_cancelled());
}

#[test]
fn rounds_are_repeated_only_when_asked_for() {
    for run_forever in [false, true] {
        for failed in [false, true] {
            for cancelled in [false, true] {
                let expected = if run_forever && !failed && !cancelled {
                    LoopStep::Restart
                } else {
                    LoopStep::Finish
                };
                assert_eq!(loop_step(run_forever, failed, cancelled), expected);
            }
        }
    }
}

#[test]
fn set_mix_reaches_the_running_composer() {
    let request = || {
        ExecutionRequest::Tx(Box::new(NamedTxRequest {
            name: None,
            kind: None,
            tx: TransactionRequest::default(),
        }))
    };
    let requests = |n: usize| (0..n).map(|_| request()).collect::<Vec<_>>();
    let mut server = ready_server();
    let mut params = spam_params(0);
    params.priority_pct = Some(30);
    params.spammer = Some(SpammerType::Blockwise);
    let run = accepted(server.spam(params));
    assert_eq!(run.kind(), RunKind::PriorityRatio { period_secs: 1 });
    let ratio = run.priority.clone().unwrap();
    let mut composer = PriorityRatioComposer::new(requests(100), requests(100), 10, ratio);
    assert_eq!(composer.compose(0).len(), 13);
    let reply = server.set_mix(SetMixParams {
        session_id: 0,
        priority_pct: 100,
    });
    assert_eq!(accepted(reply), "priority_pct set to 100");
    assert_eq!(composer.compose(1).len(), 20);
    let reply = server.set_mix(SetMixParams {
        session_id: 0,
        priority_pct: 0,
    });
    assert_eq!(accepted(reply), "priority_pct set to 0");
    assert_eq!(composer.compose(2).len(), 10);
    server.spam_finished(0, run.contender, Ok(()));
    assert_eq!(
        refused(server.set_mix(SetMixParams {
            session_id: 0,
            priority_pct: 50
        })),
        "invalid: session is not running a priority-ratio spam"
    );
}

#[test]
fn set_mix_refuses_what_makes_no_sense() {
    let mut server = ready_server();
    assert_eq!(
        refused(server.set_mix(SetMixParams {
            session_id: 77,
            priority_pct: 101
        })),
        "invalid: priorityPct must be 0..=100"
    );
    assert_eq!(
        refused(server.set_mix(SetMixParams {
            session_id: 77,
            priority_pct: 100
        })),
        "not found 77"
    );
    let _run = accepted(server.spam(spam_params(0)));
    assert_eq!(
        refused(server.set_mix(SetMixParams {
            session_id: 0,
            priority_pct: 100
        })),
        "invalid: session is not running a priority-ratio spam"
    );
}

#[test]
fn refused_ratios_leave_the_session_ready() {
    let mut server = ready_server();
    let mut params = spam_params(0);
    params.priority_pct = Some(101);
    assert_eq!(
        refused(server.spam(params)),
        "invalid: priorityPct must be 0..=100"
    );
    assert_eq!(status_of(&server, 0), "ready");
    assert_eq!(refused(server.stop(0)), "not busy 0");

    params.priority_pct = Some(100);
    params.run_forever = Some(true);
    assert_eq!(
        refused(server.spam(params)),
        "invalid: priority-ratio runs require a fixed duration; --forever is not supported"
    );
    assert_eq!(status_of(&server, 0), "ready");

    params.run_forever = None;
    let run = accepted(server.spam(params));
    assert_eq!(run.reply, "Spamming session 0");
    assert_eq!(status_of(&server, 0), "spamming 0");
}

#[test]
fn session_is_checked_before_the_ratio() {
    let mut server = ready_server();
    let _run = accepted(server.spam(spam_params(0)));
    let mut params = spam_params(0);
    params.priority_pct = Some(101);
    assert_eq!(refused(server.spam(params)), "busy alpha");
    params.session_id = 77;
    assert_eq!(refused(server.spam(params)), "not found 77");
}

#[test]
fn funding_covers_every_pool_of_the_class() {
    let mut server = ready_server();
    let params = FundAccountsParams {
        session_id: 0,
        amount: Amount::from_units(55),
        agent_class: None,
    };
    {
        let order = accepted(server.fund_accounts(params));
        assert_eq!(*order.funder, 42);
        assert_eq!(*order.rpc_client, "client");
        assert_eq!(order.amount.limbs, [55, 0, 0, 0]);
        assert_eq!(order.reply, "Funding accounts for session 0");
        let names: Vec<&str> = order.pools.iter().map(|p| p.name.as_str()).collect();
        assert_eq!(names, vec!["priority", "normal"]);
        assert_eq!(order.pools[1].addresses, vec![[3u8; 20]]);
    }
    let setup = FundAccountsParams {
        agent_class: Some(AgentClass::Setup),
        ..params
    };
    assert_eq!(accepted(server.fund_accounts(setup)).pools.len(), 1);
    let deployer = FundAccountsParams {
        agent_class: Some(AgentClass::Deployer),
        ..params
    };
    assert!(accepted(server.fund_accounts(deployer)).pools.is_empty());
    let _run = accepted(server.spam(spam_params(0)));
    assert_eq!(accepted(server.fund_accounts(params)).pools.len(), 2);
    server.funding_failed(0, "no money");
    assert_eq!(
        status_of(&server, 0),
        "failed: funding accounts failed: no money"
    );
    assert_eq!(
        refused(server.fund_accounts(params)),
        "failed alpha: funding accounts failed: no money"
    );
}

#[test]
fn funding_needs_an_initialized_session() {
    let mut server = empty_server();
    let params = FundAccountsParams {
        session_id: 0,
        amount: Amount::from_units(1),
        agent_class: None,
    };
    assert_eq!(refused(server.fund_accounts(params)), "not found 0");
    server.add_session(add_params("a", None), "fresh", 0);
    assert_eq!(refused(server.fund_accounts(params)), "not initialized a");
    server.init_succeeded(0, "generator".to_string());
    assert_eq!(refused(server.fund_accounts(params)), "not initialized a");
    server.cache_funding(0, 1, store(), "client", Amount::from_units(9));
    assert!(accepted(server.fund_accounts(params)).pools.len() == 2);
}

#[test]
fn endless_runs_are_funded_in_the_background() {
    let mut params = spam_params(0);
    params.run_forever = Some(true);

    let mut server = empty_server();
    server.add_session(add_params("a", None), "fresh", 0);
    server.init_succeeded(0, "generator".to_string());
    let run = accepted(server.spam(params));
    assert!(server.background_funding(0, &run).is_none());
    server.cache_funding(0, 1, store(), "client", Amount::from_units(9));
    assert!(server.background_funding(1, &run).is_none());
    let cancel = {
        let data = server.background_funding(0, &run).unwrap();
        assert_eq!(*data.funder, 1);
        assert_eq!(*data.rpc_client, "client");
        assert_eq!(data.min_balance.limbs, [9, 0, 0, 0]);
        assert_eq!(data.agent_store.pools.len(), 3);
        data.cancel
    };
    assert!(!cancel.is_cancelled());
    accepted(server.stop(0));
    assert!(cancel.is_cancelled());

    for forever in [None, Some(false)] {
        let mut server = ready_server();
        params.run_forever = forever;
        let run = accepted(server.spam(params));
        assert!(server.background_funding(0, &run).is_none());
    }
}

#[test]
fn idle_sessions_have_nothing_running() {
    let mix = SetMixParams {
        session_id: 0,
        priority_pct: 50,
    };
    let not_mixed = "invalid: session is not running a priority-ratio spam";
    let mut server = empty_server();
    server.add_session(add_params("a", None), "fresh", 0);
    assert_eq!(refused(server.stop(0)), "not busy 0");
    assert_eq!(refused(server.set_mix(mix)), not_mixed);
    server.init_succeeded(0, "generator".to_string());
    assert_eq!(refused(server.stop(0)), "not busy 0");
    assert_eq!(refused(server.set_mix(mix)), not_mixed);
}

#[test]
fn initialization_is_taken_in_once() {
    let mut server = ready_server();
    server.init_succeeded(0, "another".to_string());
    let run = accepted(server.spam(spam_params(0)));
    assert_eq!(run.contender, "generator");
    server.init_succeeded(0, "another".to_string());
    assert_eq!(status_of(&server, 0), "spamming 0");
}

#[test]
fn log_subscriptions_need_a_session() {
    let server = ready_server();
    match server.subscribe_logs(0) {
        Ok(subscription) => {
            assert_eq!(*subscription.logs, 7);
            assert!(!subscription.cancel.is_cancelled());
        }
        Err(_) => unreachable!(),
    }
    match server.subscribe_logs(12) {
        Ok(_) => unreachable!(),
        Err(reject) => {
            assert_eq!(reject.code, 5);
            assert_eq!(reject.message, "Session 12 not found");
        }
    }
}

#[test]
fn log_lines_are_sent_until_something_ends() {
    assert!(matches!(log_step(LogEvent::Line("x".to_string())), LogStep::Send(t) if t == "x"));
    assert!(matches!(log_step(LogEvent::Sent), LogStep::Await));
    assert!(matches!(log_step(LogEvent::LinesEnded), LogStep::Stop));
    assert!(matches!(log_step(LogEvent::SendFailed), LogStep::Stop));
    assert!(matches!(log_step(LogEvent::Cancelled), LogStep::Stop));
}
