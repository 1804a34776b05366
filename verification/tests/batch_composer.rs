use alloy::primitives::Address;
use alloy::rpc::types::TransactionRequest;
use contender::batch_composer::{take, BatchComposer, PriorityRatioComposer, ReplayComposer};
use contender::request::{ExecutionRequest, NamedTxRequest};
use tokio::sync::watch;

/// Builds a dummy request whose `from` encodes which pool/index it came from,
/// so tests can assert exactly which txs a batch drew from each stream.
fn req(tag: u64) -> ExecutionRequest {
    let tx = TransactionRequest {
        from: Some(Address::with_last_byte(tag as u8)),
        ..Default::default()
    };
    ExecutionRequest::Tx(Box::new(NamedTxRequest {
        name: Some(format!("tx-{tag}")),
        kind: None,
        tx,
    }))
}

fn stream(prefix: u64, n: usize) -> Vec<ExecutionRequest> {
    (0..n).map(|i| req(prefix + i as u64)).collect()
}

fn watch_pct(pct: u8) -> watch::Receiver<u8> {
    watch::channel(pct).1
}

fn name_of(r: &ExecutionRequest) -> String {
    match r {
        ExecutionRequest::Tx(t) => t.name.clone().unwrap(),
        ExecutionRequest::Bundle(_) => unreachable!(),
    }
}

fn names(batch: &[ExecutionRequest]) -> Vec<String> {
    batch.iter().map(name_of).collect()
}

#[test]
fn replay_composer_round_robins_chunks() {
    let mut c = ReplayComposer::new(vec![stream(0, 1), stream(10, 1), stream(20, 1)]);
    let first_of = |b: &[ExecutionRequest]| name_of(&b[0]);
    assert_eq!(first_of(&c.compose(0)), "tx-0");
    assert_eq!(first_of(&c.compose(1)), "tx-10");
    assert_eq!(first_of(&c.compose(2)), "tx-20");
    assert_eq!(first_of(&c.compose(3)), "tx-0");
}

#[test]
fn replay_composer_empty_is_empty() {
    let mut c = ReplayComposer::new(vec![]);
    assert!(c.compose(0).is_empty());
}

#[test]
fn replay_composer_takes_the_last_tick() {
    let mut c = ReplayComposer::new(vec![stream(0, 2), stream(10, 2)]);
    assert_eq!(names(&c.compose(u64::MAX)), vec!["tx-10", "tx-11"]);
    assert_eq!(names(&c.compose(u64::MAX - 1)), vec!["tx-0", "tx-1"]);
}

#[test]
fn replay_composer_copies_the_whole_request() {
    let bundle = ExecutionRequest::Bundle(vec![
        NamedTxRequest {
            name: None,
            kind: Some("swap".to_string()),
            tx: TransactionRequest {
                nonce: Some(7),
                gas: Some(21_000),
                ..Default::default()
            },
        },
        NamedTxRequest {
            name: Some("second".to_string()),
            kind: None,
            tx: TransactionRequest::default(),
        },
    ]);
    let mut c = ReplayComposer::new(vec![vec![bundle, req(3)]]);
    for tick in 0..2 {
        let batch = c.compose(tick);
        assert_eq!(batch.len(), 2);
        match &batch[0] {
            ExecutionRequest::Bundle(txs) => {
                assert_eq!(txs.len(), 2);
                assert_eq!(txs[0].name, None);
                assert_eq!(txs[0].kind.as_deref(), Some("swap"));
                assert_eq!(txs[0].tx.nonce, Some(7));
                assert_eq!(txs[0].tx.gas, Some(21_000));
                assert_eq!(txs[1].name.as_deref(), Some("second"));
                assert_eq!(txs[1].tx, TransactionRequest::default());
            }
            ExecutionRequest::Tx(_) => unreachable!(),
        }
        match &batch[1] {
            ExecutionRequest::Tx(t) => {
                assert_eq!(t.tx.from, Some(Address::with_last_byte(3)));
            }
            ExecutionRequest::Bundle(_) => unreachable!(),
        }
    }
}

#[test]
fn priority_ratio_composer_adds_priority_on_top_of_full_normal() {
    let cases: [(u8, usize); 4] = [(0, 0), (50, 6), (100, 11), (64, 7)];
    for (pct, expect_priority) in cases {
        let batch = 11;
        let mut c = PriorityRatioComposer::new(
            stream(1000, batch * 4),
            stream(2000, batch * 4),
            batch,
            watch_pct(pct),
        );
        let out = c.compose(0);
        // Normal is a constant full-rate baseline; priority is added on top.
        assert_eq!(out.len(), batch + expect_priority);
        let from_priority = out
            .iter()
            .filter(|r| name_of(r).starts_with("tx-1"))
            .count();
        assert_eq!(from_priority, expect_priority);
        assert_eq!(c.priority_cursor(), expect_priority);
        assert_eq!(c.normal_cursor(), batch);
    }
}

#[test]
fn priority_ratio_composer_clamps_over_100() {
    assert_eq!(PriorityRatioComposer::priority_count(11, 200), 11);
}

#[test]
fn priority_ratio_composer_drains_gracefully() {
    let batch = 5;
    // Only 3 priority txs available but pct=100 wants 5; priority drains to
    // the 3 remaining without panicking, while normal still supplies its
    // full baseline of 5, so the batch is 3 + 5 = 8.
    let mut c = PriorityRatioComposer::new(stream(0, 3), stream(100, 100), batch, watch_pct(100));
    let out = c.compose(0);
    assert_eq!(out.len(), 8);
}

#[test]
fn priority_count_rounds_to_the_nearest() {
    assert_eq!(PriorityRatioComposer::priority_count(0, 100), 0);
    assert_eq!(PriorityRatioComposer::priority_count(10, 4), 0);
    assert_eq!(PriorityRatioComposer::priority_count(10, 5), 1);
    assert_eq!(PriorityRatioComposer::priority_count(1, 49), 0);
    assert_eq!(PriorityRatioComposer::priority_count(1, 50), 1);
    assert_eq!(PriorityRatioComposer::priority_count(250, 33), 83);
    assert_eq!(PriorityRatioComposer::priority_count(1234, 57), 703);
    assert_eq!(PriorityRatioComposer::priority_count(usize::MAX, 0), 0);
    assert_eq!(
        PriorityRatioComposer::priority_count(usize::MAX, 100),
        usize::MAX
    );
    assert_eq!(
        PriorityRatioComposer::priority_count(usize::MAX, 255),
        usize::MAX
    );
}

#[test]
fn priority_count_never_falls_as_the_ratio_rises() {
    for batch in [0usize, 1, 7, 99, 100, 101, 12345] {
        let mut last = 0;
        for pct in 0..=255u8 {
            let count = PriorityRatioComposer::priority_count(batch, pct);
            assert!(last <= count && count <= batch);
            last = count;
        }
    }
}

#[test]
fn composer_follows_the_live_ratio() {
    let (tx, rx) = watch::channel(0u8);
    let mut c = PriorityRatioComposer::new(stream(100, 10), stream(200, 10), 2, rx);
    assert_eq!(names(&c.compose(0)), vec!["tx-200", "tx-201"]);
    tx.send_replace(100);
    assert_eq!(
        names(&c.compose(1)),
        vec!["tx-100", "tx-101", "tx-202", "tx-203"]
    );
    tx.send_replace(50);
    assert_eq!(names(&c.compose(2)), vec!["tx-102", "tx-204", "tx-205"]);
    assert_eq!(c.priority_cursor(), 3);
    assert_eq!(c.normal_cursor(), 6);
}

#[test]
fn ticks_send_each_stream_in_order_until_it_is_used_up() {
    let mut c = PriorityRatioComposer::new(stream(0, 3), stream(100, 5), 2, watch_pct(0));
    assert_eq!(
        names(&c.compose_at(100)),
        vec!["tx-0", "tx-1", "tx-100", "tx-101"]
    );
    assert_eq!(names(&c.compose_at(0)), vec!["tx-102", "tx-103"]);
    assert_eq!(names(&c.compose_at(200)), vec!["tx-2", "tx-104"]);
    assert!(c.compose_at(100).is_empty());
    assert_eq!(c.priority_cursor(), 3);
    assert_eq!(c.normal_cursor(), 5);
}

#[test]
fn priority_cursor_moves_by_the_sum_of_the_shares() {
    let mut c = PriorityRatioComposer::new(stream(0, 12), stream(100, 100), 10, watch_pct(0));
    for (pct, cursor) in [(30, 3), (0, 3), (55, 9), (25, 12), (100, 12)] {
        c.compose_at(pct);
        assert_eq!(c.priority_cursor(), cursor);
    }
}

#[test]
fn take_clamps_at_the_end() {
    let src = stream(0, 4);
    let mut cursor = 1;
    assert_eq!(names(&take(&src, &mut cursor, 2)), vec!["tx-1", "tx-2"]);
    assert_eq!(cursor, 3);
    assert_eq!(names(&take(&src, &mut cursor, usize::MAX)), vec!["tx-3"]);
    assert_eq!(cursor, 4);
    assert!(take(&src, &mut cursor, 1).is_empty());
    assert_eq!(cursor, 4);
    let mut start = 0;
    assert!(take(&src, &mut start, 0).is_empty());
    assert_eq!(start, 0);
}
