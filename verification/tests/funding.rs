use contender::agents::{all_addresses, Address, AgentClass, AgentPool, AgentStore};
use contender::amount::Amount;
use contender::funding::{FundingAction, FundingEvent, FundingLoop, FundingPass};

fn pool(name: &str, agent_class: AgentClass, accounts: &[u8]) -> AgentPool {
    AgentPool {
        name: name.to_string(),
        agent_class,
        addresses: accounts.iter().map(|a| [*a; 20]).collect(),
    }
}

fn store() -> AgentStore {
    AgentStore {
        pools: vec![
            pool("priority", AgentClass::Spammer, &[1, 2]),
            pool("setup", AgentClass::Setup, &[9]),
            pool("normal", AgentClass::Spammer, &[3]),
        ],
    }
}

fn show(action: FundingAction) -> String {
    match action {
        FundingAction::AwaitSignal => "wait".to_string(),
        FundingAction::QueryBalance(address) => format!("query {}", address[0]),
        FundingAction::FundPool { pool, amount } => {
            format!("fund {} with {}", pool.name, amount.limbs[0])
        }
        FundingAction::Exit => "exit".to_string(),
    }
}

fn balance(units: u64) -> FundingEvent {
    FundingEvent::Balance(Amount::from_units(units))
}

#[test]
fn threshold_is_a_tenth_above_the_minimum() {
    assert_eq!(
        Amount::from_units(1000).top_up_threshold().limbs,
        [1100, 0, 0, 0]
    );
    assert_eq!(Amount::from_units(9).top_up_threshold().limbs, [9, 0, 0, 0]);
    assert_eq!(Amount::from_units(0).top_up_threshold().limbs, [0, 0, 0, 0]);
}

#[test]
fn threshold_carries_between_limbs() {
    let large = Amount {
        limbs: [u64::MAX, 0, 0, 0],
    };
    assert_eq!(
        large.top_up_threshold().limbs,
        [1_844_674_407_370_955_160, 1, 0, 0]
    );
    let ten_words = Amount {
        limbs: [0, 10, 0, 0],
    };
    assert_eq!(ten_words.top_up_threshold().limbs, [0, 11, 0, 0]);
}

#[test]
fn threshold_stops_at_the_largest_amount() {
    let largest = Amount {
        limbs: [u64::MAX; 4],
    };
    assert_eq!(largest.top_up_threshold().limbs, [u64::MAX; 4]);
    let half = Amount {
        limbs: [0, 0, 0, 1 << 63],
    };
    assert!(half.top_up_threshold().is_below(&largest));
    assert!(half.is_below(&half.top_up_threshold()));
}

#[test]
fn balance_below_the_largest_minimum_is_low() {
    let largest = Amount {
        limbs: [u64::MAX; 4],
    };
    for limbs in [
        [u64::MAX - 1, u64::MAX, u64::MAX, u64::MAX],
        [0, 0, 0, 1 << 63],
        [u64::MAX; 4],
    ] {
        let mut funding = FundingLoop::new(&store(), largest);
        funding.step(FundingEvent::BatchDone);
        let action = funding.step(FundingEvent::Balance(Amount { limbs }));
        match action {
            FundingAction::FundPool { pool, amount } => {
                assert_eq!(pool.name, "priority");
                assert_eq!(amount.limbs, [u64::MAX; 4]);
            }
            _ => panic!("not funded"),
        }
    }
}

#[test]
fn amounts_compare_by_their_high_limbs() {
    let low = Amount {
        limbs: [u64::MAX, u64::MAX, u64::MAX, 0],
    };
    let high = Amount {
        limbs: [0, 0, 0, 1],
    };
    assert!(low.is_below(&high));
    assert!(!high.is_below(&low));
    assert!(!low.is_below(&low));
}

#[test]
fn every_pool_of_a_class_is_found() {
    let names: Vec<String> = store()
        .pools_of_class(AgentClass::Spammer)
        .into_iter()
        .map(|p| p.name)
        .collect();
    assert_eq!(names, vec!["priority", "normal"]);
    assert_eq!(store().pools_of_class(AgentClass::Setup).len(), 1);
    assert!(store().pools_of_class(AgentClass::Deployer).is_empty());
    let addresses: Vec<Address> = all_addresses(&store().pools);
    assert_eq!(addresses, vec![[1u8; 20], [2; 20], [9; 20], [3; 20]]);
}

#[test]
fn quiet_round_checks_every_spammer_account() {
    let mut funding = FundingLoop::new(&store(), Amount::from_units(100));
    assert_eq!(show(funding.action()), "wait");
    assert_eq!(show(funding.step(FundingEvent::BatchDone)), "query 1");
    assert_eq!(show(funding.step(balance(111))), "query 2");
    assert_eq!(show(funding.step(FundingEvent::BalanceFailed)), "query 3");
    assert_eq!(show(funding.step(balance(5000))), "wait");
}

#[test]
fn low_balance_funds_every_spammer_pool() {
    let mut funding = FundingLoop::new(&store(), Amount::from_units(100));
    funding.step(FundingEvent::BatchDone);
    assert_eq!(show(funding.step(balance(111))), "query 2");
    assert_eq!(
        show(funding.step(balance(110))),
        "fund priority with 100"
    );
    assert_eq!(
        show(funding.step(FundingEvent::Funded)),
        "fund normal with 100"
    );
    assert_eq!(show(funding.step(FundingEvent::Funded)), "wait");
    assert_eq!(show(funding.step(FundingEvent::BatchDone)), "query 1");
}

#[test]
fn balance_at_a_small_minimum_is_low() {
    let mut funding = FundingLoop::new(&store(), Amount::from_units(9));
    funding.step(FundingEvent::BatchDone);
    assert_eq!(show(funding.step(balance(10))), "query 2");
    assert_eq!(show(funding.step(balance(9))), "fund priority with 9");
}

#[test]
fn failed_transfer_ends_the_round() {
    let mut funding = FundingLoop::new(&store(), Amount::from_units(100));
    funding.step(FundingEvent::BatchDone);
    assert_eq!(show(funding.step(balance(0))), "fund priority with 100");
    assert_eq!(show(funding.step(FundingEvent::FundFailed)), "wait");
    assert_eq!(show(funding.step(FundingEvent::BatchDone)), "query 1");
}

#[test]
fn loop_without_spammers_waits() {
    let none = AgentStore {
        pools: vec![pool("setup", AgentClass::Setup, &[9])],
    };
    let mut funding = FundingLoop::new(&none, Amount::from_units(100));
    assert_eq!(show(funding.step(FundingEvent::BatchDone)), "wait");
}

#[test]
fn loop_exits_for_good() {
    for end in [FundingEvent::Cancelled, FundingEvent::SignalsClosed] {
        let mut funding = FundingLoop::new(&store(), Amount::from_units(100));
        assert_eq!(show(funding.step(end)), "exit");
        assert_eq!(show(funding.step(FundingEvent::BatchDone)), "exit");
        assert_eq!(show(funding.step(balance(0))), "exit");
    }
}

#[test]
fn unexpected_events_change_nothing() {
    let mut funding = FundingLoop::new(&store(), Amount::from_units(100));
    assert_eq!(show(funding.step(balance(0))), "wait");
    funding.step(FundingEvent::BatchDone);
    assert_eq!(show(funding.step(FundingEvent::Funded)), "query 1");
    assert_eq!(show(funding.step(FundingEvent::Cancelled)), "query 1");
}

#[test]
fn pass_funds_the_pools_in_order() {
    let mut pass = FundingPass::new(store().pools);
    let mut funded = Vec::new();
    while let Some(pool) = pass.pending() {
        funded.push(pool.name.clone());
        pass.report(None);
    }
    assert_eq!(funded, vec!["priority", "setup", "normal"]);
    assert_eq!(pass.finish(), Ok(()));
}

#[test]
fn pass_stops_at_the_first_failure() {
    let mut pass = FundingPass::new(store().pools);
    pass.report(None);
    assert_eq!(pass.pending().unwrap().name, "setup");
    pass.report(Some("nonce too low".to_string()));
    assert!(pass.pending().is_none());
    pass.report(None);
    pass.report(Some("later".to_string()));
    assert!(pass.pending().is_none());
    assert_eq!(pass.finish(), Err("nonce too low".to_string()));
}

#[test]
fn pass_over_no_pools_succeeds() {
    let pass = FundingPass::new(vec![]);
    assert!(pass.pending().is_none());
    assert_eq!(pass.finish(), Ok(()));
}
