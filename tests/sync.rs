use validator_node::{
    AdvancePhase, AdvanceStep, Advancer, AlreadyInFlight, Block, BlockRequestEntry,
    BlockRequestMessage, DispatchStep, LocatorConflict, PeerAddr, RequestDispatcher, SyncPool,
    UnrequestedResponse, Validator, NodeConfig, SyncStrategy,
};

fn peer(last: u8) -> PeerAddr {
    PeerAddr { ip: 0x0a00_0000 | last as u32, port: 4133 }
}

fn entry(hash: u64, previous_hash: u64, peers: Vec<PeerAddr>) -> BlockRequestEntry {
    BlockRequestEntry { hash, previous_hash, peers }
}

fn block(height: u64) -> Block {
    Block { height, hash: 1000 + height, previous_hash: 999 + height }
}

/// Runs one advancement attempt the way the node does, with the ledger's
/// verdicts given by `valid` and `appends`.
fn advance(
    adv: &mut Advancer,
    pool: &mut SyncPool,
    valid: impl Fn(&Block) -> bool,
    appends: impl Fn(&Block) -> bool,
) -> Vec<AdvanceStep> {
    let mut log = Vec::new();
    loop {
        let step = adv.next(pool);
        log.push(step);
        let b = match step {
            AdvanceStep::Check(b) => b,
            _ => return log,
        };
        let step = adv.on_checked(valid(&b));
        log.push(step);
        if let AdvanceStep::Append(b) = step {
            adv.on_appended(pool, appends(&b));
            if adv.is_halted() {
                return log;
            }
        } else {
            return log;
        }
    }
}

fn respond(pool: &mut SyncPool, height: u64, b: Block) {
    pool.insert_block_request(height, entry(b.hash, b.previous_hash, vec![peer(1)])).unwrap();
    pool.insert_block_response(height, b).unwrap();
}

#[test]
fn second_request_for_height_is_refused() {
    let mut pool = SyncPool::new();
    assert_eq!(pool.insert_block_request(5, entry(1, 0, vec![peer(1)])), Ok(()));
    assert_eq!(
        pool.insert_block_request(5, entry(2, 0, vec![peer(2)])),
        Err(AlreadyInFlight { height: 5 })
    );
    assert!(pool.insert_block_request(6, entry(3, 1, vec![])).is_ok());
    pool.remove_block_request(5);
    assert!(!pool.is_in_flight(5));
    assert!(pool.insert_block_request(5, entry(2, 0, vec![peer(2)])).is_ok());
}

#[test]
fn consuming_a_response_ends_the_request() {
    let mut pool = SyncPool::new();
    respond(&mut pool, 7, block(7));
    assert!(pool.insert_block_request(7, entry(1, 0, vec![])).is_err());
    assert_eq!(pool.remove_block_response(7), Some(block(7)));
    assert!(!pool.is_in_flight(7));
    assert!(!pool.has_response(7));
    assert_eq!(pool.remove_block_response(7), None);
    assert!(pool.insert_block_request(7, entry(1, 0, vec![])).is_ok());
}

#[test]
fn unrequested_response_is_refused() {
    let mut pool = SyncPool::new();
    assert_eq!(pool.insert_block_response(3, block(3)), Err(UnrequestedResponse { height: 3 }));
    respond(&mut pool, 3, block(3));
    assert_eq!(pool.insert_block_response(3, block(3)), Err(UnrequestedResponse { height: 3 }));
}

#[test]
fn canon_locator_is_immutable() {
    let mut pool = SyncPool::new();
    assert_eq!(pool.insert_canon_locator(4, 44), Ok(()));
    assert_eq!(pool.insert_canon_locator(4, 44), Ok(()));
    assert_eq!(
        pool.insert_canon_locator(4, 45),
        Err(LocatorConflict { height: 4, known: 44, offered: 45 })
    );
    assert_eq!(pool.canon_hash(4), Some(44));
    assert_eq!(pool.canon_hash(5), None);
}

#[test]
fn canon_locator_batch_is_all_or_nothing() {
    let mut pool = SyncPool::new();
    assert_eq!(pool.insert_canon_locators(vec![(0, 10), (1, 11), (2, 12)]), Ok(()));
    assert_eq!(pool.canon_hash(2), Some(12));
    assert_eq!(
        pool.insert_canon_locators(vec![(3, 13), (1, 99)]),
        Err(LocatorConflict { height: 1, known: 11, offered: 99 })
    );
    assert_eq!(pool.canon_hash(3), None);
    assert_eq!(
        pool.insert_canon_locators(vec![(8, 1), (8, 2)]),
        Err(LocatorConflict { height: 8, known: 1, offered: 2 })
    );
    assert_eq!(pool.canon_hash(8), None);
    assert_eq!(pool.insert_canon_locators(vec![]), Ok(()));
}

#[test]
fn advance_from_ten_to_eleven_then_stop_at_gap() {
    let mut pool = SyncPool::new();
    respond(&mut pool, 11, block(11));
    let mut adv = Advancer::new(10);
    let log = advance(&mut adv, &mut pool, |_| true, |_| true);
    assert_eq!(
        log,
        vec![AdvanceStep::Check(block(11)), AdvanceStep::Append(block(11)), AdvanceStep::Stop]
    );
    assert_eq!(adv.current_height(), 11);
    assert_eq!(pool.canon_hash(11), Some(block(11).hash));

    respond(&mut pool, 13, block(13));
    let mut adv = Advancer::new(11);
    let log = advance(&mut adv, &mut pool, |_| true, |_| true);
    assert_eq!(log, vec![AdvanceStep::Stop]);
    assert_eq!(adv.current_height(), 11);
    assert!(pool.has_response(13));
    assert_eq!(pool.canon_hash(13), None);
}

#[test]
fn advance_is_greedy_over_contiguous_responses() {
    let mut pool = SyncPool::new();
    for h in [3u64, 1, 2] {
        respond(&mut pool, h, block(h));
    }
    let mut adv = Advancer::new(0);
    advance(&mut adv, &mut pool, |_| true, |_| true);
    assert_eq!(adv.current_height(), 3);
    for h in 1..=3u64 {
        assert_eq!(pool.canon_hash(h), Some(1000 + h));
    }
}

#[test]
fn height_mismatch_discards_response() {
    let mut pool = SyncPool::new();
    respond(&mut pool, 6, block(9));
    let mut adv = Advancer::new(5);
    let log = advance(&mut adv, &mut pool, |_| true, |_| true);
    assert_eq!(log, vec![AdvanceStep::HeightMismatch { expected: 6, found: 9 }]);
    assert_eq!(adv.current_height(), 5);
    assert!(!pool.has_response(6));
    assert!(!pool.is_in_flight(6));
    assert!(adv.is_halted());
}

#[test]
fn invalid_block_is_discarded() {
    let mut pool = SyncPool::new();
    respond(&mut pool, 2, block(2));
    let mut adv = Advancer::new(1);
    let log = advance(&mut adv, &mut pool, |_| false, |_| true);
    assert_eq!(log, vec![AdvanceStep::Check(block(2)), AdvanceStep::Stop]);
    assert_eq!(adv.current_height(), 1);
    assert!(!pool.has_response(2));
    assert_eq!(pool.canon_hash(2), None);
}

#[test]
fn failed_append_keeps_height() {
    let mut pool = SyncPool::new();
    respond(&mut pool, 2, block(2));
    respond(&mut pool, 3, block(3));
    let mut adv = Advancer::new(1);
    advance(&mut adv, &mut pool, |_| true, |b| b.height != 3);
    assert_eq!(adv.current_height(), 2);
    assert!(adv.is_halted());
    assert_eq!(pool.canon_hash(2), Some(1002));
    assert_eq!(pool.canon_hash(3), None);
}

#[test]
fn advancer_at_largest_height_stops() {
    let mut pool = SyncPool::new();
    let mut adv = Advancer::new(u64::MAX);
    assert_eq!(adv.next(&mut pool), AdvanceStep::Stop);
    assert!(adv.is_halted());
    assert_eq!(adv.next(&mut pool), AdvanceStep::Stop);
}

#[test]
fn advancer_starts_idle() {
    let adv = Advancer::new(0);
    assert!(!adv.is_halted());
    let _ = AdvancePhase::Idle;
}

/// Runs one dispatch cycle, with `fails` naming the peers whose send fails.
fn dispatch(
    pool: &mut SyncPool,
    proposals: Vec<(u64, BlockRequestEntry)>,
    fails: &[PeerAddr],
) -> Vec<DispatchStep> {
    let mut d = RequestDispatcher::new(proposals);
    let mut log = Vec::new();
    let mut step = d.next_step(pool);
    loop {
        log.push(step);
        step = match step {
            DispatchStep::Send(to, _) => d.on_send_result(pool, !fails.contains(&to)),
            DispatchStep::Done => return log,
            _ => d.next_step(pool),
        };
    }
}

fn msg(h: u64) -> BlockRequestMessage {
    BlockRequestMessage { start_height: h, end_height: h + 1 }
}

#[test]
fn send_failure_withdraws_request_and_stops() {
    let (a, b) = (peer(1), peer(2));
    let mut pool = SyncPool::new();
    let log = dispatch(&mut pool, vec![(20, entry(5, 4, vec![a, b]))], &[a]);
    assert_eq!(log, vec![DispatchStep::Send(a, msg(20)), DispatchStep::Done]);
    assert!(!pool.is_in_flight(20));
}

#[test]
fn send_failure_at_second_of_three_peers() {
    let (a, b, c) = (peer(1), peer(2), peer(3));
    let mut pool = SyncPool::new();
    let log = dispatch(
        &mut pool,
        vec![(20, entry(5, 4, vec![a, b, c])), (21, entry(6, 5, vec![a]))],
        &[b],
    );
    assert_eq!(
        log,
        vec![DispatchStep::Send(a, msg(20)), DispatchStep::Send(b, msg(20)), DispatchStep::Done]
    );
    assert!(!pool.is_in_flight(20));
    assert!(!pool.is_in_flight(21));
}

#[test]
fn dispatch_sends_to_every_peer_and_skips_in_flight() {
    let (a, b) = (peer(1), peer(2));
    let mut pool = SyncPool::new();
    pool.insert_block_request(31, entry(0, 0, vec![a])).unwrap();
    let log = dispatch(
        &mut pool,
        vec![(30, entry(7, 6, vec![a, b])), (31, entry(8, 7, vec![b])), (32, entry(9, 8, vec![]))],
        &[],
    );
    assert_eq!(
        log,
        vec![
            DispatchStep::Send(a, msg(30)),
            DispatchStep::Send(b, msg(30)),
            DispatchStep::Pause,
            DispatchStep::Skipped,
            DispatchStep::Pause,
            DispatchStep::Done,
        ]
    );
    assert!(pool.is_in_flight(30));
    assert!(pool.is_in_flight(31));
    assert!(pool.is_in_flight(32));
}

#[test]
fn dispatch_of_nothing_is_done() {
    let mut pool = SyncPool::new();
    assert_eq!(dispatch(&mut pool, vec![], &[]), vec![DispatchStep::Done]);
}

fn node() -> Validator {
    Validator::new(NodeConfig {
        node_ip: peer(0),
        rest_ip: None,
        cdn: None,
        dev: None,
        strategy: SyncStrategy::SyncProtocol,
    })
}

#[test]
fn node_cycle_withdraws_height_twenty_on_failed_send() {
    let (a, b) = (peer(1), peer(2));
    let mut node = node();
    let mut d = RequestDispatcher::new(vec![(20, entry(5, 4, vec![a, b]))]);
    assert_eq!(node.next_request_step(&mut d), DispatchStep::Send(a, msg(20)));
    assert!(node.pool().is_in_flight(20));
    assert_eq!(node.on_request_sent(&mut d, false), DispatchStep::Done);
    assert!(!node.pool().is_in_flight(20));
    assert_eq!(node.next_request_step(&mut d), DispatchStep::Done);
}

#[test]
fn node_cycle_sends_nothing_for_height_in_flight() {
    let a = peer(1);
    let mut node = node();
    let mut d = RequestDispatcher::new(vec![(4, entry(1, 0, vec![a]))]);
    assert_eq!(node.next_request_step(&mut d), DispatchStep::Send(a, msg(4)));
    assert_eq!(node.on_request_sent(&mut d, true), DispatchStep::Pause);
    let mut again = RequestDispatcher::new(vec![(4, entry(1, 0, vec![a]))]);
    assert_eq!(node.next_request_step(&mut again), DispatchStep::Skipped);
    assert_eq!(node.next_request_step(&mut again), DispatchStep::Done);
    assert!(node.pool().is_in_flight(4));
}

#[test]
fn node_advances_with_mismatch_guard() {
    let mut node = node();
    let mut adv = Advancer::new(10);
    assert_eq!(node.next_advance_step(&mut adv), AdvanceStep::Stop);
    assert_eq!(adv.current_height(), 10);
}
