use minixrs::abi::endpoint::Endpoint;
use minixrs::rs::monitor::{
    init, init_in, mark_alive, mark_alive_in, sweep, sweep_in, Monitor, Server, CAP,
    DEAD_THRESHOLD,
};

#[test]
fn init_records_peers() {
    let mut t = [Server::empty(); CAP];
    assert_eq!(init_in(&mut t, &[10, 20, 30]), 3);
    assert_eq!(t.iter().filter(|e| e.in_use).count(), 3);
}

#[test]
fn init_truncates_at_cap() {
    let mut t = [Server::empty(); CAP];
    let many: [Endpoint; 10] = [1, 2, 3, 4, 5, 6, 7, 8, 9, 10];
    assert_eq!(init_in(&mut t, &many), CAP);
    assert_eq!(t.iter().filter(|e| e.in_use).count(), CAP);
}

#[test]
fn ack_then_sweep_keeps_peer_alive() {
    let mut t = [Server::empty(); CAP];
    init_in(&mut t, &[10, 20]);
    assert!(mark_alive_in(&mut t, 10));
    assert!(mark_alive_in(&mut t, 20));
    assert_eq!(sweep_in(&mut t), 0);
}

#[test]
fn mark_alive_reports_unknown_peer() {
    let mut t = [Server::empty(); CAP];
    init_in(&mut t, &[10, 20]);
    assert!(!mark_alive_in(&mut t, 999));
}

#[test]
fn missed_rounds_accumulate_to_dead() {
    let mut t = [Server::empty(); CAP];
    init_in(&mut t, &[10]);
    for _ in 0..DEAD_THRESHOLD - 1 {
        assert_eq!(sweep_in(&mut t), 0);
    }
    assert_eq!(sweep_in(&mut t), 1);
    assert_eq!(sweep_in(&mut t), 1);
}

#[test]
fn ack_resets_miss_counter() {
    let mut t = [Server::empty(); CAP];
    init_in(&mut t, &[10]);
    assert_eq!(sweep_in(&mut t), 0);
    assert_eq!(sweep_in(&mut t), 0);
    assert!(mark_alive_in(&mut t, 10));
    assert_eq!(sweep_in(&mut t), 0);
    assert_eq!(sweep_in(&mut t), 0);
}

#[test]
fn seen_flag_is_per_round() {
    let mut t = [Server::empty(); CAP];
    init_in(&mut t, &[10]);
    assert!(mark_alive_in(&mut t, 10));
    assert_eq!(sweep_in(&mut t), 0);
    assert_eq!(sweep_in(&mut t), 0);
    for _ in 0..DEAD_THRESHOLD - 2 {
        assert_eq!(sweep_in(&mut t), 0);
    }
    assert_eq!(sweep_in(&mut t), 1);
}

#[test]
fn independent_peers_tracked_separately() {
    let mut t = [Server::empty(); CAP];
    init_in(&mut t, &[10, 20]);
    for _ in 0..DEAD_THRESHOLD {
        assert!(mark_alive_in(&mut t, 10));
        let _ = sweep_in(&mut t);
    }
    assert_eq!(sweep_in(&mut t), 1);
}

#[test]
fn a_second_init_replaces_the_peers_of_the_first() {
    let mut m = Monitor { peers: [Server::empty(); CAP] };
    assert_eq!(init(&mut m, &[1, 2, 3]), 3);
    assert_eq!(init(&mut m, &[4]), 1);
    assert!(mark_alive(&mut m, 4));
    assert_eq!(sweep(&mut m), 0);
}
