use minixrs::sched::policy::{
    forget, forget_in, record, record_in, renice, renice_in, schedule_in, schedule_proc, Policy,
    SchedProc, CAP, QUANTUM, USER_Q,
};

#[test]
fn first_sight_registers_at_default_band() {
    let mut t = [SchedProc::empty(); CAP];
    assert_eq!(schedule_in(&mut t, 13), Some((USER_Q, QUANTUM)));
    assert_eq!(schedule_in(&mut t, 13), Some((USER_Q, QUANTUM)));
    let used = t.iter().filter(|e| e.in_use).count();
    assert_eq!(
        used, 1,
        "a repeat no-quantum must not consume a second slot"
    );
}

#[test]
fn record_then_schedule_returns_recorded_values() {
    let mut t = [SchedProc::empty(); CAP];
    assert!(record_in(&mut t, 9, 6, 20));
    assert_eq!(schedule_in(&mut t, 9), Some((6, 20)));
}

#[test]
fn record_updates_in_place() {
    let mut t = [SchedProc::empty(); CAP];
    assert!(record_in(&mut t, 9, 6, 20));
    assert!(record_in(&mut t, 9, 10, 5));
    assert_eq!(schedule_in(&mut t, 9), Some((10, 5)));
    let used = t.iter().filter(|e| e.in_use).count();
    assert_eq!(used, 1);
}

#[test]
fn forget_frees_the_slot() {
    let mut t = [SchedProc::empty(); CAP];
    schedule_in(&mut t, 13);
    forget_in(&mut t, 13);
    assert_eq!(t.iter().filter(|e| e.in_use).count(), 0);
    forget_in(&mut t, 99);
    assert_eq!(t.iter().filter(|e| e.in_use).count(), 0);
}

#[test]
fn distinct_procs_coexist() {
    let mut t = [SchedProc::empty(); CAP];
    schedule_in(&mut t, 11);
    schedule_in(&mut t, 12);
    record_in(&mut t, 13, 4, 30);
    assert_eq!(schedule_in(&mut t, 11), Some((USER_Q, QUANTUM)));
    assert_eq!(schedule_in(&mut t, 12), Some((USER_Q, QUANTUM)));
    assert_eq!(schedule_in(&mut t, 13), Some((4, 30)));
}

#[test]
fn full_table_leaves_new_proc_unmanaged() {
    let mut t = [SchedProc::empty(); CAP];
    for i in 0..CAP as i32 {
        assert!(record_in(&mut t, i, USER_Q, QUANTUM));
    }
    assert_eq!(schedule_in(&mut t, 100), None);
    assert!(!record_in(&mut t, 100, USER_Q, QUANTUM));
    assert_eq!(schedule_in(&mut t, 0), Some((USER_Q, QUANTUM)));
}

#[test]
fn renice_preserves_quantum() {
    let mut t = [SchedProc::empty(); CAP];
    assert!(record_in(&mut t, 9, USER_Q, 20));
    assert_eq!(renice_in(&mut t, 9, 4), Some(20));
    assert_eq!(schedule_in(&mut t, 9), Some((4, 20)));
    let used = t.iter().filter(|e| e.in_use).count();
    assert_eq!(used, 1, "renice must not consume a second slot");
}

#[test]
fn renice_unseen_registers_at_default_quantum() {
    let mut t = [SchedProc::empty(); CAP];
    assert_eq!(renice_in(&mut t, 13, 6), Some(QUANTUM));
    assert_eq!(schedule_in(&mut t, 13), Some((6, QUANTUM)));
}

#[test]
fn renice_full_table_leaves_new_proc_unmanaged() {
    let mut t = [SchedProc::empty(); CAP];
    for i in 0..CAP as i32 {
        assert!(record_in(&mut t, i, USER_Q, QUANTUM));
    }
    assert_eq!(renice_in(&mut t, 100, 4), None);
    assert_eq!(renice_in(&mut t, 0, 4), Some(QUANTUM));
    assert_eq!(schedule_in(&mut t, 0), Some((4, QUANTUM)));
}

#[test]
fn a_policy_forgets_what_it_is_told_to_forget() {
    let mut p = Policy::new();
    assert!(record(&mut p, 9, 6, 20));
    assert_eq!(renice(&mut p, 9, 4), Some(20));
    assert_eq!(schedule_proc(&mut p, 9), Some((4, 20)));
    forget(&mut p, 9);
    assert_eq!(schedule_proc(&mut p, 9), Some((USER_Q, QUANTUM)));
}
