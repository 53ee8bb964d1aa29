use minixrs::abi::{com, errno};
use minixrs::headers::com_h::{processes, render};
use minixrs::headers::{ipc_h, macros};
#[test]
fn the_process_list_covers_every_task_and_boot_slot() {
    let procs = processes();
    assert_eq!(procs.len(), com::NR_TASKS + com::NR_BOOT_PROCS);
    for (i, (name, nr)) in procs.into_iter().enumerate() {
        assert_eq!(
            nr,
            i as i32 - com::NR_TASKS as i32,
            "{name} is out of slot order"
        );
    }
    assert_eq!(procs[0].1, -(com::NR_TASKS as i32));
    assert_eq!(
        procs[procs.len() - 1].1,
        com::NR_BOOT_PROCS as i32 - 1
    );
}

#[test]
fn every_process_has_both_a_proc_nr_and_an_ep() {
    let text = render();
    for (name, _) in processes() {
        assert!(
            text.contains(&format!("#define {name}_PROC_NR")),
            "{name}_PROC_NR missing"
        );
        assert!(
            text.contains(&format!("#define {name}_EP")),
            "{name}_EP missing"
        );
    }
}

#[test]
fn endpoints_match_boot_endpoint() {
    let text = render();
    for (name, nr) in processes() {
        let ep = com::boot_endpoint(nr);
        assert_eq!(
            macros::define_value(&text, &format!("{name}_EP")).as_deref(),
            Some(format!("((endpoint_t) {ep})").as_str()),
            "{name}_EP is not boot_endpoint({nr})"
        );
        assert_eq!(
            macros::define_value(&text, &format!("{name}_PROC_NR")).as_deref(),
            Some(fmt_dec(nr).as_str()),
            "{name}_PROC_NR is not the table slot"
        );
    }
}
fn fmt_dec(v: i32) -> String {
    if v < 0 {
        format!("({v})")
    } else {
        v.to_string()
    }
}
#[test]
fn task_endpoints_differ_from_their_proc_numbers() {
    for name in ["ASYNCM", "IDLE", "CLOCK", "SYSTEM", "HARDWARE"] {
        let (_, nr) = processes().into_iter().find(|p| p.0 == name).unwrap();
        assert_ne!(com::boot_endpoint(nr), nr, "{name}");
    }
    let (_, pm) = processes().into_iter().find(|p| p.0 == "PM").unwrap();
    assert_eq!(com::boot_endpoint(pm), pm);
}

#[test]
fn negative_proc_numbers_are_parenthesized() {
    let text = render();
    assert!(text.contains(&format!("({})", com::SYSTEM)));
    assert!(text.contains(&format!("({})", com::EXEC_ONLY_PROC_NR)));
}

#[test]
fn includes_ipc_h_for_the_packing_macros() {
    assert!(render().contains("#include <minixrs/ipc.h>"));
    assert_eq!(ipc_h::GUARD, "_MINIXRS_IPC_H");
}

#[test]
fn capacities_render_from_live_constants() {
    let text = render();
    for (name, want) in [
        ("NR_TASKS", com::NR_TASKS),
        ("NR_PROCS", com::NR_PROCS),
        ("NR_SYS_PROCS", com::NR_SYS_PROCS),
        ("NR_BOOT_PROCS", com::NR_BOOT_PROCS),
    ] {
        assert_eq!(
            macros::define_value(&text, name).as_deref(),
            Some(want.to_string().as_str())
        );
    }
    assert_eq!(
        macros::define_value(&text, "OK").as_deref(),
        Some(errno::OK.to_string().as_str())
    );
}
