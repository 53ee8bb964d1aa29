use minixrs::abi::callnr::CDEV_MINOR_CONSOLE;
use minixrs::abi::com::NR_SERVED_PROCS;
use minixrs::abi::errno::{EBADF, EMFILE};
use minixrs::vfs::fd::{
    advance, advance_in, alloc_fd, alloc_in, close, close_in, default_row, resolve, resolve_in,
    CharDriver, Fd, FdRow, FdTable, FIRST_FREE_FD, NR_FDS, NR_FD_ROWS,
};

const CONSOLE: Fd = Fd::CharDev {
    dev: CharDriver::Tty,
    minor: CDEV_MINOR_CONSOLE,
};
const FILE: Fd = Fd::File { ino: 5, pos: 0 };
fn rows() -> [FdRow; NR_FD_ROWS] {
    [default_row(); NR_FD_ROWS]
}

#[test]
fn stdin_stdout_and_stderr_are_the_console_for_every_process() {
    let r = rows();
    for proc_nr in 0..NR_SERVED_PROCS as i32 {
        for fd in 0..3 {
            assert_eq!(
                resolve_in(&r, proc_nr, fd),
                Ok(CONSOLE),
                "proc {proc_nr} fd {fd}"
            );
        }
    }
}

#[test]
fn every_row_starts_identical_and_open_is_what_makes_them_diverge() {
    let mut r = rows();
    assert_eq!(r[0], r[1]);
    assert_eq!(r[0], default_row());

    assert_eq!(alloc_in(&mut r, 0, FILE), Ok(3));
    assert_ne!(r[0], r[1], "open must affect only the caller's row");
    assert_eq!(r[1], default_row());
}

#[test]
fn an_unopened_descriptor_is_ebadf() {
    assert_eq!(resolve_in(&rows(), 0, 3), Err(EBADF));
}

#[test]
fn a_descriptor_past_the_end_of_the_row_is_ebadf() {
    let r = rows();
    for fd in [NR_FDS as i32, NR_FDS as i32 + 1, 64, i32::MAX] {
        assert_eq!(resolve_in(&r, 0, fd), Err(EBADF), "fd {fd}");
    }
}

#[test]
fn a_negative_descriptor_is_ebadf() {
    let r = rows();
    for fd in [-1i32, -3, i32::MIN] {
        assert_eq!(resolve_in(&r, 0, fd), Err(EBADF), "fd {fd}");
    }
}

#[test]
fn a_proc_number_outside_the_table_is_ebadf() {
    for proc_nr in [
        NR_SERVED_PROCS as i32,
        NR_SERVED_PROCS as i32 + 1,
        -1,
        -2,
        i32::MIN,
        i32::MAX,
    ] {
        let mut r = rows();
        assert_eq!(resolve_in(&r, proc_nr, 1), Err(EBADF), "proc {proc_nr}");
        assert_eq!(alloc_in(&mut r, proc_nr, FILE), Err(EBADF), "{proc_nr}");
        assert_eq!(close_in(&mut r, proc_nr, 1), Err(EBADF), "{proc_nr}");
        advance_in(&mut r, proc_nr, 1, 8);
        assert_eq!(r, rows());
    }
}

#[test]
fn resolve_in_reads_the_row_it_is_given() {
    let mut r = rows();
    r[1][1] = Fd::Unused;
    r[1][3] = Fd::CharDev { dev: CharDriver::Tty, minor: 7 };

    assert_eq!(resolve_in(&r, 0, 1), Ok(CONSOLE));
    assert_eq!(resolve_in(&r, 1, 1), Err(EBADF));
    assert_eq!(resolve_in(&r, 1, 3), Ok(Fd::CharDev { dev: CharDriver::Tty, minor: 7 }));
    assert_eq!(r[0], default_row());
}

#[test]
fn an_empty_table_resolves_nothing() {
    assert_eq!(resolve_in(&[], 0, 1), Err(EBADF));
    assert_eq!(alloc_in(&mut [], 0, FILE), Err(EBADF));
    assert_eq!(close_in(&mut [], 0, 1), Err(EBADF));
}

#[test]
fn open_hands_out_the_lowest_free_descriptor() {
    let mut r = rows();
    assert_eq!(alloc_in(&mut r, 0, FILE), Ok(3));
    assert_eq!(alloc_in(&mut r, 0, FILE), Ok(4));
    assert_eq!(alloc_in(&mut r, 0, FILE), Ok(5));
}

#[test]
fn a_closed_descriptor_is_reused_by_the_next_open() {
    let mut r = rows();
    assert_eq!(alloc_in(&mut r, 0, FILE), Ok(3));
    assert_eq!(alloc_in(&mut r, 0, FILE), Ok(4));
    assert_eq!(close_in(&mut r, 0, 3), Ok(()));
    assert_eq!(close_in(&mut r, 0, 4), Ok(()));
    assert_eq!(alloc_in(&mut r, 0, FILE), Ok(3));
    assert_eq!(alloc_in(&mut r, 0, FILE), Ok(4));
}

#[test]
fn open_never_hands_out_a_standard_descriptor() {
    let mut r = rows();
    for _ in FIRST_FREE_FD..NR_FDS {
        let fd = alloc_in(&mut r, 0, FILE).unwrap();
        assert!(fd >= FIRST_FREE_FD as i32, "open returned fd {fd}");
    }
}

#[test]
fn a_full_row_is_emfile_not_a_silent_overwrite() {
    let mut r = rows();
    for _ in FIRST_FREE_FD..NR_FDS {
        assert!(alloc_in(&mut r, 0, FILE).is_ok());
    }
    assert_eq!(alloc_in(&mut r, 0, FILE), Err(EMFILE));
    assert_eq!(alloc_in(&mut r, 1, FILE), Ok(3));
}

#[test]
fn closing_an_unopened_descriptor_is_ebadf() {
    let mut r = rows();
    assert_eq!(close_in(&mut r, 0, 3), Err(EBADF));
    assert_eq!(alloc_in(&mut r, 0, FILE), Ok(3));
    assert_eq!(close_in(&mut r, 0, 3), Ok(()));
    assert_eq!(close_in(&mut r, 0, 3), Err(EBADF));
    for fd in [NR_FDS as i32, -1, i32::MAX] {
        assert_eq!(close_in(&mut r, 0, fd), Err(EBADF), "fd {fd}");
    }
}

#[test]
fn advance_moves_a_files_position_and_nothing_else() {
    let mut r = rows();
    assert_eq!(alloc_in(&mut r, 0, Fd::File { ino: 5, pos: 0 }), Ok(3));
    advance_in(&mut r, 0, 3, 31);
    assert_eq!(resolve_in(&r, 0, 3), Ok(Fd::File { ino: 5, pos: 31 }));
    advance_in(&mut r, 0, 3, 9);
    assert_eq!(resolve_in(&r, 0, 3), Ok(Fd::File { ino: 5, pos: 40 }));
    assert_eq!(resolve_in(&r, 0, 1), Ok(CONSOLE));
}

#[test]
fn advance_is_a_no_op_on_a_character_device_or_a_closed_descriptor() {
    let mut r = rows();
    advance_in(&mut r, 0, 1, 100);
    assert_eq!(resolve_in(&r, 0, 1), Ok(CONSOLE));
    advance_in(&mut r, 0, 3, 100);
    assert_eq!(resolve_in(&r, 0, 3), Err(EBADF));
}

#[test]
fn a_position_saturates_rather_than_wrapping() {
    let mut r = rows();
    assert_eq!(
        alloc_in(
            &mut r,
            0,
            Fd::File {
                ino: 5,
                pos: u64::MAX - 3
            }
        ),
        Ok(3)
    );
    advance_in(&mut r, 0, 3, 100);
    assert_eq!(
        resolve_in(&r, 0, 3),
        Ok(Fd::File {
            ino: 5,
            pos: u64::MAX
        })
    );
}

#[test]
fn the_live_table_round_trips_through_its_wrappers() {
    let mut t = FdTable::new();
    let p = NR_SERVED_PROCS as i32 - 1;
    let fd = alloc_fd(&mut t, p, Fd::File { ino: 9, pos: 0 }).expect("a free descriptor");
    assert_eq!(resolve(&t, p, fd), Ok(Fd::File { ino: 9, pos: 0 }));
    advance(&mut t, p, fd, 7);
    assert_eq!(resolve(&t, p, fd), Ok(Fd::File { ino: 9, pos: 7 }));
    assert_eq!(close(&mut t, p, fd), Ok(()));
    assert_eq!(resolve(&t, p, fd), Err(EBADF));
}
