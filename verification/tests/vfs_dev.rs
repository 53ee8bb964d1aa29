use minixrs::abi::callnr::{CDEV_MINOR_CONSOLE, CDEV_MINOR_NULL, CDEV_MINOR_ZERO};
use minixrs::vfs::dev::{lookup, DEV_NODES, NR_DEV_NODES};
use minixrs::vfs::fd::{CharDriver, Fd};

#[test]
fn every_row_resolves_to_its_driver_and_minor() {
    assert_eq!(
        lookup(b"/dev/console"),
        Some(Fd::CharDev {
            dev: CharDriver::Tty,
            minor: CDEV_MINOR_CONSOLE,
        })
    );
    assert_eq!(
        lookup(b"/dev/null"),
        Some(Fd::CharDev {
            dev: CharDriver::Memory,
            minor: CDEV_MINOR_NULL,
        })
    );
    assert_eq!(
        lookup(b"/dev/zero"),
        Some(Fd::CharDev {
            dev: CharDriver::Memory,
            minor: CDEV_MINOR_ZERO,
        })
    );
}

#[test]
fn anything_but_an_exact_match_misses() {
    for path in [
        &b"/dev/nul"[..],
        b"/dev/null/",
        b"/dev/nullx",
        b"/dev//null",
        b"/dev/./null",
        b"/dev/NULL",
        b"/dev/null\0",
        b"dev/null",
        b"",
        b"/dev",
        b"/dev/",
        b"/dev/nope",
    ] {
        assert_eq!(lookup(path), None, "{:?}", core::str::from_utf8(path));
    }
}

#[test]
fn the_table_has_no_duplicate_paths_and_uses_both_drivers() {
    for (i, (a, _, _)) in DEV_NODES.iter().enumerate() {
        for (b, _, _) in &DEV_NODES[i + 1..] {
            assert_ne!(a, b);
        }
    }
    assert!(DEV_NODES.iter().any(|(_, d, _)| *d == CharDriver::Tty));
    assert!(DEV_NODES.iter().any(|(_, d, _)| *d == CharDriver::Memory));
    assert_eq!(DEV_NODES.len(), NR_DEV_NODES);
}
