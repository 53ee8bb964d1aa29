use minixrs::abi::{callnr, grant};
use minixrs::headers::callnr_h::{
    bands, cpf_flags, kernel_calls, render, GRANT_PROBE_ID, GRANT_PROBE_IDX, GRANT_PROBE_SEQ,
};
use minixrs::headers::macros;

#[test]
fn kernel_calls_render_from_live_constants() {
    let text = render();
    for (name, value) in kernel_calls() {
        assert_eq!(
            macros::define_value(&text, name).as_deref(),
            Some(format!("0x{value:X}").as_str()),
            "{name} did not render from its Rust constant"
        );
    }
}

#[test]
fn the_kernel_call_list_is_complete_and_contiguous() {
    let calls = kernel_calls();
    assert_eq!(calls.len(), callnr::NR_KERN_CALLS);
    for (i, (name, value)) in calls.into_iter().enumerate() {
        assert_eq!(
            value,
            callnr::KERNEL_CALL as i64 + i as i64,
            "{name} is out of order"
        );
    }
}

#[test]
fn every_band_base_member_and_count_appears() {
    let text = render();
    for band in bands() {
        assert_eq!(
            macros::define_value(&text, band.base_name).as_deref(),
            Some(format!("0x{:X}", band.base).as_str())
        );
        for (name, value) in &band.members {
            assert_eq!(
                macros::define_value(&text, name).as_deref(),
                Some(format!("0x{value:X}").as_str()),
                "{name} missing from the {} band",
                band.title
            );
        }
        if let Some((count_name, count)) = band.count {
            assert_eq!(
                macros::define_value(&text, count_name).as_deref(),
                Some(count.to_string().as_str())
            );
        }
    }
}
#[test]
fn every_band_member_list_matches_its_count() {
    for band in bands() {
        if let Some((count_name, count)) = band.count {
            assert_eq!(
                band.members.len(),
                count as usize,
                "the {} band lists {} members but {count_name} is {count}",
                band.title,
                band.members.len()
            );
        }
        for (i, (name, value)) in band.members.iter().enumerate() {
            assert_eq!(
                *value,
                band.base as i64 + i as i64,
                "{name} is out of order in the {} band",
                band.title
            );
        }
    }
}
#[test]
fn bands_are_in_ascending_numeric_order() {
    let bands = bands();
    for pair in bands.windows(2) {
        let (lo, hi) = (&pair[0], &pair[1]);
        let lo_last = lo.members.last().map(|(_, v)| *v).unwrap_or(lo.base);
        assert!(
            lo_last < hi.base,
            "the {} band (ends {lo_last:#x}) is not below the {} band ({:#x})",
            lo.title,
            hi.title,
            hi.base,
        );
    }
}
#[test]
fn payload_offsets_match_the_rust_constants() {
    let text = render();
    for request in ["CDEV_WRITE", "VFS_WRITE"] {
        assert!(
            macros::define_value(&text, request).is_some(),
            "{request} itself must be emitted"
        );
    }
    let offsets: [(&str, i64); 11] = [
        ("VFS_FD_OFF", callnr::VFS_FD_OFF as i64),
        ("VFS_LEN_OFF", callnr::VFS_LEN_OFF as i64),
        ("VFS_BUF_OFF", callnr::VFS_BUF_OFF as i64),
        ("PM_EXEC_PATH_OFF", callnr::PM_EXEC_PATH_OFF as i64),
        ("PM_EXEC_PATH_MAX", callnr::PM_EXEC_PATH_MAX as i64),
        ("CDEV_MINOR_OFF", callnr::CDEV_MINOR_OFF as i64),
        ("CDEV_GRANT_OFF", callnr::CDEV_GRANT_OFF as i64),
        ("CDEV_LEN_OFF", callnr::CDEV_LEN_OFF as i64),
        ("CDEV_OFFSET_OFF", callnr::CDEV_OFFSET_OFF as i64),
        ("CDEV_MAX_IO", callnr::CDEV_MAX_IO as i64),
        ("CDEV_MINOR_CONSOLE", callnr::CDEV_MINOR_CONSOLE as i64),
    ];
    for (name, want) in offsets {
        assert_eq!(
            macros::define_value(&text, name).as_deref(),
            Some(want.to_string().as_str()),
            "{name} disagrees with the Rust constant"
        );
    }
}
#[test]
fn the_vm_band_has_no_count_constant() {
    let vm = bands()
        .into_iter()
        .find(|b| b.base_name == "VM_RQ_BASE")
        .unwrap();
    assert!(vm.count.is_none());
    assert_eq!(
        vm.members.last().map(|(name, value)| (*name, *value)),
        Some(("VM_FORK", callnr::VM_FORK as i64)),
        "the SEF ordering assert names the VM band's last member"
    );
    assert!(render().contains("SEF_RQ_BASE > VM_FORK"));
}

#[test]
fn grant_constants_render_from_live_constants() {
    let text = render();
    for (name, value) in cpf_flags() {
        assert_eq!(
            macros::define_value(&text, name).as_deref(),
            Some(format!("0x{value:X}").as_str()),
            "{name} did not render from its Rust constant"
        );
    }
    assert_eq!(
        macros::define_value(&text, "GRANT_SHIFT").as_deref(),
        Some(grant::GRANT_SHIFT.to_string().as_str())
    );
    assert_eq!(
        macros::define_value(&text, "GRANT_MAX_IDX").as_deref(),
        Some(format!("0x{:X}", grant::GRANT_MAX_IDX).as_str())
    );
    assert_eq!(
        macros::define_value(&text, "GRANT_MAX_SEQ").as_deref(),
        Some(format!("0x{:X}", grant::GRANT_MAX_SEQ).as_str())
    );
    assert_eq!(
        macros::define_value(&text, "GRANT_INVALID").as_deref(),
        Some("(-1)")
    );
}
#[test]
fn the_grant_id_macro_asserts_use_rust_computed_values() {
    let text = render();
    let max = grant::grant_id(grant::GRANT_MAX_IDX, grant::GRANT_MAX_SEQ);
    assert!(text.contains(&format!("GRANT_ID(GRANT_MAX_IDX, GRANT_MAX_SEQ) == {max}")));
    assert!(text.contains(&format!("GRANT_IDX({GRANT_PROBE_ID}) == {GRANT_PROBE_IDX}")));
    assert!(text.contains(&format!("GRANT_SEQ({GRANT_PROBE_ID}) == {GRANT_PROBE_SEQ}")));
    assert_eq!(grant::grant_idx(GRANT_PROBE_ID), GRANT_PROBE_IDX);
    assert_eq!(grant::grant_seq(GRANT_PROBE_ID), GRANT_PROBE_SEQ);
    assert_ne!(GRANT_PROBE_IDX, GRANT_PROBE_SEQ);
}

#[test]
fn safecopy_selectors_render_from_live_constants() {
    let text = render();
    assert_eq!(
        macros::define_value(&text, "SAFECOPY_FROM").as_deref(),
        Some(callnr::SAFECOPY_FROM.to_string().as_str())
    );
    assert_eq!(
        macros::define_value(&text, "SAFECOPY_TO").as_deref(),
        Some(callnr::SAFECOPY_TO.to_string().as_str())
    );
}
#[test]
fn no_ramdisk_selector_is_emitted_yet() {
    let text = render();
    assert!(
        macros::define_value(&text, "GET_WHOAMI").is_some(),
        "GET_WHOAMI is emitted; only GET_RAMDISK is held back"
    );
    for name in [
        "GET_RAMDISK",
        "GETINFO_RAMDISK_VA_OFF",
        "GETINFO_RAMDISK_LEN_OFF",
    ] {
        assert_eq!(
            macros::define_value(&text, name),
            None,
            "{name} is a kernel-to-Rust-driver selector and must not be frozen into the C ABI"
        );
    }
}
#[test]
fn no_grant_struct_is_emitted_yet() {
    let text = render();
    assert!(!text.contains("cp_grant_entry"));
    assert!(!text.contains("struct "));
}
#[test]
fn nr_kern_calls_is_not_phase_suffixed() {
    let text = render();
    assert_eq!(
        macros::define_value(&text, "NR_KERN_CALLS").as_deref(),
        Some(callnr::NR_KERN_CALLS.to_string().as_str())
    );
    assert!(
        !text.contains("PHASE"),
        "the ABI header must carry no phase-scoped names"
    );
}
