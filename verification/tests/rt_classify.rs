use minixrs::abi::callnr::{
    BDEV_READ, CDEV_WRITE, DS_PUBLISH, KERNEL_CALL, PM_EXIT, SCHEDULING_STOP, SEF_INIT, SEF_SIGNAL,
    VFS_WRITE, VM_BRK, VM_MMAP, VM_MUNMAP, VM_PAGEFAULT,
};
use minixrs::abi::com::{boot_endpoint, PM_PROC_NR, RS_PROC_NR, VM_PROC_NR};
use minixrs::abi::endpoint::Endpoint;
use minixrs::abi::ipc::NOTIFY_MESSAGE;
use minixrs::abi::message::Message;
use minixrs::rt::classify::{classify, SefEvent};

fn msg(m_source: Endpoint, m_type: i32) -> Message {
    Message {
        m_source,
        m_type,
        payload: [0u8; 96],
    }
}

fn signal_msg(m_source: Endpoint, signo: i32) -> Message {
    let mut m = msg(m_source, SEF_SIGNAL);
    m.payload[0..4].copy_from_slice(&signo.to_ne_bytes());
    m
}

#[test]
fn ping_is_notify_from_rs() {
    let m = msg(boot_endpoint(RS_PROC_NR), NOTIFY_MESSAGE);
    assert_eq!(classify(&m), SefEvent::Ping);
}

#[test]
fn notify_from_non_rs_is_application() {
    let m = msg(boot_endpoint(VM_PROC_NR), NOTIFY_MESSAGE);
    assert_eq!(classify(&m), SefEvent::Application);
}

#[test]
fn vm_requests_are_application() {
    for t in [VM_PAGEFAULT, VM_BRK, VM_MMAP, VM_MUNMAP] {
        assert_eq!(
            classify(&msg(boot_endpoint(VM_PROC_NR), t)),
            SefEvent::Application,
        );
    }
}

#[test]
fn sef_signal_from_pm_decodes_signo() {
    assert_eq!(
        classify(&signal_msg(boot_endpoint(PM_PROC_NR), 9)),
        SefEvent::Signal(9),
    );
}

#[test]
fn sef_signal_from_rs_decodes_signo() {
    assert_eq!(
        classify(&signal_msg(boot_endpoint(RS_PROC_NR), 15)),
        SefEvent::Signal(15),
    );
}

#[test]
fn sef_signal_from_untrusted_source_is_application() {
    assert_eq!(
        classify(&signal_msg(boot_endpoint(VM_PROC_NR), 9)),
        SefEvent::Application,
    );
}

#[test]
fn sef_init_from_rs_is_init() {
    let m = msg(boot_endpoint(RS_PROC_NR), SEF_INIT);
    assert_eq!(classify(&m), SefEvent::Init);
}

#[test]
fn sef_init_from_non_rs_is_application() {
    let m = msg(boot_endpoint(PM_PROC_NR), SEF_INIT);
    assert_eq!(classify(&m), SefEvent::Application);
}

#[test]
fn what_servers_are_asked_for_is_application_traffic_whoever_sends_it() {
    for t in [KERNEL_CALL, PM_EXIT, VFS_WRITE, BDEV_READ, CDEV_WRITE, DS_PUBLISH, SCHEDULING_STOP] {
        for source in [RS_PROC_NR, PM_PROC_NR, VM_PROC_NR] {
            assert_eq!(classify(&msg(boot_endpoint(source), t)), SefEvent::Application);
        }
    }
}
