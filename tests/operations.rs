use inscribe::launcher::{fallback, first_elevation, invocation, ActiveOperation, Elevation};
use inscribe::operation::{
    check_target, ExitReport, OpError, Operation, OperationKind, ProgressEvent, REPORTED_LINES,
};
use inscribe::tail::{DiagnosticTail, TAIL_CAPACITY};

const MOUNTS: &[u8] = b"/dev/sda2 / ext4 rw 0 0\n";

fn kinds() -> Vec<OperationKind> {
    vec![
        OperationKind::Flash { image_path: b"/tmp/a.iso".to_vec(), image_size: 4096 },
        OperationKind::Erase { mode: b"zero".to_vec() },
        OperationKind::Format { filesystem: b"ext4".to_vec(), label: b"DATA".to_vec() },
    ]
}

fn ok_exit() -> ExitReport {
    ExitReport { success: true, code: Some(0) }
}

fn failed_exit(code: i32) -> ExitReport {
    ExitReport { success: false, code: Some(code) }
}

#[test]
fn unrecognised_paths_are_refused_for_every_operation() {
    for kind in kinds() {
        for path in [&b"/tmp/disk.img"[..], b"/dev/mmcblk0", b"", b"sda"] {
            let r = Operation::start(kind.clone(), path.to_vec(), Some(MOUNTS), None);
            assert!(matches!(r, Err(OpError::InvalidDevicePath)));
        }
    }
}

#[test]
fn system_disk_is_vetoed_for_every_operation() {
    for kind in kinds() {
        let r = Operation::start(kind.clone(), b"/dev/sda1".to_vec(), Some(MOUNTS), None);
        assert!(matches!(r, Err(OpError::SystemDiskVeto)));
        assert!(Operation::start(kind.clone(), b"/dev/sdb1".to_vec(), Some(MOUNTS), None).is_ok());
    }
}

#[test]
fn unreadable_mount_table_fails_closed() {
    assert!(matches!(check_target(b"/dev/sdb", None), Err(OpError::IoFailure)));
    assert!(matches!(check_target(b"/dev/xyz", None), Err(OpError::InvalidDevicePath)));
    assert!(check_target(b"/dev/sdb", Some(MOUNTS)).is_ok());
}

#[test]
fn helper_arguments_per_operation() {
    let ks = kinds();
    let flash = Operation::start(ks[0].clone(), b"/dev/sdb".to_vec(), Some(MOUNTS), None).unwrap();
    assert_eq!(flash.helper_arguments(), vec![b"flash".to_vec(), b"/tmp/a.iso".to_vec(), b"/dev/sdb".to_vec()]);
    assert_eq!(flash.unmount_arguments(), vec![b"unmount".to_vec(), b"/dev/sdb".to_vec()]);
    let erase = Operation::start(ks[1].clone(), b"/dev/sdb".to_vec(), Some(MOUNTS), None).unwrap();
    assert_eq!(erase.helper_arguments(), vec![b"erase".to_vec(), b"zero".to_vec(), b"/dev/sdb".to_vec()]);
    let format = Operation::start(ks[2].clone(), b"/dev/sdb".to_vec(), Some(MOUNTS), None).unwrap();
    assert_eq!(
        format.helper_arguments(),
        vec![b"format".to_vec(), b"ext4".to_vec(), b"/dev/sdb".to_vec(), b"DATA".to_vec()]
    );
}

#[test]
fn flash_end_to_end() {
    let kind = OperationKind::Flash { image_path: b"/tmp/a.iso".to_vec(), image_size: 3145728 };
    let mut op = Operation::start(kind, b"/dev/sdb".to_vec(), Some(MOUNTS), None).unwrap();
    let mut seen = Vec::new();
    for line in ["0", "1048576", "2097152"] {
        if let Some(ProgressEvent::Flash(p)) = op.on_line(line.as_bytes().to_vec()) {
            seen.push(p.bytes_written);
        } else {
            panic!("no event for {}", line);
        }
    }
    assert_eq!(seen, vec![0, 1048576, 2097152]);
    assert_eq!(seen.len(), 3);
    assert!(op.on_line(b"records in".to_vec()).is_none());
    let done = op.finish(ok_exit()).unwrap();
    assert!(done.sync);
    match done.final_event {
        Some(ProgressEvent::Flash(p)) => {
            assert_eq!(p.bytes_written, 3145728);
            assert_eq!(p.total_bytes, Some(3145728));
        }
        other => panic!("unexpected {:?}", other),
    }
}

#[test]
fn erase_end_of_device_is_success() {
    let kind = OperationKind::Erase { mode: b"zero".to_vec() };
    let mut op = Operation::start(kind, b"/dev/sdb".to_vec(), Some(MOUNTS), Some(8192)).unwrap();
    assert!(op.on_line(b"4096".to_vec()).is_some());
    op.on_line(b"dd: error writing '/dev/sdb': No space left on device".to_vec());
    let done = op.finish(failed_exit(1)).unwrap();
    assert!(done.sync);
    match done.final_event {
        Some(ProgressEvent::Erase(p)) => {
            assert_eq!(p.bytes_processed, 8192);
            assert_eq!(p.total_bytes, Some(8192));
        }
        other => panic!("unexpected {:?}", other),
    }
}

#[test]
fn erase_failure_reports_last_lines() {
    let kind = OperationKind::Erase { mode: b"random".to_vec() };
    let mut op = Operation::start(kind, b"/dev/sdb".to_vec(), Some(MOUNTS), None).unwrap();
    for i in 0..30 {
        op.on_line(format!("line {}", i).into_bytes());
    }
    match op.finish(failed_exit(3)) {
        Err(OpError::HelperRuntimeFailure { code, tail }) => {
            assert_eq!(code, Some(3));
            assert_eq!(tail.len(), REPORTED_LINES);
            assert_eq!(tail[0], b"line 10".to_vec());
            assert_eq!(tail[19], b"line 29".to_vec());
        }
        other => panic!("unexpected {:?}", other),
    }
}

#[test]
fn end_of_device_text_only_rescues_erase() {
    let kind = OperationKind::Flash { image_path: b"/tmp/a.iso".to_vec(), image_size: 1 };
    let mut op = Operation::start(kind, b"/dev/sdb".to_vec(), Some(MOUNTS), None).unwrap();
    op.on_line(b"No space left on device".to_vec());
    assert!(matches!(op.finish(failed_exit(1)), Err(OpError::HelperRuntimeFailure { .. })));
}

#[test]
fn format_progress_keeps_percent_for_messages() {
    let kind = OperationKind::Format { filesystem: b"vfat".to_vec(), label: b"USB".to_vec() };
    let mut op = Operation::start(kind, b"/dev/sdb".to_vec(), Some(MOUNTS), None).unwrap();
    match op.on_line(b"PERCENT 40".to_vec()) {
        Some(ProgressEvent::Format(p)) => {
            assert_eq!(p.percent, 40);
            assert!(p.message.is_none());
        }
        other => panic!("unexpected {:?}", other),
    }
    match op.on_line(b"MSG Creating filesystem".to_vec()) {
        Some(ProgressEvent::Format(p)) => {
            assert_eq!(p.percent, 40);
            assert_eq!(p.message.as_deref(), Some("Creating filesystem"));
        }
        other => panic!("unexpected {:?}", other),
    }
    assert!(op.on_line(b"12345".to_vec()).is_none());
    let done = op.finish(ok_exit()).unwrap();
    assert!(!done.sync);
    match done.final_event {
        Some(ProgressEvent::Format(p)) => {
            assert_eq!(p.percent, 100);
            assert_eq!(p.message.as_deref(), Some("Done"));
        }
        other => panic!("unexpected {:?}", other),
    }
    let failed = op.finish(ExitReport { success: false, code: None });
    assert!(matches!(failed, Err(OpError::HelperRuntimeFailure { code: None, .. })));
}

#[test]
fn tail_keeps_the_last_lines() {
    let mut t = DiagnosticTail::new();
    for i in 0..(TAIL_CAPACITY + 5) {
        t.push(format!("{}", i).into_bytes());
    }
    assert_eq!(t.len(), TAIL_CAPACITY);
    let last = t.last_lines(2);
    assert_eq!(last, vec![b"203".to_vec(), b"204".to_vec()]);
    assert_eq!(t.last_lines(1000)[0], b"5".to_vec());
    assert!(t.any_line_holds(b"20"));
    assert!(!t.any_line_holds(b"4 "));
}

#[test]
fn elevation_paths_run_the_same_helper() {
    let args = vec![b"erase".to_vec(), b"zero".to_vec(), b"/dev/sdb".to_vec()];
    let first = first_elevation();
    assert_eq!(first, Elevation::NonInteractive);
    let sudo = invocation(first, &args);
    assert_eq!(sudo.program, b"sudo".to_vec());
    assert_eq!(
        sudo.args,
        vec![
            b"-n".to_vec(),
            b"/usr/local/bin/inscribe-helper".to_vec(),
            b"erase".to_vec(),
            b"zero".to_vec(),
            b"/dev/sdb".to_vec()
        ]
    );
    let second = fallback(first).unwrap();
    let pkexec = invocation(second, &args);
    assert_eq!(pkexec.program, b"pkexec".to_vec());
    assert_eq!(pkexec.args[..], sudo.args[1..]);
    assert_eq!(fallback(second), None);
}

#[test]
fn cancel_with_no_active_operation_signals_nothing() {
    let slot = ActiveOperation::new();
    assert!(!slot.is_active());
    assert_eq!(slot.cancel_target(), None);
}

#[test]
fn single_active_operation() {
    let mut slot = ActiveOperation::new();
    assert!(slot.begin(4242).is_ok());
    assert_eq!(slot.cancel_target(), Some(4242));
    assert!(matches!(slot.begin(5151), Err(OpError::OperationActive)));
    assert_eq!(slot.cancel_target(), Some(4242));
    slot.end();
    assert_eq!(slot.cancel_target(), None);
    assert!(slot.begin(5151).is_ok());
}
