//! The operation state machine shared by flash, erase and format: checking
//! the target, the helper's argument vector, turning its progress lines into
//! events, and reading its exit.

use vstd::prelude::*;
use crate::device::{
    is_device_path, is_system_device, is_valid_device_path, on_system_disk, parent_of, root_device_of,
};
use crate::progress::{
    byte_count_of, message_of, parse_byte_count, parse_format_line, percent_of, EraseProgress,
    FlashProgress, FormatLine, FormatProgress,
};
use crate::split::{copy_all, views};
use crate::tail::{keep_last, occurs_in, DiagnosticTail, TAIL_CAPACITY};

verus! {

/// How many of the last helper lines an error report carries.
pub const REPORTED_LINES: usize = 20;

/// What is done to the device.
#[derive(Clone, Debug)]
pub enum OperationKind {
    /// Write the image at `image_path`, `image_size` bytes long.
    Flash { image_path: Vec<u8>, image_size: u64 },
    /// Erase the device in the given mode (zero, random, blkdiscard, wipefs, auto).
    Erase { mode: Vec<u8> },
    /// Make one partition with the given filesystem and label.
    Format { filesystem: Vec<u8>, label: Vec<u8> },
}

/// Why an operation did not succeed.
#[derive(Clone, Debug)]
pub enum OpError {
    /// The path is of neither recognised naming family.
    InvalidDevicePath,
    /// The path lies on the disk that holds the root filesystem.
    SystemDiskVeto,
    /// The mount table or another local file could not be read.
    IoFailure,
    /// Neither elevation path could start the helper.
    ElevationFailure,
    /// A written or downloaded image does not match what it should be.
    VerificationMismatch,
    /// Another operation's helper is still running.
    OperationActive,
    /// The helper exited with a failure; `tail` holds its last lines.
    HelperRuntimeFailure { code: Option<i32>, tail: Vec<Vec<u8>> },
}

/// A progress update for the sink.
#[derive(Clone, Debug)]
pub enum ProgressEvent {
    Flash(FlashProgress),
    Erase(EraseProgress),
    Format(FormatProgress),
}

/// How the helper process ended.
#[derive(Clone, Copy, Debug, PartialEq, Eq)]
pub struct ExitReport {
    pub success: bool,
    pub code: Option<i32>,
}

/// What to do once an operation has succeeded.
#[derive(Clone, Debug)]
pub struct Completion {
    /// Ask the system to flush pending writes to the device.
    pub sync: bool,
    /// The last progress event, at completion.
    pub final_event: Option<ProgressEvent>,
}

/// The error that stops an operation on `device` before any helper runs,
/// given the mount table text (`None` when it could not be read).
pub open spec fn target_error(device: Seq<u8>, mounts: Option<Seq<u8>>) -> Option<OpError> {
    if !is_device_path(device) {
        Some(OpError::InvalidDevicePath)
    } else {
        match mounts {
            None => Some(OpError::IoFailure),
            Some(m) => if on_system_disk(m, device) {
                Some(OpError::SystemDiskVeto)
            } else {
                None
            },
        }
    }
}

pub open spec fn view_mounts(mounts: Option<&[u8]>) -> Option<Seq<u8>> {
    match mounts {
        Some(m) => Some(m@),
        None => None,
    }
}

/// Checks that `device` may be written: a recognised path that does not lie
/// on the system disk. An unreadable mount table refuses the operation.
pub fn check_target(device: &[u8], mounts: Option<&[u8]>) -> (r: Result<(), OpError>)
    ensures
        match target_error(device@, view_mounts(mounts)) {
            None => r is Ok,
            Some(e) => r == Err::<(), OpError>(e),
        },
{
    if !is_valid_device_path(device) {
        return Err(OpError::InvalidDevicePath);
    }
    match mounts {
        None => Err(OpError::IoFailure),
        Some(m) => if is_system_device(m, device) {
            Err(OpError::SystemDiskVeto)
        } else {
            Ok(())
        },
    }
}

/// A path of neither recognised naming family is refused as invalid,
/// whatever the operation and the mount table; no operation is created, so
/// no helper can be launched for it.
pub proof fn lemma_unrecognised_path_refused(device: Seq<u8>, mounts: Option<Seq<u8>>)
    requires
        !is_device_path(device),
    ensures
        target_error(device, mounts) == Some(OpError::InvalidDevicePath),
{
}

/// A recognised path on the same whole disk as the device mounted on `/`
/// is vetoed as the system disk; no operation is created, so no helper can
/// be launched for it.
pub proof fn lemma_system_disk_vetoed(device: Seq<u8>, mounts: Seq<u8>, root: Seq<u8>)
    requires
        is_device_path(device),
        root_device_of(mounts) == Some(root),
        parent_of(root) == parent_of(device),
    ensures
        target_error(device, Some(mounts)) == Some(OpError::SystemDiskVeto),
{
}

/// `"No space left on device"`: how a fill reports reaching the end of the device.
pub open spec fn end_of_device_text() -> Seq<u8> {
    seq![
        78u8, 111, 32, 115, 112, 97, 99, 101, 32, 108, 101, 102, 116, 32, 111, 110, 32, 100, 101,
        118, 105, 99, 101,
    ]
}

/// The total that progress is measured against.
pub open spec fn total_for(kind: OperationKind, device_size: Option<u64>) -> Option<u64> {
    match kind {
        OperationKind::Flash { image_size, .. } => Some(image_size),
        OperationKind::Erase { .. } => device_size,
        OperationKind::Format { .. } => None,
    }
}


/// `"flash"`
pub open spec fn flash_verb() -> Seq<u8> {
    seq![102u8, 108, 97, 115, 104]
}

/// `"erase"`
pub open spec fn erase_verb() -> Seq<u8> {
    seq![101u8, 114, 97, 115, 101]
}

/// `"format"`
pub open spec fn format_verb() -> Seq<u8> {
    seq![102u8, 111, 114, 109, 97, 116]
}

/// `"unmount"`
pub open spec fn unmount_verb() -> Seq<u8> {
    seq![117u8, 110, 109, 111, 117, 110, 116]
}

/// The helper's verb and arguments for `kind` on `device`.
pub open spec fn helper_args_for(kind: OperationKind, device: Seq<u8>) -> Seq<Seq<u8>> {
    match kind {
        OperationKind::Flash { image_path, .. } => seq![flash_verb(), image_path@, device],
        OperationKind::Erase { mode } => seq![erase_verb(), mode@, device],
        OperationKind::Format { filesystem, label } => seq![
            format_verb(),
            filesystem@,
            device,
            label@,
        ],
    }
}

/// The helper's exit is the expected end of an erase: a fill stopped at the
/// end of the device.
pub open spec fn benign_exit(kind: OperationKind, tail: Seq<Seq<u8>>) -> bool {
    kind is Erase && exists|i: int| 0 <= i < tail.len() && occurs_in(end_of_device_text(), #[trigger] tail[i])
}

/// The event that a byte count gives for a flash or erase with `total`.
pub open spec fn byte_event(kind: OperationKind, n: u64, total: Option<u64>) -> ProgressEvent {
    if kind is Flash {
        ProgressEvent::Flash(FlashProgress { bytes_written: n, total_bytes: total })
    } else {
        ProgressEvent::Erase(EraseProgress { bytes_processed: n, total_bytes: total })
    }
}

/// A format event with `percent` and status text `text`.
pub open spec fn is_format_event(ev: ProgressEvent, percent: u8, text: Option<Seq<char>>) -> bool {
    match ev {
        ProgressEvent::Format(f) => f.percent == percent && match (f.message, text) {
            (Some(m), Some(t)) => m@ == t,
            (None, None) => true,
            _ => false,
        },
        _ => false,
    }
}

/// `r` is a format event with `percent` and status text `text`.
pub open spec fn reports_format(r: Option<ProgressEvent>, percent: u8, text: Option<Seq<char>>) -> bool {
    match r {
        Some(ev) => is_format_event(ev, percent, text),
        None => false,
    }
}

/// What a succeeded operation of `kind` does at the end: flash and erase
/// flush writes and report the full total (when it is known), format
/// reports 100% done.
pub open spec fn completes(kind: OperationKind, total: Option<u64>, c: Completion) -> bool {
    match kind {
        OperationKind::Format { .. } => !c.sync && reports_format(c.final_event, 100, Some(done_text())),
        _ => c.sync && match total {
            Some(t) => c.final_event == Some(byte_event(kind, t, Some(t))),
            None => c.final_event is None,
        },
    }
}

/// `r` is a helper failure with exit code `code` and last lines `tail`.
pub open spec fn fails_with(r: Result<Completion, OpError>, code: Option<i32>, tail: Seq<Seq<u8>>) -> bool {
    match r {
        Err(OpError::HelperRuntimeFailure { code: c, tail: t }) => c == code && views(t@) == tail,
        _ => false,
    }
}

/// `"Done"`
pub open spec fn done_text() -> Seq<char> {
    seq!['D', 'o', 'n', 'e']
}

/// One flash, erase or format of one device, from the checks to the exit.
pub struct Operation {
    kind: OperationKind,
    device: Vec<u8>,
    total: Option<u64>,
    percent: u8,
    tail: DiagnosticTail,
}

pub uninterp spec fn utf8_lossy(b: Seq<u8>) -> Seq<char>;

/// Relies on `String::from_utf8_lossy`: the text is a function of the bytes.
#[verifier::external_body]
fn text_of(b: &[u8]) -> (r: String)
    ensures
        r@ == utf8_lossy(b@),
{
    String::from_utf8_lossy(b).into_owned()
}

impl Operation {
    pub closed spec fn kind(&self) -> OperationKind {
        self.kind
    }

    pub closed spec fn device(&self) -> Seq<u8> {
        self.device@
    }

    pub closed spec fn total(&self) -> Option<u64> {
        self.total
    }

    /// The last percentage a format helper reported.
    pub closed spec fn percent(&self) -> u8 {
        self.percent
    }

    /// The helper's last lines, oldest first.
    pub closed spec fn tail(&self) -> Seq<Seq<u8>> {
        self.tail@
    }

    pub closed spec fn wf(&self) -> bool {
        self.tail.wf()
    }

    /// Starts an operation on `device` once it passes the checks.
    /// `mounts` is the mount table text, `device_size` the device's size if
    /// known.
    pub fn start(
        kind: OperationKind,
        device: Vec<u8>,
        mounts: Option<&[u8]>,
        device_size: Option<u64>,
    ) -> (r: Result<Operation, OpError>)
        ensures
            match target_error(device@, view_mounts(mounts)) {
                None => r matches Ok(op) && op.wf() && op.kind() == kind && op.device() == device@
                    && op.total() == total_for(kind, device_size) && op.percent() == 0
                    && op.tail() == Seq::<Seq<u8>>::empty(),
                Some(e) => r matches Err(x) && x == e,
            },
    {
        match check_target(device.as_slice(), mounts) {
            Err(e) => Err(e),
            Ok(()) => {
                let total = match &kind {
                    OperationKind::Flash { image_size, .. } => Some(*image_size),
                    OperationKind::Erase { .. } => device_size,
                    OperationKind::Format { .. } => None,
                };
                Ok(Operation { kind, device, total, percent: 0, tail: DiagnosticTail::new() })
            },
        }
    }
    /// The helper's verb and arguments for this operation.
    pub fn helper_arguments(&self) -> (r: Vec<Vec<u8>>)
        ensures
            views(r@) == helper_args_for(self.kind(), self.device()),
    {
        let device = copy_all(self.device.as_slice());
        let mut r: Vec<Vec<u8>> = Vec::new();
        match &self.kind {
            OperationKind::Flash { image_path, .. } => {
                let v = vec![102u8, 108, 97, 115, 104];
                assert(v@ =~= flash_verb());
                r.push(v);
                r.push(copy_all(image_path.as_slice()));
                r.push(device);
            },
            OperationKind::Erase { mode } => {
                let v = vec![101u8, 114, 97, 115, 101];
                assert(v@ =~= erase_verb());
                r.push(v);
                r.push(copy_all(mode.as_slice()));
                r.push(device);
            },
            OperationKind::Format { filesystem, label } => {
                let v = vec![102u8, 111, 114, 109, 97, 116];
                assert(v@ =~= format_verb());
                r.push(v);
                r.push(copy_all(filesystem.as_slice()));
                r.push(device);
                r.push(copy_all(label.as_slice()));
            },
        }
        assert(views(r@) =~= helper_args_for(self.kind(), self.device()));
        r
    }

    /// The helper's arguments that unmount every partition of the device.
    pub fn unmount_arguments(&self) -> (r: Vec<Vec<u8>>)
        ensures
            views(r@) == seq![unmount_verb(), self.device()],
    {
        let v = vec![117u8, 110, 109, 111, 117, 110, 116];
        assert(v@ =~= unmount_verb());
        let mut r: Vec<Vec<u8>> = Vec::new();
        r.push(v);
        r.push(copy_all(self.device.as_slice()));
        assert(views(r@) =~= seq![unmount_verb(), self.device()]);
        r
    }

    /// Whether the device's partitions are unmounted through the helper
    /// before it runs: so for a flash; the erase and format verbs unmount
    /// by themselves.
    pub fn unmounts_first(&self) -> (r: bool)
        ensures
            r == (self.kind() is Flash),
    {
        match &self.kind {
            OperationKind::Flash { .. } => true,
            _ => false,
        }
    }

    /// Takes one line of the helper's diagnostic stream: records it in the
    /// tail and returns the progress event it reports, if any.
    pub fn on_line(&mut self, line: Vec<u8>) -> (r: Option<ProgressEvent>)
        requires
            old(self).wf(),
        ensures
            final(self).wf(),
            final(self).kind() == old(self).kind(),
            final(self).device() == old(self).device(),
            final(self).total() == old(self).total(),
            final(self).tail() == keep_last(old(self).tail().push(line@), TAIL_CAPACITY as nat),
            !(old(self).kind() is Format) ==> final(self).percent() == old(self).percent() && match byte_count_of(line@) {
                Some(n) => r == Some(byte_event(old(self).kind(), n as u64, old(self).total())),
                None => r is None,
            },
            old(self).kind() is Format ==> match percent_of(line@) {
                Some(p) => final(self).percent() == p as u8 && reports_format(r, p as u8, None),
                None => final(self).percent() == old(self).percent() && match message_of(line@) {
                    Some(m) => reports_format(r, old(self).percent(), Some(utf8_lossy(m))),
                    None => r is None,
                },
            },
    {
        let event = match &self.kind {
            OperationKind::Flash { .. } => match parse_byte_count(line.as_slice()) {
                Some(n) => Some(ProgressEvent::Flash(
                    FlashProgress { bytes_written: n, total_bytes: self.total },
                )),
                None => None,
            },
            OperationKind::Erase { .. } => match parse_byte_count(line.as_slice()) {
                Some(n) => Some(ProgressEvent::Erase(
                    EraseProgress { bytes_processed: n, total_bytes: self.total },
                )),
                None => None,
            },
            OperationKind::Format { .. } => match parse_format_line(line.as_slice()) {
                Some(FormatLine::Percent(p)) => {
                    self.percent = p;
                    Some(ProgressEvent::Format(FormatProgress { percent: p, message: None }))
                },
                Some(FormatLine::Message(m)) => Some(ProgressEvent::Format(
                    FormatProgress { percent: self.percent, message: Some(text_of(m.as_slice())) },
                )),
                None => None,
            },
        };
        self.tail.push(line);
        event
    }

    /// Reads the helper's exit once it has been observed: success, the
    /// expected end-of-device exit of an erase, or a failure carrying the
    /// exit code and the helper's last lines.
    pub fn finish(&self, exit: ExitReport) -> (r: Result<Completion, OpError>)
        requires
            self.wf(),
        ensures
            exit.success || benign_exit(self.kind(), self.tail()) ==> r is Ok && completes(
                self.kind(),
                self.total(),
                r->Ok_0,
            ),
            !(exit.success || benign_exit(self.kind(), self.tail())) ==> fails_with(
                r,
                exit.code,
                keep_last(self.tail(), REPORTED_LINES as nat),
            ),
    {
        let mut ok = exit.success;
        if !ok {
            if let OperationKind::Erase { .. } = &self.kind {
                let text: [u8; 23] = [
                    78u8, 111, 32, 115, 112, 97, 99, 101, 32, 108, 101, 102, 116, 32, 111, 110, 32, 100, 101,
                    118, 105, 99, 101,
                ];
                assert(text@ =~= end_of_device_text());
                ok = self.tail.any_line_holds(&text);
            }
        }
        if !ok {
            return Err(OpError::HelperRuntimeFailure { code: exit.code, tail: self.tail.last_lines(REPORTED_LINES) });
        }
        match &self.kind {
            OperationKind::Format { .. } => {
                let done = "Done".to_owned();
                proof {
                    reveal_strlit("Done");
                }
                assert(done@ =~= done_text());
                Ok(Completion {
                    sync: false,
                    final_event: Some(ProgressEvent::Format(FormatProgress { percent: 100, message: Some(done) })),
                })
            },
            OperationKind::Flash { .. } => Ok(Completion {
                sync: true,
                final_event: match self.total {
                    Some(t) => Some(ProgressEvent::Flash(FlashProgress { bytes_written: t, total_bytes: Some(t) })),
                    None => None,
                },
            }),
            OperationKind::Erase { .. } => Ok(Completion {
                sync: true,
                final_event: match self.total {
                    Some(t) => Some(ProgressEvent::Erase(EraseProgress { bytes_processed: t, total_bytes: Some(t) })),
                    None => None,
                },
            }),
        }
    }
}

} // verus!
