//! Starting the privileged helper: the fixed helper program, the two
//! elevation paths that may run it, and the single slot that records the
//! running helper's process id.

use vstd::prelude::*;
use crate::split::views;
use crate::tail::{occurs, occurs_in};

verus! {

/// `"/usr/local/bin/inscribe-helper"`: the helper both elevation paths run.
pub open spec fn helper_path() -> Seq<u8> {
    seq![
        47u8, 117, 115, 114, 47, 108, 111, 99, 97, 108, 47, 98, 105, 110, 47, 105, 110, 115, 99,
        114, 105, 98, 101, 45, 104, 101, 108, 112, 101, 114,
    ]
}

/// `"sudo"`
pub open spec fn sudo_program() -> Seq<u8> {
    seq![115u8, 117, 100, 111]
}

/// `"-n"`: never prompt for a password.
pub open spec fn non_interactive_flag() -> Seq<u8> {
    seq![45u8, 110]
}

/// `"pkexec"`
pub open spec fn pkexec_program() -> Seq<u8> {
    seq![112u8, 107, 101, 120, 101, 99]
}

/// A way to run the helper with elevated privileges.
#[derive(Clone, Copy, Debug, PartialEq, Eq)]
pub enum Elevation {
    /// Pre-authorised, without a prompt.
    NonInteractive,
    /// With a one-time consent prompt.
    Interactive,
}

/// A program and its arguments.
#[derive(Clone, Debug)]
pub struct Invocation {
    pub program: Vec<u8>,
    pub args: Vec<Vec<u8>>,
}

pub open spec fn elevation_program(e: Elevation) -> Seq<u8> {
    match e {
        Elevation::NonInteractive => sudo_program(),
        Elevation::Interactive => pkexec_program(),
    }
}

/// The elevation program's own arguments, before the helper's path.
pub open spec fn elevation_options(e: Elevation) -> Seq<Seq<u8>> {
    match e {
        Elevation::NonInteractive => seq![non_interactive_flag()],
        Elevation::Interactive => Seq::empty(),
    }
}

/// The arguments that run the helper with `helper_args` through `e`.
pub open spec fn invocation_args(e: Elevation, helper_args: Seq<Seq<u8>>) -> Seq<Seq<u8>> {
    elevation_options(e) + seq![helper_path()] + helper_args
}

/// The path tried first.
pub fn first_elevation() -> (r: Elevation)
    ensures
        r == Elevation::NonInteractive,
{
    Elevation::NonInteractive
}

/// The path to try when `e` could not start the helper; `None` when none is left.
pub fn fallback(e: Elevation) -> (r: Option<Elevation>)
    ensures
        e == Elevation::NonInteractive ==> r == Some(Elevation::Interactive),
        e == Elevation::Interactive ==> r is None,
{
    match e {
        Elevation::NonInteractive => Some(Elevation::Interactive),
        Elevation::Interactive => None,
    }
}

/// The command that runs the helper with `helper_args` through `e`.
pub fn invocation(e: Elevation, helper_args: &Vec<Vec<u8>>) -> (r: Invocation)
    ensures
        r.program@ == elevation_program(e),
        views(r.args@) == invocation_args(e, views(helper_args@)),
{
    let mut args: Vec<Vec<u8>> = Vec::new();
    let program = match e {
        Elevation::NonInteractive => {
            let flag = vec![45u8, 110];
            assert(flag@ =~= non_interactive_flag());
            args.push(flag);
            let p = vec![115u8, 117, 100, 111];
            assert(p@ =~= sudo_program());
            p
        },
        Elevation::Interactive => {
            let p = vec![112u8, 107, 101, 120, 101, 99];
            assert(p@ =~= pkexec_program());
            p
        },
    };
    let helper = vec![
        47u8, 117, 115, 114, 47, 108, 111, 99, 97, 108, 47, 98, 105, 110, 47, 105, 110, 115, 99,
        114, 105, 98, 101, 45, 104, 101, 108, 112, 101, 114,
    ];
    assert(helper@ =~= helper_path());
    args.push(helper);
    assert(views(args@) =~= elevation_options(e) + seq![helper_path()]);
    let mut i: usize = 0;
    while i < helper_args.len()
        invariant
            i <= helper_args@.len(),
            views(args@) == elevation_options(e) + seq![helper_path()] + views(
                helper_args@,
            ).subrange(0, i as int),
        decreases helper_args.len() - i,
    {
        let ghost before = args@;
        let a = crate::split::copy_all(helper_args[i].as_slice());
        let ghost av = a@;
        args.push(a);
        assert(views(args@) =~= views(before).push(av));
        i = i + 1;
        assert(views(helper_args@).subrange(0, i as int) =~= views(helper_args@).subrange(
            0,
            i - 1,
        ).push(views(helper_args@)[i - 1]));
        assert(views(args@) =~= elevation_options(e) + seq![helper_path()] + views(
            helper_args@,
        ).subrange(0, i as int));
    }
    assert(views(helper_args@).subrange(0, helper_args@.len() as int) =~= views(helper_args@));
    Invocation { program, args }
}

/// Both elevation paths run the same helper with the same arguments: the
/// choice of path never changes the operation performed.
pub proof fn lemma_elevation_keeps_operation(helper_args: Seq<Seq<u8>>)
    ensures
        invocation_args(Elevation::NonInteractive, helper_args).drop_first() == invocation_args(
            Elevation::Interactive,
            helper_args,
        ),
        invocation_args(Elevation::Interactive, helper_args)[0] == helper_path(),
{
    assert(invocation_args(Elevation::NonInteractive, helper_args).drop_first() =~= invocation_args(
        Elevation::Interactive,
        helper_args,
    ));
}

/// `"# Inscribe helper v6"`: the version line of the installed helper.
pub open spec fn helper_version_mark() -> Seq<u8> {
    seq![
        35u8, 32, 73, 110, 115, 99, 114, 105, 98, 101, 32, 104, 101, 108, 112, 101, 114, 32, 118,
        54,
    ]
}

/// Whether the helper and its sudoers entry must be (re)installed: unless
/// the helper is installed and writable, the sudoers entry is present, and
/// the helper's text (`None` when unreadable) carries the current version
/// line.
pub fn setup_required(helper_writable: bool, sudoers_present: bool, helper_text: Option<&[u8]>) -> (r: bool)
    ensures
        r == !(helper_writable && sudoers_present && match helper_text {
            Some(t) => occurs_in(helper_version_mark(), t@),
            None => false,
        }),
{
    let current = match helper_text {
        Some(t) => {
            let mark: [u8; 20] = [
                35u8, 32, 73, 110, 115, 99, 114, 105, 98, 101, 32, 104, 101, 108, 112, 101, 114, 32,
                118, 54,
            ];
            assert(mark@ =~= helper_version_mark());
            occurs(&mark, t)
        },
        None => false,
    };
    !(helper_writable && sudoers_present && current)
}

/// The process id of the running helper; 0 when none runs.
pub struct ActiveOperation {
    pid: u32,
}

impl ActiveOperation {
    pub closed spec fn pid(&self) -> u32 {
        self.pid
    }

    pub fn new() -> (r: ActiveOperation)
        ensures
            r.pid() == 0,
    {
        ActiveOperation { pid: 0 }
    }

    /// Whether a helper is recorded as running.
    pub fn is_active(&self) -> (r: bool)
        ensures
            r == (self.pid() != 0),
    {
        self.pid != 0
    }

    /// Records a newly spawned helper; refused while another is recorded.
    pub fn begin(&mut self, pid: u32) -> (r: Result<(), crate::operation::OpError>)
        ensures
            old(self).pid() != 0 ==> (r matches Err(crate::operation::OpError::OperationActive))
                && final(self).pid() == old(self).pid(),
            old(self).pid() == 0 ==> r is Ok && final(self).pid() == pid,
    {
        if self.pid != 0 {
            return Err(crate::operation::OpError::OperationActive);
        }
        self.pid = pid;
        Ok(())
    }

    /// Clears the slot once the helper's exit has been observed.
    pub fn end(&mut self)
        ensures
            final(self).pid() == 0,
    {
        self.pid = 0;
    }

    /// The process to ask to terminate on cancellation: none when the slot is
    /// empty, so that cancelling then signals nothing and succeeds.
    pub fn cancel_target(&self) -> (r: Option<u32>)
        ensures
            self.pid() == 0 ==> r is None,
            self.pid() != 0 ==> r == Some(self.pid()),
    {
        if self.pid == 0 {
            None
        } else {
            Some(self.pid)
        }
    }
}

} // verus!
