//! The fixed set of signals the bridge subscribes to, and their classification.

use vstd::prelude::*;

verus! {

/// The number of the reload signal (hang-up).
pub open spec fn reload_number() -> int {
    1
}

/// The number of the terminate signal.
pub open spec fn terminate_number() -> int {
    15
}

/// The number of the interrupt signal.
pub open spec fn interrupt_number() -> int {
    2
}

/// The number of the quit signal.
pub open spec fn quit_number() -> int {
    3
}

/// A member of the signal set. The set is closed: the bridge registers for
/// these four signals and no other.
#[derive(Clone, Copy, Debug, PartialEq, Eq, Structural)]
pub enum SignalKind {
    Reload,
    Terminate,
    Interrupt,
    Quit,
}

impl SignalKind {
    /// The signal number that the operating system delivers for this kind.
    pub open spec fn number(self) -> int {
        match self {
            SignalKind::Reload => reload_number(),
            SignalKind::Terminate => terminate_number(),
            SignalKind::Interrupt => interrupt_number(),
            SignalKind::Quit => quit_number(),
        }
    }

    /// Whether this kind asks the process to shut down.
    pub open spec fn terminating(self) -> bool {
        self != SignalKind::Reload
    }

    /// Whether this kind asks the process to shut down.
    pub fn is_terminating(self) -> (r: bool)
        ensures
            r == self.terminating(),
    {
        match self {
            SignalKind::Reload => false,
            SignalKind::Terminate => true,
            SignalKind::Interrupt => true,
            SignalKind::Quit => true,
        }
    }

    /// The signal number of this kind.
    pub fn raw(self) -> (r: i32)
        ensures
            r == self.number(),
    {
        match self {
            SignalKind::Reload => sighup(),
            SignalKind::Terminate => sigterm(),
            SignalKind::Interrupt => sigint(),
            SignalKind::Quit => sigquit(),
        }
    }
}

/// `signal_hook::consts::signal::SIGHUP`: trusted to be 1, as libc defines it
/// on every platform that has the signal.
#[verifier::external_body]
fn sighup() -> (r: i32)
    ensures
        r == reload_number(),
{
    signal_hook::consts::signal::SIGHUP
}

/// `signal_hook::consts::signal::SIGTERM`: trusted to be 15, as libc defines
/// it on every platform.
#[verifier::external_body]
fn sigterm() -> (r: i32)
    ensures
        r == terminate_number(),
{
    signal_hook::consts::signal::SIGTERM
}

/// `signal_hook::consts::signal::SIGINT`: trusted to be 2, as libc defines it
/// on every platform.
#[verifier::external_body]
fn sigint() -> (r: i32)
    ensures
        r == interrupt_number(),
{
    signal_hook::consts::signal::SIGINT
}

/// `signal_hook::consts::signal::SIGQUIT`: trusted to be 3, as libc defines
/// it on every platform that has the signal.
#[verifier::external_body]
fn sigquit() -> (r: i32)
    ensures
        r == quit_number(),
{
    signal_hook::consts::signal::SIGQUIT
}

/// The kind of a raw signal number, if it belongs to the signal set.
pub open spec fn classify_spec(raw: int) -> Option<SignalKind> {
    if raw == reload_number() {
        Some(SignalKind::Reload)
    } else if raw == terminate_number() {
        Some(SignalKind::Terminate)
    } else if raw == interrupt_number() {
        Some(SignalKind::Interrupt)
    } else if raw == quit_number() {
        Some(SignalKind::Quit)
    } else {
        None
    }
}

/// Classifies a raw signal number: `Some` exactly for the four numbers of the
/// signal set, each with its kind.
pub fn classify(raw: i32) -> (r: Option<SignalKind>)
    ensures
        r == classify_spec(raw as int),
        r.is_some() <==> (raw == 1 || raw == 2 || raw == 3 || raw == 15),
{
    if raw == sighup() {
        Some(SignalKind::Reload)
    } else if raw == sigterm() {
        Some(SignalKind::Terminate)
    } else if raw == sigint() {
        Some(SignalKind::Interrupt)
    } else if raw == sigquit() {
        Some(SignalKind::Quit)
    } else {
        None
    }
}

/// The numbers to register for: reload, terminate, interrupt, quit, in this
/// order and nothing else.
pub fn signal_set() -> (r: Vec<i32>)
    ensures
        r@ == seq![1i32, 15i32, 2i32, 3i32],
        forall|raw: i32| r@.contains(raw) <==> classify_spec(raw as int).is_some(),
{
    let mut set: Vec<i32> = Vec::new();
    set.push(sighup());
    set.push(sigterm());
    set.push(sigint());
    set.push(sigquit());
    proof {
        let want = seq![1i32, 15i32, 2i32, 3i32];
        assert(set@ =~= want);
        assert(want[0] == 1 && want[1] == 15 && want[2] == 2 && want[3] == 3);
        assert forall|raw: i32| classify_spec(raw as int).is_some() implies want.contains(raw) by {
            if raw == 1 {
                assert(want[0] == raw);
            } else if raw == 15 {
                assert(want[1] == raw);
            } else if raw == 2 {
                assert(want[2] == raw);
            } else {
                assert(want[3] == raw);
            }
        }
    }
    set
}

/// Classification inverts `number`: every kind is recognised from its own
/// number, so the four numbers are distinct.
pub proof fn classify_inverts_number(kind: SignalKind)
    ensures
        classify_spec(kind.number()) == Some(kind),
{
}

} // verus!
