//! The activation/deactivation lifecycle.
//!
//! Activation parses the caller's thread-id text, creates the well-known
//! named shutdown signal, and lets the creation outcome assign a role: the
//! one caller that observed "freshly created" installs the hooks and blocks
//! until the signal is set; every other caller, in this process or another,
//! sets the signal instead, requesting shutdown. On wake — or on any early
//! failure — the activator releases every hook registration it holds before
//! returning.
//!
//! The OS work (creating and waiting on the signal, installing and removing
//! hooks) happens outside the library: the functions here decide, and hand
//! the caller `Command` values to perform, while the `Controller` carries
//! the state of one activation between those steps.

use vstd::prelude::*;

use crate::Fault;
use crate::args::{parse_thread_id, thread_id_result};
use crate::classify::HookCategory;

verus! {

/// Well-known, globally-namespaced name of the shutdown signal; every
/// activation and deactivation in every process opens the same signal by
/// this name.
pub const SHUTDOWN_SIGNAL_NAME: &'static str =
    "BONG_SHUTDOWN_EVENT_033e0095-da6d-4e9e-a6c7-a9fb45871522";

/// The role the named signal's creation outcome assigns to an activation.
#[derive(Clone, Copy, Debug, PartialEq, Eq, Structural)]
pub enum ActivationRole {
    /// This call created the signal: it alone installs the hooks, then
    /// blocks until the signal is set.
    Installer,
    /// The signal already existed, so an installer is live somewhere: this
    /// call installs nothing and requests shutdown instead.
    Shutdown,
}

/// The role a "freshly created" observation assigns. The flag is accurate
/// only at the moment the signal is created, so the role is computed from
/// the captured flag and never recomputed.
pub open spec fn role_of(freshly_created: bool) -> ActivationRole {
    if freshly_created {
        ActivationRole::Installer
    } else {
        ActivationRole::Shutdown
    }
}

/// Assigns this activation its role from the captured creation flag.
pub fn activation_role(freshly_created: bool) -> (r: ActivationRole)
    ensures
        r == role_of(freshly_created),
{
    if freshly_created {
        ActivationRole::Installer
    } else {
        ActivationRole::Shutdown
    }
}

/// Law: of two activations racing on one signal name, exactly one installs.
/// The OS resolves the race atomically — exactly one of the two creation
/// calls observes "freshly created" — and the role assignment then makes
/// exactly one of them the installer.
pub proof fn lemma_exactly_one_installer(first_fresh: bool, second_fresh: bool)
    requires
        first_fresh != second_fresh,
    ensures
        (role_of(first_fresh) == ActivationRole::Installer) != (role_of(second_fresh)
            == ActivationRole::Installer),
{
}

/// Law: an activation that found the signal already in existence performs
/// no installation step at all — its whole plan is to request shutdown.
/// Together with `lemma_exactly_one_installer`, of two racing activations
/// exactly one installs hooks and the other installs nothing.
pub proof fn lemma_noninstaller_installs_nothing(thread_id: u32)
    ensures
        forall|i: int|
            0 <= i < activation_commands_spec(false, thread_id).len() ==> !(
            activation_commands_spec(false, thread_id)[i] is InstallHook),
{
    assert(activation_commands_spec(false, thread_id) =~= seq![Command::SetSignal]);
}

/// One step of OS work the lifecycle asks its caller to perform.
#[derive(Clone, Copy, Debug, PartialEq, Eq, Structural)]
pub enum Command {
    /// Create or open the named shutdown signal, manual-reset and initially
    /// unsignaled, and capture whether it was freshly created.
    CreateSignal { manual_reset: bool, initially_signaled: bool },
    /// Install a hook of `category` for `thread_id` (0 hooks every thread
    /// on the desktop), wired to the matching trampoline.
    InstallHook { category: HookCategory, thread_id: u32 },
    /// Block until the shutdown signal is set.
    WaitForSignal,
    /// Set the shutdown signal.
    SetSignal,
}

/// The creation parameters every lifecycle path uses: a manual-reset signal,
/// initially unsignaled, so that once shutdown is requested every later wait
/// and check also sees it.
pub open spec fn create_signal_command() -> Command {
    Command::CreateSignal { manual_reset: true, initially_signaled: false }
}

/// The OS steps an activation performs once the signal exists, decided by
/// the captured creation flag: the installer registers a hook per category
/// and blocks on the signal; any other caller sets the signal and installs
/// nothing.
pub open spec fn activation_commands_spec(freshly_created: bool, thread_id: u32) -> Seq<Command> {
    if freshly_created {
        seq![
            Command::InstallHook { category: HookCategory::PreDispatch, thread_id },
            Command::InstallHook { category: HookCategory::PostDispatch, thread_id },
            Command::WaitForSignal,
        ]
    } else {
        seq![Command::SetSignal]
    }
}

/// Decides the activation steps that follow signal creation.
pub fn activation_commands(freshly_created: bool, thread_id: u32) -> (cmds: Vec<Command>)
    ensures
        cmds@ == activation_commands_spec(freshly_created, thread_id),
{
    let mut cmds: Vec<Command> = Vec::new();
    if freshly_created {
        cmds.push(Command::InstallHook { category: HookCategory::PreDispatch, thread_id });
        cmds.push(Command::InstallHook { category: HookCategory::PostDispatch, thread_id });
        cmds.push(Command::WaitForSignal);
        assert(cmds@ =~= activation_commands_spec(freshly_created, thread_id));
    } else {
        cmds.push(Command::SetSignal);
        assert(cmds@ =~= activation_commands_spec(freshly_created, thread_id));
    }
    cmds
}

/// The deactivation steps: open the well-known signal by name and set it,
/// unblocking whichever activation is waiting. Deactivation never holds
/// hook registrations itself.
pub fn do_unhook() -> (cmds: Vec<Command>)
    ensures
        cmds@ == seq![create_signal_command(), Command::SetSignal],
{
    let mut cmds: Vec<Command> = Vec::new();
    cmds.push(Command::CreateSignal { manual_reset: true, initially_signaled: false });
    cmds.push(Command::SetSignal);
    assert(cmds@ =~= seq![create_signal_command(), Command::SetSignal]);
    cmds
}

/// Checks the OS outcomes of creating the named signal: a null handle is
/// the OS failing to allocate the primitive (`Fault::Sync`); otherwise the
/// "freshly created" flag is captured — here, at creation, and never
/// recomputed — as "no identically-named signal already existed".
pub fn checked_signal_creation(handle: u64, already_existed: bool) -> (r: Result<(u64, bool), Fault>)
    ensures
        handle == 0 ==> r == Err::<(u64, bool), Fault>(Fault::Sync),
        handle != 0 ==> r == Ok::<(u64, bool), Fault>((handle, !already_existed)),
{
    if handle == 0 {
        Err(Fault::Sync)
    } else {
        Ok((handle, !already_existed))
    }
}

/// One installed message-interception registration: the hook category, the
/// hooked thread, and the installation handle the OS returned. A
/// registration exists only for a successful installation (its handle is
/// never null), and `release` consumes it, so removal is asked for exactly
/// once — neither twice nor never — on every path that drops the frame
/// owning it.
#[derive(Clone, Copy, Debug)]
pub struct HookRegistration {
    category: HookCategory,
    thread_id: u32,
    handle: u64,
}

impl HookRegistration {
    /// The hook category this registration intercepts.
    pub closed spec fn category_spec(self) -> HookCategory {
        self.category
    }

    /// The thread the hook was installed for.
    pub closed spec fn thread_id_spec(self) -> u32 {
        self.thread_id
    }

    /// The OS installation handle.
    pub closed spec fn handle_spec(self) -> u64 {
        self.handle
    }

    /// A registration stands for a live installation: a nonnull handle.
    pub open spec fn wf(self) -> bool {
        self.handle_spec() != 0
    }

    /// Records the outcome of one OS installation call: a null handle means
    /// the OS rejected the installation (`Fault::Hook`); anything else
    /// becomes a live registration.
    pub fn install(category: HookCategory, thread_id: u32, handle: u64) -> (r: Result<
        HookRegistration,
        Fault,
    >)
        ensures
            handle == 0 ==> r == Err::<HookRegistration, Fault>(Fault::Hook),
            handle != 0 ==> r is Ok && r->Ok_0.wf() && r->Ok_0.category_spec() == category
                && r->Ok_0.thread_id_spec() == thread_id && r->Ok_0.handle_spec() == handle,
    {
        if handle == 0 {
            Err(Fault::Hook)
        } else {
            Ok(HookRegistration { category, thread_id, handle })
        }
    }

    /// Surrenders the registration for removal, handing back the handle the
    /// caller must pass to the OS removal call. Taking `self` by value makes
    /// a second removal of the same registration unwritable; omitting the
    /// removal is barred by the owning scope, which calls this on every exit
    /// path. If the OS then rejects the removal, the process must stop: a
    /// hook left live past its registration corrupts every process on the
    /// hooked thread.
    pub fn release(self) -> (r: u64)
        requires
            self.wf(),
        ensures
            r == self.handle_spec(),
            r != 0,
    {
        self.handle
    }
}

/// Phase of one activation, as the lifecycle state machine sees it.
#[derive(Clone, Copy, Debug, PartialEq, Eq, Structural)]
pub enum Phase {
    /// No activation underway; nothing installed.
    Idle,
    /// Argument parsing passed; registrations are being created.
    Installing,
    /// All registrations live; blocked on the shutdown signal.
    Waiting,
}

/// The state one activation carries between its OS steps: its phase, the
/// thread it targets, and the registrations it owns. Registrations exist
/// only between `Installing` and the unwind, and every one of them is live.
pub struct Controller {
    phase: Phase,
    thread_id: u32,
    registrations: Vec<HookRegistration>,
}

impl Controller {
    /// The activation's phase.
    pub closed spec fn phase_spec(self) -> Phase {
        self.phase
    }

    /// The parsed thread identifier the activation targets.
    pub closed spec fn thread_id_spec(self) -> u32 {
        self.thread_id
    }

    /// The registrations the activation owns, in installation order.
    pub closed spec fn registrations_spec(self) -> Seq<HookRegistration> {
        self.registrations@
    }

    /// Invariant: an idle activation owns nothing, and every owned
    /// registration is live.
    pub open spec fn wf(self) -> bool {
        &&& (self.phase_spec() == Phase::Idle ==> self.registrations_spec().len() == 0)
        &&& (forall|i: int|
            0 <= i < self.registrations_spec().len() ==> self.registrations_spec()[i].wf())
    }

    /// The activation's phase, observed.
    pub fn phase(&self) -> (p: Phase)
        ensures
            p == self.phase_spec(),
    {
        self.phase
    }

    /// The parsed thread identifier, observed.
    pub fn thread_id(&self) -> (t: u32)
        ensures
            t == self.thread_id_spec(),
    {
        self.thread_id
    }

    /// How many registrations the activation owns.
    pub fn registration_count(&self) -> (n: usize)
        ensures
            n == self.registrations_spec().len(),
    {
        self.registrations.len()
    }

    /// A fresh, idle controller.
    pub fn new() -> (c: Controller)
        ensures
            c.wf(),
            c.phase_spec() == Phase::Idle,
            c.registrations_spec().len() == 0,
    {
        Controller { phase: Phase::Idle, thread_id: 0, registrations: Vec::new() }
    }

    /// Starts an activation: parses the thread-id text. On success the
    /// controller moves to `Installing` with the parsed thread recorded; a
    /// malformed text leaves it idle, before any OS resource is touched.
    pub fn start_activation(&mut self, text: &Vec<char>) -> (r: Result<u32, Fault>)
        requires
            old(self).wf(),
            old(self).phase_spec() == Phase::Idle,
        ensures
            final(self).wf(),
            r == thread_id_result(text@),
            r is Ok ==> final(self).phase_spec() == Phase::Installing
                && final(self).thread_id_spec() == r->Ok_0,
            r is Err ==> final(self).phase_spec() == Phase::Idle,
            final(self).registrations_spec() == old(self).registrations_spec(),
    {
        match parse_thread_id(text) {
            Ok(tid) => {
                self.phase = Phase::Installing;
                self.thread_id = tid;
                Ok(tid)
            },
            Err(fault) => Err(fault),
        }
    }

    /// Records one OS installation outcome while installing. A null handle
    /// is the OS rejecting the hook: nothing is recorded and the caller
    /// unwinds; otherwise the new registration joins the owned set.
    pub fn hook_installed(&mut self, category: HookCategory, handle: u64) -> (r: Result<(), Fault>)
        requires
            old(self).wf(),
            old(self).phase_spec() == Phase::Installing,
        ensures
            final(self).wf(),
            final(self).phase_spec() == Phase::Installing,
            final(self).thread_id_spec() == old(self).thread_id_spec(),
            handle == 0 ==> r == Err::<(), Fault>(Fault::Hook) && final(self).registrations_spec()
                == old(self).registrations_spec(),
            handle != 0 ==> r == Ok::<(), Fault>(())
                && final(self).registrations_spec().len() == old(self).registrations_spec().len()
                    + 1
                && final(self).registrations_spec().drop_last()
                    == old(self).registrations_spec()
                && final(self).registrations_spec().last().category_spec() == category
                && final(self).registrations_spec().last().thread_id_spec()
                    == old(self).thread_id_spec()
                && final(self).registrations_spec().last().handle_spec() == handle,
    {
        match HookRegistration::install(category, self.thread_id, handle) {
            Ok(reg) => {
                self.registrations.push(reg);
                proof {
                    assert(self.registrations@.drop_last() =~= old(self).registrations@);
                    assert forall|i: int|
                        0 <= i < self.registrations@.len() implies self.registrations@[i].wf() by {
                        if i < self.registrations@.len() - 1 {
                            assert(self.registrations@[i] == old(self).registrations_spec()[i]);
                            assert(old(self).registrations_spec()[i].wf());
                        }
                    }
                }
                Ok(())
            },
            Err(fault) => Err(fault),
        }
    }

    /// Moves the activation to `Waiting`: every registration is in place and
    /// the caller is about to block on the shutdown signal.
    pub fn begin_waiting(&mut self)
        requires
            old(self).wf(),
            old(self).phase_spec() == Phase::Installing,
        ensures
            final(self).wf(),
            final(self).phase_spec() == Phase::Waiting,
            final(self).thread_id_spec() == old(self).thread_id_spec(),
            final(self).registrations_spec() == old(self).registrations_spec(),
    {
        self.phase = Phase::Waiting;
        proof {
            assert forall|i: int|
                0 <= i < self.registrations@.len() implies self.registrations@[i].wf() by {
                assert(self.registrations@[i] == old(self).registrations_spec()[i]);
                assert(old(self).registrations_spec()[i].wf());
            }
        }
    }

    /// Unwinds the activation: on wake from the shutdown signal, or on any
    /// early failure, every owned registration is surrendered — in
    /// installation order, each exactly once — and the controller returns to
    /// idle before the activation call returns. The caller passes each
    /// returned handle to the OS removal call.
    #[verifier::loop_isolation(false)]
    pub fn unwind(&mut self) -> (released: Vec<u64>)
        requires
            old(self).wf(),
        ensures
            final(self).wf(),
            final(self).phase_spec() == Phase::Idle,
            final(self).registrations_spec().len() == 0,
            released@.len() == old(self).registrations_spec().len(),
            forall|j: int|
                0 <= j < released@.len() ==> released@[j] == old(self).registrations_spec()[
                    j
                ].handle_spec() && released@[j] != 0,
    {
        let ghost owned = self.registrations@;
        let mut released: Vec<u64> = Vec::new();
        while self.registrations.len() > 0
            invariant
                self.phase == old(self).phase,
                released@.len() + self.registrations@.len() == owned.len(),
                self.registrations@ =~= owned.subrange(released@.len() as int, owned.len() as int),
                forall|j: int|
                    0 <= j < released@.len() ==> released@[j] == owned[j].handle_spec()
                        && released@[j] != 0,
            decreases self.registrations@.len(),
        {
            let reg = self.registrations.remove(0);
            let handle = reg.release();
            released.push(handle);
        }
        self.phase = Phase::Idle;
        released
    }
}

} // verus!
