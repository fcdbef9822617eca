//! The inhibition controller: the daemon's state machine.
//!
//! The daemon owns an enabled/disabled flag and, while enabled, exactly one
//! handle to the external inhibitor resource.  The desktop session itself is
//! an opaque collaborator: this module models the registry handshake as
//! tagged events, and every operation that touches the external resource
//! returns a [`SessionAction`] telling the unverified runner what to perform.
//! All state transitions are pure and proved against the spec-level machine.

use vstd::prelude::*;
use vstd::string::StringExecFns;

use crate::command::{command_of_code, status_code, Command};

verus! {

/// The capability tag a registry announcement's interface name stands for.
/// Only the two names the daemon needs are recognized; the set of announced
/// capabilities is not closed, so every other name maps to `Other`.
pub open spec fn spec_classify_interface(name: Seq<char>) -> GlobalInterface {
    if name == "wl_compositor"@ {
        GlobalInterface::Compositor
    } else if name == "zwp_idle_inhibit_manager_v1"@ {
        GlobalInterface::IdleInhibitManager
    } else {
        GlobalInterface::Other
    }
}

/// Map a registry announcement's interface name to its capability tag.
pub fn classify_interface(name: &str) -> (g: GlobalInterface)
    ensures
        g == spec_classify_interface(name@),
{
    let owned: String = name.to_owned();
    if owned == String::from_str("wl_compositor") {
        GlobalInterface::Compositor
    } else if owned == String::from_str("zwp_idle_inhibit_manager_v1") {
        GlobalInterface::IdleInhibitManager
    } else {
        GlobalInterface::Other
    }
}

/// Stands for one live external inhibitor resource.  The real object is an
/// opaque capability of the desktop session; the controller only tracks its
/// existence, which is what the state machine's invariants speak of.
#[derive(Clone, Copy, Debug, PartialEq, Eq, Structural)]
#[verifier::ext_equal]
pub struct InhibitorHandle {}

/// What the runner must do to the external session after a transition.
#[derive(Clone, Copy, Debug, PartialEq, Eq, Structural)]
pub enum SessionAction {
    /// The transition left the external resource alone.
    DoNothing,
    /// Create the inhibitor resource; the controller now holds its handle.
    CreateInhibitor,
    /// Destroy the inhibitor resource; the controller dropped its handle.
    DestroyInhibitor,
}

/// A registry announcement, by capability tag.  The set of announced
/// capabilities is not closed, so everything unknown maps to `Other`.
#[derive(Clone, Copy, Debug, PartialEq, Eq, Structural)]
pub enum GlobalInterface {
    /// The compositor capability, from which the base surface is created.
    Compositor,
    /// The idle-inhibit manager capability.
    IdleInhibitManager,
    /// Any other announcement; always ignored, never an error.
    Other,
}

/// What the runner must bind in response to a registry announcement.
#[derive(Clone, Copy, Debug, PartialEq, Eq, Structural)]
pub enum RegistryAction {
    /// Bind the compositor and create the base surface.
    BindCompositor,
    /// Bind the idle-inhibit manager.
    BindIdleInhibitManager,
    /// Nothing to bind.
    Ignore,
}

/// The daemon's control state: which session capabilities have been resolved
/// and whether an inhibitor handle is live.  The handle exists if and only if
/// inhibition is enabled; that is the definition of [`Self::enabled`].
#[derive(Clone, Copy, Debug, PartialEq, Eq, Structural)]
pub struct IdleInhibitorDaemon {
    /// Whether the base surface has been created from the compositor.
    pub base_surface_bound: bool,
    /// Whether the idle-inhibit manager capability has been bound.
    pub idle_inhibit_manager_bound: bool,
    /// The handle to the live inhibitor resource, while enabled.
    pub idle_inhibitor: Option<InhibitorHandle>,
}

impl IdleInhibitorDaemon {
    /// Inhibition is enabled exactly while an inhibitor handle is live.
    pub open spec fn enabled(self) -> bool {
        self.idle_inhibitor is Some
    }

    /// How many inhibitor handles are live: one while enabled, else none.
    pub open spec fn live_inhibitors(self) -> nat {
        if self.idle_inhibitor is Some {
            1
        } else {
            0
        }
    }

    /// The session handshake is complete: both capabilities needed to create
    /// an inhibitor have been resolved.
    pub open spec fn session_ready(self) -> bool {
        self.base_surface_bound && self.idle_inhibit_manager_bound
    }

    /// The state after `enable`: enabled, everything else untouched.
    pub open spec fn spec_enable(self) -> Self {
        if self.idle_inhibitor is Some {
            self
        } else {
            IdleInhibitorDaemon { idle_inhibitor: Some(InhibitorHandle {}), ..self }
        }
    }

    /// The state after `disable`: disabled, everything else untouched.
    pub open spec fn spec_disable(self) -> Self {
        IdleInhibitorDaemon { idle_inhibitor: None, ..self }
    }

    /// The state after `toggle`: the inhibition flag flipped.
    pub open spec fn spec_toggle(self) -> Self {
        if self.idle_inhibitor is Some {
            self.spec_disable()
        } else {
            self.spec_enable()
        }
    }

    /// The transition one command performs.  `Status` only reads, and
    /// `Daemon` is a launch mode that never reaches this machine, so both
    /// leave the state unchanged.
    pub open spec fn spec_step(self, c: Command) -> Self {
        match c {
            Command::Enable => self.spec_enable(),
            Command::Disable => self.spec_disable(),
            Command::Toggle => self.spec_toggle(),
            Command::Status => self,
            Command::Daemon => self,
        }
    }

    /// The transition one request byte performs: the decoded command's step,
    /// or no change for a byte outside the recognized set.
    pub open spec fn spec_wire_step(self, b: u8) -> Self {
        match command_of_code(b) {
            Some(c) => self.spec_step(c),
            None => self,
        }
    }

    /// The state after serving a whole sequence of request bytes in order.
    pub open spec fn spec_serve_all(self, requests: Seq<u8>) -> Self
        decreases requests.len(),
    {
        if requests.len() == 0 {
            self
        } else {
            self.spec_wire_step(requests[0]).spec_serve_all(requests.drop_first())
        }
    }

    /// A fresh controller: handshake not yet begun, inhibition disabled.
    pub fn new() -> (d: Self)
        ensures
            !d.base_surface_bound,
            !d.idle_inhibit_manager_bound,
            !d.enabled(),
            d.live_inhibitors() == 0,
    {
        IdleInhibitorDaemon {
            base_surface_bound: false,
            idle_inhibit_manager_bound: false,
            idle_inhibitor: None,
        }
    }

    /// Record one registry announcement and say what to bind for it.  The two
    /// capabilities the daemon needs mark the session as progressively ready;
    /// every other announcement is ignored, never an error.
    pub fn on_global(&mut self, interface: GlobalInterface) -> (a: RegistryAction)
        ensures
            final(self).base_surface_bound == (old(self).base_surface_bound
                || interface is Compositor),
            final(self).idle_inhibit_manager_bound == (old(self).idle_inhibit_manager_bound
                || interface is IdleInhibitManager),
            final(self).idle_inhibitor == old(self).idle_inhibitor,
            a == (match interface {
                GlobalInterface::Compositor => RegistryAction::BindCompositor,
                GlobalInterface::IdleInhibitManager => RegistryAction::BindIdleInhibitManager,
                GlobalInterface::Other => RegistryAction::Ignore,
            }),
    {
        match interface {
            GlobalInterface::Compositor => {
                self.base_surface_bound = true;
                RegistryAction::BindCompositor
            },
            GlobalInterface::IdleInhibitManager => {
                self.idle_inhibit_manager_bound = true;
                RegistryAction::BindIdleInhibitManager
            },
            GlobalInterface::Other => RegistryAction::Ignore,
        }
    }

    /// Record one registry announcement by its raw interface name: the
    /// classified tag's transition, with unknown names ignored.
    pub fn on_global_named(&mut self, name: &str) -> (a: RegistryAction)
        ensures
            final(self).base_surface_bound == (old(self).base_surface_bound
                || spec_classify_interface(name@) is Compositor),
            final(self).idle_inhibit_manager_bound == (old(self).idle_inhibit_manager_bound
                || spec_classify_interface(name@) is IdleInhibitManager),
            final(self).idle_inhibitor == old(self).idle_inhibitor,
            a == (match spec_classify_interface(name@) {
                GlobalInterface::Compositor => RegistryAction::BindCompositor,
                GlobalInterface::IdleInhibitManager => RegistryAction::BindIdleInhibitManager,
                GlobalInterface::Other => RegistryAction::Ignore,
            }),
    {
        let tag = classify_interface(name);
        self.on_global(tag)
    }

    /// Hand out a handle for a freshly created inhibitor resource.  Creating
    /// one needs the resolved surface and manager capabilities, so calling
    /// this before the handshake completed is a startup-ordering fault.
    pub fn create_idle_inhibitor(&self) -> (h: InhibitorHandle)
        requires
            self.session_ready(),
        ensures
            h == (InhibitorHandle {  }),
    {
        InhibitorHandle {}
    }

    /// Switch inhibition on.  Idempotent: if a handle is already live the
    /// state is untouched and no second resource is created.
    pub fn enable_idle_inhibit(&mut self) -> (a: SessionAction)
        requires
            old(self).session_ready(),
        ensures
            *final(self) == old(self).spec_enable(),
            final(self).enabled(),
            final(self).live_inhibitors() == 1,
            a == (if old(self).enabled() {
                SessionAction::DoNothing
            } else {
                SessionAction::CreateInhibitor
            }),
    {
        if self.idle_inhibitor.is_none() {
            self.idle_inhibitor = Some(self.create_idle_inhibitor());
            SessionAction::CreateInhibitor
        } else {
            SessionAction::DoNothing
        }
    }

    /// Switch inhibition off.  Idempotent: the handle is destroyed if and
    /// only if one was live.
    pub fn disable_idle_inhibit(&mut self) -> (a: SessionAction)
        ensures
            *final(self) == old(self).spec_disable(),
            !final(self).enabled(),
            final(self).live_inhibitors() == 0,
            a == (if old(self).enabled() {
                SessionAction::DestroyInhibitor
            } else {
                SessionAction::DoNothing
            }),
    {
        if self.idle_inhibitor.is_some() {
            self.idle_inhibitor = None;
            SessionAction::DestroyInhibitor
        } else {
            SessionAction::DoNothing
        }
    }

    /// Flip the inhibition state: disable if enabled, else enable.
    pub fn toggle_idle_inhibit(&mut self) -> (a: SessionAction)
        requires
            old(self).session_ready(),
        ensures
            *final(self) == old(self).spec_toggle(),
            final(self).enabled() == !old(self).enabled(),
            a == (if old(self).enabled() {
                SessionAction::DestroyInhibitor
            } else {
                SessionAction::CreateInhibitor
            }),
    {
        if self.idle_inhibitor.is_some() {
            self.disable_idle_inhibit()
        } else {
            self.enable_idle_inhibit()
        }
    }

    /// Whether the session handshake has completed.  Commands that create an
    /// inhibitor must not be dispatched before this is true.
    pub fn is_session_ready(&self) -> (r: bool)
        ensures
            r == self.session_ready(),
    {
        self.base_surface_bound && self.idle_inhibit_manager_bound
    }

    /// The current inhibition state.
    pub fn is_enabled(&self) -> (e: bool)
        ensures
            e == self.enabled(),
    {
        self.idle_inhibitor.is_some()
    }

    /// Serve one request byte: perform the decoded command (unrecognized
    /// bytes, and the launch-mode code, are a no-op) and answer the status
    /// byte for the state after the command, together with the action the
    /// runner owes the external session.
    pub fn handle_request(&mut self, request: u8) -> (r: (u8, SessionAction))
        requires
            old(self).session_ready(),
        ensures
            *final(self) == old(self).spec_wire_step(request),
            final(self).session_ready(),
            r.0 == status_code(final(self).enabled()),
            r.1 == (match command_of_code(request) {
                Some(Command::Enable) => if old(self).enabled() {
                    SessionAction::DoNothing
                } else {
                    SessionAction::CreateInhibitor
                },
                Some(Command::Disable) => if old(self).enabled() {
                    SessionAction::DestroyInhibitor
                } else {
                    SessionAction::DoNothing
                },
                Some(Command::Toggle) => if old(self).enabled() {
                    SessionAction::DestroyInhibitor
                } else {
                    SessionAction::CreateInhibitor
                },
                _ => SessionAction::DoNothing,
            }),
    {
        let action = match Command::from_byte(request) {
            Some(Command::Enable) => self.enable_idle_inhibit(),
            Some(Command::Disable) => self.disable_idle_inhibit(),
            Some(Command::Toggle) => self.toggle_idle_inhibit(),
            _ => SessionAction::DoNothing,
        };
        let reply = if self.is_enabled() {
            1
        } else {
            0
        };
        (reply, action)
    }

    /// Serve a finite sequence of request bytes in order, as the daemon's
    /// accept loop would, one connection after the other.  The final state is
    /// the fold of the sequence over the state machine.
    pub fn serve_requests(&mut self, requests: &Vec<u8>)
        requires
            old(self).session_ready(),
        ensures
            *final(self) == old(self).spec_serve_all(requests@),
            final(self).session_ready(),
    {
        let ghost start = *self;
        let mut i: usize = 0;
        while i < requests.len()
            invariant
                i <= requests@.len(),
                *self == start.spec_serve_all(requests@.take(i as int)),
                self.session_ready(),
            decreases requests@.len() - i,
        {
            proof {
                lemma_serve_all_snoc(start, requests@.take(i as int), requests@[i as int]);
                assert(requests@.take(i as int).push(requests@[i as int]) =~= requests@.take(
                    i + 1,
                ));
            }
            let (_reply, _action) = self.handle_request(requests[i]);
            i = i + 1;
        }
        proof {
            assert(requests@.take(requests@.len() as int) =~= requests@);
        }
    }
}

/// The two-state machine the controller implements, reduced to its flag:
/// `enable` goes to enabled, `disable` to disabled, `toggle` flips, and
/// `status` (like the launch-mode tag) changes nothing.
pub open spec fn step_enabled(enabled: bool, c: Command) -> bool {
    match c {
        Command::Enable => true,
        Command::Disable => false,
        Command::Toggle => !enabled,
        Command::Status => enabled,
        Command::Daemon => enabled,
    }
}

/// One request byte's effect on the flag: the decoded command's step, or no
/// change for a byte outside the recognized set.
pub open spec fn wire_step_enabled(enabled: bool, b: u8) -> bool {
    match command_of_code(b) {
        Some(c) => step_enabled(enabled, c),
        None => enabled,
    }
}

/// The flag after folding a whole sequence of request bytes over the
/// two-state machine, starting from `init`.
pub open spec fn fold_enabled(init: bool, requests: Seq<u8>) -> bool
    decreases requests.len(),
{
    if requests.len() == 0 {
        init
    } else {
        fold_enabled(wire_step_enabled(init, requests[0]), requests.drop_first())
    }
}

/// Idempotence: enabling twice is the same as enabling once, the state is
/// enabled, and exactly one inhibitor handle is live.
pub proof fn lemma_enable_idempotent(d: IdleInhibitorDaemon)
    ensures
        d.spec_enable().spec_enable() == d.spec_enable(),
        d.spec_enable().enabled(),
        d.spec_enable().live_inhibitors() == 1,
{
}

/// Involution: toggling twice returns the state unchanged.
pub proof fn lemma_toggle_involution(d: IdleInhibitorDaemon)
    ensures
        d.spec_toggle().spec_toggle() == d,
{
    match d.idle_inhibitor {
        Some(h) => {
            assert(h =~= InhibitorHandle {});
        },
        None => {},
    }
}

/// After serving any finite sequence of request bytes, the status the daemon
/// reports is the fold of that sequence over the two-state machine, starting
/// from the initial flag.
pub proof fn lemma_status_is_fold(d: IdleInhibitorDaemon, requests: Seq<u8>)
    ensures
        d.spec_serve_all(requests).enabled() == fold_enabled(d.enabled(), requests),
    decreases requests.len(),
{
    if requests.len() > 0 {
        lemma_status_is_fold(d.spec_wire_step(requests[0]), requests.drop_first());
    }
}

/// Serving one more request after a sequence is the same as serving the
/// sequence extended by that request.
proof fn lemma_serve_all_snoc(d: IdleInhibitorDaemon, requests: Seq<u8>, b: u8)
    ensures
        d.spec_serve_all(requests.push(b)) == d.spec_serve_all(requests).spec_wire_step(b),
    decreases requests.len(),
{
    reveal_with_fuel(IdleInhibitorDaemon::spec_serve_all, 2);
    assert(requests.push(b)[0] == if requests.len() == 0 {
        b
    } else {
        requests[0]
    });
    if requests.len() == 0 {
        assert(requests.push(b).drop_first() =~= Seq::<u8>::empty());
    } else {
        assert(requests.push(b).drop_first() =~= requests.drop_first().push(b));
        lemma_serve_all_snoc(d.spec_wire_step(requests[0]), requests.drop_first(), b);
    }
}

} // verus!
