//! The observer controller: the lifecycle of hook registration and
//! activation, reconciling the desired per-request on/off state against a
//! process-wide compatibility constraint.
//!
//! The host's just-in-time compiler is incompatible with allocation
//! profiling. Whether it is active is probed once, on the first request, and
//! memoized for the life of the process. Once it resolves active, the
//! degradation is one-way: the request flag is forced off, the observer is
//! disabled, and no later request can enable it again.
//!
//! The controller is the decision half of the state machine: the unverified
//! shell performs the registration and the returned toggle against the host
//! allocator, and toggling stays best-effort there.

use vstd::prelude::*;

verus! {

/// An enable/disable action the shell must perform on the registered
/// observer.
#[derive(Clone, Copy, Debug, PartialEq, Eq)]
pub enum ObserverToggle {
    Enable,
    Disable,
}

/// What a request-start reconciliation decided.
#[derive(Clone, Copy, Debug, PartialEq, Eq)]
pub struct RinitDecision {
    /// The request's allocation-profiling flag after reconciliation; forced
    /// off when the just-in-time compiler is active.
    pub profiling_allocation_enabled: bool,
    /// The toggle to perform on the registered observer, if its state
    /// mismatched the desired one.
    pub toggle: Option<ObserverToggle>,
    /// True exactly when this call detected the active just-in-time
    /// compiler, so that the one-time degradation can be logged once.
    pub warn_jit_incompatible: bool,
}

/// The memoized compatibility probe: the first probe wins and every later
/// one is ignored.
pub open spec fn resolved_jit(prior: Option<bool>, probe: bool) -> bool {
    match prior {
        Some(jit) => jit,
        None => probe,
    }
}

/// The observer state a request may run with: enabled only when the
/// just-in-time compiler is inactive and the request asked for profiling.
pub open spec fn desired_enabled(jit: bool, request_flag: bool) -> bool {
    !jit && request_flag
}

/// Lifecycle state of the observer registration, one per process.
pub struct ObserverController {
    /// Whether the just-in-time compiler was probed yet, and what the probe
    /// found. Write-once: never recomputed.
    jit_active: Option<bool>,
    /// Whether the hook pair is registered with the host allocator.
    registered: bool,
    /// Whether the registered observer is currently enabled.
    enabled: bool,
}

impl ObserverController {
    /// The memoized probe result, if any.
    pub closed spec fn jit_active(&self) -> Option<bool> {
        self.jit_active
    }

    /// Whether the hook pair is registered.
    pub closed spec fn registered(&self) -> bool {
        self.registered
    }

    /// Whether the registered observer is enabled.
    pub closed spec fn enabled(&self) -> bool {
        self.enabled
    }

    /// Only a registered observer can be enabled, and once the just-in-time
    /// compiler resolved active the observer is never enabled.
    pub open spec fn wf(&self) -> bool {
        &&& self.enabled() ==> self.registered()
        &&& self.jit_active() == Some(true) ==> !self.enabled()
    }

    /// A fresh controller: nothing registered, nothing enabled, the
    /// compatibility probe not yet taken.
    pub fn new() -> (controller: ObserverController)
        ensures
            controller.wf(),
            controller.jit_active() is None,
            !controller.registered(),
            !controller.enabled(),
    {
        ObserverController { jit_active: None, registered: false, enabled: false }
    }

    /// Whether the hook pair is registered.
    pub fn is_registered(&self) -> (r: bool)
        ensures
            r == self.registered(),
    {
        self.registered
    }

    /// Whether the registered observer is currently enabled.
    pub fn is_enabled(&self) -> (r: bool)
        ensures
            r == self.enabled(),
    {
        self.enabled
    }

    /// Process initialization: records whether the shell's registration of
    /// the hook pair with the host allocator succeeded. A freshly registered
    /// observer starts disabled.
    pub fn minit(&mut self, registration_succeeded: bool)
        requires
            old(self).wf(),
            !old(self).registered(),
        ensures
            final(self).wf(),
            final(self).registered() == registration_succeeded,
            !final(self).enabled(),
            final(self).jit_active() == old(self).jit_active(),
    {
        self.registered = registration_succeeded;
    }

    /// Process teardown: the registration is released.
    pub fn mshutdown(&mut self)
        requires
            old(self).wf(),
        ensures
            final(self).wf(),
            !final(self).registered(),
            !final(self).enabled(),
            final(self).jit_active() == old(self).jit_active(),
    {
        self.registered = false;
        self.enabled = false;
    }

    /// Request initialization: memoizes the compatibility probe, forces the
    /// request flag off while the just-in-time compiler is active, and
    /// toggles the observer only where its state mismatches the desired one.
    /// `jit_probe` is consulted only on the first call of the process.
    pub fn rinit(&mut self, jit_probe: bool, request_flag: bool) -> (decision: RinitDecision)
        requires
            old(self).wf(),
        ensures
            final(self).wf(),
            rinit_relation(*old(self), jit_probe, request_flag, *final(self), decision),
            // Once the just-in-time compiler resolved active, no request ever
            // observes the observer enabled or its flag granted again.
            old(self).jit_active() == Some(true) ==> {
                &&& final(self).jit_active() == Some(true)
                &&& !final(self).enabled()
                &&& !decision.profiling_allocation_enabled
                &&& decision.toggle != Some(ObserverToggle::Enable)
            },
    {
        let jit = match self.jit_active {
            Some(jit) => jit,
            None => jit_probe,
        };
        let warn = jit && self.jit_active.is_none();
        self.jit_active = Some(jit);

        let desired = !jit && request_flag;
        let toggle: Option<ObserverToggle> = if self.registered && desired != self.enabled {
            if desired {
                Some(ObserverToggle::Enable)
            } else {
                Some(ObserverToggle::Disable)
            }
        } else {
            None
        };
        self.enabled = self.registered && desired;

        RinitDecision {
            profiling_allocation_enabled: desired,
            toggle,
            warn_jit_incompatible: warn,
        }
    }
}

/// How one request-start reconciliation relates the controller states before
/// and after it to its decision.
pub open spec fn rinit_relation(
    pre: ObserverController,
    jit_probe: bool,
    request_flag: bool,
    post: ObserverController,
    decision: RinitDecision,
) -> bool {
    let jit = resolved_jit(pre.jit_active(), jit_probe);
    let desired = desired_enabled(jit, request_flag);
    &&& post.registered() == pre.registered()
    &&& post.jit_active() == Some(jit)
    &&& post.enabled() == (pre.registered() && desired)
    &&& decision.profiling_allocation_enabled == desired
    &&& decision.toggle == (if pre.registered() && desired != pre.enabled() {
        if desired {
            Some(ObserverToggle::Enable)
        } else {
            Some(ObserverToggle::Disable)
        }
    } else {
        None::<ObserverToggle>
    })
    &&& decision.warn_jit_incompatible == (pre.jit_active() is None && jit_probe)
}

/// The just-in-time degradation is permanent: from any state whose memoized
/// probe resolved active, every later request-start reconciliation keeps the
/// memo, keeps the observer disabled, never grants the request flag, and
/// never asks the shell to enable — whatever the probe and the flag of that
/// request say.
pub proof fn lemma_jit_degradation_is_permanent(
    pre: ObserverController,
    jit_probe: bool,
    request_flag: bool,
    post: ObserverController,
    decision: RinitDecision,
)
    requires
        pre.jit_active() == Some(true),
        rinit_relation(pre, jit_probe, request_flag, post, decision),
    ensures
        post.jit_active() == Some(true),
        !post.enabled(),
        !decision.profiling_allocation_enabled,
        decision.toggle != Some(ObserverToggle::Enable),
{
}

} // verus!
