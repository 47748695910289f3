//! Idempotent container provisioning: probe, and create when the probe fails.
use crate::store::StoreOp;
use vstd::prelude::*;

verus! {

/// What the existence probe of a container reported.
#[derive(Clone, Copy, Debug, PartialEq, Eq, Structural)]
pub enum ProbeOutcome {
    /// The container exists.
    Exists,
    /// The store answered that the container does not exist.
    Missing,
    /// The probe failed for another reason (transport, permission).
    Unreachable,
}

/// Creation of the container failed; `probe` says why creation was attempted.
#[derive(Clone, Copy, Debug, PartialEq, Eq, Structural)]
pub struct ProvisionError {
    pub probe: ProbeOutcome,
}

#[derive(Clone, Copy, Debug, PartialEq, Eq, Structural)]
pub enum ProvisionState {
    Probing,
    /// Creating the container after the probe reported the outcome held.
    Creating(ProbeOutcome),
    Finished,
}

#[derive(Clone, Copy, Debug, PartialEq, Eq, Structural)]
pub enum ProvisionEvent {
    Probed(ProbeOutcome),
    /// Whether the creation succeeded.
    Created(bool),
}

#[derive(Clone, Copy, Debug, PartialEq, Eq)]
pub enum ProvisionStep {
    Run(StoreOp),
    Finish(Result<(), ProvisionError>),
}

/// Whether `e` answers the request issued in state `s`.
pub open spec fn provision_accepts(s: ProvisionState, e: ProvisionEvent) -> bool {
    ||| s is Probing && e is Probed
    ||| s is Creating && e is Created
}

/// The transition table of provisioning.
pub open spec fn provision_next(s: ProvisionState, e: ProvisionEvent) -> (ProvisionState, ProvisionStep) {
    match (s, e) {
        (ProvisionState::Probing, ProvisionEvent::Probed(ProbeOutcome::Exists)) => (
            ProvisionState::Finished,
            ProvisionStep::Finish(Ok(())),
        ),
        (ProvisionState::Probing, ProvisionEvent::Probed(o)) => (
            ProvisionState::Creating(o),
            ProvisionStep::Run(StoreOp::CreateContainer),
        ),
        (ProvisionState::Creating(o), ProvisionEvent::Created(ok)) => (
            ProvisionState::Finished,
            ProvisionStep::Finish(if ok { Ok(()) } else { Err(ProvisionError { probe: o }) }),
        ),
        _ => (s, ProvisionStep::Finish(Ok(()))),
    }
}

/// Ensuring that one container exists.
pub struct EnsureContainer {
    pub state: ProvisionState,
}

impl EnsureContainer {
    /// Starts provisioning: the first request is the existence probe.
    pub fn start() -> (r: (EnsureContainer, ProvisionStep))
        ensures
            r.0.state == ProvisionState::Probing,
            r.1 == ProvisionStep::Run(StoreOp::ProbeContainer),
    {
        (EnsureContainer { state: ProvisionState::Probing }, ProvisionStep::Run(StoreOp::ProbeContainer))
    }

    /// Takes the outcome of the last request and returns the next one.
    pub fn advance(&mut self, e: ProvisionEvent) -> (r: ProvisionStep)
        requires
            provision_accepts(old(self).state, e),
        ensures
            (final(self).state, r) == provision_next(old(self).state, e),
    {
        match (self.state, e) {
            (ProvisionState::Probing, ProvisionEvent::Probed(ProbeOutcome::Exists)) => {
                self.state = ProvisionState::Finished;
                ProvisionStep::Finish(Ok(()))
            },
            (ProvisionState::Probing, ProvisionEvent::Probed(o)) => {
                self.state = ProvisionState::Creating(o);
                ProvisionStep::Run(StoreOp::CreateContainer)
            },
            (ProvisionState::Creating(o), ProvisionEvent::Created(ok)) => {
                self.state = ProvisionState::Finished;
                if ok {
                    ProvisionStep::Finish(Ok(()))
                } else {
                    ProvisionStep::Finish(Err(ProvisionError { probe: o }))
                }
            },
            _ => ProvisionStep::Finish(Ok(())),
        }
    }
}

} // verus!
