//! Working inside another network namespace: the namespace is entered, the
//! work is done, and the namespace that was current before is entered again
//! on every path, before anything is reported.

use vstd::prelude::*;
use crate::error::{Error, ErrorKind};
use crate::host::{Netns, NetnsView, Reply, ReplyView, Request, RequestView};

verus! {

/// Where a switch of namespaces stands.
#[derive(Clone, Copy, Debug, PartialEq, Eq, Structural)]
pub enum SwitchPhase {
    /// The target is being entered.
    Entering,
    /// The target is the current namespace.
    Inside,
    /// The namespace that was current before is being entered again.
    Leaving,
    /// The switch is over.
    Finished,
}

/// One switch into a namespace and back.
#[derive(Debug)]
pub struct NamespaceSwitch {
    /// The namespace that was current before, and is to be current again.
    pub origin: Netns,
    /// The namespace to work in.
    pub target: Netns,
    pub phase: SwitchPhase,
    /// What went wrong inside the target, kept until the origin is entered
    /// again.
    pub pending: Option<Error>,
}

/// What a `NamespaceSwitch` holds, as mathematical values.
pub struct NamespaceSwitchView {
    pub origin: NetnsView,
    pub target: NetnsView,
    pub phase: SwitchPhase,
    pub pending: Option<ErrorKind>,
}

impl View for NamespaceSwitch {
    type V = NamespaceSwitchView;

    open spec fn view(&self) -> NamespaceSwitchView {
        NamespaceSwitchView {
            origin: self.origin@,
            target: self.target@,
            phase: self.phase,
            pending: match self.pending {
                Some(e) => Some(e.kind),
                None => None,
            },
        }
    }
}

/// The kind of an error that may be there.
pub open spec fn kind_of(e: Option<Error>) -> Option<ErrorKind> {
    match e {
        Some(e) => Some(e.kind),
        None => None,
    }
}

/// A switch at its start, and the operation it starts with: entering the
/// target.
pub open spec fn switch_start(origin: NetnsView, target: NetnsView) -> (
    NamespaceSwitchView,
    RequestView,
) {
    (
        NamespaceSwitchView {
            origin: origin,
            target: target,
            phase: SwitchPhase::Entering,
            pending: None,
        },
        RequestView::SetNetns(target),
    )
}

/// The switch after the reply to entering the target, and the failure if
/// there is one: the target is the current namespace if the host says so, and
/// anything else is a `Namespace` error that ends the switch.
pub open spec fn switch_entered(s: NamespaceSwitchView, reply: ReplyView) -> (
    NamespaceSwitchView,
    Option<ErrorKind>,
) {
    if s.phase == SwitchPhase::Entering && reply is Done {
        (NamespaceSwitchView { phase: SwitchPhase::Inside, ..s }, None)
    } else {
        (NamespaceSwitchView { phase: SwitchPhase::Finished, ..s }, Some(ErrorKind::Namespace))
    }
}

/// The switch on its way back, with what is to be reported after the
/// return, and the operation that brings it back: entering the origin.
pub open spec fn switch_leaves(s: NamespaceSwitchView, pending: Option<ErrorKind>) -> (
    NamespaceSwitchView,
    RequestView,
) {
    (
        NamespaceSwitchView { phase: SwitchPhase::Leaving, pending: pending, ..s },
        RequestView::SetNetns(s.origin),
    )
}

/// The switch after the reply to entering the origin, and the failure if
/// there is one: what went wrong inside the target, if the origin is current
/// again; a `Namespace` error if it is not.
pub open spec fn switch_left(s: NamespaceSwitchView, reply: ReplyView) -> (
    NamespaceSwitchView,
    Option<ErrorKind>,
) {
    (
        NamespaceSwitchView { phase: SwitchPhase::Finished, pending: None, ..s },
        if s.phase == SwitchPhase::Leaving && reply is Done {
            s.pending
        } else {
            Some(ErrorKind::Namespace)
        },
    )
}

/// Starts a switch from the namespace `origin`, which is the current one,
/// into `target`: the switch, and the operation it starts with.
pub fn with_namespace(origin: &Netns, target: &Netns) -> (r: (NamespaceSwitch, Request))
    ensures
        (r.0@, r.1@) == switch_start(origin@, target@),
{
    (
        NamespaceSwitch {
            origin: origin.duplicate(),
            target: target.duplicate(),
            phase: SwitchPhase::Entering,
            pending: None,
        },
        Request::SetNetns(target.duplicate()),
    )
}

impl NamespaceSwitch {
    /// Takes the reply to entering the target.
    pub fn entered(&mut self, reply: Reply) -> (r: Result<(), Error>)
        ensures
            (final(self)@, kind_of(r.err())) == switch_entered(old(self)@, reply@),
            r is Ok <==> switch_entered(old(self)@, reply@).1.is_none(),
    {
        match (self.phase, reply) {
            (SwitchPhase::Entering, Reply::Done) => {
                self.phase = SwitchPhase::Inside;
                Ok(())
            },
            _ => {
                self.phase = SwitchPhase::Finished;
                Err(Error::new(ErrorKind::Namespace, "cannot enter the netns"))
            },
        }
    }

    /// Starts the way back, keeping what went wrong inside the target: the
    /// operation that enters the origin.
    pub fn leave(&mut self, pending: Option<Error>) -> (r: Request)
        ensures
            (final(self)@, r@) == switch_leaves(old(self)@, kind_of(pending)),
    {
        self.phase = SwitchPhase::Leaving;
        self.pending = pending;
        Request::SetNetns(self.origin.duplicate())
    }

    /// Takes the reply to entering the origin, and reports what went wrong
    /// inside the target, now that the origin is current again.
    pub fn left(&mut self, reply: Reply) -> (r: Result<(), Error>)
        ensures
            (final(self)@, kind_of(r.err())) == switch_left(old(self)@, reply@),
            r is Ok <==> switch_left(old(self)@, reply@).1.is_none(),
    {
        let pending = self.pending.take();
        let leaving = self.phase == SwitchPhase::Leaving;
        self.phase = SwitchPhase::Finished;
        match (leaving, reply) {
            (true, Reply::Done) => match pending {
                Some(e) => Err(e),
                None => Ok(()),
            },
            _ => Err(Error::new(ErrorKind::Namespace, "cannot return to the netns")),
        }
    }
}

/// The origin is entered again on every path, and nothing is reported
/// before. Whatever happened inside the target, the way back asks for the
/// origin; what went wrong inside is reported only once the host says that
/// the origin is current again; and if the host does not say so, the outcome
/// is a `Namespace` error, whatever else went wrong.
pub proof fn lemma_origin_restored(
    s: NamespaceSwitchView,
    pending: Option<ErrorKind>,
    reply: ReplyView,
)
    ensures
        switch_leaves(s, pending).1 == RequestView::SetNetns(s.origin),
        switch_leaves(s, pending).0.phase == SwitchPhase::Leaving,
        switch_left(switch_leaves(s, pending).0, reply).1 == (if reply is Done {
            pending
        } else {
            Some(ErrorKind::Namespace)
        }),
        switch_left(switch_leaves(s, pending).0, reply).0.phase == SwitchPhase::Finished,
{
}

} // verus!
