//! The sandbox-member capability: what belongs to a sandbox can name it, and
//! can have nodes built in it while it is alive.

use vstd::prelude::*;
use std::sync::Arc;
use crate::contents::NodePayload;
use crate::error::DomError;
use crate::node::{AnyNodeArc, ConcreteNodeArc};
use crate::sandbox::{ContextWeak, Sandbox};

verus! {

/// A recipe for the payload of one node.
pub trait Template: Sized {
    /// The kind of payload that the recipe gives.
    type Store: NodePayload;

    /// The payload that the recipe gives.
    spec fn payload(&self) -> Self::Store;

    /// Makes the payload.
    fn into_payload(self) -> (payload: Arc<Self::Store>)
        ensures
            *payload == self.payload(),
    ;
}

/// The sandbox-member capability.
pub trait SandboxMemberBehavior: Sized {
    /// The sandbox that this member belongs to.
    spec fn context(&self) -> ContextWeak;

    /// A non-owning reference to the sandbox that this member belongs to.
    fn get_context(&self) -> (context: ContextWeak)
        ensures
            context == self.context(),
    ;

    /// Builds the node that `template` describes in `sandbox`, where that is
    /// the member's sandbox and is still alive. Otherwise nothing is built and
    /// `SandboxDropped` comes back.
    fn build<P: Template>(&self, sandbox: &mut Sandbox, template: P) -> (built: Result<
        ConcreteNodeArc<P::Store>,
        DomError,
    >)
        requires
            old(sandbox).wf(),
        ensures
            final(sandbox).wf(),
            built is Ok <==> old(sandbox)@.resolves(self.context()),
            built matches Err(e) ==> e == DomError::SandboxDropped && final(sandbox)@ == old(
                sandbox,
            )@,
            built matches Ok(node) ==> {
                &&& *node.contents == template.payload()
                &&& node.erased() == old(sandbox)@.next_node(node.erased().contents)
                &&& final(sandbox)@ == old(sandbox)@.with_node(node.erased().contents)
                &&& final(sandbox)@.owns(node.erased())
            },
    {
        let context = self.get_context();
        if sandbox.resolves(&context) {
            Ok(ConcreteNodeArc::<P::Store>::new(sandbox, template.into_payload()))
        } else {
            Err(DomError::SandboxDropped)
        }
    }
}

/// What the sandbox-member capability needs: a non-owning reference to the
/// sandbox.
pub struct SandboxMemberBehaviorStorage {
    context: ContextWeak,
}

impl SandboxMemberBehaviorStorage {
    /// The capability of a member of the sandbox behind `context`.
    pub fn new(context: ContextWeak) -> (storage: SandboxMemberBehaviorStorage)
        ensures
            storage.context() == context,
    {
        SandboxMemberBehaviorStorage { context }
    }
}

impl SandboxMemberBehavior for SandboxMemberBehaviorStorage {
    closed spec fn context(&self) -> ContextWeak {
        self.context
    }

    fn get_context(&self) -> (context: ContextWeak) {
        self.context
    }
}

impl SandboxMemberBehavior for AnyNodeArc {
    open spec fn context(&self) -> ContextWeak {
        self.context
    }

    fn get_context(&self) -> (context: ContextWeak) {
        self.context
    }
}

impl<T: NodePayload> SandboxMemberBehavior for ConcreteNodeArc<T> {
    open spec fn context(&self) -> ContextWeak {
        self.context
    }

    fn get_context(&self) -> (context: ContextWeak) {
        self.context
    }
}

impl Sandbox {
    /// Builds the node that `template` describes in this sandbox, where it
    /// is still alive. Otherwise nothing is built and `SandboxDropped` comes
    /// back.
    pub fn build_node<P: Template>(&mut self, template: P) -> (built: Result<
        ConcreteNodeArc<P::Store>,
        DomError,
    >)
        requires
            old(self).wf(),
        ensures
            final(self).wf(),
            built is Ok <==> old(self)@.live,
            built matches Err(e) ==> e == DomError::SandboxDropped && final(self)@ == old(self)@,
            built matches Ok(node) ==> {
                &&& *node.contents == template.payload()
                &&& node.erased() == old(self)@.next_node(node.erased().contents)
                &&& final(self)@ == old(self)@.with_node(node.erased().contents)
                &&& final(self)@.owns(node.erased())
            },
    {
        let member = SandboxMemberBehaviorStorage::new(self.downgrade());
        member.build(self, template)
    }
}

} // verus!
