//! The processor of a proxy: it does not take requests or responses yet.
use crate::error::{ServerError, Unsupported};
use crate::sip::SipMessage;
use crate::transport::{RequestMsg, TransportMsg};
use std::sync::Arc;
use vstd::prelude::*;

verus! {

/// A `std::sync::Weak` to the manager of the layers, which does not keep it
/// alive. Only the two calls below reach inside.
#[verifier::external_body]
#[verifier::reject_recursive_types(M)]
pub struct WeakManager<M> {
    inner: std::sync::Weak<M>,
}

impl<M> WeakManager<M> {
    /// `Arc::downgrade` of `manager`.
    #[verifier::external_body]
    fn downgrade(manager: &Arc<M>) -> (w: WeakManager<M>) {
        WeakManager { inner: Arc::downgrade(manager) }
    }
}

/// A handle to the manager of the layers that does not keep it alive, with
/// the manager it was made from.
#[verifier::reject_recursive_types(M)]
pub struct ManagerRef<M> {
    inner: WeakManager<M>,
    target: Ghost<M>,
}

/// The value an `Arc` points to.
pub open spec fn arc_value<M>(a: &Arc<M>) -> M {
    **a
}

impl<M> ManagerRef<M> {
    /// The manager the handle was made from.
    pub closed spec fn target(self) -> M {
        self.target@
    }

    /// A handle to `manager`.
    pub fn new(manager: &Arc<M>) -> (r: ManagerRef<M>)
        ensures
            r.target() == **manager,
    {
        ManagerRef { inner: WeakManager::downgrade(manager), target: Ghost(arc_value(manager)) }
    }

    /// `Weak::upgrade`: the manager while it is alive (an `Arc` to the
    /// allocation the handle was made from), `None` once it is dropped.
    /// Whether it is still alive is not known here.
    #[verifier::external_body]
    fn upgrade(&self) -> (r: Option<Arc<M>>)
        ensures
            r matches Some(m) ==> *m == self.target(),
    {
        self.inner.inner.upgrade()
    }
}

/// The processor of a proxy, with a handle to the manager of the layers.
#[verifier::reject_recursive_types(M)]
pub struct ProxyProcessor<M> {
    sip_manager: ManagerRef<M>,
}

impl<M> ProxyProcessor<M> {
    /// The handle the processor holds.
    pub closed spec fn manager(self) -> ManagerRef<M> {
        self.sip_manager
    }

    pub fn new(sip_manager: ManagerRef<M>) -> (p: ProxyProcessor<M>)
        ensures
            p.manager() == sip_manager,
    {
        ProxyProcessor { sip_manager }
    }

    /// A message from a peer: requests and responses are both refused.
    pub fn process_incoming_message(&self, msg: TransportMsg) -> (r: Result<(), ServerError>)
        ensures
            msg.sip_message is Request ==> r == Err::<(), ServerError>(ServerError::NotSupported(Unsupported::Requests)),
            msg.sip_message is Response ==> r == Err::<(), ServerError>(ServerError::NotSupported(Unsupported::Responses)),
    {
        match msg.sip_message {
            SipMessage::Request(request) => self.handle_request(
                RequestMsg { sip_request: request, peer: msg.peer, transport: msg.transport },
            ),
            SipMessage::Response(_) => Err(ServerError::NotSupported(Unsupported::Responses)),
        }
    }

    fn handle_request(&self, _msg: RequestMsg) -> (r: Result<(), ServerError>)
        ensures
            r == Err::<(), ServerError>(ServerError::NotSupported(Unsupported::Requests)),
    {
        Err(ServerError::NotSupported(Unsupported::Requests))
    }

    /// The manager of the layers, while it is alive: the one the handle was
    /// made from.
    pub fn sip_manager(&self) -> (r: Option<Arc<M>>)
        ensures
            r matches Some(m) ==> *m == self.manager().target(),
    {
        self.sip_manager.upgrade()
    }
}

} // verus!
