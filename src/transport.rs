use crate::message::{ListenHandle, UCode, UMessage, UStatus, UUri};
use vstd::prelude::*;

verus! {

/// One request made of a transport, with what the transport answered.
pub enum TransportCall {
    Register(UUri, Result<ListenHandle, UStatus>),
    Deregister(ListenHandle),
    Send(UMessage, UStatus),
}

/// The capability that carries messages. Its state is modelled by the live
/// listener registrations (handle id to method address) and by the journal of
/// every request made of it, oldest first.
pub trait UTransport {
    spec fn listeners(&self) -> Map<usize, UUri>;

    spec fn journal(&self) -> Seq<TransportCall>;

    /// Binds a listener to `method`. On success the new handle denotes exactly
    /// one fresh registration; on refusal nothing is registered.
    fn register_listener(&mut self, method: &UUri) -> (r: Result<ListenHandle, UStatus>)
        ensures
            final(self).journal() == old(self).journal().push(TransportCall::Register(*method, r)),
            match r {
                Ok(handle) => {
                    &&& !old(self).listeners().contains_key(handle.id)
                    &&& final(self).listeners() == old(self).listeners().insert(handle.id, *method)
                },
                Err(status) => {
                    &&& status.code != UCode::OK
                    &&& final(self).listeners() == old(self).listeners()
                },
            },
    ;

    /// Ends the registration that `handle` denotes, if it is still live.
    fn unregister_listener(&mut self, handle: ListenHandle)
        ensures
            final(self).journal() == old(self).journal().push(TransportCall::Deregister(handle)),
            final(self).listeners() == old(self).listeners().remove(handle.id),
    ;

    /// Hands `message` over for delivery.
    fn send(&mut self, message: UMessage) -> (r: UStatus)
        ensures
            final(self).journal() == old(self).journal().push(TransportCall::Send(message, r)),
            final(self).listeners() == old(self).listeners(),
    ;
}

/// An in-process transport. Handle ids index `slots`; a slot holds the address
/// of a live registration, or `None` once it was ended. Every request made of
/// it is kept in `calls`.
pub struct LocalTransport {
    available: bool,
    slots: Vec<Option<UUri>>,
    calls: Vec<TransportCall>,
}

/// Whether `slot` holds an address with this path.
pub open spec fn slot_has(slot: Option<UUri>, path: Seq<char>) -> bool {
    match slot {
        Some(u) => u.path@ == path,
        None => false,
    }
}

/// Whether the address `path` is bound in `slots`.
pub open spec fn path_bound(slots: Seq<Option<UUri>>, path: Seq<char>) -> bool {
    exists|i: int| 0 <= i < slots.len() && slot_has(#[trigger] slots[i], path)
}

impl LocalTransport {
    /// A transport that accepts registrations of unbound, non-empty addresses.
    pub fn new() -> (t: LocalTransport)
        ensures
            t.is_available(),
            t.listeners() == Map::<usize, UUri>::empty(),
            t.journal() == Seq::<TransportCall>::empty(),
    {
        let t = LocalTransport { available: true, slots: Vec::new(), calls: Vec::new() };
        assert(t.listeners() =~= Map::<usize, UUri>::empty());
        t
    }

    /// A transport that refuses every registration as unavailable.
    pub fn unavailable() -> (t: LocalTransport)
        ensures
            !t.is_available(),
            t.listeners() == Map::<usize, UUri>::empty(),
            t.journal() == Seq::<TransportCall>::empty(),
    {
        let t = LocalTransport { available: false, slots: Vec::new(), calls: Vec::new() };
        assert(t.listeners() =~= Map::<usize, UUri>::empty());
        t
    }

    pub closed spec fn is_available(&self) -> bool {
        self.available
    }

    /// Whether some live registration is bound to an address with this path.
    pub closed spec fn bound(&self, path: Seq<char>) -> bool {
        path_bound(self.slots@, path)
    }

    /// Every request made of this transport so far, oldest first.
    pub fn calls(&self) -> (r: &Vec<TransportCall>)
        ensures
            r@ == self.journal(),
    {
        &self.calls
    }

    /// Whether `method` is bound to a live registration.
    pub fn is_bound(&self, method: &UUri) -> (r: bool)
        ensures
            r == self.bound(method.path@),
    {
        let mut i: usize = 0;
        while i < self.slots.len()
            invariant
                0 <= i <= self.slots@.len(),
                forall|j: int| 0 <= j < i ==> !slot_has(#[trigger] self.slots@[j], method.path@),
            decreases self.slots@.len() - i,
        {
            match &self.slots[i] {
                Some(u) => {
                    if u.path == method.path {
                        return true;
                    }
                },
                None => {},
            }
            i = i + 1;
        }
        false
    }
}

impl UTransport for LocalTransport {
    closed spec fn listeners(&self) -> Map<usize, UUri> {
        Map::new(
            |k: usize| (k as int) < self.slots@.len() && self.slots@[k as int] is Some,
            |k: usize| self.slots@[k as int]->Some_0,
        )
    }

    closed spec fn journal(&self) -> Seq<TransportCall> {
        self.calls@
    }

    /// Refuses when unavailable, when the path is empty, or when the address is
    /// already bound; otherwise takes the next slot.
    fn register_listener(&mut self, method: &UUri) -> (r: Result<ListenHandle, UStatus>)
        ensures
            final(self).is_available() == old(self).is_available(),
            r is Ok <==> old(self).is_available() && method.path@.len() > 0 && !old(self).bound(
                method.path@,
            ),
            match r {
                Ok(_) => old(self).is_available() && method.path@.len() > 0 && !old(
                    self,
                ).bound(method.path@),
                Err(status) => status.code == if !old(self).is_available() {
                    UCode::Unavailable
                } else if method.path@.len() == 0 {
                    UCode::InvalidArgument
                } else {
                    UCode::AlreadyExists
                },
            },
    {
        let r = if !self.available {
            Err(UStatus::fail(UCode::Unavailable))
        } else if method.path.as_str().is_empty() {
            Err(UStatus::fail(UCode::InvalidArgument))
        } else if self.is_bound(method) {
            Err(UStatus::fail(UCode::AlreadyExists))
        } else {
            let id = self.slots.len();
            let ghost before = self.listeners();
            self.slots.push(Some(method.clone()));
            assert(self.listeners() =~= before.insert(id, *method));
            Ok(ListenHandle { id })
        };
        self.calls.push(TransportCall::Register(method.clone(), r));
        r
    }

    fn unregister_listener(&mut self, handle: ListenHandle) {
        self.calls.push(TransportCall::Deregister(handle));
        let ghost before = self.listeners();
        if handle.id < self.slots.len() {
            self.slots.set(handle.id, None);
        }
        assert(self.listeners() =~= before.remove(handle.id));
    }

    /// Delivery stays in process: the message is recorded and accepted.
    fn send(&mut self, message: UMessage) -> (r: UStatus) {
        let status = UStatus::ok();
        self.calls.push(TransportCall::Send(message, status));
        status
    }
}

} // verus!
