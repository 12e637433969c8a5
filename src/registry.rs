use vstd::prelude::*;

verus! {

/// An IPv4 network endpoint.
#[derive(Clone, Copy, Debug, PartialEq, Eq, Structural)]
pub struct Endpoint {
    pub a: u8,
    pub b: u8,
    pub c: u8,
    pub d: u8,
    pub port: u16,
}

impl Endpoint {
    pub fn v4(a: u8, b: u8, c: u8, d: u8, port: u16) -> (r: Endpoint)
        ensures
            r == (Endpoint { a, b, c, d, port }),
    {
        Endpoint { a, b, c, d, port }
    }
}

/// The stable identity of a connected client.
#[derive(Clone, Copy, Debug, PartialEq, Eq, Structural)]
pub struct ClientId {
    pub id: u64,
}

/// A registered client: its identity, its current endpoint and its label.
#[derive(Debug)]
pub struct ClientHandle {
    pub id: ClientId,
    pub addr: Endpoint,
    pub name: String,
}

#[derive(Clone, Copy, Debug, PartialEq, Eq, Structural)]
pub enum RegistryError {
    /// The registry already holds as many clients as it was made for.
    Full,
}

/// The clients known to the server. A client's identity is its place in the
/// registry.
pub struct ClientRegistry {
    clients: Vec<ClientHandle>,
    capacity: usize,
}

impl ClientRegistry {
    pub closed spec fn clients(&self) -> Seq<ClientHandle> {
        self.clients@
    }

    pub closed spec fn capacity(&self) -> nat {
        self.capacity as nat
    }

    pub open spec fn wf(&self) -> bool {
        &&& self.clients().len() <= self.capacity()
        &&& forall|i: int| 0 <= i < self.clients().len() ==> (#[trigger] self.clients()[i]).id.id == i
    }

    /// The registered client with identity `id`, if there is one.
    pub open spec fn lookup(&self, id: ClientId) -> Option<ClientHandle> {
        if (id.id as int) < self.clients().len() {
            Some(self.clients()[id.id as int])
        } else {
            None
        }
    }

    pub fn new(capacity: usize) -> (r: ClientRegistry)
        ensures
            r.wf(),
            r.clients().len() == 0,
            r.capacity() == capacity,
    {
        ClientRegistry { clients: Vec::new(), capacity }
    }

    /// Registers a client at `addr` and returns its new identity; refused
    /// when the registry is full.
    pub fn add(&mut self, addr: Endpoint, name: String) -> (r: Result<ClientId, RegistryError>)
        requires
            old(self).wf(),
        ensures
            final(self).wf(),
            final(self).capacity() == old(self).capacity(),
            old(self).clients().len() < old(self).capacity() ==> {
                &&& r == Ok::<ClientId, RegistryError>(ClientId { id: old(self).clients().len() as u64 })
                &&& final(self).clients() == old(self).clients().push(
                    ClientHandle { id: ClientId { id: old(self).clients().len() as u64 }, addr, name })
            },
            old(self).clients().len() >= old(self).capacity() ==> {
                &&& r == Err::<ClientId, RegistryError>(RegistryError::Full)
                &&& final(self).clients() == old(self).clients()
            },
    {
        if self.clients.len() >= self.capacity {
            return Err(RegistryError::Full);
        }
        let id = ClientId { id: self.clients.len() as u64 };
        self.clients.push(ClientHandle { id, addr, name });
        proof {
            assert forall|i: int| 0 <= i < self.clients().len() implies (#[trigger] self.clients()[i]).id.id == i by {
                if i < old(self).clients().len() {
                    assert(self.clients()[i] == old(self).clients()[i]);
                }
            }
        }
        Ok(id)
    }

    pub fn find_client(&self, id: ClientId) -> (r: Option<&ClientHandle>)
        requires
            self.wf(),
        ensures
            r is Some <==> self.lookup(id) is Some,
            r is Some ==> *r.unwrap() == self.lookup(id).unwrap(),
    {
        if (id.id as u128) < (self.clients.len() as u128) {
            Some(&self.clients[id.id as usize])
        } else {
            None
        }
    }

    pub fn get_clients(&self) -> (r: &Vec<ClientHandle>)
        ensures
            r@ == self.clients(),
    {
        &self.clients
    }

    pub fn client_count(&self) -> (r: usize)
        ensures
            r == self.clients().len(),
    {
        self.clients.len()
    }
}

} // verus!
