use vstd::prelude::*;

use crate::registry::{ClientHandle, ClientRegistry, Endpoint};

verus! {

/// A 2D quantity: a position in millimetres or a velocity in millimetres
/// per second.
#[derive(Clone, Copy, Debug, PartialEq, Eq, Structural)]
pub struct Vector2 {
    pub x: i64,
    pub y: i64,
}

/// Logical channels that keep unrelated messages from blocking each other.
#[derive(Clone, Copy, Debug, PartialEq, Eq, Structural)]
pub enum StreamId {
    WeaponSwitch,
    AmmoUpdate,
    ShotEvent,
}

/// Delivery class of an outgoing message.
#[derive(Clone, Copy, Debug, PartialEq, Eq, Structural)]
pub enum DeliveryRequirement {
    /// Never lost, never reordered within its stream.
    ReliableSequenced(StreamId),
}

/// A projectile that every client has to show.
#[derive(Clone, Copy, Debug, PartialEq, Eq, Structural)]
pub struct ShotEvent {
    pub position: Vector2,
    pub velocity: Vector2,
    /// Microseconds the bullet lives.
    pub bullet_time_limit: u64,
}

/// State changes that only the owning player is told of.
#[derive(Debug)]
pub enum PlayerUpdate {
    AmmoUpdate { ammo_in_magazine: u32 },
    WeaponSwitch { name: String, magazine_size: u32, ammo_in_magazine: u32 },
}

#[derive(Debug)]
pub enum PacketType {
    PlayerUpdate(PlayerUpdate),
    ShotEvent(ShotEvent),
}

/// One message queued for one endpoint.
#[derive(Debug)]
pub struct Outgoing {
    pub addr: Endpoint,
    pub payload: PacketType,
    pub delivery: DeliveryRequirement,
}

/// The message for `addr` on `stream`.
pub open spec fn outgoing(addr: Endpoint, payload: PacketType, stream: StreamId) -> Outgoing {
    Outgoing { addr, payload, delivery: DeliveryRequirement::ReliableSequenced(stream) }
}

/// One `ShotEvent` message for each of `clients`, in their order.
pub open spec fn shot_sends(clients: Seq<ClientHandle>, event: ShotEvent) -> Seq<Outgoing> {
    clients.map_values(|h: ClientHandle| outgoing(h.addr, PacketType::ShotEvent(event), StreamId::ShotEvent))
}

/// The queue of messages that the transport layer sends after the tick.
pub struct TransportResource {
    messages: Vec<Outgoing>,
}

impl TransportResource {
    pub closed spec fn messages(&self) -> Seq<Outgoing> {
        self.messages@
    }

    pub fn new() -> (r: TransportResource)
        ensures
            r.messages().len() == 0,
    {
        TransportResource { messages: Vec::new() }
    }

    /// Queues `payload` for `addr` on `stream`, reliable and sequenced.
    pub fn send_to(&mut self, addr: Endpoint, payload: PacketType, stream: StreamId)
        ensures
            final(self).messages() == old(self).messages().push(outgoing(addr, payload, stream)),
    {
        self.messages.push(
            Outgoing { addr, payload, delivery: DeliveryRequirement::ReliableSequenced(stream) },
        );
    }

    /// Queues `event` for every registered client.
    pub fn broadcast_shot_event(&mut self, registry: &ClientRegistry, event: ShotEvent)
        ensures
            final(self).messages() == old(self).messages() + shot_sends(registry.clients(), event),
    {
        let clients = registry.get_clients();
        let mut i: usize = 0;
        while i < clients.len()
            invariant
                0 <= i <= clients@.len(),
                clients@ == registry.clients(),
                self.messages() == old(self).messages() + shot_sends(clients@.take(i as int), event),
            decreases clients@.len() - i,
        {
            let addr = clients[i].addr;
            self.send_to(addr, PacketType::ShotEvent(event), StreamId::ShotEvent);
            proof {
                assert(clients@.take(i + 1) == clients@.take(i as int).push(clients@[i as int]));
                assert(shot_sends(clients@.take(i + 1), event)
                    =~= shot_sends(clients@.take(i as int), event).push(
                        outgoing(addr, PacketType::ShotEvent(event), StreamId::ShotEvent)));
            }
            i = i + 1;
        }
        proof {
            assert(clients@.take(i as int) =~= clients@);
        }
    }

    pub fn get_messages(&self) -> (r: &Vec<Outgoing>)
        ensures
            r@ == self.messages(),
    {
        &self.messages
    }

    /// Hands over the queued messages and leaves the queue empty.
    pub fn take_messages(&mut self) -> (r: Vec<Outgoing>)
        ensures
            r@ == old(self).messages(),
            final(self).messages().len() == 0,
    {
        let mut taken: Vec<Outgoing> = Vec::new();
        std::mem::swap(&mut taken, &mut self.messages);
        taken
    }
}

} // verus!
