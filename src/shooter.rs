use vstd::prelude::*;

use crate::holster::Holster;
use crate::input::{has_flag, slot_of, Input, SHOOT};
use crate::network::{
    outgoing, shot_sends, PacketType, PlayerUpdate, ShotEvent, StreamId, TransportResource, Vector2,
};
use crate::registry::{ClientId, ClientRegistry};
use crate::weapon::Weapon;

verus! {

/// A facing component of this size is one whole unit of length.
pub const FACING_UNIT: u64 = 1_000_000;

/// Position (millimetres) and facing of an entity. The facing is a unit
/// vector whose components are given in millionths.
#[derive(Clone, Copy, Debug, PartialEq, Eq, Structural)]
pub struct Transform {
    pub x: i32,
    pub y: i32,
    pub facing_x: i32,
    pub facing_y: i32,
}

/// The part `f` (in millionths) of `a`, rounded toward zero.
pub open spec fn scaled(a: int, f: int) -> int {
    if f >= 0 {
        (a * f) / (FACING_UNIT as int)
    } else {
        -((a * -f) / (FACING_UNIT as int))
    }
}

/// A projectile the tick asks to create.
#[derive(Clone, Copy, Debug, PartialEq, Eq, Structural)]
pub struct BulletSpawn {
    pub position: Vector2,
    pub velocity: Vector2,
    pub spawned_at: u64,
    pub lifespan: u64,
    pub damage: u32,
}

/// One combatant of the arena, as the shooter system sees it. `bound` is the
/// radius of its bounding circle in millimetres; `client` is absent for a
/// combatant that no player controls.
pub struct Combatant {
    pub input: Input,
    pub transform: Transform,
    pub bound: Option<u32>,
    pub holster: Holster,
    pub client: Option<ClientId>,
}

impl Combatant {
    pub open spec fn wf(&self) -> bool {
        self.holster.wf()
    }
}

#[derive(Clone, Copy, Debug, PartialEq, Eq, Structural)]
pub enum ShooterError {
    /// The owning client is no longer in the registry.
    ClientNotFound(ClientId),
}

/// Resolves weapon switches, shots and reloads of every combatant each tick.
/// Bullets live at most `max_bullet_lifespan` microseconds.
#[derive(Clone, Copy, Debug, PartialEq, Eq, Structural)]
pub struct ShooterSystem {
    pub max_bullet_lifespan: u64,
}

pub open spec fn bound_radius(bound: Option<u32>) -> int {
    match bound {
        Some(r) => r as int,
        None => 0,
    }
}

/// Where a bullet starts: behind the entity's centre by its bounding radius,
/// against its facing.
pub open spec fn bullet_position(t: Transform, bound: Option<u32>) -> Vector2 {
    Vector2 {
        x: (t.x - scaled(bound_radius(bound), t.facing_x as int)) as i64,
        y: (t.y - scaled(bound_radius(bound), t.facing_y as int)) as i64,
    }
}

/// A bullet flies against the entity's facing at the weapon's speed.
pub open spec fn bullet_velocity(t: Transform, speed: u32) -> Vector2 {
    Vector2 {
        x: (-scaled(speed as int, t.facing_x as int)) as i64,
        y: (-scaled(speed as int, t.facing_y as int)) as i64,
    }
}

pub open spec fn shot_event_spec(t: Transform, bound: Option<u32>, w: Weapon, max_lifespan: u64) -> ShotEvent {
    ShotEvent {
        position: bullet_position(t, bound),
        velocity: bullet_velocity(t, w.details.bullet_speed),
        bullet_time_limit: w.details.lifespan_spec(max_lifespan) as u64,
    }
}

pub open spec fn bullet_spawn_spec(t: Transform, bound: Option<u32>, w: Weapon, now: u64, max_lifespan: u64) -> BulletSpawn {
    BulletSpawn {
        position: bullet_position(t, bound),
        velocity: bullet_velocity(t, w.details.bullet_speed),
        spawned_at: now,
        lifespan: w.details.lifespan_spec(max_lifespan) as u64,
        damage: w.details.damage,
    }
}

/// The message for the owning client, when there is one and the registry
/// still knows it; nothing otherwise.
pub open spec fn to_owner(client: Option<ClientId>, registry: ClientRegistry, payload: PacketType, stream: StreamId) -> Seq<crate::network::Outgoing> {
    match client {
        Some(id) => match registry.lookup(id) {
            Some(h) => seq![outgoing(h.addr, payload, stream)],
            None => seq![],
        },
        None => seq![],
    }
}

/// How many messages go to the owner: one when it is a player that the
/// registry still knows, none otherwise.
pub open spec fn shoot_owner_count(c: Combatant, registry: ClientRegistry) -> nat {
    match c.client {
        Some(id) => if registry.lookup(id) is Some { 1 } else { 0 },
        None => 0,
    }
}

pub open spec fn ammo_update(ammo: u32) -> PacketType {
    PacketType::PlayerUpdate(PlayerUpdate::AmmoUpdate { ammo_in_magazine: ammo })
}

/// The weapon after a tick's trigger handling: a shot when the trigger is
/// pulled and the weapon is ready, a released trigger when it is not pulled.
pub open spec fn after_trigger(w: Weapon, flags: u16, now: u64) -> Weapon {
    if has_flag(flags, SHOOT) {
        if w.ready_to_shoot(now) { w.fired(now) } else { w }
    } else {
        Weapon { input_lifted: true, ..w }
    }
}

/// The weapon after the reload check at `now`.
pub open spec fn after_reload_check(w: Weapon, now: u64) -> Weapon {
    if w.reload_due(now) { w.reloaded() } else { w }
}

/// The weapon in hand after a whole tick, starting from `w`.
pub open spec fn after_tick(w: Weapon, flags: u16, now: u64) -> Weapon {
    after_reload_check(after_trigger(w, flags, now), now)
}

/// Taking a weapon in hand restarts a reload it had pending.
pub open spec fn rebased(w: Weapon, now: u64) -> Weapon {
    if w.reload_started_at is Some { Weapon { reload_started_at: Some(now), ..w } } else { w }
}

/// The slot that the tick switches to, if it switches.
pub open spec fn switch_target(c: Combatant) -> Option<usize> {
    match slot_of(c.input.flags) {
        Some(s) => if (s as int) < c.holster.guns().len() && s as int != c.holster.active() {
            Some(s)
        } else {
            None
        },
        None => None,
    }
}

/// The active slot after weapon selection.
pub open spec fn active_after_select(c: Combatant) -> int {
    match switch_target(c) {
        Some(s) => s as int,
        None => c.holster.active(),
    }
}

/// The weapon in hand after weapon selection.
pub open spec fn gun_after_select(c: Combatant, now: u64) -> Weapon {
    match switch_target(c) {
        Some(s) => rebased(c.holster.guns()[s as int], now),
        None => c.holster.active_gun_spec(),
    }
}

/// Whether the tick fires a shot.
pub open spec fn shoots(c: Combatant, now: u64) -> bool {
    has_flag(c.input.flags, SHOOT) && gun_after_select(c, now).ready_to_shoot(now)
}

pub open spec fn switch_messages(c: Combatant, now: u64, registry: ClientRegistry) -> Seq<crate::network::Outgoing> {
    match switch_target(c) {
        Some(s) => to_owner(c.client, registry, PacketType::PlayerUpdate(PlayerUpdate::WeaponSwitch {
            name: c.holster.names()[s as int],
            magazine_size: gun_after_select(c, now).details.magazine_size,
            ammo_in_magazine: gun_after_select(c, now).bullets_left_in_magazine,
        }), StreamId::WeaponSwitch),
        None => seq![],
    }
}

pub open spec fn shot_messages(c: Combatant, now: u64, registry: ClientRegistry, max_lifespan: u64) -> Seq<crate::network::Outgoing> {
    let w = gun_after_select(c, now);
    if shoots(c, now) {
        to_owner(c.client, registry, ammo_update(w.fired(now).bullets_left_in_magazine), StreamId::AmmoUpdate)
            + shot_sends(registry.clients(), shot_event_spec(c.transform, c.bound, w, max_lifespan))
    } else {
        seq![]
    }
}

pub open spec fn reload_messages(c: Combatant, now: u64, registry: ClientRegistry) -> Seq<crate::network::Outgoing> {
    let w = after_trigger(gun_after_select(c, now), c.input.flags, now);
    if w.reload_due(now) {
        to_owner(c.client, registry, ammo_update(w.details.magazine_size), StreamId::AmmoUpdate)
    } else {
        seq![]
    }
}

/// Everything one combatant's tick sends, in order.
pub open spec fn tick_messages(c: Combatant, now: u64, registry: ClientRegistry, max_lifespan: u64) -> Seq<crate::network::Outgoing> {
    switch_messages(c, now, registry) + shot_messages(c, now, registry, max_lifespan)
        + reload_messages(c, now, registry)
}

/// The projectiles one combatant's tick creates.
pub open spec fn tick_spawns(c: Combatant, now: u64, max_lifespan: u64) -> Seq<BulletSpawn> {
    if shoots(c, now) {
        seq![bullet_spawn_spec(c.transform, c.bound, gun_after_select(c, now), now, max_lifespan)]
    } else {
        seq![]
    }
}

/// How one combatant stands after its tick, given how it stood before.
pub open spec fn ticked(before: Combatant, after: Combatant, now: u64) -> bool {
    &&& after.input == before.input
    &&& after.transform == before.transform
    &&& after.bound == before.bound
    &&& after.client == before.client
    &&& after.holster.names() == before.holster.names()
    &&& after.holster.active() == active_after_select(before)
    &&& after.holster.guns() == before.holster.guns().update(
        active_after_select(before),
        after_tick(gun_after_select(before, now), before.input.flags, now),
    )
}

/// Everything a tick of all of `cs` sends, combatant after combatant.
pub open spec fn arena_messages(cs: Seq<Combatant>, now: u64, registry: ClientRegistry, max_lifespan: u64) -> Seq<crate::network::Outgoing>
    decreases cs.len(),
{
    if cs.len() == 0 {
        seq![]
    } else {
        arena_messages(cs.drop_last(), now, registry, max_lifespan) + tick_messages(cs.last(), now, registry, max_lifespan)
    }
}

/// The projectiles a tick of all of `cs` creates, combatant after combatant.
pub open spec fn arena_spawns(cs: Seq<Combatant>, now: u64, max_lifespan: u64) -> Seq<BulletSpawn>
    decreases cs.len(),
{
    if cs.len() == 0 {
        seq![]
    } else {
        arena_spawns(cs.drop_last(), now, max_lifespan) + tick_spawns(cs.last(), now, max_lifespan)
    }
}

proof fn lemma_scaled_bounds(a: int, f: int)
    requires
        0 <= a <= u32::MAX,
        i32::MIN <= f <= i32::MAX,
    ensures
        -10_000_000_000_000 <= scaled(a, f) <= 10_000_000_000_000,
{
    let u = FACING_UNIT as int;
    if f >= 0 {
        assert(0 <= a * f <= (u32::MAX as int) * (i32::MAX as int)) by (nonlinear_arith)
            requires 0 <= a <= u32::MAX, 0 <= f <= i32::MAX;
        assert(0 <= (a * f) / u <= (u32::MAX as int) * (i32::MAX as int) / u) by (nonlinear_arith)
            requires 0 <= a * f <= (u32::MAX as int) * (i32::MAX as int), u == 1_000_000;
    } else {
        assert(0 <= a * -f <= (u32::MAX as int) * (i32::MAX as int + 1)) by (nonlinear_arith)
            requires 0 <= a <= u32::MAX, 0 < -f <= i32::MAX + 1;
        assert(0 <= (a * -f) / u <= (u32::MAX as int) * (i32::MAX as int + 1) / u) by (nonlinear_arith)
            requires 0 <= a * -f <= (u32::MAX as int) * (i32::MAX as int + 1), u == 1_000_000;
    }
}

/// `scaled(a, f)` computed without overflow.
fn scale(a: u32, f: i32) -> (r: i64)
    ensures
        r as int == scaled(a as int, f as int),
        -10_000_000_000_000 <= r <= 10_000_000_000_000,
{
    proof {
        lemma_scaled_bounds(a as int, f as int);
    }
    if f >= 0 {
        proof {
            assert(0 <= (a as int) * (f as int) <= (u32::MAX as int) * (i32::MAX as int)) by (nonlinear_arith)
                requires 0 <= a <= u32::MAX, 0 <= f <= i32::MAX;
        }
        ((a as u64) * (f as u64) / FACING_UNIT) as i64
    } else {
        let g: u64 = (0i64 - f as i64) as u64;
        proof {
            assert(0 <= (a as int) * (g as int) <= (u32::MAX as int) * (i32::MAX as int + 1)) by (nonlinear_arith)
                requires 0 <= a <= u32::MAX, 0 < g <= i32::MAX + 1;
        }
        0i64 - ((a as u64) * g / FACING_UNIT) as i64
    }
}

impl ShooterSystem {
    pub fn new(max_bullet_lifespan: u64) -> (r: ShooterSystem)
        ensures
            r.max_bullet_lifespan == max_bullet_lifespan,
    {
        ShooterSystem { max_bullet_lifespan }
    }

    /// Queues `payload` for the client `client_id`; fails when the registry
    /// no longer knows it.
    fn send_to_client(
        client_id: ClientId,
        registry: &ClientRegistry,
        payload: PacketType,
        stream: StreamId,
        net: &mut TransportResource,
    ) -> (r: Result<(), ShooterError>)
        requires
            registry.wf(),
        ensures
            r is Ok <==> registry.lookup(client_id) is Some,
            r is Err ==> r == Err::<(), ShooterError>(ShooterError::ClientNotFound(client_id)),
            final(net).messages() == old(net).messages() + to_owner(Some(client_id), *registry, payload, stream),
    {
        match registry.find_client(client_id) {
            Some(handle) => {
                net.send_to(handle.addr, payload, stream);
                proof {
                    assert(final(net).messages() =~= old(net).messages() + to_owner(Some(client_id), *registry, payload, stream));
                }
                Ok(())
            },
            None => {
                proof {
                    assert(old(net).messages() =~= old(net).messages() + to_owner(Some(client_id), *registry, payload, stream));
                }
                Err(ShooterError::ClientNotFound(client_id))
            },
        }
    }

    /// Tells the client `client_id` how many bullets its magazine holds.
    pub fn send_ammo_update(
        client_id: ClientId,
        registry: &ClientRegistry,
        ammo_in_magazine: u32,
        net: &mut TransportResource,
    ) -> (r: Result<(), ShooterError>)
        requires
            registry.wf(),
        ensures
            r is Ok <==> registry.lookup(client_id) is Some,
            r is Err ==> r == Err::<(), ShooterError>(ShooterError::ClientNotFound(client_id)),
            final(net).messages() == old(net).messages() + to_owner(
                Some(client_id), *registry, ammo_update(ammo_in_magazine), StreamId::AmmoUpdate),
    {
        Self::send_to_client(
            client_id,
            registry,
            PacketType::PlayerUpdate(PlayerUpdate::AmmoUpdate { ammo_in_magazine }),
            StreamId::AmmoUpdate,
            net,
        )
    }

    /// Sends to the owner when there is one; a vanished owner is skipped.
    fn notify_owner(
        client: Option<ClientId>,
        registry: &ClientRegistry,
        payload: PacketType,
        stream: StreamId,
        net: &mut TransportResource,
    )
        requires
            registry.wf(),
        ensures
            final(net).messages() == old(net).messages() + to_owner(client, *registry, payload, stream),
    {
        match client {
            Some(id) => {
                let _ = Self::send_to_client(id, registry, payload, stream, net);
            },
            None => {
                proof {
                    assert(old(net).messages() =~= old(net).messages() + to_owner(client, *registry, payload, stream));
                }
            },
        }
    }

    /// Fires `weapon` once from the entity at `t`: queues the projectile,
    /// tells the owner its ammunition and tells every client of the shot.
    pub fn shoot(
        &self,
        t: Transform,
        bound: Option<u32>,
        weapon: &mut Weapon,
        client: Option<ClientId>,
        now: u64,
        registry: &ClientRegistry,
        net: &mut TransportResource,
        spawns: &mut Vec<BulletSpawn>,
    )
        requires
            old(weapon).wf(),
            old(weapon).ready_to_shoot(now),
            registry.wf(),
        ensures
            *final(weapon) == old(weapon).fired(now),
            final(weapon).wf(),
            final(spawns)@ == old(spawns)@.push(
                bullet_spawn_spec(t, bound, *old(weapon), now, self.max_bullet_lifespan)),
            final(net).messages() == old(net).messages() + to_owner(
                client, *registry, ammo_update(old(weapon).fired(now).bullets_left_in_magazine), StreamId::AmmoUpdate)
                + shot_sends(registry.clients(), shot_event_spec(t, bound, *old(weapon), self.max_bullet_lifespan)),
    {
        let radius: u32 = match bound {
            Some(r) => r,
            None => 0,
        };
        let position = Vector2 {
            x: t.x as i64 - scale(radius, t.facing_x),
            y: t.y as i64 - scale(radius, t.facing_y),
        };
        let speed = weapon.details.bullet_speed;
        let velocity = Vector2 { x: 0i64 - scale(speed, t.facing_x), y: 0i64 - scale(speed, t.facing_y) };
        let lifespan = weapon.bullet_lifespan(self.max_bullet_lifespan);
        spawns.push(BulletSpawn { position, velocity, spawned_at: now, lifespan, damage: weapon.details.damage });

        weapon.fire(now);
        let ghost mid = net.messages();
        Self::notify_owner(
            client,
            registry,
            PacketType::PlayerUpdate(PlayerUpdate::AmmoUpdate { ammo_in_magazine: weapon.bullets_left_in_magazine }),
            StreamId::AmmoUpdate,
            net,
        );
        net.broadcast_shot_event(registry, ShotEvent { position, velocity, bullet_time_limit: lifespan });
        proof {
            assert(final(net).messages() =~= old(net).messages() + to_owner(
                client, *registry, ammo_update(old(weapon).fired(now).bullets_left_in_magazine), StreamId::AmmoUpdate)
                + shot_sends(registry.clients(), shot_event_spec(t, bound, *old(weapon), self.max_bullet_lifespan)));
        }
    }

    /// Finishes the pending reload of `weapon` when its time has come and
    /// tells the owner of the full magazine.
    pub fn check_reload_finish(
        weapon: &mut Weapon,
        client: Option<ClientId>,
        now: u64,
        registry: &ClientRegistry,
        net: &mut TransportResource,
    )
        requires
            old(weapon).wf(),
            registry.wf(),
        ensures
            *final(weapon) == after_reload_check(*old(weapon), now),
            final(weapon).wf(),
            final(net).messages() == old(net).messages() + if old(weapon).reload_due(now) {
                to_owner(client, *registry, ammo_update(old(weapon).details.magazine_size), StreamId::AmmoUpdate)
            } else {
                seq![]
            },
    {
        if weapon.finish_reload_if_due(now) {
            Self::notify_owner(
                client,
                registry,
                PacketType::PlayerUpdate(PlayerUpdate::AmmoUpdate { ammo_in_magazine: weapon.bullets_left_in_magazine }),
                StreamId::AmmoUpdate,
                net,
            );
        } else {
            proof {
                assert(final(net).messages() =~= old(net).messages() + seq![]);
            }
        }
    }

    /// One combatant's tick: weapon selection, trigger, reload check.
    pub fn process(
        &self,
        c: &mut Combatant,
        now: u64,
        registry: &ClientRegistry,
        net: &mut TransportResource,
        spawns: &mut Vec<BulletSpawn>,
    )
        requires
            old(c).wf(),
            registry.wf(),
        ensures
            final(c).wf(),
            ticked(*old(c), *final(c), now),
            final(net).messages() == old(net).messages() + tick_messages(*old(c), now, *registry, self.max_bullet_lifespan),
            final(spawns)@ == old(spawns)@ + tick_spawns(*old(c), now, self.max_bullet_lifespan),
    {
        let ghost c0 = *old(c);
        let ghost m0 = net.messages();
        let ghost s0 = spawns@;
        match c.input.selected_slot() {
            Some(slot) => {
                if c.holster.active_slot() != slot {
                    match c.holster.switch(slot) {
                        Some(gun_name) => {
                            let mut gun = c.holster.active_gun();
                            if gun.reload_started_at.is_some() {
                                // switching mid-reload restarts the reload
                                gun.reload_started_at = Some(now);
                                c.holster.set_active_gun(gun);
                            }
                            let packet = PacketType::PlayerUpdate(PlayerUpdate::WeaponSwitch {
                                name: gun_name,
                                magazine_size: gun.details.magazine_size,
                                ammo_in_magazine: gun.bullets_left_in_magazine,
                            });
                            Self::notify_owner(c.client, registry, packet, StreamId::WeaponSwitch, net);
                        },
                        None => {},
                    }
                }
            },
            None => {},
        }
        proof {
            assert(c.holster.active() == active_after_select(c0));
            assert(c.holster.active_gun_spec() == gun_after_select(c0, now));
            assert(c.holster.guns() == c0.holster.guns().update(active_after_select(c0), gun_after_select(c0, now)));
            assert(net.messages() == m0 + switch_messages(c0, now, *registry));
        }
        let ghost m1 = net.messages();

        let mut weapon = c.holster.active_gun();
        if c.input.intersects(SHOOT) {
            if weapon.is_allowed_to_shoot(now) {
                self.shoot(c.transform, c.bound, &mut weapon, c.client, now, registry, net, spawns);
            } else {
                proof {
                    assert(net.messages() =~= m1 + shot_messages(c0, now, *registry, self.max_bullet_lifespan));
                    assert(spawns@ =~= s0 + tick_spawns(c0, now, self.max_bullet_lifespan));
                }
            }
        } else {
            weapon.input_lifted = true;
            proof {
                assert(net.messages() =~= m1 + shot_messages(c0, now, *registry, self.max_bullet_lifespan));
                assert(spawns@ =~= s0 + tick_spawns(c0, now, self.max_bullet_lifespan));
            }
        }
        proof {
            assert(weapon == after_trigger(gun_after_select(c0, now), c0.input.flags, now));
            assert(net.messages() =~= m1 + shot_messages(c0, now, *registry, self.max_bullet_lifespan));
            assert(spawns@ =~= s0 + tick_spawns(c0, now, self.max_bullet_lifespan));
        }
        let ghost m2 = net.messages();

        Self::check_reload_finish(&mut weapon, c.client, now, registry, net);
        c.holster.set_active_gun(weapon);
        proof {
            assert(net.messages() =~= m2 + reload_messages(c0, now, *registry));
            assert(c.holster.guns() =~= c0.holster.guns().update(
                active_after_select(c0),
                after_tick(gun_after_select(c0, now), c0.input.flags, now),
            ));
            assert(net.messages() =~= m0 + tick_messages(c0, now, *registry, self.max_bullet_lifespan));
        }
    }

    /// One tick of the whole arena: every combatant in order.
    pub fn run(
        &self,
        combatants: &mut Vec<Combatant>,
        now: u64,
        registry: &ClientRegistry,
        net: &mut TransportResource,
        spawns: &mut Vec<BulletSpawn>,
    )
        requires
            forall|i: int| 0 <= i < old(combatants)@.len() ==> #[trigger] old(combatants)@[i].wf(),
            registry.wf(),
        ensures
            final(combatants)@.len() == old(combatants)@.len(),
            forall|i: int| 0 <= i < final(combatants)@.len() ==> {
                &&& (#[trigger] final(combatants)@[i]).wf()
                &&& ticked(old(combatants)@[i], final(combatants)@[i], now)
            },
            final(net).messages() == old(net).messages() + arena_messages(
                old(combatants)@, now, *registry, self.max_bullet_lifespan),
            final(spawns)@ == old(spawns)@ + arena_spawns(old(combatants)@, now, self.max_bullet_lifespan),
    {
        let ghost cs0 = combatants@;
        let ghost m0 = net.messages();
        let ghost s0 = spawns@;
        let n = combatants.len();
        let mut i: usize = 0;
        while i < n
            invariant
                n == cs0.len(),
                combatants@.len() == n,
                0 <= i <= n,
                registry.wf(),
                forall|j: int| 0 <= j < n ==> #[trigger] cs0[j].wf(),
                forall|j: int| 0 <= j < i ==> {
                    &&& (#[trigger] combatants@[j]).wf()
                    &&& ticked(cs0[j], combatants@[j], now)
                },
                forall|j: int| i <= j < n ==> #[trigger] combatants@[j] == cs0[j],
                net.messages() == m0 + arena_messages(cs0.take(i as int), now, *registry, self.max_bullet_lifespan),
                spawns@ == s0 + arena_spawns(cs0.take(i as int), now, self.max_bullet_lifespan),
            decreases n - i,
        {
            let ghost before = combatants@;
            let mut c = combatants.remove(i);
            assert(c == cs0[i as int]);
            self.process(&mut c, now, registry, net, spawns);
            combatants.insert(i, c);
            proof {
                assert forall|j: int| 0 <= j < n && j != i implies #[trigger] combatants@[j] == before[j] by {}
                assert(cs0.take(i + 1).drop_last() =~= cs0.take(i as int));
                assert(cs0.take(i + 1).last() == cs0[i as int]);
                assert(net.messages() =~= m0 + arena_messages(cs0.take(i + 1), now, *registry, self.max_bullet_lifespan));
                assert(spawns@ =~= s0 + arena_spawns(cs0.take(i + 1), now, self.max_bullet_lifespan));
            }
            i = i + 1;
        }
        proof {
            assert(cs0.take(n as int) =~= cs0);
        }
    }
}

} // verus!
