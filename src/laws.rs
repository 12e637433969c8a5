use vstd::prelude::*;

use crate::input::{has_flag, SHOOT};
use crate::network::{shot_sends, DeliveryRequirement, PacketType, StreamId};
use crate::registry::ClientRegistry;
use crate::shooter::{
    after_reload_check, after_tick, after_trigger, gun_after_select, shoot_owner_count, shot_event_spec,
    shot_messages, shoots, switch_target, to_owner, ammo_update, Combatant,
};
use crate::weapon::Weapon;

verus! {

/// A shot spends exactly one bullet; an empty magazine never shoots, and a
/// tick without a shot leaves the ammunition as it was.
pub proof fn lemma_shot_spends_one_bullet(w: Weapon, flags: u16, now: u64)
    requires
        w.wf(),
    ensures
        w.bullets_left_in_magazine == 0 ==> !w.ready_to_shoot(now),
        has_flag(flags, SHOOT) && w.ready_to_shoot(now) ==>
            after_trigger(w, flags, now).bullets_left_in_magazine == w.bullets_left_in_magazine - 1,
        !(has_flag(flags, SHOOT) && w.ready_to_shoot(now)) ==>
            after_trigger(w, flags, now).bullets_left_in_magazine == w.bullets_left_in_magazine,
        after_trigger(w, flags, now).wf(),
{
}

/// Whatever the input, no shot is taken before the fire interval has passed
/// since the previous shot.
pub proof fn lemma_fire_rate_gate(w: Weapon, flags: u16, now: u64)
    requires
        w.wf(),
        w.last_shot_time is Some,
        (now as int) - (w.last_shot_time.unwrap() as int) < w.details.fire_interval as int,
    ensures
        !w.ready_to_shoot(now),
        after_trigger(w, flags, now).bullets_left_in_magazine == w.bullets_left_in_magazine,
        after_trigger(w, flags, now).last_shot_time == w.last_shot_time,
{
}

/// A semi-automatic weapon held down over two ticks, without a release in
/// between, shoots once: the second tick is refused and records no shot.
pub proof fn lemma_semi_automatic_single_shot(w: Weapon, first: u16, second: u16, now1: u64, now2: u64)
    requires
        w.wf(),
        !w.details.automatic,
        has_flag(first, SHOOT),
        has_flag(second, SHOOT),
        w.ready_to_shoot(now1),
    ensures
        after_tick(w, first, now1).last_shot_time == Some(now1),
        !after_tick(w, first, now1).ready_to_shoot(now2),
        after_tick(after_tick(w, first, now1), second, now2).last_shot_time == Some(now1),
{
}

/// Taking in hand a weapon whose reload is pending restarts that reload at
/// the switch: it completes exactly when the reload time has passed since
/// the switch, and not before.
pub proof fn lemma_switch_rebases_reload(c: Combatant, now: u64, later: u64)
    requires
        c.wf(),
        switch_target(c) is Some,
        c.holster.guns()[switch_target(c).unwrap() as int].reload_started_at is Some,
    ensures
        gun_after_select(c, now).reload_started_at == Some(now),
        gun_after_select(c, now).reload_due(later)
            <==> later as int >= now as int + gun_after_select(c, now).details.reload_time as int,
        gun_after_select(c, now).bullets_left_in_magazine
            == c.holster.guns()[switch_target(c).unwrap() as int].bullets_left_in_magazine,
{
}

/// A reload completes at its deadline, inclusive: the magazine is full and
/// no reload is pending.
pub proof fn lemma_reload_completes_at_deadline(w: Weapon, now: u64)
    requires
        w.wf(),
        w.reload_started_at is Some,
        now as int >= w.reload_started_at.unwrap() as int + w.details.reload_time as int,
    ensures
        after_reload_check(w, now).bullets_left_in_magazine == w.details.magazine_size,
        after_reload_check(w, now).reload_started_at is None,
        after_reload_check(w, now).wf(),
{
}

/// A shot sends one `ShotEvent` to each registered client and at most one
/// ammunition update, to the shooter's own client only.
pub proof fn lemma_shot_fan_out(c: Combatant, now: u64, registry: ClientRegistry, max_lifespan: u64)
    requires
        c.wf(),
        registry.wf(),
        shoots(c, now),
    ensures
        shot_messages(c, now, registry, max_lifespan) == to_owner(
            c.client, registry, ammo_update(gun_after_select(c, now).fired(now).bullets_left_in_magazine),
            StreamId::AmmoUpdate)
            + shot_sends(registry.clients(), shot_event_spec(c.transform, c.bound, gun_after_select(c, now), max_lifespan)),
        to_owner(c.client, registry, ammo_update(gun_after_select(c, now).fired(now).bullets_left_in_magazine),
            StreamId::AmmoUpdate).len() == shoot_owner_count(c, registry),
        shot_messages(c, now, registry, max_lifespan).len() == shoot_owner_count(c, registry) + registry.clients().len(),
        forall|i: int| 0 <= i < registry.clients().len() ==> {
            let m = #[trigger] shot_sends(registry.clients(), shot_event_spec(c.transform, c.bound, gun_after_select(c, now), max_lifespan))[i];
            &&& m.addr == registry.clients()[i].addr
            &&& m.payload == PacketType::ShotEvent(shot_event_spec(c.transform, c.bound, gun_after_select(c, now), max_lifespan))
            &&& m.delivery == DeliveryRequirement::ReliableSequenced(StreamId::ShotEvent)
        },
{
}

} // verus!
