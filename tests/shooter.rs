use westiny::holster::Holster;
use westiny::input::{Input, SELECT1, SELECT2, SELECT3, SELECT4, SHOOT, NOP, RUN};
use westiny::network::{
    DeliveryRequirement, PacketType, PlayerUpdate, ShotEvent, StreamId, TransportResource, Vector2,
};
use westiny::registry::{ClientId, ClientRegistry, Endpoint, RegistryError};
use westiny::shooter::{BulletSpawn, Combatant, ShooterError, ShooterSystem, Transform};
use westiny::weapon::{Shot, Weapon, WeaponDetails};

const MAX_LIFESPAN: u64 = 10_000_000;

fn gun() -> WeaponDetails {
    WeaponDetails {
        damage: 5,
        bullet_distance_limit: 7_500,
        fire_interval: 0,
        magazine_size: 6,
        reload_time: 1_000_000,
        spread: 2_000,
        shot: Shot::Single,
        bullet_speed: 12_500,
        automatic: false,
    }
}

fn holster_of(details: WeaponDetails) -> Holster {
    Holster::new_with_guns(
        vec![Weapon::new(details), Weapon::new(details), Weapon::new(details)],
        vec!["Weapon1".to_string(), "Weapon2".to_string(), "Weapon3".to_string()],
    )
}

fn facing_up() -> Transform {
    Transform { x: 0, y: 0, facing_x: 0, facing_y: 1_000_000 }
}

fn three_clients() -> ClientRegistry {
    let mut registry = ClientRegistry::new(3);
    registry.add(Endpoint::v4(111, 222, 111, 222, 9999), "player1".to_string()).unwrap();
    registry.add(Endpoint::v4(222, 111, 222, 111, 9999), "player2".to_string()).unwrap();
    registry.add(Endpoint::v4(111, 111, 111, 111, 9999), "player3".to_string()).unwrap();
    registry
}

fn combatant(flags: u16, client: Option<ClientId>) -> Combatant {
    Combatant {
        input: Input { flags, cursor_x: 0, cursor_y: 0 },
        transform: facing_up(),
        bound: Some(1_000),
        holster: holster_of(gun()),
        client,
    }
}

fn expected_shot() -> ShotEvent {
    ShotEvent {
        position: Vector2 { x: 0, y: -1_000 },
        velocity: Vector2 { x: 0, y: -12_500 },
        bullet_time_limit: 600_000,
    }
}

fn tick(system: &ShooterSystem, cs: &mut Vec<Combatant>, now: u64, registry: &ClientRegistry)
    -> (TransportResource, Vec<BulletSpawn>)
{
    let mut net = TransportResource::new();
    let mut spawns = Vec::new();
    system.run(cs, now, registry, &mut net, &mut spawns);
    (net, spawns)
}

fn ammo_of(p: &PacketType) -> Option<u32> {
    match p {
        PacketType::PlayerUpdate(PlayerUpdate::AmmoUpdate { ammo_in_magazine }) => Some(*ammo_in_magazine),
        _ => None,
    }
}

#[test]
fn broadcast_shot_event() {
    let registry = three_clients();
    let system = ShooterSystem::new(MAX_LIFESPAN);
    let mut cs = vec![combatant(SHOOT, None)];
    let (net, _) = tick(&system, &mut cs, 1_000, &registry);
    let messages = net.get_messages();
    assert_eq!(3, messages.len());
    for msg in messages.iter() {
        match &msg.payload {
            PacketType::ShotEvent(ev) => {
                assert_eq!(ev.position, expected_shot().position);
                assert_eq!(ev.velocity, expected_shot().velocity);
                assert_eq!(ev.bullet_time_limit, expected_shot().bullet_time_limit);
            }
            _ => panic!("Unexpected message"),
        }
    }
}

#[test]
fn one_shot_tick_spawns_and_notifies() {
    let registry = three_clients();
    let system = ShooterSystem::new(MAX_LIFESPAN);
    let owner = ClientId { id: 1 };
    let mut cs = vec![combatant(SHOOT, Some(owner))];
    let (net, spawns) = tick(&system, &mut cs, 1_000, &registry);
    assert_eq!(
        spawns,
        vec![BulletSpawn {
            position: Vector2 { x: 0, y: -1_000 },
            velocity: Vector2 { x: 0, y: -12_500 },
            spawned_at: 1_000,
            lifespan: 600_000,
            damage: 5,
        }]
    );
    assert_eq!(cs[0].holster.active_gun().bullets_left_in_magazine, 5);
    let messages = net.get_messages();
    assert_eq!(messages.len(), 4);
    assert_eq!(messages[0].addr, Endpoint::v4(222, 111, 222, 111, 9999));
    assert_eq!(ammo_of(&messages[0].payload), Some(5));
    assert_eq!(messages[0].delivery, DeliveryRequirement::ReliableSequenced(StreamId::AmmoUpdate));
    let addrs = [
        Endpoint::v4(111, 222, 111, 222, 9999),
        Endpoint::v4(222, 111, 222, 111, 9999),
        Endpoint::v4(111, 111, 111, 111, 9999),
    ];
    for i in 0..3 {
        let m = &messages[i + 1];
        assert_eq!(m.addr, addrs[i]);
        assert_eq!(m.delivery, DeliveryRequirement::ReliableSequenced(StreamId::ShotEvent));
        match &m.payload {
            PacketType::ShotEvent(ev) => assert_eq!(*ev, expected_shot()),
            _ => panic!("Unexpected message"),
        }
    }
}

#[test]
fn fan_out_counts_per_shot() {
    let registry = three_clients();
    let system = ShooterSystem::new(MAX_LIFESPAN);
    let mut cs = vec![combatant(SHOOT, Some(ClientId { id: 0 }))];
    let (net, _) = tick(&system, &mut cs, 1_000, &registry);
    let messages = net.get_messages();
    let shots = messages.iter().filter(|m| matches!(m.payload, PacketType::ShotEvent(_))).count();
    let owner = messages.iter().filter(|m| matches!(m.payload, PacketType::PlayerUpdate(_))).count();
    assert_eq!(shots, 3);
    assert_eq!(owner, 1);
}

#[test]
fn vanished_owner_is_skipped() {
    let registry = three_clients();
    let system = ShooterSystem::new(MAX_LIFESPAN);
    let mut cs = vec![combatant(SHOOT, Some(ClientId { id: 7 }))];
    let (net, _) = tick(&system, &mut cs, 1_000, &registry);
    assert_eq!(net.get_messages().len(), 3);
    assert_eq!(cs[0].holster.active_gun().bullets_left_in_magazine, 5);
}

#[test]
fn send_ammo_update_reports_missing_client() {
    let registry = three_clients();
    let mut net = TransportResource::new();
    assert_eq!(ShooterSystem::send_ammo_update(ClientId { id: 2 }, &registry, 4, &mut net), Ok(()));
    assert_eq!(
        ShooterSystem::send_ammo_update(ClientId { id: 3 }, &registry, 4, &mut net),
        Err(ShooterError::ClientNotFound(ClientId { id: 3 }))
    );
    assert_eq!(net.get_messages().len(), 1);
    assert_eq!(net.get_messages()[0].addr, Endpoint::v4(111, 111, 111, 111, 9999));
}

#[test]
fn ammo_drops_by_one_and_stops_at_zero() {
    let mut w = Weapon::new(WeaponDetails { magazine_size: 2, reload_time: 5_000_000, ..gun() });
    w.fire(100);
    assert_eq!(w.bullets_left_in_magazine, 1);
    w.input_lifted = true;
    w.fire(200);
    assert_eq!(w.bullets_left_in_magazine, 0);
    w.input_lifted = true;
    assert!(!w.is_allowed_to_shoot(300));
}

#[test]
fn fire_rate_refuses_early_shot() {
    let details = WeaponDetails { fire_interval: 500_000, automatic: true, ..gun() };
    let mut w = Weapon::new(details);
    assert!(w.is_allowed_to_shoot(0));
    w.fire(1_000_000);
    assert!(!w.is_allowed_to_shoot(1_499_999));
    assert!(w.is_allowed_to_shoot(1_500_000));
    assert!(!w.is_allowed_to_shoot(999_999));
}

#[test]
fn semi_automatic_needs_release() {
    let registry = three_clients();
    let system = ShooterSystem::new(MAX_LIFESPAN);
    let mut cs = vec![combatant(SHOOT, None)];
    tick(&system, &mut cs, 1_000, &registry);
    let (net, spawns) = tick(&system, &mut cs, 2_000, &registry);
    assert_eq!(net.get_messages().len(), 0);
    assert_eq!(spawns.len(), 0);
    assert_eq!(cs[0].holster.active_gun().bullets_left_in_magazine, 5);
    cs[0].input.flags = NOP;
    tick(&system, &mut cs, 3_000, &registry);
    cs[0].input.flags = SHOOT;
    let (_, spawns) = tick(&system, &mut cs, 4_000, &registry);
    assert_eq!(spawns.len(), 1);
    assert_eq!(cs[0].holster.active_gun().bullets_left_in_magazine, 4);
}

#[test]
fn automatic_keeps_firing() {
    let registry = ClientRegistry::new(0);
    let system = ShooterSystem::new(MAX_LIFESPAN);
    let mut c = combatant(SHOOT, None);
    c.holster = holster_of(WeaponDetails { automatic: true, ..gun() });
    let mut cs = vec![c];
    tick(&system, &mut cs, 1_000, &registry);
    tick(&system, &mut cs, 2_000, &registry);
    assert_eq!(cs[0].holster.active_gun().bullets_left_in_magazine, 4);
}

#[test]
fn switch_mid_reload_restarts_reload() {
    let registry = three_clients();
    let system = ShooterSystem::new(MAX_LIFESPAN);
    let owner = ClientId { id: 0 };
    let mut c = combatant(SHOOT, Some(owner));
    c.holster = holster_of(WeaponDetails { magazine_size: 1, ..gun() });
    let mut cs = vec![c];
    // empties the only bullet: reload starts at 1_000
    tick(&system, &mut cs, 1_000, &registry);
    assert_eq!(cs[0].holster.active_gun().reload_started_at, Some(1_000));
    cs[0].input.flags = SELECT2;
    tick(&system, &mut cs, 100_000, &registry);
    assert_eq!(cs[0].holster.active_slot(), 1);
    cs[0].input.flags = SELECT1;
    let (net, _) = tick(&system, &mut cs, 500_000, &registry);
    assert_eq!(cs[0].holster.active_slot(), 0);
    assert_eq!(cs[0].holster.active_gun().reload_started_at, Some(500_000));
    let messages = net.get_messages();
    assert_eq!(messages.len(), 1);
    assert_eq!(messages[0].delivery, DeliveryRequirement::ReliableSequenced(StreamId::WeaponSwitch));
    match &messages[0].payload {
        PacketType::PlayerUpdate(PlayerUpdate::WeaponSwitch { name, magazine_size, ammo_in_magazine }) => {
            assert_eq!(name, "Weapon1");
            assert_eq!(*magazine_size, 1);
            assert_eq!(*ammo_in_magazine, 0);
        }
        _ => panic!("Unexpected message"),
    }
    // the first deadline 1_001_000 has passed, the restarted one has not
    cs[0].input.flags = NOP;
    tick(&system, &mut cs, 1_499_999, &registry);
    assert_eq!(cs[0].holster.active_gun().bullets_left_in_magazine, 0);
    tick(&system, &mut cs, 1_500_000, &registry);
    assert_eq!(cs[0].holster.active_gun().bullets_left_in_magazine, 1);
}

#[test]
fn reload_completes_exactly_at_deadline() {
    let mut w = Weapon::new(WeaponDetails { magazine_size: 1, ..gun() });
    w.fire(2_000);
    assert_eq!(w.reload_started_at, Some(2_000));
    assert!(!w.finish_reload_if_due(1_001_999));
    assert_eq!(w.bullets_left_in_magazine, 0);
    assert!(w.finish_reload_if_due(1_002_000));
    assert_eq!(w.bullets_left_in_magazine, 1);
    assert_eq!(w.reload_started_at, None);
}

#[test]
fn empty_magazine_reloads_after_reload_time() {
    let registry = three_clients();
    let system = ShooterSystem::new(MAX_LIFESPAN);
    let owner = ClientId { id: 2 };
    let mut c = combatant(NOP, Some(owner));
    c.holster = holster_of(WeaponDetails { automatic: true, ..gun() });
    let mut cs = vec![c];
    cs[0].input.flags = SHOOT;
    for k in 0..6u64 {
        tick(&system, &mut cs, 10 + k, &registry);
    }
    let gun_now = cs[0].holster.active_gun();
    assert_eq!(gun_now.bullets_left_in_magazine, 0);
    assert_eq!(gun_now.reload_started_at, Some(15));
    cs[0].input.flags = NOP;
    let (net, _) = tick(&system, &mut cs, 1_000_014, &registry);
    assert_eq!(net.get_messages().len(), 0);
    let (net, _) = tick(&system, &mut cs, 1_000_015, &registry);
    let messages = net.get_messages();
    assert_eq!(messages.len(), 1);
    assert_eq!(messages[0].addr, Endpoint::v4(111, 111, 111, 111, 9999));
    assert_eq!(ammo_of(&messages[0].payload), Some(6));
    assert_eq!(cs[0].holster.active_gun().bullets_left_in_magazine, 6);
    assert_eq!(cs[0].holster.active_gun().reload_started_at, None);
}

#[test]
fn select_precedence() {
    let input = Input { flags: SELECT2 | SELECT3, cursor_x: 0, cursor_y: 0 };
    assert_eq!(input.get_selection(), Some(SELECT2));
    assert_eq!(input.selected_slot(), Some(1));
    let all = Input { flags: SELECT4 | SELECT3 | SELECT1, cursor_x: 0, cursor_y: 0 };
    assert_eq!(all.get_selection(), Some(SELECT1));
    assert_eq!(all.selected_slot(), Some(0));
}

#[test]
fn fourth_select_maps_to_no_slot() {
    let input = Input { flags: SELECT4 | RUN, cursor_x: 0, cursor_y: 0 };
    assert_eq!(input.get_selection(), Some(SELECT4));
    assert_eq!(input.selected_slot(), None);
    let none = Input { flags: SHOOT, cursor_x: 0, cursor_y: 0 };
    assert_eq!(none.get_selection(), None);
}

#[test]
fn simultaneous_selects_switch_to_second() {
    let registry = three_clients();
    let system = ShooterSystem::new(MAX_LIFESPAN);
    let mut cs = vec![combatant(SELECT2 | SELECT3, Some(ClientId { id: 0 }))];
    let (net, _) = tick(&system, &mut cs, 1_000, &registry);
    assert_eq!(cs[0].holster.active_slot(), 1);
    assert_eq!(net.get_messages().len(), 1);
    match &net.get_messages()[0].payload {
        PacketType::PlayerUpdate(PlayerUpdate::WeaponSwitch { name, magazine_size, ammo_in_magazine }) => {
            assert_eq!(name, "Weapon2");
            assert_eq!(*magazine_size, 6);
            assert_eq!(*ammo_in_magazine, 6);
        }
        _ => panic!("Unexpected message"),
    }
}

#[test]
fn selecting_active_slot_sends_nothing() {
    let mut h = holster_of(gun());
    assert_eq!(h.switch(0), None);
    assert_eq!(h.switch(3), None);
    assert_eq!(h.switch(2), Some("Weapon3".to_string()));
    assert_eq!(h.active_slot(), 2);
    assert_eq!(h.active_name(), "Weapon3");
    assert_eq!(h.slot_count(), 3);
}

#[test]
fn input_default_is_idle() {
    let input = Input::default();
    assert_eq!(input.flags, NOP);
    assert_eq!((input.cursor_x, input.cursor_y), (0, 0));
    assert!(!input.intersects(SHOOT));
}

#[test]
fn lifespan_is_capped() {
    let w = Weapon::new(gun());
    assert_eq!(w.bullet_lifespan(MAX_LIFESPAN), 600_000);
    assert_eq!(w.bullet_lifespan(250_000), 250_000);
}

#[test]
fn diagonal_facing_scales_toward_zero() {
    let registry = ClientRegistry::new(1);
    let system = ShooterSystem::new(MAX_LIFESPAN);
    let mut c = combatant(SHOOT, None);
    c.transform = Transform { x: 10_000, y: -5_000, facing_x: -707_107, facing_y: 707_107 };
    let mut cs = vec![c];
    let (_, spawns) = tick(&system, &mut cs, 1, &registry);
    assert_eq!(spawns[0].position, Vector2 { x: 10_707, y: -5_707 });
    assert_eq!(spawns[0].velocity, Vector2 { x: 8_838, y: -8_838 });
}

#[test]
fn bots_receive_nothing_but_still_broadcast() {
    let registry = three_clients();
    let system = ShooterSystem::new(MAX_LIFESPAN);
    let mut cs = vec![combatant(SHOOT, None), combatant(SELECT3, None)];
    let (net, spawns) = tick(&system, &mut cs, 1, &registry);
    assert_eq!(spawns.len(), 1);
    assert_eq!(net.get_messages().len(), 3);
    assert_eq!(cs[1].holster.active_slot(), 2);
}

#[test]
fn registry_refuses_when_full() {
    let mut registry = ClientRegistry::new(1);
    assert_eq!(registry.add(Endpoint::v4(1, 2, 3, 4, 5), "a".to_string()), Ok(ClientId { id: 0 }));
    assert_eq!(registry.add(Endpoint::v4(1, 2, 3, 5, 5), "b".to_string()), Err(RegistryError::Full));
    assert_eq!(registry.client_count(), 1);
    assert_eq!(registry.find_client(ClientId { id: 0 }).unwrap().name, "a");
    assert!(registry.find_client(ClientId { id: 1 }).is_none());
}

#[test]
fn take_messages_empties_queue() {
    let mut net = TransportResource::new();
    net.send_to(Endpoint::v4(1, 1, 1, 1, 1), PacketType::ShotEvent(expected_shot()), StreamId::ShotEvent);
    let taken = net.take_messages();
    assert_eq!(taken.len(), 1);
    assert_eq!(net.get_messages().len(), 0);
}
