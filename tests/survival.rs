use wizard_wars::item::Equipment;
use wizard_wars::survival::{
    KeyAction, KeyboardKey, MobSpawner, MouseButton, MouseEvent, Survival, SurvivalMap,
    SPAWN_INTERVAL,
};
use wizard_wars::world::{Basis, Node, NodeParent, Vec3, World};

struct FixedMap {
    spawns: u32,
}

impl SurvivalMap for FixedMap {
    fn get_mob_spawn_point(&mut self) -> Vec3 {
        self.spawns += 1;
        Vec3::new(5000 * self.spawns as i64, 10_000, 0)
    }

    fn get_player_spawn_point(&mut self) -> Vec3 {
        Vec3::new(0, 10_000, 0)
    }

    fn process(&mut self, _world: &mut World) {}
}

fn start() -> (World, Survival<FixedMap>) {
    let mut world = World::new();
    let scene = world.add_scene();
    let gun = world.insert(Node::new());
    let blade = world.insert(Node::new());
    let s = Survival::new(&mut world, scene, FixedMap { spawns: 0 }, gun, blade);
    (world, s)
}

#[test]
fn a_match_starts_armed_at_wave_zero() {
    let (world, s) = start();
    assert_eq!(s.wave, 0);
    assert_eq!(s.max_enemies, 10);
    assert_eq!(s.enemies_spawned, 0);
    assert!(s.enemies.is_empty());
    assert_eq!(s.player.inventory.items.len(), 2);
    assert!(matches!(s.player.inventory.items[0], Equipment::Firearm(_)));
    assert!(matches!(s.player.inventory.items[1], Equipment::Melee(_)));
    let body = world.get(s.player.node_id).unwrap();
    assert_eq!(body.translation, Vec3::new(0, 1000, 0));
    assert_eq!(body.physics.mass, 100_000);
}

#[test]
fn spawns_wait_for_the_interval() {
    let (mut world, mut s) = start();
    assert_eq!(s.on_process(&mut world, 1_000_000), None);
    assert_eq!(s.since_last_spawn, 1_000_000);
    let id = s.on_process(&mut world, 1_000_000).unwrap();
    assert_eq!(s.enemies_spawned, 1);
    assert_eq!(s.enemies.len(), 1);
    assert_eq!(s.since_last_spawn, 0);
    let body = world.get(id).unwrap();
    assert_eq!(body.translation, Vec3::new(5000, 10_000, 0));
    assert_eq!(body.parent, NodeParent::Scene(s.main_scene_id));
    assert_eq!(s.on_process(&mut world, 1_999_999), None);
    assert!(s.on_process(&mut world, 1).is_some());
}

#[test]
fn wave_transition_after_all_are_dead() {
    let (mut world, mut s) = start();
    s.max_enemies = 5;
    s.wave = 3;
    for _ in 0..5 {
        assert!(s.on_process(&mut world, 2_000_000).is_some());
    }
    assert_eq!(s.enemies_spawned, 5);
    assert_eq!(s.on_process(&mut world, 2_000_000), None);
    assert_eq!(s.wave, 3);
    for npc in s.enemies.iter_mut() {
        npc.player.death = true;
    }
    assert_eq!(s.on_process(&mut world, 16_000), None);
    assert_eq!(s.wave, 4);
    assert_eq!(s.enemies_spawned, 0);
    assert_eq!(s.max_enemies, 10);
    assert_eq!(s.enemies.len(), 5);
}

#[test]
fn no_new_wave_while_one_lives() {
    let (mut world, mut s) = start();
    s.max_enemies = 2;
    s.on_process(&mut world, 2_000_000);
    s.on_process(&mut world, 2_000_000);
    s.enemies[0].player.death = true;
    s.on_process(&mut world, SPAWN_INTERVAL as u32);
    assert_eq!(s.wave, 0);
    assert_eq!(s.enemies_spawned, 2);
}

#[test]
fn keys_steer_the_player() {
    let (mut world, mut s) = start();
    s.on_keyboard_input(KeyboardKey::W, KeyAction::Pressed, &mut world);
    s.on_keyboard_input(KeyboardKey::D, KeyAction::Pressed, &mut world);
    assert!(s.player.movdir.forward && s.player.movdir.right);
    s.on_keyboard_input(KeyboardKey::W, KeyAction::Released, &mut world);
    assert!(!s.player.movdir.forward);
    s.on_keyboard_input(KeyboardKey::ShiftLeft, KeyAction::Pressed, &mut world);
    assert!(s.player.sprinting);
    s.on_keyboard_input(KeyboardKey::ShiftLeft, KeyAction::Released, &mut world);
    assert!(!s.player.sprinting);
    s.on_keyboard_input(KeyboardKey::Digit2, KeyAction::Pressed, &mut world);
    assert_eq!(s.player.inventory.active, Some(1));
    s.on_keyboard_input(KeyboardKey::Digit6, KeyAction::Pressed, &mut world);
    assert_eq!(s.player.inventory.active, Some(1));
    s.on_keyboard_input(KeyboardKey::Space, KeyAction::Pressed, &mut world);
    assert_eq!(world.get(s.player.node_id).unwrap().physics.velocity.y, 10_000);
}

#[test]
fn mouse_buttons_drive_the_active_item() {
    let (mut world, mut s) = start();
    s.on_keyboard_input(KeyboardKey::Digit1, KeyAction::Pressed, &mut world);
    s.on_mouse_input(MouseEvent::Pressed { button: MouseButton::Left }, &mut world);
    match s.player.inventory.items[0] {
        Equipment::Firearm(f) => assert!(f.shooting),
        _ => panic!("slot one holds the firearm"),
    }
    s.on_mouse_input(MouseEvent::Moved { dx: 4, dy: -2 }, &mut world);
    let before = world.nodes.len();
    s.on_process(&mut world, 100_000);
    assert_eq!(world.nodes.len(), before + 1);
    s.on_mouse_input(MouseEvent::Released { button: MouseButton::Left }, &mut world);
    match s.player.inventory.items[0] {
        Equipment::Firearm(f) => assert!(!f.shooting),
        _ => panic!("slot one holds the firearm"),
    }
}

#[test]
fn spawner_hangs_the_model_under_the_body() {
    let mut world = World::new();
    let scene = world.add_scene();
    let model = world.insert(Node::new());
    let mut spawner = MobSpawner::new(scene);
    let npc = spawner.spawn(&mut world, Vec3::new(1, 2, 3), Some(model));
    assert_eq!(world.get(model).unwrap().parent, NodeParent::Node(npc.player.node_id));
    let body = world.get(npc.player.node_id).unwrap();
    assert_eq!(body.physics.mass, 10_000);
    assert_eq!(body.translation, Vec3::new(1, 2, 3));
    assert!(npc.player.inventory.items.is_empty());
}

#[test]
fn dead_enemies_can_be_taken_out() {
    let (mut world, mut s) = start();
    for _ in 0..3 {
        s.on_process(&mut world, 2_000_000);
    }
    let bodies: Vec<_> = s.enemies.iter().map(|n| n.player.node_id).collect();
    s.enemies[0].player.death = true;
    s.enemies[2].player.death = true;
    s.remove_dead(&mut world);
    assert_eq!(s.enemies.len(), 1);
    assert_eq!(s.enemies[0].player.node_id, bodies[1]);
    assert!(!world.contains(bodies[0]));
    assert!(world.contains(bodies[1]));
    assert!(!world.contains(bodies[2]));
    assert_eq!(s.enemies_spawned, 3);
}

#[test]
fn mouse_movement_turns_the_view() {
    let (mut world, mut s) = start();
    s.on_mouse_input(MouseEvent::Moved { dx: 4, dy: -2 }, &mut world);
    assert_eq!(s.player.yaw, 8);
    assert_eq!(s.player.pitch, -4);
    s.on_mouse_input(MouseEvent::Moved { dx: -10, dy: 10_000 }, &mut world);
    assert_eq!(s.player.yaw, 6271);
    assert_eq!(s.player.pitch, 1500);
    s.on_mouse_input(MouseEvent::Moved { dx: 3142, dy: -20_000 }, &mut world);
    assert_eq!(s.player.yaw, (6271 + 6284) % 6283);
    assert_eq!(s.player.pitch, -1500);
}

#[test]
fn turning_sets_the_body_rotation() {
    let (mut world, mut s) = start();
    let facing = Basis {
        right: Vec3::new(0, 0, -1_000_000),
        up: Vec3::new(0, 1_000_000, 0),
        forward: Vec3::new(1_000_000, 0, 0),
    };
    s.turn_player(&mut world, facing);
    assert_eq!(world.get(s.player.node_id).unwrap().rotation, facing);
    s.on_keyboard_input(KeyboardKey::W, KeyAction::Pressed, &mut world);
    s.on_process(&mut world, 16_000);
    assert_eq!(world.get(s.player.node_id).unwrap().physics.force, Vec3::new(1_600_000, 0, 0));
}

#[test]
fn a_frame_without_spawn_adds_no_actor() {
    let (mut world, mut s) = start();
    let before = world.nodes.len();
    assert_eq!(s.on_process(&mut world, 16_000), None);
    assert_eq!(world.nodes.len(), before);
    assert!(s.enemies.is_empty());
}
