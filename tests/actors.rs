use wizard_wars::inventory::Inventory;
use wizard_wars::item::{Action, Equipment, Firearm, Melee};
use wizard_wars::npc::Npc;
use wizard_wars::player::{move_body, MoveDirection, Player, PlayerBuilder, SPEED_CAP};
use wizard_wars::world::{Node, NodeId, NodeParent, SceneId, Vec3, World};

fn armed(world: &mut World) -> (SceneId, Player, NodeId, NodeId) {
    let scene = world.add_scene();
    let gun = world.insert(Node::new());
    let blade = world.insert(Node::new());
    let f = Firearm::new(world, gun, scene);
    let m = Melee::new(world, blade);
    let mut player = PlayerBuilder::new(scene).build(world);
    player.inventory.add_item(Equipment::Firearm(f));
    player.inventory.add_item(Equipment::Melee(m));
    (scene, player, gun, blade)
}

#[test]
fn equip_keeps_one_item_in_hand() {
    let mut world = World::new();
    let (_scene, mut player, gun, blade) = armed(&mut world);
    let body = player.node_id;
    assert_eq!(player.inventory.active, None);
    player.equip(0, &mut world);
    assert_eq!(player.inventory.active, Some(0));
    assert_eq!(world.get(gun).unwrap().parent, NodeParent::Node(body));
    player.equip(1, &mut world);
    assert_eq!(player.inventory.active, Some(1));
    assert_eq!(world.get(gun).unwrap().parent, NodeParent::Orphan);
    assert_eq!(world.get(blade).unwrap().parent, NodeParent::Node(body));
    player.equip(1, &mut world);
    assert_eq!(player.inventory.active, Some(1));
    assert_eq!(world.get(blade).unwrap().parent, NodeParent::Node(body));
    player.switch_item(&mut world, 0);
    assert_eq!(world.get(gun).unwrap().parent, NodeParent::Node(body));
    assert_eq!(world.get(blade).unwrap().parent, NodeParent::Orphan);
}

#[test]
fn equip_out_of_range_changes_nothing() {
    let mut world = World::new();
    let (_scene, mut player, gun, blade) = armed(&mut world);
    player.equip(0, &mut world);
    let nodes = world.nodes.clone();
    player.equip(99, &mut world);
    assert_eq!(player.inventory.active, Some(0));
    assert_eq!(world.nodes, nodes);
    assert_eq!(world.get(gun).unwrap().parent, NodeParent::Node(player.node_id));
    assert_eq!(world.get(blade).unwrap().parent, NodeParent::Orphan);
}

#[test]
fn actions_with_bare_hands_do_nothing() {
    let mut world = World::new();
    let (_scene, mut player, _gun, _blade) = armed(&mut world);
    let items = player.inventory.items.clone();
    player.start_primary_action();
    assert_eq!(player.inventory.items, items);
    assert!(player.inventory.get_current_item().is_none());
}

#[test]
fn actions_reach_only_the_active_item() {
    let mut world = World::new();
    let (_scene, mut player, _gun, _blade) = armed(&mut world);
    player.equip(1, &mut world);
    player.start_primary_action();
    match player.inventory.items[1] {
        Equipment::Melee(m) => assert!(m.attacking),
        _ => panic!("slot two holds the melee weapon"),
    }
    match player.inventory.items[0] {
        Equipment::Firearm(f) => assert!(!f.shooting),
        _ => panic!("slot one holds the firearm"),
    }
    assert!(matches!(player.inventory.get_current_item(), Some(Equipment::Melee(_))));
    player.stop_primary_action();
    player.start_secondary_action();
    player.stop_secondary_action();
    player.start_third_action();
    player.stop_third_action();
    match player.inventory.items[1] {
        Equipment::Melee(m) => assert!(!m.attacking),
        _ => panic!("slot two holds the melee weapon"),
    }
}

#[test]
fn inventory_process_ticks_every_item() {
    let mut world = World::new();
    let scene = world.add_scene();
    let holder = world.insert(Node::new());
    let gun = world.insert(Node::new());
    let mut f = Firearm::new(&mut world, gun, scene);
    f.shooting = true;
    let mut inv = Inventory::new(2);
    inv.add_item(Equipment::Firearm(f));
    inv.equip(0, &mut world, holder);
    inv.act(Action::StopPrimary);
    inv.add_item(Equipment::Firearm(Firearm { shooting: true, ..f }));
    let before = world.nodes.len();
    inv.process(&mut world, 250_000);
    assert_eq!(world.nodes.len(), before + 2);
    match inv.items[1] {
        Equipment::Firearm(g) => assert_eq!(g.since_last_shot, 50_000),
        _ => panic!("slot two holds a firearm"),
    }
}

#[test]
fn builder_defaults_and_settings() {
    let mut world = World::new();
    let scene = world.add_scene();
    let b = PlayerBuilder::new(scene);
    assert_eq!(b.inventory_size, 10);
    assert_eq!(b.mass, 45000);
    let p = b.team(2).mana(50).health(70).mass(30000).inventory_size(3).translation(Vec3::new(1, 2, 3)).build(&mut world);
    assert_eq!(p.team, 2);
    assert_eq!(p.mana, 50);
    assert_eq!(p.health, 70);
    let body = world.get(p.node_id).unwrap();
    assert_eq!(body.physics.mass, 30000);
    assert_eq!(body.translation, Vec3::new(1, 2, 3));
    assert_eq!(body.parent, NodeParent::Scene(scene));
    assert!(!p.death && !p.sprinting);
}

fn body_with(velocity: Vec3) -> Node {
    let mut n = Node::new();
    n.physics.velocity = velocity;
    n
}

#[test]
fn intent_vectors() {
    let mut m = MoveDirection::new();
    assert!(!m.is_moving());
    assert_eq!(m.to_vec3(), Vec3::new(0, 0, 0));
    m.forward = true;
    assert_eq!(m.to_vec3(), Vec3::new(0, 0, 1000));
    m.right = true;
    assert_eq!(m.to_vec3(), Vec3::new(707, 0, 707));
    m.backward = true;
    assert_eq!(m.to_vec3(), Vec3::new(1000, 0, 0));
    m.left = true;
    assert!(m.is_moving());
    assert_eq!(m.to_vec3(), Vec3::new(0, 0, 0));
}

#[test]
fn force_rule_cases() {
    let mut m = MoveDirection::new();
    m.forward = true;
    let still = move_body(&body_with(Vec3::new(0, 0, 0)), &m, false);
    assert_eq!(still.physics.force, Vec3::new(0, 0, 1_600_000));
    let fast = move_body(&body_with(Vec3::new(0, 0, 30_000)), &m, false);
    assert_eq!(fast.physics.force, Vec3::new(0, 0, 1000));
    let backwards = move_body(&body_with(Vec3::new(0, 5000, -2000)), &m, false);
    assert_eq!(backwards.physics.force, Vec3::new(0, 0, 1000 + 2000 * 1600));
    let idle = move_body(&body_with(Vec3::new(3, 7, -4)), &MoveDirection::new(), false);
    assert_eq!(idle.physics.force, Vec3::new(-4800, 0, 6400));
    let dash = move_body(&body_with(Vec3::new(3, 7, -4)), &MoveDirection::new(), true);
    assert_eq!(dash.physics.velocity, Vec3::new(0, 0, 100_000));
}

#[test]
fn speed_settles_at_the_cap() {
    let mut m = MoveDirection::new();
    m.forward = true;
    let mass: i64 = 45_000;
    let dt_us: i64 = 16_667;
    let mut body = body_with(Vec3::new(0, 0, 0));
    let mut largest = 0;
    let mut step_gain = 0;
    for _ in 0..2000 {
        body = move_body(&body, &m, false);
        let accel = body.physics.force.z * 1000 / mass;
        let gain = accel * dt_us / 1_000_000;
        step_gain = step_gain.max(gain);
        body.physics.velocity.z += gain;
        largest = largest.max(body.physics.velocity.z);
    }
    assert!(body.physics.velocity.z >= SPEED_CAP);
    assert!(largest <= SPEED_CAP + step_gain);
    assert_eq!(body.physics.force.y, 0);
}

#[test]
fn jump_sets_vertical_speed() {
    let mut world = World::new();
    let (_scene, mut player, _gun, _blade) = armed(&mut world);
    player.jump(&mut world);
    assert_eq!(world.get(player.node_id).unwrap().physics.velocity.y, 10_000);
}

#[test]
fn posture_flags() {
    let mut world = World::new();
    let (_scene, mut player, _gun, _blade) = armed(&mut world);
    player.start_sprinting();
    player.start_crouching();
    player.start_prone();
    assert!(player.sprinting && player.crouching && player.prone);
    player.stop_sprinting();
    player.stop_crouching();
    player.stop_prone();
    assert!(!player.sprinting && !player.crouching && !player.prone);
    player.drop(&mut world);
    assert_eq!(player.inventory.items.len(), 2);
}

#[test]
fn npc_chases_its_target() {
    let mut world = World::new();
    let scene = world.add_scene();
    let mut target_body = Node::new();
    target_body.translation = Vec3::new(10_000, 0, 0);
    let target = Player::new(world.insert(target_body), Inventory::new(0));
    let me = Player::new(world.insert(Node::new()), Inventory::new(0));
    let mut npc = Npc::new(me);
    npc.process(&mut world, &target, 16_000);
    let body = world.get(npc.player.node_id).unwrap();
    assert_eq!(body.translation, Vec3::new(100, 0, 0));
    assert_eq!(body.rotation.forward, Vec3::new(1_000_000, 0, 0));
    assert_eq!(body.rotation.right, Vec3::new(0, 0, -1_000_000));
    assert_eq!(body.rotation.up, Vec3::new(0, 1_000_000, 0));
    assert_eq!(body.physics.force, Vec3::new(0, 0, 0));
    let _ = scene;
}

#[test]
fn npc_at_its_target_stays() {
    let mut world = World::new();
    let target = Player::new(world.insert(Node::new()), Inventory::new(0));
    let mut npc = Npc::new(Player::new(world.insert(Node::new()), Inventory::new(0)));
    npc.process(&mut world, &target, 16_000);
    assert_eq!(world.get(npc.player.node_id).unwrap(), Node::new());
    let missing = Player::new(NodeId { index: 50 }, Inventory::new(0));
    npc.process(&mut world, &missing, 16_000);
    assert_eq!(world.get(npc.player.node_id).unwrap(), Node::new());
}
