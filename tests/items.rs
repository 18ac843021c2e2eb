use wizard_wars::item::{Action, Equipment, Firearm, Item, Melee, FIRE_INTERVAL};
use wizard_wars::world::{Node, NodeId, NodeParent, SceneId, Vec3, World};

fn setup() -> (World, SceneId, NodeId, NodeId, NodeId) {
    let mut world = World::new();
    let scene = world.add_scene();
    let mut body = Node::new();
    body.parent = NodeParent::Scene(scene);
    body.translation = Vec3::new(0, 1000, 0);
    let holder = world.insert(body);
    let gun = world.insert(Node::new());
    let blade = world.insert(Node::new());
    (world, scene, holder, gun, blade)
}

#[test]
fn firearm_is_posed_and_idle() {
    let (mut world, scene, _holder, gun, _blade) = setup();
    let f = Firearm::new(&mut world, gun, scene);
    assert!(!f.shooting);
    assert_eq!(f.since_last_shot, 0);
    assert_eq!(world.cube_meshes, vec![300]);
    let n = world.get(gun).unwrap();
    assert_eq!(n.translation, Vec3::new(300, -1000, 1000));
    assert_eq!(n.scale, Vec3::new(60000, 60000, 60000));
    assert_eq!(n.rotation.forward, Vec3::new(-1_000_000, 0, 0));
}

#[test]
fn start_primary_twice_is_start_once() {
    let (mut world, scene, _holder, gun, blade) = setup();
    let mut f = Firearm::new(&mut world, gun, scene);
    f.act(Action::StartPrimary);
    let once = f;
    f.act(Action::StartPrimary);
    assert_eq!(f, once);
    assert!(f.shooting);
    let mut m = Melee::new(&mut world, blade);
    m.act(Action::StartPrimary);
    let once = m;
    m.act(Action::StartPrimary);
    assert_eq!(m, once);
    assert!(m.attacking);
    f.act(Action::StopPrimary);
    assert!(!f.shooting);
}

#[test]
fn fire_rate_catches_up_across_frames() {
    let (mut world, scene, holder, gun, _blade) = setup();
    let mut f = Firearm::new(&mut world, gun, scene);
    f.activate(&mut world, holder);
    f.act(Action::StartPrimary);
    let before = world.nodes.len();
    f.process(&mut world, 150_000);
    assert_eq!(world.nodes.len(), before + 1);
    f.process(&mut world, 150_000);
    assert_eq!(world.nodes.len(), before + 3);
    assert_eq!(f.since_last_shot, 0);
}

#[test]
fn no_shot_before_the_interval_nor_without_trigger() {
    let (mut world, scene, holder, gun, _blade) = setup();
    let mut f = Firearm::new(&mut world, gun, scene);
    f.activate(&mut world, holder);
    let before = world.nodes.len();
    f.process(&mut world, 500_000);
    assert_eq!(world.nodes.len(), before);
    assert_eq!(f.since_last_shot, 0);
    f.act(Action::StartPrimary);
    f.process(&mut world, (FIRE_INTERVAL - 1) as u32);
    assert_eq!(world.nodes.len(), before);
    f.process(&mut world, 1);
    assert_eq!(world.nodes.len(), before + 1);
}

#[test]
fn a_shot_leaves_the_holder_and_recoils_it() {
    let (mut world, scene, holder, gun, _blade) = setup();
    let mut f = Firearm::new(&mut world, gun, scene);
    f.activate(&mut world, holder);
    f.act(Action::StartPrimary);
    f.process(&mut world, 100_000);
    let bullet = world.nodes.last().unwrap().unwrap();
    assert_eq!(bullet.parent, NodeParent::Scene(scene));
    assert_eq!(bullet.translation, Vec3::new(-104, 1000, 2998));
    assert_eq!(bullet.physics.velocity, Vec3::new(-3489, 0, 99939));
    let body = world.get(holder).unwrap();
    assert_eq!(body.rotation.forward, Vec3::new(-34899, 0, 999391));
    assert_eq!(body.rotation.right, Vec3::new(999391, 0, 34899));
    assert_eq!(body.rotation.up, Vec3::new(0, 1_000_000, 0));
}

#[test]
fn holster_then_activate_is_activate() {
    let (mut world, scene, holder, gun, _blade) = setup();
    let mut direct = World::new();
    let s2 = direct.add_scene();
    let mut body = Node::new();
    body.parent = NodeParent::Scene(s2);
    body.translation = Vec3::new(0, 1000, 0);
    direct.insert(body);
    direct.insert(Node::new());
    direct.insert(Node::new());
    let mut f = Equipment::Firearm(Firearm::new(&mut world, gun, scene));
    let mut g = Equipment::Firearm(Firearm::new(&mut direct, gun, s2));
    f.holster(&mut world);
    assert_eq!(world.get(gun).unwrap().parent, NodeParent::Orphan);
    f.activate(&mut world, holder);
    g.activate(&mut direct, holder);
    assert_eq!(world.get(gun).unwrap().parent, NodeParent::Node(holder));
    assert_eq!(world.nodes, direct.nodes);
}

#[test]
fn melee_turns_toward_its_target() {
    let (mut world, _scene, _holder, _gun, blade) = setup();
    let mut m = Melee::new(&mut world, blade);
    assert_eq!(world.get(blade).unwrap().translation, Vec3::new(300, -1000, 3000));
    m.act(Action::StartPrimary);
    m.process(&mut world, 50_000);
    let half = world.get(blade).unwrap().rotation;
    assert_eq!(half.up, Vec3::new(0, 0, 0));
    assert_eq!(half.forward, Vec3::new(0, 0, 0));
    m.process(&mut world, 100_000);
    let full = world.get(blade).unwrap().rotation;
    assert_eq!(full, m.target);
    m.act(Action::StopPrimary);
    assert!(!m.attacking);
    m.process(&mut world, 1_000_000);
    assert_eq!(world.get(blade).unwrap().rotation.forward, Vec3::new(1_000_000, 0, 0));
}

#[test]
fn melee_pose_keeps_unit_axes() {
    let (mut world, _scene, _holder, _gun, blade) = setup();
    let mut m = Melee::new(&mut world, blade);
    m.act(Action::StopPrimary);
    m.process(&mut world, 30_000);
    let pose = world.get(blade).unwrap().rotation;
    for axis in [pose.right, pose.forward] {
        let len2 = axis.x * axis.x + axis.y * axis.y + axis.z * axis.z;
        assert!((len2 - 1_000_000_000_000).abs() <= 8_000_000, "{:?}", axis);
    }
}
