use wizard_wars::world::{
    get_root_node, isqrt, load_model, rotate, Basis, LoadError, Node, NodeId, NodeParent, SceneId, Vec3, World,
};

fn node_under(parent: NodeParent) -> Node {
    let mut n = Node::new();
    n.parent = parent;
    n
}

#[test]
fn root_of_walks_to_the_top() {
    let mut world = World::new();
    let scene = world.add_scene();
    let a = world.insert(node_under(NodeParent::Scene(scene)));
    let b = world.insert(node_under(NodeParent::Node(a)));
    let c = world.insert(node_under(NodeParent::Node(b)));
    assert_eq!(get_root_node(&world, c), a);
    assert_eq!(get_root_node(&world, a), a);
    let lone = world.insert(Node::new());
    assert_eq!(get_root_node(&world, lone), lone);
}

#[test]
fn root_of_stops_at_a_missing_parent() {
    let mut world = World::new();
    let a = world.insert(Node::new());
    let b = world.insert(node_under(NodeParent::Node(a)));
    let c = world.insert(node_under(NodeParent::Node(b)));
    world.remove(a);
    assert_eq!(get_root_node(&world, c), b);
    let dangling = NodeId { index: 99 };
    assert_eq!(get_root_node(&world, dangling), dangling);
}

#[test]
fn root_of_ends_on_a_cycle() {
    let mut world = World::new();
    let a = world.insert(Node::new());
    let b = world.insert(node_under(NodeParent::Node(a)));
    world.set_parent(a, NodeParent::Node(b));
    let r = get_root_node(&world, a);
    assert!(r == a || r == b);
}

#[test]
fn load_model_gathers_the_loaded_scene() {
    let mut world = World::new();
    let main = world.add_scene();
    let loaded = world.add_scene();
    let keep = world.insert(node_under(NodeParent::Scene(main)));
    let top1 = world.insert(node_under(NodeParent::Scene(loaded)));
    let top2 = world.insert(node_under(NodeParent::Scene(loaded)));
    let inner = world.insert(node_under(NodeParent::Node(top1)));
    let anchor = load_model(&mut world, Some(loaded)).unwrap();
    assert_eq!(anchor, NodeId { index: 4 });
    assert_eq!(world.get(anchor).unwrap().parent, NodeParent::Orphan);
    assert_eq!(world.get(top1).unwrap().parent, NodeParent::Node(anchor));
    assert_eq!(world.get(top2).unwrap().parent, NodeParent::Node(anchor));
    assert_eq!(world.get(inner).unwrap().parent, NodeParent::Node(top1));
    assert_eq!(world.get(keep).unwrap().parent, NodeParent::Scene(main));
    assert_eq!(get_root_node(&world, inner), anchor);
}

#[test]
fn load_model_without_a_scene_fails() {
    let mut world = World::new();
    let before = world.nodes.len();
    assert_eq!(load_model(&mut world, None), Err(LoadError::NoScene));
    assert_eq!(world.nodes.len(), before);
}

#[test]
fn set_parent_on_a_missing_node_is_a_miss() {
    let mut world = World::new();
    let a = world.insert(Node::new());
    world.remove(a);
    world.set_parent(a, NodeParent::Scene(SceneId { index: 0 }));
    assert!(!world.contains(a));
    assert_eq!(world.get(a), None);
}

#[test]
fn square_roots_round_down() {
    assert_eq!(isqrt(0), 0);
    assert_eq!(isqrt(1), 1);
    assert_eq!(isqrt(15), 3);
    assert_eq!(isqrt(16), 4);
    assert_eq!(isqrt(u64::MAX), 4294967295);
}

#[test]
fn rotate_by_quarter_turn() {
    let b = Basis {
        right: Vec3::new(0, 0, -1_000_000),
        up: Vec3::new(0, 1_000_000, 0),
        forward: Vec3::new(1_000_000, 0, 0),
    };
    assert_eq!(rotate(&b, &Vec3::new(0, 0, 3000)), Vec3::new(3000, 0, 0));
    assert_eq!(rotate(&b, &Vec3::new(-2000, 5, 0)), Vec3::new(0, 5, 2000));
    assert_eq!(rotate(&Basis::identity(), &Vec3::new(7, -8, 9)), Vec3::new(7, -8, 9));
}
