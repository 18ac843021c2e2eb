use vstd::prelude::*;

verus! {

/// Fixed-point scale of positions, velocities and forces: one world unit.
pub const MILLI: i64 = 1000;

/// Fixed-point scale of the vectors of a rotation basis: a unit vector has length `UNIT`.
pub const UNIT: i64 = 1000000;

/// Largest magnitude of a coordinate of a stored translation or velocity.
pub const COORD_MAX: i64 = 1000000000;

/// Division that rounds toward zero, as integer division does on machine integers.
pub open spec fn div_trunc(a: int, d: int) -> int {
    if a >= 0 {
        a / d
    } else {
        -((-a) / d)
    }
}

/// `x` brought into the coordinate range.
pub open spec fn clamp_coord(x: int) -> int {
    if x > COORD_MAX {
        COORD_MAX as int
    } else if x < -COORD_MAX {
        -COORD_MAX
    } else {
        x
    }
}

/// Handle of a node in the world's arena.
#[derive(Clone, Copy, Debug, PartialEq, Eq, Structural)]
pub struct NodeId {
    pub index: usize,
}

/// Handle of a scene.
#[derive(Clone, Copy, Debug, PartialEq, Eq, Structural)]
pub struct SceneId {
    pub index: usize,
}

/// Handle of a mesh.
#[derive(Clone, Copy, Debug, PartialEq, Eq, Structural)]
pub struct MeshId {
    pub index: usize,
}

/// Where a node hangs in the display hierarchy.
#[derive(Clone, Copy, Debug, PartialEq, Eq, Structural)]
pub enum NodeParent {
    /// Detached: neither drawn nor simulated.
    Orphan,
    Node(NodeId),
    Scene(SceneId),
}

/// A vector in fixed point: thousandths of a world unit.
#[derive(Clone, Copy, Debug, PartialEq, Eq, Structural)]
pub struct Vec3 {
    pub x: i64,
    pub y: i64,
    pub z: i64,
}

impl Vec3 {
    pub open spec fn wf(&self) -> bool {
        -COORD_MAX <= self.x <= COORD_MAX && -COORD_MAX <= self.y <= COORD_MAX && -COORD_MAX
            <= self.z <= COORD_MAX
    }

    /// The length squared, in squared thousandths.
    pub open spec fn len2(&self) -> int {
        self.x * self.x + self.y * self.y + self.z * self.z
    }

    pub fn new(x: i64, y: i64, z: i64) -> (r: Vec3)
        ensures
            r == (Vec3 { x, y, z }),
    {
        Vec3 { x, y, z }
    }

    pub fn zero() -> (r: Vec3)
        ensures
            r == (Vec3 { x: 0, y: 0, z: 0 }),
    {
        Vec3 { x: 0, y: 0, z: 0 }
    }
}

/// A rotation, as the images of the local x, y and z axes, each scaled by `UNIT`.
#[derive(Clone, Copy, Debug, PartialEq, Eq, Structural)]
pub struct Basis {
    pub right: Vec3,
    pub up: Vec3,
    pub forward: Vec3,
}

pub open spec fn unit_bounded(v: Vec3) -> bool {
    -UNIT <= v.x <= UNIT && -UNIT <= v.y <= UNIT && -UNIT <= v.z <= UNIT
}

impl Basis {
    pub open spec fn wf(&self) -> bool {
        unit_bounded(self.right) && unit_bounded(self.up) && unit_bounded(self.forward)
    }

    pub open spec fn identity_spec() -> Basis {
        Basis {
            right: Vec3 { x: UNIT, y: 0, z: 0 },
            up: Vec3 { x: 0, y: UNIT, z: 0 },
            forward: Vec3 { x: 0, y: 0, z: UNIT },
        }
    }

    pub fn identity() -> (r: Basis)
        ensures
            r == Basis::identity_spec(),
    {
        Basis {
            right: Vec3 { x: UNIT, y: 0, z: 0 },
            up: Vec3 { x: 0, y: UNIT, z: 0 },
            forward: Vec3 { x: 0, y: 0, z: UNIT },
        }
    }
}

/// First coordinate of `v` turned by `b`.
pub open spec fn rot_x(b: Basis, v: Vec3) -> int {
    div_trunc(v.x * b.right.x + v.y * b.up.x + v.z * b.forward.x, UNIT as int)
}

/// Second coordinate of `v` turned by `b`.
pub open spec fn rot_y(b: Basis, v: Vec3) -> int {
    div_trunc(v.x * b.right.y + v.y * b.up.y + v.z * b.forward.y, UNIT as int)
}

/// Third coordinate of `v` turned by `b`.
pub open spec fn rot_z(b: Basis, v: Vec3) -> int {
    div_trunc(v.x * b.right.z + v.y * b.up.z + v.z * b.forward.z, UNIT as int)
}

/// `v` turned by `b`, as a vector.
pub open spec fn rotated(b: Basis, v: Vec3) -> Vec3 {
    Vec3 { x: rot_x(b, v) as i64, y: rot_y(b, v) as i64, z: rot_z(b, v) as i64 }
}

pub proof fn lemma_mul_bound(a: int, b: int)
    requires
        -COORD_MAX <= a <= COORD_MAX,
        -UNIT <= b <= UNIT,
    ensures
        -1000000000000000 <= a * b <= 1000000000000000,
{
    assert(-1000000000000000 <= a * b <= 1000000000000000) by (nonlinear_arith)
        requires
            -1000000000 <= a <= 1000000000,
            -1000000 <= b <= 1000000,
    ;
}

fn rotate_axis(a: i64, b: i64, c: i64, ra: i64, rb: i64, rc: i64) -> (r: i64)
    requires
        -COORD_MAX <= a <= COORD_MAX,
        -COORD_MAX <= b <= COORD_MAX,
        -COORD_MAX <= c <= COORD_MAX,
        -UNIT <= ra <= UNIT,
        -UNIT <= rb <= UNIT,
        -UNIT <= rc <= UNIT,
    ensures
        r == div_trunc(a * ra + b * rb + c * rc, UNIT as int),
        -3000000000 <= r <= 3000000000,
{
    proof {
        lemma_mul_bound(a as int, ra as int);
        lemma_mul_bound(b as int, rb as int);
        lemma_mul_bound(c as int, rc as int);
    }
    let s = a * ra + b * rb + c * rc;
    if s >= 0 {
        s / UNIT
    } else {
        -((-s) / UNIT)
    }
}

/// `v` turned by the rotation `b`.
pub fn rotate(b: &Basis, v: &Vec3) -> (r: Vec3)
    requires
        b.wf(),
        v.wf(),
    ensures
        r.x == rot_x(*b, *v),
        r.y == rot_y(*b, *v),
        r.z == rot_z(*b, *v),
        r == rotated(*b, *v),
        -3000000000 <= r.x <= 3000000000,
        -3000000000 <= r.y <= 3000000000,
        -3000000000 <= r.z <= 3000000000,
{
    Vec3 {
        x: rotate_axis(v.x, v.y, v.z, b.right.x, b.up.x, b.forward.x),
        y: rotate_axis(v.x, v.y, v.z, b.right.y, b.up.y, b.forward.y),
        z: rotate_axis(v.x, v.y, v.z, b.right.z, b.up.z, b.forward.z),
    }
}

/// `x` brought into the coordinate range.
pub fn clamp(x: i64) -> (r: i64)
    ensures
        r == clamp_coord(x as int),
{
    if x > COORD_MAX {
        COORD_MAX
    } else if x < -COORD_MAX {
        -COORD_MAX
    } else {
        x
    }
}

/// `x` brought into the range of a basis coordinate.
pub open spec fn clamp_unit_spec(x: int) -> int {
    if x > UNIT {
        UNIT as int
    } else if x < -UNIT {
        -UNIT
    } else {
        x
    }
}

/// `x` brought into the range of a basis coordinate.
pub fn clamp_unit(x: i64) -> (r: i64)
    ensures
        r == clamp_unit_spec(x as int),
{
    if x > UNIT {
        UNIT
    } else if x < -UNIT {
        -UNIT
    } else {
        x
    }
}

/// Each coordinate brought into the coordinate range.
pub open spec fn clamp_vec_spec(v: Vec3) -> Vec3 {
    Vec3 {
        x: clamp_coord(v.x as int) as i64,
        y: clamp_coord(v.y as int) as i64,
        z: clamp_coord(v.z as int) as i64,
    }
}

pub fn clamp_vec(v: &Vec3) -> (r: Vec3)
    ensures
        r == clamp_vec_spec(*v),
        r.wf(),
{
    Vec3 { x: clamp(v.x), y: clamp(v.y), z: clamp(v.z) }
}

/// Componentwise sum, each coordinate brought into range.
pub open spec fn add_clamped_spec(a: Vec3, b: Vec3) -> Vec3 {
    Vec3 {
        x: clamp_coord(a.x + b.x) as i64,
        y: clamp_coord(a.y + b.y) as i64,
        z: clamp_coord(a.z + b.z) as i64,
    }
}

pub fn add_clamped(a: &Vec3, b: &Vec3) -> (r: Vec3)
    requires
        a.wf(),
        -3000000000 <= b.x <= 3000000000,
        -3000000000 <= b.y <= 3000000000,
        -3000000000 <= b.z <= 3000000000,
    ensures
        r == add_clamped_spec(*a, *b),
        r.wf(),
{
    Vec3 { x: clamp(a.x + b.x), y: clamp(a.y + b.y), z: clamp(a.z + b.z) }
}

/// `r` is the square root of `n`, rounded down.
pub open spec fn is_isqrt(n: int, r: int) -> bool {
    0 <= r && r * r <= n < (r + 1) * (r + 1)
}

/// The square root of `n`, rounded down.
pub open spec fn isqrt_spec(n: int) -> int {
    choose|r: int| is_isqrt(n, r)
}

pub proof fn lemma_isqrt_unique(n: int, a: int, b: int)
    requires
        is_isqrt(n, a),
        is_isqrt(n, b),
    ensures
        a == b,
{
    if a < b {
        assert((a + 1) * (a + 1) <= b * b) by (nonlinear_arith)
            requires
                0 <= a < b,
        ;
    } else if b < a {
        assert((b + 1) * (b + 1) <= a * a) by (nonlinear_arith)
            requires
                0 <= b < a,
        ;
    }
}

/// A coordinate whose square is at most `n` is at most its root in size.
pub proof fn lemma_isqrt_bounds(n: int, r: int, d: int)
    requires
        is_isqrt(n, r),
        d * d <= n,
    ensures
        -r <= d <= r,
{
    if d > r {
        assert((r + 1) * (r + 1) <= d * d) by (nonlinear_arith)
            requires
                0 <= r < d,
        ;
    } else if d < -r {
        assert((r + 1) * (r + 1) <= d * d) by (nonlinear_arith)
            requires
                0 <= r,
                d < -r,
        ;
    }
}

/// The square root of `n`, rounded down.
pub fn isqrt(n: u64) -> (r: u64)
    ensures
        is_isqrt(n as int, r as int),
        r == isqrt_spec(n as int),
{
    let mut lo: u64 = 0;
    let mut hi: u64 = 4294967296;
    assert(4294967296 * 4294967296 == 18446744073709551616int) by (nonlinear_arith);
    while hi - lo > 1
        invariant
            lo < hi <= 4294967296,
            lo * lo <= n,
            n < hi * hi,
        decreases hi - lo,
    {
        let mid = lo + (hi - lo) / 2;
        proof {
            assert(mid * mid <= 18446744065119617025) by (nonlinear_arith)
                requires
                    0 <= mid <= 4294967295,
            ;
        }
        if mid * mid <= n {
            lo = mid;
        } else {
            hi = mid;
        }
    }
    proof {
        assert(is_isqrt(n as int, lo as int));
        let c = choose|x: int| is_isqrt(n as int, x);
        lemma_isqrt_unique(n as int, c, lo as int);
    }
    lo
}

/// A collision volume, in thousandths of a world unit.
#[derive(Clone, Copy, Debug, PartialEq, Eq, Structural)]
pub enum CollisionShape {
    Sphere { radius: i64 },
    Capsule { radius: i64, height: i64 },
    Box { size: Vec3 },
}

/// Whether the physics step moves a node.
#[derive(Clone, Copy, Debug, PartialEq, Eq, Structural)]
pub enum PhysicsType {
    Static,
    Dynamic,
}

/// What the physics step reads and writes of a node. Mass is in thousandths.
#[derive(Clone, Copy, Debug, PartialEq, Eq, Structural)]
pub struct Physics {
    pub mass: i64,
    pub velocity: Vec3,
    pub force: Vec3,
    pub typ: PhysicsType,
}

/// A node of the scene graph.
#[derive(Clone, Copy, Debug, PartialEq, Eq, Structural)]
pub struct Node {
    pub parent: NodeParent,
    pub translation: Vec3,
    pub rotation: Basis,
    pub scale: Vec3,
    pub mesh: Option<MeshId>,
    pub collision_shape: Option<CollisionShape>,
    pub physics: Physics,
}

impl Node {
    pub open spec fn wf(&self) -> bool {
        self.translation.wf() && self.physics.velocity.wf() && self.rotation.wf()
    }

    pub open spec fn new_spec() -> Node {
        Node {
            parent: NodeParent::Orphan,
            translation: Vec3 { x: 0, y: 0, z: 0 },
            rotation: Basis::identity_spec(),
            scale: Vec3 { x: MILLI, y: MILLI, z: MILLI },
            mesh: None,
            collision_shape: None,
            physics: Physics {
                mass: 0,
                velocity: Vec3 { x: 0, y: 0, z: 0 },
                force: Vec3 { x: 0, y: 0, z: 0 },
                typ: PhysicsType::Static,
            },
        }
    }

    /// A detached node at the origin, unrotated, at scale one, without mass.
    pub fn new() -> (r: Node)
        ensures
            r == Node::new_spec(),
            r.wf(),
    {
        Node {
            parent: NodeParent::Orphan,
            translation: Vec3::zero(),
            rotation: Basis::identity(),
            scale: Vec3 { x: MILLI, y: MILLI, z: MILLI },
            mesh: None,
            collision_shape: None,
            physics: Physics {
                mass: 0,
                velocity: Vec3::zero(),
                force: Vec3::zero(),
                typ: PhysicsType::Static,
            },
        }
    }
}

/// The failure of model loading: the loader produced no scene.
#[derive(Clone, Copy, Debug, PartialEq, Eq, Structural)]
pub enum LoadError {
    NoScene,
}

/// The scene data that the gameplay logic reads and writes: an arena of nodes whose
/// handles are never reused, and counters of the scenes and meshes handed out.
pub struct World {
    pub nodes: Vec<Option<Node>>,
    pub scene_count: usize,
    pub cube_meshes: Vec<i64>,
}

/// `nodes` with the parent of node `id` set to `p`, where that node exists.
pub open spec fn with_parent(nodes: Seq<Option<Node>>, id: NodeId, p: NodeParent) -> Seq<
    Option<Node>,
> {
    if id.index < nodes.len() && nodes[id.index as int] is Some {
        nodes.update(
            id.index as int,
            Some(Node { parent: p, ..nodes[id.index as int]->Some_0 }),
        )
    } else {
        nodes
    }
}

/// The node that a walk up the parent links from `id` stops at, taking at most `fuel` steps:
/// the first node whose parent is a scene, nothing, or a node that is not there.
pub open spec fn root_spec(nodes: Seq<Option<Node>>, id: NodeId, fuel: nat) -> NodeId
    decreases fuel,
{
    if fuel == 0 || id.index >= nodes.len() || nodes[id.index as int] is None {
        id
    } else {
        match nodes[id.index as int]->Some_0.parent {
            NodeParent::Node(p) => {
                if p.index < nodes.len() && nodes[p.index as int] is Some {
                    root_spec(nodes, p, (fuel - 1) as nat)
                } else {
                    id
                }
            },
            _ => id,
        }
    }
}

/// A node as `attach_loaded_model` leaves it: moved from the top of `scene` to under `anchor`.
pub open spec fn adopted(n: Option<Node>, scene: SceneId, anchor: NodeId) -> Option<Node> {
    match n {
        Some(node) => if node.parent == NodeParent::Scene(scene) {
            Some(Node { parent: NodeParent::Node(anchor), ..node })
        } else {
            n
        },
        None => None,
    }
}

impl World {
    pub open spec fn wf(&self) -> bool {
        forall|i: int|
            0 <= i < self.nodes@.len() && (#[trigger] self.nodes@[i]) is Some ==> self.nodes@[i]->Some_0.wf()
    }

    pub open spec fn has(&self, id: NodeId) -> bool {
        id.index < self.nodes@.len() && self.nodes@[id.index as int] is Some
    }

    pub open spec fn node(&self, id: NodeId) -> Node {
        self.nodes@[id.index as int]->Some_0
    }

    pub fn new() -> (r: World)
        ensures
            r.nodes@ == Seq::<Option<Node>>::empty(),
            r.scene_count == 0,
            r.cube_meshes@ == Seq::<i64>::empty(),
            r.wf(),
    {
        World { nodes: Vec::new(), scene_count: 0, cube_meshes: Vec::new() }
    }

    pub fn add_scene(&mut self) -> (r: SceneId)
        requires
            old(self).scene_count < usize::MAX,
        ensures
            r.index == old(self).scene_count,
            final(self).scene_count == old(self).scene_count + 1,
            final(self).nodes == old(self).nodes,
            final(self).cube_meshes == old(self).cube_meshes,
    {
        let id = SceneId { index: self.scene_count };
        self.scene_count = self.scene_count + 1;
        id
    }

    /// Registers a cube mesh of edge `size` (in thousandths).
    pub fn insert_cube_mesh(&mut self, size: i64) -> (r: MeshId)
        ensures
            r.index == old(self).cube_meshes@.len(),
            final(self).cube_meshes@ == old(self).cube_meshes@.push(size),
            final(self).nodes == old(self).nodes,
            final(self).scene_count == old(self).scene_count,
    {
        let id = MeshId { index: self.cube_meshes.len() };
        self.cube_meshes.push(size);
        id
    }

    pub fn insert(&mut self, node: Node) -> (r: NodeId)
        requires
            old(self).nodes@.len() < usize::MAX,
        ensures
            r.index == old(self).nodes@.len(),
            final(self).nodes@ == old(self).nodes@.push(Some(node)),
            final(self).scene_count == old(self).scene_count,
            final(self).cube_meshes == old(self).cube_meshes,
    {
        let id = NodeId { index: self.nodes.len() };
        self.nodes.push(Some(node));
        id
    }

    /// Takes a node out of the arena; its handle then resolves to nothing.
    pub fn remove(&mut self, id: NodeId)
        ensures
            final(self).nodes@ == (if id.index < old(self).nodes@.len() {
                old(self).nodes@.update(id.index as int, None)
            } else {
                old(self).nodes@
            }),
            final(self).scene_count == old(self).scene_count,
            final(self).cube_meshes == old(self).cube_meshes,
    {
        if id.index < self.nodes.len() {
            self.nodes.set(id.index, None);
        }
    }

    pub fn contains(&self, id: NodeId) -> (r: bool)
        ensures
            r == self.has(id),
    {
        id.index < self.nodes.len() && self.nodes[id.index].is_some()
    }

    pub fn get(&self, id: NodeId) -> (r: Option<Node>)
        ensures
            r == (if self.has(id) {
                Some(self.node(id))
            } else {
                None
            }),
    {
        if id.index < self.nodes.len() {
            self.nodes[id.index]
        } else {
            None
        }
    }

    /// Replaces a node that is there; a missing handle is left alone.
    pub fn set_node(&mut self, id: NodeId, node: Node)
        ensures
            final(self).nodes@ == (if old(self).has(id) {
                old(self).nodes@.update(id.index as int, Some(node))
            } else {
                old(self).nodes@
            }),
            final(self).scene_count == old(self).scene_count,
            final(self).cube_meshes == old(self).cube_meshes,
    {
        if id.index < self.nodes.len() && self.nodes[id.index].is_some() {
            self.nodes.set(id.index, Some(node));
        }
    }

    /// Hangs a node under `parent`; a missing handle is left alone.
    pub fn set_parent(&mut self, id: NodeId, parent: NodeParent)
        requires
            old(self).wf(),
        ensures
            final(self).nodes@ == with_parent(old(self).nodes@, id, parent),
            final(self).scene_count == old(self).scene_count,
            final(self).cube_meshes == old(self).cube_meshes,
            final(self).wf(),
    {
        if id.index < self.nodes.len() {
            match self.nodes[id.index] {
                Some(node) => {
                    self.nodes.set(id.index, Some(Node { parent, ..node }));
                },
                None => {},
            }
        }
    }
}

/// The topmost ancestor of `id`: parent links are followed while they lead to a node
/// that is there, at most once per node of the arena.
pub fn get_root_node(world: &World, id: NodeId) -> (r: NodeId)
    ensures
        r == root_spec(world.nodes@, id, world.nodes@.len()),
{
    let n = world.nodes.len();
    let mut cur = id;
    let mut fuel: usize = n;
    loop
        invariant
            n == world.nodes@.len(),
            fuel <= n,
            root_spec(world.nodes@, cur, fuel as nat) == root_spec(world.nodes@, id, n as nat),
        decreases fuel,
    {
        if fuel == 0 || cur.index >= n {
            return cur;
        }
        match world.nodes[cur.index] {
            None => {
                return cur;
            },
            Some(node) => {
                match node.parent {
                    NodeParent::Node(p) => {
                        if p.index < n && world.nodes[p.index].is_some() {
                            cur = p;
                            fuel = fuel - 1;
                        } else {
                            return cur;
                        }
                    },
                    _ => {
                        return cur;
                    },
                }
            },
        }
    }
}

/// Gathers what a model loader left at the top of `loaded` under a fresh anchor node,
/// which it returns without a parent. With no scene from the loader it fails.
pub fn load_model(world: &mut World, loaded: Option<SceneId>) -> (r: Result<NodeId, LoadError>)
    requires
        old(world).wf(),
        old(world).nodes@.len() < usize::MAX,
    ensures
        final(world).wf(),
        final(world).scene_count == old(world).scene_count,
        final(world).cube_meshes == old(world).cube_meshes,
        loaded is None ==> r == Err::<NodeId, LoadError>(LoadError::NoScene) && final(world).nodes
            == old(world).nodes,
        loaded matches Some(s) ==> {
            &&& r == Ok::<NodeId, LoadError>(NodeId { index: old(world).nodes@.len() as usize })
            &&& final(world).nodes@.len() == old(world).nodes@.len() + 1
            &&& final(world).nodes@[old(world).nodes@.len() as int] == Some(Node::new_spec())
            &&& forall|i: int|
                0 <= i < old(world).nodes@.len() ==> #[trigger] final(world).nodes@[i] == adopted(
                    old(world).nodes@[i],
                    s,
                    NodeId { index: old(world).nodes@.len() as usize },
                )
        },
{
    let scene = match loaded {
        Some(s) => s,
        None => {
            return Err(LoadError::NoScene);
        },
    };
    let anchor = world.insert(Node::new());
    let n = anchor.index;
    let ghost before = old(world).nodes@;
    let mut i: usize = 0;
    while i < n
        invariant
            n == before.len(),
            anchor.index == n,
            i <= n,
            world.nodes@.len() == n + 1,
            world.nodes@[n as int] == Some(Node::new_spec()),
            world.scene_count == old(world).scene_count,
            world.cube_meshes == old(world).cube_meshes,
            forall|j: int| 0 <= j < i ==> #[trigger] world.nodes@[j] == adopted(before[j], scene, anchor),
            forall|j: int| i <= j < n ==> #[trigger] world.nodes@[j] == before[j],
            forall|j: int| 0 <= j < before.len() && (#[trigger] before[j]) is Some ==> before[j]->Some_0.wf(),
            world.wf(),
        decreases n - i,
    {
        match world.nodes[i] {
            Some(node) => {
                if node.parent == NodeParent::Scene(scene) {
                    world.nodes.set(i, Some(Node { parent: NodeParent::Node(anchor), ..node }));
                }
            },
            None => {},
        }
        i = i + 1;
    }
    Ok(anchor)
}

} // verus!
