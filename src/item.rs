use vstd::prelude::*;

use crate::npc::scaled;
use crate::world::{
    isqrt, isqrt_spec, lemma_isqrt_bounds,
    add_clamped, add_clamped_spec, clamp_unit, clamp_unit_spec, clamp_vec, clamp_vec_spec,
    div_trunc, get_root_node, lemma_mul_bound, root_spec, rotate, rotated, with_parent, Basis, CollisionShape,
    MeshId, Node, NodeId, NodeParent, Physics, PhysicsType, SceneId, Vec3, World, MILLI, UNIT,
};

verus! {

/// Time between two shots of a firearm, in microseconds.
pub const FIRE_INTERVAL: u64 = 100000;

/// Speed of a projectile, in thousandths of a unit per second.
pub const BULLET_SPEED: i64 = 100000;

/// Distance ahead of the holder at which a projectile appears.
pub const MUZZLE_OFFSET: i64 = 3000;

/// Radius of a projectile's collision sphere.
pub const BULLET_RADIUS: i64 = 100;

/// Mass of a projectile.
pub const BULLET_MASS: i64 = 1000;

/// Edge of the cube mesh that draws a projectile.
pub const BULLET_SIZE: i64 = 300;

/// Cosine of the recoil angle of two degrees, scaled by `UNIT`.
pub const RECOIL_COS: i64 = 999391;

/// Sine of the recoil angle of two degrees, scaled by `UNIT`.
pub const RECOIL_SIN: i64 = 34899;

/// How fast a melee weapon turns toward its target pose: the share of the way covered per
/// second, so that a tenth of a second covers all of it.
pub const MELEE_TURN_RATE: u64 = 10;

/// The input edges that an item reacts to.
#[derive(Clone, Copy, Debug, PartialEq, Eq, Structural)]
pub enum Action {
    StartPrimary,
    StopPrimary,
    StartSecondary,
    StopSecondary,
    StartThird,
    StopThird,
}

/// Something a player can hold: it owns one node that shows it, hangs that node under
/// its holder or detaches it, and reacts to input edges and to the passing of time.
pub trait Item: Sized {
    spec fn wf(&self) -> bool;

    /// The node that shows the item.
    spec fn visual(&self) -> NodeId;

    /// The item after an input edge.
    spec fn after_action(&self, action: Action) -> Self;

    /// The item after `dt` microseconds.
    spec fn after_process(&self, dt: u32) -> Self;

    /// The nodes after the item has lived `dt` microseconds among them.
    spec fn nodes_after_process(&self, nodes: Seq<Option<Node>>, dt: u32) -> Seq<Option<Node>>;

    /// The item after a mouse movement.
    spec fn after_mouse_moved(&self, dx: i64, dy: i64) -> Self;

    /// One-time setup; it keeps the node that shows the item and leaves every node that
    /// was there as it was, though it may add nodes of its own.
    fn prepare(&mut self, world: &mut World)
        requires
            old(self).wf(),
            old(world).wf(),
        ensures
            final(self).wf(),
            final(self).visual() == old(self).visual(),
            final(world).nodes@.len() >= old(world).nodes@.len(),
            forall|i: int|
                0 <= i < old(world).nodes@.len() ==> #[trigger] final(world).nodes@[i]
                    == old(world).nodes@[i],
            final(world).wf(),
    ;

    /// Hangs the item's node under `holder`.
    fn activate(&mut self, world: &mut World, holder: NodeId)
        requires
            old(self).wf(),
            old(world).wf(),
        ensures
            *final(self) == *old(self),
            final(world).nodes@ == with_parent(
                old(world).nodes@,
                old(self).visual(),
                NodeParent::Node(holder),
            ),
            final(world).scene_count == old(world).scene_count,
            final(world).cube_meshes == old(world).cube_meshes,
            final(world).wf(),
    ;

    /// Detaches the item's node without destroying it.
    fn holster(&mut self, world: &mut World)
        requires
            old(self).wf(),
            old(world).wf(),
        ensures
            *final(self) == *old(self),
            final(world).nodes@ == with_parent(
                old(world).nodes@,
                old(self).visual(),
                NodeParent::Orphan,
            ),
            final(world).scene_count == old(world).scene_count,
            final(world).cube_meshes == old(world).cube_meshes,
            final(world).wf(),
    ;

    /// Reacts to an input edge; the scene is left as it is.
    fn act(&mut self, action: Action)
        requires
            old(self).wf(),
        ensures
            *final(self) == old(self).after_action(action),
            final(self).wf(),
    ;

    /// Lets `dt` microseconds pass.
    fn process(&mut self, world: &mut World, dt: u32)
        requires
            old(self).wf(),
            old(world).wf(),
        ensures
            *final(self) == old(self).after_process(dt),
            final(self).wf(),
            final(world).nodes@ == old(self).nodes_after_process(old(world).nodes@, dt),
            final(world).scene_count == old(world).scene_count,
            final(world).cube_meshes == old(world).cube_meshes,
            final(world).wf(),
    ;

    /// Reacts to a mouse movement; the scene is left as it is.
    fn on_mouse_moved(&mut self, dx: i64, dy: i64)
        requires
            old(self).wf(),
        ensures
            *final(self) == old(self).after_mouse_moved(dx, dy),
            final(self).wf(),
    ;
}

// ---------------------------------------------------------------------------------------
// Firearm
/// The pose of a held firearm: a quarter turn less than a full turn about the vertical.
pub open spec fn firearm_pose() -> Basis {
    Basis {
        right: Vec3 { x: 0, y: 0, z: UNIT },
        up: Vec3 { x: 0, y: UNIT, z: 0 },
        forward: Vec3 { x: -UNIT as i64, y: 0, z: 0 },
    }
}

/// `v` turned about the vertical by the recoil angle.
pub open spec fn yawed(v: Vec3) -> Vec3 {
    Vec3 {
        x: clamp_unit_spec(div_trunc(RECOIL_COS * v.x - RECOIL_SIN * v.z, UNIT as int)) as i64,
        y: v.y,
        z: clamp_unit_spec(div_trunc(RECOIL_SIN * v.x + RECOIL_COS * v.z, UNIT as int)) as i64,
    }
}

/// `nodes` with the firearm model `node` put in the holding place: a little right of,
/// below and ahead of its holder, turned, and scaled up sixty times.
pub open spec fn firearm_posed_nodes(nodes: Seq<Option<Node>>, node: NodeId) -> Seq<Option<Node>> {
    if node.index < nodes.len() && nodes[node.index as int] is Some {
        nodes.update(
            node.index as int,
            Some(
                Node {
                    translation: Vec3 { x: 300, y: -1000 as i64, z: 1000 },
                    rotation: firearm_pose(),
                    scale: Vec3 { x: 60000, y: 60000, z: 60000 },
                    ..nodes[node.index as int]->Some_0
                },
            ),
        )
    } else {
        nodes
    }
}

/// `nodes` with the melee model `node` put in the holding place.
pub open spec fn melee_posed_nodes(nodes: Seq<Option<Node>>, node: NodeId) -> Seq<Option<Node>> {
    if node.index < nodes.len() && nodes[node.index as int] is Some {
        nodes.update(
            node.index as int,
            Some(
                Node {
                    translation: Vec3 { x: 300, y: -1000 as i64, z: 3000 },
                    ..nodes[node.index as int]->Some_0
                },
            ),
        )
    } else {
        nodes
    }
}

/// The holder's facing after the recoil of one shot: its yaw nudged by two degrees.
pub open spec fn recoiled(b: Basis) -> Basis {
    Basis { right: yawed(b.right), up: yawed(b.up), forward: yawed(b.forward) }
}

/// A projectile leaving `holder`: in the scene, ahead of the holder, flying along its facing.
pub open spec fn bullet_spec(holder: Node, mesh: MeshId, scene: SceneId) -> Node {
    Node {
        parent: NodeParent::Scene(scene),
        translation: add_clamped_spec(
            holder.translation,
            rotated(holder.rotation, Vec3 { x: 0, y: 0, z: MUZZLE_OFFSET }),
        ),
        rotation: Basis::identity_spec(),
        scale: Vec3 { x: MILLI, y: MILLI, z: MILLI },
        mesh: Some(mesh),
        collision_shape: Some(CollisionShape::Sphere { radius: BULLET_RADIUS }),
        physics: Physics {
            mass: BULLET_MASS,
            velocity: clamp_vec_spec(rotated(holder.rotation, Vec3 { x: 0, y: 0, z: BULLET_SPEED })),
            force: Vec3 { x: 0, y: 0, z: 0 },
            typ: PhysicsType::Dynamic,
        },
    }
}

/// The nodes after one shot of the firearm shown by `node`: the root of its holder chain
/// recoils and a projectile is added. Without a root node there, or without room in the
/// arena, nothing happens.
pub open spec fn fire_once(nodes: Seq<Option<Node>>, node: NodeId, mesh: MeshId, scene: SceneId) -> Seq<
    Option<Node>,
> {
    let root = root_spec(nodes, node, nodes.len());
    if root.index < nodes.len() && nodes[root.index as int] is Some && nodes.len() + 1
        < usize::MAX {
        let holder = nodes[root.index as int]->Some_0;
        let turned = Node { rotation: recoiled(holder.rotation), ..holder };
        nodes.update(root.index as int, Some(turned)).push(Some(bullet_spec(turned, mesh, scene)))
    } else {
        nodes
    }
}

/// The nodes after `k` shots.
pub open spec fn fire_n(
    nodes: Seq<Option<Node>>,
    node: NodeId,
    mesh: MeshId,
    scene: SceneId,
    k: nat,
) -> Seq<Option<Node>>
    decreases k,
{
    if k == 0 {
        nodes
    } else {
        fire_once(fire_n(nodes, node, mesh, scene, (k - 1) as nat), node, mesh, scene)
    }
}

/// How many shots `dt` microseconds release, with `since` already waited.
pub open spec fn shots_due(since: int, dt: int) -> int {
    (since + dt) / (FIRE_INTERVAL as int)
}

/// What is left of the wait after those shots.
pub open spec fn wait_left(since: int, dt: int) -> int {
    (since + dt) % (FIRE_INTERVAL as int)
}

/// An automatic firearm: while the trigger is held it fires once per interval.
#[derive(Clone, Copy, Debug, PartialEq, Eq, Structural)]
pub struct Firearm {
    pub node: NodeId,
    pub shooting: bool,
    /// Microseconds waited since the last shot.
    pub since_last_shot: u64,
    pub bullet_mesh: MeshId,
    pub scene: SceneId,
}

/// Blends `c` toward `g` by `t` thousandths.
pub open spec fn blend(c: int, g: int, t: int) -> int {
    clamp_unit_spec(c + div_trunc((g - c) * t, 1000))
}

fn recoil_axis(u: i64, f: i64, cu: i64, cf: i64) -> (r: i64)
    requires
        -UNIT <= u <= UNIT,
        -UNIT <= f <= UNIT,
        -UNIT <= cu <= UNIT,
        -UNIT <= cf <= UNIT,
    ensures
        r == clamp_unit_spec(div_trunc(cu * u + cf * f, UNIT as int)),
{
    proof {
        lemma_mul_bound(u as int, cu as int);
        lemma_mul_bound(f as int, cf as int);
        assert(cu * u == u * cu) by (nonlinear_arith);
        assert(cf * f == f * cf) by (nonlinear_arith);
    }
    let s = cu * u + cf * f;
    let q = if s >= 0 {
        s / UNIT
    } else {
        -((-s) / UNIT)
    };
    clamp_unit(q)
}

fn yaw_axis(v: &Vec3) -> (r: Vec3)
    requires
        crate::world::unit_bounded(*v),
    ensures
        r == yawed(*v),
        crate::world::unit_bounded(r),
{
    Vec3 {
        x: recoil_axis(v.x, v.z, RECOIL_COS, -RECOIL_SIN),
        y: v.y,
        z: recoil_axis(v.x, v.z, RECOIL_SIN, RECOIL_COS),
    }
}

fn recoil(b: &Basis) -> (r: Basis)
    requires
        b.wf(),
    ensures
        r == recoiled(*b),
        r.wf(),
{
    Basis { right: yaw_axis(&b.right), up: yaw_axis(&b.up), forward: yaw_axis(&b.forward) }
}

impl Firearm {
    /// A firearm shown by the loaded model `node`, shooting into `scene`. The model is posed
    /// for holding and a cube mesh is registered for its projectiles.
    pub fn new(world: &mut World, node: NodeId, scene: SceneId) -> (r: Firearm)
        requires
            old(world).wf(),
        ensures
            r == (Firearm {
                node,
                shooting: false,
                since_last_shot: 0,
                bullet_mesh: MeshId { index: old(world).cube_meshes@.len() as usize },
                scene,
            }),
            final(world).cube_meshes@ == old(world).cube_meshes@.push(BULLET_SIZE),
            final(world).scene_count == old(world).scene_count,
            final(world).nodes@ == firearm_posed_nodes(old(world).nodes@, node),
            final(world).wf(),
            r.wf(),
    {
        let bullet_mesh = world.insert_cube_mesh(BULLET_SIZE);
        match world.get(node) {
            Some(n) => {
                let posed = Node {
                    translation: Vec3 { x: 300, y: -1000, z: 1000 },
                    rotation: Basis {
                        right: Vec3 { x: 0, y: 0, z: UNIT },
                        up: Vec3 { x: 0, y: UNIT, z: 0 },
                        forward: Vec3 { x: -UNIT, y: 0, z: 0 },
                    },
                    scale: Vec3 { x: 60000, y: 60000, z: 60000 },
                    ..n
                };
                world.set_node(node, posed);
            },
            None => {},
        }
        Firearm { node, shooting: false, since_last_shot: 0, bullet_mesh, scene }
    }

    pub open spec fn wf_spec(&self) -> bool {
        self.since_last_shot < FIRE_INTERVAL
    }

    /// One shot: the holder chain's root recoils and a projectile leaves it.
    fn fire(&self, world: &mut World)
        requires
            old(world).wf(),
        ensures
            final(world).nodes@ == fire_once(
                old(world).nodes@,
                self.node,
                self.bullet_mesh,
                self.scene,
            ),
            final(world).scene_count == old(world).scene_count,
            final(world).cube_meshes == old(world).cube_meshes,
            final(world).wf(),
    {
        let root = get_root_node(world, self.node);
        let n = world.nodes.len();
        if root.index < n && n < usize::MAX - 1 {
            match world.nodes[root.index] {
                Some(holder) => {
                    let turned = Node { rotation: recoil(&holder.rotation), ..holder };
                    let muzzle = rotate(&turned.rotation, &Vec3 { x: 0, y: 0, z: MUZZLE_OFFSET });
                    let heading = rotate(&turned.rotation, &Vec3 { x: 0, y: 0, z: BULLET_SPEED });
                    let bullet = Node {
                        parent: NodeParent::Scene(self.scene),
                        translation: add_clamped(&turned.translation, &muzzle),
                        rotation: Basis::identity(),
                        scale: Vec3 { x: MILLI, y: MILLI, z: MILLI },
                        mesh: Some(self.bullet_mesh),
                        collision_shape: Some(CollisionShape::Sphere { radius: BULLET_RADIUS }),
                        physics: Physics {
                            mass: BULLET_MASS,
                            velocity: clamp_vec(&heading),
                            force: Vec3::zero(),
                            typ: PhysicsType::Dynamic,
                        },
                    };
                    world.nodes.set(root.index, Some(turned));
                    world.nodes.push(Some(bullet));
                    assert(world.nodes@ =~= fire_once(
                        old(world).nodes@,
                        self.node,
                        self.bullet_mesh,
                        self.scene,
                    ));
                },
                None => {},
            }
        }
    }
}

impl Item for Firearm {
    open spec fn wf(&self) -> bool {
        self.wf_spec()
    }

    open spec fn visual(&self) -> NodeId {
        self.node
    }

    open spec fn after_action(&self, action: Action) -> Firearm {
        match action {
            Action::StartPrimary => Firearm { shooting: true, ..*self },
            Action::StopPrimary => Firearm { shooting: false, ..*self },
            _ => *self,
        }
    }

    open spec fn after_process(&self, dt: u32) -> Firearm {
        if self.shooting {
            Firearm { since_last_shot: wait_left(self.since_last_shot as int, dt as int) as u64, ..*self }
        } else {
            *self
        }
    }

    open spec fn nodes_after_process(&self, nodes: Seq<Option<Node>>, dt: u32) -> Seq<Option<Node>> {
        if self.shooting {
            fire_n(
                nodes,
                self.node,
                self.bullet_mesh,
                self.scene,
                shots_due(self.since_last_shot as int, dt as int) as nat,
            )
        } else {
            nodes
        }
    }

    open spec fn after_mouse_moved(&self, dx: i64, dy: i64) -> Firearm {
        *self
    }

    fn prepare(&mut self, world: &mut World) {
    }

    fn activate(&mut self, world: &mut World, holder: NodeId) {
        world.set_parent(self.node, NodeParent::Node(holder));
    }

    fn holster(&mut self, world: &mut World) {
        world.set_parent(self.node, NodeParent::Orphan);
    }

    fn act(&mut self, action: Action) {
        match action {
            Action::StartPrimary => {
                self.shooting = true;
            },
            Action::StopPrimary => {
                self.shooting = false;
            },
            _ => {},
        }
    }

    fn process(&mut self, world: &mut World, dt: u32) {
        if !self.shooting {
            return;
        }
        let total: u64 = self.since_last_shot + dt as u64;
        let shots: u64 = total / FIRE_INTERVAL;
        let ghost start = world.nodes@;
        let mut k: u64 = 0;
        while k < shots
            invariant
                k <= shots,
                shots == shots_due(old(self).since_last_shot as int, dt as int),
                *self == *old(self),
                world.nodes@ == fire_n(start, self.node, self.bullet_mesh, self.scene, k as nat),
                world.scene_count == old(world).scene_count,
                world.cube_meshes == old(world).cube_meshes,
                world.wf(),
            decreases shots - k,
        {
            self.fire(world);
            k = k + 1;
        }
        self.since_last_shot = total % FIRE_INTERVAL;
    }

    fn on_mouse_moved(&mut self, dx: i64, dy: i64) {
    }
}

// ---------------------------------------------------------------------------------------
// Melee weapon
/// The pose a melee weapon starts turning toward: tipped a quarter turn about the x axis.
pub open spec fn melee_ready_pose() -> Basis {
    Basis {
        right: Vec3 { x: UNIT, y: 0, z: 0 },
        up: Vec3 { x: 0, y: 0, z: UNIT },
        forward: Vec3 { x: 0, y: -UNIT as i64, z: 0 },
    }
}

/// The pose of a swing: a half turn about the x axis.
pub open spec fn melee_swing_pose() -> Basis {
    Basis {
        right: Vec3 { x: UNIT, y: 0, z: 0 },
        up: Vec3 { x: 0, y: -UNIT as i64, z: 0 },
        forward: Vec3 { x: 0, y: 0, z: -UNIT as i64 },
    }
}

/// The pose at rest: a quarter turn about the vertical.
pub open spec fn melee_rest_pose() -> Basis {
    Basis {
        right: Vec3 { x: 0, y: 0, z: -UNIT as i64 },
        up: Vec3 { x: 0, y: UNIT, z: 0 },
        forward: Vec3 { x: UNIT, y: 0, z: 0 },
    }
}

/// The share of the way to the target pose, in thousandths, that `dt` microseconds cover.
pub open spec fn turn_share(dt: int) -> int {
    if dt * (MELEE_TURN_RATE as int) / 1000 > 1000 {
        1000
    } else {
        dt * (MELEE_TURN_RATE as int) / 1000
    }
}

pub open spec fn blend_vec(c: Vec3, g: Vec3, t: int) -> Vec3 {
    Vec3 {
        x: blend(c.x as int, g.x as int, t) as i64,
        y: blend(c.y as int, g.y as int, t) as i64,
        z: blend(c.z as int, g.z as int, t) as i64,
    }
}

/// `v` scaled to length `UNIT`, rounding toward zero; a zero vector stays as it is.
pub open spec fn normalized(v: Vec3) -> Vec3 {
    let l = isqrt_spec(v.len2());
    if l == 0 {
        v
    } else {
        Vec3 {
            x: div_trunc(v.x * UNIT, l) as i64,
            y: div_trunc(v.y * UNIT, l) as i64,
            z: div_trunc(v.z * UNIT, l) as i64,
        }
    }
}

/// `c` moved toward `g` by `t` thousandths of the way, each axis brought back to unit
/// length: a fixed-point interpolation of rotations that reaches the target when `t` is a
/// thousand.
pub open spec fn blend_basis(c: Basis, g: Basis, t: int) -> Basis {
    Basis {
        right: normalized(blend_vec(c.right, g.right, t)),
        up: normalized(blend_vec(c.up, g.up, t)),
        forward: normalized(blend_vec(c.forward, g.forward, t)),
    }
}

fn normalize(v: &Vec3) -> (r: Vec3)
    requires
        crate::world::unit_bounded(*v),
    ensures
        r == normalized(*v),
        crate::world::unit_bounded(r),
{
    proof {
        assert(0 <= v.x * v.x <= 1000000000000) by (nonlinear_arith)
            requires
                -1000000 <= v.x <= 1000000,
        ;
        assert(0 <= v.y * v.y <= 1000000000000) by (nonlinear_arith)
            requires
                -1000000 <= v.y <= 1000000,
        ;
        assert(0 <= v.z * v.z <= 1000000000000) by (nonlinear_arith)
            requires
                -1000000 <= v.z <= 1000000,
        ;
    }
    let n: u64 = (v.x * v.x) as u64 + (v.y * v.y) as u64 + (v.z * v.z) as u64;
    let l = isqrt(n);
    if l == 0 {
        return *v;
    }
    proof {
        assert(l <= 2000000) by (nonlinear_arith)
            requires
                l * l <= n,
                n <= 3000000000000,
        ;
        assert(v.x * v.x <= n && v.y * v.y <= n && v.z * v.z <= n) by (nonlinear_arith)
            requires
                n == v.x * v.x + v.y * v.y + v.z * v.z,
        ;
        lemma_isqrt_bounds(n as int, l as int, v.x as int);
        lemma_isqrt_bounds(n as int, l as int, v.y as int);
        lemma_isqrt_bounds(n as int, l as int, v.z as int);
    }
    let li = l as i64;
    Vec3 { x: scaled(v.x, UNIT, li), y: scaled(v.y, UNIT, li), z: scaled(v.z, UNIT, li) }
}

fn blend_axis(c: i64, g: i64, t: i64) -> (r: i64)
    requires
        -UNIT <= c <= UNIT,
        -UNIT <= g <= UNIT,
        0 <= t <= 1000,
    ensures
        r == blend(c as int, g as int, t as int),
{
    let d = g - c;
    proof {
        assert(-2000000000 <= d * t <= 2000000000) by (nonlinear_arith)
            requires
                -2000000 <= d <= 2000000,
                0 <= t <= 1000,
        ;
    }
    let p = d * t;
    let q = if p >= 0 {
        p / 1000
    } else {
        -((-p) / 1000)
    };
    clamp_unit(c + q)
}

fn blend_v(c: &Vec3, g: &Vec3, t: i64) -> (r: Vec3)
    requires
        crate::world::unit_bounded(*c),
        crate::world::unit_bounded(*g),
        0 <= t <= 1000,
    ensures
        r == blend_vec(*c, *g, t as int),
        crate::world::unit_bounded(r),
{
    Vec3 { x: blend_axis(c.x, g.x, t), y: blend_axis(c.y, g.y, t), z: blend_axis(c.z, g.z, t) }
}

/// A melee weapon: its node turns smoothly toward a swing pose while the attack is held
/// and toward a rest pose after it.
#[derive(Clone, Copy, Debug, PartialEq, Eq, Structural)]
pub struct Melee {
    pub node: NodeId,
    pub attacking: bool,
    pub target: Basis,
}

impl Melee {
    /// A melee weapon shown by the loaded model `node`, which is put in the holding place.
    pub fn new(world: &mut World, node: NodeId) -> (r: Melee)
        requires
            old(world).wf(),
        ensures
            r == (Melee { node, attacking: false, target: melee_ready_pose() }),
            final(world).cube_meshes == old(world).cube_meshes,
            final(world).scene_count == old(world).scene_count,
            final(world).nodes@ == melee_posed_nodes(old(world).nodes@, node),
            final(world).wf(),
            r.wf(),
    {
        match world.get(node) {
            Some(n) => {
                world.set_node(node, Node { translation: Vec3 { x: 300, y: -1000, z: 3000 }, ..n });
            },
            None => {},
        }
        Melee {
            node,
            attacking: false,
            target: Basis {
                right: Vec3 { x: UNIT, y: 0, z: 0 },
                up: Vec3 { x: 0, y: 0, z: UNIT },
                forward: Vec3 { x: 0, y: -UNIT, z: 0 },
            },
        }
    }
}

impl Item for Melee {
    open spec fn wf(&self) -> bool {
        self.target.wf()
    }

    open spec fn visual(&self) -> NodeId {
        self.node
    }

    open spec fn after_action(&self, action: Action) -> Melee {
        match action {
            Action::StartPrimary => Melee { attacking: true, target: melee_swing_pose(), ..*self },
            Action::StopPrimary => Melee { attacking: false, target: melee_rest_pose(), ..*self },
            _ => *self,
        }
    }

    open spec fn after_process(&self, dt: u32) -> Melee {
        *self
    }

    open spec fn nodes_after_process(&self, nodes: Seq<Option<Node>>, dt: u32) -> Seq<Option<Node>> {
        if self.node.index < nodes.len() && nodes[self.node.index as int] is Some {
            let n = nodes[self.node.index as int]->Some_0;
            nodes.update(
                self.node.index as int,
                Some(Node { rotation: blend_basis(n.rotation, self.target, turn_share(dt as int)), ..n }),
            )
        } else {
            nodes
        }
    }

    open spec fn after_mouse_moved(&self, dx: i64, dy: i64) -> Melee {
        *self
    }

    fn prepare(&mut self, world: &mut World) {
    }

    fn activate(&mut self, world: &mut World, holder: NodeId) {
        world.set_parent(self.node, NodeParent::Node(holder));
    }

    fn holster(&mut self, world: &mut World) {
        world.set_parent(self.node, NodeParent::Orphan);
    }

    fn act(&mut self, action: Action) {
        match action {
            Action::StartPrimary => {
                self.attacking = true;
                self.target = Basis {
                    right: Vec3 { x: UNIT, y: 0, z: 0 },
                    up: Vec3 { x: 0, y: -UNIT, z: 0 },
                    forward: Vec3 { x: 0, y: 0, z: -UNIT },
                };
            },
            Action::StopPrimary => {
                self.attacking = false;
                self.target = Basis {
                    right: Vec3 { x: 0, y: 0, z: -UNIT },
                    up: Vec3 { x: 0, y: UNIT, z: 0 },
                    forward: Vec3 { x: UNIT, y: 0, z: 0 },
                };
            },
            _ => {},
        }
    }

    fn process(&mut self, world: &mut World, dt: u32) {
        let raw: u64 = (dt as u64) * MELEE_TURN_RATE / 1000;
        let t: i64 = if raw > 1000 {
            1000
        } else {
            raw as i64
        };
        match world.get(self.node) {
            Some(n) => {
                let turned = Basis {
                    right: normalize(&blend_v(&n.rotation.right, &self.target.right, t)),
                    up: normalize(&blend_v(&n.rotation.up, &self.target.up, t)),
                    forward: normalize(&blend_v(&n.rotation.forward, &self.target.forward, t)),
                };
                world.set_node(self.node, Node { rotation: turned, ..n });
            },
            None => {},
        }
    }

    fn on_mouse_moved(&mut self, dx: i64, dy: i64) {
    }
}

// ---------------------------------------------------------------------------------------
// Any of the above
/// One of the items that an inventory can hold.
#[derive(Clone, Copy, Debug, PartialEq, Eq, Structural)]
pub enum Equipment {
    Firearm(Firearm),
    Melee(Melee),
}

impl Item for Equipment {
    open spec fn wf(&self) -> bool {
        match *self {
            Equipment::Firearm(f) => f.wf(),
            Equipment::Melee(m) => m.wf(),
        }
    }

    open spec fn visual(&self) -> NodeId {
        match *self {
            Equipment::Firearm(f) => f.visual(),
            Equipment::Melee(m) => m.visual(),
        }
    }

    open spec fn after_action(&self, action: Action) -> Equipment {
        match *self {
            Equipment::Firearm(f) => Equipment::Firearm(f.after_action(action)),
            Equipment::Melee(m) => Equipment::Melee(m.after_action(action)),
        }
    }

    open spec fn after_process(&self, dt: u32) -> Equipment {
        match *self {
            Equipment::Firearm(f) => Equipment::Firearm(f.after_process(dt)),
            Equipment::Melee(m) => Equipment::Melee(m.after_process(dt)),
        }
    }

    open spec fn nodes_after_process(&self, nodes: Seq<Option<Node>>, dt: u32) -> Seq<Option<Node>> {
        match *self {
            Equipment::Firearm(f) => f.nodes_after_process(nodes, dt),
            Equipment::Melee(m) => m.nodes_after_process(nodes, dt),
        }
    }

    open spec fn after_mouse_moved(&self, dx: i64, dy: i64) -> Equipment {
        match *self {
            Equipment::Firearm(f) => Equipment::Firearm(f.after_mouse_moved(dx, dy)),
            Equipment::Melee(m) => Equipment::Melee(m.after_mouse_moved(dx, dy)),
        }
    }

    fn prepare(&mut self, world: &mut World) {
        match self {
            Equipment::Firearm(f) => f.prepare(world),
            Equipment::Melee(m) => m.prepare(world),
        }
    }

    fn activate(&mut self, world: &mut World, holder: NodeId) {
        match self {
            Equipment::Firearm(f) => f.activate(world, holder),
            Equipment::Melee(m) => m.activate(world, holder),
        }
    }

    fn holster(&mut self, world: &mut World) {
        match self {
            Equipment::Firearm(f) => f.holster(world),
            Equipment::Melee(m) => m.holster(world),
        }
    }

    fn act(&mut self, action: Action) {
        match self {
            Equipment::Firearm(f) => f.act(action),
            Equipment::Melee(m) => m.act(action),
        }
    }

    fn process(&mut self, world: &mut World, dt: u32) {
        match self {
            Equipment::Firearm(f) => f.process(world, dt),
            Equipment::Melee(m) => m.process(world, dt),
        }
    }

    fn on_mouse_moved(&mut self, dx: i64, dy: i64) {
        match self {
            Equipment::Firearm(f) => f.on_mouse_moved(dx, dy),
            Equipment::Melee(m) => m.on_mouse_moved(dx, dy),
        }
    }
}

// ---------------------------------------------------------------------------------------
// Laws
/// An input edge given twice in a row leaves an item as giving it once does: pressing
/// the trigger of a firearm that is already shooting keeps it shooting.
pub proof fn lemma_action_idempotent(e: Equipment, action: Action)
    requires
        e.wf(),
    ensures
        e.after_action(action).after_action(action) == e.after_action(action),
{
}

/// A firearm fires once per interval boundary that the accumulated time crosses, however
/// the time is split into frames: two frames of `d1` and `d2` release as many shots, and
/// leave as much of the wait, as one frame of `d1 + d2`. Twice 0.15 s from rest releases
/// three shots.
pub proof fn lemma_fire_rate_additive(since: int, d1: int, d2: int)
    requires
        0 <= since,
        0 <= d1,
        0 <= d2,
    ensures
        shots_due(since, d1) + shots_due(wait_left(since, d1), d2) == shots_due(since, d1 + d2),
        wait_left(wait_left(since, d1), d2) == wait_left(since, d1 + d2),
{
    let i = FIRE_INTERVAL as int;
    let x = since + d1;
    let q = x / i;
    let r = x % i;
    vstd::arithmetic::div_mod::lemma_fundamental_div_mod(x, i);
    vstd::arithmetic::div_mod::lemma_hoist_over_denominator(r + d2, q, i as nat);
    assert(r + d2 + q * i == since + (d1 + d2)) by (nonlinear_arith)
        requires
            x == i * q + r,
            x == since + d1,
    ;
    vstd::arithmetic::div_mod::lemma_mod_multiples_vanish(q, r + d2, i);
    assert(i * q + (r + d2) == since + (d1 + d2)) by (nonlinear_arith)
        requires
            x == i * q + r,
            x == since + d1,
    ;
}

/// The sum of frame lengths.
pub open spec fn total_time(dts: Seq<int>) -> int
    decreases dts.len(),
{
    if dts.len() == 0 {
        0
    } else {
        dts[0] + total_time(dts.drop_first())
    }
}

/// The shots that frames of lengths `dts` release one after the other, with `since` waited
/// before the first.
pub open spec fn shots_over(since: int, dts: Seq<int>) -> int
    decreases dts.len(),
{
    if dts.len() == 0 {
        0
    } else {
        shots_due(since, dts[0]) + shots_over(wait_left(since, dts[0]), dts.drop_first())
    }
}

/// Over any run of frames, a firearm held with the trigger down releases one shot per
/// interval boundary that the total time crosses: as many as one frame of that total.
/// From rest, that is the total time over the interval, rounded down.
pub proof fn lemma_fire_rate_over_frames(since: int, dts: Seq<int>)
    requires
        0 <= since < FIRE_INTERVAL,
        forall|i: int| 0 <= i < dts.len() ==> 0 <= #[trigger] dts[i],
    ensures
        shots_over(since, dts) == shots_due(since, total_time(dts)),
        0 <= total_time(dts),
    decreases dts.len(),
{
    if dts.len() > 0 {
        let rest = dts.drop_first();
        assert forall|i: int| 0 <= i < rest.len() implies 0 <= #[trigger] rest[i] by {
            assert(rest[i] == dts[i + 1]);
        }
        let w = wait_left(since, dts[0]);
        vstd::arithmetic::div_mod::lemma_mod_pos_bound(since + dts[0], FIRE_INTERVAL as int);
        lemma_fire_rate_over_frames(w, rest);
        lemma_fire_rate_additive(since, dts[0], total_time(rest));
    } else {
        vstd::arithmetic::div_mod::lemma_basic_div(since, FIRE_INTERVAL as int);
    }
}

/// Detaching an item and hanging it under `holder` leaves the scene as hanging it under
/// `holder` directly does.
pub proof fn lemma_holster_then_activate(e: Equipment, nodes: Seq<Option<Node>>, holder: NodeId)
    ensures
        with_parent(
            with_parent(nodes, e.visual(), NodeParent::Orphan),
            e.visual(),
            NodeParent::Node(holder),
        ) == with_parent(nodes, e.visual(), NodeParent::Node(holder)),
{
    let v = e.visual();
    let once = with_parent(nodes, v, NodeParent::Node(holder));
    let twice = with_parent(with_parent(nodes, v, NodeParent::Orphan), v, NodeParent::Node(holder));
    assert(twice =~= once);
}

} // verus!
