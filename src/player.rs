use vstd::prelude::*;

use crate::inventory::{nodes_after_items, Inventory};
use crate::item::{Action, Item};
use crate::world::{
    clamp_vec, clamp_vec_spec, rotate, rotated, Basis, CollisionShape, Node, NodeId, NodeParent,
    Physics, PhysicsType, SceneId, Vec3, World, COORD_MAX, MILLI,
};

verus! {

/// Each coordinate of a diagonal intent: a thousand over the square root of two.
pub const DIAGONAL: i64 = 707;

/// Scale from a velocity or an intent to a movement force.
pub const MOVEMENT_FORCE: i64 = 1600;

/// Speed below which an intent is amplified into a full push: 25 units.
pub const SPEED_CAP: i64 = 25000;

/// Speed of a dash, in thousandths of a unit per second.
pub const DASH_SPEED: i64 = 100000;

/// Upward speed of a jump.
pub const JUMP_SPEED: i64 = 10000;

/// Which of the four movement keys are held.
#[derive(Clone, Copy, Debug, PartialEq, Eq, Structural)]
pub struct MoveDirection {
    pub forward: bool,
    pub backward: bool,
    pub left: bool,
    pub right: bool,
}

/// The sum of the held directions along one axis: 1, 0 or -1.
pub open spec fn axis_sign(plus: bool, minus: bool) -> int {
    (if plus {
        1int
    } else {
        0int
    }) - (if minus {
        1int
    } else {
        0int
    })
}

/// The local intent of `m`, as a vector of length one thousand or nothing; a diagonal has
/// `DIAGONAL` on both axes.
pub open spec fn intent(m: MoveDirection) -> Vec3 {
    let sx = axis_sign(m.right, m.left);
    let sz = axis_sign(m.forward, m.backward);
    let scale = if sx != 0 && sz != 0 {
        DIAGONAL as int
    } else {
        MILLI as int
    };
    Vec3 { x: (sx * scale) as i64, y: 0, z: (sz * scale) as i64 }
}

impl MoveDirection {
    pub open spec fn new_spec() -> MoveDirection {
        MoveDirection { forward: false, backward: false, left: false, right: false }
    }

    pub open spec fn moving(&self) -> bool {
        self.forward || self.backward || self.left || self.right
    }

    pub fn new() -> (r: MoveDirection)
        ensures
            r == (MoveDirection { forward: false, backward: false, left: false, right: false }),
    {
        MoveDirection { forward: false, backward: false, left: false, right: false }
    }

    /// The local movement intent, normalized.
    pub fn to_vec3(&self) -> (r: Vec3)
        ensures
            r == intent(*self),
            r.wf(),
    {
        let sx: i64 = (if self.right {
            1i64
        } else {
            0i64
        }) - (if self.left {
            1i64
        } else {
            0i64
        });
        let sz: i64 = (if self.forward {
            1i64
        } else {
            0i64
        }) - (if self.backward {
            1i64
        } else {
            0i64
        });
        let scale: i64 = if sx != 0 && sz != 0 {
            DIAGONAL
        } else {
            MILLI
        };
        proof {
            assert(-1000 <= sx * scale <= 1000) by (nonlinear_arith)
                requires
                    -1 <= sx <= 1,
                    0 <= scale <= 1000,
            ;
            assert(-1000 <= sz * scale <= 1000) by (nonlinear_arith)
                requires
                    -1 <= sz <= 1,
                    0 <= scale <= 1000,
            ;
        }
        Vec3 { x: sx * scale, y: 0, z: sz * scale }
    }

    pub fn is_moving(&self) -> (r: bool)
        ensures
            r == self.moving(),
    {
        self.forward || self.backward || self.left || self.right
    }
}

/// The force along one horizontal axis: an intent against the current motion adds a
/// braking term that cancels that motion; otherwise, below the speed cap, the intent is
/// amplified into a full push, and at or above it left as it is.
pub open spec fn axis_force(f: int, v: int, slow: bool) -> int {
    if (f > 0 && v < 0) || (f < 0 && v > 0) {
        f - v * MOVEMENT_FORCE
    } else if slow {
        f * MOVEMENT_FORCE
    } else {
        f
    }
}

/// Whether a velocity is below the speed cap.
pub open spec fn below_cap(v: Vec3) -> bool {
    v.len2() < SPEED_CAP * SPEED_CAP
}

/// The force that a body with intent `m` gets: the intent turned into the body's facing,
/// shaped per axis, never lifting; without intent, a damping force against the
/// horizontal motion.
pub open spec fn movement_force(body: Node, m: MoveDirection) -> Vec3 {
    let v = body.physics.velocity;
    if m.moving() {
        let f = rotated(body.rotation, intent(m));
        Vec3 {
            x: axis_force(f.x as int, v.x as int, below_cap(v)) as i64,
            y: 0,
            z: axis_force(f.z as int, v.z as int, below_cap(v)) as i64,
        }
    } else {
        Vec3 { x: (-v.x * MOVEMENT_FORCE) as i64, y: 0, z: (-v.z * MOVEMENT_FORCE) as i64 }
    }
}

/// A body after one movement step: its force set from the intent and, while sprinting,
/// its velocity replaced by a dash along its facing.
pub open spec fn moved_body(body: Node, m: MoveDirection, sprinting: bool) -> Node {
    let pushed = Node {
        physics: Physics { force: movement_force(body, m), ..body.physics },
        ..body
    };
    if sprinting {
        Node {
            physics: Physics {
                velocity: clamp_vec_spec(
                    rotated(body.rotation, Vec3 { x: 0, y: 0, z: DASH_SPEED }),
                ),
                ..pushed.physics
            },
            ..pushed
        }
    } else {
        pushed
    }
}

/// `nodes` with the body `id` moved one step, where it exists.
pub open spec fn nodes_after_move(
    nodes: Seq<Option<Node>>,
    id: NodeId,
    m: MoveDirection,
    sprinting: bool,
) -> Seq<Option<Node>> {
    if id.index < nodes.len() && nodes[id.index as int] is Some {
        nodes.update(
            id.index as int,
            Some(moved_body(nodes[id.index as int]->Some_0, m, sprinting)),
        )
    } else {
        nodes
    }
}

fn axis_push(f: i64, v: i64, slow: bool) -> (r: i64)
    requires
        -3000000000 <= f <= 3000000000,
        -COORD_MAX <= v <= COORD_MAX,
    ensures
        r == axis_force(f as int, v as int, slow),
{
    if (f > 0 && v < 0) || (f < 0 && v > 0) {
        f - v * MOVEMENT_FORCE
    } else if slow {
        f * MOVEMENT_FORCE
    } else {
        f
    }
}

fn square(x: i64) -> (r: i64)
    requires
        -COORD_MAX <= x <= COORD_MAX,
    ensures
        r == x * x,
        0 <= r <= 1000000000000000000,
{
    proof {
        assert(0 <= x * x <= 1000000000000000000) by (nonlinear_arith)
            requires
                -1000000000 <= x <= 1000000000,
        ;
    }
    x * x
}

/// The movement step of a body with intent `m`.
pub fn move_body(body: &Node, m: &MoveDirection, sprinting: bool) -> (r: Node)
    requires
        body.wf(),
    ensures
        r == moved_body(*body, *m, sprinting),
        r.wf(),
{
    let v = body.physics.velocity;
    let force = if m.is_moving() {
        let dir = m.to_vec3();
        let f = rotate(&body.rotation, &dir);
        let slow = square(v.x) + square(v.y) + square(v.z) < SPEED_CAP * SPEED_CAP;
        Vec3 { x: axis_push(f.x, v.x, slow), y: 0, z: axis_push(f.z, v.z, slow) }
    } else {
        Vec3 { x: -v.x * MOVEMENT_FORCE, y: 0, z: -v.z * MOVEMENT_FORCE }
    };
    let pushed = Node { physics: Physics { force, ..body.physics }, ..*body };
    if sprinting {
        let dash = rotate(&body.rotation, &Vec3 { x: 0, y: 0, z: DASH_SPEED });
        Node { physics: Physics { velocity: clamp_vec(&dash), ..pushed.physics }, ..pushed }
    } else {
        pushed
    }
}

/// Settings for a new player: which scene it enters, how many slots it carries, its team,
/// mana, health, mass (in thousandths) and where it starts.
#[derive(Clone, Copy, Debug, PartialEq, Eq, Structural)]
pub struct PlayerBuilder {
    pub scene_id: SceneId,
    pub inventory_size: usize,
    pub team: u32,
    pub mana: u32,
    pub health: u32,
    pub mass: i64,
    pub translation: Vec3,
}

/// The body that `PlayerBuilder::build` puts in the world.
pub open spec fn built_body(b: PlayerBuilder) -> Node {
    Node {
        parent: NodeParent::Scene(b.scene_id),
        translation: clamp_vec_spec(b.translation),
        physics: Physics { typ: PhysicsType::Dynamic, mass: b.mass, ..Node::new_spec().physics },
        collision_shape: Some(CollisionShape::Capsule { radius: 500, height: 1800 }),
        ..Node::new_spec()
    }
}

impl PlayerBuilder {
    /// Ten slots, team zero, a hundred mana and health, a mass of 45, at the origin.
    pub fn new(scene_id: SceneId) -> (r: PlayerBuilder)
        ensures
            r == (PlayerBuilder {
                scene_id,
                inventory_size: 10,
                team: 0,
                mana: 100,
                health: 100,
                mass: 45000,
                translation: Vec3 { x: 0, y: 0, z: 0 },
            }),
    {
        PlayerBuilder {
            scene_id,
            inventory_size: 10,
            team: 0,
            mana: 100,
            health: 100,
            mass: 45000,
            translation: Vec3::zero(),
        }
    }

    pub fn team(self, team: u32) -> (r: PlayerBuilder)
        ensures
            r == (PlayerBuilder { team, ..self }),
    {
        PlayerBuilder { team, ..self }
    }

    pub fn inventory_size(self, size: usize) -> (r: PlayerBuilder)
        ensures
            r == (PlayerBuilder { inventory_size: size, ..self }),
    {
        PlayerBuilder { inventory_size: size, ..self }
    }

    pub fn mana(self, mana: u32) -> (r: PlayerBuilder)
        ensures
            r == (PlayerBuilder { mana, ..self }),
    {
        PlayerBuilder { mana, ..self }
    }

    pub fn health(self, health: u32) -> (r: PlayerBuilder)
        ensures
            r == (PlayerBuilder { health, ..self }),
    {
        PlayerBuilder { health, ..self }
    }

    pub fn mass(self, mass: i64) -> (r: PlayerBuilder)
        ensures
            r == (PlayerBuilder { mass, ..self }),
    {
        PlayerBuilder { mass, ..self }
    }

    pub fn translation(self, translation: Vec3) -> (r: PlayerBuilder)
        ensures
            r == (PlayerBuilder { translation, ..self }),
    {
        PlayerBuilder { translation, ..self }
    }

    /// Puts a dynamic capsule body in the scene and returns the player that owns it, with an
    /// empty inventory and no posture set.
    pub fn build(self, world: &mut World) -> (r: Player)
        requires
            old(world).wf(),
            old(world).nodes@.len() < usize::MAX,
        ensures
            final(world).nodes@ == old(world).nodes@.push(Some(built_body(self))),
            final(world).scene_count == old(world).scene_count,
            final(world).cube_meshes == old(world).cube_meshes,
            final(world).wf(),
            r == (Player {
                node_id: NodeId { index: old(world).nodes@.len() as usize },
                team: self.team,
                mana: self.mana,
                health: self.health,
                ..r
            }),
            r.fresh(),
    {
        let base = Node::new();
        let body = Node {
            parent: NodeParent::Scene(self.scene_id),
            translation: clamp_vec(&self.translation),
            physics: Physics { typ: PhysicsType::Dynamic, mass: self.mass, ..base.physics },
            collision_shape: Some(CollisionShape::Capsule { radius: 500, height: 1800 }),
            ..base
        };
        let node_id = world.insert(body);
        Player {
            node_id,
            mana: self.mana,
            health: self.health,
            team: self.team,
            inventory: Inventory::new(self.inventory_size),
            sprinting: false,
            jumping: false,
            crouching: false,
            prone: false,
            death: false,
            movdir: MoveDirection::new(),
            yaw: 0,
            pitch: 0,
        }
    }
}

/// An actor: one body in the world, one inventory, and its posture.
pub struct Player {
    pub node_id: NodeId,
    pub mana: u32,
    pub health: u32,
    pub team: u32,
    pub inventory: Inventory,
    pub sprinting: bool,
    pub jumping: bool,
    pub crouching: bool,
    pub prone: bool,
    pub death: bool,
    pub movdir: MoveDirection,
    /// Heading about the vertical, in milliradians, in `0..YAW_TURN`.
    pub yaw: i64,
    /// Tilt up or down, in milliradians, within `PITCH_LIMIT` either way.
    pub pitch: i64,
}

/// A full turn of heading, in whole milliradians.
pub const YAW_TURN: i64 = 6283;

/// How far the view tilts up or down, in milliradians.
pub const PITCH_LIMIT: i64 = 1500;

/// Milliradians of turn per pixel of mouse movement.
pub const LOOK_SENSITIVITY: i64 = 2;

/// The heading after a mouse movement of `dx` pixels, wrapped into one turn.
pub open spec fn yaw_after(yaw: int, dx: int) -> int {
    (yaw + LOOK_SENSITIVITY * dx) % (YAW_TURN as int)
}

/// The tilt after a mouse movement of `dy` pixels, held within the limit.
pub open spec fn pitch_after(pitch: int, dy: int) -> int {
    let p = pitch + LOOK_SENSITIVITY * dy;
    if p > PITCH_LIMIT {
        PITCH_LIMIT as int
    } else if p < -PITCH_LIMIT {
        -PITCH_LIMIT
    } else {
        p
    }
}

/// `after` is `before` with the items of its inventory alone changed.
pub open spec fn same_but_items(before: Player, after: Player) -> bool {
    &&& after.node_id == before.node_id
    &&& after.yaw == before.yaw && after.pitch == before.pitch
    &&& after.mana == before.mana && after.health == before.health && after.team == before.team
    &&& after.sprinting == before.sprinting && after.jumping == before.jumping
    &&& after.crouching == before.crouching && after.prone == before.prone
    &&& after.death == before.death && after.movdir == before.movdir
    &&& after.inventory.active == before.inventory.active
}

/// `after` is `before` with its view and the items of its inventory alone changed.
pub open spec fn same_but_look_and_items(before: Player, after: Player) -> bool {
    &&& after.node_id == before.node_id
    &&& after.mana == before.mana && after.health == before.health && after.team == before.team
    &&& after.sprinting == before.sprinting && after.jumping == before.jumping
    &&& after.crouching == before.crouching && after.prone == before.prone
    &&& after.death == before.death && after.movdir == before.movdir
    &&& after.inventory.active == before.inventory.active
}

/// `after` is `before` with its inventory alone possibly changed.
pub open spec fn same_but_inventory(before: Player, after: Player) -> bool {
    &&& after.node_id == before.node_id
    &&& after.yaw == before.yaw && after.pitch == before.pitch
    &&& after.mana == before.mana && after.health == before.health && after.team == before.team
    &&& after.sprinting == before.sprinting && after.jumping == before.jumping
    &&& after.crouching == before.crouching && after.prone == before.prone
    &&& after.death == before.death && after.movdir == before.movdir
}

/// `after` is `before` with one posture flag alone possibly changed.
pub open spec fn same_but_posture(before: Player, after: Player) -> bool {
    &&& after.node_id == before.node_id
    &&& after.yaw == before.yaw && after.pitch == before.pitch
    &&& after.mana == before.mana && after.health == before.health && after.team == before.team
    &&& after.death == before.death && after.movdir == before.movdir
    &&& after.inventory == before.inventory
}

impl Player {
    pub open spec fn wf(&self) -> bool {
        &&& self.inventory.wf()
        &&& 0 <= self.yaw < YAW_TURN
        &&& -PITCH_LIMIT <= self.pitch <= PITCH_LIMIT
    }

    /// Empty-handed, standing still, alive, with no posture set.
    pub open spec fn fresh(&self) -> bool {
        &&& self.inventory.active is None
        &&& self.inventory.items@.len() == 0
        &&& !self.sprinting && !self.jumping && !self.crouching && !self.prone && !self.death
        &&& self.movdir == MoveDirection::new_spec()
    }

    /// A player that owns the body `node_id` and `inventory`: team zero, a hundred mana and
    /// health, with no posture set.
    pub fn new(node_id: NodeId, inventory: Inventory) -> (r: Player)
        ensures
            r.node_id == node_id,
            r.inventory == inventory,
            r.team == 0 && r.mana == 100 && r.health == 100,
            !r.sprinting && !r.jumping && !r.crouching && !r.prone && !r.death,
            r.movdir == MoveDirection::new_spec(),
            r.yaw == 0 && r.pitch == 0,
    {
        Player {
            node_id,
            mana: 100,
            health: 100,
            team: 0,
            inventory,
            sprinting: false,
            jumping: false,
            crouching: false,
            prone: false,
            death: false,
            movdir: MoveDirection::new(),
            yaw: 0,
            pitch: 0,
        }
    }

    /// One frame of movement: the body gets its movement force and, while sprinting, its
    /// dash. Nothing else changes, the inventory included.
    pub fn process(&mut self, world: &mut World)
        requires
            old(world).wf(),
        ensures
            *final(self) == *old(self),
            final(world).nodes@ == nodes_after_move(
                old(world).nodes@,
                old(self).node_id,
                old(self).movdir,
                old(self).sprinting,
            ),
            final(world).scene_count == old(world).scene_count,
            final(world).cube_meshes == old(world).cube_meshes,
            final(world).wf(),
    {
        match world.get(self.node_id) {
            Some(body) => {
                let moved = move_body(&body, &self.movdir, self.sprinting);
                world.set_node(self.node_id, moved);
            },
            None => {},
        }
    }

    /// Turns the view by a mouse movement: the heading wraps around, the tilt stops at the
    /// limit.
    pub fn look(&mut self, dx: i32, dy: i32)
        requires
            old(self).wf(),
        ensures
            final(self).yaw == yaw_after(old(self).yaw as int, dx as int),
            final(self).pitch == pitch_after(old(self).pitch as int, dy as int),
            final(self).wf(),
            final(self).node_id == old(self).node_id,
            final(self).inventory == old(self).inventory,
            final(self).movdir == old(self).movdir,
            final(self).sprinting == old(self).sprinting,
            final(self).death == old(self).death,
            final(self).mana == old(self).mana,
            final(self).health == old(self).health,
            final(self).team == old(self).team,
            final(self).jumping == old(self).jumping,
            final(self).crouching == old(self).crouching,
            final(self).prone == old(self).prone,
    {
        let shifted: i64 = self.yaw + LOOK_SENSITIVITY * (dx as i64) + 700000 * YAW_TURN;
        proof {
            vstd::arithmetic::div_mod::lemma_mod_multiples_vanish(
                700000,
                self.yaw + LOOK_SENSITIVITY * dx,
                YAW_TURN as int,
            );
            assert(shifted == YAW_TURN * 700000 + (self.yaw + LOOK_SENSITIVITY * dx));
        }
        self.yaw = shifted % YAW_TURN;
        let p: i64 = self.pitch + LOOK_SENSITIVITY * (dy as i64);
        self.pitch = if p > PITCH_LIMIT {
            PITCH_LIMIT
        } else if p < -PITCH_LIMIT {
            -PITCH_LIMIT
        } else {
            p
        };
    }

    /// Sets the body's rotation to `facing`, the rotation of the current heading and tilt; a
    /// missing body is left alone.
    pub fn face(&self, world: &mut World, facing: Basis)
        requires
            old(world).wf(),
            facing.wf(),
        ensures
            final(world).nodes@ == (if old(world).has(self.node_id) {
                old(world).nodes@.update(
                    self.node_id.index as int,
                    Some(Node { rotation: facing, ..old(world).node(self.node_id) }),
                )
            } else {
                old(world).nodes@
            }),
            final(world).scene_count == old(world).scene_count,
            final(world).cube_meshes == old(world).cube_meshes,
            final(world).wf(),
    {
        match world.get(self.node_id) {
            Some(body) => world.set_node(self.node_id, Node { rotation: facing, ..body }),
            None => {},
        }
    }

    /// Equips slot `index`, hanging its item under this player's body.
    pub fn equip(&mut self, index: usize, world: &mut World)
        requires
            old(self).wf(),
            old(world).wf(),
        ensures
            final(self).inventory.items@ == old(self).inventory.items@,
            final(self).inventory.active == (if index < old(self).inventory.items@.len() {
                Some(index)
            } else {
                old(self).inventory.active
            }),
            final(world).nodes@ == crate::inventory::nodes_after_equip(
                old(self).inventory.items@,
                old(self).inventory.active,
                old(world).nodes@,
                index as int,
                old(self).node_id,
            ),
            final(world).scene_count == old(world).scene_count,
            final(world).cube_meshes == old(world).cube_meshes,
            same_but_inventory(*old(self), *final(self)),
            final(self).wf(),
            final(world).wf(),
    {
        self.inventory.equip(index, world, self.node_id);
    }

    /// The same as `equip`.
    pub fn switch_item(&mut self, world: &mut World, index: usize)
        requires
            old(self).wf(),
            old(world).wf(),
        ensures
            final(self).inventory.items@ == old(self).inventory.items@,
            final(self).inventory.active == (if index < old(self).inventory.items@.len() {
                Some(index)
            } else {
                old(self).inventory.active
            }),
            final(world).nodes@ == crate::inventory::nodes_after_equip(
                old(self).inventory.items@,
                old(self).inventory.active,
                old(world).nodes@,
                index as int,
                old(self).node_id,
            ),
            final(world).scene_count == old(world).scene_count,
            final(world).cube_meshes == old(world).cube_meshes,
            same_but_inventory(*old(self), *final(self)),
            final(self).wf(),
            final(world).wf(),
    {
        self.inventory.equip(index, world, self.node_id);
    }

    /// Hands an input edge to the active item; with bare hands nothing happens.
    pub fn act(&mut self, action: Action)
        requires
            old(self).wf(),
        ensures
            same_but_items(*old(self), *final(self)),
            final(self).inventory.items@ == (match old(self).inventory.active {
                Some(a) => old(self).inventory.items@.update(
                    a as int,
                    old(self).inventory.items@[a as int].after_action(action),
                ),
                None => old(self).inventory.items@,
            }),
            final(self).wf(),
    {
        self.inventory.act(action);
    }

    /// Presses the primary action of the active item.
    pub fn start_primary_action(&mut self)
        requires
            old(self).wf(),
        ensures
            same_but_items(*old(self), *final(self)),
            final(self).inventory.items@ == old(self).inventory.items_after(Action::StartPrimary),
            final(self).wf(),
    {
        self.inventory.act(Action::StartPrimary);
    }

    /// Releases the primary action of the active item.
    pub fn stop_primary_action(&mut self)
        requires
            old(self).wf(),
        ensures
            same_but_items(*old(self), *final(self)),
            final(self).inventory.items@ == old(self).inventory.items_after(Action::StopPrimary),
            final(self).wf(),
    {
        self.inventory.act(Action::StopPrimary);
    }

    /// Presses the secondary action of the active item.
    pub fn start_secondary_action(&mut self)
        requires
            old(self).wf(),
        ensures
            same_but_items(*old(self), *final(self)),
            final(self).inventory.items@ == old(self).inventory.items_after(Action::StartSecondary),
            final(self).wf(),
    {
        self.inventory.act(Action::StartSecondary);
    }

    /// Releases the secondary action of the active item.
    pub fn stop_secondary_action(&mut self)
        requires
            old(self).wf(),
        ensures
            same_but_items(*old(self), *final(self)),
            final(self).inventory.items@ == old(self).inventory.items_after(Action::StopSecondary),
            final(self).wf(),
    {
        self.inventory.act(Action::StopSecondary);
    }

    /// Presses the third action of the active item.
    pub fn start_third_action(&mut self)
        requires
            old(self).wf(),
        ensures
            same_but_items(*old(self), *final(self)),
            final(self).inventory.items@ == old(self).inventory.items_after(Action::StartThird),
            final(self).wf(),
    {
        self.inventory.act(Action::StartThird);
    }

    /// Releases the third action of the active item.
    pub fn stop_third_action(&mut self)
        requires
            old(self).wf(),
        ensures
            same_but_items(*old(self), *final(self)),
            final(self).inventory.items@ == old(self).inventory.items_after(Action::StopThird),
            final(self).wf(),
    {
        self.inventory.act(Action::StopThird);
    }

    pub fn start_sprinting(&mut self)
        ensures
            same_but_posture(*old(self), *final(self)),
            final(self).sprinting == true,
            final(self).jumping == old(self).jumping,
            final(self).crouching == old(self).crouching,
            final(self).prone == old(self).prone,
    {
        self.sprinting = true;
    }

    pub fn stop_sprinting(&mut self)
        ensures
            same_but_posture(*old(self), *final(self)),
            final(self).sprinting == false,
            final(self).jumping == old(self).jumping,
            final(self).crouching == old(self).crouching,
            final(self).prone == old(self).prone,
    {
        self.sprinting = false;
    }

    pub fn start_crouching(&mut self)
        ensures
            same_but_posture(*old(self), *final(self)),
            final(self).crouching == true,
            final(self).sprinting == old(self).sprinting,
            final(self).jumping == old(self).jumping,
            final(self).prone == old(self).prone,
    {
        self.crouching = true;
    }

    pub fn stop_crouching(&mut self)
        ensures
            same_but_posture(*old(self), *final(self)),
            final(self).crouching == false,
            final(self).sprinting == old(self).sprinting,
            final(self).jumping == old(self).jumping,
            final(self).prone == old(self).prone,
    {
        self.crouching = false;
    }

    pub fn start_prone(&mut self)
        ensures
            same_but_posture(*old(self), *final(self)),
            final(self).prone == true,
            final(self).sprinting == old(self).sprinting,
            final(self).jumping == old(self).jumping,
            final(self).crouching == old(self).crouching,
    {
        self.prone = true;
    }

    pub fn stop_prone(&mut self)
        ensures
            same_but_posture(*old(self), *final(self)),
            final(self).prone == false,
            final(self).sprinting == old(self).sprinting,
            final(self).jumping == old(self).jumping,
            final(self).crouching == old(self).crouching,
    {
        self.prone = false;
    }

    /// Giving up the active item is not supported: nothing changes.
    pub fn drop(&mut self, world: &mut World)
        ensures
            *final(world) == *old(world),
            same_but_posture(*old(self), *final(self)),
            final(self).sprinting == old(self).sprinting,
            final(self).jumping == old(self).jumping,
            final(self).crouching == old(self).crouching,
            final(self).prone == old(self).prone,
    {
        self.inventory.drop(world);
    }

    /// Sets the vertical speed of the body to a jump's; a missing body is left alone.
    pub fn jump(&mut self, world: &mut World)
        requires
            old(world).wf(),
        ensures
            final(world).nodes@ == (if old(world).has(old(self).node_id) {
                old(world).nodes@.update(
                    old(self).node_id.index as int,
                    Some(
                        Node {
                            physics: Physics {
                                velocity: Vec3 {
                                    y: JUMP_SPEED,
                                    ..old(world).node(old(self).node_id).physics.velocity
                                },
                                ..old(world).node(old(self).node_id).physics
                            },
                            ..old(world).node(old(self).node_id)
                        },
                    ),
                )
            } else {
                old(world).nodes@
            }),
            final(world).scene_count == old(world).scene_count,
            final(world).cube_meshes == old(world).cube_meshes,
            final(world).wf(),
            *final(self) == *old(self),
    {
        match world.get(self.node_id) {
            Some(body) => {
                let v = Vec3 { y: JUMP_SPEED, ..body.physics.velocity };
                world.set_node(self.node_id, Node { physics: Physics { velocity: v, ..body.physics }, ..body });
            },
            None => {},
        }
    }
}

/// The force rule caps the push: at or above the speed cap, an intent that does not work
/// against the current motion on an axis is not amplified there, so the force on that axis
/// is the turned intent itself; below the cap it is that intent times `MOVEMENT_FORCE`. The
/// force never lifts.
pub proof fn lemma_push_capped(body: Node, m: MoveDirection)
    requires
        m.moving(),
    ensures
        ({
            let f = rotated(body.rotation, intent(m));
            let v = body.physics.velocity;
            let force = movement_force(body, m);
            &&& force.y == 0
            &&& !((f.x > 0 && v.x < 0) || (f.x < 0 && v.x > 0)) ==> force.x == (if below_cap(v) {
                (f.x * MOVEMENT_FORCE) as i64
            } else {
                f.x
            })
            &&& !((f.z > 0 && v.z < 0) || (f.z < 0 && v.z > 0)) ==> force.z == (if below_cap(v) {
                (f.z * MOVEMENT_FORCE) as i64
            } else {
                f.z
            })
        }),
{
}

} // verus!
