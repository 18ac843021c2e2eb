use vstd::prelude::*;

use crate::inventory::Inventory;
use crate::item::{Action, Equipment, Firearm, Item, Melee};
use crate::npc::{npc_frame_nodes, Npc};
use crate::player::{
    pitch_after, same_but_items, same_but_look_and_items, yaw_after, MoveDirection, Player,
};
use crate::world::{
    clamp_vec, clamp_vec_spec, Basis, CollisionShape, Node, NodeId, NodeParent, Physics, PhysicsType,
    SceneId, Vec3, World,
};

verus! {

/// Time between two spawns of a wave, in microseconds.
pub const SPAWN_INTERVAL: u64 = 2000000;

/// How many more enemies each wave brings than the one before.
pub const WAVE_GROWTH: u32 = 5;

/// The keys the game reacts to.
#[derive(Clone, Copy, Debug, PartialEq, Eq, Structural)]
pub enum KeyboardKey {
    W,
    S,
    A,
    D,
    ShiftLeft,
    Space,
    G,
    F,
    Digit1,
    Digit2,
    Digit3,
    Digit4,
    Digit5,
    Digit6,
    Other,
}

#[derive(Clone, Copy, Debug, PartialEq, Eq, Structural)]
pub enum KeyAction {
    Pressed,
    Released,
}

#[derive(Clone, Copy, Debug, PartialEq, Eq, Structural)]
pub enum MouseButton {
    Left,
    Right,
    Middle,
    Other,
}

/// A mouse event; movements are in pixels.
#[derive(Clone, Copy, Debug, PartialEq, Eq, Structural)]
pub enum MouseEvent {
    Moved { dx: i32, dy: i32 },
    Pressed { button: MouseButton },
    Released { button: MouseButton },
}

/// The inventory slot that a number key equips.
pub open spec fn digit_slot(key: KeyboardKey) -> Option<usize> {
    match key {
        KeyboardKey::Digit1 => Some(0usize),
        KeyboardKey::Digit2 => Some(1usize),
        KeyboardKey::Digit3 => Some(2usize),
        KeyboardKey::Digit4 => Some(3usize),
        KeyboardKey::Digit5 => Some(4usize),
        KeyboardKey::Digit6 => Some(5usize),
        _ => None,
    }
}

/// The held movement keys after a key edge.
pub open spec fn movdir_after(m: MoveDirection, key: KeyboardKey, action: KeyAction) -> MoveDirection {
    let down = action == KeyAction::Pressed;
    match key {
        KeyboardKey::W => MoveDirection { forward: down, ..m },
        KeyboardKey::S => MoveDirection { backward: down, ..m },
        KeyboardKey::A => MoveDirection { left: down, ..m },
        KeyboardKey::D => MoveDirection { right: down, ..m },
        _ => m,
    }
}

/// The item action that a mouse button edge stands for.
pub open spec fn mouse_action(event: MouseEvent) -> Option<Action> {
    match event {
        MouseEvent::Pressed { button } => match button {
            MouseButton::Left => Some(Action::StartPrimary),
            MouseButton::Right => Some(Action::StartSecondary),
            MouseButton::Middle => Some(Action::StartThird),
            MouseButton::Other => None,
        },
        MouseEvent::Released { button } => match button {
            MouseButton::Left => Some(Action::StopPrimary),
            MouseButton::Right => Some(Action::StopSecondary),
            MouseButton::Middle => Some(Action::StopThird),
            MouseButton::Other => None,
        },
        MouseEvent::Moved { .. } => None,
    }
}

/// Where enemies and the player appear, and the map's own per-frame work. Each map of the
/// game implements it.
pub trait SurvivalMap {
    fn get_mob_spawn_point(&mut self) -> Vec3;

    fn get_player_spawn_point(&mut self) -> Vec3;

    /// The map's per-frame work; it keeps the world well formed.
    fn process(&mut self, world: &mut World)
        requires
            old(world).wf(),
        ensures
            final(world).wf(),
    ;
}

/// The body of a spawned enemy.
pub open spec fn mob_body(scene: SceneId, at: Vec3) -> Node {
    Node {
        parent: NodeParent::Scene(scene),
        translation: clamp_vec_spec(at),
        physics: Physics { mass: 10000, typ: PhysicsType::Dynamic, ..Node::new_spec().physics },
        collision_shape: Some(CollisionShape::Box { size: Vec3 { x: 1500, y: 2000, z: 1500 } }),
        ..Node::new_spec()
    }
}

/// Makes enemies in one scene.
#[derive(Clone, Copy, Debug, PartialEq, Eq, Structural)]
pub struct MobSpawner {
    pub main_scene_id: SceneId,
}

impl MobSpawner {
    pub fn new(main_scene_id: SceneId) -> (r: MobSpawner)
        ensures
            r.main_scene_id == main_scene_id,
    {
        MobSpawner { main_scene_id }
    }

    /// Puts a dynamic box body at `translation` in the scene and wraps it as an enemy with
    /// four empty slots. A loaded `model`, if given, is hung under the body.
    pub fn spawn(&mut self, world: &mut World, translation: Vec3, model: Option<NodeId>) -> (r: Npc)
        requires
            old(world).wf(),
            old(world).nodes@.len() < usize::MAX,
        ensures
            *final(self) == *old(self),
            r.player.node_id == (NodeId { index: old(world).nodes@.len() as usize }),
            r.player.inventory.items@.len() == 0,
            r.player.inventory.active is None,
            r.player.fresh(),
            final(world).nodes@ == (match model {
                Some(m) => crate::world::with_parent(
                    old(world).nodes@.push(Some(mob_body(old(self).main_scene_id, translation))),
                    m,
                    NodeParent::Node(r.player.node_id),
                ),
                None => old(world).nodes@.push(Some(mob_body(old(self).main_scene_id, translation))),
            }),
            final(world).scene_count == old(world).scene_count,
            final(world).cube_meshes == old(world).cube_meshes,
            final(world).wf(),
            r.wf(),
    {
        let base = Node::new();
        let body = Node {
            parent: NodeParent::Scene(self.main_scene_id),
            translation: clamp_vec(&translation),
            physics: Physics { mass: 10000, typ: PhysicsType::Dynamic, ..base.physics },
            collision_shape: Some(CollisionShape::Box { size: Vec3 { x: 1500, y: 2000, z: 1500 } }),
            ..base
        };
        let id = world.insert(body);
        let player = Player::new(id, Inventory::new(4));
        match model {
            Some(m) => world.set_parent(m, NodeParent::Node(id)),
            None => {},
        }
        Npc::new(player)
    }
}

/// `after` is `before` after its items' frame of `dt` microseconds, with nothing else of it
/// changed.
pub open spec fn ticked(before: Player, after: Player, dt: u32) -> bool {
    &&& same_but_items(before, after)
    &&& after.inventory.items@.len() == before.inventory.items@.len()
    &&& forall|i: int|
        0 <= i < before.inventory.items@.len() ==> #[trigger] after.inventory.items@[i]
            == before.inventory.items@[i].after_process(dt)
}

/// `nodes` after the human player's frame: its movement step, then its items' frames.
pub open spec fn player_frame_nodes(nodes: Seq<Option<Node>>, p: Player, dt: u32) -> Seq<
    Option<Node>,
> {
    crate::inventory::nodes_after_items(
        p.inventory.items@,
        crate::player::nodes_after_move(nodes, p.node_id, p.movdir, p.sprinting),
        dt,
        p.inventory.items@.len(),
    )
}

/// `nodes` after the frames of the first `k` enemies of `enemies`, in roster order, each
/// chasing the node `target`.
pub open spec fn roster_nodes(
    nodes: Seq<Option<Node>>,
    enemies: Seq<Npc>,
    target: NodeId,
    dt: u32,
    k: nat,
) -> Seq<Option<Node>>
    decreases k,
{
    if k == 0 {
        nodes
    } else {
        npc_frame_nodes(
            roster_nodes(nodes, enemies, target, dt, (k - 1) as nat),
            enemies[k - 1].player,
            target,
            dt,
        )
    }
}

/// Whether every enemy of the roster is dead; true of an empty roster.
pub open spec fn all_dead(enemies: Seq<Npc>) -> bool {
    forall|i: int| 0 <= i < enemies.len() ==> (#[trigger] enemies[i]).player.death
}

/// Whether an enemy is still alive.
pub open spec fn alive(n: Npc) -> bool {
    !n.player.death
}

/// `nodes` without the bodies of the dead among `enemies`.
pub open spec fn without_dead_bodies(nodes: Seq<Option<Node>>, enemies: Seq<Npc>) -> Seq<
    Option<Node>,
>
    decreases enemies.len(),
{
    if enemies.len() == 0 {
        nodes
    } else {
        let rest = without_dead_bodies(nodes, enemies.drop_last());
        let body = enemies.last().player.node_id;
        if enemies.last().player.death && body.index < rest.len() {
            rest.update(body.index as int, None)
        } else {
            rest
        }
    }
}

/// The survival game mode: the human player, the enemies spawned so far, and the waves.
pub struct Survival<M: SurvivalMap> {
    pub player: Player,
    pub main_scene_id: SceneId,
    pub wave: u32,
    pub enemies: Vec<Npc>,
    pub max_enemies: u32,
    pub enemies_spawned: u32,
    /// Microseconds since the last spawn, counted up to the spawn interval.
    pub since_last_spawn: u64,
    pub map: M,
    pub spawner: MobSpawner,
}

impl<M: SurvivalMap> Survival<M> {
    pub open spec fn wf(&self) -> bool {
        &&& self.player.wf()
        &&& forall|i: int| 0 <= i < self.enemies@.len() ==> (#[trigger] self.enemies@[i]).wf()
        &&& self.since_last_spawn <= SPAWN_INTERVAL
        &&& self.enemies_spawned <= self.max_enemies
        &&& self.spawner.main_scene_id == self.main_scene_id
    }

    /// Whether the current wave is over: all its enemies were spawned and are dead.
    pub open spec fn wave_over(&self) -> bool {
        self.enemies_spawned >= self.max_enemies && all_dead(self.enemies@)
    }

    /// Whether a frame of `dt` microseconds is due to spawn an enemy.
    pub open spec fn spawn_due(&self, dt: u32) -> bool {
        !self.wave_over() && self.enemies_spawned < self.max_enemies && self.since_last_spawn
            + dt >= SPAWN_INTERVAL
    }

    /// A match in `scene` with `map`: the human player's body stands a unit above the origin,
    /// carrying a firearm shown by `firearm_model` and a melee weapon shown by
    /// `melee_model`. The first wave holds ten enemies.
    pub fn new(
        world: &mut World,
        scene: SceneId,
        map: M,
        firearm_model: NodeId,
        melee_model: NodeId,
    ) -> (r: Survival<M>)
        requires
            old(world).wf(),
            old(world).nodes@.len() < usize::MAX,
        ensures
            r.wf(),
            final(world).wf(),
            r.wave == 0,
            r.max_enemies == 10,
            r.enemies_spawned == 0,
            r.since_last_spawn == 0,
            r.enemies@.len() == 0,
            r.main_scene_id == scene,
            r.spawner.main_scene_id == scene,
            r.player.node_id == (NodeId { index: old(world).nodes@.len() as usize }),
            final(world).cube_meshes@ == old(world).cube_meshes@.push(crate::item::BULLET_SIZE),
            final(world).scene_count == old(world).scene_count,
            final(world).nodes@ == crate::item::melee_posed_nodes(
                crate::item::firearm_posed_nodes(old(world).nodes@, firearm_model),
                melee_model,
            ).push(Some(
                Node {
                    parent: NodeParent::Scene(scene),
                    translation: Vec3 { x: 0, y: 1000, z: 0 },
                    physics: Physics { mass: 100000, typ: PhysicsType::Dynamic, ..Node::new_spec().physics },
                    collision_shape: Some(CollisionShape::Box { size: Vec3 { x: 500, y: 1800, z: 500 } }),
                    ..Node::new_spec()
                },
            )),
            r.player.inventory.active is None,
            r.player.inventory.items@.len() == 2,
            r.player.inventory.items@[0] == Equipment::Firearm(
                Firearm {
                    node: firearm_model,
                    shooting: false,
                    since_last_shot: 0,
                    bullet_mesh: crate::world::MeshId {
                        index: old(world).cube_meshes@.len() as usize,
                    },
                    scene,
                },
            ),
            r.player.inventory.items@[1] == Equipment::Melee(
                Melee { node: melee_model, attacking: false, target: crate::item::melee_ready_pose() },
            ),
            !r.player.death && !r.player.sprinting,
    {
        let base = Node::new();
        let body = Node {
            parent: NodeParent::Scene(scene),
            translation: Vec3 { x: 0, y: 1000, z: 0 },
            physics: Physics { mass: 100000, typ: PhysicsType::Dynamic, ..base.physics },
            collision_shape: Some(CollisionShape::Box { size: Vec3 { x: 500, y: 1800, z: 500 } }),
            ..base
        };
        let firearm = Firearm::new(world, firearm_model, scene);
        let melee = Melee::new(world, melee_model);
        let body_id = world.insert(body);
        let mut player = Player::new(body_id, Inventory::new(4));
        player.inventory.add_item(Equipment::Firearm(firearm));
        player.inventory.add_item(Equipment::Melee(melee));
        Survival {
            player,
            main_scene_id: scene,
            wave: 0,
            enemies: Vec::new(),
            max_enemies: 10,
            enemies_spawned: 0,
            since_last_spawn: 0,
            map,
            spawner: MobSpawner::new(scene),
        }
    }

    /// Starts the next wave: five more enemies than the last, none spawned yet. The roster
    /// is kept.
    fn start_next_wave(&mut self)
        requires
            old(self).wf(),
        ensures
            final(self).wave == old(self).wave.saturating_add(1),
            final(self).max_enemies == old(self).max_enemies.saturating_add(WAVE_GROWTH),
            final(self).enemies_spawned == 0,
            final(self).enemies@ == old(self).enemies@,
            final(self).since_last_spawn == old(self).since_last_spawn,
            final(self).player == old(self).player,
            final(self).main_scene_id == old(self).main_scene_id,
            final(self).spawner == old(self).spawner,
            final(self).map == old(self).map,
            final(self).wf(),
    {
        self.wave = self.wave.saturating_add(1);
        self.max_enemies = self.max_enemies.saturating_add(WAVE_GROWTH);
        self.enemies_spawned = 0;
    }
    /// What a key edge does to a match `s0` and its world `w0`: `s1` and `w1` after it.
    pub open spec fn keyboard_post(
        s0: Survival<M>,
        s1: Survival<M>,
        w0: World,
        w1: World,
        key: KeyboardKey,
        action: KeyAction,
    ) -> bool {
        let pressed = action == KeyAction::Pressed;
        &&& s1.wf()
        &&& w1.wf()
        &&& s1.player.movdir == movdir_after(s0.player.movdir, key, action)
        &&& s1.player.sprinting == (if key == KeyboardKey::ShiftLeft {
            pressed
        } else {
            s0.player.sprinting
        })
        &&& s1.player.jumping == (if key == KeyboardKey::Space && !pressed {
            false
        } else {
            s0.player.jumping
        })
        &&& s1.player.node_id == s0.player.node_id
        &&& s1.player.death == s0.player.death
        &&& s1.player.crouching == s0.player.crouching
        &&& s1.player.prone == s0.player.prone
        &&& s1.player.mana == s0.player.mana
        &&& s1.player.health == s0.player.health
        &&& s1.player.team == s0.player.team
        &&& s1.player.yaw == s0.player.yaw
        &&& s1.player.pitch == s0.player.pitch
        &&& s1.player.inventory.items@ == s0.player.inventory.items@
        &&& s1.map == s0.map
        &&& s1.spawner == s0.spawner
        &&& s1.main_scene_id == s0.main_scene_id
        &&& s1.enemies@ == s0.enemies@
        &&& s1.wave == s0.wave
        &&& s1.max_enemies == s0.max_enemies
        &&& s1.enemies_spawned == s0.enemies_spawned
        &&& s1.since_last_spawn == s0.since_last_spawn
        &&& w1.scene_count == w0.scene_count
        &&& w1.cube_meshes == w0.cube_meshes
        &&& pressed && digit_slot(key) is Some ==> {
            &&& s1.player.inventory.active == (if digit_slot(key)->Some_0
                < s0.player.inventory.items@.len() {
                digit_slot(key)
            } else {
                s0.player.inventory.active
            })
            &&& w1.nodes@ == crate::inventory::nodes_after_equip(
                s0.player.inventory.items@,
                s0.player.inventory.active,
                w0.nodes@,
                digit_slot(key)->Some_0 as int,
                s0.player.node_id,
            )
        }
        &&& pressed && key == KeyboardKey::Space ==> {
            &&& s1.player.inventory.active == s0.player.inventory.active
            &&& w1.nodes@ == (if w0.has(s0.player.node_id) {
                w0.nodes@.update(
                    s0.player.node_id.index as int,
                    Some(
                        Node {
                            physics: Physics {
                                velocity: Vec3 {
                                    y: crate::player::JUMP_SPEED,
                                    ..w0.node(s0.player.node_id).physics.velocity
                                },
                                ..w0.node(s0.player.node_id).physics
                            },
                            ..w0.node(s0.player.node_id)
                        },
                    ),
                )
            } else {
                w0.nodes@
            })
        }
        &&& !(pressed && (digit_slot(key) is Some || key == KeyboardKey::Space)) ==> {
            &&& s1.player.inventory.active == s0.player.inventory.active
            &&& w1.nodes@ == w0.nodes@
        }
    }

    /// What a mouse event does to a match and its world.
    pub open spec fn mouse_post(
        s0: Survival<M>,
        s1: Survival<M>,
        w0: World,
        w1: World,
        event: MouseEvent,
    ) -> bool {
        &&& s1.wf()
        &&& w1 == w0
        &&& same_but_look_and_items(s0.player, s1.player)
        &&& match event {
            MouseEvent::Moved { dx, dy } => {
                &&& s1.player.yaw == yaw_after(s0.player.yaw as int, dx as int)
                &&& s1.player.pitch == pitch_after(s0.player.pitch as int, dy as int)
            },
            _ => s1.player.yaw == s0.player.yaw && s1.player.pitch == s0.player.pitch,
        }
        &&& s1.player.inventory.items@ == (match event {
            MouseEvent::Moved { dx, dy } => match s0.player.inventory.active {
                Some(a) => s0.player.inventory.items@.update(
                    a as int,
                    s0.player.inventory.items@[a as int].after_mouse_moved(dx as i64, dy as i64),
                ),
                None => s0.player.inventory.items@,
            },
            _ => match mouse_action(event) {
                Some(act) => s0.player.inventory.items_after(act),
                None => s0.player.inventory.items@,
            },
        })
        &&& s1.enemies@ == s0.enemies@
        &&& s1.wave == s0.wave
        &&& s1.max_enemies == s0.max_enemies
        &&& s1.enemies_spawned == s0.enemies_spawned
        &&& s1.since_last_spawn == s0.since_last_spawn
    }

    /// What a frame of `dt` microseconds does to a match and its world; `r` is the body of
    /// the enemy it spawned, if any.
    pub open spec fn process_post(
        s0: Survival<M>,
        s1: Survival<M>,
        w0: World,
        w1: World,
        dt: u32,
        r: Option<NodeId>,
    ) -> bool {
        &&& s1.wf()
        &&& w1.wf()
        &&& ticked(s0.player, s1.player, dt)
        &&& s1.enemies@.len() == s0.enemies@.len() + (if r is Some {
            1int
        } else {
            0int
        })
        &&& forall|i: int|
            0 <= i < s0.enemies@.len() ==> ticked(
                s0.enemies@[i].player,
                #[trigger] s1.enemies@[i].player,
                dt,
            )
        &&& s0.wave_over() ==> {
            &&& r is None
            &&& s1.wave == s0.wave.saturating_add(1)
            &&& s1.max_enemies == s0.max_enemies.saturating_add(WAVE_GROWTH)
            &&& s1.enemies_spawned == 0
        }
        &&& !s0.wave_over() ==> s1.wave == s0.wave && s1.max_enemies == s0.max_enemies
        &&& r matches Some(id) ==> {
            &&& s0.spawn_due(dt)
            &&& s1.enemies_spawned == s0.enemies_spawned + 1
            &&& s1.since_last_spawn == 0
            &&& s1.enemies@.last().player.node_id == id
            &&& s1.enemies@.last().player.fresh()
            &&& w1.has(id)
            &&& exists|p: Vec3| w1.nodes@[id.index as int] == Some(#[trigger] mob_body(s0.main_scene_id, p))
        }
        &&& r is None ==> s1.since_last_spawn == (if s0.since_last_spawn + dt > SPAWN_INTERVAL {
            SPAWN_INTERVAL as int
        } else {
            s0.since_last_spawn + dt
        })
        &&& r is None && !s0.wave_over() ==> s1.enemies_spawned == s0.enemies_spawned
    }

    /// Hands a key edge to the human player: movement keys set or clear the held
    /// directions, shift sprints, space jumps on press, the number keys equip the slots
    /// one to six, and the drop key gives nothing up. Other keys change nothing.
    pub fn on_keyboard_input(&mut self, key: KeyboardKey, action: KeyAction, world: &mut World)
        requires
            old(self).wf(),
            old(world).wf(),
        ensures
            Self::keyboard_post(*old(self), *final(self), *old(world), *final(world), key, action),
    {
        match action {
            KeyAction::Pressed => {
                match key {
                    KeyboardKey::W => self.player.movdir.forward = true,
                    KeyboardKey::S => self.player.movdir.backward = true,
                    KeyboardKey::A => self.player.movdir.left = true,
                    KeyboardKey::D => self.player.movdir.right = true,
                    KeyboardKey::ShiftLeft => self.player.start_sprinting(),
                    KeyboardKey::Space => self.player.jump(world),
                    KeyboardKey::G => self.player.drop(world),
                    KeyboardKey::Digit1 => self.player.equip(0, world),
                    KeyboardKey::Digit2 => self.player.equip(1, world),
                    KeyboardKey::Digit3 => self.player.equip(2, world),
                    KeyboardKey::Digit4 => self.player.equip(3, world),
                    KeyboardKey::Digit5 => self.player.equip(4, world),
                    KeyboardKey::Digit6 => self.player.equip(5, world),
                    _ => {},
                }
            },
            KeyAction::Released => {
                match key {
                    KeyboardKey::W => self.player.movdir.forward = false,
                    KeyboardKey::S => self.player.movdir.backward = false,
                    KeyboardKey::A => self.player.movdir.left = false,
                    KeyboardKey::D => self.player.movdir.right = false,
                    KeyboardKey::ShiftLeft => self.player.stop_sprinting(),
                    KeyboardKey::Space => self.player.jumping = false,
                    _ => {},
                }
            },
        }
    }

    /// Hands a mouse event to the human player: button edges start and stop the actions of
    /// its active item; a movement turns its view (heading and tilt, 0.002 rad per pixel)
    /// and reaches the item's mouse hook. The body takes the new view through
    /// `turn_player`, once the caller has the rotation of that heading and tilt.
    pub fn on_mouse_input(&mut self, event: MouseEvent, world: &mut World)
        requires
            old(self).wf(),
            old(world).wf(),
        ensures
            Self::mouse_post(*old(self), *final(self), *old(world), *final(world), event),
    {
        match event {
            MouseEvent::Moved { dx, dy } => {
                self.player.look(dx, dy);
                self.player.inventory.on_mouse_moved(dx as i64, dy as i64);
            },
            MouseEvent::Pressed { button } => {
                match button {
                    MouseButton::Left => self.player.start_primary_action(),
                    MouseButton::Right => self.player.start_secondary_action(),
                    MouseButton::Middle => self.player.start_third_action(),
                    MouseButton::Other => {},
                }
            },
            MouseEvent::Released { button } => {
                match button {
                    MouseButton::Left => self.player.stop_primary_action(),
                    MouseButton::Right => self.player.stop_secondary_action(),
                    MouseButton::Middle => self.player.stop_third_action(),
                    MouseButton::Other => {},
                }
            },
        }
    }

    /// Turns the human player's body to `facing`, the rotation of its current heading and
    /// tilt.
    pub fn turn_player(&mut self, world: &mut World, facing: Basis)
        requires
            old(world).wf(),
            facing.wf(),
        ensures
            *final(self) == *old(self),
            final(world).nodes@ == (if old(world).has(old(self).player.node_id) {
                old(world).nodes@.update(
                    old(self).player.node_id.index as int,
                    Some(Node { rotation: facing, ..old(world).node(old(self).player.node_id) }),
                )
            } else {
                old(world).nodes@
            }),
            final(world).scene_count == old(world).scene_count,
            final(world).cube_meshes == old(world).cube_meshes,
            final(world).wf(),
    {
        self.player.face(world, facing);
    }

    /// The actors' part of a frame: the human player's movement step and its items' frames,
    /// then each enemy in roster order chasing the player, with its own movement step and
    /// items' frames. The waves and the map are left as they are.
    pub fn actors_frame(&mut self, world: &mut World, dt: u32)
        requires
            old(self).wf(),
            old(world).wf(),
        ensures
            final(self).wf(),
            final(world).wf(),
            ticked(old(self).player, final(self).player, dt),
            final(self).enemies@.len() == old(self).enemies@.len(),
            forall|i: int|
                0 <= i < old(self).enemies@.len() ==> ticked(
                    old(self).enemies@[i].player,
                    #[trigger] final(self).enemies@[i].player,
                    dt,
                ),
            final(world).nodes@ == roster_nodes(
                player_frame_nodes(old(world).nodes@, old(self).player, dt),
                old(self).enemies@,
                old(self).player.node_id,
                dt,
                old(self).enemies@.len(),
            ),
            final(world).scene_count == old(world).scene_count,
            final(world).cube_meshes == old(world).cube_meshes,
            final(self).main_scene_id == old(self).main_scene_id,
            final(self).wave == old(self).wave,
            final(self).max_enemies == old(self).max_enemies,
            final(self).enemies_spawned == old(self).enemies_spawned,
            final(self).since_last_spawn == old(self).since_last_spawn,
            final(self).map == old(self).map,
            final(self).spawner == old(self).spawner,
    {
        self.player.process(world);
        self.player.inventory.process(world, dt);
        let ghost mid = world.nodes@;
        let n = self.enemies.len();
        let mut i: usize = 0;
        while i < n
            invariant
                n == self.enemies@.len(),
                n == old(self).enemies@.len(),
                i <= n,
                self.wf(),
                world.wf(),
                mid == player_frame_nodes(old(world).nodes@, old(self).player, dt),
                ticked(old(self).player, self.player, dt),
                forall|j: int|
                    0 <= j < i ==> ticked(
                        old(self).enemies@[j].player,
                        #[trigger] self.enemies@[j].player,
                        dt,
                    ),
                forall|j: int| i <= j < n ==> #[trigger] self.enemies@[j] == old(self).enemies@[j],
                world.nodes@ == roster_nodes(mid, old(self).enemies@, old(self).player.node_id, dt, i as nat),
                world.scene_count == old(world).scene_count,
                world.cube_meshes == old(world).cube_meshes,
                self.main_scene_id == old(self).main_scene_id,
                self.wave == old(self).wave,
                self.max_enemies == old(self).max_enemies,
                self.enemies_spawned == old(self).enemies_spawned,
                self.since_last_spawn == old(self).since_last_spawn,
                self.map == old(self).map,
                self.spawner == old(self).spawner,
            decreases n - i,
        {
            self.enemies[i].process(world, &self.player, dt);
            i = i + 1;
        }
    }

    /// The waves' part of a frame of `dt` microseconds. If the wave is over, the next one
    /// starts. Otherwise, if enemies are still to come and the spawn interval has passed, one
    /// enemy appears at the map's spawn point and its body is returned. Without a spawn the
    /// roster and the world are left as they are.
    pub fn advance_waves(&mut self, world: &mut World, dt: u32) -> (r: Option<NodeId>)
        requires
            old(self).wf(),
            old(world).wf(),
        ensures
            final(self).wf(),
            final(world).wf(),
            final(self).player == old(self).player,
            final(self).main_scene_id == old(self).main_scene_id,
            final(self).spawner == old(self).spawner,
            old(self).wave_over() ==> {
                &&& r is None
                &&& final(self).wave == old(self).wave.saturating_add(1)
                &&& final(self).max_enemies == old(self).max_enemies.saturating_add(WAVE_GROWTH)
                &&& final(self).enemies_spawned == 0
            },
            !old(self).wave_over() ==> final(self).wave == old(self).wave
                && final(self).max_enemies == old(self).max_enemies,
            r matches Some(id) ==> {
                &&& old(self).spawn_due(dt)
                &&& final(self).enemies_spawned == old(self).enemies_spawned + 1
                &&& final(self).since_last_spawn == 0
                &&& final(self).enemies@.drop_last() == old(self).enemies@
                &&& final(self).enemies@.len() == old(self).enemies@.len() + 1
                &&& final(self).enemies@.last().player.node_id == id
                &&& final(self).enemies@.last().player.fresh()
                &&& id.index == old(world).nodes@.len()
                &&& exists|p: Vec3|
                    final(world).nodes@ == old(world).nodes@.push(
                        Some(#[trigger] mob_body(old(self).main_scene_id, p)),
                    )
            },
            r is None ==> {
                &&& *final(world) == *old(world)
                &&& final(self).enemies@ == old(self).enemies@
                &&& final(self).map == old(self).map
                &&& final(self).since_last_spawn == (if old(self).since_last_spawn + dt
                    > SPAWN_INTERVAL {
                    SPAWN_INTERVAL as int
                } else {
                    old(self).since_last_spawn + dt
                })
            },
            r is None && !old(self).wave_over() ==> final(self).enemies_spawned
                == old(self).enemies_spawned,
            r is None && old(self).spawn_due(dt) ==> old(self).enemies@.len() == usize::MAX
                || old(world).nodes@.len() == usize::MAX,
            final(world).scene_count == old(world).scene_count,
            final(world).cube_meshes == old(world).cube_meshes,
    {
        let n = self.enemies.len();
        let mut everyone_dead = true;
        let mut i: usize = 0;
        while i < n
            invariant
                n == self.enemies@.len(),
                i <= n,
                everyone_dead == (forall|j: int| 0 <= j < i ==> (#[trigger] self.enemies@[j]).player.death),
            decreases n - i,
        {
            if !self.enemies[i].player.death {
                everyone_dead = false;
            }
            i = i + 1;
        }
        let elapsed: u64 = self.since_last_spawn + dt as u64;
        let capped: u64 = if elapsed > SPAWN_INTERVAL {
            SPAWN_INTERVAL
        } else {
            elapsed
        };
        if everyone_dead && self.enemies_spawned >= self.max_enemies {
            self.start_next_wave();
            self.since_last_spawn = capped;
            None
        } else if self.enemies_spawned < self.max_enemies && elapsed >= SPAWN_INTERVAL
            && self.enemies.len() < usize::MAX && world.nodes.len() < usize::MAX {
            let at = self.map.get_mob_spawn_point();
            let npc = self.spawner.spawn(world, at, None);
            let id = npc.player.node_id;
            self.enemies.push(npc);
            self.enemies_spawned = self.enemies_spawned + 1;
            self.since_last_spawn = 0;
            assert(self.enemies@.drop_last() =~= old(self).enemies@);
            assert(world.nodes@ == old(world).nodes@.push(Some(mob_body(self.main_scene_id, at))));
            Some(id)
        } else {
            self.since_last_spawn = capped;
            None
        }
    }

    /// One frame of `dt` microseconds: the actors' part, then the map's own frame, then the
    /// waves' part, whose spawned enemy body, if any, is returned.
    pub fn on_process(&mut self, world: &mut World, dt: u32) -> (r: Option<NodeId>)
        requires
            old(self).wf(),
            old(world).wf(),
        ensures
            Self::process_post(*old(self), *final(self), *old(world), *final(world), dt, r),
    {
        self.actors_frame(world, dt);
        let ghost mid = self.enemies@;
        proof {
            assert forall|j: int| 0 <= j < mid.len() implies (#[trigger] mid[j]).player.death
                == old(self).enemies@[j].player.death by {
                assert(ticked(old(self).enemies@[j].player, self.enemies@[j].player, dt));
            }
            if all_dead(mid) {
                assert forall|j: int| 0 <= j < old(self).enemies@.len() implies (#[trigger] old(
                    self,
                ).enemies@[j]).player.death by {
                    assert(mid[j].player.death);
                }
            }
            if all_dead(old(self).enemies@) {
                assert forall|j: int| 0 <= j < mid.len() implies (#[trigger] mid[j]).player.death by {
                    assert(old(self).enemies@[j].player.death);
                }
            }
            assert(self.wave_over() == old(self).wave_over());
        }
        self.map.process(world);
        let ghost before = world.nodes@;
        let r = self.advance_waves(world, dt);
        proof {
            assert forall|i: int| 0 <= i < old(self).enemies@.len() implies ticked(
                old(self).enemies@[i].player,
                #[trigger] self.enemies@[i].player,
                dt,
            ) by {
                if r is Some {
                    assert(self.enemies@.drop_last()[i] == self.enemies@[i]);
                }
                assert(self.enemies@[i] == mid[i]);
                assert(ticked(old(self).enemies@[i].player, mid[i].player, dt));
            }
            if r is Some {
                let id = r->Some_0;
                let p = choose|p: Vec3| world.nodes@ == before.push(Some(#[trigger] mob_body(old(self).main_scene_id, p)));
                assert(world.nodes@[id.index as int] == Some(mob_body(old(self).main_scene_id, p)));
            }
        }
        r
    }

    /// Takes the dead out of the roster, in order, and their bodies out of the world. The
    /// wave counters are left as they are.
    pub fn remove_dead(&mut self, world: &mut World)
        requires
            old(self).wf(),
            old(world).wf(),
        ensures
            final(self).enemies@ == old(self).enemies@.filter(|n: Npc| alive(n)),
            final(world).nodes@ == without_dead_bodies(old(world).nodes@, old(self).enemies@),
            final(world).scene_count == old(world).scene_count,
            final(world).cube_meshes == old(world).cube_meshes,
            final(self).player == old(self).player,
            final(self).wave == old(self).wave,
            final(self).max_enemies == old(self).max_enemies,
            final(self).enemies_spawned == old(self).enemies_spawned,
            final(self).since_last_spawn == old(self).since_last_spawn,
            final(self).wf(),
            final(world).wf(),
    {
        let mut rest: Vec<Npc> = Vec::new();
        std::mem::swap(&mut self.enemies, &mut rest);
        let ghost all = rest@;
        let n = rest.len();
        let mut i: usize = 0;
        while i < n
            invariant
                n == all.len(),
                i <= n,
                rest@ == all.subrange(i as int, n as int),
                self.enemies@ == all.subrange(0, i as int).filter(|e: Npc| alive(e)),
                world.nodes@ == without_dead_bodies(old(world).nodes@, all.subrange(0, i as int)),
                world.scene_count == old(world).scene_count,
                world.cube_meshes == old(world).cube_meshes,
                world.wf(),
                forall|j: int| 0 <= j < all.len() ==> (#[trigger] all[j]).wf(),
                forall|j: int| 0 <= j < self.enemies@.len() ==> (#[trigger] self.enemies@[j]).wf(),
                self.player == old(self).player,
                self.wave == old(self).wave,
                self.max_enemies == old(self).max_enemies,
                self.enemies_spawned == old(self).enemies_spawned,
                self.since_last_spawn == old(self).since_last_spawn,
                self.spawner == old(self).spawner,
                self.main_scene_id == old(self).main_scene_id,
            decreases n - i,
        {
            let npc = rest.remove(0);
            proof {
                assert(npc == all[i as int]);
                let next = all.subrange(0, i as int + 1);
                assert(next.drop_last() =~= all.subrange(0, i as int));
                assert(next.last() == all[i as int]);
                reveal(Seq::filter);
                assert(rest@ =~= all.subrange(i as int + 1, n as int));
            }
            if npc.player.death {
                world.remove(npc.player.node_id);
            } else {
                self.enemies.push(npc);
            }
            i = i + 1;
        }
        assert(all.subrange(0, n as int) =~= all);
        assert(all == old(self).enemies@);
    }
}

/// A wave ends once all its enemies were spawned and all are dead: the next frame moves
/// to the next wave, with none of it spawned yet and five more enemies to come.
pub proof fn lemma_wave_transition<M: SurvivalMap>(
    s0: Survival<M>,
    s1: Survival<M>,
    w0: World,
    w1: World,
    dt: u32,
    r: Option<NodeId>,
)
    requires
        s0.enemies_spawned >= s0.max_enemies,
        all_dead(s0.enemies@),
        s0.wave < u32::MAX,
        s0.max_enemies <= u32::MAX - WAVE_GROWTH,
        Survival::<M>::process_post(s0, s1, w0, w1, dt, r),
    ensures
        s1.wave == s0.wave + 1,
        s1.enemies_spawned == 0,
        s1.max_enemies == s0.max_enemies + WAVE_GROWTH,
        r is None,
{
}

} // verus!
