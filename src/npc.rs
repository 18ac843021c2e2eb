use vstd::prelude::*;

use crate::player::Player;
use crate::world::{
    add_clamped, add_clamped_spec, clamp_unit, clamp_unit_spec, div_trunc, isqrt, isqrt_spec,
    lemma_isqrt_bounds, Basis, Node, NodeId, Vec3, World, COORD_MAX, UNIT,
};

verus! {

/// How far a pursuer moves toward its target each frame, besides its own physics.
pub const NPC_STEP: i64 = 100;

/// The facing whose forward axis points along `(dx, dy, dz)`, of length `len`, whose right
/// axis is level, and whose up axis completes the two.
pub open spec fn look_basis(dx: int, dy: int, dz: int, len: int) -> Basis {
    let f = Vec3 {
        x: div_trunc(dx * UNIT, len) as i64,
        y: div_trunc(dy * UNIT, len) as i64,
        z: div_trunc(dz * UNIT, len) as i64,
    };
    let hl = isqrt_spec(f.x * f.x + f.z * f.z);
    let r = if hl == 0 {
        Vec3 { x: UNIT, y: 0, z: 0 }
    } else {
        Vec3 { x: div_trunc(f.z * UNIT, hl) as i64, y: 0, z: div_trunc(-f.x * UNIT, hl) as i64 }
    };
    Basis {
        right: r,
        up: Vec3 {
            x: clamp_unit_spec(div_trunc(f.y * r.z - f.z * r.y, UNIT as int)) as i64,
            y: clamp_unit_spec(div_trunc(f.z * r.x - f.x * r.z, UNIT as int)) as i64,
            z: clamp_unit_spec(div_trunc(f.x * r.y - f.y * r.x, UNIT as int)) as i64,
        },
        forward: f,
    }
}

/// A pursuer's body after one frame of pursuit toward `target`: turned to face it and moved
/// `NPC_STEP` toward it. A body already at the target is left as it is.
pub open spec fn pursued(body: Node, target: Vec3) -> Node {
    let dx = target.x - body.translation.x;
    let dy = target.y - body.translation.y;
    let dz = target.z - body.translation.z;
    let len = isqrt_spec(dx * dx + dy * dy + dz * dz);
    if len == 0 {
        body
    } else {
        Node {
            rotation: look_basis(dx, dy, dz, len),
            translation: add_clamped_spec(
                body.translation,
                Vec3 {
                    x: div_trunc(dx * NPC_STEP, len) as i64,
                    y: div_trunc(dy * NPC_STEP, len) as i64,
                    z: div_trunc(dz * NPC_STEP, len) as i64,
                },
            ),
            ..body
        }
    }
}

/// `nodes` after the pursuer `me` has chased the node `target`; nothing happens when either
/// of them is missing.
pub open spec fn nodes_after_pursuit(nodes: Seq<Option<Node>>, me: NodeId, target: NodeId) -> Seq<
    Option<Node>,
> {
    if target.index < nodes.len() && nodes[target.index as int] is Some && me.index < nodes.len()
        && nodes[me.index as int] is Some {
        nodes.update(
            me.index as int,
            Some(
                pursued(
                    nodes[me.index as int]->Some_0,
                    nodes[target.index as int]->Some_0.translation,
                ),
            ),
        )
    } else {
        nodes
    }
}

/// `d * s / len`, rounded toward zero; at most `s` in size when `d` is at most `len`.
pub(crate) fn scaled(d: i64, s: i64, len: i64) -> (r: i64)
    requires
        0 < len <= 4000000000,
        -len <= d <= len,
        0 < s <= UNIT,
    ensures
        r == div_trunc(d * s, len as int),
        -s <= r <= s,
{
    let a: i64 = if d >= 0 {
        d
    } else {
        -d
    };
    proof {
        assert(0 <= a * s <= len * s) by (nonlinear_arith)
            requires
                0 <= a <= len,
                0 < s,
        ;
        assert(len * s <= 4000000000000000) by (nonlinear_arith)
            requires
                0 < len <= 4000000000,
                0 < s <= 1000000,
        ;
        vstd::arithmetic::div_mod::lemma_div_is_ordered(a * s, len * s, len as int);
        vstd::arithmetic::div_mod::lemma_div_multiples_vanish(s as int, len as int);
        vstd::arithmetic::div_mod::lemma_div_pos_is_pos(a * s, len as int);
        assert(-(d * s) == (-d) * s) by (nonlinear_arith);
    }
    let q = (a * s) / len;
    if d >= 0 {
        q
    } else {
        -q
    }
}

fn square_u(d: i64) -> (r: u64)
    requires
        -2 * COORD_MAX <= d <= 2 * COORD_MAX,
    ensures
        r == d * d,
        r <= 4000000000000000000,
{
    proof {
        assert(0 <= d * d <= 4000000000000000000) by (nonlinear_arith)
            requires
                -2000000000 <= d <= 2000000000,
        ;
    }
    (d * d) as u64
}

fn look(dx: i64, dy: i64, dz: i64, len: i64) -> (r: Basis)
    requires
        0 < len <= 4000000000,
        -len <= dx <= len,
        -len <= dy <= len,
        -len <= dz <= len,
    ensures
        r == look_basis(dx as int, dy as int, dz as int, len as int),
        r.wf(),
{
    let f = Vec3 { x: scaled(dx, UNIT, len), y: scaled(dy, UNIT, len), z: scaled(dz, UNIT, len) };
    proof {
        assert(0 <= f.x * f.x <= 1000000000000) by (nonlinear_arith)
            requires
                -1000000 <= f.x <= 1000000,
        ;
        assert(0 <= f.z * f.z <= 1000000000000) by (nonlinear_arith)
            requires
                -1000000 <= f.z <= 1000000,
        ;
    }
    let hn: u64 = (f.x * f.x) as u64 + (f.z * f.z) as u64;
    let hl = isqrt(hn);
    proof {
        assert(hl <= 2000000) by (nonlinear_arith)
            requires
                hl * hl <= hn,
                hn <= 2000000000000,
        ;
    }
    let r = if hl == 0 {
        Vec3 { x: UNIT, y: 0, z: 0 }
    } else {
        proof {
            lemma_isqrt_bounds(hn as int, hl as int, f.z as int);
            lemma_isqrt_bounds(hn as int, hl as int, f.x as int);
        }
        Vec3 { x: scaled(f.z, UNIT, hl as i64), y: 0, z: scaled(-f.x, UNIT, hl as i64) }
    };
    proof {
        crate::world::lemma_mul_bound(f.y as int, r.z as int);
        crate::world::lemma_mul_bound(f.z as int, r.y as int);
        crate::world::lemma_mul_bound(f.z as int, r.x as int);
        crate::world::lemma_mul_bound(f.x as int, r.z as int);
        crate::world::lemma_mul_bound(f.x as int, r.y as int);
        crate::world::lemma_mul_bound(f.y as int, r.x as int);
        assert(r.z * f.y == f.y * r.z) by (nonlinear_arith);
    }
    let ux = f.y * r.z - f.z * r.y;
    let uy = f.z * r.x - f.x * r.z;
    let uz = f.x * r.y - f.y * r.x;
    let up = Vec3 {
        x: clamp_unit(if ux >= 0 { ux / UNIT } else { -((-ux) / UNIT) }),
        y: clamp_unit(if uy >= 0 { uy / UNIT } else { -((-uy) / UNIT) }),
        z: clamp_unit(if uz >= 0 { uz / UNIT } else { -((-uz) / UNIT) }),
    };
    Basis { right: r, up, forward: f }
}

/// One frame of pursuit of the body `body` toward `target`.
pub fn pursue(body: &Node, target: &Vec3) -> (r: Node)
    requires
        body.wf(),
        target.wf(),
    ensures
        r == pursued(*body, *target),
        r.wf(),
{
    let dx = target.x - body.translation.x;
    let dy = target.y - body.translation.y;
    let dz = target.z - body.translation.z;
    let n: u64 = square_u(dx) + square_u(dy) + square_u(dz);
    let len = isqrt(n);
    if len == 0 {
        return *body;
    }
    proof {
        assert(len <= 4000000000) by (nonlinear_arith)
            requires
                len * len <= n,
                n <= 12000000000000000000,
        ;
        assert(dx * dx <= n && dy * dy <= n && dz * dz <= n) by (nonlinear_arith)
            requires
                n == dx * dx + dy * dy + dz * dz,
        ;
        lemma_isqrt_bounds(n as int, len as int, dx as int);
        lemma_isqrt_bounds(n as int, len as int, dy as int);
        lemma_isqrt_bounds(n as int, len as int, dz as int);
    }
    let l = len as i64;
    let step = Vec3 { x: scaled(dx, NPC_STEP, l), y: scaled(dy, NPC_STEP, l), z: scaled(dz, NPC_STEP, l) };
    Node { rotation: look(dx, dy, dz, l), translation: add_clamped(&body.translation, &step), ..*body }
}

/// `nodes` after one frame of the enemy `p` chasing the node `target`: the pursuit, then
/// the movement step of its body, then `dt` microseconds for each of its items.
pub open spec fn npc_frame_nodes(nodes: Seq<Option<Node>>, p: Player, target: NodeId, dt: u32) -> Seq<
    Option<Node>,
> {
    crate::inventory::nodes_after_items(
        p.inventory.items@,
        crate::player::nodes_after_move(
            nodes_after_pursuit(nodes, p.node_id, target),
            p.node_id,
            p.movdir,
            p.sprinting,
        ),
        dt,
        p.inventory.items@.len(),
    )
}

/// A computer-driven actor: a player that chases a target.
pub struct Npc {
    pub player: Player,
}

impl Npc {
    pub fn new(player: Player) -> (r: Npc)
        ensures
            r.player == player,
    {
        Npc { player }
    }

    pub open spec fn wf(&self) -> bool {
        self.player.wf()
    }

    /// One frame: turn toward `enemy`'s body and step toward it, then run the wrapped
    /// player's movement step and its items' frames.
    pub fn process(&mut self, world: &mut World, enemy: &Player, dt: u32)
        requires
            old(self).wf(),
            old(world).wf(),
        ensures
            crate::player::same_but_items(old(self).player, final(self).player),
            final(self).player.inventory.items@.len() == old(self).player.inventory.items@.len(),
            forall|i: int|
                0 <= i < old(self).player.inventory.items@.len() ==> #[trigger] final(self).player.inventory.items@[i]
                    == crate::item::Item::after_process(&old(self).player.inventory.items@[i], dt),
            final(world).nodes@ == npc_frame_nodes(old(world).nodes@, old(self).player, enemy.node_id, dt),
            final(world).scene_count == old(world).scene_count,
            final(world).cube_meshes == old(world).cube_meshes,
            final(self).wf(),
            final(world).wf(),
    {
        match world.get(enemy.node_id) {
            Some(target) => {
                match world.get(self.player.node_id) {
                    Some(me) => {
                        let chased = pursue(&me, &target.translation);
                        world.set_node(self.player.node_id, chased);
                    },
                    None => {},
                }
            },
            None => {},
        }
        self.player.process(world);
        self.player.inventory.process(world, dt);
    }
}

} // verus!
