use vstd::prelude::*;

use crate::item::{Action, Equipment, Item};
use crate::world::{with_parent, Node, NodeId, NodeParent, World};

verus! {

/// The nodes after `items[0..k]` have each lived `dt` microseconds, in slot order.
pub open spec fn nodes_after_items(
    items: Seq<Equipment>,
    nodes: Seq<Option<Node>>,
    dt: u32,
    k: nat,
) -> Seq<Option<Node>>
    decreases k,
{
    if k == 0 {
        nodes
    } else {
        items[k - 1].nodes_after_process(nodes_after_items(items, nodes, dt, (k - 1) as nat), dt)
    }
}

/// The nodes after equipping slot `index`: the item in the active slot, if any, is
/// detached first, then the new one is hung under `holder`. An index past the last slot
/// changes nothing.
pub open spec fn nodes_after_equip(
    items: Seq<Equipment>,
    active: Option<usize>,
    nodes: Seq<Option<Node>>,
    index: int,
    holder: NodeId,
) -> Seq<Option<Node>> {
    if 0 <= index < items.len() {
        let detached = match active {
            Some(a) => with_parent(nodes, items[a as int].visual(), NodeParent::Orphan),
            None => nodes,
        };
        with_parent(detached, items[index].visual(), NodeParent::Node(holder))
    } else {
        nodes
    }
}

/// The slots of a player, with at most one of them active.
pub struct Inventory {
    pub active: Option<usize>,
    pub items: Vec<Equipment>,
}

impl Inventory {
    /// The items after `action` is handed to the active one.
    pub open spec fn items_after(&self, action: Action) -> Seq<Equipment> {
        match self.active {
            Some(a) => self.items@.update(a as int, self.items@[a as int].after_action(action)),
            None => self.items@,
        }
    }

    pub open spec fn wf(&self) -> bool {
        &&& (self.active matches Some(a) ==> a < self.items@.len())
        &&& forall|i: int| 0 <= i < self.items@.len() ==> (#[trigger] self.items@[i]).wf()
    }

    /// An empty inventory with room reserved for `size` slots.
    pub fn new(size: usize) -> (r: Inventory)
        ensures
            r.active is None,
            r.items@ == Seq::<Equipment>::empty(),
            r.wf(),
    {
        Inventory { active: None, items: Vec::with_capacity(size) }
    }

    /// Puts `item` in the next slot; it is not equipped.
    pub fn add_item(&mut self, item: Equipment)
        requires
            old(self).wf(),
            item.wf(),
            old(self).items@.len() < usize::MAX,
        ensures
            final(self).items@ == old(self).items@.push(item),
            final(self).active == old(self).active,
            final(self).wf(),
    {
        self.items.push(item);
    }

    /// Runs each item's one-time setup, in slot order.
    pub fn prepare(&mut self, world: &mut World)
        requires
            old(self).wf(),
            old(world).wf(),
        ensures
            final(self).wf(),
            final(self).active == old(self).active,
            final(self).items@.len() == old(self).items@.len(),
            forall|i: int|
                0 <= i < old(self).items@.len() ==> (#[trigger] final(self).items@[i]).visual()
                    == old(self).items@[i].visual(),
            final(world).nodes@.len() >= old(world).nodes@.len(),
            forall|i: int|
                0 <= i < old(world).nodes@.len() ==> #[trigger] final(world).nodes@[i]
                    == old(world).nodes@[i],
            final(world).wf(),
    {
        let n = self.items.len();
        let mut i: usize = 0;
        while i < n
            invariant
                n == self.items@.len(),
                n == old(self).items@.len(),
                i <= n,
                self.active == old(self).active,
                self.wf(),
                forall|j: int|
                    0 <= j < n ==> (#[trigger] self.items@[j]).visual() == old(self).items@[j].visual(),
                world.nodes@.len() >= old(world).nodes@.len(),
                forall|j: int|
                    0 <= j < old(world).nodes@.len() ==> #[trigger] world.nodes@[j]
                        == old(world).nodes@[j],
                world.wf(),
            decreases n - i,
        {
            self.items[i].prepare(world);
            i = i + 1;
        }
    }

    /// Makes slot `index` the active one. The item that was active is detached first, then
    /// the new one is hung under `holder`. An index past the last slot leaves the inventory
    /// and the scene as they are.
    pub fn equip(&mut self, index: usize, world: &mut World, holder: NodeId)
        requires
            old(self).wf(),
            old(world).wf(),
        ensures
            final(self).items@ == old(self).items@,
            final(self).active == (if index < old(self).items@.len() {
                Some(index)
            } else {
                old(self).active
            }),
            final(world).nodes@ == nodes_after_equip(
                old(self).items@,
                old(self).active,
                old(world).nodes@,
                index as int,
                holder,
            ),
            final(world).scene_count == old(world).scene_count,
            final(world).cube_meshes == old(world).cube_meshes,
            final(self).wf(),
            final(world).wf(),
    {
        if index >= self.items.len() {
            return;
        }
        match self.active {
            Some(a) => {
                self.items[a].holster(world);
            },
            None => {},
        }
        self.items[index].activate(world, holder);
        self.active = Some(index);
        assert(self.items@ =~= old(self).items@);
    }

    /// Giving up the active item is not supported: the inventory is left as it is.
    pub fn drop(&mut self, world: &mut World)
        ensures
            *final(self) == *old(self),
            *final(world) == *old(world),
    {
    }

    /// The active item, or `None` for bare hands.
    pub fn get_current_item(&self) -> (r: Option<&Equipment>)
        requires
            self.wf(),
        ensures
            r == (match self.active {
                Some(a) => Some(&self.items@[a as int]),
                None => None,
            }),
    {
        match self.active {
            Some(a) => Some(&self.items[a]),
            None => None,
        }
    }

    /// Hands an input edge to the active item; with bare hands nothing happens.
    pub fn act(&mut self, action: Action)
        requires
            old(self).wf(),
        ensures
            final(self).active == old(self).active,
            final(self).items@ == old(self).items_after(action),
            final(self).wf(),
    {
        match self.active {
            Some(a) => {
                self.items[a].act(action);
            },
            None => {},
        }
    }

    /// Hands a mouse movement to the active item.
    pub fn on_mouse_moved(&mut self, dx: i64, dy: i64)
        requires
            old(self).wf(),
        ensures
            final(self).active == old(self).active,
            final(self).items@ == (match old(self).active {
                Some(a) => old(self).items@.update(
                    a as int,
                    old(self).items@[a as int].after_mouse_moved(dx, dy),
                ),
                None => old(self).items@,
            }),
            final(self).wf(),
    {
        match self.active {
            Some(a) => {
                self.items[a].on_mouse_moved(dx, dy);
            },
            None => {},
        }
    }

    /// Lets `dt` microseconds pass for every item, held or not, in slot order.
    pub fn process(&mut self, world: &mut World, dt: u32)
        requires
            old(self).wf(),
            old(world).wf(),
        ensures
            final(self).active == old(self).active,
            final(self).items@.len() == old(self).items@.len(),
            forall|i: int|
                0 <= i < old(self).items@.len() ==> #[trigger] final(self).items@[i]
                    == old(self).items@[i].after_process(dt),
            final(world).nodes@ == nodes_after_items(
                old(self).items@,
                old(world).nodes@,
                dt,
                old(self).items@.len(),
            ),
            final(world).scene_count == old(world).scene_count,
            final(world).cube_meshes == old(world).cube_meshes,
            final(self).wf(),
            final(world).wf(),
    {
        let n = self.items.len();
        let mut i: usize = 0;
        while i < n
            invariant
                n == self.items@.len(),
                n == old(self).items@.len(),
                i <= n,
                self.active == old(self).active,
                self.wf(),
                forall|j: int|
                    0 <= j < i ==> #[trigger] self.items@[j] == old(self).items@[j].after_process(
                        dt,
                    ),
                forall|j: int| i <= j < n ==> #[trigger] self.items@[j] == old(self).items@[j],
                world.nodes@ == nodes_after_items(old(self).items@, old(world).nodes@, dt, i as nat),
                world.scene_count == old(world).scene_count,
                world.cube_meshes == old(world).cube_meshes,
                world.wf(),
            decreases n - i,
        {
            self.items[i].process(world, dt);
            i = i + 1;
        }
    }
}

/// After equipping a slot that exists, its item's node hangs under the holder, even when
/// that slot was already the active one, and the node of a different item that was active
/// is detached: the old item is put away before the new one is taken up.
pub proof fn lemma_equip_order(
    items: Seq<Equipment>,
    active: Option<usize>,
    nodes: Seq<Option<Node>>,
    index: int,
    holder: NodeId,
)
    requires
        0 <= index < items.len(),
        active matches Some(a) ==> a < items.len(),
    ensures
        ({
            let after = nodes_after_equip(items, active, nodes, index, holder);
            let v = items[index].visual();
            &&& after.len() == nodes.len()
            &&& (v.index < nodes.len() && nodes[v.index as int] is Some) ==> after[v.index as int]
                == Some(Node { parent: NodeParent::Node(holder), ..nodes[v.index as int]->Some_0 })
            &&& (active matches Some(a) && items[a as int].visual() != v
                && items[a as int].visual().index < nodes.len()
                && nodes[items[a as int].visual().index as int] is Some) ==> after[items[active->Some_0 as int].visual().index as int]->Some_0.parent
                == NodeParent::Orphan
        }),
{
}

/// Equipping a slot past the last one leaves the scene as it was.
pub proof fn lemma_equip_out_of_range(
    items: Seq<Equipment>,
    active: Option<usize>,
    nodes: Seq<Option<Node>>,
    index: int,
    holder: NodeId,
)
    requires
        index >= items.len(),
    ensures
        nodes_after_equip(items, active, nodes, index, holder) == nodes,
{
}

} // verus!
