use vstd::prelude::*;

use crate::survival::{KeyAction, KeyboardKey, MouseEvent, Survival, SurvivalMap};
use crate::world::{with_parent, NodeId, NodeParent, World};

verus! {

/// What the game is doing: loading, or running a survival match.
pub enum GameMode<M: SurvivalMap> {
    Loading,
    Survival(Survival<M>),
}

/// The owner of the game mode; it hands input and frames to the running match.
pub struct WizardWars<M: SurvivalMap> {
    pub game_mode: GameMode<M>,
}

impl<M: SurvivalMap> WizardWars<M> {
    pub open spec fn wf(&self) -> bool {
        match self.game_mode {
            GameMode::Loading => true,
            GameMode::Survival(s) => s.wf(),
        }
    }

    /// A game that is still loading.
    pub fn new() -> (r: WizardWars<M>)
        ensures
            r.game_mode is Loading,
    {
        WizardWars { game_mode: GameMode::Loading }
    }

    /// Switches to a running match.
    pub fn start_survival(&mut self, survival: Survival<M>)
        requires
            survival.wf(),
        ensures
            final(self).game_mode == GameMode::Survival(survival),
            final(self).wf(),
    {
        self.game_mode = GameMode::Survival(survival);
    }

    /// Detaches a node from the scene; a missing handle is left alone.
    pub fn hide_node(&mut self, world: &mut World, node_id: NodeId)
        requires
            old(world).wf(),
        ensures
            final(world).nodes@ == with_parent(old(world).nodes@, node_id, NodeParent::Orphan),
            final(world).scene_count == old(world).scene_count,
            final(world).cube_meshes == old(world).cube_meshes,
            final(world).wf(),
    {
        world.set_parent(node_id, NodeParent::Orphan);
    }

    /// Hands a key edge to the running match; while loading nothing happens.
    pub fn on_keyboard_input(&mut self, key: KeyboardKey, action: KeyAction, world: &mut World)
        requires
            old(self).wf(),
            old(world).wf(),
        ensures
            final(self).wf(),
            final(world).wf(),
            old(self).game_mode is Loading ==> final(self).game_mode is Loading && *final(world)
                == *old(world),
            old(self).game_mode is Survival ==> final(self).game_mode is Survival
                && Survival::<M>::keyboard_post(
                old(self).game_mode->Survival_0,
                final(self).game_mode->Survival_0,
                *old(world),
                *final(world),
                key,
                action,
            ),
    {
        match &mut self.game_mode {
            GameMode::Survival(s) => s.on_keyboard_input(key, action, world),
            GameMode::Loading => {},
        }
    }

    /// Hands a mouse event to the running match; while loading nothing happens.
    pub fn on_mouse_input(&mut self, event: MouseEvent, world: &mut World)
        requires
            old(self).wf(),
            old(world).wf(),
        ensures
            final(self).wf(),
            *final(world) == *old(world),
            old(self).game_mode is Loading ==> final(self).game_mode is Loading,
            old(self).game_mode is Survival ==> final(self).game_mode is Survival
                && Survival::<M>::mouse_post(
                old(self).game_mode->Survival_0,
                final(self).game_mode->Survival_0,
                *old(world),
                *final(world),
                event,
            ),
    {
        match &mut self.game_mode {
            GameMode::Survival(s) => s.on_mouse_input(event, world),
            GameMode::Loading => {},
        }
    }

    /// Runs one frame of the running match and returns the body of an enemy it spawned;
    /// while loading nothing happens.
    pub fn on_process(&mut self, world: &mut World, dt: u32) -> (r: Option<NodeId>)
        requires
            old(self).wf(),
            old(world).wf(),
        ensures
            final(self).wf(),
            final(world).wf(),
            old(self).game_mode is Loading ==> r is None && final(self).game_mode is Loading
                && *final(world) == *old(world),
            old(self).game_mode is Survival ==> final(self).game_mode is Survival
                && Survival::<M>::process_post(
                old(self).game_mode->Survival_0,
                final(self).game_mode->Survival_0,
                *old(world),
                *final(world),
                dt,
                r,
            ),
    {
        match &mut self.game_mode {
            GameMode::Survival(s) => s.on_process(world, dt),
            GameMode::Loading => None,
        }
    }
}

} // verus!
