use vstd::prelude::*;

pub mod args;
pub mod byte_eater;
pub mod draw_instructions;
pub mod game;
pub mod gltf;
pub mod inventory;
pub mod item;
pub mod mesh;
pub mod npc;
pub mod player;
pub mod survival;
pub mod world;

verus! {

} // verus!
