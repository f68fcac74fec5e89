//! An entity-component layer with generational entity handles, packed per-type
//! component stores and a registry of stores, together with the rules of a
//! falling-blocks game built on it.
//!
//! - `entity`, `entity_manager`: handles and their allocator.
//! - `component_manager`, `registry`, `world`: component stores, the registry and the world.
//! - `vector`, `menu`: small value types.
//! - `component`, `tetromino`, `game`, `pieces`, `collision`, `score`, `rules`, `input`,
//!   `system`, `types`: the game.

pub mod collision;
pub mod component;
pub mod component_manager;
pub mod entity;
pub mod entity_manager;
pub mod game;
pub mod input;
pub mod menu;
pub mod pieces;
pub mod registry;
pub mod rules;
pub mod score;
pub mod system;
pub mod tetromino;
pub mod types;
pub mod vector;
pub mod world;
