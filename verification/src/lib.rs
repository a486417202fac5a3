//! Game logic of a remake of a 1992 DOS platformer: the tile map, movement
//! and collision, the per-actor behaviours, level flow, and the small file
//! formats, each stated and proved.
pub mod actors;
pub mod audio;
pub mod camera;
pub mod cheats;
pub mod collide;
pub mod controls_screen;
pub mod data;
pub mod demo;
pub mod effects;
pub mod player;
pub mod sfx;
pub mod enemy_ai;
pub mod help;
pub mod highscores;
pub mod flow;
pub mod hints;
pub mod input;
pub mod level;
pub mod panel;
pub mod pickups;
pub mod savegame;
pub mod screen;
pub mod textpages;
