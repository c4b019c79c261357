pub mod collision;
pub mod config;
pub mod entity;
pub mod game;
pub mod raster;
pub mod rng;
pub mod score;
pub mod vector;
