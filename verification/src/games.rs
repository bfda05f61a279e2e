//! Renderings that are built in, one module for each game.

pub mod netrunner;
