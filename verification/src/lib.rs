pub mod ecs;
pub mod labels;
pub mod level;
pub mod strmap;
pub mod target;
pub mod tiers;
pub mod text;
pub mod sd;
pub mod route;
pub mod proxy;
pub mod config;
pub mod discovery;
pub mod state;
pub mod health;
pub mod cluster;
