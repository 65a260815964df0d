pub mod archetype;
pub mod backend;
pub mod cache;
pub mod define;
pub mod driver;
pub mod entity;
pub mod enums;
pub mod error;
pub mod flag;
pub mod pool;
pub mod registry;
pub mod render_graph;
pub mod render_system;
pub mod sim;
