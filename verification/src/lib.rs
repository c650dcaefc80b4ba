pub mod driver;
pub mod events;
pub mod state;
