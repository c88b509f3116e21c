pub mod controller;
pub mod event;
pub mod greeting;
pub mod state;
