pub mod lifecycle;
pub mod menu;
