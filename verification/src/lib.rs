//! Inventory management core: item input validation, text handling, the
//! application settings with their recent-database list, and the state
//! machine that drives the terminal user interface.

pub mod text;
pub mod item;
pub mod settings;
pub mod ui;
pub mod display;
pub mod db;
