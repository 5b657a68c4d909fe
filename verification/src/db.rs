//! The inventory items under the paths that callers of the store use.

pub mod db;
