//! Items, the checks on entered item fields, and the conversion of stored rows.

pub use crate::item::{
    created_item, item_from_row, items_from_rows, parse_quantity, prepare_insert_item,
    trim_or_none_value, InsertItem, Item, ItemAdd, ItemRow,
};
