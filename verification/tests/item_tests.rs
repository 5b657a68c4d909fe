use rtuinventory::text::trim_text;
use rtuinventory::db::db::{
    created_item, item_from_row, items_from_rows, parse_quantity, prepare_insert_item,
    trim_or_none_value, InsertItem, Item, ItemAdd, ItemRow,
};

fn s(v: &str) -> String {
    v.to_string()
}

#[test]
fn trim_or_none_value_trims_and_handles_empty() {
    assert_eq!(trim_or_none_value(&"  value  ".to_string()), Some("value".to_string()));
    assert_eq!(trim_or_none_value(&"   ".to_string()), None);
}

#[test]
fn trim_or_none_value_unicode_whitespace() {
    assert_eq!(trim_or_none_value(&s("\u{3000}\tx y\u{a0}\n")), Some(s("x y")));
    assert_eq!(trim_or_none_value(&s("")), None);
    assert_eq!(trim_or_none_value(&s("\u{2028}\u{85}")), None);
}

#[test]
fn prepare_item_trims_and_reads_quantity() {
    let ins = prepare_insert_item(&s("  Test Item "), &s(""), &s(""), &s(""), &s("5")).unwrap();
    assert_eq!(ins.name, "Test Item");
    assert_eq!(ins.quantity, 5);
    assert_eq!(ins.barcode, None);
    assert_eq!(ins.serial, None);
    assert_eq!(ins.location, None);
}

#[test]
fn prepare_item_with_optional_fields() {
    let ins = prepare_insert_item(
        &s("Has Fields"),
        &s("123456"),
        &s(" ABC123 "),
        &s("Warehouse A"),
        &s("10"),
    )
    .unwrap();
    assert_eq!(ins.barcode.as_deref(), Some("123456"));
    assert_eq!(ins.serial.as_deref(), Some("ABC123"));
    assert_eq!(ins.location.as_deref(), Some("Warehouse A"));
    assert_eq!(ins.quantity, 10);
}

#[test]
fn prepare_item_rejects_empty_name() {
    match prepare_insert_item(&s(""), &s(""), &s(""), &s(""), &s("5")) {
        Err(msg) => assert_eq!(msg, "Name is required"),
        Ok(_) => panic!("expected empty name to fail"),
    }
    match prepare_insert_item(&s("  "), &s(""), &s(""), &s(""), &s("invalid")) {
        Err(msg) => assert_eq!(msg, "Name is required"),
        Ok(_) => panic!("expected blank name to fail"),
    }
}

#[test]
fn prepare_item_rejects_invalid_quantity() {
    for q in ["invalid", "-1", "+", "1.5", "4294967296", "1 2"] {
        match prepare_insert_item(&s("Test Item"), &s(""), &s(""), &s(""), &s(q)) {
            Err(msg) => assert_eq!(msg, "Quantity must be a non-negative number"),
            Ok(_) => panic!("expected invalid quantity {q:?} to fail"),
        }
    }
}

#[test]
fn prepare_item_blank_quantity_defaults_to_zero() {
    let ins = prepare_insert_item(&s("Zero Qty"), &s(""), &s(""), &s(""), &s("   ")).unwrap();
    assert_eq!(ins.quantity, 0);
}

#[test]
fn parse_quantity_matches_std() {
    for q in [
        "0", "7", "+7", " 42 ", "0042", "4294967295", "4294967296", "99999999999", "", "+", "-0",
        "abc", "1e3", "\u{3000}12\t",
    ] {
        let expected = if q.trim().is_empty() { Some(0) } else { q.trim().parse::<u32>().ok() };
        assert_eq!(parse_quantity(&s(q)), expected, "quantity {q:?}");
    }
}

#[test]
fn created_item_takes_low_bits_of_row_id() {
    let ins = InsertItem::from((s("A"), Some(s("b")), None, Some(s("l")), 3));
    let item = created_item(7, ins);
    assert_eq!(item.id, 7);
    assert_eq!(item.name, "A");
    assert_eq!(item.barcode.as_deref(), Some("b"));
    assert_eq!(item.serial, None);
    assert_eq!(item.location.as_deref(), Some("l"));
    assert_eq!(item.quantity, 3);
    let big = created_item((1i64 << 32) + 5, InsertItem::from((s("B"), None, None, None, 0)));
    assert_eq!(big.id, 5);
}

#[test]
fn item_from_pair() {
    let item = Item::from((9, InsertItem::from((s("N"), None, Some(s("S")), None, 1))));
    assert_eq!(item.id, 9);
    assert_eq!(item.serial.as_deref(), Some("S"));
    let add = ItemAdd::Added(item.clone());
    match add {
        ItemAdd::Added(it) => assert_eq!(it.name, "N"),
        ItemAdd::Refused(_) => panic!("expected an added item"),
    }
}

fn row(id: i64, name: &str, quantity: i64) -> ItemRow {
    ItemRow { id, name: s(name), barcode: None, serial: Some(s("x")), location: None, quantity }
}

#[test]
fn rows_become_items_skipping_failed_rows() {
    let rows = vec![Some(row(1, "a", 5)), None, Some(row(3, "c", -1)), None];
    let items = items_from_rows(&rows);
    assert_eq!(items.len(), 2);
    assert_eq!(items[0].id, 1);
    assert_eq!(items[0].quantity, 5);
    assert_eq!(items[1].name, "c");
    assert_eq!(items[1].quantity, u32::MAX);
    assert_eq!(items[1].serial.as_deref(), Some("x"));
    let one = item_from_row(&row(-1, "z", 0));
    assert_eq!(one.id, u32::MAX);
}

#[test]
fn trim_agrees_with_std_on_every_char() {
    for code in 0u32..=0x10FFFF {
        if let Some(c) = char::from_u32(code) {
            let text = format!("{c}a{c}");
            assert_eq!(trim_text(&text), text.trim(), "char {code:#x}");
        }
    }
}
