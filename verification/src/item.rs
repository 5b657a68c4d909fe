use vstd::prelude::*;
use crate::text::{trim_spec, parse_u32_spec, trim_text, parse_u32, lemma_trim_idempotent};

verus! {

/// An inventory item as the table holds it.
#[derive(Clone, Debug)]
pub struct Item {
    pub id: u32,
    pub name: String,
    pub barcode: Option<String>,
    pub serial: Option<String>,
    pub location: Option<String>,
    pub quantity: u32,
}

/// The fields of an item that is about to be stored; the store gives it its id.
#[derive(Debug)]
pub struct InsertItem {
    pub name: String,
    pub barcode: Option<String>,
    pub serial: Option<String>,
    pub location: Option<String>,
    pub quantity: u32,
}

/// The outcome of creating an item: the stored item, or why it was refused.
pub enum ItemAdd {
    Added(Item),
    Refused(String),
}

/// An item read from the store as raw column values.
#[derive(Debug)]
pub struct ItemRow {
    pub id: i64,
    pub name: String,
    pub barcode: Option<String>,
    pub serial: Option<String>,
    pub location: Option<String>,
    pub quantity: i64,
}

/// The text of an optional field.
pub open spec fn opt_text(o: Option<String>) -> Option<Seq<char>> {
    match o {
        Some(s) => Some(s@),
        None => None,
    }
}

/// The mathematical value of an item.
pub struct ItemView {
    pub id: u32,
    pub name: Seq<char>,
    pub barcode: Option<Seq<char>>,
    pub serial: Option<Seq<char>>,
    pub location: Option<Seq<char>>,
    pub quantity: u32,
}

/// The mathematical value of the fields of an item to be stored.
pub struct InsertItemView {
    pub name: Seq<char>,
    pub barcode: Option<Seq<char>>,
    pub serial: Option<Seq<char>>,
    pub location: Option<Seq<char>>,
    pub quantity: u32,
}

impl View for Item {
    type V = ItemView;

    open spec fn view(&self) -> ItemView {
        ItemView {
            id: self.id,
            name: self.name@,
            barcode: opt_text(self.barcode),
            serial: opt_text(self.serial),
            location: opt_text(self.location),
            quantity: self.quantity,
        }
    }
}

impl View for InsertItem {
    type V = InsertItemView;

    open spec fn view(&self) -> InsertItemView {
        InsertItemView {
            name: self.name@,
            barcode: opt_text(self.barcode),
            serial: opt_text(self.serial),
            location: opt_text(self.location),
            quantity: self.quantity,
        }
    }
}

/// The item that the fields `ins` become once the store has given them `id`.
pub open spec fn stored_item(id: u32, ins: InsertItemView) -> ItemView {
    ItemView {
        id,
        name: ins.name,
        barcode: ins.barcode,
        serial: ins.serial,
        location: ins.location,
        quantity: ins.quantity,
    }
}

impl From<(u32, InsertItem)> for Item {
    fn from(pair: (u32, InsertItem)) -> (item: Item) {
        let (id, insert_item) = pair;
        Item {
            id,
            name: insert_item.name,
            barcode: insert_item.barcode,
            serial: insert_item.serial,
            location: insert_item.location,
            quantity: insert_item.quantity,
        }
    }
}

impl vstd::std_specs::convert::FromSpecImpl<(u32, InsertItem)> for Item {
    open spec fn obeys_from_spec() -> bool {
        true
    }

    open spec fn from_spec(pair: (u32, InsertItem)) -> Item {
        Item {
            id: pair.0,
            name: pair.1.name,
            barcode: pair.1.barcode,
            serial: pair.1.serial,
            location: pair.1.location,
            quantity: pair.1.quantity,
        }
    }
}

impl From<(String, Option<String>, Option<String>, Option<String>, u32)> for InsertItem {
    fn from(fields: (String, Option<String>, Option<String>, Option<String>, u32)) -> (ins:
        InsertItem) {
        let (name, barcode, serial, location, quantity) = fields;
        InsertItem { name, barcode, serial, location, quantity }
    }
}

impl vstd::std_specs::convert::FromSpecImpl<(String, Option<String>, Option<String>, Option<String>, u32)> for InsertItem {
    open spec fn obeys_from_spec() -> bool {
        true
    }

    open spec fn from_spec(fields: (String, Option<String>, Option<String>, Option<String>, u32)) -> InsertItem {
        InsertItem {
            name: fields.0,
            barcode: fields.1,
            serial: fields.2,
            location: fields.3,
            quantity: fields.4,
        }
    }
}

/// An optional field: its trimmed text, or nothing when that is empty.
pub open spec fn trim_or_none_spec(s: Seq<char>) -> Option<Seq<char>> {
    if trim_spec(s).len() == 0 {
        None
    } else {
        Some(trim_spec(s))
    }
}

/// A value that `trim_or_none_value` kept comes back unchanged when it is
/// cleaned again.
pub proof fn lemma_trim_or_none_stable(s: Seq<char>)
    ensures
        trim_or_none_spec(s) matches Some(t) ==> trim_or_none_spec(t) == Some(t),
{
    lemma_trim_idempotent(s);
}

/// The trimmed value of an optional field, or `None` when nothing but white
/// space was entered.
pub fn trim_or_none_value(value: &String) -> (r: Option<String>)
    ensures
        opt_text(r) == trim_or_none_spec(value@),
{
    let v = trim_text(value.as_str());
    if v.as_str().is_empty() {
        return None;
    }
    Some(v)
}


/// The quantity that an entered text stands for: none entered means zero,
/// otherwise the trimmed text must read as a `u32`.
pub open spec fn quantity_spec(s: Seq<char>) -> Option<u32> {
    if trim_spec(s).len() == 0 {
        Some(0)
    } else {
        parse_u32_spec(trim_spec(s))
    }
}

/// The quantity that an entered text stands for, or `None` when it is not a
/// non-negative number.
pub fn parse_quantity(s: &String) -> (r: Option<u32>)
    ensures
        r == quantity_spec(s@),
{
    let t = trim_text(s.as_str());
    if t.as_str().is_empty() {
        Some(0)
    } else {
        parse_u32(t.as_str())
    }
}

/// The message for an item without a name.
pub open spec fn name_required_msg() -> Seq<char> {
    "Name is required"@
}

/// The message for a quantity that is not a non-negative number.
pub open spec fn bad_quantity_msg() -> Seq<char> {
    "Quantity must be a non-negative number"@
}

/// What the entered fields of an item give: the fields to store, or the
/// message that refuses them. The name is checked before the quantity.
pub open spec fn prepare_spec(
    name: Seq<char>,
    barcode: Seq<char>,
    serial: Seq<char>,
    location: Seq<char>,
    quantity: Seq<char>,
) -> Result<InsertItemView, Seq<char>> {
    if trim_spec(name).len() == 0 {
        Err(name_required_msg())
    } else if quantity_spec(quantity) is None {
        Err(bad_quantity_msg())
    } else {
        Ok(
            InsertItemView {
                name: trim_spec(name),
                barcode: trim_or_none_spec(barcode),
                serial: trim_or_none_spec(serial),
                location: trim_or_none_spec(location),
                quantity: quantity_spec(quantity)->0,
            },
        )
    }
}

/// The value of a prepared item or of its refusal.
pub open spec fn prepared_view(r: Result<InsertItem, String>) -> Result<InsertItemView, Seq<char>> {
    match r {
        Ok(ins) => Ok(ins@),
        Err(msg) => Err(msg@),
    }
}

/// Checks and cleans the entered fields of an item: the name is required and
/// trimmed, optional fields are trimmed or left out when blank, and the
/// quantity is zero when blank or else a non-negative number.
pub fn prepare_insert_item(
    name: &String,
    barcode: &String,
    serial: &String,
    location: &String,
    quantity: &String,
) -> (r: Result<InsertItem, String>)
    ensures
        prepared_view(r) == prepare_spec(name@, barcode@, serial@, location@, quantity@),
{
    let name_insert = trim_text(name.as_str());
    if name_insert.as_str().is_empty() {
        let msg = String::from_str("Name is required");
        proof {
            reveal_strlit("Name is required");
        }
        return Err(msg);
    }
    let quantity_insert = match parse_quantity(quantity) {
        Some(q) => q,
        None => {
            let msg = String::from_str("Quantity must be a non-negative number");
            proof {
                reveal_strlit("Quantity must be a non-negative number");
            }
            return Err(msg);
        },
    };
    let barcode_insert = trim_or_none_value(barcode);
    let serial_insert = trim_or_none_value(serial);
    let location_insert = trim_or_none_value(location);
    let insert_item: InsertItem = InsertItem::from(
        (name_insert, barcode_insert, serial_insert, location_insert, quantity_insert),
    );
    Ok(insert_item)
}

/// The item that the store keeps for `insert_item` under the row id `rowid`,
/// whose low 32 bits become the item's id.
pub fn created_item(rowid: i64, insert_item: InsertItem) -> (item: Item)
    ensures
        item@ == stored_item(rowid as u32, insert_item@),
{
    let id = rowid as u32;
    Item::from((id, insert_item))
}

/// The value of an item read from the store; ids and quantities keep their
/// low 32 bits.
pub open spec fn row_item(row: ItemRow) -> ItemView {
    ItemView {
        id: row.id as u32,
        name: row.name@,
        barcode: opt_text(row.barcode),
        serial: opt_text(row.serial),
        location: opt_text(row.location),
        quantity: row.quantity as u32,
    }
}

/// The items that a read of the store gives: every row that could be read, in
/// order; rows that failed to read are left out.
pub open spec fn rows_items(rows: Seq<Option<ItemRow>>) -> Seq<ItemView>
    decreases rows.len(),
{
    if rows.len() == 0 {
        Seq::empty()
    } else {
        let rest = rows_items(rows.drop_last());
        match rows.last() {
            Some(row) => rest.push(row_item(row)),
            None => rest,
        }
    }
}

/// Reading the store keeps every row that was read, in order: a read row adds
/// its item at the end, a failed row adds nothing, and no rows give no items.
pub proof fn lemma_rows_items_push(rows: Seq<Option<ItemRow>>, row: ItemRow)
    ensures
        rows_items(Seq::<Option<ItemRow>>::empty()) == Seq::<ItemView>::empty(),
        rows_items(rows.push(Some(row))) == rows_items(rows).push(row_item(row)),
        rows_items(rows.push(None)) == rows_items(rows),
{
    assert(rows.push(Some(row)).drop_last() =~= rows);
    assert(rows.push(None::<ItemRow>).drop_last() =~= rows);
}

/// When every row was read, there is one item per row, each the item of the
/// row at the same position.
pub proof fn lemma_rows_items_all_read(rows: Seq<Option<ItemRow>>)
    requires
        forall|k: int| 0 <= k < rows.len() ==> (#[trigger] rows[k]) is Some,
    ensures
        rows_items(rows).len() == rows.len(),
        forall|k: int| 0 <= k < rows.len() ==> #[trigger] rows_items(rows)[k] == row_item(rows[k]->0),
    decreases rows.len(),
{
    if rows.len() > 0 {
        let rest = rows.drop_last();
        assert forall|k: int| 0 <= k < rest.len() implies (#[trigger] rest[k]) is Some by {
            assert(rest[k] == rows[k]);
        }
        lemma_rows_items_all_read(rest);
        assert forall|k: int| 0 <= k < rows.len() implies #[trigger] rows_items(rows)[k] == row_item(
            rows[k]->0,
        ) by {
            if k < rows.len() - 1 {
                assert(rest[k] == rows[k]);
            }
        }
    }
}

/// The values of a list of items.
pub open spec fn items_view(items: Seq<Item>) -> Seq<ItemView> {
    items.map_values(|it: Item| it@)
}

pub(crate) fn clone_text(o: &Option<String>) -> (r: Option<String>)
    ensures
        r == *o,
{
    match o {
        Some(s) => Some(s.clone()),
        None => None,
    }
}

/// Turns one row into an item.
pub fn item_from_row(row: &ItemRow) -> (item: Item)
    ensures
        item@ == row_item(*row),
{
    Item {
        id: row.id as u32,
        name: row.name.clone(),
        barcode: clone_text(&row.barcode),
        serial: clone_text(&row.serial),
        location: clone_text(&row.location),
        quantity: row.quantity as u32,
    }
}

/// The items of a read of the store, keeping the rows that were read and
/// leaving out those that failed.
pub fn items_from_rows(rows: &Vec<Option<ItemRow>>) -> (items: Vec<Item>)
    ensures
        items_view(items@) == rows_items(rows@),
{
    let mut items: Vec<Item> = Vec::new();
    let mut i: usize = 0;
    while i < rows.len()
        invariant
            i <= rows@.len(),
            items_view(items@) == rows_items(rows@.take(i as int)),
        decreases rows@.len() - i,
    {
        assert(rows@.take(i + 1).drop_last() =~= rows@.take(i as int));
        match &rows[i] {
            Some(row) => {
                let item = item_from_row(row);
                items.push(item);
            },
            None => {},
        }
        proof {
            assert(items_view(items@) =~= rows_items(rows@.take(i + 1)));
        }
        i = i + 1;
    }
    assert(rows@.take(rows@.len() as int) =~= rows@);
    items
}

} // verus!
