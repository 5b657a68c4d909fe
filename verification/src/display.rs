use vstd::prelude::*;
use crate::item::{Item, ItemView};
use crate::settings::{Settings, SettingsView, texts};
use crate::text::{decimal_digits, u32_to_text};
use crate::ui::{Focus, SettingsFocus};

verus! {

/// The text shown for an optional field: the field, or `-` when absent.
pub open spec fn or_dash(o: Option<Seq<char>>) -> Seq<char> {
    match o {
        Some(s) => s,
        None => "-"@,
    }
}

/// The cells of an item's row in the table: id, name, quantity, location,
/// barcode and serial.
pub open spec fn item_cells_spec(it: ItemView) -> Seq<Seq<char>> {
    seq![
        decimal_digits(it.id as nat),
        it.name,
        decimal_digits(it.quantity as nat),
        or_dash(it.location),
        or_dash(it.barcode),
        or_dash(it.serial),
    ]
}

fn or_dash_exec(o: &Option<String>) -> (r: String)
    ensures
        r@ == or_dash(crate::item::opt_text(*o)),
{
    match o {
        Some(s) => s.clone(),
        None => String::from_str("-"),
    }
}

/// The cells of an item's row in the table.
pub fn item_cells(item: &Item) -> (r: Vec<String>)
    ensures
        texts(r@) == item_cells_spec(item@),
        r@.len() == 6,
        r@[0]@ == decimal_digits(item.id as nat),
        r@[1]@ == item.name@,
        r@[2]@ == decimal_digits(item.quantity as nat),
        r@[3]@ == or_dash(crate::item::opt_text(item.location)),
        r@[4]@ == or_dash(crate::item::opt_text(item.barcode)),
        r@[5]@ == or_dash(crate::item::opt_text(item.serial)),
{
    let mut r: Vec<String> = Vec::new();
    r.push(u32_to_text(item.id));
    r.push(item.name.clone());
    r.push(u32_to_text(item.quantity));
    r.push(or_dash_exec(&item.location));
    r.push(or_dash_exec(&item.barcode));
    r.push(or_dash_exec(&item.serial));
    assert(texts(r@) =~= item_cells_spec(item@));
    r
}

/// The label of a recent database in the settings list: the database in use
/// is marked with a check mark.
pub open spec fn recent_label(path: Seq<char>, current: Seq<char>) -> Seq<char> {
    if path == current {
        "✓ "@ + path
    } else {
        path
    }
}

/// The labels of the recent databases, in the order of the list.
pub open spec fn recent_labels_spec(s: SettingsView) -> Seq<Seq<char>> {
    s.recent.map_values(|p: Seq<char>| recent_label(p, s.path))
}

/// The labels of the recent databases, the one in use marked.
pub fn recent_labels(settings: &Settings) -> (r: Vec<String>)
    ensures
        texts(r@) == recent_labels_spec(settings@),
        r@.len() == settings.database.recent@.len(),
        forall|k: int|
            0 <= k < r@.len() ==> #[trigger] r@[k]@ == if settings.database.recent@[k]@
                == settings.database.path@ {
                "✓ "@ + settings.database.recent@[k]@
            } else {
                settings.database.recent@[k]@
            },
{
    let recent = &settings.database.recent;
    let mut r: Vec<String> = Vec::new();
    let mut i: usize = 0;
    while i < recent.len()
        invariant
            i <= recent@.len(),
            recent == &settings.database.recent,
            r@.len() == i,
            forall|j: int| 0 <= j < i ==> #[trigger] r@[j]@ == recent_label(recent@[j]@, settings@.path),
        decreases recent@.len() - i,
    {
        let label = if recent[i] == settings.database.path {
            let mut l = String::from_str("✓ ");
            l.append(recent[i].as_str());
            l
        } else {
            recent[i].clone()
        };
        r.push(label);
        i = i + 1;
    }
    assert(texts(r@) =~= recent_labels_spec(settings@));
    r
}

/// The title of a text input, marked when it has the focus.
pub open spec fn input_title_spec(field: Focus, focus: Focus) -> Seq<char> {
    let active = field == focus;
    match field {
        Focus::NameInput => if active { "Name (active)"@ } else { "Name"@ },
        Focus::QuantityInput => if active { "Qty (active)"@ } else { "Qty"@ },
        Focus::LocationInput => if active {
            "Location (active, optional)"@
        } else {
            "Location (optional)"@
        },
        Focus::BarcodeInput => if active {
            "Barcode (active, optional)"@
        } else {
            "Barcode (optional)"@
        },
        Focus::SerialInput => if active {
            "Serial (active, optional)"@
        } else {
            "Serial (optional)"@
        },
        _ => ""@,
    }
}

/// The title of a text input of the inventory screen.
pub fn input_title(field: Focus, focus: Focus) -> (r: &'static str)
    ensures
        r@ == input_title_spec(field, focus),
{
    let active = field == focus;
    match field {
        Focus::NameInput => if active { "Name (active)" } else { "Name" },
        Focus::QuantityInput => if active { "Qty (active)" } else { "Qty" },
        Focus::LocationInput => if active {
            "Location (active, optional)"
        } else {
            "Location (optional)"
        },
        Focus::BarcodeInput => if active {
            "Barcode (active, optional)"
        } else {
            "Barcode (optional)"
        },
        Focus::SerialInput => if active {
            "Serial (active, optional)"
        } else {
            "Serial (optional)"
        },
        _ => "",
    }
}

/// The label of the add button: it saves while an item is being edited.
pub fn add_button_label(editing: bool) -> (r: &'static str)
    ensures
        r@ == (if editing { "[ Save ]"@ } else { "[ Add Item ]"@ }),
{
    if editing {
        "[ Save ]"
    } else {
        "[ Add Item ]"
    }
}

/// The title of the list of recent databases, marked when it has the focus.
pub fn recent_list_title(focus: SettingsFocus) -> (r: &'static str)
    ensures
        r@ == (if focus == SettingsFocus::DatabaseList {
            "Recent Databases (active)"@
        } else {
            "Recent Databases"@
        }),
{
    match focus {
        SettingsFocus::DatabaseList => "Recent Databases (active)",
        SettingsFocus::NewDatabaseInput => "Recent Databases",
    }
}

/// The title of the input for a new database path, marked when it has the
/// focus.
pub fn new_database_title(focus: SettingsFocus) -> (r: &'static str)
    ensures
        r@ == (if focus == SettingsFocus::NewDatabaseInput {
            "New Database Path (active)"@
        } else {
            "New Database Path"@
        }),
{
    match focus {
        SettingsFocus::DatabaseList => "New Database Path",
        SettingsFocus::NewDatabaseInput => "New Database Path (active)",
    }
}

/// The line below the inventory: the status, then the key help.
pub fn help_line(status: &String) -> (r: String)
    ensures
        r@ == status@ + " | Tab/Enter: next focus | Up/Down: move row | Ctrl+S: settings | q: quit"@,
{
    let mut s = status.clone();
    s.append(" | Tab/Enter: next focus | Up/Down: move row | Ctrl+S: settings | q: quit");
    s
}


/// The cells of an item's row are, column by column under the header ID,
/// Name, Qty, Location, Barcode, Serial: the id and the quantity in decimal,
/// the name, and the location, barcode and serial each shown as `-` when
/// absent.
pub proof fn lemma_item_cells_columns(it: ItemView)
    ensures
        item_cells_spec(it).len() == 6,
        item_cells_spec(it)[0] == decimal_digits(it.id as nat),
        item_cells_spec(it)[1] == it.name,
        item_cells_spec(it)[2] == decimal_digits(it.quantity as nat),
        it.location matches Some(l) ==> item_cells_spec(it)[3] == l,
        it.location is None ==> item_cells_spec(it)[3] == "-"@,
        it.barcode matches Some(b) ==> item_cells_spec(it)[4] == b,
        it.barcode is None ==> item_cells_spec(it)[4] == "-"@,
        it.serial matches Some(sr) ==> item_cells_spec(it)[5] == sr,
        it.serial is None ==> item_cells_spec(it)[5] == "-"@,
{
}

/// Each recent database gets one label, in the list's order: the database in
/// use is shown with a check mark in front, every other one as its path.
pub proof fn lemma_recent_labels_mark_current(s: SettingsView)
    ensures
        recent_labels_spec(s).len() == s.recent.len(),
        forall|k: int|
            0 <= k < s.recent.len() && s.recent[k] == s.path ==> #[trigger] recent_labels_spec(s)[k]
                == "✓ "@ + s.path,
        forall|k: int|
            0 <= k < s.recent.len() && s.recent[k] != s.path ==> #[trigger] recent_labels_spec(s)[k]
                == s.recent[k],
{
}

} // verus!
