use vstd::prelude::*;
use crate::item::{
    Item, ItemView, InsertItem, InsertItemView, items_view, prepare_spec,
    prepare_insert_item, stored_item, opt_text, clone_text,
};
use crate::settings::{Settings, SettingsView, choose_database};
use crate::text::{
    string_push, string_pop, decimal_digits, push_decimal, u32_to_text, trim_spec, trim_text,
    lemma_parse_decimal_round_trip,
};
use crate::item::{quantity_spec, trim_or_none_spec};

verus! {

/// The screen on display.
#[derive(Clone, Copy, PartialEq, Eq, Debug, Structural)]
pub enum Screen {
    Inventory,
    Settings,
}

/// The control of the inventory screen that receives keyboard input.
#[derive(Clone, Copy, PartialEq, Eq, Debug, Structural)]
pub enum Focus {
    Table,
    NameInput,
    QuantityInput,
    LocationInput,
    BarcodeInput,
    SerialInput,
    ButtonAdd,
    ButtonEdit,
    ButtonDelete,
}

/// The control of the settings screen that receives keyboard input.
#[derive(Clone, Copy, PartialEq, Eq, Debug, Structural)]
pub enum SettingsFocus {
    DatabaseList,
    NewDatabaseInput,
}

/// A key of the keyboard, as far as the application tells keys apart.
#[derive(Clone, Copy, PartialEq, Eq, Debug, Structural)]
pub enum Key {
    Tab,
    BackTab,
    Up,
    Down,
    Backspace,
    Enter,
    Esc,
    Char(char),
    Other,
}

/// A key event: the key, whether Control was held, and whether the key was
/// pressed (rather than repeated or released).
#[derive(Clone, Copy, PartialEq, Eq, Debug, Structural)]
pub struct KeyEvent {
    pub key: Key,
    pub ctrl: bool,
    pub press: bool,
}

/// What the application must do outside its state after a key event.
pub enum Effect {
    /// Nothing.
    Nothing,
    /// End the application.
    Quit,
    /// Store a new item, then hand it to `App::item_added`.
    Insert(InsertItem),
    /// Write an edited item back to the store.
    Update(Item),
    /// Delete the item with this id from the store.
    Delete(u32),
    /// Open the database at this path, read its items and hand them to
    /// `App::switch_database`.
    SwitchDatabase(String),
}

/// The mathematical value of an effect.
pub enum EffectView {
    Nothing,
    Quit,
    Insert(InsertItemView),
    Update(ItemView),
    Delete(u32),
    SwitchDatabase(Seq<char>),
}

impl View for Effect {
    type V = EffectView;

    open spec fn view(&self) -> EffectView {
        match self {
            Effect::Nothing => EffectView::Nothing,
            Effect::Quit => EffectView::Quit,
            Effect::Insert(ins) => EffectView::Insert(ins@),
            Effect::Update(it) => EffectView::Update(it@),
            Effect::Delete(id) => EffectView::Delete(*id),
            Effect::SwitchDatabase(p) => EffectView::SwitchDatabase(p@),
        }
    }
}

/// All state of the application but its database connection.
pub struct App {
    pub items: Vec<Item>,
    pub selected: Option<usize>,
    pub focus: Focus,
    pub name_input: String,
    pub quantity_input: String,
    pub location_input: String,
    pub barcode_input: String,
    pub serial_input: String,
    pub status: String,
    pub editing_row: Option<usize>,
    pub pending_delete: Option<usize>,
    pub screen: Screen,
    pub settings: Settings,
    pub settings_focus: SettingsFocus,
    pub settings_selected: Option<usize>,
    pub new_db_input: String,
}

/// The mathematical value of the application state.
pub struct AppView {
    pub items: Seq<ItemView>,
    pub selected: Option<usize>,
    pub focus: Focus,
    pub name_input: Seq<char>,
    pub quantity_input: Seq<char>,
    pub location_input: Seq<char>,
    pub barcode_input: Seq<char>,
    pub serial_input: Seq<char>,
    pub status: Seq<char>,
    pub editing_row: Option<usize>,
    pub pending_delete: Option<usize>,
    pub screen: Screen,
    pub settings: SettingsView,
    pub settings_focus: SettingsFocus,
    pub settings_selected: Option<usize>,
    pub new_db_input: Seq<char>,
}

impl View for App {
    type V = AppView;

    open spec fn view(&self) -> AppView {
        AppView {
            items: items_view(self.items@),
            selected: self.selected,
            focus: self.focus,
            name_input: self.name_input@,
            quantity_input: self.quantity_input@,
            location_input: self.location_input@,
            barcode_input: self.barcode_input@,
            serial_input: self.serial_input@,
            status: self.status@,
            editing_row: self.editing_row,
            pending_delete: self.pending_delete,
            screen: self.screen,
            settings: self.settings@,
            settings_focus: self.settings_focus,
            settings_selected: self.settings_selected,
            new_db_input: self.new_db_input@,
        }
    }
}

/// The selection after moving down a list of `len` entries: past the last
/// entry it wraps to the first; no selection counts as the first entry.
pub open spec fn next_index(selected: Option<usize>, len: nat) -> Option<usize> {
    if len == 0 {
        None
    } else {
        let i = match selected {
            Some(i) => i,
            None => 0,
        };
        if i >= len - 1 {
            Some(0)
        } else {
            Some((i + 1) as usize)
        }
    }
}

/// The selection after moving up a list of `len` entries: before the first
/// entry it wraps to the last; no selection counts as the first entry.
pub open spec fn prev_index(selected: Option<usize>, len: nat) -> Option<usize> {
    if len == 0 {
        None
    } else {
        let i = match selected {
            Some(i) => i,
            None => 0,
        };
        if i == 0 {
            Some((len - 1) as usize)
        } else {
            Some((i - 1) as usize)
        }
    }
}

/// The control that follows `f` in the focus order: the table, the name,
/// quantity, location, barcode and serial inputs, the add, edit and delete
/// buttons, and the table again.
pub open spec fn next_focus(f: Focus) -> Focus {
    match f {
        Focus::Table => Focus::NameInput,
        Focus::NameInput => Focus::QuantityInput,
        Focus::QuantityInput => Focus::LocationInput,
        Focus::LocationInput => Focus::BarcodeInput,
        Focus::BarcodeInput => Focus::SerialInput,
        Focus::SerialInput => Focus::ButtonAdd,
        Focus::ButtonAdd => Focus::ButtonEdit,
        Focus::ButtonEdit => Focus::ButtonDelete,
        Focus::ButtonDelete => Focus::Table,
    }
}

/// The control that precedes `f` in the focus order.
pub open spec fn prev_focus(f: Focus) -> Focus {
    match f {
        Focus::Table => Focus::ButtonDelete,
        Focus::NameInput => Focus::Table,
        Focus::QuantityInput => Focus::NameInput,
        Focus::LocationInput => Focus::QuantityInput,
        Focus::BarcodeInput => Focus::LocationInput,
        Focus::SerialInput => Focus::BarcodeInput,
        Focus::ButtonAdd => Focus::SerialInput,
        Focus::ButtonEdit => Focus::ButtonAdd,
        Focus::ButtonDelete => Focus::ButtonEdit,
    }
}

/// The other control of the settings screen.
pub open spec fn other_settings_focus(f: SettingsFocus) -> SettingsFocus {
    match f {
        SettingsFocus::DatabaseList => SettingsFocus::NewDatabaseInput,
        SettingsFocus::NewDatabaseInput => SettingsFocus::DatabaseList,
    }
}

/// The selection of the first entry of a list of `len` entries, if any.
pub open spec fn first_index(len: nat) -> Option<usize> {
    if len == 0 {
        None
    } else {
        Some(0)
    }
}

/// The state at start: the items from the database in `settings`, the first
/// one selected, the name input focused, all inputs empty.
pub open spec fn initial_state(settings: SettingsView, items: Seq<ItemView>) -> AppView {
    AppView {
        items,
        selected: first_index(items.len()),
        focus: Focus::NameInput,
        name_input: Seq::empty(),
        quantity_input: Seq::empty(),
        location_input: Seq::empty(),
        barcode_input: Seq::empty(),
        serial_input: Seq::empty(),
        status: "Loaded from "@ + settings.path,
        editing_row: None,
        pending_delete: None,
        screen: Screen::Inventory,
        settings,
        settings_focus: SettingsFocus::DatabaseList,
        settings_selected: Some(0),
        new_db_input: Seq::empty(),
    }
}

/// The state after the text input that has the focus was changed by `edit`;
/// when no text input has the focus nothing changes.
pub open spec fn edit_active_input(v: AppView, edit: spec_fn(Seq<char>) -> Seq<char>) -> AppView {
    match v.focus {
        Focus::NameInput => AppView { name_input: edit(v.name_input), ..v },
        Focus::QuantityInput => AppView { quantity_input: edit(v.quantity_input), ..v },
        Focus::LocationInput => AppView { location_input: edit(v.location_input), ..v },
        Focus::BarcodeInput => AppView { barcode_input: edit(v.barcode_input), ..v },
        Focus::SerialInput => AppView { serial_input: edit(v.serial_input), ..v },
        _ => v,
    }
}

/// Typing `c`: the char goes to the end of the text.
pub open spec fn typed(c: char) -> spec_fn(Seq<char>) -> Seq<char> {
    |s: Seq<char>| s.push(c)
}

/// Erasing: the last char of the text goes, if there is one.
pub open spec fn erased() -> spec_fn(Seq<char>) -> Seq<char> {
    |s: Seq<char>|
        if s.len() > 0 {
            s.drop_last()
        } else {
            s
        }
}

/// The state with all item inputs empty.
pub open spec fn cleared_inputs(v: AppView) -> AppView {
    AppView {
        name_input: Seq::empty(),
        quantity_input: Seq::empty(),
        location_input: Seq::empty(),
        barcode_input: Seq::empty(),
        serial_input: Seq::empty(),
        ..v
    }
}

/// The state after switching to the database at `path`, from which `items`
/// were read: the settings record the choice, the first item is selected and
/// any edit or pending deletion is dropped.
pub open spec fn switched_state(v: AppView, path: Seq<char>, items: Seq<ItemView>) -> AppView {
    cleared_inputs(
        AppView {
            settings: choose_database(v.settings, path),
            items,
            selected: first_index(items.len()),
            status: "Switched to: "@ + path,
            editing_row: None,
            pending_delete: None,
            ..v
        },
    )
}

/// The fields that the item inputs of `v` hold, checked and cleaned.
pub open spec fn prepared_inputs(v: AppView) -> Result<InsertItemView, Seq<char>> {
    prepare_spec(v.name_input, v.barcode_input, v.serial_input, v.location_input, v.quantity_input)
}

/// The state after `item` was stored and shown: it is appended and selected,
/// the inputs are emptied and the name input gets the focus.
pub open spec fn added_state(v: AppView, item: ItemView) -> AppView {
    cleared_inputs(
        AppView {
            items: v.items.push(item),
            status: "Item added"@,
            selected: Some(v.items.len() as usize),
            focus: Focus::NameInput,
            ..v
        },
    )
}

/// The text of an optional field, empty when there is none.
pub open spec fn text_or_empty(o: Option<Seq<char>>) -> Seq<char> {
    match o {
        Some(s) => s,
        None => Seq::empty(),
    }
}

/// Whether `v` selects an item of the table.
pub open spec fn has_selected_item(v: AppView) -> bool {
    v.selected is Some && v.selected->0 < v.items.len()
}

/// The state after starting to edit the selected item: its fields go into the
/// inputs, or the status says that no item is selected.
pub open spec fn start_edit_spec(v: AppView) -> AppView {
    if has_selected_item(v) {
        let i = v.selected->0;
        let it = v.items[i as int];
        AppView {
            name_input: it.name,
            quantity_input: decimal_digits(it.quantity as nat),
            location_input: text_or_empty(it.location),
            barcode_input: text_or_empty(it.barcode),
            serial_input: text_or_empty(it.serial),
            editing_row: Some(i),
            status: "Editing row "@ + decimal_digits(it.id as nat)
                + " - modify fields then press Save"@,
            focus: Focus::NameInput,
            ..v
        }
    } else {
        AppView { status: "No row selected"@, ..v }
    }
}

/// The state after saving the item being edited, and the item to write back
/// to the store, if any.
pub open spec fn save_edit_spec(v: AppView) -> (AppView, Option<ItemView>) {
    match v.editing_row {
        None => (AppView { status: "Not editing any row"@, ..v }, None),
        Some(i) => if i >= v.items.len() {
            (v, None)
        } else {
            match prepared_inputs(v) {
                Err(msg) => (AppView { status: msg, ..v }, None),
                Ok(ins) => {
                    let item = stored_item(v.items[i as int].id, ins);
                    (
                        cleared_inputs(
                            AppView {
                                items: v.items.update(i as int, item),
                                status: "Item updated"@,
                                editing_row: None,
                                focus: Focus::NameInput,
                                ..v
                            },
                        ),
                        Some(item),
                    )
                },
            }
        },
    }
}

/// The state after asking to delete the selected item.
pub open spec fn request_delete_spec(v: AppView) -> AppView {
    if has_selected_item(v) {
        let i = v.selected->0;
        AppView {
            pending_delete: Some(i),
            status: "Confirm delete of ID "@ + decimal_digits(v.items[i as int].id as nat)
                + "? (y/n)"@,
            ..v
        }
    } else {
        AppView { status: "No row selected"@, ..v }
    }
}

/// The state after a deletion was confirmed, and the id of the item to delete
/// from the store, if any: the item leaves the table and the selection moves
/// to the entry before it.
pub open spec fn confirm_delete_spec(v: AppView) -> (AppView, Option<u32>) {
    match v.pending_delete {
        Some(i) => if i < v.items.len() {
            let id = v.items[i as int].id;
            let items = v.items.remove(i as int);
            (
                AppView {
                    items,
                    status: "Deleted ID "@ + decimal_digits(id as nat),
                    pending_delete: None,
                    selected: if items.len() == 0 {
                        None
                    } else if i == 0 {
                        Some(0)
                    } else {
                        Some((i - 1) as usize)
                    },
                    ..v
                },
                Some(id),
            )
        } else {
            (v, None)
        },
        None => (v, None),
    }
}

/// The state after moving the selection of the recent databases down.
pub open spec fn settings_next_spec(v: AppView) -> AppView {
    if v.settings.recent.len() == 0 {
        v
    } else {
        AppView { settings_selected: next_index(v.settings_selected, v.settings.recent.len()), ..v }
    }
}

/// The state after moving the selection of the recent databases up.
pub open spec fn settings_prev_spec(v: AppView) -> AppView {
    if v.settings.recent.len() == 0 {
        v
    } else {
        AppView { settings_selected: prev_index(v.settings_selected, v.settings.recent.len()), ..v }
    }
}

/// The state after the Enter key on the add button when no item is being
/// edited, and the fields to store, if they pass the checks.
pub open spec fn try_add_spec(v: AppView) -> (AppView, EffectView) {
    match prepared_inputs(v) {
        Ok(ins) => (v, EffectView::Insert(ins)),
        Err(msg) => (AppView { status: msg, ..v }, EffectView::Nothing),
    }
}

/// A key event on the inventory screen. While a deletion waits for
/// confirmation only `y` or `Y` (delete) and `n` or `N` (cancel) count.
pub open spec fn inventory_step(v: AppView, ev: KeyEvent) -> (AppView, EffectView) {
    if v.pending_delete is Some {
        match ev.key {
            Key::Char(c) => if c == 'y' || c == 'Y' {
                let (w, id) = confirm_delete_spec(v);
                (
                    w,
                    match id {
                        Some(id) => EffectView::Delete(id),
                        None => EffectView::Nothing,
                    },
                )
            } else if c == 'n' || c == 'N' {
                (
                    AppView { pending_delete: None, status: "Delete canceled"@, ..v },
                    EffectView::Nothing,
                )
            } else {
                (v, EffectView::Nothing)
            },
            _ => (v, EffectView::Nothing),
        }
    } else {
        match ev.key {
            Key::Tab => if ev.ctrl {
                (AppView { focus: prev_focus(v.focus), ..v }, EffectView::Nothing)
            } else {
                (AppView { focus: next_focus(v.focus), ..v }, EffectView::Nothing)
            },
            Key::BackTab => (AppView { focus: prev_focus(v.focus), ..v }, EffectView::Nothing),
            Key::Up => if v.focus == Focus::Table {
                (
                    AppView { selected: prev_index(v.selected, v.items.len()), ..v },
                    EffectView::Nothing,
                )
            } else {
                (v, EffectView::Nothing)
            },
            Key::Down => if v.focus == Focus::Table {
                (
                    AppView { selected: next_index(v.selected, v.items.len()), ..v },
                    EffectView::Nothing,
                )
            } else {
                (v, EffectView::Nothing)
            },
            Key::Backspace => (edit_active_input(v, erased()), EffectView::Nothing),
            Key::Enter => match v.focus {
                Focus::ButtonAdd => if v.editing_row is Some {
                    let (w, saved) = save_edit_spec(v);
                    (
                        w,
                        match saved {
                            Some(item) => EffectView::Update(item),
                            None => EffectView::Nothing,
                        },
                    )
                } else {
                    try_add_spec(v)
                },
                Focus::ButtonEdit => (start_edit_spec(v), EffectView::Nothing),
                Focus::ButtonDelete => (request_delete_spec(v), EffectView::Nothing),
                _ => (AppView { focus: next_focus(v.focus), ..v }, EffectView::Nothing),
            },
            Key::Char(c) => (edit_active_input(v, typed(c)), EffectView::Nothing),
            _ => (v, EffectView::Nothing),
        }
    }
}

/// A key event on the settings screen: the list of recent databases moves
/// with Up and Down and opens the selected one with Enter; the path input
/// takes typed chars and opens the trimmed path with Enter; Tab switches
/// between the two.
pub open spec fn settings_step(v: AppView, ev: KeyEvent) -> (AppView, EffectView) {
    match v.settings_focus {
        SettingsFocus::DatabaseList => match ev.key {
            Key::Up => (settings_prev_spec(v), EffectView::Nothing),
            Key::Down => (settings_next_spec(v), EffectView::Nothing),
            Key::Enter => if v.settings_selected is Some && v.settings_selected->0
                < v.settings.recent.len() {
                (
                    AppView { screen: Screen::Inventory, ..v },
                    EffectView::SwitchDatabase(v.settings.recent[v.settings_selected->0 as int]),
                )
            } else {
                (v, EffectView::Nothing)
            },
            Key::Tab => (
                AppView { settings_focus: other_settings_focus(v.settings_focus), ..v },
                EffectView::Nothing,
            ),
            _ => (v, EffectView::Nothing),
        },
        SettingsFocus::NewDatabaseInput => match ev.key {
            Key::Enter => if trim_spec(v.new_db_input).len() > 0 {
                (
                    AppView { new_db_input: Seq::empty(), screen: Screen::Inventory, ..v },
                    EffectView::SwitchDatabase(trim_spec(v.new_db_input)),
                )
            } else {
                (v, EffectView::Nothing)
            },
            Key::Backspace => (
                AppView { new_db_input: erased()(v.new_db_input), ..v },
                EffectView::Nothing,
            ),
            Key::Tab => (
                AppView { settings_focus: other_settings_focus(v.settings_focus), ..v },
                EffectView::Nothing,
            ),
            Key::Char(c) => (
                AppView { new_db_input: v.new_db_input.push(c), ..v },
                EffectView::Nothing,
            ),
            _ => (v, EffectView::Nothing),
        },
    }
}

/// Any key event: only presses count; `q` quits, Ctrl+S switches between the
/// two screens (the settings screen opens with its first entry selected), Esc
/// leaves the settings screen, and other keys go to the screen on display.
pub open spec fn step(v: AppView, ev: KeyEvent) -> (AppView, EffectView) {
    if !ev.press {
        (v, EffectView::Nothing)
    } else if ev.key == Key::Char('q') {
        (v, EffectView::Quit)
    } else if ev.key == Key::Char('s') && ev.ctrl {
        if v.screen == Screen::Inventory {
            (
                AppView { screen: Screen::Settings, settings_selected: Some(0), ..v },
                EffectView::Nothing,
            )
        } else {
            (AppView { screen: Screen::Inventory, ..v }, EffectView::Nothing)
        }
    } else if ev.key == Key::Esc {
        (AppView { screen: Screen::Inventory, ..v }, EffectView::Nothing)
    } else if v.screen == Screen::Settings {
        settings_step(v, ev)
    } else {
        inventory_step(v, ev)
    }
}

fn copy_item(it: &Item) -> (r: Item)
    ensures
        r@ == it@,
{
    Item {
        id: it.id,
        name: it.name.clone(),
        barcode: clone_text(&it.barcode),
        serial: clone_text(&it.serial),
        location: clone_text(&it.location),
        quantity: it.quantity,
    }
}

fn text_or_empty_exec(o: &Option<String>) -> (r: String)
    ensures
        r@ == text_or_empty(opt_text(*o)),
{
    match o {
        Some(s) => s.clone(),
        None => String::new(),
    }
}

/// The value of an optional item.
pub open spec fn opt_item(o: Option<Item>) -> Option<ItemView> {
    match o {
        Some(it) => Some(it@),
        None => None,
    }
}

/// A string holding `prefix` followed by `rest`.
fn joined(prefix: &str, rest: &str) -> (r: String)
    ensures
        r@ == prefix@ + rest@,
{
    let mut s = String::from_str(prefix);
    s.append(rest);
    s
}

impl App {
    /// The state at start, for the database that `settings` names and the
    /// items read from it.
    pub fn new(settings: Settings, items: Vec<Item>) -> (app: App)
        ensures
            app@ == initial_state(settings@, items_view(items@)),
    {
        let status = joined("Loaded from ", settings.get_database_path());
        let selected = if items.len() == 0 {
            None
        } else {
            Some(0)
        };
        App {
            items,
            selected,
            focus: Focus::NameInput,
            name_input: String::new(),
            quantity_input: String::new(),
            location_input: String::new(),
            barcode_input: String::new(),
            serial_input: String::new(),
            status,
            editing_row: None,
            pending_delete: None,
            screen: Screen::Inventory,
            settings,
            settings_focus: SettingsFocus::DatabaseList,
            settings_selected: Some(0),
            new_db_input: String::new(),
        }
    }

    /// Moves the table selection down, wrapping at the end.
    pub fn next_row(&mut self)
        ensures
            final(self)@ == (AppView {
                selected: next_index(old(self)@.selected, old(self)@.items.len()),
                ..old(self)@
            }),
    {
        if self.items.len() == 0 {
            self.selected = None;
            return;
        }
        let i = match self.selected {
            Some(i) => i,
            None => 0,
        };
        let next = if i >= self.items.len() - 1 {
            0
        } else {
            i + 1
        };
        self.selected = Some(next);
    }

    /// Moves the table selection up, wrapping at the beginning.
    pub fn prev_row(&mut self)
        ensures
            final(self)@ == (AppView {
                selected: prev_index(old(self)@.selected, old(self)@.items.len()),
                ..old(self)@
            }),
    {
        if self.items.len() == 0 {
            self.selected = None;
            return;
        }
        let i = match self.selected {
            Some(i) => i,
            None => 0,
        };
        let prev = if i == 0 {
            self.items.len() - 1
        } else {
            i - 1
        };
        self.selected = Some(prev);
    }

    /// Moves the focus of the settings screen to its other control.
    pub fn cycle_settings_focus(&mut self)
        ensures
            final(self)@ == (AppView {
                settings_focus: other_settings_focus(old(self)@.settings_focus),
                ..old(self)@
            }),
    {
        self.settings_focus = match self.settings_focus {
            SettingsFocus::DatabaseList => SettingsFocus::NewDatabaseInput,
            SettingsFocus::NewDatabaseInput => SettingsFocus::DatabaseList,
        };
    }

    /// Moves the selection of the recent databases down, wrapping at the end;
    /// with no recent database nothing changes.
    pub fn settings_next(&mut self)
        ensures
            final(self)@ == settings_next_spec(old(self)@),
    {
        let len = self.settings.database.recent.len();
        if len == 0 {
            return;
        }
        let current = match self.settings_selected {
            Some(i) => i,
            None => 0,
        };
        let next = if current >= len - 1 {
            0
        } else {
            current + 1
        };
        self.settings_selected = Some(next);
    }

    /// Moves the selection of the recent databases up, wrapping at the
    /// beginning; with no recent database nothing changes.
    pub fn settings_prev(&mut self)
        ensures
            final(self)@ == settings_prev_spec(old(self)@),
    {
        let len = self.settings.database.recent.len();
        if len == 0 {
            return;
        }
        let current = match self.settings_selected {
            Some(i) => i,
            None => 0,
        };
        let prev = if current == 0 {
            len - 1
        } else {
            current - 1
        };
        self.settings_selected = Some(prev);
    }

    /// Moves the focus forward in the focus order.
    pub fn cycle_focus(&mut self)
        ensures
            final(self)@ == (AppView { focus: next_focus(old(self)@.focus), ..old(self)@ }),
    {
        self.focus = match self.focus {
            Focus::Table => Focus::NameInput,
            Focus::NameInput => Focus::QuantityInput,
            Focus::QuantityInput => Focus::LocationInput,
            Focus::LocationInput => Focus::BarcodeInput,
            Focus::BarcodeInput => Focus::SerialInput,
            Focus::SerialInput => Focus::ButtonAdd,
            Focus::ButtonAdd => Focus::ButtonEdit,
            Focus::ButtonEdit => Focus::ButtonDelete,
            Focus::ButtonDelete => Focus::Table,
        };
    }

    /// Types `c` into the text input that has the focus, if any.
    pub fn push_active_input(&mut self, c: char)
        ensures
            final(self)@ == edit_active_input(old(self)@, typed(c)),
            final(self).name_input@ == if old(self).focus == Focus::NameInput {
                old(self).name_input@.push(c)
            } else {
                old(self).name_input@
            },
            final(self).quantity_input@ == if old(self).focus == Focus::QuantityInput {
                old(self).quantity_input@.push(c)
            } else {
                old(self).quantity_input@
            },
            final(self).location_input@ == if old(self).focus == Focus::LocationInput {
                old(self).location_input@.push(c)
            } else {
                old(self).location_input@
            },
            final(self).barcode_input@ == if old(self).focus == Focus::BarcodeInput {
                old(self).barcode_input@.push(c)
            } else {
                old(self).barcode_input@
            },
            final(self).serial_input@ == if old(self).focus == Focus::SerialInput {
                old(self).serial_input@.push(c)
            } else {
                old(self).serial_input@
            },
    {
        match self.focus {
            Focus::NameInput => string_push(&mut self.name_input, c),
            Focus::QuantityInput => string_push(&mut self.quantity_input, c),
            Focus::LocationInput => string_push(&mut self.location_input, c),
            Focus::BarcodeInput => string_push(&mut self.barcode_input, c),
            Focus::SerialInput => string_push(&mut self.serial_input, c),
            _ => {},
        }
    }

    /// Erases the last char of the text input that has the focus, if any.
    pub fn pop_active_input(&mut self)
        ensures
            final(self)@ == edit_active_input(old(self)@, erased()),
    {
        match self.focus {
            Focus::NameInput => {
                string_pop(&mut self.name_input);
            },
            Focus::QuantityInput => {
                string_pop(&mut self.quantity_input);
            },
            Focus::LocationInput => {
                string_pop(&mut self.location_input);
            },
            Focus::BarcodeInput => {
                string_pop(&mut self.barcode_input);
            },
            Focus::SerialInput => {
                string_pop(&mut self.serial_input);
            },
            _ => {},
        }
    }

    fn clear_inputs(&mut self)
        ensures
            final(self)@ == cleared_inputs(old(self)@),
    {
        self.name_input = String::new();
        self.quantity_input = String::new();
        self.location_input = String::new();
        self.barcode_input = String::new();
        self.serial_input = String::new();
    }

    /// Switches to the database at `db_path`, from which `items` were read.
    pub fn switch_database(&mut self, db_path: String, items: Vec<Item>)
        ensures
            final(self)@ == switched_state(old(self)@, db_path@, items_view(items@)),
    {
        let status = joined("Switched to: ", db_path.as_str());
        self.settings.set_database_path(db_path);
        self.selected = if items.len() == 0 {
            None
        } else {
            Some(0)
        };
        self.items = items;
        self.status = status;
        self.editing_row = None;
        self.pending_delete = None;
        self.clear_inputs();
    }

    /// Checks the item inputs for a new item: gives the fields to store, or
    /// puts the reason they are refused in the status.
    pub fn try_add_item(&mut self) -> (r: Option<InsertItem>)
        ensures
            match prepared_inputs(old(self)@) {
                Ok(ins) => r is Some && r->0@ == ins && final(self)@ == old(self)@,
                Err(msg) => r is None && final(self)@ == (AppView { status: msg, ..old(self)@ }),
            },
    {
        match prepare_insert_item(
            &self.name_input,
            &self.barcode_input,
            &self.serial_input,
            &self.location_input,
            &self.quantity_input,
        ) {
            Ok(ins) => Some(ins),
            Err(msg) => {
                self.status = msg;
                None
            },
        }
    }

    /// Shows an item that was just stored.
    pub fn item_added(&mut self, item: Item)
        ensures
            final(self)@ == added_state(old(self)@, item@),
    {
        let n = self.items.len();
        self.items.push(item);
        self.clear_inputs();
        self.status = String::from_str("Item added");
        self.selected = Some(n);
        self.focus = Focus::NameInput;
        assert(self@.items =~= old(self)@.items.push(item@));
    }

    /// Starts editing the selected item.
    pub fn start_edit(&mut self)
        ensures
            final(self)@ == start_edit_spec(old(self)@),
    {
        match self.selected {
            Some(i) => {
                if i < self.items.len() {
                    let it = copy_item(&self.items[i]);
                    assert(it@ == old(self)@.items[i as int]);
                    self.name_input = it.name.clone();
                    self.quantity_input = u32_to_text(it.quantity);
                    self.location_input = text_or_empty_exec(&it.location);
                    self.barcode_input = text_or_empty_exec(&it.barcode);
                    self.serial_input = text_or_empty_exec(&it.serial);
                    self.editing_row = Some(i);
                    let mut status = String::from_str("Editing row ");
                    push_decimal(&mut status, it.id);
                    status.append(" - modify fields then press Save");
                    self.status = status;
                    self.focus = Focus::NameInput;
                } else {
                    self.status = String::from_str("No row selected");
                }
            },
            None => {
                self.status = String::from_str("No row selected");
            },
        }
    }

    /// Saves the item being edited from the inputs; gives the saved item to
    /// write back to the store.
    pub fn save_edit(&mut self) -> (r: Option<Item>)
        ensures
            (final(self)@, opt_item(r)) == save_edit_spec(old(self)@),
            r matches Some(it) ==> {
                &&& old(self).editing_row matches Some(i)
                &&& i < old(self)@.items.len()
                &&& it.id == old(self)@.items[i as int].id
                &&& it.name@ == trim_spec(old(self).name_input@)
                &&& quantity_spec(old(self).quantity_input@) == Some(it.quantity)
                &&& opt_text(it.barcode) == trim_or_none_spec(old(self).barcode_input@)
                &&& opt_text(it.serial) == trim_or_none_spec(old(self).serial_input@)
                &&& opt_text(it.location) == trim_or_none_spec(old(self).location_input@)
                &&& final(self)@.items[i as int] == it@
            },
    {
        match self.editing_row {
            Some(i) => {
                if i < self.items.len() {
                    match prepare_insert_item(
                        &self.name_input,
                        &self.barcode_input,
                        &self.serial_input,
                        &self.location_input,
                        &self.quantity_input,
                    ) {
                        Err(msg) => {
                            self.status = msg;
                            None
                        },
                        Ok(ins) => {
                            let id = self.items[i].id;
                            let item = Item::from((id, ins));
                            let saved = copy_item(&item);
                            self.items.set(i, item);
                            self.status = String::from_str("Item updated");
                            self.editing_row = None;
                            self.clear_inputs();
                            self.focus = Focus::NameInput;
                            assert(self@.items =~= old(self)@.items.update(i as int, saved@));
                            Some(saved)
                        },
                    }
                } else {
                    None
                }
            },
            None => {
                self.status = String::from_str("Not editing any row");
                None
            },
        }
    }

    /// Asks to confirm the deletion of the selected item.
    pub fn request_delete(&mut self)
        ensures
            final(self)@ == request_delete_spec(old(self)@),
    {
        match self.selected {
            Some(i) => {
                if i < self.items.len() {
                    self.pending_delete = Some(i);
                    let mut status = String::from_str("Confirm delete of ID ");
                    push_decimal(&mut status, self.items[i].id);
                    status.append("? (y/n)");
                    self.status = status;
                } else {
                    self.status = String::from_str("No row selected");
                }
            },
            None => {
                self.status = String::from_str("No row selected");
            },
        }
    }

    /// Deletes the item whose deletion was asked for; gives its id, to delete
    /// it from the store.
    pub fn confirm_delete(&mut self) -> (r: Option<u32>)
        ensures
            (final(self)@, r) == confirm_delete_spec(old(self)@),
    {
        match self.pending_delete {
            Some(i) => {
                if i < self.items.len() {
                    let removed = self.items.remove(i);
                    assert(self@.items =~= old(self)@.items.remove(i as int));
                    let mut status = String::from_str("Deleted ID ");
                    push_decimal(&mut status, removed.id);
                    self.status = status;
                    self.pending_delete = None;
                    if self.items.len() == 0 {
                        self.selected = None;
                    } else {
                        let sel = if i == 0 {
                            0
                        } else {
                            i - 1
                        };
                        self.selected = Some(sel);
                    }
                    Some(removed.id)
                } else {
                    None
                }
            },
            None => None,
        }
    }

    /// Handles a key event on the inventory screen.
    pub fn handle_inventory_input(&mut self, ev: KeyEvent) -> (r: Effect)
        ensures
            (final(self)@, r@) == inventory_step(old(self)@, ev),
    {
        if self.pending_delete.is_some() {
            match ev.key {
                Key::Char(c) => {
                    if c == 'y' || c == 'Y' {
                        return match self.confirm_delete() {
                            Some(id) => Effect::Delete(id),
                            None => Effect::Nothing,
                        };
                    } else if c == 'n' || c == 'N' {
                        self.pending_delete = None;
                        self.status = String::from_str("Delete canceled");
                    }
                },
                _ => {},
            }
            return Effect::Nothing;
        }
        match ev.key {
            Key::Tab => {
                if ev.ctrl {
                    self.cycle_focus_back();
                } else {
                    self.cycle_focus();
                }
                Effect::Nothing
            },
            Key::BackTab => {
                self.cycle_focus_back();
                Effect::Nothing
            },
            Key::Up => {
                if self.focus == Focus::Table {
                    self.prev_row();
                }
                Effect::Nothing
            },
            Key::Down => {
                if self.focus == Focus::Table {
                    self.next_row();
                }
                Effect::Nothing
            },
            Key::Backspace => {
                self.pop_active_input();
                Effect::Nothing
            },
            Key::Enter => match self.focus {
                Focus::ButtonAdd => {
                    if self.editing_row.is_some() {
                        match self.save_edit() {
                            Some(item) => Effect::Update(item),
                            None => Effect::Nothing,
                        }
                    } else {
                        match self.try_add_item() {
                            Some(ins) => Effect::Insert(ins),
                            None => Effect::Nothing,
                        }
                    }
                },
                Focus::ButtonEdit => {
                    self.start_edit();
                    Effect::Nothing
                },
                Focus::ButtonDelete => {
                    self.request_delete();
                    Effect::Nothing
                },
                _ => {
                    self.cycle_focus();
                    Effect::Nothing
                },
            },
            Key::Char(c) => {
                self.push_active_input(c);
                Effect::Nothing
            },
            _ => Effect::Nothing,
        }
    }

    /// Handles a key event on the settings screen.
    pub fn handle_settings_input(&mut self, ev: KeyEvent) -> (r: Effect)
        ensures
            (final(self)@, r@) == settings_step(old(self)@, ev),
    {
        match self.settings_focus {
            SettingsFocus::DatabaseList => match ev.key {
                Key::Up => {
                    self.settings_prev();
                    Effect::Nothing
                },
                Key::Down => {
                    self.settings_next();
                    Effect::Nothing
                },
                Key::Enter => {
                    match self.settings_selected {
                        Some(idx) => {
                            if idx < self.settings.database.recent.len() {
                                let db_path = self.settings.database.recent[idx].clone();
                                self.screen = Screen::Inventory;
                                return Effect::SwitchDatabase(db_path);
                            }
                        },
                        None => {},
                    }
                    Effect::Nothing
                },
                Key::Tab => {
                    self.cycle_settings_focus();
                    Effect::Nothing
                },
                _ => Effect::Nothing,
            },
            SettingsFocus::NewDatabaseInput => match ev.key {
                Key::Enter => {
                    let db_path = trim_text(self.new_db_input.as_str());
                    if db_path.as_str().is_empty() {
                        Effect::Nothing
                    } else {
                        self.new_db_input = String::new();
                        self.screen = Screen::Inventory;
                        Effect::SwitchDatabase(db_path)
                    }
                },
                Key::Backspace => {
                    string_pop(&mut self.new_db_input);
                    Effect::Nothing
                },
                Key::Tab => {
                    self.cycle_settings_focus();
                    Effect::Nothing
                },
                Key::Char(c) => {
                    string_push(&mut self.new_db_input, c);
                    Effect::Nothing
                },
                _ => Effect::Nothing,
            },
        }
    }

    /// Handles any key event: the global shortcuts first, then the screen on
    /// display.
    pub fn handle_key(&mut self, ev: KeyEvent) -> (r: Effect)
        ensures
            (final(self)@, r@) == step(old(self)@, ev),
    {
        if !ev.press {
            return Effect::Nothing;
        }
        match ev.key {
            Key::Char(c) => {
                if c == 'q' {
                    return Effect::Quit;
                }
                if c == 's' && ev.ctrl {
                    self.screen = match self.screen {
                        Screen::Inventory => Screen::Settings,
                        Screen::Settings => Screen::Inventory,
                    };
                    if self.screen == Screen::Settings {
                        self.settings_selected = Some(0);
                    }
                    return Effect::Nothing;
                }
            },
            Key::Esc => {
                if self.screen == Screen::Settings {
                    self.screen = Screen::Inventory;
                }
                return Effect::Nothing;
            },
            _ => {},
        }
        if self.screen == Screen::Settings {
            self.handle_settings_input(ev)
        } else {
            self.handle_inventory_input(ev)
        }
    }

    /// Moves the focus backward in the focus order.
    pub fn cycle_focus_back(&mut self)
        ensures
            final(self)@ == (AppView { focus: prev_focus(old(self)@.focus), ..old(self)@ }),
    {
        self.focus = match self.focus {
            Focus::Table => Focus::ButtonDelete,
            Focus::NameInput => Focus::Table,
            Focus::QuantityInput => Focus::NameInput,
            Focus::LocationInput => Focus::QuantityInput,
            Focus::BarcodeInput => Focus::LocationInput,
            Focus::SerialInput => Focus::BarcodeInput,
            Focus::ButtonAdd => Focus::SerialInput,
            Focus::ButtonEdit => Focus::ButtonAdd,
            Focus::ButtonDelete => Focus::ButtonEdit,
        };
    }
}


/// Moving the focus forward and then backward, or backward and then forward,
/// comes back to the same control.
pub proof fn lemma_focus_cycle_inverse(f: Focus)
    ensures
        prev_focus(next_focus(f)) == f,
        next_focus(prev_focus(f)) == f,
{
}

/// Moving the focus forward nine times goes once round all controls and comes
/// back to the start; no fewer steps do.
pub proof fn lemma_focus_cycle_length(f: Focus)
    ensures
        next_focus(next_focus(next_focus(next_focus(next_focus(next_focus(next_focus(
            next_focus(next_focus(f)),
        ))))))) == f,
        next_focus(f) != f,
{
}

/// Switching the focus of the settings screen twice comes back to the start.
pub proof fn lemma_settings_focus_involution(f: SettingsFocus)
    ensures
        other_settings_focus(other_settings_focus(f)) == f,
        other_settings_focus(f) != f,
{
}

/// On a list that is not empty, moving the selection down or up always
/// selects an entry of the list, and moving down then up (or up then down)
/// from a selected entry returns to it.
pub proof fn lemma_row_moves(selected: Option<usize>, len: nat)
    requires
        len > 0,
        len <= usize::MAX,
    ensures
        next_index(selected, len) is Some && next_index(selected, len)->0 < len,
        selected is Some && selected->0 < len ==> prev_index(next_index(selected, len), len)
            == selected,
        selected is Some && selected->0 < len ==> next_index(prev_index(selected, len), len)
            == selected,
        (selected is None || selected->0 <= len) ==> prev_index(selected, len) is Some
            && prev_index(selected, len)->0 < len,
{
}

/// After switching databases the settings name the new database as the one
/// in use and as the most recent one, and the table shows the items read from
/// it with the first one selected.
pub proof fn lemma_switch_reads_back(v: AppView, path: Seq<char>, items: Seq<ItemView>)
    ensures
        switched_state(v, path, items).settings.path == path,
        switched_state(v, path, items).settings.recent[0] == path,
        switched_state(v, path, items).items == items,
        switched_state(v, path, items).selected == first_index(items.len()),
{
    crate::settings::lemma_choose_database_reads_back(v.settings, path);
}

/// Whether a text is already trimmed and not empty.
pub open spec fn clean_text(s: Seq<char>) -> bool {
    s.len() > 0 && trim_spec(s) == s
}

/// Whether an optional field holds a trimmed, non-empty text or nothing.
pub open spec fn clean_optional(o: Option<Seq<char>>) -> bool {
    match o {
        Some(s) => clean_text(s),
        None => true,
    }
}

/// Whether an item is as the input checks leave it: every text trimmed, the
/// name not empty, optional fields absent rather than blank.
pub open spec fn clean_item(it: ItemView) -> bool {
    &&& clean_text(it.name)
    &&& clean_optional(it.barcode)
    &&& clean_optional(it.serial)
    &&& clean_optional(it.location)
}

proof fn lemma_optional_round_trip(o: Option<Seq<char>>)
    requires
        clean_optional(o),
    ensures
        trim_or_none_spec(text_or_empty(o)) == o,
{
    match o {
        Some(s) => {},
        None => {
            assert(trim_spec(Seq::<char>::empty()) == Seq::<char>::empty());
        },
    }
}

/// Starting to edit an item and saving it without changing the inputs gives
/// back the item unchanged, and writes that same item to the store, for every
/// item that the input checks could have produced.
pub proof fn lemma_edit_round_trip(v: AppView)
    requires
        has_selected_item(v),
        clean_item(v.items[v.selected->0 as int]),
    ensures
        save_edit_spec(start_edit_spec(v)).0.items == v.items,
        save_edit_spec(start_edit_spec(v)).1 == Some(v.items[v.selected->0 as int]),
        save_edit_spec(start_edit_spec(v)).0.editing_row is None,
{
    let i = v.selected->0;
    let it = v.items[i as int];
    let e = start_edit_spec(v);
    lemma_parse_decimal_round_trip(it.quantity);
    assert(quantity_spec(decimal_digits(it.quantity as nat)) == Some(it.quantity));
    lemma_optional_round_trip(it.barcode);
    lemma_optional_round_trip(it.serial);
    lemma_optional_round_trip(it.location);
    assert(prepared_inputs(e) is Ok);
    let ins = prepared_inputs(e)->Ok_0;
    assert(stored_item(it.id, ins) == it);
    assert(v.items.update(i as int, it) =~= v.items);
}

/// Asking to delete the selected item and then answering `n` keeps every
/// item and leaves nothing waiting for confirmation.
pub proof fn lemma_cancel_delete_keeps_items(v: AppView, ev: KeyEvent)
    requires
        has_selected_item(v),
        v.screen == Screen::Inventory,
        ev.press,
        ev.key == Key::Char('n') || ev.key == Key::Char('N'),
    ensures
        step(request_delete_spec(v), ev).0.items == v.items,
        step(request_delete_spec(v), ev).0.pending_delete is None,
        step(request_delete_spec(v), ev).1 == EffectView::Nothing,
{
}

/// Asking to delete the selected item and then answering `y` removes exactly
/// that item and asks the store to delete its id.
pub proof fn lemma_confirm_delete_removes_selected(v: AppView, ev: KeyEvent)
    requires
        has_selected_item(v),
        v.screen == Screen::Inventory,
        ev.press,
        ev.key == Key::Char('y') || ev.key == Key::Char('Y'),
    ensures
        step(request_delete_spec(v), ev).0.items == v.items.remove(v.selected->0 as int),
        step(request_delete_spec(v), ev).1 == EffectView::Delete(
            v.items[v.selected->0 as int].id,
        ),
{
}

/// Adding an item whose inputs pass the checks and that the store kept under
/// `id` appends exactly that item, selects it, and empties the inputs.
pub proof fn lemma_add_appends(v: AppView, id: u32)
    requires
        prepared_inputs(v) is Ok,
    ensures
        try_add_spec(v).1 == EffectView::Insert(prepared_inputs(v)->Ok_0),
        added_state(try_add_spec(v).0, stored_item(id, prepared_inputs(v)->Ok_0)).items
            == v.items.push(stored_item(id, prepared_inputs(v)->Ok_0)),
        added_state(try_add_spec(v).0, stored_item(id, prepared_inputs(v)->Ok_0)).selected == Some(
            v.items.len() as usize,
        ),
{
}


/// The inputs as a list: name, quantity, location, barcode, serial.
pub open spec fn inputs_of(v: AppView) -> Seq<Seq<char>> {
    seq![v.name_input, v.quantity_input, v.location_input, v.barcode_input, v.serial_input]
}

/// The position in `inputs_of` of the input that a control is, if it is one.
pub open spec fn input_slot(f: Focus) -> int {
    if f == Focus::NameInput {
        0
    } else if f == Focus::QuantityInput {
        1
    } else if f == Focus::LocationInput {
        2
    } else if f == Focus::BarcodeInput {
        3
    } else if f == Focus::SerialInput {
        4
    } else {
        -1
    }
}

/// Whether a key event reaches the inventory screen's own handling: it is a
/// press, not `q`, not Ctrl+S and not Esc, the inventory is on display and no
/// deletion waits for confirmation.
pub open spec fn reaches_inventory(v: AppView, ev: KeyEvent) -> bool {
    &&& ev.press
    &&& ev.key != Key::Char('q')
    &&& !(ev.key == Key::Char('s') && ev.ctrl)
    &&& ev.key != Key::Esc
    &&& v.screen == Screen::Inventory
    &&& v.pending_delete is None
}

/// Typing a char on the inventory screen appends it to the input that has the
/// focus and to no other input; Backspace removes the last char of that input
/// only. With a button or the table focused no input changes. Nothing else
/// but the inputs changes.
pub proof fn lemma_typing_edits_focused_input(v: AppView, ev: KeyEvent)
    requires
        reaches_inventory(v, ev),
        ev.key is Char || ev.key == Key::Backspace,
    ensures
        forall|k: int|
            0 <= k < 5 ==> #[trigger] inputs_of(step(v, ev).0)[k] == if k == input_slot(v.focus) {
                match ev.key {
                    Key::Char(c) => inputs_of(v)[k].push(c),
                    _ => if inputs_of(v)[k].len() > 0 {
                        inputs_of(v)[k].drop_last()
                    } else {
                        inputs_of(v)[k]
                    },
                }
            } else {
                inputs_of(v)[k]
            },
        step(v, ev).0.items == v.items,
        step(v, ev).0.selected == v.selected,
        step(v, ev).0.focus == v.focus,
        step(v, ev).1 == EffectView::Nothing,
{
}

/// With the table focused on the inventory screen, Down selects the row below
/// (the first after the last) and Up the row above (the last before the
/// first), starting from a selected row; no row stays selected in an empty
/// table. The items do not change.
pub proof fn lemma_arrow_keys_move_selection(v: AppView, ev: KeyEvent, i: usize)
    requires
        reaches_inventory(v, ev),
        v.focus == Focus::Table,
        v.selected == Some(i),
        i < v.items.len(),
    ensures
        ev.key == Key::Down && i + 1 < v.items.len() ==> step(v, ev).0.selected == Some(
            (i + 1) as usize,
        ),
        ev.key == Key::Down && i + 1 == v.items.len() ==> step(v, ev).0.selected == Some(0usize),
        ev.key == Key::Up && i > 0 ==> step(v, ev).0.selected == Some((i - 1) as usize),
        ev.key == Key::Up && i == 0 ==> step(v, ev).0.selected == Some(
            (v.items.len() - 1) as usize,
        ),
        ev.key == Key::Down || ev.key == Key::Up ==> step(v, ev).0.items == v.items
            && step(v, ev).1 == EffectView::Nothing,
{
}

/// Saving an edit whose inputs pass the checks writes, to the row being
/// edited and to the store, an item with that row's id and the entered
/// fields: the trimmed name, the quantity read from the quantity input, and
/// the trimmed optional fields (absent when blank). Every other row is kept.
/// With a blank name or an unreadable quantity nothing is saved and no row
/// changes.
pub proof fn lemma_save_edit_stores_inputs(v: AppView)
    requires
        v.editing_row matches Some(i) && i < v.items.len(),
    ensures
        ({
            let i = v.editing_row->0 as int;
            let (w, saved) = save_edit_spec(v);
            if trim_spec(v.name_input).len() > 0 && quantity_spec(v.quantity_input) is Some {
                &&& saved matches Some(it)
                &&& it.id == v.items[i].id
                &&& it.name == trim_spec(v.name_input)
                &&& Some(it.quantity) == quantity_spec(v.quantity_input)
                &&& it.barcode == trim_or_none_spec(v.barcode_input)
                &&& it.serial == trim_or_none_spec(v.serial_input)
                &&& it.location == trim_or_none_spec(v.location_input)
                &&& w.items.len() == v.items.len()
                &&& w.items[i] == it
                &&& forall|j: int| 0 <= j < v.items.len() && j != i ==> w.items[j] == v.items[j]
                &&& w.editing_row is None
            } else {
                &&& saved is None
                &&& w.items == v.items
                &&& w.editing_row == v.editing_row
            }
        }),
{
}

} // verus!
