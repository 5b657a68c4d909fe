use rtuinventory::db::db::{created_item, InsertItem, Item};
use rtuinventory::display::{
    add_button_label, help_line, input_title, item_cells, new_database_title, recent_labels,
    recent_list_title,
};
use rtuinventory::settings::Settings;
use rtuinventory::ui::{App, Effect, Focus, Key, KeyEvent, Screen, SettingsFocus};

fn item(id: u32, name: &str, quantity: u32) -> Item {
    Item { id, name: name.to_string(), barcode: None, serial: None, location: None, quantity }
}

fn press(key: Key) -> KeyEvent {
    KeyEvent { key, ctrl: false, press: true }
}

fn type_text(app: &mut App, text: &str) {
    for c in text.chars() {
        assert!(matches!(app.handle_key(press(Key::Char(c))), Effect::Nothing));
    }
}

fn app_with(items: Vec<Item>) -> App {
    App::new(Settings::default(), items)
}

#[test]
fn new_app_selects_first_row_and_reports_database() {
    let app = app_with(vec![item(1, "a", 1), item(2, "b", 2)]);
    assert_eq!(app.selected, Some(0));
    assert_eq!(app.focus, Focus::NameInput);
    assert_eq!(app.status, "Loaded from inventory.sqlite3");
    assert_eq!(app.screen, Screen::Inventory);
    assert_eq!(app.settings_selected, Some(0));
    let empty = app_with(vec![]);
    assert_eq!(empty.selected, None);
}

#[test]
fn rows_wrap_both_ways() {
    let mut app = app_with(vec![item(1, "a", 1), item(2, "b", 2), item(3, "c", 3)]);
    app.next_row();
    assert_eq!(app.selected, Some(1));
    app.next_row();
    app.next_row();
    assert_eq!(app.selected, Some(0));
    app.prev_row();
    assert_eq!(app.selected, Some(2));
    app.prev_row();
    assert_eq!(app.selected, Some(1));
    app.selected = None;
    app.next_row();
    assert_eq!(app.selected, Some(1));
    let mut empty = app_with(vec![]);
    empty.selected = Some(4);
    empty.prev_row();
    assert_eq!(empty.selected, None);
}

#[test]
fn focus_cycles_through_all_controls() {
    let mut app = app_with(vec![]);
    let start = app.focus;
    let mut seen = vec![start];
    for _ in 0..8 {
        app.cycle_focus();
        seen.push(app.focus);
    }
    app.cycle_focus();
    assert_eq!(app.focus, start);
    assert_eq!(seen.len(), 9);
    for f in seen.iter().rev() {
        app.cycle_focus_back();
        assert_eq!(app.focus, *f);
    }
    let mut app = app_with(vec![]);
    app.handle_key(KeyEvent { key: Key::Tab, ctrl: true, press: true });
    assert_eq!(app.focus, Focus::Table);
    app.handle_key(press(Key::BackTab));
    assert_eq!(app.focus, Focus::ButtonDelete);
    app.handle_key(press(Key::Tab));
    assert_eq!(app.focus, Focus::Table);
}

#[test]
fn adding_an_item_through_keys() {
    let mut app = app_with(vec![item(1, "a", 1)]);
    type_text(&mut app, " Widget ");
    app.handle_key(press(Key::Tab));
    type_text(&mut app, "12");
    app.handle_key(press(Key::Backspace));
    type_text(&mut app, "3");
    app.focus = Focus::ButtonAdd;
    let ins = match app.handle_key(press(Key::Enter)) {
        Effect::Insert(ins) => ins,
        _ => panic!("expected an insert"),
    };
    assert_eq!(ins.name, "Widget");
    assert_eq!(ins.quantity, 13);
    app.item_added(created_item(42, ins));
    assert_eq!(app.items.len(), 2);
    assert_eq!(app.items[1].id, 42);
    assert_eq!(app.selected, Some(1));
    assert_eq!(app.status, "Item added");
    assert_eq!(app.name_input, "");
    assert_eq!(app.quantity_input, "");
    assert_eq!(app.focus, Focus::NameInput);
}

#[test]
fn refused_item_sets_status() {
    let mut app = app_with(vec![]);
    app.focus = Focus::ButtonAdd;
    assert!(matches!(app.handle_key(press(Key::Enter)), Effect::Nothing));
    assert_eq!(app.status, "Name is required");
    app.name_input = "x".to_string();
    app.quantity_input = "many".to_string();
    assert!(app.try_add_item().is_none());
    assert_eq!(app.status, "Quantity must be a non-negative number");
    assert!(app.items.is_empty());
}

#[test]
fn edit_and_save_round_trip() {
    let mut original = item(7, "Bolt", 250);
    original.location = Some("Shelf 2".to_string());
    let mut app = app_with(vec![item(1, "a", 1), original]);
    app.selected = Some(1);
    app.focus = Focus::ButtonEdit;
    app.handle_key(press(Key::Enter));
    assert_eq!(app.status, "Editing row 7 - modify fields then press Save");
    assert_eq!(app.name_input, "Bolt");
    assert_eq!(app.quantity_input, "250");
    assert_eq!(app.location_input, "Shelf 2");
    assert_eq!(app.barcode_input, "");
    assert_eq!(app.editing_row, Some(1));
    app.focus = Focus::ButtonAdd;
    let saved = match app.handle_key(press(Key::Enter)) {
        Effect::Update(it) => it,
        _ => panic!("expected an update"),
    };
    assert_eq!(saved.id, 7);
    assert_eq!(saved.name, "Bolt");
    assert_eq!(saved.quantity, 250);
    assert_eq!(saved.location.as_deref(), Some("Shelf 2"));
    assert_eq!(app.items[1].name, "Bolt");
    assert_eq!(app.status, "Item updated");
    assert_eq!(app.editing_row, None);
}

#[test]
fn save_without_edit_and_edit_without_selection() {
    let mut app = app_with(vec![]);
    assert!(app.save_edit().is_none());
    assert_eq!(app.status, "Not editing any row");
    app.start_edit();
    assert_eq!(app.status, "No row selected");
    app.request_delete();
    assert_eq!(app.status, "No row selected");
}

#[test]
fn delete_confirm_and_cancel() {
    let mut app = app_with(vec![item(1, "a", 1), item(2, "b", 2), item(3, "c", 3)]);
    app.selected = Some(2);
    app.focus = Focus::ButtonDelete;
    app.handle_key(press(Key::Enter));
    assert_eq!(app.pending_delete, Some(2));
    assert_eq!(app.status, "Confirm delete of ID 3? (y/n)");
    app.handle_key(press(Key::Char('x')));
    assert_eq!(app.pending_delete, Some(2));
    app.handle_key(press(Key::Char('N')));
    assert_eq!(app.pending_delete, None);
    assert_eq!(app.status, "Delete canceled");
    assert_eq!(app.items.len(), 3);
    app.handle_key(press(Key::Enter));
    match app.handle_key(press(Key::Char('y'))) {
        Effect::Delete(id) => assert_eq!(id, 3),
        _ => panic!("expected a delete"),
    }
    assert_eq!(app.items.len(), 2);
    assert_eq!(app.selected, Some(1));
    assert_eq!(app.status, "Deleted ID 3");
    app.selected = Some(0);
    app.request_delete();
    assert_eq!(app.confirm_delete(), Some(1));
    assert_eq!(app.selected, Some(0));
    assert_eq!(app.items[0].id, 2);
    app.request_delete();
    assert_eq!(app.confirm_delete(), Some(2));
    assert_eq!(app.selected, None);
}

#[test]
fn global_keys() {
    let mut app = app_with(vec![]);
    assert!(matches!(app.handle_key(press(Key::Char('q'))), Effect::Quit));
    let released = KeyEvent { key: Key::Char('q'), ctrl: false, press: false };
    assert!(matches!(app.handle_key(released), Effect::Nothing));
    app.settings_selected = Some(3);
    app.handle_key(KeyEvent { key: Key::Char('s'), ctrl: true, press: true });
    assert_eq!(app.screen, Screen::Settings);
    assert_eq!(app.settings_selected, Some(0));
    app.handle_key(press(Key::Esc));
    assert_eq!(app.screen, Screen::Inventory);
    app.handle_key(press(Key::Char('s')));
    assert_eq!(app.name_input, "s");
}

#[test]
fn settings_screen_switches_database() {
    let mut settings = Settings::default();
    settings.set_database_path("other.db".to_string());
    let mut app = App::new(settings, vec![item(1, "a", 1)]);
    app.screen = Screen::Settings;
    app.handle_key(press(Key::Down));
    assert_eq!(app.settings_selected, Some(1));
    app.handle_key(press(Key::Down));
    assert_eq!(app.settings_selected, Some(0));
    app.handle_key(press(Key::Up));
    assert_eq!(app.settings_selected, Some(1));
    let path = match app.handle_key(press(Key::Enter)) {
        Effect::SwitchDatabase(p) => p,
        _ => panic!("expected a switch"),
    };
    assert_eq!(path, "inventory.sqlite3");
    assert_eq!(app.screen, Screen::Inventory);
    app.name_input = "left over".to_string();
    app.switch_database(path, vec![]);
    assert_eq!(app.status, "Switched to: inventory.sqlite3");
    assert_eq!(app.settings.database.path, "inventory.sqlite3");
    assert_eq!(app.settings.database.recent[0], "inventory.sqlite3");
    assert_eq!(app.selected, None);
    assert_eq!(app.name_input, "");

    app.screen = Screen::Settings;
    app.handle_key(press(Key::Tab));
    assert_eq!(app.settings_focus, SettingsFocus::NewDatabaseInput);
    assert!(matches!(app.handle_key(press(Key::Enter)), Effect::Nothing));
    type_text(&mut app, "  new.db ");
    app.handle_key(press(Key::Backspace));
    match app.handle_key(press(Key::Enter)) {
        Effect::SwitchDatabase(p) => assert_eq!(p, "new.db"),
        _ => panic!("expected a switch"),
    }
    assert_eq!(app.new_db_input, "");
    assert_eq!(app.screen, Screen::Inventory);
}

#[test]
fn display_texts() {
    let mut it = item(12, "Nut", 0);
    it.barcode = Some("B1".to_string());
    assert_eq!(item_cells(&it), vec!["12", "Nut", "0", "-", "B1", "-"]);
    let mut settings = Settings::default();
    settings.set_database_path("x.db".to_string());
    assert_eq!(recent_labels(&settings), vec!["✓ x.db", "inventory.sqlite3"]);
    assert_eq!(input_title(Focus::NameInput, Focus::NameInput), "Name (active)");
    assert_eq!(input_title(Focus::SerialInput, Focus::Table), "Serial (optional)");
    assert_eq!(add_button_label(true), "[ Save ]");
    assert_eq!(add_button_label(false), "[ Add Item ]");
    assert_eq!(recent_list_title(SettingsFocus::DatabaseList), "Recent Databases (active)");
    assert_eq!(new_database_title(SettingsFocus::DatabaseList), "New Database Path");
    assert_eq!(
        help_line(&"ok".to_string()),
        "ok | Tab/Enter: next focus | Up/Down: move row | Ctrl+S: settings | q: quit"
    );
    let _ = InsertItem::from(("n".to_string(), None, None, None, 1));
}
