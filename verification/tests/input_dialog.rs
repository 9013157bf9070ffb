use netprobe::ui::widgets::input_dialog::DIALOG_HEIGHT;
use netprobe::ui::widgets::input_dialog::DIALOG_MAX_WIDTH;
use netprobe::ui::widgets::input_dialog::DialogArea;
use netprobe::ui::widgets::input_dialog::FormatType;
use netprobe::ui::widgets::input_dialog::InputDialog;
use netprobe::ui::widgets::input_dialog::dialog_area;

#[test]
fn a_new_dialog_is_empty() {
    let dialog = InputDialog::new();
    assert_eq!(dialog.input, "");
    assert_eq!(dialog.format_type, FormatType::String);
    assert_eq!(dialog.selected_client, None);
    assert!(dialog.clients.is_empty());
    assert_eq!(dialog.format_index(), 0);
    assert_eq!(dialog.client_index(), 0);
    assert_eq!(dialog.cursor_offset(), Some(0));
}

#[test]
fn the_first_client_is_selected() {
    let mut dialog = InputDialog::new();
    dialog.add_client("a".to_string());
    assert_eq!(dialog.selected_client, Some(0));
    dialog.add_client("b".to_string());
    assert_eq!(dialog.selected_client, Some(0));
    assert_eq!(dialog.clients, vec!["a", "b"]);
    dialog.selected_client = Some(1);
    dialog.add_client("c".to_string());
    assert_eq!(dialog.selected_client, Some(1));
    assert_eq!(dialog.client_index(), 1);
}

#[test]
fn the_format_toggles() {
    let mut dialog = InputDialog::new();
    dialog.toggle_format();
    assert_eq!(dialog.format_type, FormatType::Hex);
    assert_eq!(dialog.format_index(), 1);
    dialog.toggle_format();
    assert_eq!(dialog.format_type, FormatType::String);
    assert_eq!(dialog.format_index(), 0);
}

#[test]
fn submit_gives_the_text_unless_it_is_empty() {
    let mut dialog = InputDialog::new();
    assert_eq!(dialog.submit(), None);
    dialog.input.push_str("hello");
    assert_eq!(dialog.submit(), Some("hello".to_string()));
    assert_eq!(dialog.input, "hello");
    dialog.input = " ".to_string();
    assert_eq!(dialog.submit(), Some(" ".to_string()));
}

#[test]
fn the_cursor_follows_the_bytes_of_the_text() {
    let mut dialog = InputDialog::new();
    dialog.input = "abc".to_string();
    assert_eq!(dialog.cursor_offset(), Some(3));
    dialog.input = "h\u{e9}".to_string();
    assert_eq!(dialog.cursor_offset(), Some(3));
    dialog.input = "x".repeat(65535);
    assert_eq!(dialog.cursor_offset(), Some(65535));
    dialog.input = "x".repeat(65536);
    assert_eq!(dialog.cursor_offset(), None);
}

#[test]
fn the_dialog_is_centred() {
    assert_eq!(DIALOG_HEIGHT, 10);
    assert_eq!(DIALOG_MAX_WIDTH, 60);
    assert_eq!(dialog_area(80, 24), Some(DialogArea { x: 10, y: 7, width: 60, height: 10 }));
    assert_eq!(dialog_area(60, 10), Some(DialogArea { x: 0, y: 0, width: 60, height: 10 }));
    assert_eq!(dialog_area(40, 11), Some(DialogArea { x: 0, y: 0, width: 40, height: 10 }));
    assert_eq!(dialog_area(61, 13), Some(DialogArea { x: 0, y: 1, width: 60, height: 10 }));
    assert_eq!(dialog_area(0, 10), Some(DialogArea { x: 0, y: 0, width: 0, height: 10 }));
    assert_eq!(
        dialog_area(u16::MAX, u16::MAX),
        Some(DialogArea { x: 32737, y: 32762, width: 60, height: 10 })
    );
}

#[test]
fn a_low_screen_has_no_place_for_the_dialog() {
    assert_eq!(dialog_area(80, 9), None);
    assert_eq!(dialog_area(80, 0), None);
}
