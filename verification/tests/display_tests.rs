use weather_station::display::{
    LcdOp, init_commands, nibble_levels, render_message, set_cursor_command,
};

#[test]
fn message_with_line_break() {
    let ops = render_message("AB\nC", 16, 2, true);
    assert_eq!(
        ops,
        vec![
            LcdOp::WriteChar(65),
            LcdOp::WriteChar(66),
            LcdOp::SetCursor(0x80 + 0x40),
            LcdOp::WriteChar(67),
        ]
    );
}

#[test]
fn extra_line_breaks_clamp_to_the_last_row() {
    let ops = render_message("A\n\n\nB", 16, 2, true);
    assert_eq!(
        ops,
        vec![
            LcdOp::WriteChar(65),
            LcdOp::SetCursor(0xC0),
            LcdOp::SetCursor(0xC0),
            LcdOp::SetCursor(0xC0),
            LcdOp::WriteChar(66),
        ]
    );
}

#[test]
fn right_entry_breaks_to_the_last_column() {
    let ops = render_message("X\nY", 16, 2, false);
    assert_eq!(
        ops,
        vec![LcdOp::WriteChar(88), LcdOp::SetCursor(0x80 + 15 + 0x40), LcdOp::WriteChar(89)]
    );
}

#[test]
fn non_ascii_messages_are_refused() {
    let ops = render_message("caf\u{00e9}", 16, 2, true);
    assert_eq!(ops.len(), 0);
}

#[test]
fn cursor_addresses() {
    assert_eq!(set_cursor_command(0, 0, 2), 0x80);
    assert_eq!(set_cursor_command(5, 0, 2), 0x85);
    assert_eq!(set_cursor_command(0, 1, 2), 0xC0);
    assert_eq!(set_cursor_command(0, 5, 2), 0xC0); // clamped to the last row
    assert_eq!(set_cursor_command(3, 2, 4), 0x80 + 3 + 0x14);
}

#[test]
fn nibbles_drive_the_four_data_pins() {
    assert_eq!(nibble_levels(0xA5, true), vec![false, true, false, true]);
    assert_eq!(nibble_levels(0xA5, false), vec![true, false, true, false]);
    assert_eq!(nibble_levels(0x00, true), vec![false, false, false, false]);
    assert_eq!(nibble_levels(0xFF, false), vec![true, true, true, true]);
}

#[test]
fn startup_sequence() {
    assert_eq!(init_commands(), vec![0x33u8, 0x32, 0x0C, 0x28, 0x06, 0x01]);
}
