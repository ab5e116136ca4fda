//! Planning for the character display: which controller bytes one message
//! turns into. The physical pin driver executes the plan; everything
//! decided here — line breaks, row clamping, nibble splitting, the init
//! sequence — is plain logic and proved.

use vstd::prelude::*;
use vstd::string::StrSliceExecFns;

verus! {

/// Command bytes of the controller.
pub const CLEAR_DISPLAY: u8 = 0x01;

pub const RETURN_HOME: u8 = 0x02;

pub const ENTRY_MODE_SET: u8 = 0x04;

pub const DISPLAY_CONTROL: u8 = 0x08;

pub const FUNCTION_SET: u8 = 0x20;

pub const SET_DDRAM_ADDR: u8 = 0x80;

/// Control flags: display on, cursor and blink off.
pub const DISPLAY_ON: u8 = 0x04;

/// Function flags: four-bit bus, two lines, five-by-eight dots.
pub const TWO_LINE: u8 = 0x08;

/// Entry flags: cursor moves left to right.
pub const ENTRY_LEFT: u8 = 0x02;

/// DDRAM address where each physical row starts.
pub open spec fn row_offset(row: int) -> int {
    if row == 0 {
        0x00
    } else if row == 1 {
        0x40
    } else if row == 2 {
        0x14
    } else {
        0x54
    }
}

/// A row request clamped to the display's real rows.
pub open spec fn clamped_row(row: int, rows: int) -> int {
    if row >= rows {
        rows - 1
    } else {
        row
    }
}

/// The set-cursor command byte for a column and a row request, the row
/// clamped to the display's row count.
pub open spec fn cursor_address(col: int, row: int, rows: int) -> int {
    SET_DDRAM_ADDR + col + row_offset(clamped_row(row, rows))
}

/// Computes the set-cursor command byte.
pub fn set_cursor_command(col: usize, row: usize, rows: usize) -> (r: u8)
    requires
        col < 40,
        1 <= rows <= 4,
    ensures
        r == cursor_address(col as int, row as int, rows as int),
{
    let clamped: usize = if row >= rows {
        rows - 1
    } else {
        row
    };
    let offset: u8 = if clamped == 0 {
        0x00
    } else if clamped == 1 {
        0x40
    } else if clamped == 2 {
        0x14
    } else {
        0x54
    };
    SET_DDRAM_ADDR + (col as u8) + offset
}

/// One step of a rendering plan: send a character or move the cursor.
#[derive(Debug, Clone, Copy, PartialEq, Eq, Structural)]
pub enum LcdOp {
    WriteChar(u8),
    SetCursor(u8),
}

/// How many line breaks occur among the first `k` characters.
pub open spec fn newline_count(chars: Seq<char>, k: int) -> int
    decreases k,
{
    if k <= 0 {
        0
    } else {
        newline_count(chars, k - 1) + if chars[k - 1] == '\n' {
            1int
        } else {
            0int
        }
    }
}

/// The column a line break returns the cursor to: the first column in
/// left-entry mode, the last otherwise.
pub open spec fn break_column(cols: int, entry_left: bool) -> int {
    if entry_left {
        0
    } else {
        cols - 1
    }
}

/// The op a message's character at position `k` turns into: a line break
/// moves the cursor to the break column of the next row (clamped to the
/// display), any other character is sent as data.
pub open spec fn op_at(chars: Seq<char>, k: int, cols: int, rows: int, entry_left: bool) -> LcdOp {
    if chars[k] == '\n' {
        LcdOp::SetCursor(
            cursor_address(
                break_column(cols, entry_left),
                newline_count(chars, k) + 1,
                rows,
            ) as u8,
        )
    } else {
        LcdOp::WriteChar(chars[k] as u8)
    }
}

/// Turns one message into the exact op sequence the pin driver must
/// execute: one op per character. A message that is not plain ASCII is
/// refused and plans nothing.
pub fn render_message(msg: &str, cols: usize, rows: usize, entry_left: bool) -> (ops: Vec<LcdOp>)
    requires
        1 <= cols <= 40,
        1 <= rows <= 4,
    ensures
        !vstd::string::is_ascii(msg) ==> ops@.len() == 0,
        vstd::string::is_ascii(msg) ==> {
            &&& ops@.len() == msg@.len()
            &&& forall|k: int|
                0 <= k < msg@.len() ==> ops@[k] == op_at(
                    msg@,
                    k,
                    cols as int,
                    rows as int,
                    entry_left,
                )
        },
{
    let mut ops: Vec<LcdOp> = Vec::new();
    if !msg.is_ascii() {
        return ops;
    }
    let len: usize = msg.unicode_len();
    let mut line: usize = 0;
    let mut k: usize = 0;
    while k < len
        invariant
            vstd::string::is_ascii(msg),
            1 <= cols <= 40,
            1 <= rows <= 4,
            len == msg@.len(),
            k <= len,
            line == newline_count(msg@, k as int),
            line <= k,
            ops@.len() == k,
            forall|j: int|
                0 <= j < k ==> ops@[j] == op_at(msg@, j, cols as int, rows as int, entry_left),
        decreases len - k,
    {
        let b: u8 = msg.get_ascii(k);
        if b == 10 {
            line = line + 1;
            let col: usize = if entry_left {
                0
            } else {
                cols - 1
            };
            ops.push(LcdOp::SetCursor(set_cursor_command(col, line, rows)));
        } else {
            proof {
                assert(msg@[k as int] as u8 == b);
                assert(msg@[k as int] != '\n');
            }
            ops.push(LcdOp::WriteChar(b));
        }
        k = k + 1;
    }
    ops
}

/// Whether one data-bus pin is driven high when `value` is presented,
/// upper nibble first.
pub open spec fn data_pin_high(value: u8, upper: bool, i: int) -> bool {
    if upper {
        (value >> ((i + 4) as u8)) & 1 == 1
    } else {
        (value >> (i as u8)) & 1 == 1
    }
}

/// The four data-pin levels for one half of a byte on the four-bit bus.
pub fn nibble_levels(value: u8, upper: bool) -> (r: Vec<bool>)
    ensures
        r@.len() == 4,
        forall|i: int| 0 <= i < 4 ==> r@[i] == data_pin_high(value, upper, i),
{
    let shift: u8 = if upper {
        4
    } else {
        0
    };
    let mut r: Vec<bool> = Vec::new();
    r.push((value >> shift) & 1 == 1);
    r.push((value >> (shift + 1)) & 1 == 1);
    r.push((value >> (shift + 2)) & 1 == 1);
    r.push((value >> (shift + 3)) & 1 == 1);
    r
}

/// The fixed startup command sequence: the two four-bit-mode magic bytes,
/// display control, function set, entry mode, and a clear.
pub fn init_commands() -> (r: Vec<u8>)
    ensures
        r@ =~= seq![
            0x33u8,
            0x32u8,
            (DISPLAY_CONTROL | DISPLAY_ON) as u8,
            (FUNCTION_SET | TWO_LINE) as u8,
            (ENTRY_MODE_SET | ENTRY_LEFT) as u8,
            CLEAR_DISPLAY as u8,
        ],
{
    let mut r: Vec<u8> = Vec::new();
    r.push(0x33);
    r.push(0x32);
    r.push(DISPLAY_CONTROL | DISPLAY_ON);
    r.push(FUNCTION_SET | TWO_LINE);
    r.push(ENTRY_MODE_SET | ENTRY_LEFT);
    r.push(CLEAR_DISPLAY);
    r
}

} // verus!
