//! The display scan-out plan: the exact signal sequence that paints one
//! frame onto the physically multiplexed matrix.
//!
//! One scan asserts a row-address code for each of the seven rows and,
//! within a row, clocks the two color lines once per column from right to
//! left, with a fixed settle delay around every clock edge and a latch
//! pulse between rows. The plan is computed from one buffer as one value,
//! so a replacement buffer can only take effect when the next plan is
//! built: no scan ever mixes two frames.

use vstd::prelude::*;
use vstd::arithmetic::div_mod::{lemma_div_pos_is_pos, lemma_fundamental_div_mod,
    lemma_fundamental_div_mod_converse, lemma_mod_division_less_than_divisor,
    lemma_multiply_divide_lt};
use crate::{Level, Pixel, ScreenBuffer};

verus! {

/// Settle delay around every clock edge, in microseconds.
pub const CLOCK_DELAY_US: u32 = 1;

/// Width of the row-latch pulse between rows, in microseconds.
pub const ROW_DELAY_US: u32 = 200;

/// Actions one row contributes to the scan plan.
pub const SCAN_ROW_ACTIONS: usize = 407;

/// Total length of one scan plan.
pub const SCAN_PLAN_LEN: usize = 2851;

/// One signal-level step of the scan protocol.
#[derive(Debug, Clone, Copy, PartialEq, Eq, Structural)]
pub enum DriveAction {
    /// Assert the two color data lines for the cell under the clock.
    SetColorLines { red: Level, green: Level },
    ClockHigh,
    ClockLow,
    /// Assert the three-line address code that selects the active row.
    SetRowAddress { row_0: Level, row_1: Level, row_2: Level },
    ScreenHigh,
    ScreenLow,
    /// Hold all lines for the given number of microseconds.
    DelayUs(u32),
}

/// The fixed three-line address code of each row.
pub open spec fn spec_row_signals(row: int) -> (Level, Level, Level) {
    if row == 0 {
        (Level::On, Level::On, Level::On)
    } else if row == 1 {
        (Level::On, Level::On, Level::Off)
    } else if row == 2 {
        (Level::On, Level::Off, Level::On)
    } else if row == 3 {
        (Level::On, Level::Off, Level::Off)
    } else if row == 4 {
        (Level::Off, Level::On, Level::On)
    } else if row == 5 {
        (Level::Off, Level::On, Level::Off)
    } else {
        (Level::Off, Level::Off, Level::On)
    }
}

/// Looks up the address code of a row.
pub fn row_address_signals(row: usize) -> (r: (Level, Level, Level))
    requires
        row < 7,
    ensures
        r == spec_row_signals(row as int),
{
    match row {
        0 => (Level::On, Level::On, Level::On),
        1 => (Level::On, Level::On, Level::Off),
        2 => (Level::On, Level::Off, Level::On),
        3 => (Level::On, Level::Off, Level::Off),
        4 => (Level::Off, Level::On, Level::On),
        5 => (Level::Off, Level::On, Level::Off),
        _ => (Level::Off, Level::Off, Level::On),
    }
}

/// The action at offset `o` of one row's segment: raise the latch line,
/// then five actions per column right to left — data, clock up, settle,
/// clock down, settle — then the address code and the latch pulse.
pub open spec fn spec_row_action_at(b: Seq<Seq<Pixel>>, row: int, o: int) -> DriveAction {
    if o == 0 {
        DriveAction::ScreenHigh
    } else if o <= 400 {
        let j = o - 1;
        let col_step = j / 5;
        let m = j % 5;
        let px = b[row][79 - col_step];
        if m == 0 {
            DriveAction::SetColorLines { red: px.red, green: px.green }
        } else if m == 1 {
            DriveAction::ClockHigh
        } else if m == 2 {
            DriveAction::DelayUs(CLOCK_DELAY_US)
        } else if m == 3 {
            DriveAction::ClockLow
        } else {
            DriveAction::DelayUs(CLOCK_DELAY_US)
        }
    } else if o == 401 {
        DriveAction::SetRowAddress {
            row_0: spec_row_signals(row).0,
            row_1: spec_row_signals(row).1,
            row_2: spec_row_signals(row).2,
        }
    } else if o == 402 {
        DriveAction::DelayUs(CLOCK_DELAY_US)
    } else if o == 403 {
        DriveAction::ScreenLow
    } else if o == 404 {
        DriveAction::DelayUs(ROW_DELAY_US)
    } else if o == 405 {
        DriveAction::ScreenHigh
    } else {
        DriveAction::DelayUs(CLOCK_DELAY_US)
    }
}

/// The action at position `i` of the whole scan: the clock brought low
/// once, then the seven row segments in order.
pub open spec fn spec_scan_action_at(b: Seq<Seq<Pixel>>, i: int) -> DriveAction {
    if i == 0 {
        DriveAction::ClockLow
    } else if i == 1 {
        DriveAction::DelayUs(CLOCK_DELAY_US)
    } else {
        let k = i - 2;
        spec_row_action_at(b, k / 407, k % 407)
    }
}

/// Appends one row's segment of the scan to the plan.
fn emit_row(plan: &mut Vec<DriveAction>, buffer: &ScreenBuffer, row: usize)
    requires
        buffer.wf(),
        row < 7,
    ensures
        final(plan)@.len() == old(plan)@.len() + SCAN_ROW_ACTIONS,
        forall|i: int| 0 <= i < old(plan)@.len() ==> #[trigger] final(plan)@[i] == old(plan)@[i],
        forall|o: int|
            0 <= o < SCAN_ROW_ACTIONS ==> #[trigger] final(plan)@[old(plan)@.len() + o]
                == spec_row_action_at(buffer@, row as int, o),
{
    let ghost plan0 = plan@;
    plan.push(DriveAction::ScreenHigh);
    let mut c: usize = 0;
    while c < 80
        invariant
            buffer.wf(),
            row < 7,
            c <= 80,
            plan@.len() == plan0.len() + 1 + c * 5,
            forall|i: int| 0 <= i < plan0.len() ==> #[trigger] plan@[i] == plan0[i],
            forall|o: int|
                0 <= o < 1 + c * 5 ==> #[trigger] plan@[plan0.len() + o] == spec_row_action_at(
                    buffer@,
                    row as int,
                    o,
                ),
        decreases 80 - c,
    {
        let px = buffer.get(row, 79 - c);
        plan.push(DriveAction::SetColorLines { red: px.red, green: px.green });
        plan.push(DriveAction::ClockHigh);
        plan.push(DriveAction::DelayUs(CLOCK_DELAY_US));
        plan.push(DriveAction::ClockLow);
        plan.push(DriveAction::DelayUs(CLOCK_DELAY_US));
        proof {
            lemma_fundamental_div_mod_converse(c as int * 5 + 0, 5, c as int, 0);
            lemma_fundamental_div_mod_converse(c as int * 5 + 1, 5, c as int, 1);
            lemma_fundamental_div_mod_converse(c as int * 5 + 2, 5, c as int, 2);
            lemma_fundamental_div_mod_converse(c as int * 5 + 3, 5, c as int, 3);
            lemma_fundamental_div_mod_converse(c as int * 5 + 4, 5, c as int, 4);
        }
        c = c + 1;
    }
    let sig = row_address_signals(row);
    plan.push(DriveAction::SetRowAddress { row_0: sig.0, row_1: sig.1, row_2: sig.2 });
    plan.push(DriveAction::DelayUs(CLOCK_DELAY_US));
    plan.push(DriveAction::ScreenLow);
    plan.push(DriveAction::DelayUs(ROW_DELAY_US));
    plan.push(DriveAction::ScreenHigh);
    plan.push(DriveAction::DelayUs(CLOCK_DELAY_US));
}

/// Computes the scan plan of one frame: the exact signal sequence of one
/// complete pass over all seven rows and eighty columns.
pub fn scan_plan(buffer: &ScreenBuffer) -> (plan: Vec<DriveAction>)
    requires
        buffer.wf(),
    ensures
        plan@.len() == SCAN_PLAN_LEN,
        forall|i: int|
            0 <= i < SCAN_PLAN_LEN ==> #[trigger] plan@[i] == spec_scan_action_at(buffer@, i),
{
    let mut plan: Vec<DriveAction> = Vec::new();
    plan.push(DriveAction::ClockLow);
    plan.push(DriveAction::DelayUs(CLOCK_DELAY_US));
    let mut row: usize = 0;
    while row < 7
        invariant
            buffer.wf(),
            row <= 7,
            plan@.len() == 2 + row * 407,
            forall|i: int|
                0 <= i < plan@.len() ==> #[trigger] plan@[i] == spec_scan_action_at(buffer@, i),
        decreases 7 - row,
    {
        let ghost base = plan@.len() as int;
        emit_row(&mut plan, buffer, row);
        proof {
            assert forall|i: int| base <= i < base + 407 implies #[trigger] plan@[i]
                == spec_scan_action_at(buffer@, i) by {
                let o = i - base;
                lemma_fundamental_div_mod_converse(row as int * 407 + o, 407, row as int, o);
                assert(plan@[base + o] == spec_row_action_at(buffer@, row as int, o));
            }
        }
        row = row + 1;
    }
    plan
}

/// The position of the scan at which the color lines carry cell
/// (`row`, `col`): within the row's segment, columns run right to left.
pub open spec fn spec_cell_action_index(row: int, col: int) -> int {
    2 + row * 407 + 1 + (79 - col) * 5
}

/// Scan coverage: every cell of the grid has its color lines asserted at
/// its own position of the plan, whatever the buffer holds.
pub proof fn lemma_scan_visits_every_cell(b: Seq<Seq<Pixel>>, row: int, col: int)
    requires
        0 <= row < 7,
        0 <= col < 80,
    ensures
        0 <= spec_cell_action_index(row, col) < SCAN_PLAN_LEN,
        spec_scan_action_at(b, spec_cell_action_index(row, col)) == (DriveAction::SetColorLines {
            red: b[row][col].red,
            green: b[row][col].green,
        }),
{
    let o = 1 + (79 - col) * 5;
    lemma_fundamental_div_mod_converse(row * 407 + o, 407, row, o);
    lemma_fundamental_div_mod_converse((79 - col) * 5, 5, 79 - col, 0);
}

/// Scan uniqueness: distinct cells are asserted at distinct positions of
/// the plan.
pub proof fn lemma_scan_cell_index_injective(r1: int, c1: int, r2: int, c2: int)
    requires
        0 <= r1 < 7,
        0 <= c1 < 80,
        0 <= r2 < 7,
        0 <= c2 < 80,
        spec_cell_action_index(r1, c1) == spec_cell_action_index(r2, c2),
    ensures
        r1 == r2,
        c1 == c2,
{
    let x = r1 * 407 + (79 - c1) * 5;
    lemma_fundamental_div_mod_converse(r1 * 407 + (79 - c1) * 5, 407, r1, (79 - c1) * 5);
    lemma_fundamental_div_mod_converse(r2 * 407 + (79 - c2) * 5, 407, r2, (79 - c2) * 5);
}

/// Scan exhaustiveness: every color-line assertion of the plan stands at
/// some cell's position, so the plan asserts colors for the 560 cells
/// and for nothing else, each exactly once.
pub proof fn lemma_scan_only_cells(b: Seq<Seq<Pixel>>, i: int)
    requires
        0 <= i < SCAN_PLAN_LEN,
        spec_scan_action_at(b, i) is SetColorLines,
    ensures
        exists|row: int, col: int|
            0 <= row < 7 && 0 <= col < 80 && i == spec_cell_action_index(row, col),
{
    let k = i - 2;
    let row = k / 407;
    let o = k % 407;
    lemma_div_pos_is_pos(k, 407);
    lemma_multiply_divide_lt(k, 407, 7);
    lemma_mod_division_less_than_divisor(k, 407);
    lemma_fundamental_div_mod(k, 407);
    let j = o - 1;
    lemma_div_pos_is_pos(j, 5);
    lemma_multiply_divide_lt(j, 5, 80);
    lemma_mod_division_less_than_divisor(j, 5);
    lemma_fundamental_div_mod(j, 5);
    let col = 79 - j / 5;
    assert(0 <= row < 7 && 0 <= col < 80 && i == spec_cell_action_index(row, col));
}

} // verus!
