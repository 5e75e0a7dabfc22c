//! Text that shows a reading, and where on the screen it goes.

use vstd::prelude::*;

verus! {

/// `count` copies of `symbol`, one after another.
pub open spec fn repeated(symbol: Seq<char>, count: nat) -> Seq<char>
    decreases count,
{
    if count == 0 {
        Seq::empty()
    } else {
        repeated(symbol, (count - 1) as nat) + symbol
    }
}

/// How far `value` lies from the middle of the range `0..=max`.
pub open spec fn deflection(value: int, max: int) -> int {
    if value < max / 2 {
        max / 2 - value
    } else {
        value - max / 2
    }
}

/// The number of symbols in the bar of a chart: the deflection, scaled so
/// that the whole of one half of the range fills one half of the width.
pub open spec fn bar_length(value: int, width: int, max: int) -> int {
    deflection(value, max) * (width / 2) / (max / 2)
}

/// The chart of a reading: a bar of symbols to the left of the centre mark
/// for a reading below the middle of the range, to the right of it
/// otherwise, and as many blanks on the other side.
pub open spec fn chart_of(value: int, width: int, max: int, symbol: Seq<char>) -> Seq<char> {
    let bar = repeated(symbol, bar_length(value, width, max) as nat);
    let blank = repeated(" "@, bar_length(value, width, max) as nat);
    if value < max / 2 {
        bar + "|"@ + blank
    } else {
        blank + "|"@ + bar
    }
}

/// The row and the column at which a text of `text_len` bytes starts when it
/// is centred in row `row_index`, counted from 1, of a terminal
/// `terminal_width` columns wide. Both are counted from 0, and the length
/// counts modulo 2^16, the range of a terminal's coordinates.
pub open spec fn middle_of_row(text_len: int, row_index: int, terminal_width: int) -> (int, int) {
    (row_index - 1, terminal_width / 2 - (text_len % 0x10000) / 2)
}

/// Builds `count` copies of `symbol`.
fn repeat(symbol: &str, count: usize) -> (text: String)
    ensures
        text@ == repeated(symbol@, count as nat),
{
    let mut text = String::new();
    let mut done: usize = 0;
    while done < count
        invariant
            done <= count,
            text@ == repeated(symbol@, done as nat),
        decreases count - done,
    {
        text.append(symbol);
        done += 1;
    }
    text
}

/// Draws the chart of a reading in the range `0..=max` for a display `width`
/// columns wide. The bar has to be of a length that a string can have; for a
/// reading within the range it is, by [`lemma_bar_fits_width`].
pub fn steering_wheel_chart(value: usize, width: usize, max: usize, symbol: &str) -> (chart: String)
    requires
        max >= 2,
        bar_length(value as int, width as int, max as int) <= usize::MAX,
    ensures
        chart@ == chart_of(value as int, width as int, max as int, symbol@),
{
    let mid_max = max / 2;
    let deflection = if value < mid_max {
        mid_max - value
    } else {
        value - mid_max
    };
    assert(deflection * (width / 2) <= u64::MAX * u64::MAX) by (nonlinear_arith)
        requires
            0 <= deflection <= u64::MAX,
            0 <= width / 2 <= u64::MAX,
    ;
    let number = ((deflection as u128 * (width / 2) as u128) / mid_max as u128) as usize;
    let mut chart: String;
    if value < mid_max {
        chart = repeat(symbol, number);
        chart.append("|");
        chart.append(repeat(" ", number).as_str());
    } else {
        chart = repeat(" ", number);
        chart.append("|");
        chart.append(repeat(symbol, number).as_str());
    }
    chart
}

/// The bar of a reading within the range is never longer than the display
/// is wide.
pub proof fn lemma_bar_fits_width(value: int, width: int, max: int)
    requires
        0 <= value <= max,
        0 <= width,
        max >= 2,
    ensures
        0 <= bar_length(value, width, max) <= width,
{
    let mid = max / 2;
    let half = width / 2;
    let d = deflection(value, max);
    assert(0 <= d <= mid + 1);
    assert(0 <= d * half <= (2 * half) * mid) by (nonlinear_arith)
        requires
            0 <= d <= mid + 1,
            mid >= 1,
            half >= 0,
    ;
    vstd::arithmetic::div_mod::lemma_div_is_ordered(d * half, (2 * half) * mid, mid);
    vstd::arithmetic::div_mod::lemma_div_multiples_vanish(2 * half, mid);
    vstd::arithmetic::div_mod::lemma_div_pos_is_pos(d * half, mid);
}

/// Finds where a text starts that is to stand centred in a row.
pub fn middle_row_position(text_len: usize, row_index: u16, terminal_width: u16) -> (position: (
    u16,
    u16,
))
    requires
        row_index >= 1,
        (text_len % 0x10000) / 2 <= terminal_width / 2,
    ensures
        (position.0 as int, position.1 as int) == middle_of_row(
            text_len as int,
            row_index as int,
            terminal_width as int,
        ),
{
    let half_len: u16 = ((text_len % 0x10000) / 2) as u16;
    (row_index - 1, terminal_width / 2 - half_len)
}

} // verus!
