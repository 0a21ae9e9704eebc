//! The progress bar shown above each question.

use vstd::prelude::*;

verus! {

/// The width of the progress bar, in character cells.
pub const BAR_WIDTH: usize = 80;

/// The glyph of the filled part of the bar.
pub const FILLED_GLYPH: char = '#';

/// The glyph of the part of the bar that is still empty.
pub const EMPTY_GLYPH: char = '-';

/// How many cells of the bar are filled when question `index` of `total` is
/// on screen: `index / total` of the bar's width, rounded to the nearest
/// whole cell, a half rounding up.
pub open spec fn filled_width(index: int, total: int) -> int
    recommends
        0 <= index,
        0 < total,
{
    (2 * index * BAR_WIDTH + total) / (2 * total)
}

/// The bar for question `index` of `total`: the filled cells first, then the
/// empty ones, `BAR_WIDTH` cells in all.
pub open spec fn bar_text(index: int, total: int) -> Seq<char>
    recommends
        0 <= index,
        0 < total,
{
    Seq::new(
        BAR_WIDTH as nat,
        |cell: int|
            if cell < filled_width(index, total) {
                FILLED_GLYPH
            } else {
                EMPTY_GLYPH
            },
    )
}

/// A quotient lies where the multiples of the divisor put it.
proof fn lemma_quotient(x: int, d: int, q: int)
    by (nonlinear_arith)
    requires
        d > 0,
        q * d <= x < (q + 1) * d,
    ensures
        x / d == q,
{
}

/// The filled part never exceeds the bar.
pub proof fn lemma_filled_width_bounded(index: int, total: int)
    requires
        0 <= index <= total,
        total > 0,
    ensures
        0 <= filled_width(index, total) <= BAR_WIDTH,
{
    let x: int = 2 * index * BAR_WIDTH + total;
    let d: int = 2 * total;
    assert(0 <= x / d <= 80) by (nonlinear_arith)
        requires
            d > 0,
            0 <= x < 81 * d,
    ;
}

/// The bar never shrinks as the quiz moves on: a later question shows at
/// least as many filled cells as an earlier one.
pub proof fn lemma_filled_width_monotonic(earlier: int, later: int, total: int)
    requires
        0 <= earlier <= later,
        total > 0,
    ensures
        filled_width(earlier, total) <= filled_width(later, total),
{
    let x: int = 2 * earlier * BAR_WIDTH + total;
    let y: int = 2 * later * BAR_WIDTH + total;
    let d: int = 2 * total;
    assert(0 <= x / d <= y / d) by (nonlinear_arith)
        requires
            d > 0,
            0 <= x <= y,
    ;
}

/// The bar is empty at the first question.
pub proof fn lemma_filled_width_starts_empty(total: int)
    requires
        total > 0,
    ensures
        filled_width(0, total) == 0,
{
    lemma_quotient(total, 2 * total, 0);
}

/// Once every question is answered the bar is full.
pub proof fn lemma_filled_width_complete(total: int)
    requires
        total > 0,
    ensures
        filled_width(total, total) == BAR_WIDTH,
{
    lemma_quotient(2 * total * BAR_WIDTH + total, 2 * total, BAR_WIDTH as int);
}

/// At the last question the bar is full exactly when there are at least
/// twice as many questions as the bar has cells: with fewer, the last
/// question still shows a bar that is short of full.
pub proof fn lemma_filled_width_at_last(total: int)
    requires
        total > 0,
    ensures
        filled_width(total - 1, total) == BAR_WIDTH <==> total >= 2 * BAR_WIDTH,
{
    let x: int = 2 * (total - 1) * BAR_WIDTH + total;
    let d: int = 2 * total;
    if total >= 2 * BAR_WIDTH {
        lemma_quotient(x, d, BAR_WIDTH as int);
    } else {
        assert(0 <= x / d < 80) by (nonlinear_arith)
            requires
                d > 0,
                0 <= x < 80 * d,
        ;
    }
}

/// With at least twice as many questions as the bar has cells, the bar is
/// full at the last question.
pub proof fn lemma_filled_width_full_at_last(total: int)
    requires
        total >= 2 * BAR_WIDTH,
    ensures
        filled_width(total - 1, total) == BAR_WIDTH,
{
    lemma_filled_width_at_last(total);
}

/// How many cells of the bar are filled when question `index` of `total` is
/// on screen.
pub fn progress_width(index: usize, total: usize) -> (width: usize)
    requires
        index <= total,
        total > 0,
    ensures
        width == filled_width(index as int, total as int),
        width <= BAR_WIDTH,
{
    let scaled: u128 = 2 * (index as u128) * (BAR_WIDTH as u128) + (total as u128);
    let divisor: u128 = 2 * (total as u128);
    proof {
        lemma_filled_width_bounded(index as int, total as int);
    }
    (scaled / divisor) as usize
}

/// The progress bar for question `index` of `total`.
pub fn progress_bar(index: usize, total: usize) -> (bar: String)
    requires
        index <= total,
        total > 0,
    ensures
        bar@ == bar_text(index as int, total as int),
{
    let filled: usize = progress_width(index, total);
    let mut bar = String::new();
    let mut cell: usize = 0;
    while cell < BAR_WIDTH
        invariant
            cell <= BAR_WIDTH,
            filled == filled_width(index as int, total as int),
            bar@ == bar_text(index as int, total as int).take(cell as int),
        decreases BAR_WIDTH - cell,
    {
        if cell < filled {
            bar.push(FILLED_GLYPH);
        } else {
            bar.push(EMPTY_GLYPH);
        }
        cell += 1;
        assert(bar@ =~= bar_text(index as int, total as int).take(cell as int));
    }
    assert(bar@ =~= bar_text(index as int, total as int));
    bar
}

} // verus!
