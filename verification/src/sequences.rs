//! Facts about sequences and about grids walked row by row, shared by the
//! proofs of the library.

use vstd::prelude::*;
use vstd::arithmetic::div_mod::{
    lemma_div_pos_is_pos, lemma_fundamental_div_mod, lemma_fundamental_div_mod_converse,
    lemma_mod_bound,
};

verus! {

/// Filtering one element more either appends that element or changes nothing.
pub proof fn lemma_filter_take_step<A>(s: Seq<A>, pred: spec_fn(A) -> bool, k: int)
    requires
        0 <= k < s.len(),
    ensures
        s.take(k + 1).filter(pred) == if pred(s[k]) {
            s.take(k).filter(pred).push(s[k])
        } else {
            s.take(k).filter(pred)
        },
{
    reveal(Seq::filter);
    assert(s.take(k + 1).drop_last() =~= s.take(k));
}

/// Filtering a sequence with one element appended either appends that
/// element to the filtered sequence or changes nothing.
pub proof fn lemma_filter_push<A>(s: Seq<A>, pred: spec_fn(A) -> bool, v: A)
    ensures
        s.push(v).filter(pred) == if pred(v) {
            s.filter(pred).push(v)
        } else {
            s.filter(pred)
        },
{
    reveal(Seq::filter);
    assert(s.push(v).drop_last() =~= s);
}

/// Position `row * width + column` of a row-by-row walk is column `column`
/// of row `row`.
pub proof fn lemma_grid_index(width: int, height: int, column: int, row: int)
    requires
        0 <= column < width,
        0 <= row < height,
    ensures
        0 <= row * width + column < width * height,
        (row * width + column) % width == column,
        (row * width + column) / width == row,
{
    assert(0 <= row * width + column < width * height) by (nonlinear_arith)
        requires
            0 <= column < width,
            0 <= row < height,
    ;
    lemma_fundamental_div_mod_converse(row * width + column, width, row, column);
}

/// Position `k` of a row-by-row walk over `columns` columns and `rows` rows
/// lies in column `k % columns` of row `k / columns`.
pub proof fn lemma_grid_position(columns: int, rows: int, k: int)
    requires
        0 < columns,
        0 <= k < columns * rows,
    ensures
        0 <= k % columns < columns,
        0 <= k / columns < rows,
        k == (k / columns) * columns + k % columns,
{
    lemma_mod_bound(k, columns);
    lemma_fundamental_div_mod(k, columns);
    lemma_div_pos_is_pos(k, columns);
    let q = k / columns;
    assert(q < rows) by (nonlinear_arith)
        requires
            0 < columns,
            k < columns * rows,
            k == columns * q + k % columns,
            0 <= k % columns,
    ;
    assert(columns * q == q * columns) by (nonlinear_arith);
}

/// What passes a filter was in the sequence and meets the test.
pub proof fn lemma_filter_member<A>(s: Seq<A>, pred: spec_fn(A) -> bool, v: A)
    ensures
        s.filter(pred).contains(v) <==> s.contains(v) && pred(v),
    decreases s.len(),
{
    reveal(Seq::filter);
    if s.len() > 0 {
        let front = s.drop_last();
        lemma_filter_member(front, pred, v);
        if s.filter(pred).contains(v) {
            let i = choose|i: int| 0 <= i < s.filter(pred).len() && s.filter(pred)[i] == v;
            if i < front.filter(pred).len() {
                assert(front.filter(pred)[i] == v);
                let j = choose|j: int| 0 <= j < front.len() && front[j] == v;
                assert(s[j] == v);
            } else {
                assert(v == s.last());
                assert(s[s.len() - 1] == v);
            }
        }
        if s.contains(v) && pred(v) {
            let j = choose|j: int| 0 <= j < s.len() && s[j] == v;
            if j < front.len() {
                assert(front[j] == v);
                let i = choose|i: int|
                    0 <= i < front.filter(pred).len() && front.filter(pred)[i] == v;
                assert(s.filter(pred)[i] == v);
            } else {
                assert(s.filter(pred)[s.filter(pred).len() - 1] == v);
            }
        }
    }
}

} // verus!
