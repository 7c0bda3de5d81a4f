//! What holds of the analyses, for every raster and every input.

use vstd::prelude::*;
use vstd::math::{max, min};
use super::Pixel;
use crate::sequences::{
    lemma_filter_member, lemma_filter_push, lemma_filter_take_step, lemma_grid_index,
    lemma_grid_position,
};
use super::model::{
    accepts, chained, channel, cluster, colors_match, distance_squared, distinct, feature_height,
    feature_width, first_accepting, greatest, is_colour, join, least, members, near,
    near_an_earlier, occurrences, occurrences_of_all, pack_rgba, xs, ys, Raster,
};

verus! {

/// One more colour is one more occurrence of itself and of no other.
pub proof fn lemma_occurrences_push(colours: Seq<u32>, added: u32, colour: u32)
    ensures
        occurrences(colours.push(added), colour) == occurrences(colours, colour) + if added
            == colour {
            1nat
        } else {
            0nat
        },
{
    lemma_filter_push(colours, is_colour(colour), added);
}

/// A colour occurs at least once exactly if it is among the colours.
pub proof fn lemma_occurrences_positive(colours: Seq<u32>, colour: u32)
    ensures
        occurrences(colours, colour) > 0 <==> colours.contains(colour),
    decreases colours.len(),
{
    if colours.len() == 0 {
        reveal(Seq::filter);
    } else {
        let before = colours.drop_last();
        assert(colours =~= before.push(colours.last()));
        lemma_occurrences_positive(before, colour);
        lemma_occurrences_push(before, colours.last(), colour);
        if before.contains(colour) {
            let i = choose|i: int| 0 <= i < before.len() && before[i] == colour;
            assert(colours[i] == colour);
        }
        if colours.contains(colour) && colours.last() != colour {
            let i = choose|i: int| 0 <= i < colours.len() && colours[i] == colour;
            assert(before[i] == colour);
        }
    }
}

/// The distinct colours of a sequence are its colours, each once.
pub proof fn lemma_distinct(colours: Seq<u32>)
    ensures
        distinct(colours).no_duplicates(),
        forall|c: u32| #[trigger] distinct(colours).contains(c) <==> colours.contains(c),
    decreases colours.len(),
{
    if colours.len() > 0 {
        let before = colours.drop_last();
        let last = colours.last();
        lemma_distinct(before);
        assert(colours =~= before.push(last));
        assert forall|c: u32| #[trigger] distinct(colours).contains(c) <==> colours.contains(c) by {
            if distinct(colours).contains(c) {
                let i = choose|i: int| 0 <= i < distinct(colours).len() && distinct(colours)[i] == c;
                if i < distinct(before).len() {
                    assert(distinct(before)[i] == c);
                    assert(distinct(before).contains(c));
                    let j = choose|j: int| 0 <= j < before.len() && before[j] == c;
                    assert(colours[j] == c);
                } else {
                    assert(c == last);
                    assert(colours[colours.len() - 1] == c);
                }
            }
            if colours.contains(c) {
                let j = choose|j: int| 0 <= j < colours.len() && colours[j] == c;
                if j < before.len() {
                    assert(before[j] == c);
                    assert(distinct(before).contains(c));
                    let i = choose|i: int| 0 <= i < distinct(before).len() && distinct(before)[i] == c;
                    assert(distinct(colours)[i] == c);
                } else {
                    assert(c == last);
                    if !distinct(before).contains(last) {
                        assert(distinct(colours)[distinct(before).len() as int] == last);
                    }
                }
            }
        }
    }
}

/// One more colour is one more occurrence among keys that hold it once, and
/// none among keys that do not hold it.
proof fn lemma_occurrences_of_all_push(colours: Seq<u32>, added: u32, keys: Seq<u32>)
    requires
        keys.no_duplicates(),
    ensures
        occurrences_of_all(colours.push(added), keys) == occurrences_of_all(colours, keys)
            + if keys.contains(added) {
            1nat
        } else {
            0nat
        },
    decreases keys.len(),
{
    if keys.len() > 0 {
        let front = keys.drop_last();
        let last = keys.last();
        assert(front.no_duplicates());
        lemma_occurrences_of_all_push(colours, added, front);
        lemma_occurrences_push(colours, added, last);
        if front.contains(added) {
            let i = choose|i: int| 0 <= i < front.len() && front[i] == added;
            assert(keys[i] == added);
            assert(keys[keys.len() - 1] == last);
            assert(last != added);
        }
        if keys.contains(added) && last != added {
            let i = choose|i: int| 0 <= i < keys.len() && keys[i] == added;
            assert(front[i] == added);
        }
        if last == added {
            assert(keys[keys.len() - 1] == added);
        }
    }
}

/// A histogram loses and invents nothing: the occurrences of the distinct
/// colours add up to the number of colours counted.
pub proof fn lemma_histogram_counts_every_colour(colours: Seq<u32>)
    ensures
        occurrences_of_all(colours, distinct(colours)) == colours.len(),
    decreases colours.len(),
{
    if colours.len() == 0 {
        assert(distinct(colours) =~= Seq::<u32>::empty());
    } else {
        let before = colours.drop_last();
        let last = colours.last();
        assert(colours =~= before.push(last));
        lemma_histogram_counts_every_colour(before);
        lemma_distinct(before);
        lemma_occurrences_of_all_push(before, last, distinct(before));
        if !distinct(before).contains(last) {
            assert(distinct(colours).drop_last() =~= distinct(before));
            lemma_occurrences_positive(before, last);
            lemma_occurrences_push(before, last, last);
        }
    }
}

/// Past groups that do not accept a pixel, the first accepting group is the
/// same.
pub proof fn lemma_first_accepting_skips(groups: Seq<Seq<Pixel>>, p: Pixel, from: int, to: int)
    requires
        0 <= from <= to <= groups.len(),
        forall|j: int| from <= j < to ==> !accepts(#[trigger] groups[j], p),
    ensures
        first_accepting(groups, p, from) == first_accepting(groups, p, to),
    decreases to - from,
{
    if from < to {
        lemma_first_accepting_skips(groups, p, from + 1, to);
    }
}

/// The least of some values is one of them, and none is smaller.
pub proof fn lemma_least(values: Seq<int>)
    requires
        values.len() > 0,
    ensures
        forall|i: int| 0 <= i < values.len() ==> least(values) <= #[trigger] values[i],
        exists|i: int| 0 <= i < values.len() && #[trigger] values[i] == least(values),
    decreases values.len(),
{
    if values.len() > 1 {
        let front = values.drop_last();
        lemma_least(front);
        let w = choose|i: int| 0 <= i < front.len() && #[trigger] front[i] == least(front);
        assert(values[w] == front[w]);
        assert(values[values.len() - 1] == values.last());
        assert forall|i: int| 0 <= i < values.len() implies least(values) <= #[trigger] values[i] by {
            if i < front.len() {
                assert(values[i] == front[i]);
            }
        }
    } else {
        assert(values[0] == least(values));
    }
}

/// The greatest of some values is one of them, and none is larger.
pub proof fn lemma_greatest(values: Seq<int>)
    requires
        values.len() > 0,
    ensures
        forall|i: int| 0 <= i < values.len() ==> greatest(values) >= #[trigger] values[i],
        exists|i: int| 0 <= i < values.len() && #[trigger] values[i] == greatest(values),
    decreases values.len(),
{
    if values.len() > 1 {
        let front = values.drop_last();
        lemma_greatest(front);
        let w = choose|i: int| 0 <= i < front.len() && #[trigger] front[i] == greatest(front);
        assert(values[w] == front[w]);
        assert(values[values.len() - 1] == values.last());
        assert forall|i: int| 0 <= i < values.len() implies greatest(values) >= #[trigger] values[i] by {
            if i < front.len() {
                assert(values[i] == front[i]);
            }
        }
    } else {
        assert(values[0] == greatest(values));
    }
}

/// Among more pixels of a feature no fewer match, and no more than were
/// added.
pub proof fn lemma_matches_among_grows(
    raster: Raster,
    feature: Seq<Pixel>,
    m: int,
    n: int,
    x: int,
    y: int,
    tolerance: int,
)
    requires
        0 <= m <= n,
    ensures
        0 <= raster.matches_among(feature, m, x, y, tolerance) <= m,
        raster.matches_among(feature, m, x, y, tolerance) <= raster.matches_among(
            feature,
            n,
            x,
            y,
            tolerance,
        ),
        n - raster.matches_among(feature, n, x, y, tolerance) >= m - raster.matches_among(
            feature,
            m,
            x,
            y,
            tolerance,
        ),
    decreases n,
{
    if m < n {
        lemma_matches_among_grows(raster, feature, m, n - 1, x, y, tolerance);
    } else if m > 0 {
        lemma_matches_among_grows(raster, feature, m - 1, n - 1, x, y, tolerance);
    }
}

/// An exact search returns the samples of the wanted colour and no others,
/// each once, and always in the same row-by-row order.
pub proof fn lemma_find_is_exact(raster: Raster, color: u32, x: int, y: int)
    requires
        raster.wf(),
        raster.in_bounds(x, y),
    ensures
        raster.find(color).contains(raster.sample(x, y)) <==> raster.pixel(x, y) == color,
        forall|i: int|
            0 <= i < raster.find(color).len() ==> (#[trigger] raster.find(color)[i]).rgba == color,
{
    broadcast use vstd::seq_lib::group_filter_ensures;

    let all = raster.row_major();
    let pred = |p: Pixel| p.rgba == color;
    lemma_grid_index(raster.width as int, raster.height as int, x, y);
    let k = y * raster.width + x;
    assert(all[k] == raster.sample(x, y));
    if raster.pixel(x, y) == color {
        assert(pred(all[k]));
        all.lemma_filter_contains(pred, k);
    }
    if raster.find(color).contains(raster.sample(x, y)) {
        let i = choose|i: int|
            0 <= i < raster.find(color).len() && raster.find(color)[i] == raster.sample(x, y);
        all.lemma_filter_pred(pred, i);
    }
    assert forall|i: int| 0 <= i < raster.find(color).len() implies (#[trigger] raster.find(
        color,
    )[i]).rgba == color by {
        all.lemma_filter_pred(pred, i);
    }
}

/// Packing and splitting undo each other: the channels of a packed colour
/// are the channels it was packed from, and a colour is packed from its own
/// channels.
pub proof fn lemma_pack_and_split(r: u8, g: u8, b: u8, a: u8, rgba: u32)
    ensures
        channel(pack_rgba(r, g, b, a), 0) == r,
        channel(pack_rgba(r, g, b, a), 1) == g,
        channel(pack_rgba(r, g, b, a), 2) == b,
        channel(pack_rgba(r, g, b, a), 3) == a,
        pack_rgba(
            channel(rgba, 0) as u8,
            channel(rgba, 1) as u8,
            channel(rgba, 2) as u8,
            channel(rgba, 3) as u8,
        ) == rgba,
{
    let n: u32 = pack_rgba(r, g, b, a);
    assert(n / 0x100_0000 == r as u32 && (n / 0x1_0000) % 0x100 == g as u32 && (n / 0x100) % 0x100
        == b as u32 && n % 0x100 == a as u32) by (bit_vector)
        requires
            n == (r as u32) * 0x100_0000 + (g as u32) * 0x1_0000 + (b as u32) * 0x100 + (a as u32),
    ;
    assert(rgba == (rgba / 0x100_0000) * 0x100_0000 + ((rgba / 0x1_0000) % 0x100) * 0x1_0000 + ((
    rgba / 0x100) % 0x100) * 0x100 + rgba % 0x100 && rgba / 0x100_0000 < 0x100) by (bit_vector);
}

/// Two colours lie no further apart than black and white do: their squared
/// distance is at most `4 * 255 * 255`, and at most `3 * 255 * 255` without
/// alpha.
pub proof fn lemma_distance_bounds(c1: u32, c2: u32)
    ensures
        0 <= distance_squared(c1, c2, true) <= 4 * 255 * 255,
        0 <= distance_squared(c1, c2, false) <= 3 * 255 * 255,
{
    let dr = channel(c1, 0) - channel(c2, 0);
    let dg = channel(c1, 1) - channel(c2, 1);
    let db = channel(c1, 2) - channel(c2, 2);
    let da = channel(c1, 3) - channel(c2, 3);
    assert(0 <= dr * dr <= 255 * 255 && 0 <= dg * dg <= 255 * 255 && 0 <= db * db <= 255 * 255
        && 0 <= da * da <= 255 * 255) by (nonlinear_arith)
        requires
            -255 <= dr <= 255,
            -255 <= dg <= 255,
            -255 <= db <= 255,
            -255 <= da <= 255,
    ;
}

/// A colour matches itself under every tolerance that is not negative.
pub proof fn lemma_color_matches_itself(color: u32, tolerance: int)
    requires
        tolerance >= 0,
    ensures
        distance_squared(color, color, true) == 0,
        colors_match(color, color, tolerance),
{
}

/// The bounding box of an extracted rectangle is the rectangle itself,
/// moved to the origin.
pub proof fn lemma_region_bounding_box(raster: Raster, left: int, top: int, right: int, bottom: int)
    requires
        raster.wf(),
        0 <= left <= right < raster.width,
        0 <= top <= bottom < raster.height,
    ensures
        raster.region(left, top, right, bottom).len() == (right - left + 1) * (bottom - top + 1),
        raster.region(left, top, right, bottom).len() > 0,
        least(xs(raster.region(left, top, right, bottom))) == 0,
        least(ys(raster.region(left, top, right, bottom))) == 0,
        greatest(xs(raster.region(left, top, right, bottom))) == right - left,
        greatest(ys(raster.region(left, top, right, bottom))) == bottom - top,
        feature_width(raster.region(left, top, right, bottom)) == right - left + 1,
        feature_height(raster.region(left, top, right, bottom)) == bottom - top + 1,
{
    let feature = raster.region(left, top, right, bottom);
    let columns = right - left + 1;
    let rows = bottom - top + 1;
    assert(columns * rows > 0) by (nonlinear_arith)
        requires
            columns > 0,
            rows > 0,
    ;
    assert forall|k: int| 0 <= k < feature.len() implies 0 <= #[trigger] xs(feature)[k]
        < columns by {
        lemma_grid_position(columns, rows, k);
    }
    assert forall|k: int| 0 <= k < feature.len() implies 0 <= #[trigger] ys(feature)[k] < rows by {
        lemma_grid_position(columns, rows, k);
    }
    lemma_grid_index(columns, rows, 0, 0);
    lemma_grid_index(columns, rows, columns - 1, rows - 1);
    let first = 0int;
    let last = (rows - 1) * columns + (columns - 1);
    assert(0 * columns + 0 == 0);
    assert(xs(feature)[first] == 0 && ys(feature)[first] == 0);
    assert(xs(feature)[last] == columns - 1 && ys(feature)[last] == rows - 1);
    lemma_least(xs(feature));
    lemma_least(ys(feature));
    lemma_greatest(xs(feature));
    lemma_greatest(ys(feature));
}

/// Every pixel of an extracted rectangle matches the raster exactly where
/// the rectangle was taken from.
pub proof fn lemma_region_matches_in_place(
    raster: Raster,
    left: int,
    top: int,
    right: int,
    bottom: int,
    n: int,
)
    requires
        raster.wf(),
        0 <= left <= right < raster.width,
        0 <= top <= bottom < raster.height,
        0 <= n <= raster.region(left, top, right, bottom).len(),
    ensures
        raster.matches_among(raster.region(left, top, right, bottom), n, left, top, 0) == n,
    decreases n,
{
    if n > 0 {
        let feature = raster.region(left, top, right, bottom);
        lemma_region_matches_in_place(raster, left, top, right, bottom, n - 1);
        lemma_region_bounding_box(raster, left, top, right, bottom);
        lemma_grid_position(right - left + 1, bottom - top + 1, n - 1);
        let at = Raster::placed(feature, n - 1, left, top);
        assert(raster.in_bounds(at.0, at.1));
        lemma_color_matches_itself(feature[n - 1].rgba, 0);
        assert(raster.pixel_matches(feature, n - 1, left, top, 0));
    }
}

/// Extraction is a left inverse of placement: a feature extracted from a
/// raster is found again, with no colour tolerance and no mismatch allowed,
/// at least at the top-left corner of the rectangle it was extracted from.
pub proof fn lemma_extracted_feature_is_found(
    raster: Raster,
    start_x: int,
    start_y: int,
    end_x: int,
    end_y: int,
)
    requires
        raster.wf(),
        raster.holds_rectangle(start_x, start_y, end_x, end_y),
    ensures
        raster.find_feature(raster.get_feature(start_x, start_y, end_x, end_y), 0, 0).contains(
            raster.sample(min(start_x, end_x), min(start_y, end_y)),
        ),
{
    broadcast use vstd::seq_lib::group_filter_ensures;

    let left = min(start_x, end_x);
    let top = min(start_y, end_y);
    let right = max(start_x, end_x);
    let bottom = max(start_y, end_y);
    let feature = raster.get_feature(start_x, start_y, end_x, end_y);
    lemma_region_bounding_box(raster, left, top, right, bottom);
    lemma_region_matches_in_place(raster, left, top, right, bottom, feature.len() as int);
    let columns = raster.width - feature_width(feature) + 1;
    let rows = raster.height - feature_height(feature) + 1;
    let all = raster.placements(feature);
    let kept = |p: Pixel| raster.mismatches_at(feature, p.x as int, p.y as int, 0) <= 0;
    lemma_grid_index(columns, rows, left, top);
    let k = top * columns + left;
    assert(all[k] == raster.sample(left, top));
    assert(kept(all[k]));
    all.lemma_filter_contains(kept, k);
}

/// A feature extracted from a raster, checked with no colour tolerance at
/// the top-left corner of the rectangle it was extracted from, lies inside
/// the raster there and matches in every one of its pixels: the score is 1.
pub proof fn lemma_extracted_feature_scores_full(
    raster: Raster,
    start_x: int,
    start_y: int,
    end_x: int,
    end_y: int,
)
    requires
        raster.wf(),
        raster.holds_rectangle(start_x, start_y, end_x, end_y),
    ensures
        ({
            let feature = raster.get_feature(start_x, start_y, end_x, end_y);
            let left = min(start_x, end_x);
            let top = min(start_y, end_y);
            &&& feature.len() > 0
            &&& raster.holds_feature_at(feature, left, top)
            &&& raster.matches_at(feature, left, top, 0) == feature.len()
        }),
{
    let left = min(start_x, end_x);
    let top = min(start_y, end_y);
    let right = max(start_x, end_x);
    let bottom = max(start_y, end_y);
    let feature = raster.get_feature(start_x, start_y, end_x, end_y);
    lemma_region_bounding_box(raster, left, top, right, bottom);
    lemma_region_matches_in_place(raster, left, top, right, bottom, feature.len() as int);
}

/// A feature larger than the raster in either dimension, and a feature
/// without pixels, is found nowhere.
pub proof fn lemma_oversized_or_empty_feature_not_found(
    raster: Raster,
    feature: Seq<Pixel>,
    tolerance: int,
    budget: int,
)
    requires
        feature.len() == 0 || feature_width(feature) > raster.width || feature_height(feature)
            > raster.height,
    ensures
        raster.find_feature(feature, tolerance, budget).len() == 0,
{
}

/// The order in which the two corners of a rectangle are given, and which
/// pair of opposite corners is given, is irrelevant to what is extracted
/// and counted.
pub proof fn lemma_corner_order_irrelevant(
    raster: Raster,
    start_x: int,
    start_y: int,
    end_x: int,
    end_y: int,
)
    ensures
        raster.get_feature(start_x, start_y, end_x, end_y) == raster.get_feature(
            end_x,
            end_y,
            start_x,
            start_y,
        ),
        raster.get_feature(start_x, start_y, end_x, end_y) == raster.get_feature(
            start_x,
            end_y,
            end_x,
            start_y,
        ),
        raster.holds_rectangle(start_x, start_y, end_x, end_y) == raster.holds_rectangle(
            end_x,
            end_y,
            start_x,
            start_y,
        ),
        raster.colour_frequencies(start_x, start_y, end_x, end_y) == raster.colour_frequencies(
            end_x,
            end_y,
            start_x,
            start_y,
        ),
{
}

/// A walk column by column visits the samples that a walk row by row
/// visits.
pub proof fn lemma_walks_visit_the_same(raster: Raster, p: Pixel)
    requires
        raster.wf(),
    ensures
        raster.column_major().contains(p) <==> raster.row_major().contains(p),
{
    let w = raster.width as int;
    let h = raster.height as int;
    if raster.column_major().contains(p) {
        let k = choose|k: int|
            0 <= k < raster.column_major().len() && raster.column_major()[k] == p;
        assert(w * h == h * w) by (nonlinear_arith);
        lemma_grid_position(h, w, k);
        lemma_grid_index(w, h, k / h, k % h);
        assert(raster.row_major()[(k % h) * w + k / h] == p);
    }
    if raster.row_major().contains(p) {
        let k = choose|k: int| 0 <= k < raster.row_major().len() && raster.row_major()[k] == p;
        lemma_grid_position(w, h, k);
        lemma_grid_index(h, w, k / w, k % w);
        assert(w * h == h * w) by (nonlinear_arith);
        assert(raster.column_major()[(k % w) * h + k / w] == p);
    }
}

/// The search in the order by `(x, y)` returns the pixels that the exact
/// search returns, no more and no fewer.
pub proof fn lemma_find_sorted_same_pixels(raster: Raster, color: u32, p: Pixel)
    requires
        raster.wf(),
    ensures
        raster.find_sorted(color).contains(p) <==> raster.find(color).contains(p),
{
    let wanted = |q: Pixel| q.rgba == color;
    lemma_filter_member(raster.column_major(), wanted, p);
    lemma_filter_member(raster.row_major(), wanted, p);
    lemma_walks_visit_the_same(raster, p);
}

/// Among the samples of the first `n` positions of a walk column by column,
/// those of one colour stand by rising rank, each at the position of its
/// rank.
proof fn lemma_find_sorted_prefix(raster: Raster, color: u32, n: int)
    requires
        raster.wf(),
        0 <= n <= raster.column_major().len(),
    ensures
        ({
            let found = raster.column_major().take(n).filter(|q: Pixel| q.rgba == color);
            &&& forall|i: int|
                0 <= i < found.len() ==> 0 <= raster.rank(#[trigger] found[i]) < n
                    && raster.column_major()[raster.rank(found[i])] == found[i]
            &&& forall|i: int, j: int|
                0 <= i < j < found.len() ==> raster.rank(#[trigger] found[i]) < raster.rank(
                    #[trigger] found[j],
                )
        }),
    decreases n,
{
    let wanted = |q: Pixel| q.rgba == color;
    let all = raster.column_major();
    if n == 0 {
        reveal(Seq::filter);
        assert(all.take(0).filter(wanted) =~= Seq::<Pixel>::empty());
    } else {
        lemma_find_sorted_prefix(raster, color, n - 1);
        lemma_filter_take_step(all, wanted, n - 1);
        let h = raster.height as int;
        let w = raster.width as int;
        assert(w * h == h * w) by (nonlinear_arith);
        lemma_grid_position(h, w, n - 1);
        assert(raster.rank(all[n - 1]) == n - 1);
    }
}

/// The search in the order by `(x, y)` is in that order: of two pixels that
/// it returns, the earlier has the smaller `x` or, in one column, the
/// smaller `y`.
pub proof fn lemma_find_sorted_is_ordered(raster: Raster, color: u32, i: int, j: int)
    requires
        raster.wf(),
        0 <= i < j < raster.find_sorted(color).len(),
    ensures
        ({
            let a = raster.find_sorted(color)[i];
            let b = raster.find_sorted(color)[j];
            a.x < b.x || (a.x == b.x && a.y < b.y)
        }),
{
    let all = raster.column_major();
    let h = raster.height as int;
    let w = raster.width as int;
    lemma_find_sorted_prefix(raster, color, all.len() as int);
    assert(all.take(all.len() as int) =~= all);
    let a = raster.find_sorted(color)[i];
    let b = raster.find_sorted(color)[j];
    let ka = raster.rank(a);
    let kb = raster.rank(b);
    assert(ka < kb);
    assert(w * h == h * w) by (nonlinear_arith);
    lemma_grid_position(h, w, ka);
    lemma_grid_position(h, w, kb);
    assert(all[ka] == a && all[kb] == b);
    assert(a.y < h && b.y < h);
    assert(a.x < b.x || (a.x == b.x && a.y < b.y)) by (nonlinear_arith)
        requires
            a.x * h + a.y < b.x * h + b.y,
            0 <= a.y < h,
            0 <= b.y < h,
    ;
}

/// A pixel that joins some groups makes them one pixel more, and leaves no
/// group empty where none was.
pub proof fn lemma_join_adds_one(groups: Seq<Seq<Pixel>>, p: Pixel)
    requires
        forall|i: int| 0 <= i < groups.len() ==> (#[trigger] groups[i]).len() > 0,
    ensures
        members(join(groups, p)) == members(groups) + 1,
        forall|i: int| 0 <= i < join(groups, p).len() ==> (#[trigger] join(groups, p)[i]).len() > 0,
{
    let at = first_accepting(groups, p, 0);
    lemma_first_taker_in_range(groups, p, 0);
    if at < groups.len() {
        lemma_members_update(groups, at, groups[at].push(p));
    } else {
        assert(groups.push(seq![p]).drop_last() =~= groups);
    }
}

/// The first group that takes a pixel, looked for from `from` on, is a
/// group from there on, or none.
proof fn lemma_first_taker_in_range(groups: Seq<Seq<Pixel>>, p: Pixel, from: int)
    requires
        0 <= from <= groups.len(),
    ensures
        from <= first_accepting(groups, p, from) <= groups.len(),
    decreases groups.len() - from,
{
    if from < groups.len() && !accepts(groups[from], p) {
        lemma_first_taker_in_range(groups, p, from + 1);
    }
}

/// Putting another group in the place of one changes the number of pixels
/// by the difference of the two.
proof fn lemma_members_update(groups: Seq<Seq<Pixel>>, at: int, group: Seq<Pixel>)
    requires
        0 <= at < groups.len(),
    ensures
        members(groups.update(at, group)) == members(groups) - groups[at].len() + group.len(),
    decreases groups.len(),
{
    let updated = groups.update(at, group);
    if at == groups.len() - 1 {
        assert(updated.drop_last() =~= groups.drop_last());
    } else {
        assert(updated.drop_last() =~= groups.drop_last().update(at, group));
        lemma_members_update(groups.drop_last(), at, group);
    }
}

/// Grouping loses and invents nothing: the groups hold as many pixels as
/// were grouped, and no group is empty.
pub proof fn lemma_cluster_keeps_every_pixel(pixels: Seq<Pixel>)
    ensures
        members(cluster(pixels)) == pixels.len(),
        forall|i: int| 0 <= i < cluster(pixels).len() ==> (#[trigger] cluster(pixels)[i]).len() > 0,
    decreases pixels.len(),
{
    if pixels.len() > 0 {
        lemma_cluster_keeps_every_pixel(pixels.drop_last());
        lemma_join_adds_one(cluster(pixels.drop_last()), pixels.last());
    }
}

/// A pixel joins a group only next to one of its members: in every group
/// each member but the first is near a member that joined before it.
pub proof fn lemma_cluster_groups_are_chained(pixels: Seq<Pixel>)
    ensures
        forall|g: int| 0 <= g < cluster(pixels).len() ==> chained(#[trigger] cluster(pixels)[g]),
    decreases pixels.len(),
{
    if pixels.len() > 0 {
        let groups = cluster(pixels.drop_last());
        let p = pixels.last();
        lemma_cluster_groups_are_chained(pixels.drop_last());
        let at = first_accepting(groups, p, 0);
        lemma_first_taker_in_range(groups, p, 0);
        lemma_first_taker_accepts(groups, p, 0);
        assert forall|g: int| 0 <= g < join(groups, p).len() implies chained(
            #[trigger] join(groups, p)[g],
        ) by {
            let group = join(groups, p)[g];
            if at < groups.len() && g == at {
                let before = groups[at];
                assert(chained(before));
                assert forall|i: int| 1 <= i < group.len() implies #[trigger] near_an_earlier(
                    group,
                    i,
                ) by {
                    if i < before.len() {
                        assert(near_an_earlier(before, i));
                        let j = choose|j: int| 0 <= j < i && near(#[trigger] before[j], before[i]);
                        assert(near(group[j], group[i]));
                    } else {
                        let j = choose|j: int|
                            0 <= j < before.len() && near(#[trigger] before[j], p);
                        assert(near(group[j], group[i]));
                    }
                }
                assert(chained(group));
            } else if g < groups.len() {
                assert(group == groups[g]);
                assert(chained(groups[g]));
            } else {
                assert(group =~= seq![p]);
            }
        }
    }
}

/// The first group that takes a pixel does take it.
proof fn lemma_first_taker_accepts(groups: Seq<Seq<Pixel>>, p: Pixel, from: int)
    requires
        0 <= from <= groups.len(),
    ensures
        first_accepting(groups, p, from) < groups.len() ==> accepts(
            groups[first_accepting(groups, p, from)],
            p,
        ),
    decreases groups.len() - from,
{
    if from < groups.len() && !accepts(groups[from], p) {
        lemma_first_taker_accepts(groups, p, from + 1);
    }
}

/// A feature is found exactly where its bounding box lies inside the raster
/// and no more of its pixels fail to match than the budget allows.
pub proof fn lemma_find_feature_is_exact(
    raster: Raster,
    feature: Seq<Pixel>,
    tolerance: int,
    budget: int,
    x: int,
    y: int,
)
    requires
        raster.wf(),
        feature.len() > 0,
        0 <= x <= u32::MAX,
        0 <= y <= u32::MAX,
    ensures
        raster.find_feature(feature, tolerance, budget).contains(raster.sample(x, y)) <==> (
        raster.holds_feature_at(feature, x, y) && raster.mismatches_at(feature, x, y, tolerance)
            <= budget),
{
    let kept = |p: Pixel| raster.mismatches_at(feature, p.x as int, p.y as int, tolerance) <= budget;
    let columns = raster.width - feature_width(feature) + 1;
    let rows = raster.height - feature_height(feature) + 1;
    let all = raster.placements(feature);
    lemma_least(xs(feature));
    lemma_greatest(xs(feature));
    lemma_least(ys(feature));
    lemma_greatest(ys(feature));
    assert(feature_width(feature) >= 1 && feature_height(feature) >= 1);
    if feature_width(feature) <= raster.width && feature_height(feature) <= raster.height {
        lemma_filter_member(all, kept, raster.sample(x, y));
        if raster.holds_feature_at(feature, x, y) {
            lemma_grid_index(columns, rows, x, y);
            assert(all[y * columns + x] == raster.sample(x, y));
            assert(all.contains(raster.sample(x, y)));
        }
        assert(kept(raster.sample(x, y)) == (raster.mismatches_at(feature, x, y, tolerance)
            <= budget));
        if all.contains(raster.sample(x, y)) {
            let k = choose|k: int| 0 <= k < all.len() && all[k] == raster.sample(x, y);
            lemma_grid_position(columns, rows, k);
            assert(raster.sample(k % columns, k / columns).x == raster.sample(x, y).x);
            assert(raster.sample(k % columns, k / columns).y == raster.sample(x, y).y);
        }
    } else {
        assert(!raster.find_feature(feature, tolerance, budget).contains(raster.sample(x, y)));
    }
}

} // verus!
