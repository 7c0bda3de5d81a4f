//! The mathematical model of a raster and of the analyses over it.
//!
//! Everything here is specification: the executable analyses in the parent
//! module are proved to compute exactly these values.

use vstd::prelude::*;
use vstd::math::{max, min};
use super::{ColourFrequency, Feature, Pixel};

verus! {

/// A colour packed from its four channels, red in the highest byte.
pub open spec fn pack_rgba(r: u8, g: u8, b: u8, a: u8) -> u32 {
    (r as int * 0x100_0000 + g as int * 0x1_0000 + b as int * 0x100 + a as int) as u32
}

/// One channel of a packed colour; channel 0 is red, 3 is alpha.
pub open spec fn channel(rgba: u32, index: int) -> int {
    if index == 0 {
        rgba as int / 0x100_0000
    } else if index == 1 {
        (rgba as int / 0x1_0000) % 0x100
    } else if index == 2 {
        (rgba as int / 0x100) % 0x100
    } else {
        rgba as int % 0x100
    }
}

/// The square of the Euclidean distance between two packed colours, over the
/// three colour channels and, if `use_alpha`, the alpha channel too.
pub open spec fn distance_squared(c1: u32, c2: u32, use_alpha: bool) -> int {
    let dr = channel(c1, 0) - channel(c2, 0);
    let dg = channel(c1, 1) - channel(c2, 1);
    let db = channel(c1, 2) - channel(c2, 2);
    let da = channel(c1, 3) - channel(c2, 3);
    dr * dr + dg * dg + db * db + if use_alpha { da * da } else { 0 }
}

/// Two colours match under a tolerance when their squared distance, alpha
/// included, does not exceed it. A negative tolerance matches nothing.
pub open spec fn colors_match(c1: u32, c2: u32, tolerance: int) -> bool {
    distance_squared(c1, c2, true) <= tolerance
}

/// The largest distance that two colours can have, alpha included: the
/// square root of `4 * 255 * 255`.
pub open spec fn max_distance() -> int {
    510
}

/// Two colours match under the fraction `numerator / denominator` of the
/// largest distance when their distance does not exceed that fraction of
/// it; stated over the squares, which are whole numbers.
pub open spec fn within_fraction(c1: u32, c2: u32, numerator: int, denominator: int) -> bool {
    distance_squared(c1, c2, true) * (denominator * denominator) <= (max_distance()
        * max_distance()) * (numerator * numerator)
}

/// `budget` is the fraction `numerator / denominator` of `total`, rounded
/// to the nearest whole number and, halfway between two, away from zero.
pub open spec fn is_rounded_fraction(
    budget: int,
    total: int,
    numerator: int,
    denominator: int,
) -> bool {
    2 * denominator * budget <= 2 * total * numerator + denominator < 2 * denominator * (budget
        + 1)
}

/// The smallest of `values`; 0 if there are none.
pub open spec fn least(values: Seq<int>) -> int
    decreases values.len(),
{
    if values.len() == 0 {
        0
    } else if values.len() == 1 {
        values[0]
    } else {
        min(least(values.drop_last()), values.last())
    }
}

/// The largest of `values`; 0 if there are none.
pub open spec fn greatest(values: Seq<int>) -> int
    decreases values.len(),
{
    if values.len() == 0 {
        0
    } else if values.len() == 1 {
        values[0]
    } else {
        max(greatest(values.drop_last()), values.last())
    }
}

/// The columns of a feature's pixels.
pub open spec fn xs(feature: Seq<Pixel>) -> Seq<int> {
    feature.map_values(|p: Pixel| p.x as int)
}

/// The rows of a feature's pixels.
pub open spec fn ys(feature: Seq<Pixel>) -> Seq<int> {
    feature.map_values(|p: Pixel| p.y as int)
}

/// The width of a feature's bounding box.
pub open spec fn feature_width(feature: Seq<Pixel>) -> int {
    greatest(xs(feature)) - least(xs(feature)) + 1
}

/// The height of a feature's bounding box.
pub open spec fn feature_height(feature: Seq<Pixel>) -> int {
    greatest(ys(feature)) - least(ys(feature)) + 1
}

/// The test for being the colour `colour`.
pub open spec fn is_colour(colour: u32) -> spec_fn(u32) -> bool {
    |c: u32| c == colour
}

/// How often `colour` occurs among `colours`.
pub open spec fn occurrences(colours: Seq<u32>, colour: u32) -> nat {
    colours.filter(is_colour(colour)).len()
}

/// The colours that occur among `colours`, each once, in the order in which
/// they first occur.
pub open spec fn distinct(colours: Seq<u32>) -> Seq<u32>
    decreases colours.len(),
{
    if colours.len() == 0 {
        Seq::empty()
    } else {
        let before = distinct(colours.drop_last());
        if before.contains(colours.last()) {
            before
        } else {
            before.push(colours.last())
        }
    }
}

/// How often the colours `keys` occur among `colours`, all together.
pub open spec fn occurrences_of_all(colours: Seq<u32>, keys: Seq<u32>) -> nat
    decreases keys.len(),
{
    if keys.len() == 0 {
        0
    } else {
        occurrences_of_all(colours, keys.drop_last()) + occurrences(colours, keys.last())
    }
}

/// A count as a `u32`, held at `u32::MAX` where it would not fit.
pub open spec fn saturated(count: nat) -> u32 {
    if count > u32::MAX {
        u32::MAX
    } else {
        count as u32
    }
}

/// One entry for each colour that occurs among `colours`, in the order in
/// which the colours first occur, with the number of its occurrences.
pub open spec fn histogram(colours: Seq<u32>) -> Seq<ColourFrequency> {
    distinct(colours).map_values(
        |c: u32| ColourFrequency { rgba: c, count: saturated(occurrences(colours, c)) },
    )
}

/// The largest distance, in pixels, at which a pixel still joins a group.
pub open spec fn group_radius() -> int {
    5
}

/// Two pixels lie no further apart than the group radius.
pub open spec fn near(a: Pixel, b: Pixel) -> bool {
    let dx = a.x - b.x;
    let dy = a.y - b.y;
    dx * dx + dy * dy <= group_radius() * group_radius()
}

/// A group takes a pixel that is near one of its members.
pub open spec fn accepts(group: Seq<Pixel>, p: Pixel) -> bool {
    exists|i: int| 0 <= i < group.len() && near(#[trigger] group[i], p)
}

/// The first group from `from` on that accepts `p`; the number of groups if
/// none does.
pub open spec fn first_accepting(groups: Seq<Seq<Pixel>>, p: Pixel, from: int) -> int
    decreases groups.len() - from,
{
    if from < 0 || from >= groups.len() {
        groups.len() as int
    } else if accepts(groups[from], p) {
        from
    } else {
        first_accepting(groups, p, from + 1)
    }
}

/// The groups after `p` has joined the first that accepts it, or has
/// started a group of its own behind them if none does.
pub open spec fn join(groups: Seq<Seq<Pixel>>, p: Pixel) -> Seq<Seq<Pixel>> {
    let at = first_accepting(groups, p, 0);
    if at < groups.len() {
        groups.update(at, groups[at].push(p))
    } else {
        groups.push(seq![p])
    }
}

/// The groups that form when the pixels join one after the other. A single
/// pass in the given order: two pixels of one connected blob can end up in
/// different groups when the pixels between them come later.
pub open spec fn cluster(pixels: Seq<Pixel>) -> Seq<Seq<Pixel>>
    decreases pixels.len(),
{
    if pixels.len() == 0 {
        Seq::empty()
    } else {
        join(cluster(pixels.drop_last()), pixels.last())
    }
}

/// Member `i` of the group is near a member before it.
pub open spec fn near_an_earlier(group: Seq<Pixel>, i: int) -> bool {
    exists|j: int| 0 <= j < i && near(#[trigger] group[j], group[i])
}

/// Every member of the group but the first is near a member before it.
pub open spec fn chained(group: Seq<Pixel>) -> bool {
    forall|i: int| 1 <= i < group.len() ==> #[trigger] near_an_earlier(group, i)
}

/// The number of pixels in all the groups together.
pub open spec fn members(groups: Seq<Seq<Pixel>>) -> nat
    decreases groups.len(),
{
    if groups.len() == 0 {
        0
    } else {
        members(groups.drop_last()) + groups.last().len()
    }
}

/// The pixel lists of some features.
pub open spec fn pixels_of(features: Seq<Feature>) -> Seq<Seq<Pixel>> {
    Seq::new(features.len(), |i: int| features[i]@)
}

/// A width x height grid of packed RGBA colours, row-major from the top left.
pub struct Raster {
    pub width: nat,
    pub height: nat,
    pub pixels: Seq<u32>,
}

/// The raster that `bytes` encode: four bytes per pixel in the order red,
/// green, blue, alpha, row by row. Bytes beyond the last pixel are ignored.
pub open spec fn raster_of_bytes(width: nat, height: nat, bytes: Seq<u8>) -> Raster {
    Raster {
        width,
        height,
        pixels: Seq::new(
            width * height,
            |k: int| pack_rgba(bytes[4 * k], bytes[4 * k + 1], bytes[4 * k + 2], bytes[4 * k + 3]),
        ),
    }
}

/// The bytes of a capture with the red and blue byte of every whole pixel
/// exchanged: blue-green-red-alpha order turned into red-green-blue-alpha.
pub open spec fn swap_red_blue(bytes: Seq<u8>) -> Seq<u8> {
    Seq::new(
        bytes.len(),
        |i: int|
            if i - i % 4 + 3 >= bytes.len() {
                bytes[i]
            } else if i % 4 == 0 {
                bytes[i + 2]
            } else if i % 4 == 2 {
                bytes[i - 2]
            } else {
                bytes[i]
            },
    )
}

impl Raster {
    /// The grid holds exactly one colour per position, and its sides fit the
    /// coordinates of a `Pixel`.
    pub open spec fn wf(self) -> bool {
        &&& self.pixels.len() == self.width * self.height
        &&& self.width <= u32::MAX
        &&& self.height <= u32::MAX
    }

    pub open spec fn in_bounds(self, x: int, y: int) -> bool {
        0 <= x < self.width && 0 <= y < self.height
    }

    /// The colour at column `x` of row `y`.
    pub open spec fn pixel(self, x: int, y: int) -> u32 {
        self.pixels[y * self.width + x]
    }

    /// The sample at column `x` of row `y`.
    pub open spec fn sample(self, x: int, y: int) -> Pixel {
        Pixel { x: x as u32, y: y as u32, rgba: self.pixel(x, y) }
    }

    /// Every sample of the raster, row by row.
    pub open spec fn row_major(self) -> Seq<Pixel> {
        Seq::new(
            self.width * self.height,
            |k: int| self.sample(k % self.width as int, k / self.width as int),
        )
    }

    /// Every sample of the raster, column by column: the order by `(x, y)`.
    pub open spec fn column_major(self) -> Seq<Pixel> {
        Seq::new(
            self.width * self.height,
            |k: int| self.sample(k / self.height as int, k % self.height as int),
        )
    }

    /// The samples whose colour is exactly `color`, row by row.
    pub open spec fn find(self, color: u32) -> Seq<Pixel> {
        self.row_major().filter(|p: Pixel| p.rgba == color)
    }

    /// The rectangle from `(left, top)` to `(right, bottom)`, both corners
    /// included, row by row, with coordinates counted from `(left, top)`.
    pub open spec fn region(self, left: int, top: int, right: int, bottom: int) -> Seq<Pixel> {
        let columns = right - left + 1;
        let rows = bottom - top + 1;
        Seq::new(
            (columns * rows) as nat,
            |k: int|
                Pixel {
                    x: (k % columns) as u32,
                    y: (k / columns) as u32,
                    rgba: self.pixel(left + k % columns, top + k / columns),
                },
        )
    }

    /// Both corners of the rectangle spanned by two opposite corners, given
    /// in any order, lie inside the raster.
    pub open spec fn holds_rectangle(
        self,
        start_x: int,
        start_y: int,
        end_x: int,
        end_y: int,
    ) -> bool {
        &&& self.in_bounds(min(start_x, end_x), min(start_y, end_y))
        &&& self.in_bounds(max(start_x, end_x), max(start_y, end_y))
    }

    /// The feature extracted from the rectangle spanned by two opposite
    /// corners, given in any order.
    pub open spec fn get_feature(self, start_x: int, start_y: int, end_x: int, end_y: int) -> Seq<
        Pixel,
    > {
        self.region(
            min(start_x, end_x),
            min(start_y, end_y),
            max(start_x, end_x),
            max(start_y, end_y),
        )
    }

    /// Where pixel `i` of `feature` falls when the top-left corner of the
    /// feature's bounding box is placed at `(x, y)`.
    pub open spec fn placed(feature: Seq<Pixel>, i: int, x: int, y: int) -> (int, int) {
        (x + (feature[i].x - least(xs(feature))), y + (feature[i].y - least(ys(feature))))
    }

    /// Pixel `i` of `feature`, with the feature placed at `(x, y)`, falls on
    /// a pixel of the raster whose colour matches it under `tolerance`.
    pub open spec fn pixel_matches(
        self,
        feature: Seq<Pixel>,
        i: int,
        x: int,
        y: int,
        tolerance: int,
    ) -> bool {
        let at = Self::placed(feature, i, x, y);
        self.in_bounds(at.0, at.1) && colors_match(
            feature[i].rgba,
            self.pixel(at.0, at.1),
            tolerance,
        )
    }

    /// How many of the first `n` pixels of `feature` match at `(x, y)`.
    pub open spec fn matches_among(
        self,
        feature: Seq<Pixel>,
        n: int,
        x: int,
        y: int,
        tolerance: int,
    ) -> int
        decreases n,
    {
        if n <= 0 {
            0
        } else {
            self.matches_among(feature, n - 1, x, y, tolerance) + if self.pixel_matches(
                feature,
                n - 1,
                x,
                y,
                tolerance,
            ) {
                1int
            } else {
                0int
            }
        }
    }

    /// How many pixels of `feature` match at `(x, y)`.
    pub open spec fn matches_at(self, feature: Seq<Pixel>, x: int, y: int, tolerance: int) -> int {
        self.matches_among(feature, feature.len() as int, x, y, tolerance)
    }

    /// How many pixels of `feature` do not match at `(x, y)`.
    pub open spec fn mismatches_at(
        self,
        feature: Seq<Pixel>,
        x: int,
        y: int,
        tolerance: int,
    ) -> int {
        feature.len() - self.matches_at(feature, x, y, tolerance)
    }

    /// The bounding box of `feature`, with its top-left corner at `(x, y)`,
    /// lies inside the raster.
    pub open spec fn holds_feature_at(self, feature: Seq<Pixel>, x: int, y: int) -> bool {
        x + feature_width(feature) <= self.width && y + feature_height(feature) <= self.height
    }

    /// The top-left corners at which the bounding box of `feature` lies
    /// inside the raster, row by row, each with the colour found there.
    pub open spec fn placements(self, feature: Seq<Pixel>) -> Seq<Pixel> {
        let columns = self.width - feature_width(feature) + 1;
        let rows = self.height - feature_height(feature) + 1;
        Seq::new((columns * rows) as nat, |k: int| self.sample(k % columns, k / columns))
    }

    /// The placements of `feature` at which no more than `budget` of its
    /// pixels fail to match under `tolerance`. Empty for a feature without
    /// pixels and for one whose bounding box is larger than the raster.
    pub open spec fn find_feature(self, feature: Seq<Pixel>, tolerance: int, budget: int) -> Seq<
        Pixel,
    > {
        if feature.len() == 0 || feature_width(feature) > self.width || feature_height(feature)
            > self.height {
            Seq::empty()
        } else {
            self.placements(feature).filter(
                |p: Pixel| self.mismatches_at(feature, p.x as int, p.y as int, tolerance) <= budget,
            )
        }
    }

    /// The colours of the rectangle from `(left, top)` to `(right, bottom)`,
    /// both corners included, row by row.
    pub open spec fn region_colours(self, left: int, top: int, right: int, bottom: int) -> Seq<
        u32,
    > {
        let columns = right - left + 1;
        let rows = bottom - top + 1;
        Seq::new(
            (columns * rows) as nat,
            |k: int| self.pixel(left + k % columns, top + k / columns),
        )
    }

    /// The histogram of the colours in the rectangle spanned by two opposite
    /// corners, given in any order, walked row by row.
    pub open spec fn colour_frequencies(
        self,
        start_x: int,
        start_y: int,
        end_x: int,
        end_y: int,
    ) -> Seq<ColourFrequency> {
        histogram(
            self.region_colours(
                min(start_x, end_x),
                min(start_y, end_y),
                max(start_x, end_x),
                max(start_y, end_y),
            ),
        )
    }

    /// The samples whose colour is exactly `color`, ordered by `(x, y)`.
    pub open spec fn find_sorted(self, color: u32) -> Seq<Pixel> {
        self.column_major().filter(|p: Pixel| p.rgba == color)
    }

    /// Where a sample stands in the order by `(x, y)`.
    pub open spec fn rank(self, p: Pixel) -> int {
        p.x * self.height + p.y
    }

    /// The groups into which the samples of colour `color` fall when they
    /// join in the order by `(x, y)`.
    pub open spec fn features_from_color(self, color: u32) -> Seq<Seq<Pixel>> {
        cluster(self.find_sorted(color))
    }
}

} // verus!
