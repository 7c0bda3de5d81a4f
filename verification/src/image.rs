//! Rasters of RGBA pixels and the analyses that run over them.
//!
//! An [`Image`] is an immutable grid of pixels. Each analysis is a task value
//! that owns a private copy of the image it works on, so that it can run off
//! the caller's thread; `compute` does the work.

use std::collections::HashMap;
use vstd::prelude::*;
use vstd::math::{max, min};
use vstd::string::StringExecFns;

pub mod laws;
pub mod model;

use crate::sequences::{lemma_filter_take_step, lemma_grid_index};
use laws::{
    lemma_distinct, lemma_first_accepting_skips, lemma_greatest, lemma_least,
    lemma_matches_among_grows, lemma_occurrences_positive, lemma_occurrences_push,
};
use model::{
    accepts, channel, cluster, distance_squared, distinct, feature_height, feature_width,
    greatest, histogram, is_rounded_fraction, least, near, occurrences, pack_rgba, pixels_of,
    raster_of_bytes, saturated, swap_red_blue, within_fraction, xs, ys, Raster,
};

verus! {

/// A sampled point of a raster: its coordinates and its colour packed as
/// `0xRRGGBBAA`.
#[derive(Clone, Copy, Debug, PartialEq, Eq, Structural)]
pub struct Pixel {
    pub x: u32,
    pub y: u32,
    pub rgba: u32,
}

/// A sparse pattern of pixels. Extraction yields coordinates relative to the
/// pattern's own top-left corner; a caller may supply any coordinates.
#[derive(Clone, Debug, PartialEq, Eq)]
pub struct Feature {
    pub pixels: Vec<Pixel>,
}

impl View for Feature {
    type V = Seq<Pixel>;

    open spec fn view(&self) -> Seq<Pixel> {
        self.pixels@
    }
}

/// How often one colour occurs in a region.
#[derive(Clone, Copy, Debug, PartialEq, Eq, Structural)]
pub struct ColourFrequency {
    pub rgba: u32,
    pub count: u32,
}

/// The four channels of a colour.
#[derive(Clone, Copy, Debug, PartialEq, Eq, Structural)]
pub struct Rgba {
    pub r: u8,
    pub g: u8,
    pub b: u8,
    pub a: u8,
}

/// How much of a feature was found at one place: `matched` of its `total`
/// pixels. The score as a fraction is `matched / total`.
#[derive(Clone, Copy, Debug, PartialEq, Eq, Structural)]
pub struct MatchScore {
    pub matched: usize,
    pub total: usize,
}

/// Why an analysis refused its input.
#[derive(Clone, Copy, Debug, PartialEq, Eq, Structural)]
pub enum ImageError {
    /// A single pixel was asked for outside the raster.
    PixelOutOfBounds,
    /// A feature without pixels was given where at least one is needed.
    EmptyFeature,
    /// The feature, placed at the given point, reaches beyond the raster.
    FeatureOutOfBounds,
    /// The top-left corner of a rectangle lies outside the raster.
    StartPointOutOfBounds,
    /// The bottom-right corner of a rectangle lies outside the raster.
    EndPointOutOfBounds,
    /// A corner of a rectangle lies outside the raster.
    CoordinatesOutOfBounds,
    /// The cap on simultaneously live images is reached.
    TooManyImages,
}

impl ImageError {
    /// The error as a sentence for the caller.
    pub fn message(&self) -> (text: String)
        ensures
            match *self {
                ImageError::PixelOutOfBounds => text@ == "Pixel out of bounds"@,
                ImageError::EmptyFeature => text@ == "This feature has no pixels"@,
                ImageError::FeatureOutOfBounds => text@
                    == "Feature, when placed at the given top_left point, extends beyond image boundaries."@,
                ImageError::StartPointOutOfBounds => text@
                    == "Start point is outside image boundaries."@,
                ImageError::EndPointOutOfBounds => text@
                    == "End point is outside image boundaries."@,
                ImageError::CoordinatesOutOfBounds => text@
                    == "Coordinates are outside image boundaries."@,
                ImageError::TooManyImages => text@ == "Too many images"@,
            },
    {
        match self {
            ImageError::PixelOutOfBounds => String::from_str("Pixel out of bounds"),
            ImageError::EmptyFeature => String::from_str("This feature has no pixels"),
            ImageError::FeatureOutOfBounds => String::from_str(
                "Feature, when placed at the given top_left point, extends beyond image boundaries.",
            ),
            ImageError::StartPointOutOfBounds => String::from_str(
                "Start point is outside image boundaries.",
            ),
            ImageError::EndPointOutOfBounds => String::from_str(
                "End point is outside image boundaries.",
            ),
            ImageError::CoordinatesOutOfBounds => String::from_str(
                "Coordinates are outside image boundaries.",
            ),
            ImageError::TooManyImages => String::from_str("Too many images"),
        }
    }
}

/// Packs the four channels of a colour into `0xRRGGBBAA`.
pub fn rgba_into_rgba_number(rgba: &Rgba) -> (number: u32)
    ensures
        number == pack_rgba(rgba.r, rgba.g, rgba.b, rgba.a),
{
    pack(rgba.r, rgba.g, rgba.b, rgba.a)
}

/// Splits `0xRRGGBBAA` into its four channels.
pub fn rgba_number_into_rgba(rgba_number: u32) -> (rgba: Rgba)
    ensures
        rgba.r as int == channel(rgba_number, 0),
        rgba.g as int == channel(rgba_number, 1),
        rgba.b as int == channel(rgba_number, 2),
        rgba.a as int == channel(rgba_number, 3),
        pack_rgba(rgba.r, rgba.g, rgba.b, rgba.a) == rgba_number,
{
    let r: u8 = ((rgba_number >> 24) & 0xFF) as u8;
    let g: u8 = ((rgba_number >> 16) & 0xFF) as u8;
    let b: u8 = ((rgba_number >> 8) & 0xFF) as u8;
    let a: u8 = (rgba_number & 0xFF) as u8;
    assert(((rgba_number >> 24) & 0xFF) == rgba_number / 0x100_0000) by (bit_vector);
    assert(((rgba_number >> 16) & 0xFF) == (rgba_number / 0x1_0000) % 0x100) by (bit_vector);
    assert(((rgba_number >> 8) & 0xFF) == (rgba_number / 0x100) % 0x100) by (bit_vector);
    assert((rgba_number & 0xFF) == rgba_number % 0x100) by (bit_vector);
    assert(rgba_number == (rgba_number / 0x100_0000) * 0x100_0000 + ((rgba_number / 0x1_0000)
        % 0x100) * 0x1_0000 + ((rgba_number / 0x100) % 0x100) * 0x100 + rgba_number % 0x100)
        by (bit_vector);
    Rgba { r, g, b, a }
}

fn pack(r: u8, g: u8, b: u8, a: u8) -> (number: u32)
    ensures
        number == pack_rgba(r, g, b, a),
        channel(number, 0) == r,
        channel(number, 1) == g,
        channel(number, 2) == b,
        channel(number, 3) == a,
{
    let number: u32 = ((r as u32) << 24) | ((g as u32) << 16) | ((b as u32) << 8) | (a as u32);
    assert(((r as u32) << 24) | ((g as u32) << 16) | ((b as u32) << 8) | (a as u32) == (r as u32)
        * 0x100_0000 + (g as u32) * 0x1_0000 + (b as u32) * 0x100 + (a as u32)) by (bit_vector);
    assert(number / 0x100_0000 == r as u32 && (number / 0x1_0000) % 0x100 == g as u32 && (number
        / 0x100) % 0x100 == b as u32 && number % 0x100 == a as u32) by (bit_vector)
        requires
            number == ((r as u32) << 24) | ((g as u32) << 16) | ((b as u32) << 8) | (a as u32),
    ;
    number
}

/// The squared Euclidean distance between two packed colours over red,
/// green and blue and, if `use_alpha`, alpha.
pub fn color_distance_squared(color1: u32, color2: u32, use_alpha: bool) -> (distance: u32)
    ensures
        distance == distance_squared(color1, color2, use_alpha),
        distance <= 4 * 255 * 255,
{
    let a = rgba_number_into_rgba(color1);
    let b = rgba_number_into_rgba(color2);
    let dr: i32 = a.r as i32 - b.r as i32;
    let dg: i32 = a.g as i32 - b.g as i32;
    let db: i32 = a.b as i32 - b.b as i32;
    let da: i32 = a.a as i32 - b.a as i32;
    assert(0 <= dr * dr <= 255 * 255 && 0 <= dg * dg <= 255 * 255 && 0 <= db * db <= 255 * 255
        && 0 <= da * da <= 255 * 255) by (nonlinear_arith)
        requires
            -255 <= dr <= 255,
            -255 <= dg <= 255,
            -255 <= db <= 255,
            -255 <= da <= 255,
    ;
    let colour: i32 = dr * dr + dg * dg + db * db;
    if use_alpha {
        (colour + da * da) as u32
    } else {
        colour as u32
    }
}

/// Whether two packed colours lie no further apart, alpha included, than
/// the squared distance `tolerance`.
pub fn colors_match(color1: u32, color2: u32, tolerance: i64) -> (matching: bool)
    ensures
        matching == model::colors_match(color1, color2, tolerance as int),
{
    color_distance_squared(color1, color2, true) as i64 <= tolerance
}

/// The tolerance that stands for the fraction `numerator / denominator` of
/// the largest possible colour distance, 510: two colours match under it
/// exactly if their distance does not exceed that fraction of 510.
pub fn color_tolerance_for(numerator: u32, denominator: u32) -> (tolerance: i64)
    requires
        denominator > 0,
    ensures
        0 <= tolerance <= 4 * 255 * 255,
        forall|c1: u32, c2: u32| #[trigger]
            model::colors_match(c1, c2, tolerance as int) <==> within_fraction(
                c1,
                c2,
                numerator as int,
                denominator as int,
            ),
{
    let n: u128 = numerator as u128;
    let d: u128 = denominator as u128;
    assert(n * n <= 0xFFFF_FFFF * 0xFFFF_FFFF && 0 < d * d <= 0xFFFF_FFFF * 0xFFFF_FFFF)
        by (nonlinear_arith)
        requires
            0 <= n <= 0xFFFF_FFFF,
            0 < d <= 0xFFFF_FFFF,
    ;
    let scaled: u128 = 260100 * (n * n);
    let whole: u128 = scaled / (d * d);
    let tolerance: i64 = if whole > 260100 {
        260100
    } else {
        whole as i64
    };
    proof {
        let dd = (d * d) as int;
        let s = scaled as int;
        let w = whole as int;
        vstd::arithmetic::div_mod::lemma_fundamental_div_mod(s, dd);
        vstd::arithmetic::div_mod::lemma_mod_bound(s, dd);
        assert forall|c1: u32, c2: u32| #[trigger]
            model::colors_match(c1, c2, tolerance as int) <==> within_fraction(
                c1,
                c2,
                numerator as int,
                denominator as int,
            ) by {
            let q = distance_squared(c1, c2, true);
            laws::lemma_distance_bounds(c1, c2);
            assert(510 * 510 == 260100);
            assert((q <= w) <==> (q * dd <= s)) by (nonlinear_arith)
                requires
                    dd > 0,
                    s == dd * w + s % dd,
                    0 <= s % dd < dd,
                    q >= 0,
            ;
        }
    }
    tolerance
}

/// The number of mismatches that stands for the fraction `numerator /
/// denominator` of `total` pixels: the fraction rounded to the nearest whole
/// number, halfway cases upwards, and held at `u32::MAX` where it would not
/// fit.
pub fn mismatch_budget_for(total: usize, numerator: u32, denominator: u32) -> (budget: u32)
    requires
        denominator > 0,
    ensures
        budget < u32::MAX ==> is_rounded_fraction(
            budget as int,
            total as int,
            numerator as int,
            denominator as int,
        ),
        budget == u32::MAX ==> 2 * denominator * (u32::MAX as int) <= 2 * total * numerator
            + denominator,
{
    let t: u128 = total as u128;
    let n: u128 = numerator as u128;
    let d: u128 = denominator as u128;
    assert(t * n <= 0xFFFF_FFFF_FFFF_FFFF * 0xFFFF_FFFF) by (nonlinear_arith)
        requires
            0 <= t <= 0xFFFF_FFFF_FFFF_FFFF,
            0 <= n <= 0xFFFF_FFFF,
    ;
    let doubled: u128 = 2 * (t * n) + d;
    let whole: u128 = doubled / (2 * d);
    proof {
        let dd = (2 * d) as int;
        let s = doubled as int;
        vstd::arithmetic::div_mod::lemma_fundamental_div_mod(s, dd);
        vstd::arithmetic::div_mod::lemma_mod_bound(s, dd);
        assert(dd * (whole as int) <= s < dd * (whole as int + 1)) by (nonlinear_arith)
            requires
                s == dd * (whole as int) + s % dd,
                0 <= s % dd < dd,
        ;
        assert(2 * (total * numerator) == 2 * total * numerator) by (nonlinear_arith);
        assert(dd * (whole as int) == 2 * denominator * (whole as int)) by (nonlinear_arith)
            requires
                dd == 2 * denominator,
        ;
        assert(dd * (whole as int + 1) == 2 * denominator * (whole as int + 1))
            by (nonlinear_arith)
            requires
                dd == 2 * denominator,
        ;
        if whole >= 0xFFFF_FFFF {
            assert(2 * denominator * (u32::MAX as int) <= 2 * denominator * (whole as int))
                by (nonlinear_arith)
                requires
                    whole >= 0xFFFF_FFFF,
                    denominator > 0,
            ;
        }
    }
    if whole >= 0xFFFF_FFFF {
        u32::MAX
    } else {
        whole as u32
    }
}

/// An immutable grid of RGBA pixels, row-major with the origin at the top
/// left.
#[derive(Debug, PartialEq, Eq)]
pub struct Image {
    data: Vec<u8>,
    width: u32,
    height: u32,
}

impl View for Image {
    type V = Raster;

    closed spec fn view(&self) -> Raster {
        raster_of_bytes(self.width as nat, self.height as nat, self.data@)
    }
}

impl Clone for Image {
    fn clone(&self) -> (copy: Self)
        ensures
            copy@ == self@,
    {
        proof {
            use_type_invariant(self);
        }
        let data = self.data.clone();
        assert(data@ =~= self.data@);
        Image { data, width: self.width, height: self.height }
    }
}

impl Image {
    #[verifier::type_invariant]
    spec fn holds_every_pixel(&self) -> bool {
        4 * (self.width * self.height) <= self.data@.len()
    }

    /// Wraps a buffer of red-green-blue-alpha bytes, four per pixel and row
    /// by row, as an image. The buffer must hold at least `width * height`
    /// pixels; what it holds beyond them is ignored.
    pub fn from_raw(width: u32, height: u32, data: Vec<u8>) -> (image: Option<Image>)
        ensures
            image is Some <==> 4 * (width * height) <= data@.len(),
            image matches Some(img) ==> img@ == raster_of_bytes(width as nat, height as nat, data@),
    {
        assert(width * height <= 0xFFFF_FFFF * 0xFFFF_FFFF) by (nonlinear_arith)
            requires
                0 <= width <= 0xFFFF_FFFF,
                0 <= height <= 0xFFFF_FFFF,
        ;
        let count: u64 = width as u64 * height as u64;
        if count <= (data.len() / 4) as u64 {
            Some(Image { data, width, height })
        } else {
            None
        }
    }

    /// Wraps a captured buffer in blue-green-red-alpha byte order as an
    /// image, exchanging the red and blue byte of every whole pixel.
    pub fn from_bgra(width: u32, height: u32, data: Vec<u8>) -> (image: Option<Image>)
        ensures
            image is Some <==> 4 * (width * height) <= data@.len(),
            image matches Some(img) ==> img@ == raster_of_bytes(
                width as nat,
                height as nat,
                swap_red_blue(data@),
            ),
    {
        let mut data = data;
        let ghost before = data@;
        let n: usize = data.len();
        let mut i: usize = 0;
        while n - i >= 4
            invariant
                i <= n,
                i % 4 == 0,
                data@.len() == n,
                n == before.len(),
                forall|j: int| 0 <= j < i ==> data@[j] == #[trigger] swap_red_blue(before)[j],
                forall|j: int| i <= j < n ==> data@[j] == before[j],
            decreases n - i,
        {
            let blue: u8 = data[i];
            let red: u8 = data[i + 2];
            data.set(i, red);
            data.set(i + 2, blue);
            i = i + 4;
        }
        assert(data@ =~= swap_red_blue(before));
        Image::from_raw(width, height, data)
    }

    pub fn width(&self) -> (width: u32)
        ensures
            width == self@.width,
    {
        self.width
    }

    pub fn height(&self) -> (height: u32)
        ensures
            height == self@.height,
    {
        self.height
    }

    /// The colour at column `x` of row `y`, packed as `0xRRGGBBAA`.
    pub fn get_pixel_rgba_sync(&self, x: u32, y: u32) -> (rgba: Result<u32, ImageError>)
        ensures
            self@.in_bounds(x as int, y as int) ==> rgba == Ok::<u32, ImageError>(
                self@.pixel(x as int, y as int),
            ),
            !self@.in_bounds(x as int, y as int) ==> rgba == Err::<u32, ImageError>(
                ImageError::PixelOutOfBounds,
            ),
    {
        if x < self.width && y < self.height {
            Ok(self.pixel(x, y))
        } else {
            Err(ImageError::PixelOutOfBounds)
        }
    }

    /// A task that reads the pixel at `(x, y)` from a copy of this image.
    pub fn get_pixel_rgba(&self, x: u32, y: u32) -> (task: AsyncGetPixelRgba)
        ensures
            task.x == x,
            task.y == y,
            task.rgba_image@ == self@,
    {
        AsyncGetPixelRgba::new(x, y, self.clone())
    }

    /// A task that searches a copy of this image for one exact colour.
    pub fn find_rgbas(&self, rgba_number: u32) -> (task: AsyncFindRgbas)
        ensures
            task.rgba_number == rgba_number,
            task.rgba_image@ == self@,
    {
        AsyncFindRgbas::new(rgba_number, self.clone())
    }

    /// A task that groups the pixels of one exact colour in a copy of this
    /// image into features.
    pub fn get_features_from_color(&self, rgba_number: u32) -> (task: AsyncGetFeaturesFromColor)
        ensures
            task.rgba_number == rgba_number,
            task.rgba_image@ == self@,
    {
        AsyncGetFeaturesFromColor::new(rgba_number, self.clone())
    }

    /// A task that searches a copy of this image for a feature.
    pub fn find_feature(
        &self,
        feature: Feature,
        color_tolerance: i64,
        max_mismatches: u32,
    ) -> (task: AsyncFindFeatures)
        ensures
            task.feature == feature,
            task.color_tolerance == color_tolerance,
            task.max_mismatches == max_mismatches,
            task.rgba_image@ == self@,
    {
        AsyncFindFeatures::new(feature, color_tolerance, max_mismatches, self.clone())
    }

    /// A task that scores a feature at `(x, y)` of a copy of this image.
    pub fn check_feature(&self, x: u32, y: u32, feature: Feature, color_tolerance: i64) -> (task:
        AsyncCheckFeature)
        ensures
            task.x == x,
            task.y == y,
            task.feature == feature,
            task.color_tolerance == color_tolerance,
            task.rgba_image@ == self@,
    {
        AsyncCheckFeature::new(x, y, feature, self.clone(), color_tolerance)
    }

    /// A task that extracts a rectangle of a copy of this image.
    pub fn get_feature(&self, start_x: u32, start_y: u32, end_x: u32, end_y: u32) -> (task:
        AsyncGetFeature)
        ensures
            task.start_x == start_x,
            task.start_y == start_y,
            task.end_x == end_x,
            task.end_y == end_y,
            task.rgba_image@ == self@,
    {
        AsyncGetFeature::new(start_x, start_y, end_x, end_y, self.clone())
    }

    /// A task that counts the colours in a rectangle of a copy of this
    /// image.
    pub fn get_colour_frequencies(
        &self,
        start_x: u32,
        start_y: u32,
        end_x: u32,
        end_y: u32,
    ) -> (task: AsyncGetColourFrequencies)
        ensures
            task.start_x == start_x,
            task.start_y == start_y,
            task.end_x == end_x,
            task.end_y == end_y,
            task.rgba_image@ == self@,
    {
        AsyncGetColourFrequencies::new(start_x, start_y, end_x, end_y, self.clone())
    }

    /// The view of every image is a well-formed raster.
    pub proof fn lemma_view_wf(&self)
        ensures
            self@.wf(),
    {
    }

    /// Every pixel whose colour equals `color` exactly, column by column: the
    /// order by `(x, y)`.
    fn find_sorted(&self, color: u32) -> (positions: Vec<Pixel>)
        ensures
            positions@ == self@.find_sorted(color),
    {
        let width = self.width();
        let height = self.height();
        let ghost raster = self@;
        let ghost all = raster.column_major();
        let ghost wanted = |p: Pixel| p.rgba == color;
        let mut positions: Vec<Pixel> = Vec::new();
        let mut x: u32 = 0;
        assert(all.take(0).filter(wanted) =~= Seq::<Pixel>::empty()) by {
            reveal(Seq::filter);
        }
        assert(all.len() == height * width) by (nonlinear_arith)
            requires
                all.len() == width * height,
        ;
        while x < width
            invariant
                x <= width,
                width == raster.width,
                height == raster.height,
                raster == self@,
                all == raster.column_major(),
                all.len() == height * width,
                wanted == (|p: Pixel| p.rgba == color),
                0 <= x * height <= all.len(),
                positions@ == all.take(x * height).filter(wanted),
            decreases width - x,
        {
            let mut y: u32 = 0;
            while y < height
                invariant
                    y <= height,
                    x < width,
                    width == raster.width,
                    height == raster.height,
                    raster == self@,
                    all == raster.column_major(),
                    all.len() == height * width,
                    wanted == (|p: Pixel| p.rgba == color),
                    0 <= x * height + y <= all.len(),
                    positions@ == all.take(x * height + y).filter(wanted),
                decreases height - y,
            {
                let rgba = self.pixel(x, y);
                proof {
                    lemma_grid_index(height as int, width as int, y as int, x as int);
                    lemma_filter_take_step(all, wanted, x * height + y);
                    assert(all[x * height + y] == Pixel { x, y, rgba });
                }
                if rgba == color {
                    positions.push(Pixel { x, y, rgba });
                }
                y = y + 1;
            }
            proof {
                assert((x + 1) * height == x * height + height) by (nonlinear_arith);
            }
            x = x + 1;
        }
        proof {
            assert(x * height == all.len()) by (nonlinear_arith)
                requires
                    x == width,
                    all.len() == height * width,
            ;
            assert(all.take(all.len() as int) =~= all);
        }
        positions
    }

    /// The pixels of a rectangle inside the image, row by row, with
    /// coordinates relative to its top-left corner.
    fn region(&self, left: u32, top: u32, right: u32, bottom: u32) -> (pixels: Vec<Pixel>)
        requires
            left <= right,
            top <= bottom,
            self@.in_bounds(right as int, bottom as int),
        ensures
            pixels@ == self@.region(left as int, top as int, right as int, bottom as int),
    {
        let ghost raster = self@;
        let ghost expected = raster.region(left as int, top as int, right as int, bottom as int);
        let ghost columns = right - left + 1;
        let ghost rows = bottom - top + 1;
        let mut pixels: Vec<Pixel> = Vec::new();
        let mut y: u32 = top;
        while y <= bottom
            invariant
                top <= y <= bottom + 1,
                left <= right,
                raster == self@,
                raster.in_bounds(right as int, bottom as int),
                expected == raster.region(left as int, top as int, right as int, bottom as int),
                columns == right - left + 1,
                rows == bottom - top + 1,
                0 <= (y - top) * columns <= expected.len(),
                pixels@ == expected.take((y - top) * columns),
            decreases bottom + 1 - y,
        {
            let mut x: u32 = left;
            while x <= right
                invariant
                    left <= x <= right + 1,
                    top <= y <= bottom,
                    raster == self@,
                    raster.in_bounds(right as int, bottom as int),
                    expected == raster.region(left as int, top as int, right as int, bottom as int),
                    columns == right - left + 1,
                    rows == bottom - top + 1,
                    0 <= (y - top) * columns + (x - left) <= expected.len(),
                    pixels@ == expected.take((y - top) * columns + (x - left)),
                decreases right + 1 - x,
            {
                let rgba = self.pixel(x, y);
                proof {
                    lemma_grid_index(columns, rows, x - left, y - top);
                    let k = (y - top) * columns + (x - left);
                    assert(expected[k] == Pixel { x: (x - left) as u32, y: (y - top) as u32, rgba });
                    assert(expected.take(k + 1) =~= expected.take(k).push(expected[k]));
                }
                pixels.push(Pixel { x: x - left, y: y - top, rgba });
                x = x + 1;
            }
            proof {
                assert((y + 1 - top) * columns == (y - top) * columns + columns)
                    by (nonlinear_arith);
            }
            y = y + 1;
        }
        proof {
            assert((y - top) * columns == expected.len()) by (nonlinear_arith)
                requires
                    y - top == rows,
                    expected.len() == columns * rows,
            ;
            assert(expected.take(expected.len() as int) =~= expected);
        }
        pixels
    }

    /// Counts the pixels of a feature that fail to match when the feature is
    /// placed at `(x, y)`, giving up once more than `budget` have failed.
    fn count_mismatches(
        &self,
        pixels: &Vec<Pixel>,
        left: u32,
        top: u32,
        x: u32,
        y: u32,
        tolerance: i64,
        budget: usize,
    ) -> (mismatches: usize)
        requires
            pixels@.len() > 0,
            left == least(xs(pixels@)),
            top == least(ys(pixels@)),
            self@.holds_feature_at(pixels@, x as int, y as int),
        ensures
            mismatches <= pixels@.len(),
            mismatches <= budget ==> mismatches == self@.mismatches_at(
                pixels@,
                x as int,
                y as int,
                tolerance as int,
            ),
            mismatches > budget ==> self@.mismatches_at(
                pixels@,
                x as int,
                y as int,
                tolerance as int,
            ) > budget,
    {
        let ghost raster = self@;
        let total: usize = pixels.len();
        let mut mismatches: usize = 0;
        let mut i: usize = 0;
        proof {
            lemma_least(xs(pixels@));
            lemma_least(ys(pixels@));
            lemma_greatest(xs(pixels@));
            lemma_greatest(ys(pixels@));
        }
        while i < total && mismatches <= budget
            invariant
                i <= total,
                total == pixels@.len(),
                raster == self@,
                left == least(xs(pixels@)),
                top == least(ys(pixels@)),
                raster.holds_feature_at(pixels@, x as int, y as int),
                forall|j: int| 0 <= j < total ==> left <= #[trigger] xs(pixels@)[j] <= greatest(xs(pixels@)),
                forall|j: int| 0 <= j < total ==> top <= #[trigger] ys(pixels@)[j] <= greatest(ys(pixels@)),
                mismatches == i - raster.matches_among(
                    pixels@,
                    i as int,
                    x as int,
                    y as int,
                    tolerance as int,
                ),
                0 <= mismatches <= i,
            decreases total - i,
        {
            let p = pixels[i];
            assert(xs(pixels@)[i as int] == p.x && ys(pixels@)[i as int] == p.y);
            let at_x: u32 = x + (p.x - left);
            let at_y: u32 = y + (p.y - top);
            assert(Raster::placed(pixels@, i as int, x as int, y as int) == (
                at_x as int,
                at_y as int,
            ));
            if !colors_match(p.rgba, self.pixel(at_x, at_y), tolerance) {
                mismatches = mismatches + 1;
            }
            i = i + 1;
        }
        proof {
            lemma_matches_among_grows(
                raster,
                pixels@,
                i as int,
                total as int,
                x as int,
                y as int,
                tolerance as int,
            );
        }
        mismatches
    }

    fn pixel(&self, x: u32, y: u32) -> (rgba: u32)
        requires
            self@.in_bounds(x as int, y as int),
        ensures
            rgba == self@.pixel(x as int, y as int),
    {
        let ghost len = self.data.len();
        proof {
            use_type_invariant(self);
            assert(y * self.width + x < self.width * self.height) by (nonlinear_arith)
                requires
                    0 <= x < self.width,
                    0 <= y < self.height,
            ;
            assert(y * self.width >= 0) by (nonlinear_arith)
                requires
                    0 <= y,
                    0 <= self.width,
            ;
        }
        let k: usize = y as usize * self.width as usize + x as usize;
        let at: usize = 4 * k;
        pack(self.data[at], self.data[at + 1], self.data[at + 2], self.data[at + 3])
    }
}

/// The most images that may be alive at one time.
pub const MAX_LIVE_IMAGES: usize = 20;

/// Counts the images that are alive, so that no more than
/// `MAX_LIVE_IMAGES` are. Whoever makes an image registers it here first
/// and releases it when the image is gone.
pub struct ImageRegistry {
    live: usize,
}

impl ImageRegistry {
    #[verifier::type_invariant]
    spec fn within_cap(&self) -> bool {
        self.live <= MAX_LIVE_IMAGES
    }

    /// The number of images that are alive.
    pub closed spec fn spec_live(&self) -> nat {
        self.live as nat
    }

    /// A registry without images.
    pub fn new() -> (registry: Self)
        ensures
            registry.spec_live() == 0,
    {
        ImageRegistry { live: 0 }
    }

    /// The number of images that are alive; never more than the cap.
    pub fn live(&self) -> (live: usize)
        ensures
            live == self.spec_live(),
            live <= MAX_LIVE_IMAGES,
    {
        proof {
            use_type_invariant(self);
        }
        self.live
    }

    /// Counts one more image as alive. Fails, and counts nothing, where the
    /// cap is reached.
    pub fn register(&mut self) -> (registered: Result<(), ImageError>)
        ensures
            old(self).spec_live() < MAX_LIVE_IMAGES ==> registered is Ok && final(self).spec_live()
                == old(self).spec_live() + 1,
            old(self).spec_live() >= MAX_LIVE_IMAGES ==> registered == Err::<(), ImageError>(
                ImageError::TooManyImages,
            ) && final(self).spec_live() == old(self).spec_live(),
    {
        if self.live < MAX_LIVE_IMAGES {
            self.live = self.live + 1;
            Ok(())
        } else {
            Err(ImageError::TooManyImages)
        }
    }

    /// Counts one image less as alive, if any is.
    pub fn release(&mut self)
        ensures
            old(self).spec_live() > 0 ==> final(self).spec_live() == old(self).spec_live() - 1,
            old(self).spec_live() == 0 ==> final(self).spec_live() == 0,
    {
        proof {
            use_type_invariant(&*self);
        }
        if self.live > 0 {
            self.live = self.live - 1;
        }
    }
}

/// Reads one pixel of an image.
pub struct AsyncGetPixelRgba {
    pub x: u32,
    pub y: u32,
    pub rgba_image: Image,
}

impl AsyncGetPixelRgba {
    pub fn new(x: u32, y: u32, rgba_image: Image) -> (task: Self)
        ensures
            task.x == x,
            task.y == y,
            task.rgba_image == rgba_image,
    {
        Self { x, y, rgba_image }
    }

    /// The colour at `(x, y)`, or `PixelOutOfBounds` if the image has no such
    /// pixel.
    pub fn compute(&self) -> (rgba: Result<u32, ImageError>)
        ensures
            self.rgba_image@.in_bounds(self.x as int, self.y as int) ==> rgba == Ok::<
                u32,
                ImageError,
            >(self.rgba_image@.pixel(self.x as int, self.y as int)),
            !self.rgba_image@.in_bounds(self.x as int, self.y as int) ==> rgba == Err::<
                u32,
                ImageError,
            >(ImageError::PixelOutOfBounds),
    {
        self.rgba_image.get_pixel_rgba_sync(self.x, self.y)
    }
}

/// Searches an image for every pixel of one exact colour.
pub struct AsyncFindRgbas {
    pub rgba_number: u32,
    pub rgba_image: Image,
}

impl AsyncFindRgbas {
    pub fn new(rgba_number: u32, rgba_image: Image) -> (task: Self)
        ensures
            task.rgba_number == rgba_number,
            task.rgba_image == rgba_image,
    {
        Self { rgba_number, rgba_image }
    }

    /// Every pixel whose colour equals `rgba_number` exactly, row by row.
    pub fn compute(&self) -> (positions: Vec<Pixel>)
        ensures
            positions@ == self.rgba_image@.find(self.rgba_number),
    {
        let image = &self.rgba_image;
        let color = self.rgba_number;
        let width = image.width();
        let height = image.height();
        let ghost raster = image@;
        let ghost all = raster.row_major();
        let ghost wanted = |p: Pixel| p.rgba == color;
        let mut positions: Vec<Pixel> = Vec::new();
        let mut y: u32 = 0;
        assert(all.take(0).filter(wanted) =~= Seq::<Pixel>::empty()) by {
            reveal(Seq::filter);
        }
        while y < height
            invariant
                y <= height,
                width == raster.width,
                height == raster.height,
                raster == image@,
                all == raster.row_major(),
                wanted == (|p: Pixel| p.rgba == color),
                0 <= y * width <= all.len(),
                positions@ == all.take(y * width).filter(wanted),
            decreases height - y,
        {
            let mut x: u32 = 0;
            while x < width
                invariant
                    x <= width,
                    y < height,
                    width == raster.width,
                    height == raster.height,
                    raster == image@,
                    all == raster.row_major(),
                    wanted == (|p: Pixel| p.rgba == color),
                    0 <= y * width + x <= all.len(),
                    positions@ == all.take(y * width + x).filter(wanted),
                decreases width - x,
            {
                let rgba = image.pixel(x, y);
                proof {
                    lemma_grid_index(width as int, height as int, x as int, y as int);
                    lemma_filter_take_step(all, wanted, y * width + x);
                    assert(all[y * width + x] == Pixel { x, y, rgba });
                }
                if rgba == color {
                    positions.push(Pixel { x, y, rgba });
                }
                x = x + 1;
            }
            proof {
                assert((y + 1) * width == y * width + width) by (nonlinear_arith);
            }
            y = y + 1;
        }
        proof {
            assert(y * width == all.len()) by (nonlinear_arith)
                requires
                    y == height,
                    all.len() == width * height,
            ;
            assert(all.take(all.len() as int) =~= all);
        }
        positions
    }
}

/// Groups the pixels of one exact colour into features.
pub struct AsyncGetFeaturesFromColor {
    pub rgba_number: u32,
    pub rgba_image: Image,
}

impl AsyncGetFeaturesFromColor {
    pub fn new(rgba_number: u32, rgba_image: Image) -> (task: Self)
        ensures
            task.rgba_number == rgba_number,
            task.rgba_image == rgba_image,
    {
        Self { rgba_number, rgba_image }
    }

    /// The pixels of colour `rgba_number`, taken in the order by `(x, y)`,
    /// each joined to the first group that has a member within five pixels
    /// of it, or else starting a group of its own. This single pass
    /// approximates connected blobs; it does not merge groups that a later
    /// pixel would connect.
    pub fn compute(&self) -> (features: Vec<Feature>)
        ensures
            pixels_of(features@) == self.rgba_image@.features_from_color(self.rgba_number),
    {
        let pixels = self.rgba_image.find_sorted(self.rgba_number);
        let mut features: Vec<Feature> = Vec::new();
        let mut k: usize = 0;
        assert(pixels_of(features@) =~= cluster(pixels@.take(0)));
        while k < pixels.len()
            invariant
                k <= pixels@.len(),
                pixels_of(features@) == cluster(pixels@.take(k as int)),
            decreases pixels@.len() - k,
        {
            let p = pixels[k];
            assert(pixels@.take(k + 1).drop_last() =~= pixels@.take(k as int));
            assert(pixels@.take(k + 1).last() == p);
            let ghost groups = pixels_of(features@);
            let mut at: usize = 0;
            while at < features.len() && !group_accepts(&features[at].pixels, p)
                invariant
                    at <= features@.len(),
                    groups == pixels_of(features@),
                    forall|j: int| 0 <= j < at ==> !accepts(#[trigger] groups[j], p),
                decreases features@.len() - at,
            {
                at = at + 1;
            }
            proof {
                lemma_first_accepting_skips(groups, p, 0, at as int);
            }
            if at < features.len() {
                features[at].pixels.push(p);
                assert(pixels_of(features@) =~= groups.update(at as int, groups[at as int].push(p)));
            } else {
                let mut members: Vec<Pixel> = Vec::new();
                members.push(p);
                features.push(Feature { pixels: members });
                assert(pixels_of(features@) =~= groups.push(seq![p]));
            }
            k = k + 1;
        }
        assert(pixels@.take(k as int) =~= pixels@);
        features
    }
}

/// Whether a pixel lies within the group radius of a member of the group.
fn group_accepts(group: &Vec<Pixel>, p: Pixel) -> (accepted: bool)
    ensures
        accepted == accepts(group@, p),
{
    let mut i: usize = 0;
    while i < group.len()
        invariant
            i <= group@.len(),
            forall|j: int| 0 <= j < i ==> !near(#[trigger] group@[j], p),
        decreases group@.len() - i,
    {
        if is_near(group[i], p) {
            return true;
        }
        i = i + 1;
    }
    false
}

/// Whether two pixels lie no further apart than the group radius.
fn is_near(a: Pixel, b: Pixel) -> (close: bool)
    ensures
        close == near(a, b),
{
    let dx: i64 = a.x as i64 - b.x as i64;
    let dy: i64 = a.y as i64 - b.y as i64;
    if dx < -5 || dx > 5 || dy < -5 || dy > 5 {
        assert(dx * dx + dy * dy > 25) by (nonlinear_arith)
            requires
                dx < -5 || dx > 5 || dy < -5 || dy > 5,
        ;
        false
    } else {
        assert(0 <= dx * dx <= 25 && 0 <= dy * dy <= 25) by (nonlinear_arith)
            requires
                -5 <= dx <= 5,
                -5 <= dy <= 5,
        ;
        dx * dx + dy * dy <= 25
    }
}

/// Searches an image for every place at which a feature matches.
pub struct AsyncFindFeatures {
    pub feature: Feature,
    /// The largest squared colour distance, alpha included, that still
    /// counts as a match. A negative value matches nothing.
    pub color_tolerance: i64,
    /// How many pixels of the feature may fail to match at a place that is
    /// still reported.
    pub max_mismatches: u32,
    pub rgba_image: Image,
}

impl AsyncFindFeatures {
    pub fn new(
        feature: Feature,
        color_tolerance: i64,
        max_mismatches: u32,
        rgba_image: Image,
    ) -> (task: Self)
        ensures
            task.feature == feature,
            task.color_tolerance == color_tolerance,
            task.max_mismatches == max_mismatches,
            task.rgba_image == rgba_image,
    {
        Self { feature, color_tolerance, max_mismatches, rgba_image }
    }

    /// Slides the bounding box of the feature over every place at which it
    /// lies inside the image, row by row, and reports each place at which no
    /// more than `max_mismatches` pixels of the feature fail to match, as the
    /// pixel of the image at the box's top-left corner. A feature without
    /// pixels, or one larger than the image, is found nowhere.
    pub fn compute(&self) -> (found: Vec<Pixel>)
        ensures
            found@ == self.rgba_image@.find_feature(
                self.feature@,
                self.color_tolerance as int,
                self.max_mismatches as int,
            ),
            self.feature@.len() == 0 ==> found@.len() == 0,
            feature_width(self.feature@) > self.rgba_image@.width || feature_height(self.feature@)
                > self.rgba_image@.height ==> found@.len() == 0,
    {
        let image = &self.rgba_image;
        let pixels = &self.feature.pixels;
        let tolerance = self.color_tolerance;
        let budget: usize = self.max_mismatches as usize;
        let mut found: Vec<Pixel> = Vec::new();
        if pixels.len() == 0 {
            return found;
        }
        let (left, top, right, bottom) = bounding_box(pixels);
        let box_width: u64 = (right - left) as u64 + 1;
        let box_height: u64 = (bottom - top) as u64 + 1;
        if box_width > image.width() as u64 || box_height > image.height() as u64 {
            return found;
        }
        let columns: u32 = image.width() - (right - left);
        let rows: u32 = image.height() - (bottom - top);
        let ghost raster = image@;
        let ghost all = raster.placements(pixels@);
        let ghost kept = |p: Pixel|
            raster.mismatches_at(pixels@, p.x as int, p.y as int, tolerance as int)
                <= self.max_mismatches as int;
        assert(all.take(0).filter(kept) =~= Seq::<Pixel>::empty()) by {
            reveal(Seq::filter);
        }
        let mut y: u32 = 0;
        while y < rows
            invariant
                y <= rows,
                pixels@.len() > 0,
                raster == image@,
                left == least(xs(pixels@)),
                top == least(ys(pixels@)),
                columns == raster.width - feature_width(pixels@) + 1,
                rows == raster.height - feature_height(pixels@) + 1,
                columns >= 1,
                budget == self.max_mismatches,
                all == raster.placements(pixels@),
                kept == (|p: Pixel|
                    raster.mismatches_at(pixels@, p.x as int, p.y as int, tolerance as int)
                        <= self.max_mismatches as int),
                0 <= y * columns <= all.len(),
                found@ == all.take(y * columns).filter(kept),
            decreases rows - y,
        {
            let mut x: u32 = 0;
            while x < columns
                invariant
                    x <= columns,
                    y < rows,
                    pixels@.len() > 0,
                    raster == image@,
                    left == least(xs(pixels@)),
                    top == least(ys(pixels@)),
                    columns == raster.width - feature_width(pixels@) + 1,
                    rows == raster.height - feature_height(pixels@) + 1,
                    budget == self.max_mismatches,
                    all == raster.placements(pixels@),
                    kept == (|p: Pixel|
                        raster.mismatches_at(pixels@, p.x as int, p.y as int, tolerance as int)
                            <= self.max_mismatches as int),
                    0 <= y * columns + x <= all.len(),
                    found@ == all.take(y * columns + x).filter(kept),
                decreases columns - x,
            {
                let mismatches = image.count_mismatches(pixels, left, top, x, y, tolerance, budget);
                let rgba = image.pixel(x, y);
                proof {
                    lemma_grid_index(columns as int, rows as int, x as int, y as int);
                    lemma_filter_take_step(all, kept, y * columns + x);
                    assert(all[y * columns + x] == Pixel { x, y, rgba });
                }
                if mismatches <= budget {
                    found.push(Pixel { x, y, rgba });
                }
                x = x + 1;
            }
            proof {
                assert((y + 1) * columns == y * columns + columns) by (nonlinear_arith);
            }
            y = y + 1;
        }
        proof {
            assert(y * columns == all.len()) by (nonlinear_arith)
                requires
                    y == rows,
                    all.len() == columns * rows,
            ;
            assert(all.take(all.len() as int) =~= all);
        }
        found
    }
}

/// Scores how well a feature matches an image at one given place.
pub struct AsyncCheckFeature {
    pub x: u32,
    pub y: u32,
    pub feature: Feature,
    /// The largest squared colour distance, alpha included, that still
    /// counts as a match. A negative value matches nothing.
    pub color_tolerance: i64,
    pub rgba_image: Image,
}

impl AsyncCheckFeature {
    pub fn new(x: u32, y: u32, feature: Feature, rgba_image: Image, color_tolerance: i64) -> (task:
        Self)
        ensures
            task.x == x,
            task.y == y,
            task.feature == feature,
            task.color_tolerance == color_tolerance,
            task.rgba_image == rgba_image,
    {
        Self { x, y, feature, color_tolerance, rgba_image }
    }

    /// How many pixels of the feature match the image when the top-left
    /// corner of the feature's bounding box is placed at `(x, y)`. Fails for
    /// a feature without pixels, and otherwise for one that reaches beyond
    /// the image from there.
    pub fn compute(&self) -> (score: Result<MatchScore, ImageError>)
        ensures
            self.feature@.len() == 0 ==> score == Err::<MatchScore, ImageError>(
                ImageError::EmptyFeature,
            ),
            self.feature@.len() > 0 && !self.rgba_image@.holds_feature_at(
                self.feature@,
                self.x as int,
                self.y as int,
            ) ==> score == Err::<MatchScore, ImageError>(ImageError::FeatureOutOfBounds),
            self.feature@.len() > 0 && self.rgba_image@.holds_feature_at(
                self.feature@,
                self.x as int,
                self.y as int,
            ) ==> score == Ok::<MatchScore, ImageError>(
                MatchScore {
                    matched: self.rgba_image@.matches_at(
                        self.feature@,
                        self.x as int,
                        self.y as int,
                        self.color_tolerance as int,
                    ) as usize,
                    total: self.feature@.len() as usize,
                },
            ),
            score matches Ok(s) ==> s.matched <= s.total && s.total > 0,
    {
        let image = &self.rgba_image;
        let pixels = &self.feature.pixels;
        let total: usize = pixels.len();
        if total == 0 {
            return Err(ImageError::EmptyFeature);
        }
        let (left, top, right, bottom) = bounding_box(pixels);
        let box_width: u64 = (right - left) as u64 + 1;
        let box_height: u64 = (bottom - top) as u64 + 1;
        if self.x as u64 + box_width > image.width() as u64 || self.y as u64 + box_height
            > image.height() as u64 {
            return Err(ImageError::FeatureOutOfBounds);
        }
        let matched = image.count_mismatches(
            pixels,
            left,
            top,
            self.x,
            self.y,
            self.color_tolerance,
            total,
        );
        proof {
            lemma_matches_among_grows(
                image@,
                pixels@,
                total as int,
                total as int,
                self.x as int,
                self.y as int,
                self.color_tolerance as int,
            );
        }
        Ok(MatchScore { matched: total - matched, total })
    }
}

/// The bounding box of some pixels: left, top, right, bottom.
fn bounding_box(pixels: &Vec<Pixel>) -> (sides: (u32, u32, u32, u32))
    requires
        pixels@.len() > 0,
    ensures
        sides.0 == least(xs(pixels@)),
        sides.1 == least(ys(pixels@)),
        sides.2 == greatest(xs(pixels@)),
        sides.3 == greatest(ys(pixels@)),
{
    let mut left: u32 = pixels[0].x;
    let mut top: u32 = pixels[0].y;
    let mut right: u32 = pixels[0].x;
    let mut bottom: u32 = pixels[0].y;
    let mut i: usize = 1;
    while i < pixels.len()
        invariant
            1 <= i <= pixels@.len(),
            left == least(xs(pixels@).take(i as int)),
            top == least(ys(pixels@).take(i as int)),
            right == greatest(xs(pixels@).take(i as int)),
            bottom == greatest(ys(pixels@).take(i as int)),
        decreases pixels@.len() - i,
    {
        let p = pixels[i];
        proof {
            assert(xs(pixels@).take(i + 1).drop_last() =~= xs(pixels@).take(i as int));
            assert(ys(pixels@).take(i + 1).drop_last() =~= ys(pixels@).take(i as int));
            assert(xs(pixels@).take(i + 1).last() == p.x);
            assert(ys(pixels@).take(i + 1).last() == p.y);
        }
        if p.x < left {
            left = p.x;
        }
        if p.y < top {
            top = p.y;
        }
        if p.x > right {
            right = p.x;
        }
        if p.y > bottom {
            bottom = p.y;
        }
        i = i + 1;
    }
    proof {
        assert(xs(pixels@).take(i as int) =~= xs(pixels@));
        assert(ys(pixels@).take(i as int) =~= ys(pixels@));
    }
    (left, top, right, bottom)
}

/// Extracts a rectangle of an image as a feature.
pub struct AsyncGetFeature {
    pub start_x: u32,
    pub start_y: u32,
    pub end_x: u32,
    pub end_y: u32,
    pub rgba_image: Image,
}

impl AsyncGetFeature {
    pub fn new(start_x: u32, start_y: u32, end_x: u32, end_y: u32, rgba_image: Image) -> (task:
        Self)
        ensures
            task.start_x == start_x,
            task.start_y == start_y,
            task.end_x == end_x,
            task.end_y == end_y,
            task.rgba_image == rgba_image,
    {
        Self { start_x, start_y, end_x, end_y, rgba_image }
    }

    /// The pixels of the rectangle spanned by the two corners, which may be
    /// given in any order, with coordinates relative to the rectangle's
    /// top-left corner. Fails if the top-left corner lies outside the image,
    /// and otherwise if the bottom-right corner does.
    pub fn compute(&self) -> (feature: Result<Feature, ImageError>)
        ensures
            !self.rgba_image@.in_bounds(
                min(self.start_x as int, self.end_x as int),
                min(self.start_y as int, self.end_y as int),
            ) ==> feature == Err::<Feature, ImageError>(ImageError::StartPointOutOfBounds),
            self.rgba_image@.in_bounds(
                min(self.start_x as int, self.end_x as int),
                min(self.start_y as int, self.end_y as int),
            ) && !self.rgba_image@.in_bounds(
                max(self.start_x as int, self.end_x as int),
                max(self.start_y as int, self.end_y as int),
            ) ==> feature == Err::<Feature, ImageError>(ImageError::EndPointOutOfBounds),
            self.rgba_image@.holds_rectangle(
                self.start_x as int,
                self.start_y as int,
                self.end_x as int,
                self.end_y as int,
            ) ==> feature is Ok && feature->Ok_0@ == self.rgba_image@.get_feature(
                self.start_x as int,
                self.start_y as int,
                self.end_x as int,
                self.end_y as int,
            ),
    {
        let image = &self.rgba_image;
        let left: u32 = if self.start_x <= self.end_x { self.start_x } else { self.end_x };
        let right: u32 = if self.start_x <= self.end_x { self.end_x } else { self.start_x };
        let top: u32 = if self.start_y <= self.end_y { self.start_y } else { self.end_y };
        let bottom: u32 = if self.start_y <= self.end_y { self.end_y } else { self.start_y };
        if left >= image.width() || top >= image.height() {
            return Err(ImageError::StartPointOutOfBounds);
        }
        if right >= image.width() || bottom >= image.height() {
            return Err(ImageError::EndPointOutOfBounds);
        }
        let pixels = image.region(left, top, right, bottom);
        Ok(Feature { pixels })
    }
}

/// Counts how often each colour occurs in a rectangle of an image.
pub struct AsyncGetColourFrequencies {
    pub start_x: u32,
    pub start_y: u32,
    pub end_x: u32,
    pub end_y: u32,
    pub rgba_image: Image,
}

impl AsyncGetColourFrequencies {
    pub fn new(start_x: u32, start_y: u32, end_x: u32, end_y: u32, rgba_image: Image) -> (task:
        Self)
        ensures
            task.start_x == start_x,
            task.start_y == start_y,
            task.end_x == end_x,
            task.end_y == end_y,
            task.rgba_image == rgba_image,
    {
        Self { start_x, start_y, end_x, end_y, rgba_image }
    }

    /// One entry for each colour in the rectangle spanned by the two corners,
    /// which may be given in any order, with the number of pixels of that
    /// colour; the entries stand in the order in which a row-by-row walk
    /// first meets their colours. A count that does not fit `u32` is held at
    /// `u32::MAX`. Fails if a corner lies outside the image.
    pub fn compute(&self) -> (frequencies: Result<Vec<ColourFrequency>, ImageError>)
        ensures
            !self.rgba_image@.holds_rectangle(
                self.start_x as int,
                self.start_y as int,
                self.end_x as int,
                self.end_y as int,
            ) ==> frequencies == Err::<Vec<ColourFrequency>, ImageError>(
                ImageError::CoordinatesOutOfBounds,
            ),
            self.rgba_image@.holds_rectangle(
                self.start_x as int,
                self.start_y as int,
                self.end_x as int,
                self.end_y as int,
            ) ==> frequencies is Ok && frequencies->Ok_0@ == self.rgba_image@.colour_frequencies(
                self.start_x as int,
                self.start_y as int,
                self.end_x as int,
                self.end_y as int,
            ),
    {
        let image = &self.rgba_image;
        let left: u32 = if self.start_x <= self.end_x { self.start_x } else { self.end_x };
        let right: u32 = if self.start_x <= self.end_x { self.end_x } else { self.start_x };
        let top: u32 = if self.start_y <= self.end_y { self.start_y } else { self.end_y };
        let bottom: u32 = if self.start_y <= self.end_y { self.end_y } else { self.start_y };
        if left >= image.width() || top >= image.height() || right >= image.width() || bottom
            >= image.height() {
            return Err(ImageError::CoordinatesOutOfBounds);
        }
        let ghost raster = image@;
        let ghost colours = raster.region_colours(
            left as int,
            top as int,
            right as int,
            bottom as int,
        );
        let ghost columns = right - left + 1;
        let ghost rows = bottom - top + 1;
        let mut tally = Tally::new();
        let mut y: u32 = top;
        assert(colours.take(0) =~= Seq::<u32>::empty());
        while y <= bottom
            invariant
                top <= y <= bottom + 1,
                left <= right,
                raster == image@,
                raster.in_bounds(right as int, bottom as int),
                colours == raster.region_colours(left as int, top as int, right as int, bottom as int),
                columns == right - left + 1,
                rows == bottom - top + 1,
                0 <= (y - top) * columns <= colours.len(),
                tally.counts(colours.take((y - top) * columns)),
            decreases bottom + 1 - y,
        {
            let mut x: u32 = left;
            while x <= right
                invariant
                    left <= x <= right + 1,
                    top <= y <= bottom,
                    raster == image@,
                    raster.in_bounds(right as int, bottom as int),
                    colours == raster.region_colours(
                        left as int,
                        top as int,
                        right as int,
                        bottom as int,
                    ),
                    columns == right - left + 1,
                    rows == bottom - top + 1,
                    0 <= (y - top) * columns + (x - left) <= colours.len(),
                    tally.counts(colours.take((y - top) * columns + (x - left))),
                decreases right + 1 - x,
            {
                let rgba = image.pixel(x, y);
                let ghost k = (y - top) * columns + (x - left);
                proof {
                    lemma_grid_index(columns, rows, x - left, y - top);
                    assert(colours[k] == rgba);
                    assert(colours.take(k + 1) =~= colours.take(k).push(rgba));
                }
                tally.add(rgba, Ghost(colours.take(k)));
                x = x + 1;
            }
            proof {
                assert((y + 1 - top) * columns == (y - top) * columns + columns)
                    by (nonlinear_arith);
            }
            y = y + 1;
        }
        proof {
            assert((y - top) * columns == colours.len()) by (nonlinear_arith)
                requires
                    y - top == rows,
                    colours.len() == columns * rows,
            ;
            assert(colours.take(colours.len() as int) =~= colours);
            assert(tally.entries@ =~= histogram(colours));
        }
        Ok(tally.entries)
    }
}

/// The colours met so far, each with its count, and where each stands.
struct Tally {
    entries: Vec<ColourFrequency>,
    index: HashMap<u32, usize>,
}

impl Tally {
    /// The entries are the histogram of `seen`, and the index finds each.
    spec fn counts(&self, seen: Seq<u32>) -> bool {
        &&& self.entries@.len() == distinct(seen).len()
        &&& forall|j: int|
            0 <= j < self.entries@.len() ==> #[trigger] self.entries@[j] == (ColourFrequency {
                rgba: distinct(seen)[j],
                count: saturated(occurrences(seen, distinct(seen)[j])),
            })
        &&& forall|c: u32| #[trigger] self.index@.contains_key(c) <==> distinct(seen).contains(c)
        &&& forall|c: u32| #[trigger]
            self.index@.contains_key(c) ==> 0 <= self.index@[c] < self.entries@.len() && distinct(
                seen,
            )[self.index@[c] as int] == c
    }

    fn new() -> (tally: Self)
        ensures
            tally.counts(Seq::empty()),
    {
        Tally { entries: Vec::new(), index: HashMap::new() }
    }

    fn add(&mut self, colour: u32, Ghost(seen): Ghost<Seq<u32>>)
        requires
            old(self).counts(seen),
        ensures
            final(self).counts(seen.push(colour)),
    {
        broadcast use vstd::std_specs::hash::group_hash_axioms;

        let ghost after = seen.push(colour);
        proof {
            assert(after.drop_last() =~= seen);
            lemma_distinct(seen);
            lemma_occurrences_positive(seen, colour);
            assert forall|c: u32| occurrences(after, c) == occurrences(seen, c) + if colour == c {
                1nat
            } else {
                0nat
            } by {
                lemma_occurrences_push(seen, colour, c);
            }
        }
        let place = self.index.get(&colour);
        match place {
            Some(at) => {
                let at: usize = *at;
                let entry = self.entries[at];
                let count: u32 = if entry.count < u32::MAX {
                    entry.count + 1
                } else {
                    entry.count
                };
                self.entries.set(at, ColourFrequency { rgba: colour, count });
                proof {
                    assert(distinct(after) == distinct(seen));
                    assert forall|j: int| 0 <= j < self.entries@.len() implies #[trigger] self.entries@[j]
                        == (ColourFrequency {
                        rgba: distinct(after)[j],
                        count: saturated(occurrences(after, distinct(after)[j])),
                    }) by {
                        if j != at {
                            assert(distinct(seen)[j] != colour);
                        }
                    }
                }
            },
            None => {
                let at: usize = self.entries.len();
                self.entries.push(ColourFrequency { rgba: colour, count: 1 });
                self.index.insert(colour, at);
                proof {
                    assert(distinct(after) == distinct(seen).push(colour));
                    assert(occurrences(seen, colour) == 0);
                    assert forall|c: u32| #[trigger]
                        self.index@.contains_key(c) <==> distinct(after).contains(c) by {
                        if distinct(after).contains(c) {
                            let i = choose|i: int|
                                0 <= i < distinct(after).len() && distinct(after)[i] == c;
                            if i < distinct(seen).len() {
                                assert(distinct(seen)[i] == c);
                            }
                        }
                        if self.index@.contains_key(c) && c != colour {
                            let i = choose|i: int|
                                0 <= i < distinct(seen).len() && distinct(seen)[i] == c;
                            assert(distinct(after)[i] == c);
                        }
                        if c == colour {
                            assert(distinct(after)[at as int] == c);
                        }
                    }
                }
            },
        }
    }
}

} // verus!
