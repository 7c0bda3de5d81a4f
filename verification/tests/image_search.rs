use desktop_automation::image::{
    color_distance_squared, color_tolerance_for, colors_match, mismatch_budget_for,
    rgba_into_rgba_number, rgba_number_into_rgba, AsyncCheckFeature, AsyncFindFeatures,
    AsyncFindRgbas, AsyncGetColourFrequencies, AsyncGetFeature, AsyncGetFeaturesFromColor,
    AsyncGetPixelRgba, ColourFrequency, Feature, Image, ImageError, ImageRegistry, MatchScore,
    Pixel, Rgba, MAX_LIVE_IMAGES,
};

const BLACK: u32 = 0x0000_00FF;
const WHITE: u32 = 0xFFFF_FFFF;
const RED: u32 = 0xFF00_00FF;
const GREEN: u32 = 0x00FF_00FF;
const BLUE: u32 = 0x0000_FFFF;

fn bytes_of(colours: &[u32]) -> Vec<u8> {
    let mut bytes = Vec::new();
    for c in colours {
        bytes.push((c >> 24) as u8);
        bytes.push((c >> 16) as u8);
        bytes.push((c >> 8) as u8);
        bytes.push(*c as u8);
    }
    bytes
}

fn image_of(width: u32, height: u32, colours: &[u32]) -> Image {
    Image::from_raw(width, height, bytes_of(colours)).unwrap()
}

fn black_with_red_dot() -> Image {
    let mut colours = vec![BLACK; 16];
    colours[2 * 4 + 2] = RED;
    image_of(4, 4, &colours)
}

/// An 8 x 8 raster in which every pixel has a colour of its own.
fn gradient() -> Image {
    let mut colours = Vec::new();
    for y in 0..8u32 {
        for x in 0..8u32 {
            colours.push((x << 24) | (y << 16) | ((x * 8 + y) << 8) | 0xFF);
        }
    }
    image_of(8, 8, &colours)
}

fn gradient_colour(x: u32, y: u32) -> u32 {
    (x << 24) | (y << 16) | ((x * 8 + y) << 8) | 0xFF
}

#[test]
fn red_dot_is_found_once() {
    let image = black_with_red_dot();
    let found = image.find_rgbas(RED).compute();
    assert_eq!(found, vec![Pixel { x: 2, y: 2, rgba: RED }]);
}

#[test]
fn red_dot_is_one_feature() {
    let image = black_with_red_dot();
    let features = image.get_features_from_color(RED).compute();
    assert_eq!(features, vec![Feature { pixels: vec![Pixel { x: 2, y: 2, rgba: RED }] }]);
}

#[test]
fn red_dot_histogram() {
    let image = black_with_red_dot();
    let frequencies = image.get_colour_frequencies(0, 0, 3, 3).compute().unwrap();
    assert_eq!(
        frequencies,
        vec![
            ColourFrequency { rgba: BLACK, count: 15 },
            ColourFrequency { rgba: RED, count: 1 },
        ]
    );
}

#[test]
fn exact_search_returns_every_match_row_by_row() {
    let image = image_of(3, 2, &[RED, BLACK, RED, BLACK, RED, WHITE]);
    let found = AsyncFindRgbas::new(RED, image.clone()).compute();
    assert_eq!(
        found,
        vec![
            Pixel { x: 0, y: 0, rgba: RED },
            Pixel { x: 2, y: 0, rgba: RED },
            Pixel { x: 1, y: 1, rgba: RED },
        ]
    );
    assert_eq!(AsyncFindRgbas::new(RED, image.clone()).compute(), found);
    assert_eq!(AsyncFindRgbas::new(GREEN, image).compute(), vec![]);
}

#[test]
fn exact_search_tells_alpha_apart() {
    let image = image_of(2, 1, &[0xFF00_00FF, 0xFF00_00FE]);
    let found = image.find_rgbas(0xFF00_00FE).compute();
    assert_eq!(found, vec![Pixel { x: 1, y: 0, rgba: 0xFF00_00FE }]);
}

#[test]
fn single_pixel_is_read() {
    let image = gradient();
    assert_eq!(image.get_pixel_rgba_sync(3, 5), Ok(gradient_colour(3, 5)));
    assert_eq!(AsyncGetPixelRgba::new(7, 0, image.clone()).compute(), Ok(gradient_colour(7, 0)));
    assert_eq!(image.get_pixel_rgba(0, 7).compute(), Ok(gradient_colour(0, 7)));
}

#[test]
fn single_pixel_outside_is_refused() {
    let image = gradient();
    assert_eq!(image.get_pixel_rgba_sync(8, 0), Err(ImageError::PixelOutOfBounds));
    assert_eq!(image.get_pixel_rgba_sync(0, 8), Err(ImageError::PixelOutOfBounds));
    assert_eq!(
        AsyncGetPixelRgba::new(u32::MAX, u32::MAX, image).compute(),
        Err(ImageError::PixelOutOfBounds)
    );
}

#[test]
fn raw_buffer_must_hold_every_pixel() {
    assert!(Image::from_raw(2, 2, vec![0; 15]).is_none());
    assert!(Image::from_raw(2, 2, vec![0; 16]).is_some());
    assert!(Image::from_raw(u32::MAX, u32::MAX, vec![0; 16]).is_none());
    let empty = Image::from_raw(0, 5, Vec::new()).unwrap();
    assert_eq!(empty.width(), 0);
    assert_eq!(empty.height(), 5);
    assert_eq!(empty.find_rgbas(BLACK).compute(), vec![]);
}

#[test]
fn raw_buffer_may_hold_more() {
    let mut bytes = bytes_of(&[RED, GREEN]);
    bytes.extend_from_slice(&[1, 2, 3]);
    let image = Image::from_raw(2, 1, bytes).unwrap();
    assert_eq!(image.get_pixel_rgba_sync(1, 0), Ok(GREEN));
    assert_eq!(image.get_pixel_rgba_sync(2, 0), Err(ImageError::PixelOutOfBounds));
}

#[test]
fn captured_bytes_swap_red_and_blue() {
    let image = Image::from_bgra(2, 1, vec![0x11, 0x22, 0x33, 0x44, 0xAA, 0xBB, 0xCC, 0xDD]).unwrap();
    assert_eq!(image.get_pixel_rgba_sync(0, 0), Ok(0x3322_1144));
    assert_eq!(image.get_pixel_rgba_sync(1, 0), Ok(0xCCBB_AADD));
    assert!(Image::from_bgra(2, 1, vec![0; 7]).is_none());
}

#[test]
fn colour_packs_and_unpacks() {
    let rgba = Rgba { r: 0x12, g: 0x34, b: 0x56, a: 0x78 };
    assert_eq!(rgba_into_rgba_number(&rgba), 0x1234_5678);
    assert_eq!(rgba_number_into_rgba(0x1234_5678), rgba);
    assert_eq!(rgba_number_into_rgba(0xFF00_00FF), Rgba { r: 255, g: 0, b: 0, a: 255 });
    assert_eq!(rgba_into_rgba_number(&rgba_number_into_rgba(0xDEAD_BEEF)), 0xDEAD_BEEF);
}

#[test]
fn colour_distance_is_the_sum_of_squares() {
    assert_eq!(color_distance_squared(BLACK, WHITE, true), 3 * 255 * 255);
    assert_eq!(color_distance_squared(0x0000_0000, WHITE, true), 4 * 255 * 255);
    assert_eq!(color_distance_squared(0x0000_0000, WHITE, false), 3 * 255 * 255);
    assert_eq!(color_distance_squared(0x0102_0304, 0x0406_0304, true), 9 + 16);
    assert_eq!(color_distance_squared(0x0102_0304, 0x0102_0309, true), 25);
    assert_eq!(color_distance_squared(0x0102_0304, 0x0102_0309, false), 0);
    assert_eq!(color_distance_squared(RED, RED, true), 0);
}

#[test]
fn colours_match_up_to_the_tolerance() {
    assert!(colors_match(0x0102_0304, 0x0406_0304, 25));
    assert!(!colors_match(0x0102_0304, 0x0406_0304, 24));
    assert!(colors_match(RED, RED, 0));
    assert!(!colors_match(RED, RED, -1));
    assert!(colors_match(0x0000_0000, WHITE, 260100));
    assert!(!colors_match(0x0000_0000, WHITE, 260099));
}

#[test]
fn tolerance_of_a_fraction() {
    assert_eq!(color_tolerance_for(0, 1), 0);
    assert_eq!(color_tolerance_for(1, 1), 260100);
    assert_eq!(color_tolerance_for(1, 10), 2601);
    assert_eq!(color_tolerance_for(1, 3), 28900);
    assert_eq!(color_tolerance_for(1, 7), 5308);
    assert_eq!(color_tolerance_for(5, 1), 260100);
    assert_eq!(color_tolerance_for(u32::MAX, u32::MAX), 260100);
}

#[test]
fn mismatch_budget_rounds_half_up() {
    assert_eq!(mismatch_budget_for(10, 1, 4), 3);
    assert_eq!(mismatch_budget_for(10, 1, 3), 3);
    assert_eq!(mismatch_budget_for(3, 1, 2), 2);
    assert_eq!(mismatch_budget_for(5, 1, 10), 1);
    assert_eq!(mismatch_budget_for(4, 1, 10), 0);
    assert_eq!(mismatch_budget_for(0, 1, 2), 0);
    assert_eq!(mismatch_budget_for(7, 0, 5), 0);
    assert_eq!(mismatch_budget_for(7, 1, 1), 7);
    assert_eq!(mismatch_budget_for(usize::MAX, u32::MAX, 1), u32::MAX);
}

#[test]
fn region_is_extracted_relative_to_its_corner() {
    let image = gradient();
    let feature = image.get_feature(2, 3, 3, 4).compute().unwrap();
    assert_eq!(
        feature,
        Feature {
            pixels: vec![
                Pixel { x: 0, y: 0, rgba: gradient_colour(2, 3) },
                Pixel { x: 1, y: 0, rgba: gradient_colour(3, 3) },
                Pixel { x: 0, y: 1, rgba: gradient_colour(2, 4) },
                Pixel { x: 1, y: 1, rgba: gradient_colour(3, 4) },
            ]
        }
    );
}

#[test]
fn corner_order_is_irrelevant() {
    let image = gradient();
    let forward = image.get_feature(1, 1, 5, 5).compute().unwrap();
    assert_eq!(image.get_feature(5, 5, 1, 1).compute().unwrap(), forward);
    assert_eq!(image.get_feature(1, 5, 5, 1).compute().unwrap(), forward);
    assert_eq!(image.get_feature(5, 1, 1, 5).compute().unwrap(), forward);
    assert_eq!(forward.pixels.len(), 25);
    let counted = image.get_colour_frequencies(1, 1, 5, 5).compute().unwrap();
    assert_eq!(image.get_colour_frequencies(5, 5, 1, 1).compute().unwrap(), counted);
}

#[test]
fn region_outside_is_refused() {
    let image = gradient();
    assert_eq!(
        AsyncGetFeature::new(8, 0, 9, 1, image.clone()).compute(),
        Err(ImageError::StartPointOutOfBounds)
    );
    assert_eq!(
        image.get_feature(0, 8, 1, 9).compute(),
        Err(ImageError::StartPointOutOfBounds)
    );
    assert_eq!(image.get_feature(0, 0, 8, 1).compute(), Err(ImageError::EndPointOutOfBounds));
    assert_eq!(image.get_feature(7, 8, 8, 7).compute(), Err(ImageError::EndPointOutOfBounds));
    assert_eq!(image.get_feature(3, 9, 2, 0).compute(), Err(ImageError::EndPointOutOfBounds));
    assert!(image.get_feature(7, 7, 7, 7).compute().is_ok());
}

#[test]
fn extracted_feature_is_found_where_it_came_from() {
    let image = gradient();
    let feature = image.get_feature(2, 3, 4, 6).compute().unwrap();
    let found = image.find_feature(feature, 0, 0).compute();
    assert_eq!(found, vec![Pixel { x: 2, y: 3, rgba: gradient_colour(2, 3) }]);
}

#[test]
fn extracted_feature_is_found_at_every_copy() {
    let image = black_with_red_dot();
    let feature = image.get_feature(0, 0, 1, 1).compute().unwrap();
    let found = image.find_feature(feature, 0, 0).compute();
    let expected: Vec<Pixel> = vec![(0, 0), (1, 0), (2, 0), (0, 1), (0, 2)]
        .into_iter()
        .map(|(x, y)| Pixel { x, y, rgba: BLACK })
        .collect();
    assert_eq!(found, expected);
    assert!(found.contains(&Pixel { x: 0, y: 0, rgba: BLACK }));
}

#[test]
fn extracted_feature_scores_full_where_it_came_from() {
    let image = gradient();
    let feature = image.get_feature(6, 5, 1, 2).compute().unwrap();
    let score = image.check_feature(1, 2, feature, 0).compute().unwrap();
    assert_eq!(score, MatchScore { matched: 24, total: 24 });
    assert_eq!(score.matched as f64 / score.total as f64, 1.0);
}

#[test]
fn score_counts_the_matching_pixels() {
    let image = image_of(2, 2, &[RED, GREEN, BLUE, WHITE]);
    let feature = Feature {
        pixels: vec![
            Pixel { x: 10, y: 20, rgba: RED },
            Pixel { x: 11, y: 20, rgba: RED },
            Pixel { x: 10, y: 21, rgba: BLUE },
            Pixel { x: 11, y: 21, rgba: BLACK },
        ],
    };
    let score = AsyncCheckFeature::new(0, 0, feature.clone(), image.clone(), 0).compute();
    assert_eq!(score, Ok(MatchScore { matched: 2, total: 4 }));
    let loose = image.check_feature(0, 0, feature.clone(), 260100).compute();
    assert_eq!(loose, Ok(MatchScore { matched: 4, total: 4 }));
    let none = image.check_feature(0, 0, feature, -1).compute();
    assert_eq!(none, Ok(MatchScore { matched: 0, total: 4 }));
}

#[test]
fn score_of_an_empty_feature_is_refused() {
    let image = gradient();
    let score = image.check_feature(0, 0, Feature { pixels: Vec::new() }, 0).compute();
    assert_eq!(score, Err(ImageError::EmptyFeature));
}

#[test]
fn score_beyond_the_raster_is_refused() {
    let image = gradient();
    let feature = image.get_feature(0, 0, 2, 2).compute().unwrap();
    assert!(image.check_feature(5, 5, feature.clone(), 0).compute().is_ok());
    assert_eq!(
        image.check_feature(6, 5, feature.clone(), 0).compute(),
        Err(ImageError::FeatureOutOfBounds)
    );
    assert_eq!(
        image.check_feature(5, 6, feature.clone(), 0).compute(),
        Err(ImageError::FeatureOutOfBounds)
    );
    assert_eq!(
        image.check_feature(u32::MAX, 0, feature, 0).compute(),
        Err(ImageError::FeatureOutOfBounds)
    );
    let wide = Feature {
        pixels: vec![Pixel { x: 0, y: 0, rgba: BLACK }, Pixel { x: u32::MAX, y: 0, rgba: BLACK }],
    };
    assert_eq!(image.check_feature(0, 0, wide, 0).compute(), Err(ImageError::FeatureOutOfBounds));
}

#[test]
fn empty_feature_is_found_nowhere() {
    let image = gradient();
    let found = image.find_feature(Feature { pixels: Vec::new() }, 260100, u32::MAX).compute();
    assert_eq!(found, vec![]);
}

#[test]
fn oversized_feature_is_found_nowhere() {
    let image = black_with_red_dot();
    let wide = Feature {
        pixels: vec![Pixel { x: 0, y: 0, rgba: BLACK }, Pixel { x: 4, y: 0, rgba: BLACK }],
    };
    let tall = Feature {
        pixels: vec![Pixel { x: 7, y: 3, rgba: BLACK }, Pixel { x: 7, y: 7, rgba: BLACK }],
    };
    let huge = Feature {
        pixels: vec![Pixel { x: 0, y: 0, rgba: BLACK }, Pixel { x: u32::MAX, y: u32::MAX, rgba: BLACK }],
    };
    assert_eq!(image.find_feature(wide, 260100, u32::MAX).compute(), vec![]);
    assert_eq!(image.find_feature(tall, 260100, u32::MAX).compute(), vec![]);
    assert_eq!(AsyncFindFeatures::new(huge, 260100, u32::MAX, image).compute(), vec![]);
}

#[test]
fn feature_as_large_as_the_raster_is_found_once() {
    let image = gradient();
    let feature = image.get_feature(0, 0, 7, 7).compute().unwrap();
    let found = image.find_feature(feature, 0, 0).compute();
    assert_eq!(found, vec![Pixel { x: 0, y: 0, rgba: gradient_colour(0, 0) }]);
}

#[test]
fn mismatch_budget_admits_imperfect_places() {
    let image = image_of(3, 1, &[RED, GREEN, RED]);
    let feature = Feature {
        pixels: vec![Pixel { x: 5, y: 5, rgba: RED }, Pixel { x: 6, y: 5, rgba: RED }],
    };
    assert_eq!(image.find_feature(feature.clone(), 0, 0).compute(), vec![]);
    assert_eq!(
        image.find_feature(feature.clone(), 0, 1).compute(),
        vec![Pixel { x: 0, y: 0, rgba: RED }, Pixel { x: 1, y: 0, rgba: GREEN }]
    );
    assert_eq!(
        image.find_feature(feature, 2 * 255 * 255, 0).compute(),
        vec![Pixel { x: 0, y: 0, rgba: RED }, Pixel { x: 1, y: 0, rgba: GREEN }]
    );
}

#[test]
fn colour_tolerance_admits_near_colours() {
    let image = image_of(2, 1, &[0x1010_10FF, 0x2020_20FF]);
    let feature = Feature { pixels: vec![Pixel { x: 0, y: 0, rgba: 0x1111_11FF }] };
    assert_eq!(image.find_feature(feature.clone(), 2, 0).compute(), vec![]);
    assert_eq!(
        image.find_feature(feature.clone(), 3, 0).compute(),
        vec![Pixel { x: 0, y: 0, rgba: 0x1010_10FF }]
    );
    assert_eq!(
        image.find_feature(feature, 3 * 15 * 15, 0).compute(),
        vec![Pixel { x: 0, y: 0, rgba: 0x1010_10FF }, Pixel { x: 1, y: 0, rgba: 0x2020_20FF }]
    );
}

#[test]
fn histogram_lists_colours_in_order_of_first_occurrence() {
    let image = image_of(3, 2, &[GREEN, RED, GREEN, BLUE, RED, GREEN]);
    let all = AsyncGetColourFrequencies::new(2, 1, 0, 0, image.clone()).compute().unwrap();
    assert_eq!(
        all,
        vec![
            ColourFrequency { rgba: GREEN, count: 3 },
            ColourFrequency { rgba: RED, count: 2 },
            ColourFrequency { rgba: BLUE, count: 1 },
        ]
    );
    let part = image.get_colour_frequencies(1, 0, 2, 1).compute().unwrap();
    assert_eq!(
        part,
        vec![ColourFrequency { rgba: RED, count: 2 }, ColourFrequency { rgba: GREEN, count: 2 }]
    );
}

#[test]
fn histogram_outside_is_refused() {
    let image = gradient();
    assert_eq!(
        image.get_colour_frequencies(0, 0, 8, 0).compute(),
        Err(ImageError::CoordinatesOutOfBounds)
    );
    assert_eq!(
        image.get_colour_frequencies(0, 9, 0, 0).compute(),
        Err(ImageError::CoordinatesOutOfBounds)
    );
    assert_eq!(
        image.get_colour_frequencies(8, 8, 9, 9).compute(),
        Err(ImageError::CoordinatesOutOfBounds)
    );
}

#[test]
fn pixels_group_by_nearness() {
    let mut colours = vec![BLACK; 20 * 3];
    for x in [0usize, 4, 8, 19] {
        colours[20 + x] = RED;
    }
    let image = image_of(20, 3, &colours);
    let features = AsyncGetFeaturesFromColor::new(RED, image).compute();
    assert_eq!(
        features,
        vec![
            Feature {
                pixels: vec![
                    Pixel { x: 0, y: 1, rgba: RED },
                    Pixel { x: 4, y: 1, rgba: RED },
                    Pixel { x: 8, y: 1, rgba: RED },
                ]
            },
            Feature { pixels: vec![Pixel { x: 19, y: 1, rgba: RED }] },
        ]
    );
}

#[test]
fn pixels_group_in_the_order_by_column() {
    let mut colours = vec![BLACK; 3 * 12];
    colours[0 * 3 + 1] = RED;
    colours[11 * 3 + 0] = RED;
    colours[6 * 3 + 2] = RED;
    let image = image_of(3, 12, &colours);
    let features = image.get_features_from_color(RED).compute();
    assert_eq!(
        features,
        vec![
            Feature { pixels: vec![Pixel { x: 0, y: 11, rgba: RED }] },
            Feature { pixels: vec![Pixel { x: 1, y: 0, rgba: RED }] },
            Feature { pixels: vec![Pixel { x: 2, y: 6, rgba: RED }] },
        ]
    );
}

#[test]
fn pixel_at_the_radius_joins_and_beyond_it_does_not() {
    let mut colours = vec![BLACK; 10 * 10];
    colours[0] = RED;
    colours[4 * 10 + 3] = RED;
    let near = image_of(10, 10, &colours).get_features_from_color(RED).compute();
    assert_eq!(near.len(), 1);
    let mut colours = vec![BLACK; 10 * 10];
    colours[0] = RED;
    colours[4 * 10 + 4] = RED;
    let far = image_of(10, 10, &colours).get_features_from_color(RED).compute();
    assert_eq!(far.len(), 2);
}

#[test]
fn no_pixel_of_the_colour_gives_no_feature() {
    let image = gradient();
    assert_eq!(image.get_features_from_color(WHITE).compute(), vec![]);
}

#[test]
fn registry_caps_the_live_images() {
    let mut registry = ImageRegistry::new();
    assert_eq!(MAX_LIVE_IMAGES, 20);
    for n in 0..20 {
        assert_eq!(registry.live(), n);
        assert_eq!(registry.register(), Ok(()));
    }
    assert_eq!(registry.register(), Err(ImageError::TooManyImages));
    assert_eq!(registry.live(), 20);
    registry.release();
    assert_eq!(registry.live(), 19);
    assert_eq!(registry.register(), Ok(()));
}

#[test]
fn registry_releases_no_more_than_it_holds() {
    let mut registry = ImageRegistry::new();
    registry.release();
    assert_eq!(registry.live(), 0);
    assert_eq!(registry.register(), Ok(()));
    registry.release();
    registry.release();
    assert_eq!(registry.live(), 0);
}

#[test]
fn image_error_has_a_sentence() {
    assert_eq!(ImageError::PixelOutOfBounds.message(), "Pixel out of bounds");
    assert_eq!(ImageError::EmptyFeature.message(), "This feature has no pixels");
    assert_eq!(
        ImageError::FeatureOutOfBounds.message(),
        "Feature, when placed at the given top_left point, extends beyond image boundaries."
    );
    assert_eq!(
        ImageError::StartPointOutOfBounds.message(),
        "Start point is outside image boundaries."
    );
    assert_eq!(ImageError::EndPointOutOfBounds.message(), "End point is outside image boundaries.");
    assert_eq!(
        ImageError::CoordinatesOutOfBounds.message(),
        "Coordinates are outside image boundaries."
    );
    assert_eq!(ImageError::TooManyImages.message(), "Too many images");
}
