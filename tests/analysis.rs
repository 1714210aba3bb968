use dgt_harvest::bounds::BoundingBox;
use dgt_harvest::color::{classify_color, ColorBucket, RuleSet};
use dgt_harvest::engine::MaterialTriageEngine;
use dgt_harvest::fraction::Fraction;
use dgt_harvest::material::{calculate_confidence, MaterialType};
use dgt_harvest::pixels::HarvestError;
use dgt_harvest::sprite::HarvestScanner;

fn buffer(pixels: &[(u8, u8, u8, u8)]) -> Vec<u8> {
    let mut out = Vec::new();
    for &(r, g, b, a) in pixels {
        out.push(r);
        out.push(g);
        out.push(b);
        out.push(a);
    }
    out
}

fn uniform(w: usize, h: usize, p: (u8, u8, u8, u8)) -> Vec<u8> {
    buffer(&vec![p; w * h])
}

fn same_value(f: Fraction, num: u64, den: u64) -> bool {
    (f.num as u128) * (den as u128) == (num as u128) * (f.den as u128)
}

#[test]
fn transparent_two_by_two() {
    let px = uniform(2, 2, (0, 0, 0, 0));
    let engine = MaterialTriageEngine::new();
    let bbox = engine.get_alpha_bounding_box(&px, 2, 2).unwrap();
    assert_eq!(bbox, BoundingBox { x: 2, y: 2, width: 0, height: 0 });
    let hist = engine.get_color_histogram(&px, 2, 2).unwrap();
    assert!(hist.is_empty());
    assert_eq!(hist.total, 0);
    let density = engine.get_edge_density(&px, 2, 2).unwrap();
    assert_eq!(density.num, 0);
    let dna = engine.analyze_sprite(&px, 2, 2).unwrap();
    assert!(same_value(dna.transparency_ratio, 1, 1));
    assert_eq!(dna.material_type, MaterialType::Unknown);
    assert!(same_value(Fraction { num: dna.confidence.num as u64, den: dna.confidence.den as u64 }, 1, 2));
}

#[test]
fn uniform_gray_is_stone() {
    let px = uniform(4, 4, (128, 128, 128, 255));
    let engine = MaterialTriageEngine::new();
    let dna = engine.analyze_sprite(&px, 4, 4).unwrap();
    assert_eq!((dna.dominant_color.r, dna.dominant_color.g, dna.dominant_color.b), (128, 128, 128));
    assert_eq!(dna.color_profile.count(ColorBucket::Stone), 16);
    assert_eq!(dna.color_profile.total, 16);
    let stone = dna.color_profile.frequency(ColorBucket::Stone).unwrap();
    assert!(same_value(stone, 1, 1));
    assert!(dna.color_profile.frequency(ColorBucket::Wood).is_none());
    assert_eq!(dna.edge_density.num, 0);
    assert_eq!(dna.material_type, MaterialType::Stone);
    assert_eq!(dna.material_type.to_string(), "stone");
    assert_eq!(dna.confidence.num, dna.confidence.den);
    assert_eq!(dna.transparency_ratio.num, 0);
    assert!(!dna.is_object);
    assert_eq!(dna.alpha_bounding_box, BoundingBox { x: 0, y: 0, width: 4, height: 4 });
}

#[test]
fn single_green_pixel_is_grass() {
    let px = buffer(&[(0, 160, 0, 255)]);
    assert_eq!(classify_color(0, 160, 0, RuleSet::Full), ColorBucket::Grass);
    let engine = MaterialTriageEngine::new();
    let hist = engine.get_color_histogram(&px, 1, 1).unwrap();
    assert_eq!(hist.count(ColorBucket::Grass), 1);
    assert_eq!(hist.total, 1);
    assert!(same_value(hist.frequency(ColorBucket::Grass).unwrap(), 1, 1));
    let dna = engine.analyze_sprite(&px, 1, 1).unwrap();
    assert_eq!(dna.material_type, MaterialType::Grass);
}

#[test]
fn clean_single_pixel_with_padding_one() {
    let mut pixels = vec![(10u8, 20u8, 30u8, 0u8); 25];
    pixels[2 * 5 + 2] = (200, 100, 50, 255);
    let px = buffer(&pixels);
    let scanner = HarvestScanner::new(None, None, None, None);
    let out = scanner.auto_clean_edges(&px, 5, 5, 1).unwrap();
    assert_eq!(out.len(), px.len());
    for y in 0..5usize {
        for x in 0..5usize {
            let i = (y * 5 + x) * 4;
            let inside = (1..=3).contains(&x) && (1..=3).contains(&y);
            if inside {
                assert_eq!(&out[i..i + 4], &px[i..i + 4]);
            } else {
                assert_eq!(&out[i..i + 4], &[0, 0, 0, 0]);
            }
        }
    }
    assert_eq!(px[0], 10);
}

#[test]
fn clean_without_padding_keeps_exact_box() {
    let mut pixels = vec![(9u8, 9u8, 9u8, 0u8); 16];
    pixels[1 * 4 + 1] = (1, 2, 3, 4);
    pixels[2 * 4 + 2] = (5, 6, 7, 8);
    pixels[1 * 4 + 2] = (7, 7, 7, 0);
    let px = buffer(&pixels);
    let scanner = HarvestScanner::new(None, None, None, None);
    let out = scanner.auto_clean_edges(&px, 4, 4, 0).unwrap();
    for y in 0..4usize {
        for x in 0..4usize {
            let i = (y * 4 + x) * 4;
            if (1..=2).contains(&x) && (1..=2).contains(&y) {
                assert_eq!(&out[i..i + 4], &px[i..i + 4]);
            } else {
                assert_eq!(&out[i..i + 4], &[0, 0, 0, 0]);
            }
        }
    }
}

#[test]
fn clean_twice_equals_clean_once() {
    let mut pixels = vec![(3u8, 4u8, 5u8, 0u8); 36];
    pixels[2 * 6 + 3] = (50, 60, 70, 255);
    pixels[4 * 6 + 4] = (80, 90, 100, 1);
    let px = buffer(&pixels);
    let scanner = HarvestScanner::new(None, None, None, None);
    for t in 0..4u32 {
        let once = scanner.auto_clean_edges(&px, 6, 6, t).unwrap();
        let twice = scanner.auto_clean_edges(&once, 6, 6, t).unwrap();
        assert_eq!(once, twice);
    }
}

#[test]
fn clean_with_large_padding_keeps_everything() {
    let mut pixels = vec![(3u8, 4u8, 5u8, 0u8); 9];
    pixels[4] = (1, 1, 1, 255);
    let px = buffer(&pixels);
    let scanner = HarvestScanner::new(None, None, None, None);
    let out = scanner.auto_clean_edges(&px, 3, 3, u32::MAX).unwrap();
    assert_eq!(out, px);
}

#[test]
fn clean_transparent_buffer_zeroes_all() {
    let px = uniform(3, 2, (7, 8, 9, 0));
    let scanner = HarvestScanner::new(None, None, None, None);
    let out = scanner.auto_clean_edges(&px, 3, 2, 0).unwrap();
    assert_eq!(out, vec![0u8; 24]);
}

#[test]
fn dimension_mismatch_everywhere() {
    let px = vec![0u8; 15];
    let engine = MaterialTriageEngine::new();
    assert_eq!(engine.get_alpha_bounding_box(&px, 2, 2), Err(HarvestError::DimensionMismatch));
    assert!(matches!(engine.get_color_histogram(&px, 2, 2), Err(HarvestError::DimensionMismatch)));
    assert_eq!(engine.get_edge_density(&px, 2, 2), Err(HarvestError::DimensionMismatch));
    assert!(matches!(engine.analyze_sprite(&px, 2, 2), Err(HarvestError::DimensionMismatch)));
    let scanner = HarvestScanner::new(None, None, None, None);
    assert!(matches!(scanner.analyze_sprite(&px, 2, 2), Err(HarvestError::DimensionMismatch)));
    assert_eq!(scanner.auto_clean_edges(&px, 2, 2, 1), Err(HarvestError::DimensionMismatch));
    assert_eq!(scanner.auto_clean_edges(&[0u8; 4], 0, 0, 1), Err(HarvestError::DimensionMismatch));
}

#[test]
fn empty_image_is_valid() {
    let engine = MaterialTriageEngine::new();
    let dna = engine.analyze_sprite(&[], 0, 0).unwrap();
    assert_eq!(dna.alpha_bounding_box, BoundingBox { x: 0, y: 0, width: 0, height: 0 });
    assert_eq!(dna.edge_density.num, 0);
    assert_eq!(dna.transparency_ratio.num, 0);
    let scanner = HarvestScanner::new(None, None, None, None);
    assert_eq!(scanner.auto_clean_edges(&[], 0, 3, 2).unwrap(), Vec::<u8>::new());
}

#[test]
fn bounding_box_of_two_pixels() {
    let mut pixels = vec![(0u8, 0u8, 0u8, 0u8); 20];
    pixels[1 * 5 + 3] = (1, 1, 1, 1);
    pixels[3 * 5 + 1] = (1, 1, 1, 200);
    let px = buffer(&pixels);
    let engine = MaterialTriageEngine::new();
    let bbox = engine.get_alpha_bounding_box(&px, 5, 4).unwrap();
    assert_eq!(bbox, BoundingBox { x: 1, y: 1, width: 3, height: 3 });
    assert!(!bbox.is_empty());
}

#[test]
fn classifier_rule_order() {
    assert_eq!(classify_color(120, 70, 40, RuleSet::Full), ColorBucket::Wood);
    assert_eq!(classify_color(120, 110, 100, RuleSet::Full), ColorBucket::Stone);
    assert_eq!(classify_color(10, 200, 50, RuleSet::Full), ColorBucket::Grass);
    assert_eq!(classify_color(10, 50, 200, RuleSet::Full), ColorBucket::Water);
    assert_eq!(classify_color(250, 100, 180, RuleSet::Full), ColorBucket::Metal);
    assert_eq!(classify_color(250, 220, 210, RuleSet::Full), ColorBucket::Glass);
    assert_eq!(classify_color(190, 185, 230, RuleSet::Full), ColorBucket::Water);
    assert_eq!(classify_color(160, 120, 50, RuleSet::Full), ColorBucket::Organic);
    assert_eq!(classify_color(160, 50, 50, RuleSet::Full), ColorBucket::Organic);
    assert_eq!(classify_color(60, 10, 90, RuleSet::Full), ColorBucket::Other);
    assert_eq!(classify_color(100, 100, 60, RuleSet::Full), ColorBucket::Wood);
    // The grey variance is 256 here, far from grey.
    assert_eq!(classify_color(0, 128, 0, RuleSet::Full), ColorBucket::Grass);
    assert_eq!(classify_color(0, 128, 0, RuleSet::Reduced), ColorBucket::Grass);
}

#[test]
fn reduced_rules_stop_after_water() {
    assert_eq!(classify_color(250, 100, 180, RuleSet::Reduced), ColorBucket::Other);
    assert_eq!(classify_color(160, 120, 50, RuleSet::Reduced), ColorBucket::Other);
    assert_eq!(classify_color(10, 50, 200, RuleSet::Reduced), ColorBucket::Water);
    let px = uniform(2, 1, (160, 120, 50, 255));
    let reduced = MaterialTriageEngine::with_config(Fraction::new(1, 5), RuleSet::Reduced);
    let dna = reduced.analyze_sprite(&px, 2, 1).unwrap();
    assert_eq!(dna.color_profile.count(ColorBucket::Other), 2);
    assert_eq!(dna.material_type, MaterialType::Unknown);
    let full = MaterialTriageEngine::new();
    let dna = full.analyze_sprite(&px, 2, 1).unwrap();
    assert_eq!(dna.material_type, MaterialType::Organic);
    assert!(same_value(Fraction { num: dna.confidence.num as u64, den: dna.confidence.den as u64 }, 1, 1));
}

#[test]
fn flat_water_stays_water() {
    let px = uniform(5, 5, (0, 0, 200, 255));
    let engine = MaterialTriageEngine::new();
    let dna = engine.analyze_sprite(&px, 5, 5).unwrap();
    assert_eq!(dna.edge_density.num, 0);
    assert_eq!(dna.material_type, MaterialType::Water);
    assert_eq!(dna.confidence.num, dna.confidence.den);
}

#[test]
fn edged_water_becomes_glass() {
    let mut pixels = vec![(0u8, 0u8, 200u8, 255u8); 25];
    pixels[12] = (0, 0, 0, 0);
    let px = buffer(&pixels);
    let engine = MaterialTriageEngine::new();
    let density = engine.get_edge_density(&px, 5, 5).unwrap();
    assert_eq!((density.num, density.den), (8, 25));
    let dna = engine.analyze_sprite(&px, 5, 5).unwrap();
    assert_eq!(dna.material_type, MaterialType::Glass);
    assert!(same_value(Fraction { num: dna.confidence.num as u64, den: dna.confidence.den as u64 }, 1, 2));
    assert!(dna.is_object);
    assert_eq!((dna.transparency_ratio.num, dna.transparency_ratio.den), (1, 25));
}

#[test]
fn edge_density_of_white_block() {
    let mut pixels = vec![(0u8, 0u8, 0u8, 0u8); 25];
    for y in 1..4 {
        for x in 1..4 {
            pixels[y * 5 + x] = (255, 255, 255, 255);
        }
    }
    let px = buffer(&pixels);
    let engine = MaterialTriageEngine::new();
    let density = engine.get_edge_density(&px, 5, 5).unwrap();
    assert_eq!((density.num, density.den), (8, 25));
    let thin = engine.get_edge_density(&uniform(2, 7, (255, 0, 0, 255)), 2, 7).unwrap();
    assert_eq!(thin.num, 0);
}

#[test]
fn confidence_boosts() {
    let engine = MaterialTriageEngine::new();
    let mut pixels = vec![(250u8, 100u8, 180u8, 255u8); 2];
    pixels.push((60, 10, 90, 255));
    pixels.push((60, 10, 90, 255));
    pixels.push((60, 10, 90, 255));
    let px = buffer(&pixels);
    let hist = engine.get_color_histogram(&px, 5, 1).unwrap();
    let metal = calculate_confidence(&hist, MaterialType::Metal);
    assert!(same_value(Fraction { num: metal.num as u64, den: metal.den as u64 }, 1, 2));
    let dna = engine.analyze_sprite(&px, 5, 1).unwrap();
    assert_eq!(dna.material_type, MaterialType::Unknown);
    let wood = calculate_confidence(&hist, MaterialType::Wood);
    assert_eq!((wood.num, wood.den), (1, 2));
    let px = buffer(&[(120, 70, 40, 255), (10, 50, 200, 255), (60, 10, 90, 255), (60, 10, 90, 255)]);
    let hist = engine.get_color_histogram(&px, 4, 1).unwrap();
    let wood = calculate_confidence(&hist, MaterialType::Wood);
    assert!(same_value(Fraction { num: wood.num as u64, den: wood.den as u64 }, 45, 100));
}

#[test]
fn dominant_tie_goes_to_earlier_bucket() {
    let px = buffer(&[(10, 50, 200, 255), (120, 70, 40, 255)]);
    let engine = MaterialTriageEngine::new();
    let dna = engine.analyze_sprite(&px, 2, 1).unwrap();
    assert_eq!(dna.material_type, MaterialType::Wood);
    assert!(same_value(Fraction { num: dna.confidence.num as u64, den: dna.confidence.den as u64 }, 7, 10));
}

#[test]
fn dominant_color_is_truncated_mean() {
    let px = buffer(&[(10, 20, 31, 255), (11, 21, 30, 1), (200, 200, 200, 0)]);
    let engine = MaterialTriageEngine::new();
    let dna = engine.analyze_sprite(&px, 3, 1).unwrap();
    assert_eq!((dna.dominant_color.r, dna.dominant_color.g, dna.dominant_color.b), (10, 20, 30));
    assert_eq!((dna.transparency_ratio.num, dna.transparency_ratio.den), (1, 3));
}

#[test]
fn opaque_buffer_has_zero_transparency() {
    let px = buffer(&[(1, 2, 3, 1), (4, 5, 6, 255), (7, 8, 9, 128), (0, 0, 0, 2)]);
    let dna = MaterialTriageEngine::new().analyze_sprite(&px, 2, 2).unwrap();
    assert_eq!(dna.transparency_ratio.num, 0);
}

#[test]
fn histogram_frequencies_sum_to_one() {
    let px = buffer(&[(120, 70, 40, 255), (10, 50, 200, 255), (60, 10, 90, 255), (0, 0, 0, 0), (0, 200, 0, 9)]);
    let hist = MaterialTriageEngine::new().get_color_histogram(&px, 5, 1).unwrap();
    let sum: u64 = [
        ColorBucket::Wood,
        ColorBucket::Stone,
        ColorBucket::Grass,
        ColorBucket::Water,
        ColorBucket::Metal,
        ColorBucket::Glass,
        ColorBucket::Organic,
        ColorBucket::Other,
    ]
    .iter()
    .map(|b| hist.count(*b))
    .sum();
    assert_eq!(sum, hist.total);
    assert_eq!(hist.total, 4);
    assert_eq!(ColorBucket::Organic.to_string(), "organic");
}

#[test]
fn confidence_stays_in_unit_range() {
    let engine = MaterialTriageEngine::new();
    let samples = [
        buffer(&[(120, 70, 40, 255)]),
        buffer(&[(0, 0, 0, 0)]),
        buffer(&[(250, 100, 180, 255)]),
        buffer(&[(250, 220, 210, 255)]),
    ];
    for px in samples.iter() {
        let dna = engine.analyze_sprite(px, 1, 1).unwrap();
        assert!(dna.confidence.den > 0);
        assert!(dna.confidence.num <= dna.confidence.den);
    }
}

#[test]
fn sprite_analysis_ratios_and_flags() {
    let mut pixels = Vec::new();
    for i in 0..25u8 {
        pixels.push((120, 70 + i, 40, 255));
    }
    let px = buffer(&pixels);
    let scanner = HarvestScanner::new(None, None, None, None);
    let a = scanner.analyze_sprite(&px, 5, 5).unwrap();
    assert!(same_value(a.chest_probability, 1, 1));
    assert!(a.is_chest);
    assert!(same_value(a.color_diversity, 1, 1));
    assert!(a.is_character);
    assert!(a.is_decoration);
    assert!(!a.is_material);
    assert_eq!(a.green_ratio.num, 0);
    assert_eq!((a.content_bounds.min_x, a.content_bounds.min_y), (0, 0));
    assert_eq!((a.content_bounds.max_x, a.content_bounds.max_y), (4, 4));
    assert_eq!(a.brown_gold_ratio, a.chest_probability);
}

#[test]
fn sprite_analysis_uniform_material() {
    let px = uniform(6, 2, (100, 100, 100, 255));
    let scanner = HarvestScanner::new(None, None, None, None);
    let a = scanner.analyze_sprite(&px, 6, 2).unwrap();
    assert!(same_value(a.gray_ratio, 1, 1));
    assert!(same_value(a.color_diversity, 1, 12));
    assert!(a.is_material);
    assert!(a.is_decoration);
    assert!(!a.is_character);
    assert!(!a.is_chest);
    let strict = HarvestScanner::new(None, None, Some(Fraction::new(1, 1)), None);
    let b = strict.analyze_sprite(&px, 6, 2).unwrap();
    assert!(b.is_decoration);
    let stricter = HarvestScanner::new(None, None, Some(Fraction::new(1, 1)), Some(Fraction::new(1, 2)));
    let c = stricter.analyze_sprite(&px, 6, 2).unwrap();
    assert!(c.is_decoration);
}

#[test]
fn decoration_limits_are_fixed() {
    let one = Some(Fraction::new(1, 1));
    let scanner = HarvestScanner::new(None, one, one, one);
    let a = scanner.analyze_sprite(&buffer(&[(100, 100, 100, 255)]), 1, 1).unwrap();
    assert!(same_value(a.color_diversity, 1, 1));
    assert!(a.is_decoration);
    // Diversity 2/40, no green, grey ratio 7/40: not a decoration,
    // whatever thresholds the scanner carries.
    let mut pixels = vec![(200u8, 100u8, 10u8, 255u8); 33];
    for _ in 0..7 {
        pixels.push((100, 100, 100, 255));
    }
    let px = buffer(&pixels);
    let b = HarvestScanner::new(None, None, None, None).analyze_sprite(&px, 8, 5).unwrap();
    assert!(same_value(b.color_diversity, 2, 40));
    assert!(same_value(b.gray_ratio, 7, 40));
    assert_eq!(b.green_ratio.num, 0);
    assert!(!b.is_decoration);
    let low = Some(Fraction::new(1, 100));
    let c = HarvestScanner::new(None, low, low, low).analyze_sprite(&px, 8, 5).unwrap();
    assert!(!c.is_decoration);
}

#[test]
fn sprite_analysis_empty() {
    let px = uniform(3, 3, (0, 0, 0, 0));
    let scanner = HarvestScanner::new(None, None, None, None);
    let a = scanner.analyze_sprite(&px, 3, 3).unwrap();
    assert_eq!(a.chest_probability.num, 0);
    assert!(!a.is_chest && !a.is_character && !a.is_decoration);
    assert!(a.is_material);
    assert_eq!((a.content_bounds.min_x, a.content_bounds.min_y, a.content_bounds.max_x, a.content_bounds.max_y), (3, 3, 0, 0));
}

#[test]
fn sprite_aspect_ratio_limits_character() {
    let mut pixels = Vec::new();
    for i in 0..30u8 {
        pixels.push((i, 2 * i, 100, 255));
    }
    let px = buffer(&pixels);
    let scanner = HarvestScanner::new(None, None, None, None);
    assert!(!scanner.analyze_sprite(&px, 15, 2).unwrap().is_character);
    assert!(scanner.analyze_sprite(&px, 6, 5).unwrap().is_character);
}

#[test]
fn scanner_default_thresholds() {
    let s = HarvestScanner::new(None, Some(Fraction::new(2, 7)), None, None);
    assert_eq!(s.chest_threshold, Fraction { num: 3, den: 10 });
    assert_eq!(s.green_threshold, Fraction { num: 2, den: 7 });
    assert_eq!(s.gray_threshold, Fraction { num: 3, den: 10 });
    assert_eq!(s.diversity_threshold, Fraction { num: 1, den: 20 });
    let e = MaterialTriageEngine::new();
    assert_eq!(e.edge_threshold, Fraction { num: 1, den: 5 });
    assert_eq!(e.rules, RuleSet::Full);
}
