use vstd::prelude::*;
use crate::bounds::{BoundingBox, alpha_box, calculate_alpha_bounding_box};
use crate::color::{ColorBucket, RuleSet, classify, classify_color};
use crate::edges::{calculate_edge_density, edge_density_of};
use crate::fraction::Fraction;
use crate::histogram::{ColorHistogram, calculate_color_histogram};
use crate::material::{
    Confidence, MaterialType, calculate_confidence, classify_material, confidence_of,
    dominant_of, material_of,
};
use crate::pixels::{HarvestError, dims_ok, validate_dimensions};
use crate::summary::{
    Rgb, calculate_transparency_ratio, channel_mean, get_dominant_color, transparency_of,
};

verus! {

/// Full description of one sprite buffer.
#[derive(Clone, Debug)]
pub struct MaterialDNA {
    pub alpha_bounding_box: BoundingBox,
    pub material_type: MaterialType,
    pub confidence: Confidence,
    pub color_profile: ColorHistogram,
    pub edge_density: Fraction,
    pub is_object: bool,
    pub dominant_color: Rgb,
    pub transparency_ratio: Fraction,
}

/// Material triage: classifies sprites by colour histogram and edge density.
#[derive(Clone, Copy, Debug)]
pub struct MaterialTriageEngine {
    /// Edge density above which a sprite is an object rather than a texture.
    pub edge_threshold: Fraction,
    /// Which colour rules classify the pixels.
    pub rules: RuleSet,
}

impl MaterialDNA {
    /// Whether this is the description of `px` under the given engine.
    pub open spec fn describes(
        &self,
        px: Seq<u8>,
        width: u32,
        height: u32,
        engine: MaterialTriageEngine,
    ) -> bool {
        &&& self.alpha_bounding_box@ == alpha_box(px, width, height)
        &&& self.color_profile.describes(px, width, height, engine.rules)
        &&& self.edge_density.wf()
        &&& (self.edge_density.num as int, self.edge_density.den as int) == edge_density_of(
            px,
            width,
            height,
        )
        &&& self.material_type == material_of(dominant_of(self.color_profile), self.edge_density)
        &&& (self.confidence.num as int, self.confidence.den as int) == confidence_of(
            self.color_profile,
            self.material_type,
        )
        &&& self.is_object == engine.edge_threshold.spec_lt(self.edge_density)
        &&& self.dominant_color.r == channel_mean(px, width, height, 0)
        &&& self.dominant_color.g == channel_mean(px, width, height, 1)
        &&& self.dominant_color.b == channel_mean(px, width, height, 2)
        &&& self.transparency_ratio.wf()
        &&& (self.transparency_ratio.num as int, self.transparency_ratio.den as int)
            == transparency_of(px, width, height)
    }
}

impl MaterialTriageEngine {
    /// Engine with the default edge threshold `1 / 5` and the full rule set.
    pub fn new() -> (e: MaterialTriageEngine)
        ensures
            e.edge_threshold == (Fraction { num: 1, den: 5 }),
            e.rules == RuleSet::Full,
    {
        MaterialTriageEngine { edge_threshold: Fraction { num: 1, den: 5 }, rules: RuleSet::Full }
    }

    /// Engine with an explicit edge threshold and rule set.
    pub fn with_config(edge_threshold: Fraction, rules: RuleSet) -> (e: MaterialTriageEngine)
        ensures
            e.edge_threshold == edge_threshold,
            e.rules == rules,
    {
        MaterialTriageEngine { edge_threshold, rules }
    }

    /// Classifies one RGB triple with this engine's rules.
    pub fn classify_color(&self, r: u8, g: u8, b: u8) -> (c: ColorBucket)
        ensures
            c == classify(r, g, b, self.rules),
    {
        classify_color(r, g, b, self.rules)
    }

    /// Describes a validated buffer.
    pub fn material_triage_internal(&self, pixels: &[u8], width: u32, height: u32) -> (d: MaterialDNA)
        requires
            dims_ok(pixels@, width, height),
        ensures
            d.describes(pixels@, width, height, *self),
    {
        let abb = calculate_alpha_bounding_box(pixels, width, height);
        let color_profile = calculate_color_histogram(pixels, width, height, self.rules);
        let edge_density = calculate_edge_density(pixels, width, height);
        let material_type = classify_material(&color_profile, edge_density);
        let confidence = calculate_confidence(&color_profile, material_type);
        let dominant_color = get_dominant_color(pixels, width, height);
        let transparency_ratio = calculate_transparency_ratio(pixels, width, height);
        let is_object = self.edge_threshold.lt(&edge_density);
        MaterialDNA {
            alpha_bounding_box: abb,
            material_type,
            confidence,
            color_profile,
            edge_density,
            is_object,
            dominant_color,
            transparency_ratio,
        }
    }

    /// Tight box around the opaque pixels, after checking the buffer length.
    pub fn get_alpha_bounding_box(&self, pixels: &[u8], width: u32, height: u32) -> (r: Result<BoundingBox, HarvestError>)
        ensures
            match r {
                Ok(b) => dims_ok(pixels@, width, height) && b@ == alpha_box(pixels@, width, height),
                Err(e) => !dims_ok(pixels@, width, height) && e == HarvestError::DimensionMismatch,
            },
    {
        match validate_dimensions(pixels, width, height) {
            Ok(()) => Ok(calculate_alpha_bounding_box(pixels, width, height)),
            Err(e) => Err(e),
        }
    }

    /// Colour histogram under this engine's rules, after checking the buffer length.
    pub fn get_color_histogram(&self, pixels: &[u8], width: u32, height: u32) -> (r: Result<ColorHistogram, HarvestError>)
        ensures
            match r {
                Ok(h) => dims_ok(pixels@, width, height) && h.describes(pixels@, width, height, self.rules),
                Err(e) => !dims_ok(pixels@, width, height) && e == HarvestError::DimensionMismatch,
            },
    {
        match validate_dimensions(pixels, width, height) {
            Ok(()) => Ok(calculate_color_histogram(pixels, width, height, self.rules)),
            Err(e) => Err(e),
        }
    }

    /// Edge density, after checking the buffer length.
    pub fn get_edge_density(&self, pixels: &[u8], width: u32, height: u32) -> (r: Result<Fraction, HarvestError>)
        ensures
            match r {
                Ok(f) => dims_ok(pixels@, width, height) && f.wf() && (f.num as int, f.den as int)
                    == edge_density_of(pixels@, width, height),
                Err(e) => !dims_ok(pixels@, width, height) && e == HarvestError::DimensionMismatch,
            },
    {
        match validate_dimensions(pixels, width, height) {
            Ok(()) => Ok(calculate_edge_density(pixels, width, height)),
            Err(e) => Err(e),
        }
    }

    /// Describes a buffer, after checking its length.
    pub fn analyze_sprite(&self, pixels: &[u8], width: u32, height: u32) -> (r: Result<MaterialDNA, HarvestError>)
        ensures
            match r {
                Ok(d) => dims_ok(pixels@, width, height) && d.describes(pixels@, width, height, *self),
                Err(e) => !dims_ok(pixels@, width, height) && e == HarvestError::DimensionMismatch,
            },
    {
        match validate_dimensions(pixels, width, height) {
            Ok(()) => Ok(self.material_triage_internal(pixels, width, height)),
            Err(e) => Err(e),
        }
    }
}

} // verus!
