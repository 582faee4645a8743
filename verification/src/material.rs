//! The material-extension slice of the schema.
//!
//! [`Material`] is the extension slot of a material: a fixed record of
//! optional extension payloads, one per supported extension key. Each payload
//! validates independently; numeric factors are constrained to the unit
//! interval per component.

use crate::checked::Checked;
use crate::path::{Path, StepView};
use crate::validation::{ErrorKind, ErrorView, Validate, ValidationError, error_views, report};
use crate::value::Value;
use crate::F64_ONE_BITS;
use vstd::prelude::*;

verus! {

/// The extension slot of a material: one optional payload per supported
/// extension key. An absent payload is omitted from the wire form entirely.
#[derive(Debug, PartialEq, Default)]
pub struct Material {
    /// Payload under the key `KHR_materials_pbrSpecularGlossiness`.
    pub pbr_specular_glossiness: Option<PbrSpecularGlossiness>,
    /// Payload under the key `KHR_materials_unlit`.
    pub unlit: Option<Unlit>,
    /// Payload under the key `EXT_pbr_attributes`.
    pub ext_pbr_attributes: Option<PbrAttributes>,
    /// Payload under the key `AA_shadow`.
    pub aa_shadow: Option<AAShadow>,
}

/// Parameter values of the metallic-roughness material model; no fields in
/// this slice.
#[derive(Debug, PartialEq, Default)]
pub struct PbrMetallicRoughness {}

/// The color space a vertex attribute is stored in. On the wire it reads
/// `"sRGB"` or `"linear"`, and only ever appears wrapped in a
/// [`Checked<ColorSpace>`].
#[derive(Clone, Copy, Debug, PartialEq, Eq)]
pub enum ColorSpace {
    SRGB,
    Linear,
}

/// A reference to a texture, as a collaborator of this slice: its contents
/// are carried through untouched and contribute no validation findings.
#[derive(Debug, PartialEq)]
pub struct TextureInfo(pub Value);

/// Opaque application-specific data, carried through untouched.
#[derive(Debug, PartialEq, Default)]
pub struct Extras(pub Option<Value>);

/// Payload of `EXT_pbr_attributes`: a checked color space plus up to six
/// attribute-name references. Every field is populated with its default when
/// absent from input.
#[derive(Debug, PartialEq)]
pub struct PbrAttributes {
    pub base_color_attrib_space: Checked<ColorSpace>,
    pub base_color_attrib: Option<String>,
    pub roughness_attrib: Option<String>,
    pub metallic_attrib: Option<String>,
    pub occlusion_attrib: Option<String>,
    pub emissive_attrib: Option<String>,
    pub shadow_attrib: Option<String>,
}

/// Payload of `AA_shadow`: an optional reference to a shadow texture.
#[derive(Debug, PartialEq, Default)]
pub struct AAShadow {
    pub shadow_texture: Option<TextureInfo>,
}

/// Payload of `KHR_materials_pbrSpecularGlossiness`.
#[derive(Debug, PartialEq)]
pub struct PbrSpecularGlossiness {
    /// The material's diffuse factor; default opaque white.
    pub diffuse_factor: PbrDiffuseFactor,
    /// The diffuse texture.
    pub diffuse_texture: Option<TextureInfo>,
    /// The material's specular factor; default white.
    pub specular_factor: PbrSpecularFactor,
    /// The glossiness of the material, expected in [0, 1].
    pub glossiness_factor: StrengthFactor,
    /// The specular-glossiness texture.
    pub specular_glossiness_texture: Option<TextureInfo>,
    /// Optional application specific data.
    pub extras: Extras,
}

/// The normal texture of a material; no fields in this slice.
#[derive(Debug, PartialEq, Default)]
pub struct NormalTexture {}

/// The occlusion texture of a material; no fields in this slice.
#[derive(Debug, PartialEq, Default)]
pub struct OcclusionTexture {}

/// The diffuse factor of a material: four color components, each the bit
/// pattern of an IEEE-754 binary64 number.
#[derive(Clone, Copy, Debug, PartialEq, Eq)]
pub struct PbrDiffuseFactor(pub [u64; 4]);

/// The specular factor of a material: three color components, each the bit
/// pattern of an IEEE-754 binary64 number.
#[derive(Clone, Copy, Debug, PartialEq, Eq)]
pub struct PbrSpecularFactor(pub [u64; 3]);

/// A scalar strength coefficient, as a binary64 bit pattern, expected in
/// [0, 1].
#[derive(Clone, Copy, Debug, PartialEq, Eq)]
pub struct StrengthFactor(pub u64);

/// Marks a primitive that should not be shaded with the PBR shading model.
#[derive(Debug, PartialEq, Default)]
pub struct Unlit {}

/// Whether `bits`, read as an IEEE-754 binary64 bit pattern, denotes a number
/// in the closed interval [0, 1].
///
/// A zero of either sign qualifies. For every other pattern the sign must be
/// plus and the pattern must not exceed that of one: non-negative finite
/// patterns order exactly as the numbers they denote, and every NaN pattern
/// lies above the pattern of infinity, so NaN is out of range here — the
/// deliberate reading of the range rule, rather than the one a float
/// comparison would silently give.
pub open spec fn spec_in_unit_interval(bits: u64) -> bool {
    bits & 0x7FFF_FFFF_FFFF_FFFF == 0 || (bits >> 63 == 0 && bits <= F64_ONE_BITS)
}

/// Runtime form of [`spec_in_unit_interval`].
pub fn in_unit_interval(bits: u64) -> (r: bool)
    ensures
        r == spec_in_unit_interval(bits),
{
    bits & 0x7FFF_FFFF_FFFF_FFFF == 0 || (bits >> 63 == 0 && bits <= F64_ONE_BITS)
}

impl Default for ColorSpace {
    /// The default color space is linear.
    fn default() -> (r: Self)
        ensures
            r == ColorSpace::Linear,
    {
        ColorSpace::Linear
    }
}

impl Default for PbrAttributes {
    /// Every field takes its absent-from-input form: the color space is a
    /// valid linear default, and no attribute name is bound.
    fn default() -> (r: Self)
        ensures
            r.base_color_attrib_space == Checked::Valid(ColorSpace::Linear),
            r.base_color_attrib is None,
            r.roughness_attrib is None,
            r.metallic_attrib is None,
            r.occlusion_attrib is None,
            r.emissive_attrib is None,
            r.shadow_attrib is None,
    {
        PbrAttributes {
            base_color_attrib_space: Checked::Valid(ColorSpace::Linear),
            base_color_attrib: None,
            roughness_attrib: None,
            metallic_attrib: None,
            occlusion_attrib: None,
            emissive_attrib: None,
            shadow_attrib: None,
        }
    }
}

impl Default for PbrDiffuseFactor {
    /// Opaque white: every component is one.
    fn default() -> (r: Self)
        ensures
            r.0@ == seq![F64_ONE_BITS, F64_ONE_BITS, F64_ONE_BITS, F64_ONE_BITS],
    {
        let r = PbrDiffuseFactor([F64_ONE_BITS, F64_ONE_BITS, F64_ONE_BITS, F64_ONE_BITS]);
        proof {
            assert(r.0@ =~= seq![F64_ONE_BITS, F64_ONE_BITS, F64_ONE_BITS, F64_ONE_BITS]);
        }
        r
    }
}

impl Default for PbrSpecularFactor {
    /// White: every component is one.
    fn default() -> (r: Self)
        ensures
            r.0@ == seq![F64_ONE_BITS, F64_ONE_BITS, F64_ONE_BITS],
    {
        let r = PbrSpecularFactor([F64_ONE_BITS, F64_ONE_BITS, F64_ONE_BITS]);
        proof {
            assert(r.0@ =~= seq![F64_ONE_BITS, F64_ONE_BITS, F64_ONE_BITS]);
        }
        r
    }
}

impl Default for StrengthFactor {
    /// Full strength: one.
    fn default() -> (r: Self)
        ensures
            r.0 == F64_ONE_BITS,
    {
        StrengthFactor(F64_ONE_BITS)
    }
}

impl Default for PbrSpecularGlossiness {
    /// Every field takes its absent-from-input form.
    fn default() -> (r: Self)
        ensures
            r.diffuse_factor.0@ == seq![F64_ONE_BITS, F64_ONE_BITS, F64_ONE_BITS, F64_ONE_BITS],
            r.diffuse_texture is None,
            r.specular_factor.0@ == seq![F64_ONE_BITS, F64_ONE_BITS, F64_ONE_BITS],
            r.glossiness_factor.0 == F64_ONE_BITS,
            r.specular_glossiness_texture is None,
            r.extras.0 is None,
    {
        PbrSpecularGlossiness {
            diffuse_factor: PbrDiffuseFactor::default(),
            diffuse_texture: None,
            specular_factor: PbrSpecularFactor::default(),
            glossiness_factor: StrengthFactor::default(),
            specular_glossiness_texture: None,
            extras: Extras(None),
        }
    }
}

/// A texture reference is a collaborator: it contributes no findings in this
/// slice.
impl Validate for TextureInfo {
    open spec fn spec_validate(&self, path: Seq<StepView>) -> Seq<ErrorView> {
        Seq::empty()
    }

    fn validate(&self, path: &mut Path, errors: &mut Vec<ValidationError>) {
        proof {
            assert(error_views(errors@) =~= error_views(errors@) + Seq::<ErrorView>::empty());
        }
    }
}

/// Opaque application data contributes no findings.
impl Validate for Extras {
    open spec fn spec_validate(&self, path: Seq<StepView>) -> Seq<ErrorView> {
        Seq::empty()
    }

    fn validate(&self, path: &mut Path, errors: &mut Vec<ValidationError>) {
        proof {
            assert(error_views(errors@) =~= error_views(errors@) + Seq::<ErrorView>::empty());
        }
    }
}

/// No fields, no findings.
impl Validate for Unlit {
    open spec fn spec_validate(&self, path: Seq<StepView>) -> Seq<ErrorView> {
        Seq::empty()
    }

    fn validate(&self, path: &mut Path, errors: &mut Vec<ValidationError>) {
        proof {
            assert(error_views(errors@) =~= error_views(errors@) + Seq::<ErrorView>::empty());
        }
    }
}

/// No fields, no findings.
impl Validate for PbrMetallicRoughness {
    open spec fn spec_validate(&self, path: Seq<StepView>) -> Seq<ErrorView> {
        Seq::empty()
    }

    fn validate(&self, path: &mut Path, errors: &mut Vec<ValidationError>) {
        proof {
            assert(error_views(errors@) =~= error_views(errors@) + Seq::<ErrorView>::empty());
        }
    }
}

/// No fields, no findings.
impl Validate for NormalTexture {
    open spec fn spec_validate(&self, path: Seq<StepView>) -> Seq<ErrorView> {
        Seq::empty()
    }

    fn validate(&self, path: &mut Path, errors: &mut Vec<ValidationError>) {
        proof {
            assert(error_views(errors@) =~= error_views(errors@) + Seq::<ErrorView>::empty());
        }
    }
}

/// No fields, no findings.
impl Validate for OcclusionTexture {
    open spec fn spec_validate(&self, path: Seq<StepView>) -> Seq<ErrorView> {
        Seq::empty()
    }

    fn validate(&self, path: &mut Path, errors: &mut Vec<ValidationError>) {
        proof {
            assert(error_views(errors@) =~= error_views(errors@) + Seq::<ErrorView>::empty());
        }
    }
}

/// A factor reports `OutOfRange` exactly once if any component falls outside
/// [0, 1] — on the first offending component, never once per component.
impl Validate for PbrDiffuseFactor {
    open spec fn spec_validate(&self, path: Seq<StepView>) -> Seq<ErrorView> {
        if exists|i: int| 0 <= i < 4 && !spec_in_unit_interval(self.0@[i]) {
            seq![ErrorView { path, kind: ErrorKind::OutOfRange }]
        } else {
            Seq::empty()
        }
    }

    fn validate(&self, path: &mut Path, errors: &mut Vec<ValidationError>) {
        if !in_unit_interval(self.0[0]) || !in_unit_interval(self.0[1]) || !in_unit_interval(
            self.0[2],
        ) || !in_unit_interval(self.0[3]) {
            report(path, ErrorKind::OutOfRange, errors);
            proof {
                assert(error_views(errors@) =~= error_views(old(errors)@) + self.spec_validate(
                    path@,
                ));
            }
        } else {
            proof {
                assert(forall|i: int| 0 <= i < 4 ==> spec_in_unit_interval(self.0@[i])) by {
                    assert(spec_in_unit_interval(self.0@[0]));
                    assert(spec_in_unit_interval(self.0@[1]));
                    assert(spec_in_unit_interval(self.0@[2]));
                    assert(spec_in_unit_interval(self.0@[3]));
                }
                assert(error_views(errors@) =~= error_views(errors@) + Seq::<ErrorView>::empty());
            }
        }
    }
}

/// Same one-finding-per-value policy as [`PbrDiffuseFactor`], over three
/// components.
impl Validate for PbrSpecularFactor {
    open spec fn spec_validate(&self, path: Seq<StepView>) -> Seq<ErrorView> {
        if exists|i: int| 0 <= i < 3 && !spec_in_unit_interval(self.0@[i]) {
            seq![ErrorView { path, kind: ErrorKind::OutOfRange }]
        } else {
            Seq::empty()
        }
    }

    fn validate(&self, path: &mut Path, errors: &mut Vec<ValidationError>) {
        if !in_unit_interval(self.0[0]) || !in_unit_interval(self.0[1]) || !in_unit_interval(
            self.0[2],
        ) {
            report(path, ErrorKind::OutOfRange, errors);
            proof {
                assert(error_views(errors@) =~= error_views(old(errors)@) + self.spec_validate(
                    path@,
                ));
            }
        } else {
            proof {
                assert(forall|i: int| 0 <= i < 3 ==> spec_in_unit_interval(self.0@[i])) by {
                    assert(spec_in_unit_interval(self.0@[0]));
                    assert(spec_in_unit_interval(self.0@[1]));
                    assert(spec_in_unit_interval(self.0@[2]));
                }
                assert(error_views(errors@) =~= error_views(errors@) + Seq::<ErrorView>::empty());
            }
        }
    }
}

/// A strength coefficient reports `OutOfRange` once if it falls outside
/// [0, 1].
impl Validate for StrengthFactor {
    open spec fn spec_validate(&self, path: Seq<StepView>) -> Seq<ErrorView> {
        if !spec_in_unit_interval(self.0) {
            seq![ErrorView { path, kind: ErrorKind::OutOfRange }]
        } else {
            Seq::empty()
        }
    }

    fn validate(&self, path: &mut Path, errors: &mut Vec<ValidationError>) {
        if !in_unit_interval(self.0) {
            report(path, ErrorKind::OutOfRange, errors);
            proof {
                assert(error_views(errors@) =~= error_views(old(errors)@) + self.spec_validate(
                    path@,
                ));
            }
        } else {
            proof {
                assert(error_views(errors@) =~= error_views(errors@) + Seq::<ErrorView>::empty());
            }
        }
    }
}

/// The checked color space is the only field with a rule; the six attribute
/// names are free-form strings and contribute no findings.
impl Validate for PbrAttributes {
    open spec fn spec_validate(&self, path: Seq<StepView>) -> Seq<ErrorView> {
        self.base_color_attrib_space.spec_validate(
            path.push(StepView::Field("baseColorAttribSpace"@)),
        )
    }

    fn validate(&self, path: &mut Path, errors: &mut Vec<ValidationError>) {
        path.push_field("baseColorAttribSpace");
        self.base_color_attrib_space.validate(path, errors);
        path.pop_step();
        proof {
            assert(path@ =~= old(path)@);
        }
    }
}

/// Recurses into the optional texture reference, which has no rules of its
/// own in this slice.
impl Validate for AAShadow {
    open spec fn spec_validate(&self, path: Seq<StepView>) -> Seq<ErrorView> {
        self.shadow_texture.spec_validate(path.push(StepView::Field("shadowTexture"@)))
    }

    fn validate(&self, path: &mut Path, errors: &mut Vec<ValidationError>) {
        path.push_field("shadowTexture");
        self.shadow_texture.validate(path, errors);
        path.pop_step();
        proof {
            assert(path@ =~= old(path)@);
        }
    }
}

/// Child fields are visited in declaration order, each under its wire name.
impl Validate for PbrSpecularGlossiness {
    open spec fn spec_validate(&self, path: Seq<StepView>) -> Seq<ErrorView> {
        self.diffuse_factor.spec_validate(path.push(StepView::Field("diffuseFactor"@)))
            + self.diffuse_texture.spec_validate(path.push(StepView::Field("diffuseTexture"@)))
            + self.specular_factor.spec_validate(path.push(StepView::Field("specularFactor"@)))
            + self.glossiness_factor.spec_validate(path.push(StepView::Field("glossinessFactor"@)))
            + self.specular_glossiness_texture.spec_validate(
            path.push(StepView::Field("specularGlossinessTexture"@)),
        ) + self.extras.spec_validate(path.push(StepView::Field("extras"@)))
    }

    fn validate(&self, path: &mut Path, errors: &mut Vec<ValidationError>) {
        path.push_field("diffuseFactor");
        self.diffuse_factor.validate(path, errors);
        path.pop_step();
        proof {
            assert(path@ =~= old(path)@);
        }
        path.push_field("diffuseTexture");
        self.diffuse_texture.validate(path, errors);
        path.pop_step();
        proof {
            assert(path@ =~= old(path)@);
        }
        path.push_field("specularFactor");
        self.specular_factor.validate(path, errors);
        path.pop_step();
        proof {
            assert(path@ =~= old(path)@);
        }
        path.push_field("glossinessFactor");
        self.glossiness_factor.validate(path, errors);
        path.pop_step();
        proof {
            assert(path@ =~= old(path)@);
        }
        path.push_field("specularGlossinessTexture");
        self.specular_glossiness_texture.validate(path, errors);
        path.pop_step();
        proof {
            assert(path@ =~= old(path)@);
        }
        path.push_field("extras");
        self.extras.validate(path, errors);
        path.pop_step();
        proof {
            assert(path@ =~= old(path)@);
            assert(error_views(errors@) =~= error_views(old(errors)@) + self.spec_validate(
                old(path)@,
            ));
        }
    }
}

/// Each present extension payload validates independently, under its own
/// extension key, in declaration order; absent slots contribute nothing.
impl Validate for Material {
    open spec fn spec_validate(&self, path: Seq<StepView>) -> Seq<ErrorView> {
        self.pbr_specular_glossiness.spec_validate(
            path.push(StepView::Field("KHR_materials_pbrSpecularGlossiness"@)),
        ) + self.unlit.spec_validate(path.push(StepView::Field("KHR_materials_unlit"@)))
            + self.ext_pbr_attributes.spec_validate(
            path.push(StepView::Field("EXT_pbr_attributes"@)),
        ) + self.aa_shadow.spec_validate(path.push(StepView::Field("AA_shadow"@)))
    }

    fn validate(&self, path: &mut Path, errors: &mut Vec<ValidationError>) {
        path.push_field("KHR_materials_pbrSpecularGlossiness");
        self.pbr_specular_glossiness.validate(path, errors);
        path.pop_step();
        proof {
            assert(path@ =~= old(path)@);
        }
        path.push_field("KHR_materials_unlit");
        self.unlit.validate(path, errors);
        path.pop_step();
        proof {
            assert(path@ =~= old(path)@);
        }
        path.push_field("EXT_pbr_attributes");
        self.ext_pbr_attributes.validate(path, errors);
        path.pop_step();
        proof {
            assert(path@ =~= old(path)@);
        }
        path.push_field("AA_shadow");
        self.aa_shadow.validate(path, errors);
        path.pop_step();
        proof {
            assert(path@ =~= old(path)@);
            assert(error_views(errors@) =~= error_views(old(errors)@) + self.spec_validate(
                old(path)@,
            ));
        }
    }
}


impl Material {
    /// Runs the whole validation walk over this material's extensions,
    /// returning every finding in order, with paths rooted at the material's
    /// own location.
    pub fn validate_all(&self) -> (r: Vec<ValidationError>)
        ensures
            error_views(r@) == self.spec_validate(Seq::<StepView>::empty()),
    {
        let mut path = Path::root();
        let mut errors: Vec<ValidationError> = Vec::new();
        self.validate(&mut path, &mut errors);
        proof {
            assert(error_views(errors@) =~= self.spec_validate(Seq::<StepView>::empty()));
        }
        errors
    }
}

/// Law: a `PbrAttributes` whose checked color space is `Invalid` yields
/// exactly one finding, at the `baseColorAttribSpace` field of its own
/// location, and a valid one yields none.
pub proof fn lemma_invalid_enumeration_reported_once(a: PbrAttributes, path: Seq<StepView>)
    requires
        a.base_color_attrib_space is Invalid,
    ensures
        a.spec_validate(path) == seq![
            ErrorView {
                path: path.push(StepView::Field("baseColorAttribSpace"@)),
                kind: ErrorKind::InvalidEnumeration,
            },
        ],
{
}

/// Law: a factor yields at most one finding however many components are out
/// of range, and yields none exactly when every component lies in [0, 1].
pub proof fn lemma_factor_one_finding_per_value(f: PbrDiffuseFactor, path: Seq<StepView>)
    ensures
        f.spec_validate(path).len() <= 1,
        f.spec_validate(path).len() == 0 <==> (forall|i: int|
            0 <= i < 4 ==> spec_in_unit_interval(f.0@[i])),
{
}

/// Law: the all-ones default factors and strength pass range validation.
pub proof fn lemma_default_factors_in_range(sg: PbrSpecularGlossiness, path: Seq<StepView>)
    requires
        sg.diffuse_factor.0@ == seq![F64_ONE_BITS, F64_ONE_BITS, F64_ONE_BITS, F64_ONE_BITS],
        sg.specular_factor.0@ == seq![F64_ONE_BITS, F64_ONE_BITS, F64_ONE_BITS],
        sg.glossiness_factor.0 == F64_ONE_BITS,
    ensures
        sg.spec_validate(path) == Seq::<ErrorView>::empty(),
{
    assert((0x3FF0_0000_0000_0000u64 >> 63) == 0) by (bit_vector);
    assert(spec_in_unit_interval(F64_ONE_BITS));
    assert(forall|i: int| 0 <= i < 4 ==> spec_in_unit_interval(sg.diffuse_factor.0@[i]));
    assert(forall|i: int| 0 <= i < 3 ==> spec_in_unit_interval(sg.specular_factor.0@[i]));
    assert(sg.spec_validate(path) =~= Seq::<ErrorView>::empty());
}

} // verus!
