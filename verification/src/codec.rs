//! Decoding structured wire values into schema types, and encoding them back.
//!
//! Decoding is lenient about enumeration values — an unrecognized string
//! becomes [`Checked::Invalid`] rather than a failure — and strict about
//! shape: a wire value of the wrong shape stops the decode with a
//! [`DecodeError`]. Unknown object keys are ignored everywhere, so documents
//! from a future schema still decode. Fields are examined in declaration
//! order, and the error reported is that of the first field (in that order)
//! whose value has the wrong shape.

use crate::checked::Checked;
use crate::material::{
    AAShadow, ColorSpace, Extras, Material, PbrAttributes, PbrDiffuseFactor,
    PbrSpecularGlossiness, PbrSpecularFactor, StrengthFactor, TextureInfo, Unlit,
};
use crate::value::{lookup, lookup_remove, str_eq, Value};
use crate::F64_ONE_BITS;
use vstd::prelude::*;

verus! {

/// Why a decode stopped: the wire value's shape did not match the field.
#[derive(Clone, Copy, Debug, PartialEq, Eq)]
pub enum DecodeError {
    ExpectedObject,
    ExpectedString,
    ExpectedNumber,
    ExpectedArray,
    WrongArrayLength,
}

// ---------------------------------------------------------------------------
// The color-space vocabulary.
// ---------------------------------------------------------------------------
/// The wire string of a recognized color space.
pub open spec fn spec_color_space_wire(c: ColorSpace) -> Seq<char> {
    match c {
        ColorSpace::SRGB => "sRGB"@,
        ColorSpace::Linear => "linear"@,
    }
}

/// What any wire string decodes to: a recognized string becomes `Valid`,
/// every other string becomes `Invalid` — never a failure.
pub open spec fn spec_checked_color_space(s: Seq<char>) -> Checked<ColorSpace> {
    if s == "sRGB"@ {
        Checked::Valid(ColorSpace::SRGB)
    } else if s == "linear"@ {
        Checked::Valid(ColorSpace::Linear)
    } else {
        Checked::Invalid
    }
}

/// The wire string a checked color space encodes to; meaningful for `Valid`
/// values only.
pub open spec fn spec_checked_color_space_wire(c: Checked<ColorSpace>) -> Seq<char>
    recommends
        c is Valid,
{
    match c {
        Checked::Valid(x) => spec_color_space_wire(x),
        Checked::Invalid => Seq::empty(),
    }
}

/// Decodes one wire string of the color-space vocabulary.
pub fn checked_color_space_from_str(s: &str) -> (r: Checked<ColorSpace>)
    ensures
        r == spec_checked_color_space(s@),
{
    if str_eq(s, "sRGB") {
        Checked::Valid(ColorSpace::SRGB)
    } else if str_eq(s, "linear") {
        Checked::Valid(ColorSpace::Linear)
    } else {
        Checked::Invalid
    }
}

/// The wire string of a recognized color space.
pub fn color_space_wire(c: &ColorSpace) -> (r: &'static str)
    ensures
        r@ == spec_color_space_wire(*c),
{
    match c {
        ColorSpace::SRGB => "sRGB",
        ColorSpace::Linear => "linear",
    }
}

/// Law: decoding is lenient — exactly the two vocabulary strings decode to
/// `Valid`, each to its matching variant, and every other string decodes to
/// `Invalid` rather than failing.
pub proof fn lemma_lenient_vocabulary(s: Seq<char>)
    ensures
        spec_checked_color_space(s) is Valid <==> (s == "sRGB"@ || s == "linear"@),
        s == "sRGB"@ ==> spec_checked_color_space(s) == Checked::Valid(ColorSpace::SRGB),
        s == "linear"@ && s != "sRGB"@ ==> spec_checked_color_space(s) == Checked::Valid(
            ColorSpace::Linear,
        ),
{
}

/// Law: for both vocabulary strings, decoding and re-encoding returns the
/// identical wire string.
pub proof fn lemma_color_space_round_trip(s: Seq<char>)
    requires
        s == "sRGB"@ || s == "linear"@,
    ensures
        spec_checked_color_space(s) is Valid,
        spec_checked_color_space_wire(spec_checked_color_space(s)) == s,
{
}

// ---------------------------------------------------------------------------
// Field-level decode relations.
// ---------------------------------------------------------------------------
/// Shape check of a checked color-space field: absent is fine, a string is
/// fine whatever it reads, anything else is a shape error.
pub open spec fn color_space_field_err(o: Option<Value>) -> Option<DecodeError> {
    match o {
        None => None,
        Some(v) => match v {
            Value::Str(_) => None,
            _ => Some(DecodeError::ExpectedString),
        },
    }
}

/// What a checked color-space field decodes to: its default when absent, the
/// lenient decode of the string when present.
pub open spec fn color_space_field_decodes(o: Option<Value>, c: Checked<ColorSpace>) -> bool {
    match o {
        None => c == Checked::<ColorSpace>::Valid(ColorSpace::Linear),
        Some(v) => match v {
            Value::Str(s) => c == spec_checked_color_space(s@),
            _ => false,
        },
    }
}

/// Shape check of an optional string field.
pub open spec fn opt_string_field_err(o: Option<Value>) -> Option<DecodeError> {
    match o {
        None => None,
        Some(v) => match v {
            Value::Str(_) => None,
            _ => Some(DecodeError::ExpectedString),
        },
    }
}

/// What an optional string field decodes to.
pub open spec fn opt_string_field_decodes(o: Option<Value>, r: Option<String>) -> bool {
    match o {
        None => r is None,
        Some(v) => match v {
            Value::Str(s) => r == Some(s),
            _ => false,
        },
    }
}

/// Shape check of a numeric factor field of `n` components: absent is fine,
/// else an array of exactly `n` numbers.
pub open spec fn factor_field_err(o: Option<Value>, n: int) -> Option<DecodeError> {
    match o {
        None => None,
        Some(v) => match v {
            Value::Arr(items) => if items@.len() != n {
                Some(DecodeError::WrongArrayLength)
            } else if exists|i: int| 0 <= i < n && !(items@[i] is Num) {
                Some(DecodeError::ExpectedNumber)
            } else {
                None
            },
            _ => Some(DecodeError::ExpectedArray),
        },
    }
}

/// What a four-component factor field decodes to: all ones when absent, else
/// the component bit patterns in order.
pub open spec fn factor4_field_decodes(o: Option<Value>, f: PbrDiffuseFactor) -> bool {
    match o {
        None => f.0@ == seq![F64_ONE_BITS, F64_ONE_BITS, F64_ONE_BITS, F64_ONE_BITS],
        Some(v) => match v {
            Value::Arr(items) => items@.len() == 4 && forall|i: int|
                0 <= i < 4 ==> ((#[trigger] items@[i]) matches Value::Num(b) && f.0@[i] == b),
            _ => false,
        },
    }
}

/// What a three-component factor field decodes to.
pub open spec fn factor3_field_decodes(o: Option<Value>, f: PbrSpecularFactor) -> bool {
    match o {
        None => f.0@ == seq![F64_ONE_BITS, F64_ONE_BITS, F64_ONE_BITS],
        Some(v) => match v {
            Value::Arr(items) => items@.len() == 3 && forall|i: int|
                0 <= i < 3 ==> ((#[trigger] items@[i]) matches Value::Num(b) && f.0@[i] == b),
            _ => false,
        },
    }
}

/// Shape check of a scalar strength field.
pub open spec fn strength_field_err(o: Option<Value>) -> Option<DecodeError> {
    match o {
        None => None,
        Some(v) => match v {
            Value::Num(_) => None,
            _ => Some(DecodeError::ExpectedNumber),
        },
    }
}

/// What a scalar strength field decodes to: one when absent, else the bit
/// pattern of the number.
pub open spec fn strength_field_decodes(o: Option<Value>, s: StrengthFactor) -> bool {
    match o {
        None => s.0 == F64_ONE_BITS,
        Some(v) => match v {
            Value::Num(b) => s.0 == b,
            _ => false,
        },
    }
}

/// What an opaque texture-reference field decodes to: the wire value carried
/// through untouched. Never a shape error: the reference is a collaborator's
/// to interpret.
pub open spec fn texture_field_decodes(o: Option<Value>, t: Option<TextureInfo>) -> bool {
    match o {
        None => t is None,
        Some(v) => t matches Some(ti) && ti.0 == v,
    }
}

/// What an opaque extras field decodes to: the wire value carried through.
pub open spec fn extras_field_decodes(o: Option<Value>, e: Extras) -> bool {
    match o {
        None => e.0 is None,
        Some(v) => e.0 matches Some(x) && x == v,
    }
}

// ---------------------------------------------------------------------------
// Field-level decoders.
// ---------------------------------------------------------------------------
fn decode_color_space_field(o: Option<Value>) -> (r: Result<Checked<ColorSpace>, DecodeError>)
    ensures
        r is Ok <==> color_space_field_err(o) is None,
        (r matches Ok(c) ==> color_space_field_decodes(o, c)),
        (r matches Err(e) ==> color_space_field_err(o) == Some(e)),
{
    match o {
        None => Ok(Checked::Valid(ColorSpace::Linear)),
        Some(v) => match v {
            Value::Str(s) => Ok(checked_color_space_from_str(s.as_str())),
            _ => Err(DecodeError::ExpectedString),
        },
    }
}

fn decode_opt_string_field(o: Option<Value>) -> (r: Result<Option<String>, DecodeError>)
    ensures
        r is Ok <==> opt_string_field_err(o) is None,
        (r matches Ok(x) ==> opt_string_field_decodes(o, x)),
        (r matches Err(e) ==> opt_string_field_err(o) == Some(e)),
{
    match o {
        None => Ok(None),
        Some(v) => match v {
            Value::Str(s) => Ok(Some(s)),
            _ => Err(DecodeError::ExpectedString),
        },
    }
}

fn decode_factor4_field(o: Option<Value>) -> (r: Result<PbrDiffuseFactor, DecodeError>)
    ensures
        r is Ok <==> factor_field_err(o, 4) is None,
        (r matches Ok(f) ==> factor4_field_decodes(o, f)),
        (r matches Err(e) ==> factor_field_err(o, 4) == Some(e)),
{
    match o {
        None => Ok(PbrDiffuseFactor::default()),
        Some(v) => match v {
            Value::Arr(items) => {
                if items.len() != 4 {
                    return Err(DecodeError::WrongArrayLength);
                }
                let b0 = match &items[0] {
                    Value::Num(b) => *b,
                    _ => {
                        return Err(DecodeError::ExpectedNumber);
                    },
                };
                let b1 = match &items[1] {
                    Value::Num(b) => *b,
                    _ => {
                        return Err(DecodeError::ExpectedNumber);
                    },
                };
                let b2 = match &items[2] {
                    Value::Num(b) => *b,
                    _ => {
                        return Err(DecodeError::ExpectedNumber);
                    },
                };
                let b3 = match &items[3] {
                    Value::Num(b) => *b,
                    _ => {
                        return Err(DecodeError::ExpectedNumber);
                    },
                };
                let f = PbrDiffuseFactor([b0, b1, b2, b3]);
                proof {
                    assert(f.0@ =~= seq![b0, b1, b2, b3]);
                    assert(forall|i: int|
                        0 <= i < 4 ==> ((#[trigger] items@[i]) matches Value::Num(b) && f.0@[i] == b)) by {
                        assert(items@[0] matches Value::Num(b) && f.0@[0] == b);
                        assert(items@[1] matches Value::Num(b) && f.0@[1] == b);
                        assert(items@[2] matches Value::Num(b) && f.0@[2] == b);
                        assert(items@[3] matches Value::Num(b) && f.0@[3] == b);
                    }
                }
                Ok(f)
            },
            _ => Err(DecodeError::ExpectedArray),
        },
    }
}

fn decode_factor3_field(o: Option<Value>) -> (r: Result<PbrSpecularFactor, DecodeError>)
    ensures
        r is Ok <==> factor_field_err(o, 3) is None,
        (r matches Ok(f) ==> factor3_field_decodes(o, f)),
        (r matches Err(e) ==> factor_field_err(o, 3) == Some(e)),
{
    match o {
        None => Ok(PbrSpecularFactor::default()),
        Some(v) => match v {
            Value::Arr(items) => {
                if items.len() != 3 {
                    return Err(DecodeError::WrongArrayLength);
                }
                let b0 = match &items[0] {
                    Value::Num(b) => *b,
                    _ => {
                        return Err(DecodeError::ExpectedNumber);
                    },
                };
                let b1 = match &items[1] {
                    Value::Num(b) => *b,
                    _ => {
                        return Err(DecodeError::ExpectedNumber);
                    },
                };
                let b2 = match &items[2] {
                    Value::Num(b) => *b,
                    _ => {
                        return Err(DecodeError::ExpectedNumber);
                    },
                };
                let f = PbrSpecularFactor([b0, b1, b2]);
                proof {
                    assert(f.0@ =~= seq![b0, b1, b2]);
                    assert(forall|i: int|
                        0 <= i < 3 ==> ((#[trigger] items@[i]) matches Value::Num(b) && f.0@[i] == b)) by {
                        assert(items@[0] matches Value::Num(b) && f.0@[0] == b);
                        assert(items@[1] matches Value::Num(b) && f.0@[1] == b);
                        assert(items@[2] matches Value::Num(b) && f.0@[2] == b);
                    }
                }
                Ok(f)
            },
            _ => Err(DecodeError::ExpectedArray),
        },
    }
}

fn decode_strength_field(o: Option<Value>) -> (r: Result<StrengthFactor, DecodeError>)
    ensures
        r is Ok <==> strength_field_err(o) is None,
        (r matches Ok(s) ==> strength_field_decodes(o, s)),
        (r matches Err(e) ==> strength_field_err(o) == Some(e)),
{
    match o {
        None => Ok(StrengthFactor(F64_ONE_BITS)),
        Some(v) => match v {
            Value::Num(b) => Ok(StrengthFactor(b)),
            _ => Err(DecodeError::ExpectedNumber),
        },
    }
}

fn decode_texture_field(o: Option<Value>) -> (r: Option<TextureInfo>)
    ensures
        texture_field_decodes(o, r),
{
    match o {
        None => None,
        Some(v) => Some(TextureInfo(v)),
    }
}

fn decode_extras_field(o: Option<Value>) -> (r: Extras)
    ensures
        extras_field_decodes(o, r),
{
    match o {
        None => Extras(None),
        Some(v) => Extras(Some(v)),
    }
}

// ---------------------------------------------------------------------------
// Whole-payload decode relations.
// ---------------------------------------------------------------------------
/// Whether every field of an `EXT_pbr_attributes` object has the right shape.
pub open spec fn attrs_fields_ok(ps: Seq<(String, Value)>) -> bool {
    &&& color_space_field_err(lookup(ps, "baseColorAttribSpace"@)) is None
    &&& opt_string_field_err(lookup(ps, "baseColorAttrib"@)) is None
    &&& opt_string_field_err(lookup(ps, "roughnessAttrib"@)) is None
    &&& opt_string_field_err(lookup(ps, "metallicAttrib"@)) is None
    &&& opt_string_field_err(lookup(ps, "occlusionAttrib"@)) is None
    &&& opt_string_field_err(lookup(ps, "emissiveAttrib"@)) is None
    &&& opt_string_field_err(lookup(ps, "shadowAttrib"@)) is None
}

/// The decode outcome of an `EXT_pbr_attributes` payload: every ill-shaped
/// field here is a non-string where a string was expected.
pub open spec fn attrs_err(v: Value) -> Option<DecodeError> {
    match v {
        Value::Obj(pairs) => if attrs_fields_ok(pairs@) {
            None
        } else {
            Some(DecodeError::ExpectedString)
        },
        _ => Some(DecodeError::ExpectedObject),
    }
}

/// How a decoded `PbrAttributes` relates to its wire object.
pub open spec fn attrs_decoding(v: Value, a: PbrAttributes) -> bool {
    v matches Value::Obj(pairs) && {
        &&& color_space_field_decodes(
            lookup(pairs@, "baseColorAttribSpace"@),
            a.base_color_attrib_space,
        )
        &&& opt_string_field_decodes(lookup(pairs@, "baseColorAttrib"@), a.base_color_attrib)
        &&& opt_string_field_decodes(lookup(pairs@, "roughnessAttrib"@), a.roughness_attrib)
        &&& opt_string_field_decodes(lookup(pairs@, "metallicAttrib"@), a.metallic_attrib)
        &&& opt_string_field_decodes(lookup(pairs@, "occlusionAttrib"@), a.occlusion_attrib)
        &&& opt_string_field_decodes(lookup(pairs@, "emissiveAttrib"@), a.emissive_attrib)
        &&& opt_string_field_decodes(lookup(pairs@, "shadowAttrib"@), a.shadow_attrib)
    }
}

impl PbrAttributes {
    /// Decodes the payload of `EXT_pbr_attributes`. Unknown keys are ignored;
    /// absent fields take their defaults; an unrecognized color-space string
    /// decodes to `Invalid` rather than failing.
    pub fn decode(v: Value) -> (r: Result<PbrAttributes, DecodeError>)
        ensures
            r is Ok <==> attrs_err(v) is None,
            (r matches Ok(a) ==> attrs_decoding(v, a)),
            (r matches Err(e) ==> attrs_err(v) == Some(e)),
    {
        let mut pairs = match v {
            Value::Obj(p) => p,
            _ => {
                return Err(DecodeError::ExpectedObject);
            },
        };
        proof {
            reveal_strlit("baseColorAttribSpace");
            reveal_strlit("baseColorAttrib");
            reveal_strlit("roughnessAttrib");
            reveal_strlit("metallicAttrib");
            reveal_strlit("occlusionAttrib");
            reveal_strlit("emissiveAttrib");
            reveal_strlit("shadowAttrib");
            assert("baseColorAttribSpace"@.len() == 20);
            assert("baseColorAttrib"@.len() == 15);
            assert("roughnessAttrib"@.len() == 15);
            assert("metallicAttrib"@.len() == 14);
            assert("occlusionAttrib"@.len() == 15);
            assert("emissiveAttrib"@.len() == 14);
            assert("shadowAttrib"@.len() == 12);
            assert("baseColorAttrib"@[0] == 'b');
            assert("roughnessAttrib"@[0] == 'r');
            assert("metallicAttrib"@[0] == 'm');
            assert("occlusionAttrib"@[0] == 'o');
            assert("emissiveAttrib"@[0] == 'e');
        }
        // each removal takes out only its own key, so every later field still
        // finds its first entry where the whole object had it
        let ghost entries = pairs@;
        let raw = lookup_remove(&mut pairs, "baseColorAttribSpace");
        proof {
            assert(lookup(pairs@, "baseColorAttrib"@) == lookup(entries, "baseColorAttrib"@));
            assert(lookup(pairs@, "roughnessAttrib"@) == lookup(entries, "roughnessAttrib"@));
            assert(lookup(pairs@, "metallicAttrib"@) == lookup(entries, "metallicAttrib"@));
            assert(lookup(pairs@, "occlusionAttrib"@) == lookup(entries, "occlusionAttrib"@));
            assert(lookup(pairs@, "emissiveAttrib"@) == lookup(entries, "emissiveAttrib"@));
            assert(lookup(pairs@, "shadowAttrib"@) == lookup(entries, "shadowAttrib"@));
        }
        let base_color_attrib_space = match decode_color_space_field(raw) {
            Ok(c) => c,
            Err(e) => {
                return Err(e);
            },
        };
        let raw = lookup_remove(&mut pairs, "baseColorAttrib");
        proof {
            assert(lookup(pairs@, "roughnessAttrib"@) == lookup(entries, "roughnessAttrib"@));
            assert(lookup(pairs@, "metallicAttrib"@) == lookup(entries, "metallicAttrib"@));
            assert(lookup(pairs@, "occlusionAttrib"@) == lookup(entries, "occlusionAttrib"@));
            assert(lookup(pairs@, "emissiveAttrib"@) == lookup(entries, "emissiveAttrib"@));
            assert(lookup(pairs@, "shadowAttrib"@) == lookup(entries, "shadowAttrib"@));
        }
        let base_color_attrib = match decode_opt_string_field(raw) {
            Ok(x) => x,
            Err(e) => {
                return Err(e);
            },
        };
        let raw = lookup_remove(&mut pairs, "roughnessAttrib");
        proof {
            assert(lookup(pairs@, "metallicAttrib"@) == lookup(entries, "metallicAttrib"@));
            assert(lookup(pairs@, "occlusionAttrib"@) == lookup(entries, "occlusionAttrib"@));
            assert(lookup(pairs@, "emissiveAttrib"@) == lookup(entries, "emissiveAttrib"@));
            assert(lookup(pairs@, "shadowAttrib"@) == lookup(entries, "shadowAttrib"@));
        }
        let roughness_attrib = match decode_opt_string_field(raw) {
            Ok(x) => x,
            Err(e) => {
                return Err(e);
            },
        };
        let raw = lookup_remove(&mut pairs, "metallicAttrib");
        proof {
            assert(lookup(pairs@, "occlusionAttrib"@) == lookup(entries, "occlusionAttrib"@));
            assert(lookup(pairs@, "emissiveAttrib"@) == lookup(entries, "emissiveAttrib"@));
            assert(lookup(pairs@, "shadowAttrib"@) == lookup(entries, "shadowAttrib"@));
        }
        let metallic_attrib = match decode_opt_string_field(raw) {
            Ok(x) => x,
            Err(e) => {
                return Err(e);
            },
        };
        let raw = lookup_remove(&mut pairs, "occlusionAttrib");
        proof {
            assert(lookup(pairs@, "emissiveAttrib"@) == lookup(entries, "emissiveAttrib"@));
            assert(lookup(pairs@, "shadowAttrib"@) == lookup(entries, "shadowAttrib"@));
        }
        let occlusion_attrib = match decode_opt_string_field(raw) {
            Ok(x) => x,
            Err(e) => {
                return Err(e);
            },
        };
        let raw = lookup_remove(&mut pairs, "emissiveAttrib");
        proof {
            assert(lookup(pairs@, "shadowAttrib"@) == lookup(entries, "shadowAttrib"@));
        }
        let emissive_attrib = match decode_opt_string_field(raw) {
            Ok(x) => x,
            Err(e) => {
                return Err(e);
            },
        };
        let raw = lookup_remove(&mut pairs, "shadowAttrib");
        let shadow_attrib = match decode_opt_string_field(raw) {
            Ok(x) => x,
            Err(e) => {
                return Err(e);
            },
        };
        Ok(
            PbrAttributes {
                base_color_attrib_space,
                base_color_attrib,
                roughness_attrib,
                metallic_attrib,
                occlusion_attrib,
                emissive_attrib,
                shadow_attrib,
            },
        )
    }
}

/// Whether every field of a `KHR_materials_pbrSpecularGlossiness` object has
/// the right shape; the two texture references and the extras are opaque and
/// always fine.
pub open spec fn sg_fields_ok(ps: Seq<(String, Value)>) -> bool {
    &&& factor_field_err(lookup(ps, "diffuseFactor"@), 4) is None
    &&& factor_field_err(lookup(ps, "specularFactor"@), 3) is None
    &&& strength_field_err(lookup(ps, "glossinessFactor"@)) is None
}

/// The decode outcome of a `KHR_materials_pbrSpecularGlossiness` payload: the
/// error of the first ill-shaped field in declaration order.
pub open spec fn sg_err(v: Value) -> Option<DecodeError> {
    match v {
        Value::Obj(pairs) => if factor_field_err(lookup(pairs@, "diffuseFactor"@), 4) is Some {
            factor_field_err(lookup(pairs@, "diffuseFactor"@), 4)
        } else if factor_field_err(lookup(pairs@, "specularFactor"@), 3) is Some {
            factor_field_err(lookup(pairs@, "specularFactor"@), 3)
        } else if strength_field_err(lookup(pairs@, "glossinessFactor"@)) is Some {
            strength_field_err(lookup(pairs@, "glossinessFactor"@))
        } else {
            None
        },
        _ => Some(DecodeError::ExpectedObject),
    }
}

/// How a decoded `PbrSpecularGlossiness` relates to its wire object.
pub open spec fn sg_decoding(v: Value, x: PbrSpecularGlossiness) -> bool {
    v matches Value::Obj(pairs) && {
        &&& factor4_field_decodes(lookup(pairs@, "diffuseFactor"@), x.diffuse_factor)
        &&& texture_field_decodes(lookup(pairs@, "diffuseTexture"@), x.diffuse_texture)
        &&& factor3_field_decodes(lookup(pairs@, "specularFactor"@), x.specular_factor)
        &&& strength_field_decodes(lookup(pairs@, "glossinessFactor"@), x.glossiness_factor)
        &&& texture_field_decodes(
            lookup(pairs@, "specularGlossinessTexture"@),
            x.specular_glossiness_texture,
        )
        &&& extras_field_decodes(lookup(pairs@, "extras"@), x.extras)
    }
}

impl PbrSpecularGlossiness {
    /// Decodes the payload of `KHR_materials_pbrSpecularGlossiness`. Unknown
    /// keys are ignored; absent factors default to all ones; texture
    /// references and extras are carried through untouched.
    pub fn decode(v: Value) -> (r: Result<PbrSpecularGlossiness, DecodeError>)
        ensures
            r is Ok <==> sg_err(v) is None,
            (r matches Ok(x) ==> sg_decoding(v, x)),
            (r matches Err(e) ==> sg_err(v) == Some(e)),
    {
        let mut pairs = match v {
            Value::Obj(p) => p,
            _ => {
                return Err(DecodeError::ExpectedObject);
            },
        };
        proof {
            reveal_strlit("diffuseFactor");
            reveal_strlit("diffuseTexture");
            reveal_strlit("specularFactor");
            reveal_strlit("glossinessFactor");
            reveal_strlit("specularGlossinessTexture");
            reveal_strlit("extras");
            assert("diffuseFactor"@.len() == 13);
            assert("diffuseTexture"@.len() == 14);
            assert("specularFactor"@.len() == 14);
            assert("glossinessFactor"@.len() == 16);
            assert("specularGlossinessTexture"@.len() == 25);
            assert("extras"@.len() == 6);
            assert("diffuseTexture"@[0] == 'd');
            assert("specularFactor"@[0] == 's');
        }
        // each removal takes out only its own key, so every later field still
        // finds its first entry where the whole object had it
        let ghost entries = pairs@;
        let raw = lookup_remove(&mut pairs, "diffuseFactor");
        proof {
            assert(lookup(pairs@, "diffuseTexture"@) == lookup(entries, "diffuseTexture"@));
            assert(lookup(pairs@, "specularFactor"@) == lookup(entries, "specularFactor"@));
            assert(lookup(pairs@, "glossinessFactor"@) == lookup(entries, "glossinessFactor"@));
            assert(lookup(pairs@, "specularGlossinessTexture"@) == lookup(entries, "specularGlossinessTexture"@));
            assert(lookup(pairs@, "extras"@) == lookup(entries, "extras"@));
        }
        let diffuse_factor = match decode_factor4_field(raw) {
            Ok(f) => f,
            Err(e) => {
                return Err(e);
            },
        };
        let raw = lookup_remove(&mut pairs, "diffuseTexture");
        proof {
            assert(lookup(pairs@, "specularFactor"@) == lookup(entries, "specularFactor"@));
            assert(lookup(pairs@, "glossinessFactor"@) == lookup(entries, "glossinessFactor"@));
            assert(lookup(pairs@, "specularGlossinessTexture"@) == lookup(entries, "specularGlossinessTexture"@));
            assert(lookup(pairs@, "extras"@) == lookup(entries, "extras"@));
        }
        let diffuse_texture = decode_texture_field(raw);
        let raw = lookup_remove(&mut pairs, "specularFactor");
        proof {
            assert(lookup(pairs@, "glossinessFactor"@) == lookup(entries, "glossinessFactor"@));
            assert(lookup(pairs@, "specularGlossinessTexture"@) == lookup(entries, "specularGlossinessTexture"@));
            assert(lookup(pairs@, "extras"@) == lookup(entries, "extras"@));
        }
        let specular_factor = match decode_factor3_field(raw) {
            Ok(f) => f,
            Err(e) => {
                return Err(e);
            },
        };
        let raw = lookup_remove(&mut pairs, "glossinessFactor");
        proof {
            assert(lookup(pairs@, "specularGlossinessTexture"@) == lookup(entries, "specularGlossinessTexture"@));
            assert(lookup(pairs@, "extras"@) == lookup(entries, "extras"@));
        }
        let glossiness_factor = match decode_strength_field(raw) {
            Ok(s) => s,
            Err(e) => {
                return Err(e);
            },
        };
        let raw = lookup_remove(&mut pairs, "specularGlossinessTexture");
        proof {
            assert(lookup(pairs@, "extras"@) == lookup(entries, "extras"@));
        }
        let specular_glossiness_texture = decode_texture_field(raw);
        let raw = lookup_remove(&mut pairs, "extras");
        let extras = decode_extras_field(raw);
        Ok(
            PbrSpecularGlossiness {
                diffuse_factor,
                diffuse_texture,
                specular_factor,
                glossiness_factor,
                specular_glossiness_texture,
                extras,
            },
        )
    }
}

/// The decode outcome of an `AA_shadow` payload: any object decodes; the
/// shadow-texture reference is opaque.
pub open spec fn aashadow_err(v: Value) -> Option<DecodeError> {
    match v {
        Value::Obj(_) => None,
        _ => Some(DecodeError::ExpectedObject),
    }
}

/// How a decoded `AAShadow` relates to its wire object.
pub open spec fn aashadow_decoding(v: Value, s: AAShadow) -> bool {
    v matches Value::Obj(pairs) && texture_field_decodes(
        lookup(pairs@, "shadowTexture"@),
        s.shadow_texture,
    )
}

impl AAShadow {
    /// Decodes the payload of `AA_shadow`.
    pub fn decode(v: Value) -> (r: Result<AAShadow, DecodeError>)
        ensures
            r is Ok <==> aashadow_err(v) is None,
            (r matches Ok(s) ==> aashadow_decoding(v, s)),
            (r matches Err(e) ==> aashadow_err(v) == Some(e)),
    {
        let mut pairs = match v {
            Value::Obj(p) => p,
            _ => {
                return Err(DecodeError::ExpectedObject);
            },
        };
        let raw = lookup_remove(&mut pairs, "shadowTexture");
        let shadow_texture = decode_texture_field(raw);
        Ok(AAShadow { shadow_texture })
    }
}

/// The decode outcome of a `KHR_materials_unlit` payload: any object decodes.
pub open spec fn unlit_err(v: Value) -> Option<DecodeError> {
    match v {
        Value::Obj(_) => None,
        _ => Some(DecodeError::ExpectedObject),
    }
}

impl Unlit {
    /// Decodes the payload of `KHR_materials_unlit`: an object with no fields
    /// of its own; any keys present are ignored.
    pub fn decode(v: Value) -> (r: Result<Unlit, DecodeError>)
        ensures
            r is Ok <==> unlit_err(v) is None,
            (r matches Err(e) ==> unlit_err(v) == Some(e)),
    {
        match v {
            Value::Obj(_) => Ok(Unlit {  }),
            _ => Err(DecodeError::ExpectedObject),
        }
    }
}

// ---------------------------------------------------------------------------
// The extension slot.
// ---------------------------------------------------------------------------
/// The decode outcome of the specular-glossiness slot.
pub open spec fn sg_slot_err(o: Option<Value>) -> Option<DecodeError> {
    match o {
        None => None,
        Some(p) => sg_err(p),
    }
}

/// The decode outcome of the unlit slot.
pub open spec fn unlit_slot_err(o: Option<Value>) -> Option<DecodeError> {
    match o {
        None => None,
        Some(p) => unlit_err(p),
    }
}

/// The decode outcome of the attributes slot.
pub open spec fn attrs_slot_err(o: Option<Value>) -> Option<DecodeError> {
    match o {
        None => None,
        Some(p) => attrs_err(p),
    }
}

/// The decode outcome of the shadow slot.
pub open spec fn shadow_slot_err(o: Option<Value>) -> Option<DecodeError> {
    match o {
        None => None,
        Some(p) => aashadow_err(p),
    }
}

/// The decode outcome of a material's extension entries: the error of the
/// first ill-shaped slot, taking the supported keys in a fixed order.
pub open spec fn material_obj_err(ps: Seq<(String, Value)>) -> Option<DecodeError> {
    let e1 = sg_slot_err(lookup(ps, "KHR_materials_pbrSpecularGlossiness"@));
    let e2 = unlit_slot_err(lookup(ps, "KHR_materials_unlit"@));
    let e3 = attrs_slot_err(lookup(ps, "EXT_pbr_attributes"@));
    let e4 = shadow_slot_err(lookup(ps, "AA_shadow"@));
    if e1 is Some {
        e1
    } else if e2 is Some {
        e2
    } else if e3 is Some {
        e3
    } else if e4 is Some {
        e4
    } else {
        None
    }
}

/// The decode outcome of a material's extension object.
pub open spec fn material_err(v: Value) -> Option<DecodeError> {
    match v {
        Value::Obj(pairs) => material_obj_err(pairs@),
        _ => Some(DecodeError::ExpectedObject),
    }
}

/// How a decoded `Material` relates to the entries of its wire extension
/// object: each supported key fills its own slot, and every other key is
/// ignored.
pub open spec fn material_obj_decoding(ps: Seq<(String, Value)>, m: Material) -> bool {
    &&& match lookup(ps, "KHR_materials_pbrSpecularGlossiness"@) {
        None => m.pbr_specular_glossiness is None,
        Some(p) => m.pbr_specular_glossiness matches Some(x) && sg_decoding(p, x),
    }
    &&& match lookup(ps, "KHR_materials_unlit"@) {
        None => m.unlit is None,
        Some(_) => m.unlit is Some,
    }
    &&& match lookup(ps, "EXT_pbr_attributes"@) {
        None => m.ext_pbr_attributes is None,
        Some(p) => m.ext_pbr_attributes matches Some(a) && attrs_decoding(p, a),
    }
    &&& match lookup(ps, "AA_shadow"@) {
        None => m.aa_shadow is None,
        Some(p) => m.aa_shadow matches Some(s) && aashadow_decoding(p, s),
    }
}

/// How a decoded `Material` relates to its wire extension object.
pub open spec fn material_decoding(v: Value, m: Material) -> bool {
    v matches Value::Obj(pairs) && material_obj_decoding(pairs@, m)
}

impl Material {
    /// Decodes a material's extension object. Each supported extension key
    /// fills its own slot; a document carrying unknown extension keys still
    /// decodes, the unknown payloads ignored.
    pub fn decode(v: Value) -> (r: Result<Material, DecodeError>)
        ensures
            r is Ok <==> material_err(v) is None,
            (r matches Ok(m) ==> material_decoding(v, m)),
            (r matches Err(e) ==> material_err(v) == Some(e)),
    {
        let mut pairs = match v {
            Value::Obj(p) => p,
            _ => {
                return Err(DecodeError::ExpectedObject);
            },
        };
        proof {
            reveal_strlit("KHR_materials_pbrSpecularGlossiness");
            reveal_strlit("KHR_materials_unlit");
            reveal_strlit("EXT_pbr_attributes");
            reveal_strlit("AA_shadow");
            assert("KHR_materials_pbrSpecularGlossiness"@.len() == 35);
            assert("KHR_materials_unlit"@.len() == 19);
            assert("EXT_pbr_attributes"@.len() == 18);
            assert("AA_shadow"@.len() == 9);
        }
        // each removal takes out only its own key, so every later field still
        // finds its first entry where the whole object had it
        let ghost entries = pairs@;
        let raw = lookup_remove(&mut pairs, "KHR_materials_pbrSpecularGlossiness");
        proof {
            assert(lookup(pairs@, "KHR_materials_unlit"@) == lookup(entries, "KHR_materials_unlit"@));
            assert(lookup(pairs@, "EXT_pbr_attributes"@) == lookup(entries, "EXT_pbr_attributes"@));
            assert(lookup(pairs@, "AA_shadow"@) == lookup(entries, "AA_shadow"@));
        }
        let pbr_specular_glossiness = match raw {
            None => None,
            Some(p) => match PbrSpecularGlossiness::decode(p) {
                Ok(x) => Some(x),
                Err(e) => {
                    return Err(e);
                },
            },
        };
        let raw = lookup_remove(&mut pairs, "KHR_materials_unlit");
        proof {
            assert(lookup(pairs@, "EXT_pbr_attributes"@) == lookup(entries, "EXT_pbr_attributes"@));
            assert(lookup(pairs@, "AA_shadow"@) == lookup(entries, "AA_shadow"@));
        }
        let unlit = match raw {
            None => None,
            Some(p) => match Unlit::decode(p) {
                Ok(u) => Some(u),
                Err(e) => {
                    return Err(e);
                },
            },
        };
        let raw = lookup_remove(&mut pairs, "EXT_pbr_attributes");
        proof {
            assert(lookup(pairs@, "AA_shadow"@) == lookup(entries, "AA_shadow"@));
        }
        let ext_pbr_attributes = match raw {
            None => None,
            Some(p) => match PbrAttributes::decode(p) {
                Ok(a) => Some(a),
                Err(e) => {
                    return Err(e);
                },
            },
        };
        let raw = lookup_remove(&mut pairs, "AA_shadow");
        let aa_shadow = match raw {
            None => None,
            Some(p) => match AAShadow::decode(p) {
                Ok(s) => Some(s),
                Err(e) => {
                    return Err(e);
                },
            },
        };
        Ok(Material { pbr_specular_glossiness, unlit, ext_pbr_attributes, aa_shadow })
    }
}

/// Law: decoding reads only the supported extension keys, so two extension
/// objects whose supported slots hold the same values decode alike — unknown
/// keys standing beside a known one change nothing.
pub proof fn lemma_unknown_keys_ignored(
    p1: Seq<(String, Value)>,
    p2: Seq<(String, Value)>,
    m: Material,
)
    requires
        lookup(p1, "KHR_materials_pbrSpecularGlossiness"@) == lookup(
            p2,
            "KHR_materials_pbrSpecularGlossiness"@,
        ),
        lookup(p1, "KHR_materials_unlit"@) == lookup(p2, "KHR_materials_unlit"@),
        lookup(p1, "EXT_pbr_attributes"@) == lookup(p2, "EXT_pbr_attributes"@),
        lookup(p1, "AA_shadow"@) == lookup(p2, "AA_shadow"@),
    ensures
        material_obj_err(p1) == material_obj_err(p2),
        material_obj_decoding(p1, m) == material_obj_decoding(p2, m),
{
}


// ---------------------------------------------------------------------------
// Encoding back to wire values.
// ---------------------------------------------------------------------------
/// One when the slot is filled, zero when it is absent.
pub open spec fn count_some<T>(o: Option<T>) -> int {
    if o is Some {
        1
    } else {
        0
    }
}

/// An object entry holding a string value.
pub open spec fn str_entry_is(p: (String, Value), key: Seq<char>, t: String) -> bool {
    p.0@ == key && (p.1 matches Value::Str(s) && s == t)
}

/// The wire form of a four-component factor: an array of its component bit
/// patterns in order.
pub open spec fn factor4_encoding(f: PbrDiffuseFactor, v: Value) -> bool {
    v matches Value::Arr(items) && items@.len() == 4 && forall|i: int|
        0 <= i < 4 ==> ((#[trigger] items@[i]) matches Value::Num(b) && b == f.0@[i])
}

/// The wire form of a three-component factor.
pub open spec fn factor3_encoding(f: PbrSpecularFactor, v: Value) -> bool {
    v matches Value::Arr(items) && items@.len() == 3 && forall|i: int|
        0 <= i < 3 ==> ((#[trigger] items@[i]) matches Value::Num(b) && b == f.0@[i])
}

/// The wire form of an unlit payload: an empty object.
pub open spec fn unlit_encoding(v: Value) -> bool {
    v matches Value::Obj(ps) && ps@.len() == 0
}

/// The wire form of a shadow payload: its one optional entry, carrying the
/// opaque texture reference back out unchanged; no entry when absent.
pub open spec fn aashadow_encoding(s: AAShadow, v: Value) -> bool {
    v matches Value::Obj(ps) && match s.shadow_texture {
        None => ps@.len() == 0,
        Some(t) => ps@.len() == 1 && ps@[0].0@ == "shadowTexture"@ && ps@[0].1 == t.0,
    }
}

/// The wire form of an `EXT_pbr_attributes` payload: the checked color space
/// first, then each bound attribute name in declaration order; an unbound
/// name contributes no entry at all.
pub open spec fn attrs_encoding(a: PbrAttributes, v: Value) -> bool {
    v matches Value::Obj(pairs) && {
        let ps = pairs@;
        let n1 = count_some(a.base_color_attrib);
        let n2 = count_some(a.roughness_attrib);
        let n3 = count_some(a.metallic_attrib);
        let n4 = count_some(a.occlusion_attrib);
        let n5 = count_some(a.emissive_attrib);
        &&& ps.len() == 1 + n1 + n2 + n3 + n4 + n5 + count_some(a.shadow_attrib)
        &&& ps[0].0@ == "baseColorAttribSpace"@
        &&& (ps[0].1 matches Value::Str(s) && s@ == spec_checked_color_space_wire(
            a.base_color_attrib_space,
        ))
        &&& (a.base_color_attrib matches Some(t) ==> str_entry_is(ps[1], "baseColorAttrib"@, t))
        &&& (a.roughness_attrib matches Some(t) ==> str_entry_is(ps[1 + n1], "roughnessAttrib"@, t))
        &&& (a.metallic_attrib matches Some(t) ==> str_entry_is(
            ps[1 + n1 + n2],
            "metallicAttrib"@,
            t,
        ))
        &&& (a.occlusion_attrib matches Some(t) ==> str_entry_is(
            ps[1 + n1 + n2 + n3],
            "occlusionAttrib"@,
            t,
        ))
        &&& (a.emissive_attrib matches Some(t) ==> str_entry_is(
            ps[1 + n1 + n2 + n3 + n4],
            "emissiveAttrib"@,
            t,
        ))
        &&& (a.shadow_attrib matches Some(t) ==> str_entry_is(
            ps[1 + n1 + n2 + n3 + n4 + n5],
            "shadowAttrib"@,
            t,
        ))
    }
}

/// The wire form of a `KHR_materials_pbrSpecularGlossiness` payload: always
/// the two factors and the glossiness, the optional references and extras
/// only when present, all in declaration order.
pub open spec fn sg_encoding(x: PbrSpecularGlossiness, v: Value) -> bool {
    v matches Value::Obj(pairs) && {
        let ps = pairs@;
        let n1 = count_some(x.diffuse_texture);
        let n2 = count_some(x.specular_glossiness_texture);
        &&& ps.len() == 3 + n1 + n2 + count_some(x.extras.0)
        &&& ps[0].0@ == "diffuseFactor"@
        &&& factor4_encoding(x.diffuse_factor, ps[0].1)
        &&& (x.diffuse_texture matches Some(t) ==> (ps[1].0@ == "diffuseTexture"@ && ps[1].1
            == t.0))
        &&& ps[1 + n1].0@ == "specularFactor"@
        &&& factor3_encoding(x.specular_factor, ps[1 + n1].1)
        &&& ps[2 + n1].0@ == "glossinessFactor"@
        &&& (ps[2 + n1].1 matches Value::Num(b) && b == x.glossiness_factor.0)
        &&& (x.specular_glossiness_texture matches Some(t) ==> (ps[3 + n1].0@
            == "specularGlossinessTexture"@ && ps[3 + n1].1 == t.0))
        &&& (x.extras.0 matches Some(e) ==> (ps[3 + n1 + n2].0@ == "extras"@ && ps[3 + n1 + n2].1
            == e))
    }
}

/// The wire form of a material's extension object: one entry per filled slot
/// under its extension key, in declaration order, and nothing else — an empty
/// slot is omitted entirely, never written as an explicit null.
pub open spec fn material_encoding(m: Material, v: Value) -> bool {
    v matches Value::Obj(pairs) && {
        let ps = pairs@;
        let n1 = count_some(m.pbr_specular_glossiness);
        let n2 = count_some(m.unlit);
        let n3 = count_some(m.ext_pbr_attributes);
        &&& ps.len() == n1 + n2 + n3 + count_some(m.aa_shadow)
        &&& (m.pbr_specular_glossiness matches Some(x) ==> (ps[0].0@
            == "KHR_materials_pbrSpecularGlossiness"@ && sg_encoding(x, ps[0].1)))
        &&& (m.unlit is Some ==> (ps[n1].0@ == "KHR_materials_unlit"@ && unlit_encoding(ps[n1].1)))
        &&& (m.ext_pbr_attributes matches Some(a) ==> (ps[n1 + n2].0@ == "EXT_pbr_attributes"@
            && attrs_encoding(a, ps[n1 + n2].1)))
        &&& (m.aa_shadow matches Some(s) ==> (ps[n1 + n2 + n3].0@ == "AA_shadow"@
            && aashadow_encoding(s, ps[n1 + n2 + n3].1)))
    }
}

impl PbrDiffuseFactor {
    /// Encodes the factor as an array of its four component bit patterns.
    pub fn encode(self) -> (r: Value)
        ensures
            factor4_encoding(self, r),
    {
        let mut items: Vec<Value> = Vec::new();
        items.push(Value::Num(self.0[0]));
        items.push(Value::Num(self.0[1]));
        items.push(Value::Num(self.0[2]));
        items.push(Value::Num(self.0[3]));
        proof {
            assert(forall|i: int|
                0 <= i < 4 ==> ((#[trigger] items@[i]) matches Value::Num(b) && b
                    == self.0@[i])) by {
                assert(items@[0] matches Value::Num(b) && b == self.0@[0]);
                assert(items@[1] matches Value::Num(b) && b == self.0@[1]);
                assert(items@[2] matches Value::Num(b) && b == self.0@[2]);
                assert(items@[3] matches Value::Num(b) && b == self.0@[3]);
            }
        }
        Value::Arr(items)
    }
}

impl PbrSpecularFactor {
    /// Encodes the factor as an array of its three component bit patterns.
    pub fn encode(self) -> (r: Value)
        ensures
            factor3_encoding(self, r),
    {
        let mut items: Vec<Value> = Vec::new();
        items.push(Value::Num(self.0[0]));
        items.push(Value::Num(self.0[1]));
        items.push(Value::Num(self.0[2]));
        proof {
            assert(forall|i: int|
                0 <= i < 3 ==> ((#[trigger] items@[i]) matches Value::Num(b) && b
                    == self.0@[i])) by {
                assert(items@[0] matches Value::Num(b) && b == self.0@[0]);
                assert(items@[1] matches Value::Num(b) && b == self.0@[1]);
                assert(items@[2] matches Value::Num(b) && b == self.0@[2]);
            }
        }
        Value::Arr(items)
    }
}

impl Unlit {
    /// Encodes the payload as an empty object.
    pub fn encode(self) -> (r: Value)
        ensures
            unlit_encoding(r),
    {
        Value::Obj(Vec::new())
    }
}

impl AAShadow {
    /// Encodes the payload, carrying the opaque texture reference back out
    /// unchanged and omitting the entry when the reference is absent.
    pub fn encode(self) -> (r: Value)
        ensures
            aashadow_encoding(self, r),
    {
        let mut pairs: Vec<(String, Value)> = Vec::new();
        match self.shadow_texture {
            None => {},
            Some(t) => {
                pairs.push(("shadowTexture".to_owned(), t.0));
            },
        }
        Value::Obj(pairs)
    }
}

impl PbrAttributes {
    /// Encodes the payload. The checked color space must hold a recognized
    /// value: an `Invalid` value is a caller error, to be reported or
    /// filtered by validation before re-encoding.
    pub fn encode(self) -> (r: Value)
        requires
            self.base_color_attrib_space is Valid,
        ensures
            attrs_encoding(self, r),
    {
        let mut pairs: Vec<(String, Value)> = Vec::new();
        let wire = match &self.base_color_attrib_space {
            Checked::Valid(c) => color_space_wire(c),
            Checked::Invalid => unreached(),
        };
        pairs.push(("baseColorAttribSpace".to_owned(), Value::Str(wire.to_owned())));
        let PbrAttributes {
            base_color_attrib_space: _,
            base_color_attrib,
            roughness_attrib,
            metallic_attrib,
            occlusion_attrib,
            emissive_attrib,
            shadow_attrib,
        } = self;
        match base_color_attrib {
            None => {},
            Some(t) => {
                pairs.push(("baseColorAttrib".to_owned(), Value::Str(t)));
            },
        }
        proof {
            assert(pairs@.len() == 1 + count_some(self.base_color_attrib));
        }
        match roughness_attrib {
            None => {},
            Some(t) => {
                pairs.push(("roughnessAttrib".to_owned(), Value::Str(t)));
            },
        }
        proof {
            assert(pairs@.len() == 1 + count_some(self.base_color_attrib) + count_some(
                self.roughness_attrib,
            ));
        }
        match metallic_attrib {
            None => {},
            Some(t) => {
                pairs.push(("metallicAttrib".to_owned(), Value::Str(t)));
            },
        }
        proof {
            assert(pairs@.len() == 1 + count_some(self.base_color_attrib) + count_some(
                self.roughness_attrib,
            ) + count_some(self.metallic_attrib));
        }
        match occlusion_attrib {
            None => {},
            Some(t) => {
                pairs.push(("occlusionAttrib".to_owned(), Value::Str(t)));
            },
        }
        proof {
            assert(pairs@.len() == 1 + count_some(self.base_color_attrib) + count_some(
                self.roughness_attrib,
            ) + count_some(self.metallic_attrib) + count_some(self.occlusion_attrib));
        }
        match emissive_attrib {
            None => {},
            Some(t) => {
                pairs.push(("emissiveAttrib".to_owned(), Value::Str(t)));
            },
        }
        proof {
            assert(pairs@.len() == 1 + count_some(self.base_color_attrib) + count_some(
                self.roughness_attrib,
            ) + count_some(self.metallic_attrib) + count_some(self.occlusion_attrib) + count_some(
                self.emissive_attrib,
            ));
        }
        match shadow_attrib {
            None => {},
            Some(t) => {
                pairs.push(("shadowAttrib".to_owned(), Value::Str(t)));
            },
        }
        Value::Obj(pairs)
    }
}

impl PbrSpecularGlossiness {
    /// Encodes the payload: factors and glossiness always, the optional
    /// references and extras only when present, each under its wire name.
    pub fn encode(self) -> (r: Value)
        ensures
            sg_encoding(self, r),
    {
        let PbrSpecularGlossiness {
            diffuse_factor,
            diffuse_texture,
            specular_factor,
            glossiness_factor,
            specular_glossiness_texture,
            extras,
        } = self;
        let mut pairs: Vec<(String, Value)> = Vec::new();
        pairs.push(("diffuseFactor".to_owned(), diffuse_factor.encode()));
        match diffuse_texture {
            None => {},
            Some(t) => {
                pairs.push(("diffuseTexture".to_owned(), t.0));
            },
        }
        proof {
            assert(pairs@.len() == 1 + count_some(self.diffuse_texture));
        }
        pairs.push(("specularFactor".to_owned(), specular_factor.encode()));
        pairs.push(("glossinessFactor".to_owned(), Value::Num(glossiness_factor.0)));
        match specular_glossiness_texture {
            None => {},
            Some(t) => {
                pairs.push(("specularGlossinessTexture".to_owned(), t.0));
            },
        }
        proof {
            assert(pairs@.len() == 3 + count_some(self.diffuse_texture) + count_some(
                self.specular_glossiness_texture,
            ));
        }
        match extras {
            Extras(None) => {},
            Extras(Some(e)) => {
                pairs.push(("extras".to_owned(), e));
            },
        }
        Value::Obj(pairs)
    }
}

impl Material {
    /// Encodes the extension object: one entry per filled slot under its
    /// extension key, and no entry at all — not a null — for an empty slot.
    /// A filled attributes slot must hold a recognized color space.
    pub fn encode(self) -> (r: Value)
        requires
            self.ext_pbr_attributes matches Some(a) ==> a.base_color_attrib_space is Valid,
        ensures
            material_encoding(self, r),
    {
        let Material { pbr_specular_glossiness, unlit, ext_pbr_attributes, aa_shadow } = self;
        let mut pairs: Vec<(String, Value)> = Vec::new();
        match pbr_specular_glossiness {
            None => {},
            Some(x) => {
                pairs.push(("KHR_materials_pbrSpecularGlossiness".to_owned(), x.encode()));
            },
        }
        proof {
            assert(pairs@.len() == count_some(self.pbr_specular_glossiness));
        }
        match unlit {
            None => {},
            Some(u) => {
                pairs.push(("KHR_materials_unlit".to_owned(), u.encode()));
            },
        }
        proof {
            assert(pairs@.len() == count_some(self.pbr_specular_glossiness) + count_some(
                self.unlit,
            ));
        }
        match ext_pbr_attributes {
            None => {},
            Some(a) => {
                pairs.push(("EXT_pbr_attributes".to_owned(), a.encode()));
            },
        }
        proof {
            assert(pairs@.len() == count_some(self.pbr_specular_glossiness) + count_some(
                self.unlit,
            ) + count_some(self.ext_pbr_attributes));
        }
        match aa_shadow {
            None => {},
            Some(s) => {
                pairs.push(("AA_shadow".to_owned(), s.encode()));
            },
        }
        Value::Obj(pairs)
    }
}

/// Law: a material with every extension slot empty encodes to an object with
/// no entries at all — key absence, not a null value.
pub proof fn lemma_no_extensions_encode_empty(m: Material, v: Value)
    requires
        m.pbr_specular_glossiness is None,
        m.unlit is None,
        m.ext_pbr_attributes is None,
        m.aa_shadow is None,
        material_encoding(m, v),
    ensures
        v matches Value::Obj(pairs) && pairs@.len() == 0,
{
}

} // verus!
