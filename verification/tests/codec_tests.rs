use gltf_json::checked::Checked;
use gltf_json::codec::{checked_color_space_from_str, color_space_wire, DecodeError};
use gltf_json::material::{
    AAShadow, ColorSpace, Extras, Material, PbrAttributes, PbrDiffuseFactor,
    PbrSpecularGlossiness, PbrSpecularFactor, StrengthFactor, TextureInfo, Unlit,
};
use gltf_json::value::Value;
use gltf_json::F64_ONE_BITS;

fn s(text: &str) -> String {
    text.to_string()
}

#[test]
fn color_space_vocabulary_decodes_to_valid() {
    assert_eq!(
        checked_color_space_from_str("sRGB"),
        Checked::Valid(ColorSpace::SRGB)
    );
    assert_eq!(
        checked_color_space_from_str("linear"),
        Checked::Valid(ColorSpace::Linear)
    );
}

#[test]
fn unrecognized_color_space_decodes_to_invalid_not_failure() {
    assert_eq!(checked_color_space_from_str("sRgb"), Checked::Invalid);
    assert_eq!(checked_color_space_from_str("SRGB"), Checked::Invalid);
    assert_eq!(checked_color_space_from_str(""), Checked::Invalid);
    assert_eq!(checked_color_space_from_str("linear "), Checked::Invalid);
}

#[test]
fn color_space_round_trips_to_identical_wire_string() {
    for wire in ["sRGB", "linear"] {
        match checked_color_space_from_str(wire) {
            Checked::Valid(c) => assert_eq!(color_space_wire(&c), wire),
            Checked::Invalid => panic!("vocabulary string must decode to a valid value"),
        }
    }
}

#[test]
fn one_bits_constant_matches_f64_one() {
    assert_eq!(F64_ONE_BITS, 1.0f64.to_bits());
}

#[test]
fn material_without_extensions_encodes_no_keys() {
    let m = Material::default();
    match m.encode() {
        Value::Obj(pairs) => assert!(pairs.is_empty()),
        _ => panic!("a material encodes to an object"),
    }
}

#[test]
fn unknown_extension_key_is_ignored_known_one_still_decodes() {
    let doc = Value::Obj(vec![
        (s("FOO_future_extension"), Value::Bool(true)),
        (
            s("EXT_pbr_attributes"),
            Value::Obj(vec![(s("baseColorAttribSpace"), Value::Str(s("nonsense")))]),
        ),
    ]);
    let m = Material::decode(doc).unwrap();
    assert!(m.pbr_specular_glossiness.is_none());
    assert!(m.unlit.is_none());
    assert!(m.aa_shadow.is_none());
    let a = m.ext_pbr_attributes.expect("known key fills its slot");
    assert_eq!(a.base_color_attrib_space, Checked::Invalid);
}

#[test]
fn non_object_material_is_a_shape_error() {
    assert_eq!(
        Material::decode(Value::Str(s("oops"))),
        Err(DecodeError::ExpectedObject)
    );
    assert_eq!(
        Material::decode(Value::Num(1.0f64.to_bits())),
        Err(DecodeError::ExpectedObject)
    );
}

#[test]
fn non_string_attrib_space_is_a_shape_error() {
    let doc = Value::Obj(vec![(
        s("EXT_pbr_attributes"),
        Value::Obj(vec![(s("baseColorAttribSpace"), Value::Num(0))]),
    )]);
    assert_eq!(Material::decode(doc), Err(DecodeError::ExpectedString));
}

#[test]
fn empty_attributes_object_takes_defaults() {
    let a = PbrAttributes::decode(Value::Obj(vec![])).unwrap();
    assert_eq!(a, PbrAttributes::default());
    assert_eq!(
        a.base_color_attrib_space,
        Checked::Valid(ColorSpace::Linear)
    );
}

#[test]
fn attribute_names_decode_and_unknown_fields_are_ignored() {
    let a = PbrAttributes::decode(Value::Obj(vec![
        (s("roughnessAttrib"), Value::Str(s("_rough2"))),
        (s("somethingElse"), Value::Null),
        (s("baseColorAttribSpace"), Value::Str(s("sRGB"))),
    ]))
    .unwrap();
    assert_eq!(a.base_color_attrib_space, Checked::Valid(ColorSpace::SRGB));
    assert_eq!(a.roughness_attrib, Some(s("_rough2")));
    assert_eq!(a.metallic_attrib, None);
}

#[test]
fn factor_of_wrong_length_is_a_shape_error() {
    let one = Value::Num(F64_ONE_BITS);
    let doc = Value::Obj(vec![(s("diffuseFactor"), Value::Arr(vec![one]))]);
    assert_eq!(
        PbrSpecularGlossiness::decode(doc),
        Err(DecodeError::WrongArrayLength)
    );
}

#[test]
fn factor_with_non_number_component_is_a_shape_error() {
    let one = || Value::Num(F64_ONE_BITS);
    let doc = Value::Obj(vec![(
        s("diffuseFactor"),
        Value::Arr(vec![one(), Value::Bool(false), one(), one()]),
    )]);
    assert_eq!(
        PbrSpecularGlossiness::decode(doc),
        Err(DecodeError::ExpectedNumber)
    );
}

#[test]
fn non_array_factor_is_a_shape_error() {
    let doc = Value::Obj(vec![(s("specularFactor"), Value::Str(s("white")))]);
    assert_eq!(
        PbrSpecularGlossiness::decode(doc),
        Err(DecodeError::ExpectedArray)
    );
}

#[test]
fn non_number_glossiness_is_a_shape_error() {
    let doc = Value::Obj(vec![(s("glossinessFactor"), Value::Str(s("1.0")))]);
    assert_eq!(
        PbrSpecularGlossiness::decode(doc),
        Err(DecodeError::ExpectedNumber)
    );
}

#[test]
fn empty_specular_glossiness_object_takes_defaults() {
    let x = PbrSpecularGlossiness::decode(Value::Obj(vec![])).unwrap();
    assert_eq!(x, PbrSpecularGlossiness::default());
    assert_eq!(x.diffuse_factor.0, [F64_ONE_BITS; 4]);
    assert_eq!(x.specular_factor.0, [F64_ONE_BITS; 3]);
    assert_eq!(x.glossiness_factor.0, F64_ONE_BITS);
}

#[test]
fn full_material_round_trips_through_the_wire_form() {
    let texture = || TextureInfo(Value::Obj(vec![(s("index"), Value::Num(3.0f64.to_bits()))]));
    let m = Material {
        pbr_specular_glossiness: Some(PbrSpecularGlossiness {
            diffuse_factor: PbrDiffuseFactor([
                0.25f64.to_bits(),
                0.5f64.to_bits(),
                0.75f64.to_bits(),
                1.0f64.to_bits(),
            ]),
            diffuse_texture: Some(texture()),
            specular_factor: PbrSpecularFactor([0.0f64.to_bits(); 3]),
            glossiness_factor: StrengthFactor(0.5f64.to_bits()),
            specular_glossiness_texture: None,
            extras: Extras(Some(Value::Str(s("hello")))),
        }),
        unlit: Some(Unlit {}),
        ext_pbr_attributes: Some(PbrAttributes {
            base_color_attrib_space: Checked::Valid(ColorSpace::SRGB),
            base_color_attrib: Some(s("_base")),
            roughness_attrib: None,
            metallic_attrib: Some(s("_metal")),
            occlusion_attrib: None,
            emissive_attrib: None,
            shadow_attrib: None,
        }),
        aa_shadow: Some(AAShadow {
            shadow_texture: Some(texture()),
        }),
    };
    let expected = Material::decode(m.encode()).unwrap();
    // rebuild the same material for comparison, since encode consumed it
    let again = Material {
        pbr_specular_glossiness: Some(PbrSpecularGlossiness {
            diffuse_factor: PbrDiffuseFactor([
                0.25f64.to_bits(),
                0.5f64.to_bits(),
                0.75f64.to_bits(),
                1.0f64.to_bits(),
            ]),
            diffuse_texture: Some(texture()),
            specular_factor: PbrSpecularFactor([0.0f64.to_bits(); 3]),
            glossiness_factor: StrengthFactor(0.5f64.to_bits()),
            specular_glossiness_texture: None,
            extras: Extras(Some(Value::Str(s("hello")))),
        }),
        unlit: Some(Unlit {}),
        ext_pbr_attributes: Some(PbrAttributes {
            base_color_attrib_space: Checked::Valid(ColorSpace::SRGB),
            base_color_attrib: Some(s("_base")),
            roughness_attrib: None,
            metallic_attrib: Some(s("_metal")),
            occlusion_attrib: None,
            emissive_attrib: None,
            shadow_attrib: None,
        }),
        aa_shadow: Some(AAShadow {
            shadow_texture: Some(texture()),
        }),
    };
    assert_eq!(expected, again);
}

#[test]
fn absent_optional_fields_are_omitted_from_encoded_objects() {
    let a = PbrAttributes {
        base_color_attrib_space: Checked::Valid(ColorSpace::Linear),
        base_color_attrib: None,
        roughness_attrib: Some(s("_r")),
        metallic_attrib: None,
        occlusion_attrib: None,
        emissive_attrib: None,
        shadow_attrib: None,
    };
    match a.encode() {
        Value::Obj(pairs) => {
            assert_eq!(pairs.len(), 2);
            assert_eq!(pairs[0].0, s("baseColorAttribSpace"));
            assert_eq!(pairs[0].1, Value::Str(s("linear")));
            assert_eq!(pairs[1].0, s("roughnessAttrib"));
            assert_eq!(pairs[1].1, Value::Str(s("_r")));
        }
        _ => panic!("attributes encode to an object"),
    }
}

#[test]
fn duplicate_keys_decode_to_the_first_occurrence() {
    let a = PbrAttributes::decode(Value::Obj(vec![
        (s("baseColorAttribSpace"), Value::Str(s("sRGB"))),
        (s("baseColorAttribSpace"), Value::Str(s("linear"))),
    ]))
    .unwrap();
    assert_eq!(a.base_color_attrib_space, Checked::Valid(ColorSpace::SRGB));
}
