use gltf_json::checked::Checked;
use gltf_json::material::{
    in_unit_interval, AAShadow, ColorSpace, Material, PbrAttributes, PbrDiffuseFactor,
    PbrSpecularGlossiness, StrengthFactor, TextureInfo,
};
use gltf_json::path::{Path, Step};
use gltf_json::validation::{ErrorKind, Validate, ValidationError};
use gltf_json::value::Value;

fn s(text: &str) -> String {
    text.to_string()
}

#[test]
fn invalid_attrib_space_yields_one_error_at_its_field_path() {
    let mut a = PbrAttributes::default();
    a.base_color_attrib_space = Checked::Invalid;
    let mut path = Path::root();
    path.push_field("materials");
    path.push_index(2);
    path.push_field("extensions");
    path.push_field("EXT_pbr_attributes");
    let mut errors: Vec<ValidationError> = Vec::new();
    a.validate(&mut path, &mut errors);
    assert_eq!(errors.len(), 1);
    assert_eq!(errors[0].kind, ErrorKind::InvalidEnumeration);
    let steps = errors[0].path.steps();
    assert_eq!(steps.len(), 5);
    assert_eq!(steps[0], Step::Field(s("materials")));
    assert_eq!(steps[1], Step::Index(2));
    assert_eq!(steps[2], Step::Field(s("extensions")));
    assert_eq!(steps[3], Step::Field(s("EXT_pbr_attributes")));
    assert_eq!(steps[4], Step::Field(s("baseColorAttribSpace")));
    // the walk leaves the path as it found it
    assert_eq!(path.len(), 4);
}

#[test]
fn valid_attrib_space_yields_no_errors() {
    let a = PbrAttributes::default();
    let mut path = Path::root();
    let mut errors: Vec<ValidationError> = Vec::new();
    a.validate(&mut path, &mut errors);
    assert!(errors.is_empty());
}

#[test]
fn factor_with_one_bad_component_yields_exactly_one_error() {
    let f = PbrDiffuseFactor([
        1.5f64.to_bits(),
        0.0f64.to_bits(),
        0.0f64.to_bits(),
        0.0f64.to_bits(),
    ]);
    let mut path = Path::root();
    path.push_field("diffuseFactor");
    let mut errors: Vec<ValidationError> = Vec::new();
    f.validate(&mut path, &mut errors);
    assert_eq!(errors.len(), 1);
    assert_eq!(errors[0].kind, ErrorKind::OutOfRange);
    assert_eq!(errors[0].path.steps()[0], Step::Field(s("diffuseFactor")));
}

#[test]
fn factor_in_range_yields_no_errors() {
    let half = 0.5f64.to_bits();
    let f = PbrDiffuseFactor([half, half, half, half]);
    let mut path = Path::root();
    let mut errors: Vec<ValidationError> = Vec::new();
    f.validate(&mut path, &mut errors);
    assert!(errors.is_empty());
}

#[test]
fn factor_with_two_bad_components_still_yields_one_error() {
    let f = PbrDiffuseFactor([
        (-0.1f64).to_bits(),
        1.1f64.to_bits(),
        0.0f64.to_bits(),
        0.0f64.to_bits(),
    ]);
    let mut path = Path::root();
    let mut errors: Vec<ValidationError> = Vec::new();
    f.validate(&mut path, &mut errors);
    assert_eq!(errors.len(), 1);
    assert_eq!(errors[0].kind, ErrorKind::OutOfRange);
}

#[test]
fn nan_component_is_out_of_range() {
    let f = PbrDiffuseFactor([
        f64::NAN.to_bits(),
        0.0f64.to_bits(),
        0.0f64.to_bits(),
        0.0f64.to_bits(),
    ]);
    let mut path = Path::root();
    let mut errors: Vec<ValidationError> = Vec::new();
    f.validate(&mut path, &mut errors);
    assert_eq!(errors.len(), 1);
    assert_eq!(errors[0].kind, ErrorKind::OutOfRange);
}

#[test]
fn unit_interval_check_agrees_with_float_ordering_off_nan() {
    for (x, expected) in [
        (0.0f64, true),
        (-0.0f64, true),
        (1.0f64, true),
        (0.9999999f64, true),
        (1.0000001f64, false),
        (-0.0000001f64, false),
        (f64::INFINITY, false),
        (f64::NEG_INFINITY, false),
    ] {
        assert_eq!(in_unit_interval(x.to_bits()), expected, "{x}");
    }
    assert!(!in_unit_interval(f64::NAN.to_bits()));
}

#[test]
fn default_specular_glossiness_is_white_and_passes_validation() {
    let sg = PbrSpecularGlossiness::default();
    assert_eq!(sg.diffuse_factor.0, [1.0f64.to_bits(); 4]);
    assert_eq!(sg.specular_factor.0, [1.0f64.to_bits(); 3]);
    assert_eq!(sg.glossiness_factor.0, 1.0f64.to_bits());
    let mut path = Path::root();
    let mut errors: Vec<ValidationError> = Vec::new();
    sg.validate(&mut path, &mut errors);
    assert!(errors.is_empty());
}

fn material_with_two_problems() -> Material {
    let mut sg = PbrSpecularGlossiness::default();
    sg.glossiness_factor = StrengthFactor(2.0f64.to_bits());
    let mut attrs = PbrAttributes::default();
    attrs.base_color_attrib_space = Checked::Invalid;
    Material {
        pbr_specular_glossiness: Some(sg),
        unlit: None,
        ext_pbr_attributes: Some(attrs),
        aa_shadow: Some(AAShadow {
            shadow_texture: Some(TextureInfo(Value::Null)),
        }),
    }
}

#[test]
fn validation_reports_every_problem_not_just_the_first() {
    let m = material_with_two_problems();
    let mut path = Path::root();
    let mut errors: Vec<ValidationError> = Vec::new();
    m.validate(&mut path, &mut errors);
    assert_eq!(errors.len(), 2);
    // declaration order: the specular-glossiness slot precedes the attributes
    assert_eq!(errors[0].kind, ErrorKind::OutOfRange);
    assert_eq!(errors[1].kind, ErrorKind::InvalidEnumeration);
    let first = errors[0].path.steps();
    assert_eq!(
        first[0],
        Step::Field(s("KHR_materials_pbrSpecularGlossiness"))
    );
    assert_eq!(first[1], Step::Field(s("glossinessFactor")));
    let second = errors[1].path.steps();
    assert_eq!(second[0], Step::Field(s("EXT_pbr_attributes")));
    assert_eq!(second[1], Step::Field(s("baseColorAttribSpace")));
}

#[test]
fn validating_twice_gives_identical_sequences() {
    let m = material_with_two_problems();
    let mut path = Path::root();
    let mut first: Vec<ValidationError> = Vec::new();
    m.validate(&mut path, &mut first);
    let mut second: Vec<ValidationError> = Vec::new();
    m.validate(&mut path, &mut second);
    assert_eq!(first, second);
}

#[test]
fn path_pushes_and_pops_restore_the_location() {
    let mut path = Path::root();
    assert_eq!(path.len(), 0);
    path.push_field("materials");
    path.push_index(7);
    assert_eq!(path.len(), 2);
    path.pop_step();
    assert_eq!(path.len(), 1);
    assert_eq!(path.steps()[0], Step::Field(s("materials")));
    let copy = path.clone();
    assert_eq!(copy, path);
}

#[test]
fn validate_all_collects_the_same_findings() {
    let m = material_with_two_problems();
    let collected = m.validate_all();
    let mut path = Path::root();
    let mut walked: Vec<ValidationError> = Vec::new();
    m.validate(&mut path, &mut walked);
    assert_eq!(collected, walked);
    assert_eq!(collected.len(), 2);
}
