use material_graph::catalog::{
    get_default_inputs_for_node_type, get_input_socket_type, get_output_count_for_node_type,
    get_output_names_for_node_type, get_output_socket_type, is_connection_valid, MaterialNodeType,
};
use material_graph::fixed::{FX_HALF, FX_ONE};
use material_graph::value::{MaterialValue, Rgba, SocketName, SocketType};

const ALL_KINDS: [MaterialNodeType; 18] = [
    MaterialNodeType::TextureSample,
    MaterialNodeType::ColorConstant,
    MaterialNodeType::ScalarConstant,
    MaterialNodeType::Vector3Constant,
    MaterialNodeType::Fresnel,
    MaterialNodeType::NormalMap,
    MaterialNodeType::DetailNormal,
    MaterialNodeType::NoiseTexture,
    MaterialNodeType::CheckerPattern,
    MaterialNodeType::ColorMix,
    MaterialNodeType::Clamp,
    MaterialNodeType::Remap,
    MaterialNodeType::Multiply,
    MaterialNodeType::Add,
    MaterialNodeType::Subtract,
    MaterialNodeType::Lerp,
    MaterialNodeType::Power,
    MaterialNodeType::OneMinus,
];

#[test]
fn defaults_keys_equal_declared_input_domain() {
    // Every default entry is a declared input of its kind with the declared
    // type's tag.
    for kind in ALL_KINDS {
        let defaults = get_default_inputs_for_node_type(kind);
        assert!(!defaults.is_empty());
        for (name, value) in &defaults {
            let declared = get_input_socket_type(kind, *name);
            assert_eq!(declared, Some(value.tag()), "{kind:?} {name:?}");
        }
    }
}

#[test]
fn undeclared_sockets_have_no_type() {
    assert_eq!(
        get_input_socket_type(MaterialNodeType::ColorConstant, SocketName::Value),
        None
    );
    assert_eq!(
        get_input_socket_type(MaterialNodeType::Multiply, SocketName::Factor),
        None
    );
    assert_eq!(
        get_output_socket_type(MaterialNodeType::Multiply, SocketName::Color),
        None
    );
    assert_eq!(
        get_output_socket_type(MaterialNodeType::MaterialOutput, SocketName::Result),
        None
    );
}

#[test]
fn color_mix_defaults() {
    let defaults = get_default_inputs_for_node_type(MaterialNodeType::ColorMix);
    assert_eq!(defaults.len(), 3);
    assert_eq!(defaults[0].0, SocketName::ColorA);
    assert_eq!(
        defaults[0].1,
        MaterialValue::Color(Rgba { r: FX_ONE, g: 0, b: 0, a: FX_ONE })
    );
    assert_eq!(defaults[1].0, SocketName::ColorB);
    assert_eq!(
        defaults[1].1,
        MaterialValue::Color(Rgba { r: 0, g: FX_ONE, b: 0, a: FX_ONE })
    );
    assert_eq!(defaults[2].0, SocketName::Factor);
    assert_eq!(defaults[2].1, MaterialValue::Scalar(FX_HALF));
}

#[test]
fn material_output_defaults() {
    let defaults = get_default_inputs_for_node_type(MaterialNodeType::MaterialOutput);
    assert_eq!(defaults.len(), 4);
    assert_eq!(defaults[0].0, SocketName::BaseColor);
    assert_eq!(
        defaults[0].1,
        MaterialValue::Color(Rgba { r: 800_000, g: 800_000, b: 800_000, a: FX_ONE })
    );
    assert_eq!(defaults[1].1, MaterialValue::Scalar(0));
    assert_eq!(defaults[2].1, MaterialValue::Scalar(FX_HALF));
    assert_eq!(
        defaults[3].1,
        MaterialValue::Color(Rgba { r: 0, g: 0, b: 0, a: FX_ONE })
    );
}

#[test]
fn output_names_per_kind() {
    assert_eq!(
        get_output_names_for_node_type(MaterialNodeType::TextureSample),
        vec![SocketName::Rgb, SocketName::Alpha]
    );
    assert_eq!(
        get_output_names_for_node_type(MaterialNodeType::ColorMix),
        vec![SocketName::Color]
    );
    assert_eq!(
        get_output_names_for_node_type(MaterialNodeType::Multiply),
        vec![SocketName::Result]
    );
    assert_eq!(
        get_output_names_for_node_type(MaterialNodeType::MaterialOutput),
        Vec::<SocketName>::new()
    );
}

#[test]
fn output_counts_match_names() {
    for kind in ALL_KINDS {
        assert_eq!(
            get_output_count_for_node_type(kind),
            get_output_names_for_node_type(kind).len()
        );
    }
    assert_eq!(get_output_count_for_node_type(MaterialNodeType::MaterialOutput), 0);
}

#[test]
fn lerp_output_is_color() {
    assert_eq!(
        get_output_socket_type(MaterialNodeType::Lerp, SocketName::Result),
        Some(SocketType::Color)
    );
    assert_eq!(
        get_output_socket_type(MaterialNodeType::Clamp, SocketName::Result),
        Some(SocketType::Scalar)
    );
}

#[test]
fn validator_accepts_identical_types_both_ways() {
    // Color output into color input.
    assert!(is_connection_valid(
        MaterialNodeType::ColorConstant,
        SocketName::Color,
        MaterialNodeType::ColorMix,
        SocketName::ColorA,
    ));
    // Scalar output into scalar input.
    assert!(is_connection_valid(
        MaterialNodeType::ScalarConstant,
        SocketName::Value,
        MaterialNodeType::Multiply,
        SocketName::A,
    ));
    // Vector output into vector input.
    assert!(is_connection_valid(
        MaterialNodeType::Vector3Constant,
        SocketName::Vector,
        MaterialNodeType::Fresnel,
        SocketName::Normal,
    ));
}

#[test]
fn validator_accepts_the_two_coercions() {
    // Scalar broadcast into a color input.
    assert!(is_connection_valid(
        MaterialNodeType::ScalarConstant,
        SocketName::Value,
        MaterialNodeType::ColorMix,
        SocketName::ColorA,
    ));
    // Color reduced into a scalar input.
    assert!(is_connection_valid(
        MaterialNodeType::ColorConstant,
        SocketName::Color,
        MaterialNodeType::Multiply,
        SocketName::A,
    ));
}

#[test]
fn validator_rejects_vector_texture_pairs() {
    // Vector output into a texture input.
    assert!(!is_connection_valid(
        MaterialNodeType::Vector3Constant,
        SocketName::Vector,
        MaterialNodeType::TextureSample,
        SocketName::Texture,
    ));
    // Vector output into a scalar input.
    assert!(!is_connection_valid(
        MaterialNodeType::Vector3Constant,
        SocketName::Vector,
        MaterialNodeType::Multiply,
        SocketName::A,
    ));
    // Color output into a vector input.
    assert!(!is_connection_valid(
        MaterialNodeType::ColorConstant,
        SocketName::Color,
        MaterialNodeType::Fresnel,
        SocketName::Normal,
    ));
}

#[test]
fn validator_rejects_undeclared_sockets() {
    // The material output node has no outputs at all.
    assert!(!is_connection_valid(
        MaterialNodeType::MaterialOutput,
        SocketName::Result,
        MaterialNodeType::Multiply,
        SocketName::A,
    ));
    // A name that is not an output of the source kind.
    assert!(!is_connection_valid(
        MaterialNodeType::ColorConstant,
        SocketName::Result,
        MaterialNodeType::Multiply,
        SocketName::A,
    ));
    // A name that is not an input of the target kind.
    assert!(!is_connection_valid(
        MaterialNodeType::ScalarConstant,
        SocketName::Value,
        MaterialNodeType::Multiply,
        SocketName::Factor,
    ));
}
