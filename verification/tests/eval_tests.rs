use material_graph::catalog::MaterialNodeType;
use material_graph::eval::{evaluate_node_input, evaluate_node_output};
use material_graph::fixed::{FX_HALF, FX_ONE};
use material_graph::graph::MaterialGraph;
use material_graph::material::{compile_material_from_graph, SproutMaterial};
use material_graph::value::{GraphError, MaterialValue, Rgba, SocketName, Vec3Fx};

fn scalar(v: i64) -> MaterialValue {
    MaterialValue::Scalar(v)
}

fn color(r: i64, g: i64, b: i64, a: i64) -> MaterialValue {
    MaterialValue::Color(Rgba { r, g, b, a })
}

#[test]
fn constant_nodes_yield_their_stored_value() {
    let mut graph = MaterialGraph::new();
    let c = graph.add_node(MaterialNodeType::ColorConstant, "Color".to_string());
    let s = graph.add_node(MaterialNodeType::ScalarConstant, "Scalar".to_string());
    let v = graph.add_node(MaterialNodeType::Vector3Constant, "Vector3".to_string());
    graph
        .set_node_input(c, SocketName::Color, color(100_000, 200_000, 300_000, FX_ONE))
        .unwrap();
    graph
        .set_node_input(s, SocketName::Value, scalar(7_000_000))
        .unwrap();
    assert_eq!(
        evaluate_node_output(&graph, c, SocketName::Color),
        Ok(Some(color(100_000, 200_000, 300_000, FX_ONE)))
    );
    assert_eq!(
        evaluate_node_output(&graph, s, SocketName::Value),
        Ok(Some(scalar(7_000_000)))
    );
    assert_eq!(
        evaluate_node_output(&graph, v, SocketName::Vector),
        Ok(Some(MaterialValue::Vector3(Vec3Fx {
            x: FX_ONE,
            y: FX_ONE,
            z: FX_ONE
        })))
    );
}

#[test]
fn undeclared_output_yields_nothing() {
    let mut graph = MaterialGraph::new();
    let c = graph.add_node(MaterialNodeType::ColorConstant, "Color".to_string());
    assert_eq!(evaluate_node_output(&graph, c, SocketName::Result), Ok(None));
    assert_eq!(evaluate_node_output(&graph, 1, SocketName::Result), Ok(None));
}

#[test]
fn missing_node_yields_nothing() {
    let graph = MaterialGraph::new();
    assert_eq!(evaluate_node_output(&graph, 42, SocketName::Color), Ok(None));
    assert_eq!(evaluate_node_input(&graph, 42, SocketName::Color), Ok(None));
}

#[test]
fn multiply_two_connected_scalars() {
    // Multiply with A = Scalar(3.0) and B = Scalar(4.0) connected yields
    // Scalar(12.0).
    let mut graph = MaterialGraph::new();
    let a = graph.add_node(MaterialNodeType::ScalarConstant, "A".to_string());
    let b = graph.add_node(MaterialNodeType::ScalarConstant, "B".to_string());
    let mul = graph.add_node(MaterialNodeType::Multiply, "Multiply".to_string());
    graph.set_node_input(a, SocketName::Value, scalar(3_000_000)).unwrap();
    graph.set_node_input(b, SocketName::Value, scalar(4_000_000)).unwrap();
    graph.connect(a, SocketName::Value, mul, SocketName::A).unwrap();
    graph.connect(b, SocketName::Value, mul, SocketName::B).unwrap();
    assert_eq!(
        evaluate_node_output(&graph, mul, SocketName::Result),
        Ok(Some(scalar(12_000_000)))
    );
}

#[test]
fn multiply_color_by_scalar_keeps_alpha() {
    // Multiply with A = Color([1,0,0,1]) and B = Scalar(0.5) yields
    // Color([0.5,0,0,1]).
    let mut graph = MaterialGraph::new();
    let a = graph.add_node(MaterialNodeType::ColorConstant, "A".to_string());
    let mul = graph.add_node(MaterialNodeType::Multiply, "Multiply".to_string());
    graph
        .set_node_input(a, SocketName::Color, color(FX_ONE, 0, 0, FX_ONE))
        .unwrap();
    graph.set_node_input(mul, SocketName::B, scalar(FX_HALF)).unwrap();
    // The color coerces into the scalar input slot.
    graph.connect(a, SocketName::Color, mul, SocketName::A).unwrap();
    assert_eq!(
        evaluate_node_output(&graph, mul, SocketName::Result),
        Ok(Some(color(FX_HALF, 0, 0, FX_ONE)))
    );
}

#[test]
fn add_and_subtract_colors_componentwise() {
    let mut graph = MaterialGraph::new();
    let x = graph.add_node(MaterialNodeType::ColorConstant, "X".to_string());
    let y = graph.add_node(MaterialNodeType::ColorConstant, "Y".to_string());
    let add = graph.add_node(MaterialNodeType::Add, "Add".to_string());
    let sub = graph.add_node(MaterialNodeType::Subtract, "Subtract".to_string());
    graph
        .set_node_input(x, SocketName::Color, color(100_000, 200_000, 300_000, FX_ONE))
        .unwrap();
    graph
        .set_node_input(y, SocketName::Color, color(50_000, 60_000, 70_000, 0))
        .unwrap();
    for target in [add, sub] {
        graph.connect(x, SocketName::Color, target, SocketName::A).unwrap();
        graph.connect(y, SocketName::Color, target, SocketName::B).unwrap();
    }
    assert_eq!(
        evaluate_node_output(&graph, add, SocketName::Result),
        Ok(Some(color(150_000, 260_000, 370_000, FX_ONE)))
    );
    assert_eq!(
        evaluate_node_output(&graph, sub, SocketName::Result),
        Ok(Some(color(50_000, 140_000, 230_000, FX_ONE)))
    );
}

#[test]
fn add_mismatched_operands_yield_nothing() {
    let mut graph = MaterialGraph::new();
    let x = graph.add_node(MaterialNodeType::ColorConstant, "X".to_string());
    let add = graph.add_node(MaterialNodeType::Add, "Add".to_string());
    // A resolves to a color; B stays the stored scalar default.
    graph.connect(x, SocketName::Color, add, SocketName::A).unwrap();
    assert_eq!(evaluate_node_output(&graph, add, SocketName::Result), Ok(None));
}

#[test]
fn lerp_blends_scalars_and_colors() {
    let mut graph = MaterialGraph::new();
    let lerp = graph.add_node(MaterialNodeType::Lerp, "Lerp".to_string());
    // Stored defaults: A = black, B = white, Alpha = 0.5.
    assert_eq!(
        evaluate_node_output(&graph, lerp, SocketName::Result),
        Ok(Some(color(FX_HALF, FX_HALF, FX_HALF, FX_ONE)))
    );
    let s = graph.add_node(MaterialNodeType::ScalarConstant, "S".to_string());
    graph.set_node_input(s, SocketName::Value, scalar(FX_ONE)).unwrap();
    graph.connect(s, SocketName::Value, lerp, SocketName::Alpha).unwrap();
    assert_eq!(
        evaluate_node_output(&graph, lerp, SocketName::Result),
        Ok(Some(color(FX_ONE, FX_ONE, FX_ONE, FX_ONE)))
    );
}

#[test]
fn clamp_uses_stored_bounds() {
    let mut graph = MaterialGraph::new();
    let clamp = graph.add_node(MaterialNodeType::Clamp, "Clamp".to_string());
    graph.set_node_input(clamp, SocketName::Value, scalar(2_000_000)).unwrap();
    graph.set_node_input(clamp, SocketName::Min, scalar(100_000)).unwrap();
    graph.set_node_input(clamp, SocketName::Max, scalar(900_000)).unwrap();
    assert_eq!(
        evaluate_node_output(&graph, clamp, SocketName::Result),
        Ok(Some(scalar(900_000)))
    );
}

#[test]
fn remap_five_from_ten_into_hundred() {
    // Remap with value 5, from [0, 10] into [0, 100], resolves to 50.
    let mut graph = MaterialGraph::new();
    let remap = graph.add_node(MaterialNodeType::Remap, "Remap".to_string());
    graph.set_node_input(remap, SocketName::Value, scalar(5_000_000)).unwrap();
    graph.set_node_input(remap, SocketName::FromMin, scalar(0)).unwrap();
    graph.set_node_input(remap, SocketName::FromMax, scalar(10_000_000)).unwrap();
    graph.set_node_input(remap, SocketName::ToMin, scalar(0)).unwrap();
    graph.set_node_input(remap, SocketName::ToMax, scalar(100_000_000)).unwrap();
    assert_eq!(
        evaluate_node_output(&graph, remap, SocketName::Result),
        Ok(Some(scalar(50_000_000)))
    );
}

#[test]
fn power_one_minus_fresnel_noise_and_patterns() {
    let mut graph = MaterialGraph::new();
    let power = graph.add_node(MaterialNodeType::Power, "Power".to_string());
    graph.set_node_input(power, SocketName::Base, scalar(3_000_000)).unwrap();
    // The stored default exponent is 2.
    assert_eq!(
        evaluate_node_output(&graph, power, SocketName::Result),
        Ok(Some(scalar(9_000_000)))
    );

    let one_minus = graph.add_node(MaterialNodeType::OneMinus, "One Minus".to_string());
    graph.set_node_input(one_minus, SocketName::Input, scalar(300_000)).unwrap();
    assert_eq!(
        evaluate_node_output(&graph, one_minus, SocketName::Result),
        Ok(Some(scalar(700_000)))
    );

    let fresnel = graph.add_node(MaterialNodeType::Fresnel, "Fresnel".to_string());
    assert_eq!(
        evaluate_node_output(&graph, fresnel, SocketName::Fresnel),
        Ok(Some(scalar(33_735)))
    );

    let noise = graph.add_node(MaterialNodeType::NoiseTexture, "Noise".to_string());
    // The stored default scale is 5; half of it wraps to 0.5.
    assert_eq!(
        evaluate_node_output(&graph, noise, SocketName::Noise),
        Ok(Some(scalar(FX_HALF)))
    );

    let checker = graph.add_node(MaterialNodeType::CheckerPattern, "Checker".to_string());
    assert_eq!(
        evaluate_node_output(&graph, checker, SocketName::Pattern),
        Ok(Some(color(FX_ONE, FX_ONE, FX_ONE, FX_ONE)))
    );

    let texture = graph.add_node(MaterialNodeType::TextureSample, "Texture".to_string());
    assert_eq!(
        evaluate_node_output(&graph, texture, SocketName::Rgb),
        Ok(Some(color(FX_HALF, FX_HALF, FX_HALF, FX_ONE)))
    );
    assert_eq!(
        evaluate_node_output(&graph, texture, SocketName::Alpha),
        Ok(Some(scalar(FX_ONE)))
    );

    let normal = graph.add_node(MaterialNodeType::NormalMap, "Normal Map".to_string());
    assert_eq!(
        evaluate_node_output(&graph, normal, SocketName::Normal),
        Ok(Some(MaterialValue::Vector3(Vec3Fx { x: 0, y: 0, z: FX_ONE })))
    );

    let detail = graph.add_node(MaterialNodeType::DetailNormal, "Detail Normal".to_string());
    assert_eq!(
        evaluate_node_output(&graph, detail, SocketName::Normal),
        Ok(Some(MaterialValue::Vector3(Vec3Fx { x: 0, y: 0, z: FX_ONE })))
    );
}

#[test]
fn power_exponent_connected_overrides_stored() {
    // A connected exponent decides; the stored default 2.0 does not.
    let mut graph = MaterialGraph::new();
    let e = graph.add_node(MaterialNodeType::ScalarConstant, "Exponent".to_string());
    let power = graph.add_node(MaterialNodeType::Power, "Power".to_string());
    graph.set_node_input(e, SocketName::Value, scalar(3_000_000)).unwrap();
    graph.set_node_input(power, SocketName::Base, scalar(2_000_000)).unwrap();
    graph.connect(e, SocketName::Value, power, SocketName::Exponent).unwrap();
    assert_eq!(
        evaluate_node_output(&graph, power, SocketName::Result),
        Ok(Some(scalar(8_000_000)))
    );
}

#[test]
fn clamp_bounds_connected_override_stored() {
    let mut graph = MaterialGraph::new();
    let hi = graph.add_node(MaterialNodeType::ScalarConstant, "Max".to_string());
    let clamp = graph.add_node(MaterialNodeType::Clamp, "Clamp".to_string());
    graph.set_node_input(hi, SocketName::Value, scalar(300_000)).unwrap();
    graph.set_node_input(clamp, SocketName::Value, scalar(2_000_000)).unwrap();
    // The stored Max stays at its default 1.0; the connection wins.
    graph.connect(hi, SocketName::Value, clamp, SocketName::Max).unwrap();
    assert_eq!(
        evaluate_node_output(&graph, clamp, SocketName::Result),
        Ok(Some(scalar(300_000)))
    );
}

#[test]
fn remap_range_connected_overrides_stored() {
    let mut graph = MaterialGraph::new();
    let top = graph.add_node(MaterialNodeType::ScalarConstant, "To Max".to_string());
    let remap = graph.add_node(MaterialNodeType::Remap, "Remap".to_string());
    graph.set_node_input(top, SocketName::Value, scalar(200_000_000)).unwrap();
    graph.set_node_input(remap, SocketName::Value, scalar(5_000_000)).unwrap();
    graph.set_node_input(remap, SocketName::FromMax, scalar(10_000_000)).unwrap();
    // The stored To Max stays at its default 1.0; the connection maps
    // [0, 10] into [0, 200] instead.
    graph.connect(top, SocketName::Value, remap, SocketName::ToMax).unwrap();
    assert_eq!(
        evaluate_node_output(&graph, remap, SocketName::Result),
        Ok(Some(scalar(100_000_000)))
    );
}

#[test]
fn fresnel_ior_connected_overrides_stored() {
    let mut graph = MaterialGraph::new();
    let ior = graph.add_node(MaterialNodeType::ScalarConstant, "IOR".to_string());
    let fresnel = graph.add_node(MaterialNodeType::Fresnel, "Fresnel".to_string());
    graph.set_node_input(ior, SocketName::Value, scalar(3_000_000)).unwrap();
    graph.connect(ior, SocketName::Value, fresnel, SocketName::Ior).unwrap();
    // ((3 - 1) / (3 + 1))^2 = 0.25.
    assert_eq!(
        evaluate_node_output(&graph, fresnel, SocketName::Fresnel),
        Ok(Some(scalar(250_000)))
    );
}

#[test]
fn noise_scale_connected_overrides_stored() {
    let mut graph = MaterialGraph::new();
    let s = graph.add_node(MaterialNodeType::ScalarConstant, "Scale".to_string());
    let noise = graph.add_node(MaterialNodeType::NoiseTexture, "Noise".to_string());
    graph.set_node_input(s, SocketName::Value, scalar(4_000_000)).unwrap();
    graph.connect(s, SocketName::Value, noise, SocketName::Scale).unwrap();
    // Half of 4 is 2; its fractional part is 0.
    assert_eq!(
        evaluate_node_output(&graph, noise, SocketName::Noise),
        Ok(Some(scalar(0)))
    );
}

#[test]
fn checker_color_connected_overrides_stored() {
    let mut graph = MaterialGraph::new();
    let c = graph.add_node(MaterialNodeType::ColorConstant, "Red".to_string());
    let checker = graph.add_node(MaterialNodeType::CheckerPattern, "Checker".to_string());
    graph.set_node_input(c, SocketName::Color, color(FX_ONE, 0, 0, FX_ONE)).unwrap();
    graph.connect(c, SocketName::Color, checker, SocketName::Color1).unwrap();
    assert_eq!(
        evaluate_node_output(&graph, checker, SocketName::Pattern),
        Ok(Some(color(FX_ONE, 0, 0, FX_ONE)))
    );
}

#[test]
fn cycle_through_parameter_input_raises_cyclic_graph_error() {
    // The cycle runs through Power's Exponent, a parameter input: the
    // guard must follow it and report the cycle.
    let mut graph = MaterialGraph::new();
    let add = graph.add_node(MaterialNodeType::Add, "Add".to_string());
    let power = graph.add_node(MaterialNodeType::Power, "Power".to_string());
    graph.connect(add, SocketName::Result, power, SocketName::Exponent).unwrap();
    graph.connect(power, SocketName::Result, add, SocketName::A).unwrap();
    assert_eq!(
        evaluate_node_output(&graph, power, SocketName::Result),
        Err(GraphError::CyclicGraphError)
    );
    assert_eq!(
        evaluate_node_output(&graph, add, SocketName::Result),
        Err(GraphError::CyclicGraphError)
    );
}

#[test]
fn cycle_through_discarded_placeholder_input_raises_cyclic_graph_error() {
    // The detail normal node discards its inputs, but still resolves them:
    // feeding its own output back into one is a reported cycle, not a
    // silently ignored edge.
    let mut graph = MaterialGraph::new();
    let detail = graph.add_node(MaterialNodeType::DetailNormal, "Detail".to_string());
    graph.connect(detail, SocketName::Normal, detail, SocketName::BaseNormal).unwrap();
    assert_eq!(
        evaluate_node_output(&graph, detail, SocketName::Normal),
        Err(GraphError::CyclicGraphError)
    );
}

#[test]
fn cycle_through_clamp_bound_raises_cyclic_graph_error() {
    let mut graph = MaterialGraph::new();
    let clamp = graph.add_node(MaterialNodeType::Clamp, "Clamp".to_string());
    let one_minus = graph.add_node(MaterialNodeType::OneMinus, "One Minus".to_string());
    graph.connect(clamp, SocketName::Result, one_minus, SocketName::Input).unwrap();
    graph.connect(one_minus, SocketName::Result, clamp, SocketName::Min).unwrap();
    assert_eq!(
        evaluate_node_output(&graph, clamp, SocketName::Result),
        Err(GraphError::CyclicGraphError)
    );
}

#[test]
fn three_node_chain_compiles_base_color() {
    // ColorConstant(1,0,0,1) wired into ColorMix's first color, with the
    // second color set to white and the default factor 0.5, wired into the
    // material output's base color: a*(1-f) + b*f = [1, 0.5, 0.5, 1].
    let mut material = SproutMaterial::default();
    let constant = material
        .material_graph
        .add_node(MaterialNodeType::ColorConstant, "Color".to_string());
    let mix = material
        .material_graph
        .add_node(MaterialNodeType::ColorMix, "Color Mix".to_string());
    material
        .material_graph
        .set_node_input(constant, SocketName::Color, color(FX_ONE, 0, 0, FX_ONE))
        .unwrap();
    material
        .material_graph
        .set_node_input(mix, SocketName::ColorB, color(FX_ONE, FX_ONE, FX_ONE, FX_ONE))
        .unwrap();
    material
        .material_graph
        .connect(constant, SocketName::Color, mix, SocketName::ColorA)
        .unwrap();
    material
        .material_graph
        .connect(mix, SocketName::Color, 1, SocketName::BaseColor)
        .unwrap();
    assert_eq!(compile_material_from_graph(&mut material), Ok(()));
    assert_eq!(
        material.albedo_color,
        Rgba { r: FX_ONE, g: FX_HALF, b: FX_HALF, a: FX_ONE }
    );
}

#[test]
fn color_mix_with_catalog_default_second_color() {
    // With the catalog's stored green second color, mixing red in at
    // factor 0.5 yields [0.5, 0.5, 0, 1].
    let mut graph = MaterialGraph::new();
    let constant = graph.add_node(MaterialNodeType::ColorConstant, "Color".to_string());
    let mix = graph.add_node(MaterialNodeType::ColorMix, "Color Mix".to_string());
    graph
        .set_node_input(constant, SocketName::Color, color(FX_ONE, 0, 0, FX_ONE))
        .unwrap();
    graph.connect(constant, SocketName::Color, mix, SocketName::ColorA).unwrap();
    assert_eq!(
        evaluate_node_output(&graph, mix, SocketName::Color),
        Ok(Some(color(FX_HALF, FX_HALF, 0, FX_ONE)))
    );
}

#[test]
fn two_node_cycle_raises_cyclic_graph_error() {
    // A feeds B and B feeds back into A: evaluation reports the cycle
    // instead of recursing without bound.
    let mut graph = MaterialGraph::new();
    let a = graph.add_node(MaterialNodeType::Add, "A".to_string());
    let b = graph.add_node(MaterialNodeType::Add, "B".to_string());
    graph.connect(a, SocketName::Result, b, SocketName::A).unwrap();
    graph.connect(b, SocketName::Result, a, SocketName::A).unwrap();
    assert_eq!(
        evaluate_node_output(&graph, a, SocketName::Result),
        Err(GraphError::CyclicGraphError)
    );
    assert_eq!(
        evaluate_node_output(&graph, b, SocketName::Result),
        Err(GraphError::CyclicGraphError)
    );
}

#[test]
fn self_loop_raises_cyclic_graph_error() {
    let mut graph = MaterialGraph::new();
    let a = graph.add_node(MaterialNodeType::Add, "A".to_string());
    graph.connect(a, SocketName::Result, a, SocketName::A).unwrap();
    assert_eq!(
        evaluate_node_output(&graph, a, SocketName::Result),
        Err(GraphError::CyclicGraphError)
    );
}

#[test]
fn cyclic_graph_fails_compilation_and_leaves_material_unchanged() {
    let mut material = SproutMaterial::default();
    let a = material
        .material_graph
        .add_node(MaterialNodeType::Add, "A".to_string());
    let b = material
        .material_graph
        .add_node(MaterialNodeType::Add, "B".to_string());
    material.material_graph.connect(a, SocketName::Result, b, SocketName::A).unwrap();
    material.material_graph.connect(b, SocketName::Result, a, SocketName::A).unwrap();
    material
        .material_graph
        .connect(a, SocketName::Result, 1, SocketName::Metallic)
        .unwrap();
    let albedo_before = material.albedo_color;
    let metallic_before = material.metallic;
    assert_eq!(
        compile_material_from_graph(&mut material),
        Err(GraphError::CyclicGraphError)
    );
    assert_eq!(material.albedo_color, albedo_before);
    assert_eq!(material.metallic, metallic_before);
}

#[test]
fn unconnected_sink_compiles_from_stored_defaults() {
    let mut material = SproutMaterial::default();
    // Make the current properties differ from the sink's stored defaults.
    material.albedo_color = Rgba { r: 0, g: 0, b: 0, a: 0 };
    material.metallic = FX_ONE;
    material.roughness = 0;
    assert_eq!(compile_material_from_graph(&mut material), Ok(()));
    assert_eq!(
        material.albedo_color,
        Rgba { r: 800_000, g: 800_000, b: 800_000, a: FX_ONE }
    );
    assert_eq!(material.metallic, 0);
    assert_eq!(material.roughness, FX_HALF);
    assert_eq!(material.emission_strength, FX_ONE);
}

#[test]
fn compile_without_sink_reports_invalid_graph() {
    let mut material = SproutMaterial::default();
    material.material_graph.nodes.clear();
    let metallic_before = material.metallic;
    assert_eq!(
        compile_material_from_graph(&mut material),
        Err(GraphError::InvalidGraphError)
    );
    assert_eq!(material.metallic, metallic_before);
}

#[test]
fn compile_writes_emission_strength_from_alpha() {
    let mut material = SproutMaterial::default();
    let constant = material
        .material_graph
        .add_node(MaterialNodeType::ColorConstant, "Emission".to_string());
    material
        .material_graph
        .set_node_input(
            constant,
            SocketName::Color,
            color(200_000, 300_000, 400_000, 2_000_000),
        )
        .unwrap();
    material
        .material_graph
        .connect(constant, SocketName::Color, 1, SocketName::Emission)
        .unwrap();
    assert_eq!(compile_material_from_graph(&mut material), Ok(()));
    assert_eq!(material.emission.r, 200_000);
    assert_eq!(material.emission.g, 300_000);
    assert_eq!(material.emission.b, 400_000);
    assert_eq!(material.emission_strength, 2_000_000);
}

#[test]
fn scalar_into_sink_metallic() {
    let mut material = SproutMaterial::default();
    let s = material
        .material_graph
        .add_node(MaterialNodeType::ScalarConstant, "Metal".to_string());
    material
        .material_graph
        .set_node_input(s, SocketName::Value, scalar(FX_ONE))
        .unwrap();
    material
        .material_graph
        .connect(s, SocketName::Value, 1, SocketName::Metallic)
        .unwrap();
    assert_eq!(compile_material_from_graph(&mut material), Ok(()));
    assert_eq!(material.metallic, FX_ONE);
}
