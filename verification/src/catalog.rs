//! The node catalog: the closed enumeration of node kinds, and for each
//! kind the declared input sockets with their default values, the declared
//! output sockets, and the semantic type of every socket. The connection
//! validator is also here: it is a pure function of the catalog tables.

use vstd::prelude::*;

use crate::fixed::FX_ONE;
use crate::fixed::FX_HALF;
use crate::value::MaterialValue;
use crate::value::Rgba;
use crate::value::SocketName;
use crate::value::SocketType;
use crate::value::ValueView;
use crate::value::Vec3Fx;

verus! {

/// The closed enumeration of node kinds.
#[derive(Clone, Copy, Debug, PartialEq, Eq, Structural)]
pub enum MaterialNodeType {
    // Input nodes.
    TextureSample,
    ColorConstant,
    ScalarConstant,
    Vector3Constant,
    // PBR-specific nodes.
    Fresnel,
    NormalMap,
    DetailNormal,
    // Noise and patterns.
    NoiseTexture,
    CheckerPattern,
    // Utility nodes.
    ColorMix,
    Clamp,
    Remap,
    // Math nodes.
    Multiply,
    Add,
    Subtract,
    Lerp,
    Power,
    OneMinus,
    // The sink: every graph holds exactly one.
    MaterialOutput,
}

/// The declared type of an input socket, or `None` when the kind declares
/// no input socket of that name.
pub open spec fn spec_input_socket_type(kind: MaterialNodeType, name: SocketName) -> Option<
    SocketType,
> {
    match kind {
        MaterialNodeType::TextureSample => match name {
            SocketName::Texture => Some(SocketType::Texture),
            SocketName::Uv => Some(SocketType::Vector3),
            _ => None,
        },
        MaterialNodeType::ColorConstant => match name {
            SocketName::Color => Some(SocketType::Color),
            _ => None,
        },
        MaterialNodeType::ScalarConstant => match name {
            SocketName::Value => Some(SocketType::Scalar),
            _ => None,
        },
        MaterialNodeType::Vector3Constant => match name {
            SocketName::Vector => Some(SocketType::Vector3),
            _ => None,
        },
        MaterialNodeType::Fresnel => match name {
            SocketName::Ior => Some(SocketType::Scalar),
            SocketName::Normal => Some(SocketType::Vector3),
            _ => None,
        },
        MaterialNodeType::NormalMap => match name {
            SocketName::NormalTexture => Some(SocketType::Texture),
            SocketName::Strength => Some(SocketType::Scalar),
            _ => None,
        },
        MaterialNodeType::DetailNormal => match name {
            SocketName::BaseNormal => Some(SocketType::Vector3),
            SocketName::DetailNormal => Some(SocketType::Vector3),
            SocketName::Strength => Some(SocketType::Scalar),
            _ => None,
        },
        MaterialNodeType::NoiseTexture => match name {
            SocketName::Scale => Some(SocketType::Scalar),
            SocketName::Detail => Some(SocketType::Scalar),
            SocketName::Distortion => Some(SocketType::Scalar),
            _ => None,
        },
        MaterialNodeType::CheckerPattern => match name {
            SocketName::Color1 => Some(SocketType::Color),
            SocketName::Color2 => Some(SocketType::Color),
            SocketName::Scale => Some(SocketType::Scalar),
            _ => None,
        },
        MaterialNodeType::ColorMix => match name {
            SocketName::ColorA => Some(SocketType::Color),
            SocketName::ColorB => Some(SocketType::Color),
            SocketName::Factor => Some(SocketType::Scalar),
            _ => None,
        },
        MaterialNodeType::Clamp => match name {
            SocketName::Value => Some(SocketType::Scalar),
            SocketName::Min => Some(SocketType::Scalar),
            SocketName::Max => Some(SocketType::Scalar),
            _ => None,
        },
        MaterialNodeType::Remap => match name {
            SocketName::Value => Some(SocketType::Scalar),
            SocketName::FromMin => Some(SocketType::Scalar),
            SocketName::FromMax => Some(SocketType::Scalar),
            SocketName::ToMin => Some(SocketType::Scalar),
            SocketName::ToMax => Some(SocketType::Scalar),
            _ => None,
        },
        MaterialNodeType::Multiply | MaterialNodeType::Add | MaterialNodeType::Subtract => match name {
            SocketName::A => Some(SocketType::Scalar),
            SocketName::B => Some(SocketType::Scalar),
            _ => None,
        },
        MaterialNodeType::Lerp => match name {
            SocketName::A => Some(SocketType::Color),
            SocketName::B => Some(SocketType::Color),
            SocketName::Alpha => Some(SocketType::Scalar),
            _ => None,
        },
        MaterialNodeType::Power => match name {
            SocketName::Base => Some(SocketType::Scalar),
            SocketName::Exponent => Some(SocketType::Scalar),
            _ => None,
        },
        MaterialNodeType::OneMinus => match name {
            SocketName::Input => Some(SocketType::Scalar),
            _ => None,
        },
        MaterialNodeType::MaterialOutput => match name {
            SocketName::BaseColor => Some(SocketType::Color),
            SocketName::Metallic => Some(SocketType::Scalar),
            SocketName::Roughness => Some(SocketType::Scalar),
            SocketName::Emission => Some(SocketType::Color),
            _ => None,
        },
    }
}

/// The declared type of an output socket, or `None` when the kind declares
/// no output socket of that name.
pub open spec fn spec_output_socket_type(kind: MaterialNodeType, name: SocketName) -> Option<
    SocketType,
> {
    match kind {
        MaterialNodeType::TextureSample => match name {
            SocketName::Rgb => Some(SocketType::Color),
            SocketName::Alpha => Some(SocketType::Scalar),
            _ => None,
        },
        MaterialNodeType::ColorConstant => match name {
            SocketName::Color => Some(SocketType::Color),
            _ => None,
        },
        MaterialNodeType::ScalarConstant => match name {
            SocketName::Value => Some(SocketType::Scalar),
            _ => None,
        },
        MaterialNodeType::Vector3Constant => match name {
            SocketName::Vector => Some(SocketType::Vector3),
            _ => None,
        },
        MaterialNodeType::Fresnel => match name {
            SocketName::Fresnel => Some(SocketType::Scalar),
            _ => None,
        },
        MaterialNodeType::NormalMap | MaterialNodeType::DetailNormal => match name {
            SocketName::Normal => Some(SocketType::Vector3),
            _ => None,
        },
        MaterialNodeType::NoiseTexture => match name {
            SocketName::Noise => Some(SocketType::Scalar),
            _ => None,
        },
        MaterialNodeType::CheckerPattern => match name {
            SocketName::Pattern => Some(SocketType::Color),
            _ => None,
        },
        MaterialNodeType::ColorMix => match name {
            SocketName::Color => Some(SocketType::Color),
            _ => None,
        },
        MaterialNodeType::Clamp
        | MaterialNodeType::Remap
        | MaterialNodeType::Multiply
        | MaterialNodeType::Add
        | MaterialNodeType::Subtract
        | MaterialNodeType::Power
        | MaterialNodeType::OneMinus => match name {
            SocketName::Result => Some(SocketType::Scalar),
            _ => None,
        },
        MaterialNodeType::Lerp => match name {
            SocketName::Result => Some(SocketType::Color),
            _ => None,
        },
        MaterialNodeType::MaterialOutput => None,
    }
}

/// The declared output socket names of a kind, in catalog order. Empty for
/// the material output node.
pub open spec fn spec_output_names(kind: MaterialNodeType) -> Seq<SocketName> {
    match kind {
        MaterialNodeType::TextureSample => seq![SocketName::Rgb, SocketName::Alpha],
        MaterialNodeType::ColorConstant => seq![SocketName::Color],
        MaterialNodeType::ScalarConstant => seq![SocketName::Value],
        MaterialNodeType::Vector3Constant => seq![SocketName::Vector],
        MaterialNodeType::Fresnel => seq![SocketName::Fresnel],
        MaterialNodeType::NormalMap | MaterialNodeType::DetailNormal => seq![SocketName::Normal],
        MaterialNodeType::NoiseTexture => seq![SocketName::Noise],
        MaterialNodeType::CheckerPattern => seq![SocketName::Pattern],
        MaterialNodeType::ColorMix => seq![SocketName::Color],
        MaterialNodeType::Clamp
        | MaterialNodeType::Remap
        | MaterialNodeType::Multiply
        | MaterialNodeType::Add
        | MaterialNodeType::Subtract
        | MaterialNodeType::Power
        | MaterialNodeType::OneMinus
        | MaterialNodeType::Lerp => seq![SocketName::Result],
        MaterialNodeType::MaterialOutput => Seq::empty(),
    }
}

/// The declared input sockets of a kind with their default values, in
/// catalog order.
pub open spec fn spec_default_inputs(kind: MaterialNodeType) -> Seq<(SocketName, ValueView)> {
    match kind {
        MaterialNodeType::TextureSample => seq![
            (SocketName::Texture, ValueView::Texture(Seq::empty())),
            (SocketName::Uv, ValueView::Vector3(Vec3Fx { x: 0, y: 0, z: 0 })),
        ],
        MaterialNodeType::ColorConstant => seq![
            (SocketName::Color, ValueView::Color(Rgba { r: FX_ONE, g: FX_ONE, b: FX_ONE, a: FX_ONE })),
        ],
        MaterialNodeType::ScalarConstant => seq![(SocketName::Value, ValueView::Scalar(FX_ONE))],
        MaterialNodeType::Vector3Constant => seq![
            (SocketName::Vector, ValueView::Vector3(Vec3Fx { x: FX_ONE, y: FX_ONE, z: FX_ONE })),
        ],
        MaterialNodeType::Fresnel => seq![
            (SocketName::Ior, ValueView::Scalar(1_450_000)),
            (SocketName::Normal, ValueView::Vector3(Vec3Fx { x: 0, y: 0, z: FX_ONE })),
        ],
        MaterialNodeType::NormalMap => seq![
            (SocketName::NormalTexture, ValueView::Texture(Seq::empty())),
            (SocketName::Strength, ValueView::Scalar(FX_ONE)),
        ],
        MaterialNodeType::DetailNormal => seq![
            (SocketName::BaseNormal, ValueView::Vector3(Vec3Fx { x: 0, y: 0, z: FX_ONE })),
            (SocketName::DetailNormal, ValueView::Vector3(Vec3Fx { x: 0, y: 0, z: FX_ONE })),
            (SocketName::Strength, ValueView::Scalar(FX_ONE)),
        ],
        MaterialNodeType::NoiseTexture => seq![
            (SocketName::Scale, ValueView::Scalar(5_000_000)),
            (SocketName::Detail, ValueView::Scalar(2_000_000)),
            (SocketName::Distortion, ValueView::Scalar(0)),
        ],
        MaterialNodeType::CheckerPattern => seq![
            (SocketName::Color1, ValueView::Color(Rgba { r: FX_ONE, g: FX_ONE, b: FX_ONE, a: FX_ONE })),
            (SocketName::Color2, ValueView::Color(Rgba { r: 0, g: 0, b: 0, a: FX_ONE })),
            (SocketName::Scale, ValueView::Scalar(8_000_000)),
        ],
        MaterialNodeType::ColorMix => seq![
            (SocketName::ColorA, ValueView::Color(Rgba { r: FX_ONE, g: 0, b: 0, a: FX_ONE })),
            (SocketName::ColorB, ValueView::Color(Rgba { r: 0, g: FX_ONE, b: 0, a: FX_ONE })),
            (SocketName::Factor, ValueView::Scalar(FX_HALF)),
        ],
        MaterialNodeType::Clamp => seq![
            (SocketName::Value, ValueView::Scalar(FX_HALF)),
            (SocketName::Min, ValueView::Scalar(0)),
            (SocketName::Max, ValueView::Scalar(FX_ONE)),
        ],
        MaterialNodeType::Remap => seq![
            (SocketName::Value, ValueView::Scalar(FX_HALF)),
            (SocketName::FromMin, ValueView::Scalar(0)),
            (SocketName::FromMax, ValueView::Scalar(FX_ONE)),
            (SocketName::ToMin, ValueView::Scalar(0)),
            (SocketName::ToMax, ValueView::Scalar(FX_ONE)),
        ],
        MaterialNodeType::Multiply => seq![
            (SocketName::A, ValueView::Scalar(FX_ONE)),
            (SocketName::B, ValueView::Scalar(FX_ONE)),
        ],
        MaterialNodeType::Add => seq![
            (SocketName::A, ValueView::Scalar(0)),
            (SocketName::B, ValueView::Scalar(0)),
        ],
        MaterialNodeType::Subtract => seq![
            (SocketName::A, ValueView::Scalar(FX_ONE)),
            (SocketName::B, ValueView::Scalar(0)),
        ],
        MaterialNodeType::Lerp => seq![
            (SocketName::A, ValueView::Color(Rgba { r: 0, g: 0, b: 0, a: FX_ONE })),
            (SocketName::B, ValueView::Color(Rgba { r: FX_ONE, g: FX_ONE, b: FX_ONE, a: FX_ONE })),
            (SocketName::Alpha, ValueView::Scalar(FX_HALF)),
        ],
        MaterialNodeType::Power => seq![
            (SocketName::Base, ValueView::Scalar(FX_HALF)),
            (SocketName::Exponent, ValueView::Scalar(2_000_000)),
        ],
        MaterialNodeType::OneMinus => seq![(SocketName::Input, ValueView::Scalar(FX_HALF))],
        MaterialNodeType::MaterialOutput => seq![
            (SocketName::BaseColor, ValueView::Color(Rgba { r: 800_000, g: 800_000, b: 800_000, a: FX_ONE })),
            (SocketName::Metallic, ValueView::Scalar(0)),
            (SocketName::Roughness, ValueView::Scalar(FX_HALF)),
            (SocketName::Emission, ValueView::Color(Rgba { r: 0, g: 0, b: 0, a: FX_ONE })),
        ],
    }
}

/// The model of a stored input list: each entry abstracted to its view.
pub open spec fn inputs_view(s: Seq<(SocketName, MaterialValue)>) -> Seq<(SocketName, ValueView)> {
    s.map_values(|p: (SocketName, MaterialValue)| (p.0, p.1@))
}

/// Looks a name up in an input list, front first.
pub open spec fn assoc_lookup(s: Seq<(SocketName, ValueView)>, name: SocketName) -> Option<
    ValueView,
>
    decreases s.len(),
{
    if s.len() == 0 {
        None
    } else if s[0].0 == name {
        Some(s[0].1)
    } else {
        assoc_lookup(s.drop_first(), name)
    }
}

/// Whether a connection from one socket type to another is legal: the
/// types are identical, or the pair is one of the two declared widening
/// coercions, a scalar broadcast into a color or a color reduced to a
/// scalar.
pub open spec fn spec_coercible(from: SocketType, to: SocketType) -> bool {
    from == to || (from == SocketType::Scalar && to == SocketType::Color) || (from
        == SocketType::Color && to == SocketType::Scalar)
}

/// Whether a connection from an output socket to an input socket is legal:
/// both sockets must be declared, and their types coercible.
pub open spec fn spec_connection_valid(
    from_kind: MaterialNodeType,
    from_output: SocketName,
    to_kind: MaterialNodeType,
    to_input: SocketName,
) -> bool {
    match (
        spec_output_socket_type(from_kind, from_output),
        spec_input_socket_type(to_kind, to_input),
    ) {
        (Some(from), Some(to)) => spec_coercible(from, to),
        _ => false,
    }
}

/// Returns the declared type of an input socket, or `None` when the kind
/// declares no input socket of that name.
pub fn get_input_socket_type(kind: MaterialNodeType, name: SocketName) -> (t: Option<SocketType>)
    ensures
        t == spec_input_socket_type(kind, name),
{
    match kind {
        MaterialNodeType::TextureSample => match name {
            SocketName::Texture => Some(SocketType::Texture),
            SocketName::Uv => Some(SocketType::Vector3),
            _ => None,
        },
        MaterialNodeType::ColorConstant => match name {
            SocketName::Color => Some(SocketType::Color),
            _ => None,
        },
        MaterialNodeType::ScalarConstant => match name {
            SocketName::Value => Some(SocketType::Scalar),
            _ => None,
        },
        MaterialNodeType::Vector3Constant => match name {
            SocketName::Vector => Some(SocketType::Vector3),
            _ => None,
        },
        MaterialNodeType::Fresnel => match name {
            SocketName::Ior => Some(SocketType::Scalar),
            SocketName::Normal => Some(SocketType::Vector3),
            _ => None,
        },
        MaterialNodeType::NormalMap => match name {
            SocketName::NormalTexture => Some(SocketType::Texture),
            SocketName::Strength => Some(SocketType::Scalar),
            _ => None,
        },
        MaterialNodeType::DetailNormal => match name {
            SocketName::BaseNormal => Some(SocketType::Vector3),
            SocketName::DetailNormal => Some(SocketType::Vector3),
            SocketName::Strength => Some(SocketType::Scalar),
            _ => None,
        },
        MaterialNodeType::NoiseTexture => match name {
            SocketName::Scale => Some(SocketType::Scalar),
            SocketName::Detail => Some(SocketType::Scalar),
            SocketName::Distortion => Some(SocketType::Scalar),
            _ => None,
        },
        MaterialNodeType::CheckerPattern => match name {
            SocketName::Color1 => Some(SocketType::Color),
            SocketName::Color2 => Some(SocketType::Color),
            SocketName::Scale => Some(SocketType::Scalar),
            _ => None,
        },
        MaterialNodeType::ColorMix => match name {
            SocketName::ColorA => Some(SocketType::Color),
            SocketName::ColorB => Some(SocketType::Color),
            SocketName::Factor => Some(SocketType::Scalar),
            _ => None,
        },
        MaterialNodeType::Clamp => match name {
            SocketName::Value => Some(SocketType::Scalar),
            SocketName::Min => Some(SocketType::Scalar),
            SocketName::Max => Some(SocketType::Scalar),
            _ => None,
        },
        MaterialNodeType::Remap => match name {
            SocketName::Value => Some(SocketType::Scalar),
            SocketName::FromMin => Some(SocketType::Scalar),
            SocketName::FromMax => Some(SocketType::Scalar),
            SocketName::ToMin => Some(SocketType::Scalar),
            SocketName::ToMax => Some(SocketType::Scalar),
            _ => None,
        },
        MaterialNodeType::Multiply | MaterialNodeType::Add | MaterialNodeType::Subtract => match name {
            SocketName::A => Some(SocketType::Scalar),
            SocketName::B => Some(SocketType::Scalar),
            _ => None,
        },
        MaterialNodeType::Lerp => match name {
            SocketName::A => Some(SocketType::Color),
            SocketName::B => Some(SocketType::Color),
            SocketName::Alpha => Some(SocketType::Scalar),
            _ => None,
        },
        MaterialNodeType::Power => match name {
            SocketName::Base => Some(SocketType::Scalar),
            SocketName::Exponent => Some(SocketType::Scalar),
            _ => None,
        },
        MaterialNodeType::OneMinus => match name {
            SocketName::Input => Some(SocketType::Scalar),
            _ => None,
        },
        MaterialNodeType::MaterialOutput => match name {
            SocketName::BaseColor => Some(SocketType::Color),
            SocketName::Metallic => Some(SocketType::Scalar),
            SocketName::Roughness => Some(SocketType::Scalar),
            SocketName::Emission => Some(SocketType::Color),
            _ => None,
        },
    }
}

/// Returns the declared type of an output socket, or `None` when the kind
/// declares no output socket of that name.
pub fn get_output_socket_type(kind: MaterialNodeType, name: SocketName) -> (t: Option<SocketType>)
    ensures
        t == spec_output_socket_type(kind, name),
{
    match kind {
        MaterialNodeType::TextureSample => match name {
            SocketName::Rgb => Some(SocketType::Color),
            SocketName::Alpha => Some(SocketType::Scalar),
            _ => None,
        },
        MaterialNodeType::ColorConstant => match name {
            SocketName::Color => Some(SocketType::Color),
            _ => None,
        },
        MaterialNodeType::ScalarConstant => match name {
            SocketName::Value => Some(SocketType::Scalar),
            _ => None,
        },
        MaterialNodeType::Vector3Constant => match name {
            SocketName::Vector => Some(SocketType::Vector3),
            _ => None,
        },
        MaterialNodeType::Fresnel => match name {
            SocketName::Fresnel => Some(SocketType::Scalar),
            _ => None,
        },
        MaterialNodeType::NormalMap | MaterialNodeType::DetailNormal => match name {
            SocketName::Normal => Some(SocketType::Vector3),
            _ => None,
        },
        MaterialNodeType::NoiseTexture => match name {
            SocketName::Noise => Some(SocketType::Scalar),
            _ => None,
        },
        MaterialNodeType::CheckerPattern => match name {
            SocketName::Pattern => Some(SocketType::Color),
            _ => None,
        },
        MaterialNodeType::ColorMix => match name {
            SocketName::Color => Some(SocketType::Color),
            _ => None,
        },
        MaterialNodeType::Clamp
        | MaterialNodeType::Remap
        | MaterialNodeType::Multiply
        | MaterialNodeType::Add
        | MaterialNodeType::Subtract
        | MaterialNodeType::Power
        | MaterialNodeType::OneMinus => match name {
            SocketName::Result => Some(SocketType::Scalar),
            _ => None,
        },
        MaterialNodeType::Lerp => match name {
            SocketName::Result => Some(SocketType::Color),
            _ => None,
        },
        MaterialNodeType::MaterialOutput => None,
    }
}

/// Returns the declared output socket names of a kind, in catalog order.
pub fn get_output_names_for_node_type(kind: MaterialNodeType) -> (names: Vec<SocketName>)
    ensures
        names@ == spec_output_names(kind),
{
    let mut names: Vec<SocketName> = Vec::new();
    match kind {
        MaterialNodeType::TextureSample => {
            names.push(SocketName::Rgb);
            names.push(SocketName::Alpha);
        },
        MaterialNodeType::ColorConstant => {
            names.push(SocketName::Color);
        },
        MaterialNodeType::ScalarConstant => {
            names.push(SocketName::Value);
        },
        MaterialNodeType::Vector3Constant => {
            names.push(SocketName::Vector);
        },
        MaterialNodeType::Fresnel => {
            names.push(SocketName::Fresnel);
        },
        MaterialNodeType::NormalMap | MaterialNodeType::DetailNormal => {
            names.push(SocketName::Normal);
        },
        MaterialNodeType::NoiseTexture => {
            names.push(SocketName::Noise);
        },
        MaterialNodeType::CheckerPattern => {
            names.push(SocketName::Pattern);
        },
        MaterialNodeType::ColorMix => {
            names.push(SocketName::Color);
        },
        MaterialNodeType::Clamp
        | MaterialNodeType::Remap
        | MaterialNodeType::Multiply
        | MaterialNodeType::Add
        | MaterialNodeType::Subtract
        | MaterialNodeType::Power
        | MaterialNodeType::OneMinus
        | MaterialNodeType::Lerp => {
            names.push(SocketName::Result);
        },
        MaterialNodeType::MaterialOutput => {},
    }
    proof {
        assert(names@ =~= spec_output_names(kind));
    }
    names
}

/// Returns how many output sockets a kind declares.
pub fn get_output_count_for_node_type(kind: MaterialNodeType) -> (count: usize)
    ensures
        count == spec_output_names(kind).len(),
{
    match kind {
        MaterialNodeType::TextureSample => 2,
        MaterialNodeType::MaterialOutput => 0,
        _ => 1,
    }
}

/// Returns the declared input sockets of a kind with their default values,
/// in catalog order.
pub fn get_default_inputs_for_node_type(kind: MaterialNodeType) -> (inputs: Vec<
    (SocketName, MaterialValue),
>)
    ensures
        inputs_view(inputs@) == spec_default_inputs(kind),
{
    let mut inputs: Vec<(SocketName, MaterialValue)> = Vec::new();
    match kind {
        MaterialNodeType::TextureSample => {
            inputs.push((SocketName::Texture, MaterialValue::Texture(String::new())));
            inputs.push((SocketName::Uv, MaterialValue::Vector3(Vec3Fx { x: 0, y: 0, z: 0 })));
        },
        MaterialNodeType::ColorConstant => {
            inputs.push(
                (
                    SocketName::Color,
                    MaterialValue::Color(Rgba { r: FX_ONE, g: FX_ONE, b: FX_ONE, a: FX_ONE }),
                ),
            );
        },
        MaterialNodeType::ScalarConstant => {
            inputs.push((SocketName::Value, MaterialValue::Scalar(FX_ONE)));
        },
        MaterialNodeType::Vector3Constant => {
            inputs.push(
                (SocketName::Vector, MaterialValue::Vector3(Vec3Fx { x: FX_ONE, y: FX_ONE, z: FX_ONE })),
            );
        },
        MaterialNodeType::Fresnel => {
            inputs.push((SocketName::Ior, MaterialValue::Scalar(1_450_000)));
            inputs.push((SocketName::Normal, MaterialValue::Vector3(Vec3Fx { x: 0, y: 0, z: FX_ONE })));
        },
        MaterialNodeType::NormalMap => {
            inputs.push((SocketName::NormalTexture, MaterialValue::Texture(String::new())));
            inputs.push((SocketName::Strength, MaterialValue::Scalar(FX_ONE)));
        },
        MaterialNodeType::DetailNormal => {
            inputs.push(
                (SocketName::BaseNormal, MaterialValue::Vector3(Vec3Fx { x: 0, y: 0, z: FX_ONE })),
            );
            inputs.push(
                (SocketName::DetailNormal, MaterialValue::Vector3(Vec3Fx { x: 0, y: 0, z: FX_ONE })),
            );
            inputs.push((SocketName::Strength, MaterialValue::Scalar(FX_ONE)));
        },
        MaterialNodeType::NoiseTexture => {
            inputs.push((SocketName::Scale, MaterialValue::Scalar(5_000_000)));
            inputs.push((SocketName::Detail, MaterialValue::Scalar(2_000_000)));
            inputs.push((SocketName::Distortion, MaterialValue::Scalar(0)));
        },
        MaterialNodeType::CheckerPattern => {
            inputs.push(
                (
                    SocketName::Color1,
                    MaterialValue::Color(Rgba { r: FX_ONE, g: FX_ONE, b: FX_ONE, a: FX_ONE }),
                ),
            );
            inputs.push((SocketName::Color2, MaterialValue::Color(Rgba { r: 0, g: 0, b: 0, a: FX_ONE })));
            inputs.push((SocketName::Scale, MaterialValue::Scalar(8_000_000)));
        },
        MaterialNodeType::ColorMix => {
            inputs.push((SocketName::ColorA, MaterialValue::Color(Rgba { r: FX_ONE, g: 0, b: 0, a: FX_ONE })));
            inputs.push((SocketName::ColorB, MaterialValue::Color(Rgba { r: 0, g: FX_ONE, b: 0, a: FX_ONE })));
            inputs.push((SocketName::Factor, MaterialValue::Scalar(FX_HALF)));
        },
        MaterialNodeType::Clamp => {
            inputs.push((SocketName::Value, MaterialValue::Scalar(FX_HALF)));
            inputs.push((SocketName::Min, MaterialValue::Scalar(0)));
            inputs.push((SocketName::Max, MaterialValue::Scalar(FX_ONE)));
        },
        MaterialNodeType::Remap => {
            inputs.push((SocketName::Value, MaterialValue::Scalar(FX_HALF)));
            inputs.push((SocketName::FromMin, MaterialValue::Scalar(0)));
            inputs.push((SocketName::FromMax, MaterialValue::Scalar(FX_ONE)));
            inputs.push((SocketName::ToMin, MaterialValue::Scalar(0)));
            inputs.push((SocketName::ToMax, MaterialValue::Scalar(FX_ONE)));
        },
        MaterialNodeType::Multiply => {
            inputs.push((SocketName::A, MaterialValue::Scalar(FX_ONE)));
            inputs.push((SocketName::B, MaterialValue::Scalar(FX_ONE)));
        },
        MaterialNodeType::Add => {
            inputs.push((SocketName::A, MaterialValue::Scalar(0)));
            inputs.push((SocketName::B, MaterialValue::Scalar(0)));
        },
        MaterialNodeType::Subtract => {
            inputs.push((SocketName::A, MaterialValue::Scalar(FX_ONE)));
            inputs.push((SocketName::B, MaterialValue::Scalar(0)));
        },
        MaterialNodeType::Lerp => {
            inputs.push((SocketName::A, MaterialValue::Color(Rgba { r: 0, g: 0, b: 0, a: FX_ONE })));
            inputs.push(
                (SocketName::B, MaterialValue::Color(Rgba { r: FX_ONE, g: FX_ONE, b: FX_ONE, a: FX_ONE })),
            );
            inputs.push((SocketName::Alpha, MaterialValue::Scalar(FX_HALF)));
        },
        MaterialNodeType::Power => {
            inputs.push((SocketName::Base, MaterialValue::Scalar(FX_HALF)));
            inputs.push((SocketName::Exponent, MaterialValue::Scalar(2_000_000)));
        },
        MaterialNodeType::OneMinus => {
            inputs.push((SocketName::Input, MaterialValue::Scalar(FX_HALF)));
        },
        MaterialNodeType::MaterialOutput => {
            inputs.push(
                (
                    SocketName::BaseColor,
                    MaterialValue::Color(Rgba { r: 800_000, g: 800_000, b: 800_000, a: FX_ONE }),
                ),
            );
            inputs.push((SocketName::Metallic, MaterialValue::Scalar(0)));
            inputs.push((SocketName::Roughness, MaterialValue::Scalar(FX_HALF)));
            inputs.push((SocketName::Emission, MaterialValue::Color(Rgba { r: 0, g: 0, b: 0, a: FX_ONE })));
        },
    }
    proof {
        assert(inputs_view(inputs@) =~= spec_default_inputs(kind));
    }
    inputs
}

/// Decides whether a prospective connection between an output socket and
/// an input socket is legal, given the catalog's declared socket types and
/// the two widening coercions.
pub fn is_connection_valid(
    from_kind: MaterialNodeType,
    from_output: SocketName,
    to_kind: MaterialNodeType,
    to_input: SocketName,
) -> (valid: bool)
    ensures
        valid == spec_connection_valid(from_kind, from_output, to_kind, to_input),
{
    let from_type = get_output_socket_type(from_kind, from_output);
    let to_type = get_input_socket_type(to_kind, to_input);
    match (from_type, to_type) {
        (Some(from), Some(to)) => {
            if from == to {
                true
            } else {
                match (from, to) {
                    (SocketType::Scalar, SocketType::Color) => true,
                    (SocketType::Color, SocketType::Scalar) => true,
                    _ => false,
                }
            }
        },
        _ => false,
    }
}

/// The catalog's default table and its input-type table agree: a kind's
/// defaults hold an entry for a socket name exactly when the kind declares
/// an input socket of that name, and the stored default's tag is the
/// declared type.
pub proof fn lemma_defaults_match_declared_inputs(kind: MaterialNodeType, name: SocketName)
    ensures
        assoc_lookup(spec_default_inputs(kind), name) is Some <==> spec_input_socket_type(
            kind,
            name,
        ) is Some,
        assoc_lookup(spec_default_inputs(kind), name) matches Some(v) ==> spec_input_socket_type(
            kind,
            name,
        ) == Some(v.tag()),
{
    reveal_with_fuel(assoc_lookup, 7);
}

/// Each entry of a kind's default table is a declared input socket of that
/// kind, and its stored value's tag is the declared type.
pub proof fn lemma_default_entry_types(kind: MaterialNodeType, k: int)
    requires
        0 <= k < spec_default_inputs(kind).len(),
    ensures
        spec_input_socket_type(kind, spec_default_inputs(kind)[k].0) == Some(
            spec_default_inputs(kind)[k].1.tag(),
        ),
{
}

/// Looking up from a position whose prefix holds no match: the result is
/// the first match at or after that position, or nothing.
pub proof fn lemma_assoc_lookup_from(s: Seq<(SocketName, ValueView)>, name: SocketName, i: int)
    requires
        0 <= i <= s.len(),
        forall|j: int| 0 <= j < i ==> (#[trigger] s[j]).0 != name,
    ensures
        i < s.len() && s[i].0 == name ==> assoc_lookup(s, name) == Some(s[i].1),
        i == s.len() ==> assoc_lookup(s, name) is None,
    decreases i,
{
    if i > 0 {
        lemma_assoc_lookup_from(s.drop_first(), name, i - 1);
    }
}

/// No kind declares the same input socket name twice.
pub proof fn lemma_default_names_distinct(kind: MaterialNodeType, a: int, b: int)
    requires
        0 <= a < b < spec_default_inputs(kind).len(),
    ensures
        spec_default_inputs(kind)[a].0 != spec_default_inputs(kind)[b].0,
{
}

/// A lookup that succeeds names an entry of the list.
pub proof fn lemma_assoc_lookup_some_index(s: Seq<(SocketName, ValueView)>, name: SocketName)
    requires
        assoc_lookup(s, name) is Some,
    ensures
        exists|k: int| 0 <= k < s.len() && (#[trigger] s[k]).0 == name,
    decreases s.len(),
{
    if s.len() > 0 && s[0].0 != name {
        lemma_assoc_lookup_some_index(s.drop_first(), name);
        let k = choose|k: int| 0 <= k < s.drop_first().len() && (#[trigger] s.drop_first()[k]).0 == name;
        assert(s[k + 1].0 == name);
    }
}

/// The connection validator accepts identical types in either direction,
/// accepts exactly the two declared widening coercions, and rejects every
/// other cross-type pair; in particular vectors and textures never convert.
pub proof fn lemma_coercion_table(from: SocketType, to: SocketType)
    ensures
        from == to ==> spec_coercible(from, to) && spec_coercible(to, from),
        spec_coercible(SocketType::Scalar, SocketType::Color),
        spec_coercible(SocketType::Color, SocketType::Scalar),
        !spec_coercible(SocketType::Vector3, SocketType::Texture),
        !spec_coercible(SocketType::Texture, SocketType::Vector3),
        spec_coercible(from, to) && from != to ==> ((from == SocketType::Scalar && to
            == SocketType::Color) || (from == SocketType::Color && to == SocketType::Scalar)),
{
}

} // verus!
