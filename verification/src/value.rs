//! The value model of the material graph: the semantic types a socket can
//! carry, the closed set of socket names the catalog declares, the tagged
//! union of concrete values, and the errors the graph operations report.

use vstd::prelude::*;

verus! {

/// The semantic type of a socket, declared once per (node kind, socket name)
/// pair in the catalog and never varying per instance.
#[derive(Clone, Copy, Debug, PartialEq, Eq, Structural)]
pub enum SocketType {
    Color,
    Scalar,
    Vector3,
    Texture,
}

/// The closed set of socket names the catalog declares across all node
/// kinds. Each node kind uses a fixed subset as its input sockets and a
/// fixed subset as its output sockets.
#[derive(Clone, Copy, Debug, PartialEq, Eq, Structural)]
pub enum SocketName {
    // Inputs of the constant and texture nodes.
    Color,
    Value,
    Vector,
    Texture,
    Uv,
    // Inputs of the PBR nodes.
    Ior,
    Normal,
    NormalTexture,
    Strength,
    BaseNormal,
    DetailNormal,
    // Inputs of the pattern nodes.
    Scale,
    Detail,
    Distortion,
    Color1,
    Color2,
    // Inputs of the utility nodes.
    ColorA,
    ColorB,
    Factor,
    Min,
    Max,
    FromMin,
    FromMax,
    ToMin,
    ToMax,
    // Inputs of the math nodes.
    A,
    B,
    Alpha,
    Base,
    Exponent,
    Input,
    // Inputs of the material output node.
    BaseColor,
    Metallic,
    Roughness,
    Emission,
    // Output-only names.
    Rgb,
    Pattern,
    Noise,
    Fresnel,
    Result,
}

/// An RGBA color, unpremultiplied, each channel a fixed-point value.
#[derive(Clone, Copy, Debug, PartialEq, Eq, Structural)]
pub struct Rgba {
    pub r: i64,
    pub g: i64,
    pub b: i64,
    pub a: i64,
}

/// An RGB color triple of fixed-point values, without alpha.
#[derive(Clone, Copy, Debug, PartialEq, Eq, Structural)]
pub struct Rgb {
    pub r: i64,
    pub g: i64,
    pub b: i64,
}

/// A three-component vector of fixed-point values.
#[derive(Clone, Copy, Debug, PartialEq, Eq, Structural)]
pub struct Vec3Fx {
    pub x: i64,
    pub y: i64,
    pub z: i64,
}

/// A concrete value flowing through the graph: the tag must match the
/// `SocketType` of the slot it occupies.
#[derive(Debug, PartialEq)]
pub enum MaterialValue {
    Color(Rgba),
    Scalar(i64),
    Vector3(Vec3Fx),
    Texture(String),
}

/// The mathematical model of a `MaterialValue`: the same tagged union with
/// the texture path abstracted to its character sequence.
pub enum ValueView {
    Color(Rgba),
    Scalar(i64),
    Vector3(Vec3Fx),
    Texture(Seq<char>),
}

impl ValueView {
    /// The socket type this value's tag matches.
    pub open spec fn tag(self) -> SocketType {
        match self {
            ValueView::Color(_) => SocketType::Color,
            ValueView::Scalar(_) => SocketType::Scalar,
            ValueView::Vector3(_) => SocketType::Vector3,
            ValueView::Texture(_) => SocketType::Texture,
        }
    }
}

impl View for MaterialValue {
    type V = ValueView;

    open spec fn view(&self) -> ValueView {
        match self {
            MaterialValue::Color(c) => ValueView::Color(*c),
            MaterialValue::Scalar(v) => ValueView::Scalar(*v),
            MaterialValue::Vector3(v) => ValueView::Vector3(*v),
            MaterialValue::Texture(path) => ValueView::Texture(path@),
        }
    }
}

impl MaterialValue {
    /// The socket type this value's tag matches.
    pub open spec fn spec_tag(&self) -> SocketType {
        match self {
            MaterialValue::Color(_) => SocketType::Color,
            MaterialValue::Scalar(_) => SocketType::Scalar,
            MaterialValue::Vector3(_) => SocketType::Vector3,
            MaterialValue::Texture(_) => SocketType::Texture,
        }
    }

    /// Returns the socket type this value's tag matches.
    pub fn tag(&self) -> (t: SocketType)
        ensures
            t == self.spec_tag(),
    {
        match self {
            MaterialValue::Color(_) => SocketType::Color,
            MaterialValue::Scalar(_) => SocketType::Scalar,
            MaterialValue::Vector3(_) => SocketType::Vector3,
            MaterialValue::Texture(_) => SocketType::Texture,
        }
    }

    /// Returns an owned value standing for the same model value.
    pub fn duplicate(&self) -> (r: MaterialValue)
        ensures
            r@ == self@,
    {
        match self {
            MaterialValue::Color(c) => MaterialValue::Color(*c),
            MaterialValue::Scalar(v) => MaterialValue::Scalar(*v),
            MaterialValue::Vector3(v) => MaterialValue::Vector3(*v),
            MaterialValue::Texture(path) => MaterialValue::Texture(path.clone()),
        }
    }
}

/// The errors the graph operations report. All are recoverable by the
/// caller; none is fatal.
#[derive(Clone, Copy, Debug, PartialEq, Eq, Structural)]
pub enum GraphError {
    /// An attempt to delete the material output node.
    ProtectedNodeError,
    /// A proposed connection with incompatible socket types or a
    /// nonexistent endpoint.
    InvalidConnectionError,
    /// Evaluation would recurse through a node already being resolved.
    CyclicGraphError,
    /// A catalog query for a socket name not declared for that node kind.
    UnknownSocketError,
    /// A graph that breaks a structural invariant: a missing or duplicate
    /// output node, a dangling connection, an input set that does not match
    /// the catalog.
    InvalidGraphError,
}

} // verus!
