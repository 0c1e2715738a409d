//! The evaluator: resolves a node's named input to a concrete value by
//! following connections backward through the graph, falling back to the
//! node's stored default when an input is unconnected, and dispatching each
//! node kind to its pure function over fixed-point values.
//!
//! The data model permits cycles, so resolution tracks the set of node ids
//! on the active call path and fails with `CyclicGraphError` the moment a
//! node already being resolved is revisited. A fuel bound mirrors the path
//! in the model: resolution starts with one unit of fuel per node and each
//! step down consumes one, so on any graph whose node ids are distinct the
//! path check fires before the fuel runs out.

use vstd::prelude::*;

use crate::catalog::MaterialNodeType;
use crate::catalog::assoc_lookup;
use crate::catalog::inputs_view;
use crate::fixed::FX_ONE;
use crate::fixed::spec_fx_add;
use crate::fixed::spec_fx_clamp;
use crate::fixed::spec_fx_fresnel;
use crate::fixed::spec_fx_mix;
use crate::fixed::spec_fx_mul;
use crate::fixed::spec_fx_noise;
use crate::fixed::spec_fx_one_minus;
use crate::fixed::spec_fx_pow;
use crate::fixed::spec_fx_remap;
use crate::fixed::spec_fx_sub;
use crate::graph::MaterialConnection;
use crate::graph::MaterialGraph;
use crate::graph::MaterialNode;
use crate::graph::spec_find_connection;
use crate::graph::spec_find_node;
use crate::value::GraphError;
use crate::value::MaterialValue;
use crate::value::Rgba;
use crate::value::SocketName;
use crate::value::ValueView;
use crate::value::Vec3Fx;

verus! {

/// What resolution yields: a value, nothing (an undeclared socket, a
/// dangling connection, or an operand mismatch), or a cycle error.
pub type ResolveResult = Result<Option<ValueView>, GraphError>;

/// The model of an executable resolution result.
pub open spec fn res_view(r: Result<Option<MaterialValue>, GraphError>) -> ResolveResult {
    match r {
        Ok(Some(v)) => Ok(Some(v@)),
        Ok(None) => Ok(None),
        Err(e) => Err(e),
    }
}

/// A scalar result, saturated into the fixed-point range.
pub open spec fn vv_scalar(x: int) -> ValueView {
    ValueView::Scalar(x as i64)
}

/// A color result, each channel saturated into the fixed-point range.
pub open spec fn vv_color(r: int, g: int, b: int, a: int) -> ValueView {
    ValueView::Color(Rgba { r: r as i64, g: g as i64, b: b as i64, a: a as i64 })
}

/// The stored default of a node's input socket.
pub open spec fn spec_stored_input(node: MaterialNode, input: SocketName) -> Option<ValueView> {
    assoc_lookup(inputs_view(node.inputs@), input)
}

/// The stored default when it is a scalar, else the given fallback — the
/// last fallback layer of a scalar parameter.
pub open spec fn spec_stored_scalar_or(node: MaterialNode, input: SocketName, fallback: int) -> int {
    match spec_stored_input(node, input) {
        Some(ValueView::Scalar(v)) => v as int,
        _ => fallback,
    }
}

/// Resolves a node's input: when a connection targets it, the source node's
/// output decides; otherwise nothing, and the caller falls back to the
/// stored default.
pub open spec fn spec_resolve_input(
    nodes: Seq<MaterialNode>,
    connections: Seq<MaterialConnection>,
    node_id: u32,
    input: SocketName,
    path: Seq<u32>,
    fuel: nat,
) -> ResolveResult
    decreases fuel, 1int,
{
    match spec_find_connection(connections, node_id, input) {
        Some(c) => match spec_find_node(nodes, c.from_node) {
            Some(_) => spec_resolve_output(nodes, connections, c.from_node, c.from_output, path, fuel),
            None => Ok(None),
        },
        None => Ok(None),
    }
}

/// Resolves a node's input and falls back to the stored default when the
/// input is unconnected or its connection yields nothing; a cycle error is
/// never masked by the fallback.
pub open spec fn spec_input_or_default(
    nodes: Seq<MaterialNode>,
    connections: Seq<MaterialConnection>,
    node: MaterialNode,
    input: SocketName,
    path: Seq<u32>,
    fuel: nat,
) -> ResolveResult
    decreases fuel, 2int,
{
    match spec_resolve_input(nodes, connections, node.id, input, path, fuel) {
        Err(e) => Err(e),
        Ok(Some(v)) => Ok(Some(v)),
        Ok(None) => Ok(spec_stored_input(node, input)),
    }
}

/// Resolves a scalar parameter input: the connection targeting it decides
/// first, then the stored default; a resolution that is not a scalar falls
/// back to the stored scalar, and a missing or non-scalar stored value to
/// the kind's built-in fallback. A cycle error is propagated.
pub open spec fn spec_scalar_param(
    nodes: Seq<MaterialNode>,
    connections: Seq<MaterialConnection>,
    node: MaterialNode,
    input: SocketName,
    fallback: int,
    path: Seq<u32>,
    fuel: nat,
) -> Result<int, GraphError>
    decreases fuel, 3int,
{
    match spec_input_or_default(nodes, connections, node, input, path, fuel) {
        Err(e) => Err(e),
        Ok(Some(ValueView::Scalar(v))) => Ok(v as int),
        Ok(_) => Ok(spec_stored_scalar_or(node, input, fallback)),
    }
}

/// Resolves a node's named output: a node already on the path yields
/// `CyclicGraphError`, an id the graph does not hold yields nothing, and an
/// existing node is dispatched by kind with itself on the path and one unit
/// of fuel consumed.
pub open spec fn spec_resolve_output(
    nodes: Seq<MaterialNode>,
    connections: Seq<MaterialConnection>,
    node_id: u32,
    output: SocketName,
    path: Seq<u32>,
    fuel: nat,
) -> ResolveResult
    decreases fuel, 0int,
{
    if path.contains(node_id) {
        Err(GraphError::CyclicGraphError)
    } else {
        match spec_find_node(nodes, node_id) {
            None => Ok(None),
            Some(node) => {
                if fuel == 0 {
                    Err(GraphError::CyclicGraphError)
                } else {
                    spec_dispatch(
                        nodes,
                        connections,
                        node,
                        output,
                        path.push(node_id),
                        (fuel - 1) as nat,
                    )
                }
            },
        }
    }
}

/// The kind-specific step of resolution: constants yield their stored
/// value, compound kinds resolve their declared inputs — scalar parameters
/// included, so a connection into a bound or an exponent decides, and a
/// cycle through one is caught — and apply their pure function over
/// fixed-point values; pattern and texture kinds yield deterministic
/// stand-ins.
pub open spec fn spec_dispatch(
    nodes: Seq<MaterialNode>,
    connections: Seq<MaterialConnection>,
    node: MaterialNode,
    output: SocketName,
    path2: Seq<u32>,
    fuel2: nat,
) -> ResolveResult
    decreases fuel2, 4int,
{
    match node.node_type {
        MaterialNodeType::ColorConstant => {
            if output == SocketName::Color {
                match spec_stored_input(node, SocketName::Color) {
                    Some(ValueView::Color(c)) => Ok(Some(ValueView::Color(c))),
                    _ => Ok(None),
                }
            } else {
                Ok(None)
            }
        },
        MaterialNodeType::ScalarConstant => {
            if output == SocketName::Value {
                match spec_stored_input(node, SocketName::Value) {
                    Some(ValueView::Scalar(v)) => Ok(Some(ValueView::Scalar(v))),
                    _ => Ok(None),
                }
            } else {
                Ok(None)
            }
        },
        MaterialNodeType::Vector3Constant => {
            if output == SocketName::Vector {
                match spec_stored_input(node, SocketName::Vector) {
                    Some(ValueView::Vector3(v)) => Ok(Some(ValueView::Vector3(v))),
                    _ => Ok(None),
                }
            } else {
                Ok(None)
            }
        },
        MaterialNodeType::CheckerPattern => {
            if output == SocketName::Pattern {
                // The placeholder pattern: the first checker color, white
                // when absent; the other inputs are resolved and discarded.
                match spec_input_or_default(nodes, connections, node, SocketName::Color1, path2, fuel2) {
                    Err(e) => Err(e),
                    Ok(color1) => match spec_input_or_default(nodes, connections, node, SocketName::Color2, path2, fuel2) {
                        Err(e) => Err(e),
                        Ok(_) => match spec_input_or_default(nodes, connections, node, SocketName::Scale, path2, fuel2) {
                            Err(e) => Err(e),
                            Ok(_) => match color1 {
                                Some(v) => Ok(Some(v)),
                                None => Ok(
                                    Some(
                                        ValueView::Color(
                                            Rgba { r: FX_ONE, g: FX_ONE, b: FX_ONE, a: FX_ONE },
                                        ),
                                    ),
                                ),
                            },
                        },
                    },
                }
            } else {
                Ok(None)
            }
        },
        MaterialNodeType::NoiseTexture => {
            if output == SocketName::Noise {
                match spec_scalar_param(nodes, connections, node, SocketName::Scale, FX_ONE as int, path2, fuel2) {
                    Err(e) => Err(e),
                    Ok(scale) => match spec_input_or_default(nodes, connections, node, SocketName::Detail, path2, fuel2) {
                        Err(e) => Err(e),
                        Ok(_) => match spec_input_or_default(nodes, connections, node, SocketName::Distortion, path2, fuel2) {
                            Err(e) => Err(e),
                            Ok(_) => Ok(Some(vv_scalar(spec_fx_noise(scale)))),
                        },
                    },
                }
            } else {
                Ok(None)
            }
        },
        MaterialNodeType::ColorMix => {
            if output == SocketName::Color {
                match spec_input_or_default(nodes, connections, node, SocketName::ColorA, path2, fuel2) {
                    Err(e) => Err(e),
                    Ok(a) => match spec_input_or_default(nodes, connections, node, SocketName::ColorB, path2, fuel2) {
                        Err(e) => Err(e),
                        Ok(b) => match spec_input_or_default(nodes, connections, node, SocketName::Factor, path2, fuel2) {
                            Err(e) => Err(e),
                            Ok(f) => match (a, b, f) {
                                (
                                    Some(ValueView::Color(ca)),
                                    Some(ValueView::Color(cb)),
                                    Some(ValueView::Scalar(fv)),
                                ) => Ok(
                                    Some(
                                        vv_color(
                                            spec_fx_mix(ca.r as int, cb.r as int, fv as int),
                                            spec_fx_mix(ca.g as int, cb.g as int, fv as int),
                                            spec_fx_mix(ca.b as int, cb.b as int, fv as int),
                                            spec_fx_mix(ca.a as int, cb.a as int, fv as int),
                                        ),
                                    ),
                                ),
                                _ => Ok(None),
                            },
                        },
                    },
                }
            } else {
                Ok(None)
            }
        },
        MaterialNodeType::Clamp => {
            if output == SocketName::Result {
                match spec_input_or_default(nodes, connections, node, SocketName::Value, path2, fuel2) {
                    Err(e) => Err(e),
                    Ok(value) => match spec_scalar_param(nodes, connections, node, SocketName::Min, 0, path2, fuel2) {
                        Err(e) => Err(e),
                        Ok(lo) => match spec_scalar_param(nodes, connections, node, SocketName::Max, FX_ONE as int, path2, fuel2) {
                            Err(e) => Err(e),
                            Ok(hi) => match value {
                                Some(ValueView::Scalar(v)) => Ok(
                                    Some(vv_scalar(spec_fx_clamp(v as int, lo, hi))),
                                ),
                                _ => Ok(None),
                            },
                        },
                    },
                }
            } else {
                Ok(None)
            }
        },
        MaterialNodeType::Remap => {
            if output == SocketName::Result {
                match spec_input_or_default(nodes, connections, node, SocketName::Value, path2, fuel2) {
                    Err(e) => Err(e),
                    Ok(value) => match spec_scalar_param(nodes, connections, node, SocketName::FromMin, 0, path2, fuel2) {
                        Err(e) => Err(e),
                        Ok(from_min) => match spec_scalar_param(nodes, connections, node, SocketName::FromMax, FX_ONE as int, path2, fuel2) {
                            Err(e) => Err(e),
                            Ok(from_max) => match spec_scalar_param(nodes, connections, node, SocketName::ToMin, 0, path2, fuel2) {
                                Err(e) => Err(e),
                                Ok(to_min) => match spec_scalar_param(nodes, connections, node, SocketName::ToMax, FX_ONE as int, path2, fuel2) {
                                    Err(e) => Err(e),
                                    Ok(to_max) => match value {
                                        Some(ValueView::Scalar(v)) => Ok(
                                            Some(
                                                vv_scalar(
                                                    spec_fx_remap(v as int, from_min, from_max, to_min, to_max),
                                                ),
                                            ),
                                        ),
                                        _ => Ok(None),
                                    },
                                },
                            },
                        },
                    },
                }
            } else {
                Ok(None)
            }
        },
        MaterialNodeType::Fresnel => {
            if output == SocketName::Fresnel {
                match spec_scalar_param(nodes, connections, node, SocketName::Ior, 1_450_000, path2, fuel2) {
                    Err(e) => Err(e),
                    Ok(ior) => match spec_input_or_default(nodes, connections, node, SocketName::Normal, path2, fuel2) {
                        Err(e) => Err(e),
                        Ok(_) => Ok(Some(vv_scalar(spec_fx_fresnel(ior)))),
                    },
                }
            } else {
                Ok(None)
            }
        },
        MaterialNodeType::NormalMap => {
            // The placeholder normal: the inputs are resolved and
            // discarded, and the unperturbed normal comes back.
            if output == SocketName::Normal {
                match spec_input_or_default(nodes, connections, node, SocketName::NormalTexture, path2, fuel2) {
                    Err(e) => Err(e),
                    Ok(_) => match spec_input_or_default(nodes, connections, node, SocketName::Strength, path2, fuel2) {
                        Err(e) => Err(e),
                        Ok(_) => Ok(Some(ValueView::Vector3(Vec3Fx { x: 0, y: 0, z: FX_ONE }))),
                    },
                }
            } else {
                Ok(None)
            }
        },
        MaterialNodeType::DetailNormal => {
            if output == SocketName::Normal {
                match spec_input_or_default(nodes, connections, node, SocketName::BaseNormal, path2, fuel2) {
                    Err(e) => Err(e),
                    Ok(_) => match spec_input_or_default(nodes, connections, node, SocketName::DetailNormal, path2, fuel2) {
                        Err(e) => Err(e),
                        Ok(_) => match spec_input_or_default(nodes, connections, node, SocketName::Strength, path2, fuel2) {
                            Err(e) => Err(e),
                            Ok(_) => Ok(Some(ValueView::Vector3(Vec3Fx { x: 0, y: 0, z: FX_ONE }))),
                        },
                    },
                }
            } else {
                Ok(None)
            }
        },
        MaterialNodeType::Multiply => {
            if output == SocketName::Result {
                match spec_input_or_default(nodes, connections, node, SocketName::A, path2, fuel2) {
                    Err(e) => Err(e),
                    Ok(a) => match spec_input_or_default(nodes, connections, node, SocketName::B, path2, fuel2) {
                        Err(e) => Err(e),
                        Ok(b) => match (a, b) {
                            (Some(ValueView::Scalar(x)), Some(ValueView::Scalar(y))) => Ok(
                                Some(vv_scalar(spec_fx_mul(x as int, y as int))),
                            ),
                            (Some(ValueView::Color(ca)), Some(ValueView::Color(cb))) => Ok(
                                Some(
                                    vv_color(
                                        spec_fx_mul(ca.r as int, cb.r as int),
                                        spec_fx_mul(ca.g as int, cb.g as int),
                                        spec_fx_mul(ca.b as int, cb.b as int),
                                        spec_fx_mul(ca.a as int, cb.a as int),
                                    ),
                                ),
                            ),
                            (Some(ValueView::Color(c)), Some(ValueView::Scalar(s)))
                            | (Some(ValueView::Scalar(s)), Some(ValueView::Color(c))) => Ok(
                                Some(
                                    vv_color(
                                        spec_fx_mul(c.r as int, s as int),
                                        spec_fx_mul(c.g as int, s as int),
                                        spec_fx_mul(c.b as int, s as int),
                                        c.a as int,
                                    ),
                                ),
                            ),
                            _ => Ok(None),
                        },
                    },
                }
            } else {
                Ok(None)
            }
        },
        MaterialNodeType::Add => {
            if output == SocketName::Result {
                match spec_input_or_default(nodes, connections, node, SocketName::A, path2, fuel2) {
                    Err(e) => Err(e),
                    Ok(a) => match spec_input_or_default(nodes, connections, node, SocketName::B, path2, fuel2) {
                        Err(e) => Err(e),
                        Ok(b) => match (a, b) {
                            (Some(ValueView::Scalar(x)), Some(ValueView::Scalar(y))) => Ok(
                                Some(vv_scalar(spec_fx_add(x as int, y as int))),
                            ),
                            (Some(ValueView::Color(ca)), Some(ValueView::Color(cb))) => Ok(
                                Some(
                                    vv_color(
                                        spec_fx_add(ca.r as int, cb.r as int),
                                        spec_fx_add(ca.g as int, cb.g as int),
                                        spec_fx_add(ca.b as int, cb.b as int),
                                        spec_fx_add(ca.a as int, cb.a as int),
                                    ),
                                ),
                            ),
                            _ => Ok(None),
                        },
                    },
                }
            } else {
                Ok(None)
            }
        },
        MaterialNodeType::Subtract => {
            if output == SocketName::Result {
                match spec_input_or_default(nodes, connections, node, SocketName::A, path2, fuel2) {
                    Err(e) => Err(e),
                    Ok(a) => match spec_input_or_default(nodes, connections, node, SocketName::B, path2, fuel2) {
                        Err(e) => Err(e),
                        Ok(b) => match (a, b) {
                            (Some(ValueView::Scalar(x)), Some(ValueView::Scalar(y))) => Ok(
                                Some(vv_scalar(spec_fx_sub(x as int, y as int))),
                            ),
                            (Some(ValueView::Color(ca)), Some(ValueView::Color(cb))) => Ok(
                                Some(
                                    vv_color(
                                        spec_fx_sub(ca.r as int, cb.r as int),
                                        spec_fx_sub(ca.g as int, cb.g as int),
                                        spec_fx_sub(ca.b as int, cb.b as int),
                                        spec_fx_sub(ca.a as int, cb.a as int),
                                    ),
                                ),
                            ),
                            _ => Ok(None),
                        },
                    },
                }
            } else {
                Ok(None)
            }
        },
        MaterialNodeType::Lerp => {
            if output == SocketName::Result {
                match spec_input_or_default(nodes, connections, node, SocketName::A, path2, fuel2) {
                    Err(e) => Err(e),
                    Ok(a) => match spec_input_or_default(nodes, connections, node, SocketName::B, path2, fuel2) {
                        Err(e) => Err(e),
                        Ok(b) => match spec_input_or_default(nodes, connections, node, SocketName::Alpha, path2, fuel2) {
                            Err(e) => Err(e),
                            Ok(alpha) => match (a, b, alpha) {
                                (
                                    Some(ValueView::Color(ca)),
                                    Some(ValueView::Color(cb)),
                                    Some(ValueView::Scalar(t)),
                                ) => Ok(
                                    Some(
                                        vv_color(
                                            spec_fx_mix(ca.r as int, cb.r as int, t as int),
                                            spec_fx_mix(ca.g as int, cb.g as int, t as int),
                                            spec_fx_mix(ca.b as int, cb.b as int, t as int),
                                            spec_fx_mix(ca.a as int, cb.a as int, t as int),
                                        ),
                                    ),
                                ),
                                (
                                    Some(ValueView::Scalar(x)),
                                    Some(ValueView::Scalar(y)),
                                    Some(ValueView::Scalar(t)),
                                ) => Ok(
                                    Some(vv_scalar(spec_fx_mix(x as int, y as int, t as int))),
                                ),
                                _ => Ok(None),
                            },
                        },
                    },
                }
            } else {
                Ok(None)
            }
        },
        MaterialNodeType::Power => {
            if output == SocketName::Result {
                match spec_input_or_default(nodes, connections, node, SocketName::Base, path2, fuel2) {
                    Err(e) => Err(e),
                    Ok(base) => match spec_scalar_param(nodes, connections, node, SocketName::Exponent, 2_000_000, path2, fuel2) {
                        Err(e) => Err(e),
                        Ok(exponent) => match base {
                            Some(ValueView::Scalar(v)) => Ok(
                                Some(vv_scalar(spec_fx_pow(v as int, exponent))),
                            ),
                            _ => Ok(None),
                        },
                    },
                }
            } else {
                Ok(None)
            }
        },
        MaterialNodeType::OneMinus => {
            if output == SocketName::Result {
                match spec_input_or_default(nodes, connections, node, SocketName::Input, path2, fuel2) {
                    Err(e) => Err(e),
                    Ok(Some(ValueView::Scalar(v))) => Ok(
                        Some(vv_scalar(spec_fx_one_minus(v as int))),
                    ),
                    Ok(_) => Ok(None),
                }
            } else {
                Ok(None)
            }
        },
        MaterialNodeType::TextureSample => {
            // Placeholder sampling: the inputs are resolved and discarded,
            // and no texture data reaches the graph, so the sample is a
            // fixed mid gray.
            if output == SocketName::Rgb || output == SocketName::Alpha {
                match spec_input_or_default(nodes, connections, node, SocketName::Texture, path2, fuel2) {
                    Err(e) => Err(e),
                    Ok(_) => match spec_input_or_default(nodes, connections, node, SocketName::Uv, path2, fuel2) {
                        Err(e) => Err(e),
                        Ok(_) => {
                            if output == SocketName::Rgb {
                                Ok(
                                    Some(
                                        ValueView::Color(
                                            Rgba { r: 500_000, g: 500_000, b: 500_000, a: FX_ONE },
                                        ),
                                    ),
                                )
                            } else {
                                Ok(Some(ValueView::Scalar(FX_ONE)))
                            }
                        },
                    },
                }
            } else {
                Ok(None)
            }
        },
        MaterialNodeType::MaterialOutput => Ok(None),
    }
}

/// Resolution of a node's input over the whole graph: an empty path and one
/// unit of fuel per node.
pub open spec fn spec_resolution_input(
    nodes: Seq<MaterialNode>,
    connections: Seq<MaterialConnection>,
    node_id: u32,
    input: SocketName,
) -> ResolveResult {
    spec_resolve_input(nodes, connections, node_id, input, Seq::empty(), nodes.len())
}

/// Resolution of a node's output over the whole graph: an empty path and
/// one unit of fuel per node.
pub open spec fn spec_resolution_output(
    nodes: Seq<MaterialNode>,
    connections: Seq<MaterialConnection>,
    node_id: u32,
    output: SocketName,
) -> ResolveResult {
    spec_resolve_output(nodes, connections, node_id, output, Seq::empty(), nodes.len())
}

/// The preconditions under which the fuel bound never decides: the node
/// ids are pairwise distinct, the path repeats no id and holds only ids
/// the graph resolves, and the fuel still covers the nodes off the path.
pub open spec fn fuel_covers(
    nodes: Seq<MaterialNode>,
    path: Seq<u32>,
    fuel: nat,
) -> bool {
    &&& forall|i: int, j: int|
        0 <= i < j < nodes.len() ==> (#[trigger] nodes[i]).id != (#[trigger] nodes[j]).id
    &&& path.no_duplicates()
    &&& forall|i: int| 0 <= i < path.len() ==> spec_find_node(nodes, #[trigger] path[i]) is Some
    &&& fuel + path.len() >= nodes.len()
}

/// A duplicate-free path of resolvable ids, together with one resolvable
/// id off the path, cannot outnumber a node sequence of distinct ids.
proof fn lemma_path_shorter_than_nodes(nodes: Seq<MaterialNode>, path: Seq<u32>, extra: u32)
    requires
        forall|i: int, j: int|
            0 <= i < j < nodes.len() ==> (#[trigger] nodes[i]).id != (#[trigger] nodes[j]).id,
        path.no_duplicates(),
        forall|i: int| 0 <= i < path.len() ==> spec_find_node(nodes, #[trigger] path[i]) is Some,
        spec_find_node(nodes, extra) is Some,
        !path.contains(extra),
    ensures
        path.len() < nodes.len(),
{
    let ids = nodes.map_values(|n: MaterialNode| n.id);
    let full = path.push(extra);
    assert(full.no_duplicates());
    full.unique_seq_to_set();
    assert forall|x: u32| full.to_set().contains(x) implies ids.to_set().contains(x) by {
        assert(full.contains(x));
        crate::graph::lemma_find_node_some_index(nodes, x);
        let k = choose|k: int| 0 <= k < nodes.len() && (#[trigger] nodes[k]).id == x;
        assert(ids[k] == x);
        assert(ids.contains(x));
    }
    assert(full.to_set().subset_of(ids.to_set()));
    ids.lemma_cardinality_of_set();
    vstd::seq_lib::seq_to_set_is_finite::<u32>(ids);
    vstd::set_lib::lemma_len_subset(full.to_set(), ids.to_set());
}

/// Fuel does not decide an input resolution once it covers the nodes off
/// the path: the cycle check on the path always fires first.
pub proof fn lemma_resolve_input_fuel(
    nodes: Seq<MaterialNode>,
    connections: Seq<MaterialConnection>,
    node_id: u32,
    input: SocketName,
    path: Seq<u32>,
    fuel1: nat,
    fuel2: nat,
)
    requires
        fuel_covers(nodes, path, fuel1),
        fuel_covers(nodes, path, fuel2),
    ensures
        spec_resolve_input(nodes, connections, node_id, input, path, fuel1)
            == spec_resolve_input(nodes, connections, node_id, input, path, fuel2),
    decreases fuel1, 1int,
{
    match spec_find_connection(connections, node_id, input) {
        Some(c) => match spec_find_node(nodes, c.from_node) {
            Some(_) => {
                lemma_resolve_output_fuel(
                    nodes,
                    connections,
                    c.from_node,
                    c.from_output,
                    path,
                    fuel1,
                    fuel2,
                );
            },
            None => {},
        },
        None => {},
    }
}

/// The counterpart of `lemma_resolve_input_fuel` for the default fallback.
pub proof fn lemma_input_or_default_fuel(
    nodes: Seq<MaterialNode>,
    connections: Seq<MaterialConnection>,
    node: MaterialNode,
    input: SocketName,
    path: Seq<u32>,
    fuel1: nat,
    fuel2: nat,
)
    requires
        fuel_covers(nodes, path, fuel1),
        fuel_covers(nodes, path, fuel2),
    ensures
        spec_input_or_default(nodes, connections, node, input, path, fuel1)
            == spec_input_or_default(nodes, connections, node, input, path, fuel2),
    decreases fuel1, 2int,
{
    lemma_resolve_input_fuel(nodes, connections, node.id, input, path, fuel1, fuel2);
}

/// The counterpart of `lemma_resolve_input_fuel` for an output resolution.
pub proof fn lemma_resolve_output_fuel(
    nodes: Seq<MaterialNode>,
    connections: Seq<MaterialConnection>,
    node_id: u32,
    output: SocketName,
    path: Seq<u32>,
    fuel1: nat,
    fuel2: nat,
)
    requires
        fuel_covers(nodes, path, fuel1),
        fuel_covers(nodes, path, fuel2),
    ensures
        spec_resolve_output(nodes, connections, node_id, output, path, fuel1)
            == spec_resolve_output(nodes, connections, node_id, output, path, fuel2),
    decreases fuel1, 0int,
{
    if !path.contains(node_id) {
        match spec_find_node(nodes, node_id) {
            None => {},
            Some(node) => {
                lemma_path_shorter_than_nodes(nodes, path, node_id);
                let path2 = path.push(node_id);
                assert(path2.no_duplicates());
                assert forall|i: int|
                    0 <= i < path2.len() implies spec_find_node(nodes, #[trigger] path2[i]) is Some by {
                    if i < path.len() {
                        assert(path2[i] == path[i]);
                    }
                }
                lemma_dispatch_fuel(
                    nodes,
                    connections,
                    node,
                    output,
                    path2,
                    (fuel1 - 1) as nat,
                    (fuel2 - 1) as nat,
                );
            },
        }
    }
}

/// The counterpart of `lemma_resolve_input_fuel` for the kind dispatch.
pub proof fn lemma_dispatch_fuel(
    nodes: Seq<MaterialNode>,
    connections: Seq<MaterialConnection>,
    node: MaterialNode,
    output: SocketName,
    path2: Seq<u32>,
    fuel1: nat,
    fuel2: nat,
)
    requires
        fuel_covers(nodes, path2, fuel1),
        fuel_covers(nodes, path2, fuel2),
    ensures
        spec_dispatch(nodes, connections, node, output, path2, fuel1) == spec_dispatch(
            nodes,
            connections,
            node,
            output,
            path2,
            fuel2,
        ),
    decreases fuel1, 3int,
{
    match node.node_type {
        MaterialNodeType::TextureSample => {
            lemma_input_or_default_fuel(
                nodes, connections, node, SocketName::Texture, path2, fuel1, fuel2,
            );
            lemma_input_or_default_fuel(
                nodes, connections, node, SocketName::Uv, path2, fuel1, fuel2,
            );
        },
        MaterialNodeType::CheckerPattern => {
            lemma_input_or_default_fuel(
                nodes, connections, node, SocketName::Color1, path2, fuel1, fuel2,
            );
            lemma_input_or_default_fuel(
                nodes, connections, node, SocketName::Color2, path2, fuel1, fuel2,
            );
            lemma_input_or_default_fuel(
                nodes, connections, node, SocketName::Scale, path2, fuel1, fuel2,
            );
        },
        MaterialNodeType::NoiseTexture => {
            lemma_input_or_default_fuel(
                nodes, connections, node, SocketName::Scale, path2, fuel1, fuel2,
            );
            lemma_input_or_default_fuel(
                nodes, connections, node, SocketName::Detail, path2, fuel1, fuel2,
            );
            lemma_input_or_default_fuel(
                nodes, connections, node, SocketName::Distortion, path2, fuel1, fuel2,
            );
        },
        MaterialNodeType::NormalMap => {
            lemma_input_or_default_fuel(
                nodes, connections, node, SocketName::NormalTexture, path2, fuel1, fuel2,
            );
            lemma_input_or_default_fuel(
                nodes, connections, node, SocketName::Strength, path2, fuel1, fuel2,
            );
        },
        MaterialNodeType::DetailNormal => {
            lemma_input_or_default_fuel(
                nodes, connections, node, SocketName::BaseNormal, path2, fuel1, fuel2,
            );
            lemma_input_or_default_fuel(
                nodes, connections, node, SocketName::DetailNormal, path2, fuel1, fuel2,
            );
            lemma_input_or_default_fuel(
                nodes, connections, node, SocketName::Strength, path2, fuel1, fuel2,
            );
        },
        MaterialNodeType::ColorMix => {
            lemma_input_or_default_fuel(
                nodes, connections, node, SocketName::ColorA, path2, fuel1, fuel2,
            );
            lemma_input_or_default_fuel(
                nodes, connections, node, SocketName::ColorB, path2, fuel1, fuel2,
            );
            lemma_input_or_default_fuel(
                nodes, connections, node, SocketName::Factor, path2, fuel1, fuel2,
            );
        },
        MaterialNodeType::Clamp => {
            lemma_input_or_default_fuel(
                nodes, connections, node, SocketName::Value, path2, fuel1, fuel2,
            );
            lemma_input_or_default_fuel(
                nodes, connections, node, SocketName::Min, path2, fuel1, fuel2,
            );
            lemma_input_or_default_fuel(
                nodes, connections, node, SocketName::Max, path2, fuel1, fuel2,
            );
        },
        MaterialNodeType::Remap => {
            lemma_input_or_default_fuel(
                nodes, connections, node, SocketName::Value, path2, fuel1, fuel2,
            );
            lemma_input_or_default_fuel(
                nodes, connections, node, SocketName::FromMin, path2, fuel1, fuel2,
            );
            lemma_input_or_default_fuel(
                nodes, connections, node, SocketName::FromMax, path2, fuel1, fuel2,
            );
            lemma_input_or_default_fuel(
                nodes, connections, node, SocketName::ToMin, path2, fuel1, fuel2,
            );
            lemma_input_or_default_fuel(
                nodes, connections, node, SocketName::ToMax, path2, fuel1, fuel2,
            );
        },
        MaterialNodeType::Fresnel => {
            lemma_input_or_default_fuel(
                nodes, connections, node, SocketName::Ior, path2, fuel1, fuel2,
            );
            lemma_input_or_default_fuel(
                nodes, connections, node, SocketName::Normal, path2, fuel1, fuel2,
            );
        },
        MaterialNodeType::Multiply | MaterialNodeType::Add | MaterialNodeType::Subtract => {
            lemma_input_or_default_fuel(
                nodes, connections, node, SocketName::A, path2, fuel1, fuel2,
            );
            lemma_input_or_default_fuel(
                nodes, connections, node, SocketName::B, path2, fuel1, fuel2,
            );
        },
        MaterialNodeType::Lerp => {
            lemma_input_or_default_fuel(
                nodes, connections, node, SocketName::A, path2, fuel1, fuel2,
            );
            lemma_input_or_default_fuel(
                nodes, connections, node, SocketName::B, path2, fuel1, fuel2,
            );
            lemma_input_or_default_fuel(
                nodes, connections, node, SocketName::Alpha, path2, fuel1, fuel2,
            );
        },
        MaterialNodeType::Power => {
            lemma_input_or_default_fuel(
                nodes, connections, node, SocketName::Base, path2, fuel1, fuel2,
            );
            lemma_input_or_default_fuel(
                nodes, connections, node, SocketName::Exponent, path2, fuel1, fuel2,
            );
        },
        MaterialNodeType::OneMinus => {
            lemma_input_or_default_fuel(
                nodes, connections, node, SocketName::Input, path2, fuel1, fuel2,
            );
        },
        _ => {},
    }
}

/// Resolution is a function of the graph alone: once the fuel covers the
/// node count, raising it further changes no result. The contracts of the
/// evaluator therefore state a canonical semantics, not a fuel artifact.
pub proof fn lemma_resolution_fuel_independent(
    nodes: Seq<MaterialNode>,
    connections: Seq<MaterialConnection>,
    node_id: u32,
    input: SocketName,
    fuel: nat,
)
    requires
        forall|i: int, j: int|
            0 <= i < j < nodes.len() ==> (#[trigger] nodes[i]).id != (#[trigger] nodes[j]).id,
        fuel >= nodes.len(),
    ensures
        spec_resolve_input(nodes, connections, node_id, input, Seq::empty(), fuel)
            == spec_resolution_input(nodes, connections, node_id, input),
{
    lemma_resolve_input_fuel(
        nodes,
        connections,
        node_id,
        input,
        Seq::empty(),
        fuel,
        nodes.len(),
    );
}

/// Appending a connection that targets the socket changes nothing about
/// the connections that survive the target filter.
proof fn lemma_without_target_push_targeting(
    s: Seq<MaterialConnection>,
    c: MaterialConnection,
    to_node: u32,
    to_input: SocketName,
)
    requires
        crate::graph::conn_targets(c, to_node, to_input),
    ensures
        crate::graph::spec_connections_without_target(s.push(c), to_node, to_input)
            == crate::graph::spec_connections_without_target(s, to_node, to_input),
    decreases s.len(),
{
    let t = s.push(c);
    assert(t.len() == s.len() + 1);
    if s.len() == 0 {
        assert(t[0] == c);
        assert(t.drop_first() =~= Seq::<MaterialConnection>::empty());
        assert(crate::graph::spec_connections_without_target(t, to_node, to_input)
            == crate::graph::spec_connections_without_target(t.drop_first(), to_node, to_input));
    } else {
        assert(t[0] == s[0]);
        assert(t.drop_first() =~= s.drop_first().push(c));
        lemma_without_target_push_targeting(s.drop_first(), c, to_node, to_input);
        if crate::graph::conn_targets(s[0], to_node, to_input) {
            assert(crate::graph::spec_connections_without_target(t, to_node, to_input)
                == crate::graph::spec_connections_without_target(
                t.drop_first(),
                to_node,
                to_input,
            ));
            assert(crate::graph::spec_connections_without_target(s, to_node, to_input)
                == crate::graph::spec_connections_without_target(
                s.drop_first(),
                to_node,
                to_input,
            ));
        } else {
            assert(crate::graph::spec_connections_without_target(t, to_node, to_input) == seq![
                s[0],
            ] + crate::graph::spec_connections_without_target(
                t.drop_first(),
                to_node,
                to_input,
            ));
            assert(crate::graph::spec_connections_without_target(s, to_node, to_input) == seq![
                s[0],
            ] + crate::graph::spec_connections_without_target(
                s.drop_first(),
                to_node,
                to_input,
            ));
        }
    }
}

/// The round-trip law: connecting an input socket that no connection
/// targets and then disconnecting that same socket restores the graph's
/// connections exactly, so every socket of the graph resolves as it did
/// before the connect — in particular the reconnected input is unconnected
/// again and resolution falls back to its stored default.
pub proof fn lemma_connect_disconnect_round_trip(
    nodes: Seq<MaterialNode>,
    connections: Seq<MaterialConnection>,
    c: MaterialConnection,
)
    requires
        spec_find_connection(connections, c.to_node, c.to_input) is None,
    ensures
        ({
            // The connection list after `connect` appends `c`, and after
            // `disconnect` drops the connections targeting its socket.
            let after = crate::graph::spec_connections_without_target(
                crate::graph::spec_connections_without_target(
                    connections,
                    c.to_node,
                    c.to_input,
                ).push(c),
                c.to_node,
                c.to_input,
            );
            &&& after == connections
            &&& forall|node_id: u32, input: SocketName|
                spec_resolution_input(nodes, after, node_id, input) == #[trigger] spec_resolution_input(
                    nodes,
                    connections,
                    node_id,
                    input,
                )
            &&& spec_resolution_input(nodes, after, c.to_node, c.to_input) == Ok::<
                Option<ValueView>,
                GraphError,
            >(None)
        }),
{
    crate::graph::lemma_without_target_all_kept(connections, c.to_node, c.to_input);
    lemma_without_target_push_targeting(connections, c, c.to_node, c.to_input);
}

/// Returns whether the path holds the id.
fn contains_id(path: &Vec<u32>, id: u32) -> (r: bool)
    ensures
        r == path@.contains(id),
{
    let n = path.len();
    let mut i: usize = 0;
    while i < n
        invariant
            n == path@.len(),
            0 <= i <= n,
            forall|j: int| 0 <= j < i ==> path@[j] != id,
        decreases n - i,
    {
        if path[i] == id {
            return true;
        }
        i = i + 1;
    }
    false
}

/// Returns the stored value of a node's input socket, if any.
pub(crate) fn lookup_input<'a>(node: &'a MaterialNode, name: SocketName) -> (r: Option<&'a MaterialValue>)
    ensures
        match r {
            Some(v) => spec_stored_input(*node, name) == Some(v@),
            None => spec_stored_input(*node, name) is None,
        },
{
    let n = node.inputs.len();
    let mut i: usize = 0;
    while i < n
        invariant
            n == node.inputs@.len(),
            0 <= i <= n,
            forall|j: int| 0 <= j < i ==> (#[trigger] node.inputs@[j]).0 != name,
        decreases n - i,
    {
        if node.inputs[i].0 == name {
            proof {
                assert forall|j: int| 0 <= j < i implies (#[trigger] inputs_view(node.inputs@)[j]).0
                    != name by {
                    assert(inputs_view(node.inputs@)[j] == (node.inputs@[j].0, node.inputs@[j].1@));
                }
                assert(inputs_view(node.inputs@)[i as int] == (
                    node.inputs@[i as int].0,
                    node.inputs@[i as int].1@,
                ));
                crate::catalog::lemma_assoc_lookup_from(inputs_view(node.inputs@), name, i as int);
            }
            return Some(&node.inputs[i].1);
        }
        i = i + 1;
    }
    proof {
        assert forall|j: int| 0 <= j < n implies (#[trigger] inputs_view(node.inputs@)[j]).0
            != name by {
            assert(inputs_view(node.inputs@)[j] == (node.inputs@[j].0, node.inputs@[j].1@));
        }
        crate::catalog::lemma_assoc_lookup_from(inputs_view(node.inputs@), name, n as int);
    }
    None
}

/// Returns the stored value of an input socket when it is a scalar, else
/// the fallback.
fn stored_scalar_or(node: &MaterialNode, name: SocketName, fallback: i64) -> (r: i64)
    ensures
        r as int == spec_stored_scalar_or(*node, name, fallback as int),
{
    match lookup_input(node, name) {
        Some(MaterialValue::Scalar(v)) => *v,
        _ => fallback,
    }
}

/// The executable mirror of `spec_resolve_input`.
fn resolve_input_impl(
    graph: &MaterialGraph,
    node_id: u32,
    input: SocketName,
    path: &mut Vec<u32>,
    fuel: usize,
) -> (r: Result<Option<MaterialValue>, GraphError>)
    ensures
        final(path)@ == old(path)@,
        res_view(r) == spec_resolve_input(
            graph.nodes@,
            graph.connections@,
            node_id,
            input,
            old(path)@,
            fuel as nat,
        ),
    decreases fuel, 1int,
{
    let connection = match graph.find_connection_to(node_id, input) {
        None => {
            return Ok(None);
        },
        Some(c) => *c,
    };
    match graph.get_node(connection.from_node) {
        None => Ok(None),
        Some(_) => resolve_output_impl(
            graph,
            connection.from_node,
            connection.from_output,
            path,
            fuel,
        ),
    }
}

/// The executable mirror of `spec_input_or_default`.
fn input_or_default_impl(
    graph: &MaterialGraph,
    node: &MaterialNode,
    input: SocketName,
    path: &mut Vec<u32>,
    fuel: usize,
) -> (r: Result<Option<MaterialValue>, GraphError>)
    ensures
        final(path)@ == old(path)@,
        res_view(r) == spec_input_or_default(
            graph.nodes@,
            graph.connections@,
            *node,
            input,
            old(path)@,
            fuel as nat,
        ),
    decreases fuel, 2int,
{
    match resolve_input_impl(graph, node.id, input, path, fuel) {
        Err(e) => Err(e),
        Ok(Some(v)) => Ok(Some(v)),
        Ok(None) => match lookup_input(node, input) {
            Some(v) => Ok(Some(v.duplicate())),
            None => Ok(None),
        },
    }
}

/// The executable mirror of `spec_scalar_param`.
fn scalar_param_impl(
    graph: &MaterialGraph,
    node: &MaterialNode,
    input: SocketName,
    fallback: i64,
    path: &mut Vec<u32>,
    fuel: usize,
) -> (r: Result<i64, GraphError>)
    ensures
        final(path)@ == old(path)@,
        (match r {
            Ok(v) => spec_scalar_param(
                graph.nodes@,
                graph.connections@,
                *node,
                input,
                fallback as int,
                old(path)@,
                fuel as nat,
            ) == Ok::<int, GraphError>(v as int),
            Err(e) => spec_scalar_param(
                graph.nodes@,
                graph.connections@,
                *node,
                input,
                fallback as int,
                old(path)@,
                fuel as nat,
            ) == Err::<int, GraphError>(e),
        }),
    decreases fuel, 3int,
{
    match input_or_default_impl(graph, node, input, path, fuel) {
        Err(e) => Err(e),
        Ok(Some(MaterialValue::Scalar(v))) => Ok(v),
        Ok(_) => Ok(stored_scalar_or(node, input, fallback)),
    }
}

/// The executable mirror of `spec_resolve_output`.
fn resolve_output_impl(
    graph: &MaterialGraph,
    node_id: u32,
    output: SocketName,
    path: &mut Vec<u32>,
    fuel: usize,
) -> (r: Result<Option<MaterialValue>, GraphError>)
    ensures
        final(path)@ == old(path)@,
        res_view(r) == spec_resolve_output(
            graph.nodes@,
            graph.connections@,
            node_id,
            output,
            old(path)@,
            fuel as nat,
        ),
    decreases fuel, 0int,
{
    if contains_id(path, node_id) {
        return Err(GraphError::CyclicGraphError);
    }
    let node = match graph.get_node(node_id) {
        None => {
            return Ok(None);
        },
        Some(n) => n,
    };
    if fuel == 0 {
        return Err(GraphError::CyclicGraphError);
    }
    path.push(node_id);
    let r = dispatch_impl(graph, node, output, path, fuel - 1);
    path.pop();
    proof {
        assert(old(path)@.push(node_id).drop_last() =~= old(path)@);
    }
    r
}

/// The executable mirror of `spec_dispatch`.
#[verifier::rlimit(100)]
fn dispatch_impl(
    graph: &MaterialGraph,
    node: &MaterialNode,
    output: SocketName,
    path: &mut Vec<u32>,
    fuel: usize,
) -> (r: Result<Option<MaterialValue>, GraphError>)
    ensures
        final(path)@ == old(path)@,
        res_view(r) == spec_dispatch(
            graph.nodes@,
            graph.connections@,
            *node,
            output,
            old(path)@,
            fuel as nat,
        ),
    decreases fuel, 4int,
{
    match node.node_type {
        MaterialNodeType::ColorConstant => {
            if output == SocketName::Color {
                match lookup_input(node, SocketName::Color) {
                    Some(MaterialValue::Color(c)) => Ok(Some(MaterialValue::Color(*c))),
                    _ => Ok(None),
                }
            } else {
                Ok(None)
            }
        },
        MaterialNodeType::ScalarConstant => {
            if output == SocketName::Value {
                match lookup_input(node, SocketName::Value) {
                    Some(MaterialValue::Scalar(v)) => Ok(Some(MaterialValue::Scalar(*v))),
                    _ => Ok(None),
                }
            } else {
                Ok(None)
            }
        },
        MaterialNodeType::Vector3Constant => {
            if output == SocketName::Vector {
                match lookup_input(node, SocketName::Vector) {
                    Some(MaterialValue::Vector3(v)) => Ok(Some(MaterialValue::Vector3(*v))),
                    _ => Ok(None),
                }
            } else {
                Ok(None)
            }
        },
        MaterialNodeType::CheckerPattern => {
            if output == SocketName::Pattern {
                let color1 = match input_or_default_impl(graph, node, SocketName::Color1, path, fuel) {
                    Err(e) => {
                        return Err(e);
                    },
                    Ok(color1) => color1,
                };
                if let Err(e) = input_or_default_impl(graph, node, SocketName::Color2, path, fuel) {
                    return Err(e);
                }
                if let Err(e) = input_or_default_impl(graph, node, SocketName::Scale, path, fuel) {
                    return Err(e);
                }
                match color1 {
                    Some(v) => Ok(Some(v)),
                    None => Ok(
                        Some(
                            MaterialValue::Color(Rgba { r: FX_ONE, g: FX_ONE, b: FX_ONE, a: FX_ONE }),
                        ),
                    ),
                }
            } else {
                Ok(None)
            }
        },
        MaterialNodeType::NoiseTexture => {
            if output == SocketName::Noise {
                let scale = match scalar_param_impl(graph, node, SocketName::Scale, FX_ONE, path, fuel) {
                    Err(e) => {
                        return Err(e);
                    },
                    Ok(scale) => scale,
                };
                if let Err(e) = input_or_default_impl(graph, node, SocketName::Detail, path, fuel) {
                    return Err(e);
                }
                if let Err(e) = input_or_default_impl(graph, node, SocketName::Distortion, path, fuel) {
                    return Err(e);
                }
                Ok(Some(MaterialValue::Scalar(crate::fixed::fx_noise(scale))))
            } else {
                Ok(None)
            }
        },
        MaterialNodeType::ColorMix => {
            if output == SocketName::Color {
                let a = match input_or_default_impl(graph, node, SocketName::ColorA, path, fuel) {
                    Err(e) => {
                        return Err(e);
                    },
                    Ok(a) => a,
                };
                let b = match input_or_default_impl(graph, node, SocketName::ColorB, path, fuel) {
                    Err(e) => {
                        return Err(e);
                    },
                    Ok(b) => b,
                };
                let f = match input_or_default_impl(graph, node, SocketName::Factor, path, fuel) {
                    Err(e) => {
                        return Err(e);
                    },
                    Ok(f) => f,
                };
                match (a, b, f) {
                    (
                        Some(MaterialValue::Color(ca)),
                        Some(MaterialValue::Color(cb)),
                        Some(MaterialValue::Scalar(fv)),
                    ) => Ok(
                        Some(
                            MaterialValue::Color(
                                Rgba {
                                    r: crate::fixed::fx_mix(ca.r, cb.r, fv),
                                    g: crate::fixed::fx_mix(ca.g, cb.g, fv),
                                    b: crate::fixed::fx_mix(ca.b, cb.b, fv),
                                    a: crate::fixed::fx_mix(ca.a, cb.a, fv),
                                },
                            ),
                        ),
                    ),
                    _ => Ok(None),
                }
            } else {
                Ok(None)
            }
        },
        MaterialNodeType::Clamp => {
            if output == SocketName::Result {
                let value = match input_or_default_impl(graph, node, SocketName::Value, path, fuel) {
                    Err(e) => {
                        return Err(e);
                    },
                    Ok(value) => value,
                };
                let lo = match scalar_param_impl(graph, node, SocketName::Min, 0, path, fuel) {
                    Err(e) => {
                        return Err(e);
                    },
                    Ok(lo) => lo,
                };
                let hi = match scalar_param_impl(graph, node, SocketName::Max, FX_ONE, path, fuel) {
                    Err(e) => {
                        return Err(e);
                    },
                    Ok(hi) => hi,
                };
                match value {
                    Some(MaterialValue::Scalar(v)) => Ok(
                        Some(MaterialValue::Scalar(crate::fixed::fx_clamp(v, lo, hi))),
                    ),
                    _ => Ok(None),
                }
            } else {
                Ok(None)
            }
        },
        MaterialNodeType::Remap => {
            if output == SocketName::Result {
                let value = match input_or_default_impl(graph, node, SocketName::Value, path, fuel) {
                    Err(e) => {
                        return Err(e);
                    },
                    Ok(value) => value,
                };
                let from_min = match scalar_param_impl(graph, node, SocketName::FromMin, 0, path, fuel) {
                    Err(e) => {
                        return Err(e);
                    },
                    Ok(v) => v,
                };
                let from_max = match scalar_param_impl(graph, node, SocketName::FromMax, FX_ONE, path, fuel) {
                    Err(e) => {
                        return Err(e);
                    },
                    Ok(v) => v,
                };
                let to_min = match scalar_param_impl(graph, node, SocketName::ToMin, 0, path, fuel) {
                    Err(e) => {
                        return Err(e);
                    },
                    Ok(v) => v,
                };
                let to_max = match scalar_param_impl(graph, node, SocketName::ToMax, FX_ONE, path, fuel) {
                    Err(e) => {
                        return Err(e);
                    },
                    Ok(v) => v,
                };
                match value {
                    Some(MaterialValue::Scalar(v)) => Ok(
                        Some(
                            MaterialValue::Scalar(
                                crate::fixed::fx_remap(v, from_min, from_max, to_min, to_max),
                            ),
                        ),
                    ),
                    _ => Ok(None),
                }
            } else {
                Ok(None)
            }
        },
        MaterialNodeType::Fresnel => {
            if output == SocketName::Fresnel {
                let ior = match scalar_param_impl(graph, node, SocketName::Ior, 1_450_000, path, fuel) {
                    Err(e) => {
                        return Err(e);
                    },
                    Ok(ior) => ior,
                };
                if let Err(e) = input_or_default_impl(graph, node, SocketName::Normal, path, fuel) {
                    return Err(e);
                }
                Ok(Some(MaterialValue::Scalar(crate::fixed::fx_fresnel(ior))))
            } else {
                Ok(None)
            }
        },
        MaterialNodeType::NormalMap => {
            if output == SocketName::Normal {
                if let Err(e) = input_or_default_impl(graph, node, SocketName::NormalTexture, path, fuel) {
                    return Err(e);
                }
                if let Err(e) = input_or_default_impl(graph, node, SocketName::Strength, path, fuel) {
                    return Err(e);
                }
                Ok(Some(MaterialValue::Vector3(Vec3Fx { x: 0, y: 0, z: FX_ONE })))
            } else {
                Ok(None)
            }
        },
        MaterialNodeType::DetailNormal => {
            if output == SocketName::Normal {
                if let Err(e) = input_or_default_impl(graph, node, SocketName::BaseNormal, path, fuel) {
                    return Err(e);
                }
                if let Err(e) = input_or_default_impl(graph, node, SocketName::DetailNormal, path, fuel) {
                    return Err(e);
                }
                if let Err(e) = input_or_default_impl(graph, node, SocketName::Strength, path, fuel) {
                    return Err(e);
                }
                Ok(Some(MaterialValue::Vector3(Vec3Fx { x: 0, y: 0, z: FX_ONE })))
            } else {
                Ok(None)
            }
        },
        MaterialNodeType::Multiply => {
            if output == SocketName::Result {
                let a = match input_or_default_impl(graph, node, SocketName::A, path, fuel) {
                    Err(e) => {
                        return Err(e);
                    },
                    Ok(a) => a,
                };
                let b = match input_or_default_impl(graph, node, SocketName::B, path, fuel) {
                    Err(e) => {
                        return Err(e);
                    },
                    Ok(b) => b,
                };
                match (a, b) {
                    (Some(MaterialValue::Scalar(x)), Some(MaterialValue::Scalar(y))) => Ok(
                        Some(MaterialValue::Scalar(crate::fixed::fx_mul(x, y))),
                    ),
                    (Some(MaterialValue::Color(ca)), Some(MaterialValue::Color(cb))) => Ok(
                        Some(
                            MaterialValue::Color(
                                Rgba {
                                    r: crate::fixed::fx_mul(ca.r, cb.r),
                                    g: crate::fixed::fx_mul(ca.g, cb.g),
                                    b: crate::fixed::fx_mul(ca.b, cb.b),
                                    a: crate::fixed::fx_mul(ca.a, cb.a),
                                },
                            ),
                        ),
                    ),
                    (Some(MaterialValue::Color(c)), Some(MaterialValue::Scalar(s)))
                    | (Some(MaterialValue::Scalar(s)), Some(MaterialValue::Color(c))) => Ok(
                        Some(
                            MaterialValue::Color(
                                Rgba {
                                    r: crate::fixed::fx_mul(c.r, s),
                                    g: crate::fixed::fx_mul(c.g, s),
                                    b: crate::fixed::fx_mul(c.b, s),
                                    a: c.a,
                                },
                            ),
                        ),
                    ),
                    _ => Ok(None),
                }
            } else {
                Ok(None)
            }
        },
        MaterialNodeType::Add => {
            if output == SocketName::Result {
                let a = match input_or_default_impl(graph, node, SocketName::A, path, fuel) {
                    Err(e) => {
                        return Err(e);
                    },
                    Ok(a) => a,
                };
                let b = match input_or_default_impl(graph, node, SocketName::B, path, fuel) {
                    Err(e) => {
                        return Err(e);
                    },
                    Ok(b) => b,
                };
                match (a, b) {
                    (Some(MaterialValue::Scalar(x)), Some(MaterialValue::Scalar(y))) => Ok(
                        Some(MaterialValue::Scalar(crate::fixed::fx_add(x, y))),
                    ),
                    (Some(MaterialValue::Color(ca)), Some(MaterialValue::Color(cb))) => Ok(
                        Some(
                            MaterialValue::Color(
                                Rgba {
                                    r: crate::fixed::fx_add(ca.r, cb.r),
                                    g: crate::fixed::fx_add(ca.g, cb.g),
                                    b: crate::fixed::fx_add(ca.b, cb.b),
                                    a: crate::fixed::fx_add(ca.a, cb.a),
                                },
                            ),
                        ),
                    ),
                    _ => Ok(None),
                }
            } else {
                Ok(None)
            }
        },
        MaterialNodeType::Subtract => {
            if output == SocketName::Result {
                let a = match input_or_default_impl(graph, node, SocketName::A, path, fuel) {
                    Err(e) => {
                        return Err(e);
                    },
                    Ok(a) => a,
                };
                let b = match input_or_default_impl(graph, node, SocketName::B, path, fuel) {
                    Err(e) => {
                        return Err(e);
                    },
                    Ok(b) => b,
                };
                match (a, b) {
                    (Some(MaterialValue::Scalar(x)), Some(MaterialValue::Scalar(y))) => Ok(
                        Some(MaterialValue::Scalar(crate::fixed::fx_sub(x, y))),
                    ),
                    (Some(MaterialValue::Color(ca)), Some(MaterialValue::Color(cb))) => Ok(
                        Some(
                            MaterialValue::Color(
                                Rgba {
                                    r: crate::fixed::fx_sub(ca.r, cb.r),
                                    g: crate::fixed::fx_sub(ca.g, cb.g),
                                    b: crate::fixed::fx_sub(ca.b, cb.b),
                                    a: crate::fixed::fx_sub(ca.a, cb.a),
                                },
                            ),
                        ),
                    ),
                    _ => Ok(None),
                }
            } else {
                Ok(None)
            }
        },
        MaterialNodeType::Lerp => {
            if output == SocketName::Result {
                let a = match input_or_default_impl(graph, node, SocketName::A, path, fuel) {
                    Err(e) => {
                        return Err(e);
                    },
                    Ok(a) => a,
                };
                let b = match input_or_default_impl(graph, node, SocketName::B, path, fuel) {
                    Err(e) => {
                        return Err(e);
                    },
                    Ok(b) => b,
                };
                let alpha = match input_or_default_impl(graph, node, SocketName::Alpha, path, fuel) {
                    Err(e) => {
                        return Err(e);
                    },
                    Ok(alpha) => alpha,
                };
                match (a, b, alpha) {
                    (
                        Some(MaterialValue::Color(ca)),
                        Some(MaterialValue::Color(cb)),
                        Some(MaterialValue::Scalar(t)),
                    ) => Ok(
                        Some(
                            MaterialValue::Color(
                                Rgba {
                                    r: crate::fixed::fx_mix(ca.r, cb.r, t),
                                    g: crate::fixed::fx_mix(ca.g, cb.g, t),
                                    b: crate::fixed::fx_mix(ca.b, cb.b, t),
                                    a: crate::fixed::fx_mix(ca.a, cb.a, t),
                                },
                            ),
                        ),
                    ),
                    (
                        Some(MaterialValue::Scalar(x)),
                        Some(MaterialValue::Scalar(y)),
                        Some(MaterialValue::Scalar(t)),
                    ) => Ok(Some(MaterialValue::Scalar(crate::fixed::fx_mix(x, y, t)))),
                    _ => Ok(None),
                }
            } else {
                Ok(None)
            }
        },
        MaterialNodeType::Power => {
            if output == SocketName::Result {
                let base = match input_or_default_impl(graph, node, SocketName::Base, path, fuel) {
                    Err(e) => {
                        return Err(e);
                    },
                    Ok(base) => base,
                };
                let exponent = match scalar_param_impl(
                    graph,
                    node,
                    SocketName::Exponent,
                    2_000_000,
                    path,
                    fuel,
                ) {
                    Err(e) => {
                        return Err(e);
                    },
                    Ok(v) => v,
                };
                match base {
                    Some(MaterialValue::Scalar(v)) => Ok(
                        Some(MaterialValue::Scalar(crate::fixed::fx_pow(v, exponent))),
                    ),
                    _ => Ok(None),
                }
            } else {
                Ok(None)
            }
        },
        MaterialNodeType::OneMinus => {
            if output == SocketName::Result {
                match input_or_default_impl(graph, node, SocketName::Input, path, fuel) {
                    Err(e) => Err(e),
                    Ok(Some(MaterialValue::Scalar(v))) => Ok(
                        Some(MaterialValue::Scalar(crate::fixed::fx_one_minus(v))),
                    ),
                    Ok(_) => Ok(None),
                }
            } else {
                Ok(None)
            }
        },
        MaterialNodeType::TextureSample => {
            if output == SocketName::Rgb || output == SocketName::Alpha {
                if let Err(e) = input_or_default_impl(graph, node, SocketName::Texture, path, fuel) {
                    return Err(e);
                }
                if let Err(e) = input_or_default_impl(graph, node, SocketName::Uv, path, fuel) {
                    return Err(e);
                }
                if output == SocketName::Rgb {
                    Ok(
                        Some(
                            MaterialValue::Color(
                                Rgba { r: 500_000, g: 500_000, b: 500_000, a: FX_ONE },
                            ),
                        ),
                    )
                } else {
                    Ok(Some(MaterialValue::Scalar(FX_ONE)))
                }
            } else {
                Ok(None)
            }
        },
        MaterialNodeType::MaterialOutput => Ok(None),
    }
}

/// Resolves a node's named input by following the connection that targets
/// it, if any: the source node's output decides, and `None` means the
/// caller falls back to the node's stored default.
pub fn evaluate_node_input(
    graph: &MaterialGraph,
    node_id: u32,
    input_name: SocketName,
) -> (r: Result<Option<MaterialValue>, GraphError>)
    ensures
        res_view(r) == spec_resolution_input(graph.nodes@, graph.connections@, node_id, input_name),
{
    let mut path: Vec<u32> = Vec::new();
    resolve_input_impl(graph, node_id, input_name, &mut path, graph.nodes.len())
}

/// Resolves a node's named output value, dispatching on its kind.
pub fn evaluate_node_output(
    graph: &MaterialGraph,
    node_id: u32,
    output_name: SocketName,
) -> (r: Result<Option<MaterialValue>, GraphError>)
    ensures
        res_view(r) == spec_resolution_output(
            graph.nodes@,
            graph.connections@,
            node_id,
            output_name,
        ),
{
    let mut path: Vec<u32> = Vec::new();
    resolve_output_impl(graph, node_id, output_name, &mut path, graph.nodes.len())
}

} // verus!
