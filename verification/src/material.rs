//! The material: the named property set a graph compiles into — base
//! color, metallic, roughness and emission with its strength — together
//! with the graph that produces it, and the library of named materials.

use vstd::prelude::*;

use crate::eval::lookup_input;
use crate::eval::evaluate_node_input;
use crate::eval::spec_resolution_input;
use crate::eval::spec_stored_input;
use crate::fixed::FX_HALF;
use crate::fixed::FX_ONE;
use crate::graph::MaterialConnection;
use crate::graph::MaterialGraph;
use crate::graph::MaterialNode;
use crate::graph::spec_find_sink;
use crate::value::GraphError;
use crate::value::MaterialValue;
use crate::value::Rgb;
use crate::value::Rgba;
use crate::value::SocketName;
use crate::value::ValueView;

verus! {

/// A material: its rendered property set, the texture paths the host
/// engine loads, and the node graph that the properties are compiled from.
pub struct SproutMaterial {
    pub name: String,
    pub albedo_color: Rgba,
    pub metallic: i64,
    pub roughness: i64,
    pub emission: Rgb,
    pub emission_strength: i64,
    pub normal_strength: i64,
    pub albedo_texture: Option<String>,
    pub normal_texture: Option<String>,
    pub metallic_roughness_texture: Option<String>,
    pub emission_texture: Option<String>,
    pub occlusion_texture: Option<String>,
    pub material_graph: MaterialGraph,
}

impl Default for MaterialGraph {
    /// A fresh graph holding only the material output node.
    fn default() -> (graph: MaterialGraph)
        ensures
            graph.is_fresh(),
    {
        MaterialGraph::new()
    }
}

impl Default for SproutMaterial {
    /// A fresh material: light gray, dielectric, half rough, no emission,
    /// no textures, and a graph holding only the material output node.
    fn default() -> (material: SproutMaterial)
        ensures
            material.name@ == "New Material"@,
            material.albedo_color == (Rgba { r: 800_000, g: 800_000, b: 800_000, a: FX_ONE }),
            material.metallic == 0,
            material.roughness == FX_HALF,
            material.emission == (Rgb { r: 0, g: 0, b: 0 }),
            material.emission_strength == FX_ONE,
            material.normal_strength == FX_ONE,
            material.albedo_texture is None,
            material.normal_texture is None,
            material.metallic_roughness_texture is None,
            material.emission_texture is None,
            material.occlusion_texture is None,
            material.material_graph.is_fresh(),
    {
        SproutMaterial {
            name: "New Material".to_string(),
            albedo_color: Rgba { r: 800_000, g: 800_000, b: 800_000, a: FX_ONE },
            metallic: 0,
            roughness: FX_HALF,
            emission: Rgb { r: 0, g: 0, b: 0 },
            emission_strength: FX_ONE,
            normal_strength: FX_ONE,
            albedo_texture: None,
            normal_texture: None,
            metallic_roughness_texture: None,
            emission_texture: None,
            occlusion_texture: None,
            material_graph: MaterialGraph::new(),
        }
    }
}

/// Whether compiling the graph succeeds: each of the sink's four properties
/// is resolved in turn and the first cycle error, if any, is the result.
pub open spec fn spec_compile_result(
    nodes: Seq<MaterialNode>,
    connections: Seq<MaterialConnection>,
    sink_id: u32,
) -> Result<(), GraphError> {
    match spec_resolution_input(nodes, connections, sink_id, SocketName::BaseColor) {
        Err(e) => Err(e),
        Ok(_) => match spec_resolution_input(nodes, connections, sink_id, SocketName::Metallic) {
            Err(e) => Err(e),
            Ok(_) => match spec_resolution_input(nodes, connections, sink_id, SocketName::Roughness) {
                Err(e) => Err(e),
                Ok(_) => match spec_resolution_input(
                    nodes,
                    connections,
                    sink_id,
                    SocketName::Emission,
                ) {
                    Err(e) => Err(e),
                    Ok(_) => Ok(()),
                },
            },
        },
    }
}

/// The compiled value of a color property: the resolved color, else the
/// sink's stored default when the input is unconnected, else the previous
/// value when the resolution is of another tag.
pub open spec fn spec_compiled_color(
    nodes: Seq<MaterialNode>,
    connections: Seq<MaterialConnection>,
    sink: MaterialNode,
    input: SocketName,
    prev: Rgba,
) -> Rgba {
    match spec_resolution_input(nodes, connections, sink.id, input) {
        Ok(Some(ValueView::Color(c))) => c,
        Ok(Some(_)) => prev,
        Ok(None) => match spec_stored_input(sink, input) {
            Some(ValueView::Color(c)) => c,
            _ => prev,
        },
        Err(_) => prev,
    }
}

/// The compiled value of a scalar property, in the same way.
pub open spec fn spec_compiled_scalar(
    nodes: Seq<MaterialNode>,
    connections: Seq<MaterialConnection>,
    sink: MaterialNode,
    input: SocketName,
    prev: int,
) -> int {
    match spec_resolution_input(nodes, connections, sink.id, input) {
        Ok(Some(ValueView::Scalar(v))) => v as int,
        Ok(Some(_)) => prev,
        Ok(None) => match spec_stored_input(sink, input) {
            Some(ValueView::Scalar(v)) => v as int,
            _ => prev,
        },
        Err(_) => prev,
    }
}

/// Compiles the material's graph into its property fields: the material
/// output node's four inputs are resolved, a resolved color or scalar of
/// the right tag is written, an unconnected input falls back to the sink's
/// stored default, and a resolution of the wrong tag leaves the property at
/// its last-known value. The emission color's alpha channel becomes the
/// emission strength. A graph without a material output node fails with
/// `InvalidGraphError`; a cyclic graph fails with `CyclicGraphError`; on
/// failure the material is unchanged.
pub fn compile_material_from_graph(material: &mut SproutMaterial) -> (r: Result<(), GraphError>)
    ensures
        final(material).material_graph == old(material).material_graph,
        final(material).name == old(material).name,
        final(material).normal_strength == old(material).normal_strength,
        final(material).albedo_texture == old(material).albedo_texture,
        final(material).normal_texture == old(material).normal_texture,
        final(material).metallic_roughness_texture == old(material).metallic_roughness_texture,
        final(material).emission_texture == old(material).emission_texture,
        final(material).occlusion_texture == old(material).occlusion_texture,
        spec_find_sink(old(material).material_graph.nodes@) is None ==> r == Err::<(), GraphError>(
            GraphError::InvalidGraphError,
        ) && *final(material) == *old(material),
        (match spec_find_sink(old(material).material_graph.nodes@) {
            Some(sink) => {
                let nodes = old(material).material_graph.nodes@;
                let connections = old(material).material_graph.connections@;
                match spec_compile_result(nodes, connections, sink.id) {
                    Err(e) => r == Err::<(), GraphError>(e) && *final(material) == *old(material),
                    Ok(_) => {
                        &&& r == Ok::<(), GraphError>(())
                        &&& final(material).albedo_color == spec_compiled_color(
                            nodes,
                            connections,
                            sink,
                            SocketName::BaseColor,
                            old(material).albedo_color,
                        )
                        &&& final(material).metallic as int == spec_compiled_scalar(
                            nodes,
                            connections,
                            sink,
                            SocketName::Metallic,
                            old(material).metallic as int,
                        )
                        &&& final(material).roughness as int == spec_compiled_scalar(
                            nodes,
                            connections,
                            sink,
                            SocketName::Roughness,
                            old(material).roughness as int,
                        )
                        &&& ({
                            let e = spec_compiled_color(
                                nodes,
                                connections,
                                sink,
                                SocketName::Emission,
                                (Rgba {
                                    r: old(material).emission.r,
                                    g: old(material).emission.g,
                                    b: old(material).emission.b,
                                    a: old(material).emission_strength,
                                }),
                            );
                            final(material).emission == (Rgb { r: e.r, g: e.g, b: e.b })
                                && final(material).emission_strength == e.a
                        })
                    },
                }
            },
            None => true,
        }),
{
    let sink = match material.material_graph.find_sink() {
        None => {
            return Err(GraphError::InvalidGraphError);
        },
        Some(n) => n,
    };
    let base_color = match evaluate_node_input(
        &material.material_graph,
        sink.id,
        SocketName::BaseColor,
    ) {
        Err(e) => {
            return Err(e);
        },
        Ok(v) => v,
    };
    let metallic = match evaluate_node_input(
        &material.material_graph,
        sink.id,
        SocketName::Metallic,
    ) {
        Err(e) => {
            return Err(e);
        },
        Ok(v) => v,
    };
    let roughness = match evaluate_node_input(
        &material.material_graph,
        sink.id,
        SocketName::Roughness,
    ) {
        Err(e) => {
            return Err(e);
        },
        Ok(v) => v,
    };
    let emission = match evaluate_node_input(
        &material.material_graph,
        sink.id,
        SocketName::Emission,
    ) {
        Err(e) => {
            return Err(e);
        },
        Ok(v) => v,
    };
    let new_albedo: Rgba = match &base_color {
        Some(MaterialValue::Color(c)) => *c,
        Some(_) => material.albedo_color,
        None => match lookup_input(sink, SocketName::BaseColor) {
            Some(MaterialValue::Color(c)) => *c,
            _ => material.albedo_color,
        },
    };
    let new_metallic: i64 = match &metallic {
        Some(MaterialValue::Scalar(v)) => *v,
        Some(_) => material.metallic,
        None => match lookup_input(sink, SocketName::Metallic) {
            Some(MaterialValue::Scalar(v)) => *v,
            _ => material.metallic,
        },
    };
    let new_roughness: i64 = match &roughness {
        Some(MaterialValue::Scalar(v)) => *v,
        Some(_) => material.roughness,
        None => match lookup_input(sink, SocketName::Roughness) {
            Some(MaterialValue::Scalar(v)) => *v,
            _ => material.roughness,
        },
    };
    let prev_emission = Rgba {
        r: material.emission.r,
        g: material.emission.g,
        b: material.emission.b,
        a: material.emission_strength,
    };
    let new_emission: Rgba = match &emission {
        Some(MaterialValue::Color(c)) => *c,
        Some(_) => prev_emission,
        None => match lookup_input(sink, SocketName::Emission) {
            Some(MaterialValue::Color(c)) => *c,
            _ => prev_emission,
        },
    };
    material.albedo_color = new_albedo;
    material.metallic = new_metallic;
    material.roughness = new_roughness;
    material.emission = Rgb { r: new_emission.r, g: new_emission.g, b: new_emission.b };
    material.emission_strength = new_emission.a;
    Ok(())
}

/// The library of named materials the editor works on. The name is the
/// key: no two materials may carry the same one.
pub struct MaterialLibrary {
    pub materials: Vec<SproutMaterial>,
    pub selected_material: Option<String>,
}

impl MaterialLibrary {
    /// The library's structural invariants: material names are pairwise
    /// distinct — the map-like guarantee the name-keyed store gives its
    /// callers — and every material's graph is well formed.
    pub open spec fn wf(self) -> bool {
        &&& forall|i: int, j: int|
            0 <= i < j < self.materials@.len() ==> (#[trigger] self.materials@[i]).name@ != (
            #[trigger] self.materials@[j]).name@
        &&& forall|i: int|
            0 <= i < self.materials@.len() ==> (#[trigger] self.materials@[i]).material_graph.wf()
    }

    /// Re-validates a library, the check a loader runs on a freshly
    /// deserialized document: a duplicate material name or an ill-formed
    /// graph is surfaced as `InvalidGraphError`, never repaired silently.
    pub fn validate(&self) -> (r: Result<(), GraphError>)
        ensures
            r == (if self.wf() {
                Ok::<(), GraphError>(())
            } else {
                Err::<(), GraphError>(GraphError::InvalidGraphError)
            }),
    {
        let n = self.materials.len();
        let mut i: usize = 0;
        while i < n
            invariant
                n == self.materials@.len(),
                0 <= i <= n,
                forall|a: int, b: int|
                    0 <= a < b < n && a < i ==> (#[trigger] self.materials@[a]).name@ != (
                    #[trigger] self.materials@[b]).name@,
                forall|a: int|
                    0 <= a < i ==> (#[trigger] self.materials@[a]).material_graph.wf(),
            decreases n - i,
        {
            let mut j: usize = i + 1;
            while j < n
                invariant
                    n == self.materials@.len(),
                    0 <= i < n,
                    i < j <= n,
                    forall|b: int|
                        i < b < j ==> (#[trigger] self.materials@[b]).name@
                            != self.materials@[i as int].name@,
                decreases n - j,
            {
                if self.materials[j].name == self.materials[i].name {
                    return Err(GraphError::InvalidGraphError);
                }
                j = j + 1;
            }
            if let Err(_) = self.materials[i].material_graph.validate() {
                return Err(GraphError::InvalidGraphError);
            }
            i = i + 1;
        }
        Ok(())
    }
}

impl Default for MaterialLibrary {
    /// A starter library: a fresh default material, a metal and a plastic,
    /// with the default material selected.
    fn default() -> (library: MaterialLibrary)
        ensures
            library.materials@.len() == 3,
            library.materials@[0].name@ == "Default"@,
            library.materials@[1].name@ == "Metal"@,
            library.materials@[1].albedo_color == (Rgba {
                r: 700_000,
                g: 700_000,
                b: 700_000,
                a: FX_ONE,
            }),
            library.materials@[1].metallic == FX_ONE,
            library.materials@[1].roughness == 200_000,
            library.materials@[2].name@ == "Plastic"@,
            library.materials@[2].albedo_color == (Rgba {
                r: 100_000,
                g: 500_000,
                b: 900_000,
                a: FX_ONE,
            }),
            library.materials@[2].metallic == 0,
            library.materials@[2].roughness == 800_000,
            forall|i: int|
                0 <= i < 3 ==> (#[trigger] library.materials@[i]).material_graph.is_fresh(),
            library.selected_material matches Some(s) && s@ == "Default"@,
            library.wf(),
    {
        let mut base: SproutMaterial = Default::default();
        base.name = "Default".to_string();
        let mut metal: SproutMaterial = Default::default();
        metal.name = "Metal".to_string();
        metal.albedo_color = Rgba { r: 700_000, g: 700_000, b: 700_000, a: FX_ONE };
        metal.metallic = FX_ONE;
        metal.roughness = 200_000;
        let mut plastic: SproutMaterial = Default::default();
        plastic.name = "Plastic".to_string();
        plastic.albedo_color = Rgba { r: 100_000, g: 500_000, b: 900_000, a: FX_ONE };
        plastic.metallic = 0;
        plastic.roughness = 800_000;
        let mut materials: Vec<SproutMaterial> = Vec::new();
        materials.push(base);
        materials.push(metal);
        materials.push(plastic);
        let library = MaterialLibrary { materials, selected_material: Some("Default".to_string()) };
        proof {
            reveal_strlit("Default");
            reveal_strlit("Metal");
            reveal_strlit("Plastic");
            assert("Default"@[0] != "Plastic"@[0]);
            assert(library.wf());
        }
        library
    }
}

} // verus!
