use material_graph::catalog::MaterialNodeType;
use material_graph::fixed::{FX_HALF, FX_ONE};
use material_graph::material::{MaterialLibrary, SproutMaterial};
use material_graph::value::{GraphError, Rgb, Rgba};

#[test]
fn default_material_values() {
    let material = SproutMaterial::default();
    assert_eq!(material.name, "New Material");
    assert_eq!(
        material.albedo_color,
        Rgba { r: 800_000, g: 800_000, b: 800_000, a: FX_ONE }
    );
    assert_eq!(material.metallic, 0);
    assert_eq!(material.roughness, FX_HALF);
    assert_eq!(material.emission, Rgb { r: 0, g: 0, b: 0 });
    assert_eq!(material.emission_strength, FX_ONE);
    assert_eq!(material.normal_strength, FX_ONE);
    assert!(material.albedo_texture.is_none());
    assert!(material.normal_texture.is_none());
    assert!(material.metallic_roughness_texture.is_none());
    assert!(material.emission_texture.is_none());
    assert!(material.occlusion_texture.is_none());
    assert_eq!(material.material_graph.validate(), Ok(()));
    assert_eq!(material.material_graph.nodes.len(), 1);
    assert_eq!(
        material.material_graph.nodes[0].node_type,
        MaterialNodeType::MaterialOutput
    );
}

#[test]
fn default_library_holds_three_materials() {
    let library = MaterialLibrary::default();
    assert_eq!(library.materials.len(), 3);
    assert_eq!(library.materials[0].name, "Default");
    assert_eq!(library.materials[1].name, "Metal");
    assert_eq!(library.materials[2].name, "Plastic");
    assert_eq!(library.selected_material.as_deref(), Some("Default"));

    let metal = &library.materials[1];
    assert_eq!(
        metal.albedo_color,
        Rgba { r: 700_000, g: 700_000, b: 700_000, a: FX_ONE }
    );
    assert_eq!(metal.metallic, FX_ONE);
    assert_eq!(metal.roughness, 200_000);

    let plastic = &library.materials[2];
    assert_eq!(
        plastic.albedo_color,
        Rgba { r: 100_000, g: 500_000, b: 900_000, a: FX_ONE }
    );
    assert_eq!(plastic.metallic, 0);
    assert_eq!(plastic.roughness, 800_000);

    // Each starter material begins with the fresh single-sink graph.
    for material in &library.materials {
        assert_eq!(material.material_graph.validate(), Ok(()));
        assert_eq!(material.material_graph.nodes.len(), 1);
        assert_eq!(
            material.material_graph.nodes[0].node_type,
            MaterialNodeType::MaterialOutput
        );
        assert!(material.material_graph.connections.is_empty());
        assert_eq!(material.material_graph.next_node_id, 2);
    }
    assert_eq!(library.validate(), Ok(()));
}

#[test]
fn library_validate_rejects_duplicate_names() {
    let mut library = MaterialLibrary::default();
    let mut copy = SproutMaterial::default();
    copy.name = "Metal".to_string();
    library.materials.push(copy);
    assert_eq!(library.validate(), Err(GraphError::InvalidGraphError));
}

#[test]
fn library_validate_rejects_a_broken_graph() {
    let mut library = MaterialLibrary::default();
    library.materials[0].material_graph.nodes.clear();
    assert_eq!(library.validate(), Err(GraphError::InvalidGraphError));
}
