use material_graph::catalog::{get_default_inputs_for_node_type, MaterialNodeType};
use material_graph::eval::evaluate_node_input;
use material_graph::fixed::FX_ONE;
use material_graph::graph::{MaterialConnection, MaterialGraph, MaterialNode};
use material_graph::value::{GraphError, MaterialValue, Rgba, SocketName, Vec3Fx};

fn demo_graph() -> MaterialGraph {
    let mut graph = MaterialGraph::new();
    graph.add_node(MaterialNodeType::ColorConstant, "Color".to_string());
    graph.add_node(MaterialNodeType::ColorMix, "Color Mix".to_string());
    graph
}

#[test]
fn new_graph_holds_only_the_output_node() {
    let graph = MaterialGraph::new();
    assert_eq!(graph.nodes.len(), 1);
    assert_eq!(graph.nodes[0].id, 1);
    assert_eq!(graph.nodes[0].node_type, MaterialNodeType::MaterialOutput);
    assert_eq!(graph.nodes[0].name, "Material Output");
    assert!(graph.connections.is_empty());
    assert_eq!(graph.next_node_id, 2);
    assert_eq!(graph.validate(), Ok(()));
}

#[test]
fn add_node_allocates_increasing_ids() {
    let mut graph = MaterialGraph::new();
    let a = graph.add_node(MaterialNodeType::ScalarConstant, "Scalar".to_string());
    let b = graph.add_node(MaterialNodeType::Multiply, "Multiply".to_string());
    assert_eq!(a, 2);
    assert_eq!(b, 3);
    assert_eq!(graph.next_node_id, 4);
    assert_eq!(graph.nodes.len(), 3);
    assert_eq!(graph.validate(), Ok(()));
}

#[test]
fn add_node_seeds_catalog_defaults() {
    let mut graph = MaterialGraph::new();
    let id = graph.add_node(MaterialNodeType::Remap, "Remap".to_string());
    let node = graph.get_node(id).unwrap();
    assert_eq!(node.name, "Remap");
    assert_eq!(
        node.inputs,
        get_default_inputs_for_node_type(MaterialNodeType::Remap)
    );
}

#[test]
fn remove_node_protects_the_sink() {
    let mut graph = demo_graph();
    let before_nodes = graph.nodes.len();
    let before_connections = graph.connections.len();
    assert_eq!(graph.remove_node(1), Err(GraphError::ProtectedNodeError));
    assert_eq!(graph.nodes.len(), before_nodes);
    assert_eq!(graph.connections.len(), before_connections);
    assert!(graph.get_node(1).is_some());
}

#[test]
fn remove_node_drops_incident_connections() {
    let mut graph = demo_graph();
    // 2: ColorConstant, 3: ColorMix, 1: MaterialOutput.
    graph
        .connect(2, SocketName::Color, 3, SocketName::ColorA)
        .unwrap();
    graph
        .connect(3, SocketName::Color, 1, SocketName::BaseColor)
        .unwrap();
    assert_eq!(graph.connections.len(), 2);
    assert_eq!(graph.remove_node(3), Ok(()));
    assert!(graph.get_node(3).is_none());
    assert!(graph.connections.is_empty());
    assert_eq!(graph.validate(), Ok(()));
}

#[test]
fn remove_missing_node_changes_nothing() {
    let mut graph = demo_graph();
    assert_eq!(graph.remove_node(99), Ok(()));
    assert_eq!(graph.nodes.len(), 3);
}

#[test]
fn connect_adds_a_connection() {
    let mut graph = demo_graph();
    assert_eq!(
        graph.connect(2, SocketName::Color, 3, SocketName::ColorA),
        Ok(())
    );
    assert_eq!(graph.connections.len(), 1);
    let c = &graph.connections[0];
    assert_eq!(
        (c.from_node, c.from_output, c.to_node, c.to_input),
        (2, SocketName::Color, 3, SocketName::ColorA)
    );
    assert_eq!(graph.validate(), Ok(()));
}

#[test]
fn connect_replaces_prior_connection_to_same_input() {
    let mut graph = demo_graph();
    let other = graph.add_node(MaterialNodeType::ScalarConstant, "Scalar".to_string());
    graph
        .connect(2, SocketName::Color, 3, SocketName::ColorA)
        .unwrap();
    // A scalar may broadcast into a color input; it replaces the first.
    graph
        .connect(other, SocketName::Value, 3, SocketName::ColorA)
        .unwrap();
    assert_eq!(graph.connections.len(), 1);
    assert_eq!(graph.connections[0].from_node, other);
    assert_eq!(graph.validate(), Ok(()));
}

#[test]
fn connect_rejects_incompatible_types() {
    let mut graph = MaterialGraph::new();
    let vector = graph.add_node(MaterialNodeType::Vector3Constant, "Vector3".to_string());
    let multiply = graph.add_node(MaterialNodeType::Multiply, "Multiply".to_string());
    assert_eq!(
        graph.connect(vector, SocketName::Vector, multiply, SocketName::A),
        Err(GraphError::InvalidConnectionError)
    );
    assert!(graph.connections.is_empty());
}

#[test]
fn connect_rejects_missing_endpoints_and_sockets() {
    let mut graph = demo_graph();
    assert_eq!(
        graph.connect(99, SocketName::Color, 3, SocketName::ColorA),
        Err(GraphError::InvalidConnectionError)
    );
    assert_eq!(
        graph.connect(2, SocketName::Color, 99, SocketName::ColorA),
        Err(GraphError::InvalidConnectionError)
    );
    // A socket the source kind does not declare.
    assert_eq!(
        graph.connect(2, SocketName::Result, 3, SocketName::ColorA),
        Err(GraphError::InvalidConnectionError)
    );
}

#[test]
fn disconnect_removes_the_targeting_connection() {
    let mut graph = demo_graph();
    graph
        .connect(2, SocketName::Color, 3, SocketName::ColorA)
        .unwrap();
    graph.disconnect(3, SocketName::ColorA);
    assert!(graph.connections.is_empty());
}

#[test]
fn disconnect_without_connection_is_a_noop() {
    let mut graph = demo_graph();
    graph.disconnect(3, SocketName::ColorA);
    assert!(graph.connections.is_empty());
    assert_eq!(graph.nodes.len(), 3);
}

#[test]
fn connect_then_disconnect_restores_default_resolution() {
    let mut graph = demo_graph();
    // Before: the mix node's first color resolves to nothing, so the
    // caller falls back to the stored default.
    assert_eq!(evaluate_node_input(&graph, 3, SocketName::ColorA), Ok(None));
    graph
        .connect(2, SocketName::Color, 3, SocketName::ColorA)
        .unwrap();
    assert_eq!(
        evaluate_node_input(&graph, 3, SocketName::ColorA),
        Ok(Some(MaterialValue::Color(Rgba {
            r: FX_ONE,
            g: FX_ONE,
            b: FX_ONE,
            a: FX_ONE
        })))
    );
    graph.disconnect(3, SocketName::ColorA);
    assert_eq!(evaluate_node_input(&graph, 3, SocketName::ColorA), Ok(None));
    assert!(graph.connections.is_empty());
}

#[test]
fn set_node_input_replaces_the_stored_value() {
    let mut graph = MaterialGraph::new();
    let id = graph.add_node(MaterialNodeType::ScalarConstant, "Scalar".to_string());
    assert_eq!(
        graph.set_node_input(id, SocketName::Value, MaterialValue::Scalar(3_000_000)),
        Ok(())
    );
    let node = graph.get_node(id).unwrap();
    assert_eq!(node.inputs[0].1, MaterialValue::Scalar(3_000_000));
    assert_eq!(graph.validate(), Ok(()));
}

#[test]
fn set_node_input_rejects_undeclared_socket() {
    let mut graph = MaterialGraph::new();
    let id = graph.add_node(MaterialNodeType::ScalarConstant, "Scalar".to_string());
    assert_eq!(
        graph.set_node_input(id, SocketName::Factor, MaterialValue::Scalar(1)),
        Err(GraphError::UnknownSocketError)
    );
}

#[test]
fn set_node_input_rejects_mismatched_tag() {
    let mut graph = MaterialGraph::new();
    let id = graph.add_node(MaterialNodeType::ScalarConstant, "Scalar".to_string());
    assert_eq!(
        graph.set_node_input(
            id,
            SocketName::Value,
            MaterialValue::Vector3(Vec3Fx { x: 0, y: 0, z: 0 })
        ),
        Err(GraphError::InvalidGraphError)
    );
}

#[test]
fn set_node_input_rejects_missing_node() {
    let mut graph = MaterialGraph::new();
    assert_eq!(
        graph.set_node_input(42, SocketName::Value, MaterialValue::Scalar(1)),
        Err(GraphError::InvalidGraphError)
    );
}

#[test]
fn validate_rejects_a_duplicate_sink() {
    let mut graph = MaterialGraph::new();
    graph.nodes.push(MaterialNode {
        id: 2,
        node_type: MaterialNodeType::MaterialOutput,
        pos_x: 0,
        pos_y: 0,
        inputs: get_default_inputs_for_node_type(MaterialNodeType::MaterialOutput),
        name: "Second Output".to_string(),
    });
    graph.next_node_id = 3;
    assert_eq!(graph.validate(), Err(GraphError::InvalidGraphError));
}

#[test]
fn validate_rejects_a_missing_sink() {
    let graph = MaterialGraph {
        nodes: Vec::new(),
        connections: Vec::new(),
        next_node_id: 1,
    };
    assert_eq!(graph.validate(), Err(GraphError::InvalidGraphError));
}

#[test]
fn validate_rejects_a_dangling_connection() {
    let mut graph = demo_graph();
    graph.connections.push(MaterialConnection {
        from_node: 99,
        from_output: SocketName::Color,
        to_node: 3,
        to_input: SocketName::ColorA,
    });
    assert_eq!(graph.validate(), Err(GraphError::InvalidGraphError));
}

#[test]
fn validate_rejects_duplicate_ids_and_stale_counter() {
    let mut graph = demo_graph();
    let copy_of_last = MaterialNode {
        id: 3,
        node_type: MaterialNodeType::ColorMix,
        pos_x: 0,
        pos_y: 0,
        inputs: get_default_inputs_for_node_type(MaterialNodeType::ColorMix),
        name: "Duplicate".to_string(),
    };
    graph.nodes.push(copy_of_last);
    assert_eq!(graph.validate(), Err(GraphError::InvalidGraphError));

    let mut stale = demo_graph();
    stale.next_node_id = 2;
    assert_eq!(stale.validate(), Err(GraphError::InvalidGraphError));
}

#[test]
fn validate_rejects_inputs_that_differ_from_the_catalog() {
    let mut graph = MaterialGraph::new();
    let id = graph.add_node(MaterialNodeType::OneMinus, "One Minus".to_string());
    let idx = graph.nodes.iter().position(|n| n.id == id).unwrap();
    graph.nodes[idx].inputs.clear();
    assert_eq!(graph.validate(), Err(GraphError::InvalidGraphError));
}
