//! The material graph: node instances, directed connections between named
//! sockets, and the structural mutation operations that preserve the graph
//! invariants — node ids unique and below the allocation counter, exactly
//! one material output node, every stored input matching the catalog, and
//! every connection joining existing, type-compatible sockets with at most
//! one connection into any input.

use vstd::prelude::*;

use crate::catalog::MaterialNodeType;
use crate::catalog::assoc_lookup;
use crate::catalog::get_default_inputs_for_node_type;
use crate::catalog::inputs_view;
use crate::catalog::is_connection_valid;
use crate::catalog::lemma_assoc_lookup_some_index;
use crate::catalog::lemma_defaults_match_declared_inputs;
use crate::catalog::spec_connection_valid;
use crate::catalog::spec_default_inputs;
use crate::catalog::spec_input_socket_type;
use crate::fixed::FX_ONE;
use crate::value::GraphError;
use crate::value::MaterialValue;
use crate::value::SocketName;

verus! {

/// An operator instance in the graph: a unique id, its kind, the stored
/// value of each declared input socket (the default used when the input is
/// unconnected), and display-only layout data.
pub struct MaterialNode {
    pub id: u32,
    pub node_type: MaterialNodeType,
    pub pos_x: i64,
    pub pos_y: i64,
    pub inputs: Vec<(SocketName, MaterialValue)>,
    pub name: String,
}

/// A directed edge from one node's named output socket to another node's
/// named input socket.
#[derive(Clone, Copy, Debug, PartialEq, Eq, Structural)]
pub struct MaterialConnection {
    pub from_node: u32,
    pub from_output: SocketName,
    pub to_node: u32,
    pub to_input: SocketName,
}

/// The mutable collection of nodes and connections. Node order is insertion
/// order and carries no meaning for evaluation.
pub struct MaterialGraph {
    pub nodes: Vec<MaterialNode>,
    pub connections: Vec<MaterialConnection>,
    pub next_node_id: u32,
}

impl MaterialNode {
    /// The stored inputs are exactly the catalog's declared input sockets
    /// for this kind, in catalog order, each value's tag matching the
    /// declared socket type.
    pub open spec fn wf(self) -> bool {
        &&& self.inputs@.len() == spec_default_inputs(self.node_type).len()
        &&& forall|i: int|
            0 <= i < self.inputs@.len() ==> (#[trigger] self.inputs@[i]).0 == spec_default_inputs(
                self.node_type,
            )[i].0
        &&& forall|i: int|
            0 <= i < self.inputs@.len() ==> spec_input_socket_type(
                self.node_type,
                (#[trigger] self.inputs@[i]).0,
            ) == Some(self.inputs@[i].1@.tag())
    }

    /// Whether this node is the graph's sink.
    pub open spec fn is_sink(self) -> bool {
        self.node_type == MaterialNodeType::MaterialOutput
    }
}

/// The first node of the sequence carrying the id, if any.
pub open spec fn spec_find_node(nodes: Seq<MaterialNode>, id: u32) -> Option<MaterialNode>
    decreases nodes.len(),
{
    if nodes.len() == 0 {
        None
    } else if nodes[0].id == id {
        Some(nodes[0])
    } else {
        spec_find_node(nodes.drop_first(), id)
    }
}

/// The first connection of the sequence targeting the input, if any.
pub open spec fn spec_find_connection(
    connections: Seq<MaterialConnection>,
    to_node: u32,
    to_input: SocketName,
) -> Option<MaterialConnection>
    decreases connections.len(),
{
    if connections.len() == 0 {
        None
    } else if connections[0].to_node == to_node && connections[0].to_input == to_input {
        Some(connections[0])
    } else {
        spec_find_connection(connections.drop_first(), to_node, to_input)
    }
}

/// Searching from a position whose prefix holds no match: the result is the
/// first match at or after that position, or nothing.
pub proof fn lemma_find_node_from(nodes: Seq<MaterialNode>, id: u32, i: int)
    requires
        0 <= i <= nodes.len(),
        forall|j: int| 0 <= j < i ==> (#[trigger] nodes[j]).id != id,
    ensures
        i < nodes.len() && nodes[i].id == id ==> spec_find_node(nodes, id) == Some(nodes[i]),
        i == nodes.len() ==> spec_find_node(nodes, id) is None,
    decreases i,
{
    if i > 0 {
        lemma_find_node_from(nodes.drop_first(), id, i - 1);
    }
}

/// The counterpart of `lemma_find_node_from` for connections.
pub proof fn lemma_find_connection_from(
    connections: Seq<MaterialConnection>,
    to_node: u32,
    to_input: SocketName,
    i: int,
)
    requires
        0 <= i <= connections.len(),
        forall|j: int|
            0 <= j < i ==> !((#[trigger] connections[j]).to_node == to_node
                && connections[j].to_input == to_input),
    ensures
        i < connections.len() && connections[i].to_node == to_node && connections[i].to_input
            == to_input ==> spec_find_connection(connections, to_node, to_input) == Some(
            connections[i],
        ),
        i == connections.len() ==> spec_find_connection(connections, to_node, to_input) is None,
    decreases i,
{
    if i > 0 {
        lemma_find_connection_from(connections.drop_first(), to_node, to_input, i - 1);
    }
}

/// The node as it stands after one declared input is overwritten: every
/// field untouched but the stored inputs, where the entries carrying the
/// name now hold the new value and every other entry is unchanged.
pub open spec fn spec_input_updated(
    new: MaterialNode,
    prev: MaterialNode,
    name: SocketName,
    value: MaterialValue,
) -> bool {
    &&& new.id == prev.id
    &&& new.node_type == prev.node_type
    &&& new.pos_x == prev.pos_x
    &&& new.pos_y == prev.pos_y
    &&& new.name == prev.name
    &&& new.inputs@.len() == prev.inputs@.len()
    &&& forall|m: int|
        0 <= m < prev.inputs@.len() && (#[trigger] prev.inputs@[m]).0 != name ==> new.inputs@[m]
            == prev.inputs@[m]
    &&& forall|m: int|
        0 <= m < prev.inputs@.len() && (#[trigger] prev.inputs@[m]).0 == name ==> new.inputs@[m]
            == (name, value)
}

/// Replacing a node by one of the same id and kind leaves every lookup's
/// presence and found kind unchanged.
pub proof fn lemma_find_node_update_same_shape(
    s: Seq<MaterialNode>,
    i: int,
    n: MaterialNode,
    x: u32,
)
    requires
        0 <= i < s.len(),
        n.id == s[i].id,
        n.node_type == s[i].node_type,
    ensures
        spec_find_node(s, x) is Some <==> spec_find_node(s.update(i, n), x) is Some,
        (match (spec_find_node(s, x), spec_find_node(s.update(i, n), x)) {
            (Some(a), Some(b)) => a.node_type == b.node_type,
            (None, None) => true,
            _ => false,
        }),
    decreases s.len(),
{
    let t = s.update(i, n);
    if i == 0 {
        assert(t[0] == n);
        if s[0].id != x {
            assert(t.drop_first() =~= s.drop_first());
        }
    } else {
        assert(t[0] == s[0]);
        if s[0].id != x {
            assert(t.drop_first() =~= s.drop_first().update(i - 1, n));
            assert(s.drop_first()[i - 1] == s[i]);
            lemma_find_node_update_same_shape(s.drop_first(), i - 1, n, x);
        }
    }
}

/// The first material output node of the sequence, if any.
pub open spec fn spec_find_sink(nodes: Seq<MaterialNode>) -> Option<MaterialNode>
    decreases nodes.len(),
{
    if nodes.len() == 0 {
        None
    } else if nodes[0].is_sink() {
        Some(nodes[0])
    } else {
        spec_find_sink(nodes.drop_first())
    }
}

/// The counterpart of `lemma_find_node_from` for the sink search.
pub proof fn lemma_find_sink_from(nodes: Seq<MaterialNode>, i: int)
    requires
        0 <= i <= nodes.len(),
        forall|j: int| 0 <= j < i ==> !(#[trigger] nodes[j]).is_sink(),
    ensures
        i < nodes.len() && nodes[i].is_sink() ==> spec_find_sink(nodes) == Some(nodes[i]),
        i == nodes.len() ==> spec_find_sink(nodes) is None,
    decreases i,
{
    if i > 0 {
        lemma_find_sink_from(nodes.drop_first(), i - 1);
    }
}

/// A successful lookup names a position carrying the id.
pub proof fn lemma_find_node_some_index(s: Seq<MaterialNode>, id: u32)
    requires
        spec_find_node(s, id) is Some,
    ensures
        exists|k: int| 0 <= k < s.len() && (#[trigger] s[k]).id == id,
    decreases s.len(),
{
    if s.len() > 0 && s[0].id != id {
        lemma_find_node_some_index(s.drop_first(), id);
        let k = choose|k: int| 0 <= k < s.drop_first().len() && (#[trigger] s.drop_first()[k]).id == id;
        assert(s[k + 1].id == id);
    }
}

/// A failed lookup means no node of the sequence carries the id.
pub proof fn lemma_find_node_none(s: Seq<MaterialNode>, id: u32)
    requires
        spec_find_node(s, id) is None,
    ensures
        forall|i: int| 0 <= i < s.len() ==> (#[trigger] s[i]).id != id,
    decreases s.len(),
{
    if s.len() > 0 {
        lemma_find_node_none(s.drop_first(), id);
        assert forall|i: int| 0 <= i < s.len() implies (#[trigger] s[i]).id != id by {
            if i > 0 {
                assert(s.drop_first()[i - 1] == s[i]);
            }
        }
    }
}

/// A connection's endpoints exist in the graph and its sockets are declared
/// and type-compatible.
pub open spec fn spec_connection_wf(c: MaterialConnection, nodes: Seq<MaterialNode>) -> bool {
    match (spec_find_node(nodes, c.from_node), spec_find_node(nodes, c.to_node)) {
        (Some(from), Some(to)) => spec_connection_valid(
            from.node_type,
            c.from_output,
            to.node_type,
            c.to_input,
        ),
        _ => false,
    }
}

impl MaterialGraph {
    /// The structural invariants of §3: unique node ids all below the
    /// allocation counter, exactly one material output node, every node's
    /// inputs matching the catalog, every connection well formed, and at
    /// most one connection into any input socket.
    pub open spec fn wf(self) -> bool {
        &&& forall|i: int, j: int|
            0 <= i < j < self.nodes@.len() ==> (#[trigger] self.nodes@[i]).id != (
            #[trigger] self.nodes@[j]).id
        &&& forall|i: int|
            0 <= i < self.nodes@.len() ==> (#[trigger] self.nodes@[i]).id < self.next_node_id
        &&& forall|i: int| 0 <= i < self.nodes@.len() ==> (#[trigger] self.nodes@[i]).wf()
        &&& exists|i: int| 0 <= i < self.nodes@.len() && (#[trigger] self.nodes@[i]).is_sink()
        &&& forall|i: int, j: int|
            0 <= i < self.nodes@.len() && 0 <= j < self.nodes@.len() && (
            #[trigger] self.nodes@[i]).is_sink() && (#[trigger] self.nodes@[j]).is_sink() ==> i == j
        &&& forall|i: int|
            0 <= i < self.connections@.len() ==> spec_connection_wf(
                #[trigger] self.connections@[i],
                self.nodes@,
            )
        &&& forall|i: int, j: int|
            0 <= i < j < self.connections@.len() ==> !((#[trigger] self.connections@[i]).to_node
                == (#[trigger] self.connections@[j]).to_node && self.connections@[i].to_input
                == self.connections@[j].to_input)
    }

    /// A freshly constructed graph: well formed, holding only the material
    /// output node with id 1 and the catalog defaults, no connections, and
    /// the allocation counter at 2.
    pub open spec fn is_fresh(self) -> bool {
        &&& self.wf()
        &&& self.nodes@.len() == 1
        &&& self.nodes@[0].id == 1
        &&& self.nodes@[0].node_type == MaterialNodeType::MaterialOutput
        &&& inputs_view(self.nodes@[0].inputs@) == spec_default_inputs(
            MaterialNodeType::MaterialOutput,
        )
        &&& self.nodes@[0].name@ == "Material Output"@
        &&& self.connections@.len() == 0
        &&& self.next_node_id == 2
    }

    /// Creates a graph holding only the material output node, with id 1 and
    /// the catalog defaults, the way every material starts.
    pub fn new() -> (graph: MaterialGraph)
        ensures
            graph.is_fresh(),
    {
        let sink = MaterialNode {
            id: 1,
            node_type: MaterialNodeType::MaterialOutput,
            pos_x: 400 * FX_ONE,
            pos_y: 200 * FX_ONE,
            inputs: get_default_inputs_for_node_type(MaterialNodeType::MaterialOutput),
            name: "Material Output".to_string(),
        };
        let mut nodes: Vec<MaterialNode> = Vec::new();
        nodes.push(sink);
        let graph = MaterialGraph { nodes, connections: Vec::new(), next_node_id: 2 };
        proof {
            assert forall|i: int| 0 <= i < graph.nodes@.len() implies (
            #[trigger] graph.nodes@[i]).wf() by {
                assert(i == 0);
                let node = graph.nodes@[0];
                assert forall|k: int| 0 <= k < node.inputs@.len() implies (
                #[trigger] node.inputs@[k]).0 == spec_default_inputs(node.node_type)[k].0
                    && spec_input_socket_type(node.node_type, node.inputs@[k].0) == Some(
                    node.inputs@[k].1@.tag(),
                ) by {
                    assert(inputs_view(node.inputs@)[k] == spec_default_inputs(node.node_type)[k]);
                    crate::catalog::lemma_default_entry_types(node.node_type, k);
                }
            }
            assert(graph.nodes@[0].is_sink());
        }
        graph
    }

    /// Allocates the next id, appends a node of the kind with the catalog's
    /// default inputs and the given display name, and advances the counter.
    /// The material output node exists from construction and is never added.
    pub fn add_node(&mut self, node_type: MaterialNodeType, name: String) -> (id: u32)
        requires
            old(self).next_node_id < u32::MAX,
            node_type != MaterialNodeType::MaterialOutput,
        ensures
            id == old(self).next_node_id,
            final(self).next_node_id == old(self).next_node_id + 1,
            final(self).connections@ == old(self).connections@,
            final(self).nodes@.len() == old(self).nodes@.len() + 1,
            final(self).nodes@ == old(self).nodes@.push(final(self).nodes@.last()),
            final(self).nodes@.last().id == id,
            final(self).nodes@.last().node_type == node_type,
            inputs_view(final(self).nodes@.last().inputs@) == spec_default_inputs(node_type),
            final(self).nodes@.last().name == name,
            old(self).wf() ==> final(self).wf(),
    {
        let id = self.next_node_id;
        let node = MaterialNode {
            id,
            node_type,
            pos_x: 100 * FX_ONE,
            pos_y: 100 * FX_ONE,
            inputs: get_default_inputs_for_node_type(node_type),
            name,
        };
        self.nodes.push(node);
        self.next_node_id = self.next_node_id + 1;
        proof {
            let nodes = self.nodes@;
            let prev = old(self).nodes@;
            assert(nodes == prev.push(nodes.last()));
            let new_node = nodes.last();
            assert forall|k: int| 0 <= k < new_node.inputs@.len() implies (
            #[trigger] new_node.inputs@[k]).0 == spec_default_inputs(node_type)[k].0
                && spec_input_socket_type(node_type, new_node.inputs@[k].0) == Some(
                new_node.inputs@[k].1@.tag(),
            ) by {
                assert(inputs_view(new_node.inputs@)[k] == spec_default_inputs(node_type)[k]);
                crate::catalog::lemma_default_entry_types(node_type, k);
            }
            assert(new_node.wf());
            if old(self).wf() {
                assert forall|i: int| 0 <= i < nodes.len() implies (#[trigger] nodes[i]).wf() by {
                    if i < prev.len() {
                        assert(nodes[i] == prev[i]);
                    }
                }
                let p = choose|i: int| 0 <= i < prev.len() && (#[trigger] prev[i]).is_sink();
                assert(nodes[p].is_sink());
                assert forall|i: int|
                    0 <= i < self.connections@.len() implies spec_connection_wf(
                    #[trigger] self.connections@[i],
                    nodes,
                ) by {
                    let c = self.connections@[i];
                    assert(spec_connection_wf(c, prev));
                    lemma_find_node_push(prev, new_node, c.from_node);
                    lemma_find_node_push(prev, new_node, c.to_node);
                }
                assert(self.wf());
            }
        }
        id
    }

    /// Returns the node carrying the id, if any.
    pub fn get_node(&self, id: u32) -> (node: Option<&MaterialNode>)
        ensures
            match node {
                Some(n) => spec_find_node(self.nodes@, id) == Some(*n),
                None => spec_find_node(self.nodes@, id) is None,
            },
    {
        let n = self.nodes.len();
        let mut i: usize = 0;
        while i < n
            invariant
                n == self.nodes@.len(),
                0 <= i <= n,
                forall|j: int| 0 <= j < i ==> (#[trigger] self.nodes@[j]).id != id,
            decreases n - i,
        {
            if self.nodes[i].id == id {
                proof {
                    lemma_find_node_from(self.nodes@, id, i as int);
                }
                return Some(&self.nodes[i]);
            }
            i = i + 1;
        }
        proof {
            lemma_find_node_from(self.nodes@, id, n as int);
        }
        None
    }

    /// Returns the position of the node carrying the id, if any.
    fn find_node_index(&self, id: u32) -> (r: Option<usize>)
        ensures
            match r {
                Some(k) => k < self.nodes@.len() && self.nodes@[k as int].id == id
                    && spec_find_node(self.nodes@, id) == Some(self.nodes@[k as int]),
                None => spec_find_node(self.nodes@, id) is None,
            },
    {
        let n = self.nodes.len();
        let mut i: usize = 0;
        while i < n
            invariant
                n == self.nodes@.len(),
                0 <= i <= n,
                forall|j: int| 0 <= j < i ==> (#[trigger] self.nodes@[j]).id != id,
            decreases n - i,
        {
            if self.nodes[i].id == id {
                proof {
                    lemma_find_node_from(self.nodes@, id, i as int);
                }
                return Some(i);
            }
            i = i + 1;
        }
        proof {
            lemma_find_node_from(self.nodes@, id, n as int);
        }
        None
    }

    /// Removes a node and every connection incident to it, as source or as
    /// target. Removing the material output node always fails with
    /// `ProtectedNodeError` and leaves the graph unchanged; removing an id
    /// the graph does not hold changes nothing.
    pub fn remove_node(&mut self, id: u32) -> (r: Result<(), GraphError>)
        requires
            old(self).wf(),
        ensures
            final(self).wf(),
            final(self).next_node_id == old(self).next_node_id,
            (match spec_find_node(old(self).nodes@, id) {
                Some(n) => n.is_sink(),
                None => false,
            }) ==> r == Err::<(), GraphError>(GraphError::ProtectedNodeError) && final(self).nodes@
                == old(self).nodes@ && final(self).connections@ == old(self).connections@,
            !(match spec_find_node(old(self).nodes@, id) {
                Some(n) => n.is_sink(),
                None => false,
            }) ==> r == Ok::<(), GraphError>(()) && final(self).nodes@ == spec_nodes_without(
                old(self).nodes@,
                id,
            ) && final(self).connections@ == spec_connections_without_node(
                old(self).connections@,
                id,
            ),
    {
        let found = self.find_node_index(id);
        let i = match found {
            None => {
                // No node carries the id: nothing is removed.
                proof {
                    lemma_find_node_none(self.nodes@, id);
                    lemma_nodes_without_all_kept(self.nodes@, id);
                    assert forall|j: int|
                        0 <= j < self.connections@.len() implies !conn_touches_node(
                        #[trigger] self.connections@[j],
                        id,
                    ) by {
                        let c = self.connections@[j];
                        assert(spec_connection_wf(c, self.nodes@));
                    }
                    lemma_without_node_all_kept(self.connections@, id);
                }
                return Ok(());
            },
            Some(i) => i,
        };
        if self.nodes[i].node_type == MaterialNodeType::MaterialOutput {
            return Err(GraphError::ProtectedNodeError);
        }
        self.nodes.remove(i);
        let filtered = connections_without_node_from(&self.connections, id, 0);
        proof {
            assert(old(self).connections@.subrange(0, old(self).connections@.len() as int) =~= old(
                self,
            ).connections@);
        }
        self.connections = filtered;
        proof {
            let prev = old(self).nodes@;
            lemma_nodes_without_is_remove(prev, id, i as int);
            lemma_nodes_without_props(prev, id);
            lemma_without_node_props(old(self).connections@, id);
            let nodes = self.nodes@;
            // Every kept node comes from the previous sequence.
            assert forall|k: int| 0 <= k < nodes.len() implies (#[trigger] nodes[k]).wf() && nodes[k].id
                < self.next_node_id by {
                assert(prev.contains(nodes[k]));
                let p = choose|p: int| 0 <= p < prev.len() && prev[p] == nodes[k];
                assert(prev[p].wf());
            }
            // The sink survives: it is not the removed node.
            let p = choose|p: int| 0 <= p < prev.len() && (#[trigger] prev[p]).is_sink();
            assert(prev[p].id != id) by {
                if prev[p].id == id {
                    assert(prev[i as int].id == id);
                    if p != i as int {
                        if p < i as int {
                            assert(prev[p].id != prev[i as int].id);
                        } else {
                            assert(prev[i as int].id != prev[p].id);
                        }
                    }
                }
            }
            assert(nodes.contains(prev[p]));
            let q = choose|q: int| 0 <= q < nodes.len() && nodes[q] == prev[p];
            assert(nodes[q].is_sink());
            // The sink stays unique: two sinks would carry the same id at
            // two positions.
            assert forall|a: int, b: int|
                0 <= a < nodes.len() && 0 <= b < nodes.len() && (#[trigger] nodes[a]).is_sink() && (
            #[trigger] nodes[b]).is_sink() implies a == b by {
                if a != b {
                    let pa = choose|pa: int| 0 <= pa < prev.len() && prev[pa] == nodes[a];
                    let pb = choose|pb: int| 0 <= pb < prev.len() && prev[pb] == nodes[b];
                    assert(pa == pb);
                    assert(nodes[a] == nodes[b]);
                    if a < b {
                        assert(nodes[a].id != nodes[b].id);
                    } else {
                        assert(nodes[b].id != nodes[a].id);
                    }
                }
            }
            // Every kept connection still joins existing, compatible
            // sockets: its endpoints differ from the removed id.
            assert forall|k: int|
                0 <= k < self.connections@.len() implies spec_connection_wf(
                #[trigger] self.connections@[k],
                nodes,
            ) by {
                let c = self.connections@[k];
                assert(old(self).connections@.contains(c));
                let m = choose|m: int|
                    0 <= m < old(self).connections@.len() && old(self).connections@[m] == c;
                assert(spec_connection_wf(c, prev));
                assert(!conn_touches_node(c, id));
                lemma_find_node_without(prev, id, c.from_node);
                lemma_find_node_without(prev, id, c.to_node);
            }
            assert(self.wf());
        }
        Ok(())
    }

    /// Removes the connection targeting the input socket, if any; a no-op,
    /// not an error, when none exists.
    pub fn disconnect(&mut self, to_node: u32, to_input: SocketName)
        ensures
            final(self).nodes@ == old(self).nodes@,
            final(self).next_node_id == old(self).next_node_id,
            final(self).connections@ == spec_connections_without_target(
                old(self).connections@,
                to_node,
                to_input,
            ),
            old(self).wf() ==> final(self).wf(),
    {
        let filtered = connections_without_target_from(&self.connections, to_node, to_input, 0);
        proof {
            assert(old(self).connections@.subrange(0, old(self).connections@.len() as int) =~= old(
                self,
            ).connections@);
        }
        self.connections = filtered;
        proof {
            if old(self).wf() {
                lemma_without_target_props(old(self).connections@, to_node, to_input);
                assert forall|i: int|
                    0 <= i < self.connections@.len() implies spec_connection_wf(
                    #[trigger] self.connections@[i],
                    self.nodes@,
                ) by {
                    assert(old(self).connections@.contains(self.connections@[i]));
                }
                assert(self.wf());
            }
        }
    }

    /// Connects an output socket to an input socket. Fails with
    /// `InvalidConnectionError` when either endpoint node does not exist or
    /// the validator rejects the socket pair; on success any prior
    /// connection into the same input is replaced.
    pub fn connect(
        &mut self,
        from_node: u32,
        from_output: SocketName,
        to_node: u32,
        to_input: SocketName,
    ) -> (r: Result<(), GraphError>)
        ensures
            final(self).nodes@ == old(self).nodes@,
            final(self).next_node_id == old(self).next_node_id,
            spec_connection_wf(
                (MaterialConnection { from_node, from_output, to_node, to_input }),
                old(self).nodes@,
            ) ==> r == Ok::<(), GraphError>(()) && final(self).connections@
                == spec_connections_without_target(
                old(self).connections@,
                to_node,
                to_input,
            ).push((MaterialConnection { from_node, from_output, to_node, to_input })),
            !spec_connection_wf(
                (MaterialConnection { from_node, from_output, to_node, to_input }),
                old(self).nodes@,
            ) ==> r == Err::<(), GraphError>(GraphError::InvalidConnectionError)
                && final(self).connections@ == old(self).connections@,
            old(self).wf() ==> final(self).wf(),
    {
        let from_kind: Option<MaterialNodeType> = match self.get_node(from_node) {
            Some(n) => Some(n.node_type),
            None => None,
        };
        let to_kind: Option<MaterialNodeType> = match self.get_node(to_node) {
            Some(n) => Some(n.node_type),
            None => None,
        };
        let valid = match (from_kind, to_kind) {
            (Some(f), Some(t)) => is_connection_valid(f, from_output, t, to_input),
            _ => false,
        };
        if !valid {
            return Err(GraphError::InvalidConnectionError);
        }
        let mut filtered = connections_without_target_from(
            &self.connections,
            to_node,
            to_input,
            0,
        );
        proof {
            assert(old(self).connections@.subrange(0, old(self).connections@.len() as int) =~= old(
                self,
            ).connections@);
        }
        filtered.push(MaterialConnection { from_node, from_output, to_node, to_input });
        self.connections = filtered;
        proof {
            let c = MaterialConnection { from_node, from_output, to_node, to_input };
            let kept = spec_connections_without_target(old(self).connections@, to_node, to_input);
            lemma_without_target_props(old(self).connections@, to_node, to_input);
            if old(self).wf() {
                assert forall|i: int|
                    0 <= i < self.connections@.len() implies spec_connection_wf(
                    #[trigger] self.connections@[i],
                    self.nodes@,
                ) by {
                    if i < kept.len() {
                        assert(self.connections@[i] == kept[i]);
                        assert(old(self).connections@.contains(kept[i]));
                    } else {
                        assert(self.connections@[i] == c);
                    }
                }
                assert forall|i: int, j: int|
                    0 <= i < j < self.connections@.len() implies !((
                #[trigger] self.connections@[i]).to_node == (#[trigger] self.connections@[j]).to_node
                    && self.connections@[i].to_input == self.connections@[j].to_input) by {
                    if j == kept.len() as int {
                        assert(self.connections@[i] == kept[i]);
                        assert(!conn_targets(kept[i], to_node, to_input));
                    } else {
                        assert(self.connections@[i] == kept[i]);
                        assert(self.connections@[j] == kept[j]);
                        assert(!conn_targets(kept[i], kept[j].to_node, kept[j].to_input));
                    }
                }
                assert(self.wf());
            }
        }
        Ok(())
    }

    /// Stores a new value for a node's declared input socket, the stored
    /// default used while the socket is unconnected. Fails with
    /// `UnknownSocketError` when the node's kind declares no input of that
    /// name, and with `InvalidGraphError` when the graph does not hold the
    /// node or the value's tag does not match the declared socket type.
    #[verifier::loop_isolation(false)]
    pub fn set_node_input(
        &mut self,
        node_id: u32,
        name: SocketName,
        value: MaterialValue,
    ) -> (r: Result<(), GraphError>)
        requires
            old(self).wf(),
        ensures
            final(self).wf(),
            final(self).next_node_id == old(self).next_node_id,
            final(self).connections@ == old(self).connections@,
            r is Err ==> final(self).nodes@ == old(self).nodes@,
            spec_find_node(old(self).nodes@, node_id) is None ==> r == Err::<(), GraphError>(
                GraphError::InvalidGraphError,
            ),
            (match spec_find_node(old(self).nodes@, node_id) {
                Some(n) => spec_input_socket_type(n.node_type, name) is None,
                None => false,
            }) ==> r == Err::<(), GraphError>(GraphError::UnknownSocketError),
            (match spec_find_node(old(self).nodes@, node_id) {
                Some(n) => spec_input_socket_type(n.node_type, name) matches Some(t) && t
                    != value@.tag(),
                None => false,
            }) ==> r == Err::<(), GraphError>(GraphError::InvalidGraphError),
            (match spec_find_node(old(self).nodes@, node_id) {
                Some(n) => spec_input_socket_type(n.node_type, name) == Some(value@.tag()),
                None => false,
            }) ==> r == Ok::<(), GraphError>(()) && final(self).nodes@.len() == old(
                self,
            ).nodes@.len() && (forall|j: int|
                0 <= j < old(self).nodes@.len() && (#[trigger] old(self).nodes@[j]).id != node_id
                    ==> final(self).nodes@[j] == old(self).nodes@[j]) && (forall|j: int|
                0 <= j < old(self).nodes@.len() && (#[trigger] old(self).nodes@[j]).id == node_id
                    ==> spec_input_updated(final(self).nodes@[j], old(self).nodes@[j], name, value)),
    {
        let i = match self.find_node_index(node_id) {
            None => {
                return Err(GraphError::InvalidGraphError);
            },
            Some(i) => i,
        };
        let declared = match crate::catalog::get_input_socket_type(
            self.nodes[i].node_type,
            name,
        ) {
            None => {
                return Err(GraphError::UnknownSocketError);
            },
            Some(t) => t,
        };
        if !(value.tag() == declared) {
            return Err(GraphError::InvalidGraphError);
        }
        // The declared socket exists among the stored inputs: the node's
        // inputs carry exactly the catalog's names.
        let m_inputs = self.nodes[i].inputs.len();
        let mut m: usize = 0;
        proof {
            let node = self.nodes@[i as int];
            assert(node.wf());
            lemma_defaults_match_declared_inputs(node.node_type, name);
            lemma_assoc_lookup_some_index(spec_default_inputs(node.node_type), name);
        }
        while m < m_inputs
            invariant
                self.nodes@ == old(self).nodes@,
                self.connections@ == old(self).connections@,
                self.next_node_id == old(self).next_node_id,
                m_inputs == self.nodes@[i as int].inputs@.len(),
                0 <= i < self.nodes@.len(),
                0 <= m <= m_inputs,
                forall|j: int| 0 <= j < m ==> (#[trigger] self.nodes@[i as int].inputs@[j]).0 != name,
            decreases m_inputs - m,
        {
            if self.nodes[i].inputs[m].0 == name {
                self.nodes[i].inputs[m] = (name, value);
                proof {
                    let prev = old(self).nodes@;
                    let prev_node = prev[i as int];
                    let new_node = self.nodes@[i as int];
                    assert(self.nodes@ == prev.update(i as int, new_node));
                    assert(new_node.inputs@ == prev_node.inputs@.update(
                        m as int,
                        (name, value),
                    ));
                    assert forall|m2: int|
                        0 <= m2 < prev_node.inputs@.len() && m2 != m as int implies (
                    #[trigger] prev_node.inputs@[m2]).0 != name by {
                        if m2 < m as int {
                            crate::catalog::lemma_default_names_distinct(
                                prev_node.node_type,
                                m2,
                                m as int,
                            );
                        } else {
                            crate::catalog::lemma_default_names_distinct(
                                prev_node.node_type,
                                m as int,
                                m2,
                            );
                        }
                    }
                    assert(spec_input_updated(new_node, prev_node, name, value));
                    assert(new_node.wf());
                    assert forall|j: int|
                        0 <= j < prev.len() && (#[trigger] prev[j]).id == node_id implies
                        spec_input_updated(self.nodes@[j], prev[j], name, value) by {
                        if j != i as int {
                            if j < i as int {
                                assert(prev[j].id != prev[i as int].id);
                            } else {
                                assert(prev[i as int].id != prev[j].id);
                            }
                        }
                    }
                    // Well-formedness survives: ids, kinds and the sink are
                    // untouched, and every connection finds the same kinds.
                    assert forall|a: int| 0 <= a < self.nodes@.len() implies (
                    #[trigger] self.nodes@[a]).id == prev[a].id && self.nodes@[a].node_type
                        == prev[a].node_type && self.nodes@[a].wf() by {
                        if a != i as int {
                            assert(self.nodes@[a] == prev[a]);
                        }
                    }
                    assert forall|a: int, b: int|
                        0 <= a < b < self.nodes@.len() implies (#[trigger] self.nodes@[a]).id != (
                    #[trigger] self.nodes@[b]).id by {
                        assert(prev[a].id != prev[b].id);
                    }
                    let p = choose|p: int| 0 <= p < prev.len() && (#[trigger] prev[p]).is_sink();
                    assert(self.nodes@[p].is_sink());
                    assert forall|a: int, b: int|
                        0 <= a < self.nodes@.len() && 0 <= b < self.nodes@.len() && (
                    #[trigger] self.nodes@[a]).is_sink() && (#[trigger] self.nodes@[b]).is_sink()
                        implies a == b by {
                        assert(prev[a].is_sink());
                        assert(prev[b].is_sink());
                    }
                    assert forall|k: int|
                        0 <= k < self.connections@.len() implies spec_connection_wf(
                        #[trigger] self.connections@[k],
                        self.nodes@,
                    ) by {
                        let c = self.connections@[k];
                        assert(spec_connection_wf(c, prev));
                        lemma_find_node_update_same_shape(prev, i as int, new_node, c.from_node);
                        lemma_find_node_update_same_shape(prev, i as int, new_node, c.to_node);
                        assert(self.nodes@ == prev.update(i as int, new_node));
                    }
                    assert(self.wf());
                }
                return Ok(());
            }
            m = m + 1;
        }
        // Unreachable: the loop found no entry, yet the catalog declares
        // the socket and the node's inputs carry the catalog's names.
        proof {
            let node = self.nodes@[i as int];
            let k = choose|k: int|
                0 <= k < spec_default_inputs(node.node_type).len() && (#[trigger] spec_default_inputs(
                    node.node_type,
                )[k]).0 == name;
            assert(node.inputs@[k].0 == name);
            assert(false);
        }
        Err(GraphError::InvalidGraphError)
    }

    /// Re-validates a graph against the structural invariants, the check a
    /// loader runs on a freshly deserialized document: exactly one material
    /// output node, unique node ids below the allocation counter, inputs
    /// matching the catalog, no dangling or ill-typed connection, and at
    /// most one connection into any input. A violation is surfaced as
    /// `InvalidGraphError`, never repaired silently.
    pub fn validate(&self) -> (r: Result<(), GraphError>)
        ensures
            r == (if self.wf() {
                Ok::<(), GraphError>(())
            } else {
                Err::<(), GraphError>(GraphError::InvalidGraphError)
            }),
    {
        let n = self.nodes.len();
        let m = self.connections.len();
        // Node ids: pairwise distinct and below the allocation counter.
        let mut i: usize = 0;
        while i < n
            invariant
                n == self.nodes@.len(),
                0 <= i <= n,
                forall|a: int| 0 <= a < i ==> (#[trigger] self.nodes@[a]).id < self.next_node_id,
                forall|a: int, b: int|
                    0 <= a < b < n && a < i ==> (#[trigger] self.nodes@[a]).id != (
                    #[trigger] self.nodes@[b]).id,
            decreases n - i,
        {
            if self.nodes[i].id >= self.next_node_id {
                return Err(GraphError::InvalidGraphError);
            }
            let mut j: usize = i + 1;
            while j < n
                invariant
                    n == self.nodes@.len(),
                    0 <= i < n,
                    i < j <= n,
                    forall|b: int| i < b < j ==> (#[trigger] self.nodes@[b]).id != self.nodes@[i as int].id,
                decreases n - j,
            {
                if self.nodes[j].id == self.nodes[i].id {
                    return Err(GraphError::InvalidGraphError);
                }
                j = j + 1;
            }
            i = i + 1;
        }
        // Every node's stored inputs match the catalog.
        let mut i: usize = 0;
        while i < n
            invariant
                n == self.nodes@.len(),
                0 <= i <= n,
                forall|a: int| 0 <= a < i ==> (#[trigger] self.nodes@[a]).wf(),
            decreases n - i,
        {
            let kind = self.nodes[i].node_type;
            let defaults = get_default_inputs_for_node_type(kind);
            let len = self.nodes[i].inputs.len();
            if len != defaults.len() {
                proof {
                    assert(inputs_view(defaults@).len() == spec_default_inputs(kind).len());
                }
                return Err(GraphError::InvalidGraphError);
            }
            let mut j: usize = 0;
            while j < len
                invariant
                    n == self.nodes@.len(),
                    0 <= i < n,
                    0 <= j <= len,
                    kind == self.nodes@[i as int].node_type,
                    len == self.nodes@[i as int].inputs@.len(),
                    len == spec_default_inputs(kind).len(),
                    inputs_view(defaults@) == spec_default_inputs(kind),
                    len == defaults@.len(),
                    forall|b: int|
                        0 <= b < j ==> (#[trigger] self.nodes@[i as int].inputs@[b]).0
                            == spec_default_inputs(kind)[b].0,
                    forall|b: int|
                        0 <= b < j ==> spec_input_socket_type(
                            kind,
                            (#[trigger] self.nodes@[i as int].inputs@[b]).0,
                        ) == Some(self.nodes@[i as int].inputs@[b].1@.tag()),
                decreases len - j,
            {
                proof {
                    assert(inputs_view(defaults@)[j as int] == (defaults@[j as int].0, defaults@[j as int].1@));
                }
                if !(self.nodes[i].inputs[j].0 == defaults[j].0) {
                    return Err(GraphError::InvalidGraphError);
                }
                match crate::catalog::get_input_socket_type(kind, self.nodes[i].inputs[j].0) {
                    None => {
                        return Err(GraphError::InvalidGraphError);
                    },
                    Some(t) => {
                        if !(t == self.nodes[i].inputs[j].1.tag()) {
                            return Err(GraphError::InvalidGraphError);
                        }
                    },
                }
                j = j + 1;
            }
            i = i + 1;
        }
        // Exactly one material output node.
        let mut sink_at: Option<usize> = None;
        let mut i: usize = 0;
        while i < n
            invariant
                n == self.nodes@.len(),
                0 <= i <= n,
                match sink_at {
                    None => forall|a: int| 0 <= a < i ==> !(#[trigger] self.nodes@[a]).is_sink(),
                    Some(s) => s < i && self.nodes@[s as int].is_sink() && forall|a: int|
                        0 <= a < i && a != s ==> !(#[trigger] self.nodes@[a]).is_sink(),
                },
            decreases n - i,
        {
            if self.nodes[i].node_type == MaterialNodeType::MaterialOutput {
                match sink_at {
                    Some(_) => {
                        return Err(GraphError::InvalidGraphError);
                    },
                    None => {
                        sink_at = Some(i);
                    },
                }
            }
            i = i + 1;
        }
        if matches!(sink_at, None) {
            return Err(GraphError::InvalidGraphError);
        }
        // Every connection joins existing, type-compatible sockets.
        let mut i: usize = 0;
        while i < m
            invariant
                m == self.connections@.len(),
                0 <= i <= m,
                forall|a: int|
                    0 <= a < i ==> spec_connection_wf(#[trigger] self.connections@[a], self.nodes@),
            decreases m - i,
        {
            let c = self.connections[i];
            let valid = match (self.get_node(c.from_node), self.get_node(c.to_node)) {
                (Some(f), Some(t)) => is_connection_valid(
                    f.node_type,
                    c.from_output,
                    t.node_type,
                    c.to_input,
                ),
                _ => false,
            };
            if !valid {
                return Err(GraphError::InvalidGraphError);
            }
            i = i + 1;
        }
        // At most one connection into any input socket.
        let mut i: usize = 0;
        while i < m
            invariant
                m == self.connections@.len(),
                0 <= i <= m,
                forall|a: int, b: int|
                    0 <= a < b < m && a < i ==> !((#[trigger] self.connections@[a]).to_node == (
                    #[trigger] self.connections@[b]).to_node && self.connections@[a].to_input
                        == self.connections@[b].to_input),
            decreases m - i,
        {
            let mut j: usize = i + 1;
            while j < m
                invariant
                    m == self.connections@.len(),
                    0 <= i < m,
                    i < j <= m,
                    forall|b: int|
                        i < b < j ==> !((#[trigger] self.connections@[b]).to_node
                            == self.connections@[i as int].to_node && self.connections@[b].to_input
                            == self.connections@[i as int].to_input),
                decreases m - j,
            {
                if self.connections[j].to_node == self.connections[i].to_node
                    && self.connections[j].to_input == self.connections[i].to_input {
                    return Err(GraphError::InvalidGraphError);
                }
                j = j + 1;
            }
            i = i + 1;
        }
        Ok(())
    }

    /// Returns the material output node, if any; a well-formed graph holds
    /// exactly one.
    pub fn find_sink(&self) -> (node: Option<&MaterialNode>)
        ensures
            match node {
                Some(n) => spec_find_sink(self.nodes@) == Some(*n),
                None => spec_find_sink(self.nodes@) is None,
            },
    {
        let n = self.nodes.len();
        let mut i: usize = 0;
        while i < n
            invariant
                n == self.nodes@.len(),
                0 <= i <= n,
                forall|j: int| 0 <= j < i ==> !(#[trigger] self.nodes@[j]).is_sink(),
            decreases n - i,
        {
            if self.nodes[i].node_type == MaterialNodeType::MaterialOutput {
                proof {
                    lemma_find_sink_from(self.nodes@, i as int);
                }
                return Some(&self.nodes[i]);
            }
            i = i + 1;
        }
        proof {
            lemma_find_sink_from(self.nodes@, n as int);
        }
        None
    }

    /// Returns the connection targeting the given input socket, if any.
    pub fn find_connection_to(&self, to_node: u32, to_input: SocketName) -> (connection: Option<
        &MaterialConnection,
    >)
        ensures
            match connection {
                Some(c) => spec_find_connection(self.connections@, to_node, to_input) == Some(*c),
                None => spec_find_connection(self.connections@, to_node, to_input) is None,
            },
    {
        let n = self.connections.len();
        let mut i: usize = 0;
        while i < n
            invariant
                n == self.connections@.len(),
                0 <= i <= n,
                forall|j: int|
                    0 <= j < i ==> !((#[trigger] self.connections@[j]).to_node == to_node
                        && self.connections@[j].to_input == to_input),
            decreases n - i,
        {
            let c = &self.connections[i];
            if c.to_node == to_node && c.to_input == to_input {
                proof {
                    lemma_find_connection_from(self.connections@, to_node, to_input, i as int);
                }
                return Some(&self.connections[i]);
            }
            i = i + 1;
        }
        proof {
            lemma_find_connection_from(self.connections@, to_node, to_input, n as int);
        }
        None
    }
}

/// Whether a connection touches the node, as source or as target.
pub open spec fn conn_touches_node(c: MaterialConnection, id: u32) -> bool {
    c.from_node == id || c.to_node == id
}

/// Whether a connection targets the given input socket.
pub open spec fn conn_targets(c: MaterialConnection, to_node: u32, to_input: SocketName) -> bool {
    c.to_node == to_node && c.to_input == to_input
}

/// The connections that do not touch the node, in their original order.
pub open spec fn spec_connections_without_node(
    s: Seq<MaterialConnection>,
    id: u32,
) -> Seq<MaterialConnection>
    decreases s.len(),
{
    if s.len() == 0 {
        Seq::empty()
    } else {
        let rest = spec_connections_without_node(s.drop_first(), id);
        if conn_touches_node(s[0], id) {
            rest
        } else {
            seq![s[0]] + rest
        }
    }
}

/// The connections that do not target the given input socket, in their
/// original order.
pub open spec fn spec_connections_without_target(
    s: Seq<MaterialConnection>,
    to_node: u32,
    to_input: SocketName,
) -> Seq<MaterialConnection>
    decreases s.len(),
{
    if s.len() == 0 {
        Seq::empty()
    } else {
        let rest = spec_connections_without_target(s.drop_first(), to_node, to_input);
        if conn_targets(s[0], to_node, to_input) {
            rest
        } else {
            seq![s[0]] + rest
        }
    }
}

/// The nodes whose id differs from the given one, in their original order.
pub open spec fn spec_nodes_without(s: Seq<MaterialNode>, id: u32) -> Seq<MaterialNode>
    decreases s.len(),
{
    if s.len() == 0 {
        Seq::empty()
    } else {
        let rest = spec_nodes_without(s.drop_first(), id);
        if s[0].id == id {
            rest
        } else {
            seq![s[0]] + rest
        }
    }
}

/// When no connection targets the socket, dropping the targeting
/// connections changes nothing.
pub proof fn lemma_without_target_all_kept(
    s: Seq<MaterialConnection>,
    to_node: u32,
    to_input: SocketName,
)
    requires
        spec_find_connection(s, to_node, to_input) is None,
    ensures
        spec_connections_without_target(s, to_node, to_input) == s,
    decreases s.len(),
{
    if s.len() > 0 {
        lemma_without_target_all_kept(s.drop_first(), to_node, to_input);
        assert(spec_connections_without_target(s, to_node, to_input) =~= s);
    }
}

/// When no connection touches the node, dropping its connections changes
/// nothing.
pub proof fn lemma_without_node_all_kept(s: Seq<MaterialConnection>, id: u32)
    requires
        forall|i: int| 0 <= i < s.len() ==> !conn_touches_node(#[trigger] s[i], id),
    ensures
        spec_connections_without_node(s, id) == s,
    decreases s.len(),
{
    if s.len() > 0 {
        lemma_without_node_all_kept(s.drop_first(), id);
        assert(spec_connections_without_node(s, id) =~= s);
    }
}

/// When no node carries the id, dropping it changes nothing.
pub proof fn lemma_nodes_without_all_kept(s: Seq<MaterialNode>, id: u32)
    requires
        forall|i: int| 0 <= i < s.len() ==> (#[trigger] s[i]).id != id,
    ensures
        spec_nodes_without(s, id) == s,
    decreases s.len(),
{
    if s.len() > 0 {
        lemma_nodes_without_all_kept(s.drop_first(), id);
        assert(spec_nodes_without(s, id) =~= s);
    }
}

/// Every connection kept by the target filter comes from the original
/// sequence and does not target the socket; and when the original sequence
/// holds at most one connection per target, so does the filtered one.
pub proof fn lemma_without_target_props(
    s: Seq<MaterialConnection>,
    to_node: u32,
    to_input: SocketName,
)
    ensures
        forall|i: int|
            0 <= i < spec_connections_without_target(s, to_node, to_input).len() ==> s.contains(
                #[trigger] spec_connections_without_target(s, to_node, to_input)[i],
            ),
        forall|i: int|
            0 <= i < spec_connections_without_target(s, to_node, to_input).len()
                ==> !conn_targets(
                #[trigger] spec_connections_without_target(s, to_node, to_input)[i],
                to_node,
                to_input,
            ),
        (forall|i: int, j: int|
            0 <= i < j < s.len() ==> !(conn_targets(#[trigger] s[i], (#[trigger] s[j]).to_node, s[j].to_input))) ==> (forall|
            i: int,
            j: int,
        |
            0 <= i < j < spec_connections_without_target(s, to_node, to_input).len() ==> !(
            conn_targets(
                #[trigger] spec_connections_without_target(s, to_node, to_input)[i],
                (#[trigger] spec_connections_without_target(s, to_node, to_input)[j]).to_node,
                spec_connections_without_target(s, to_node, to_input)[j].to_input,
            ))),
    decreases s.len(),
{
    if s.len() > 0 {
        lemma_without_target_props(s.drop_first(), to_node, to_input);
        let rest = spec_connections_without_target(s.drop_first(), to_node, to_input);
        assert forall|i: int| 0 <= i < rest.len() implies s.contains(rest[i]) by {
            assert(s.drop_first().contains(rest[i]));
            let k = choose|k: int|
                0 <= k < s.drop_first().len() && s.drop_first()[k] == rest[i];
            assert(s[k + 1] == rest[i]);
        }
    }
}

/// Every node kept by the id filter comes from the original sequence and
/// does not carry the id; every original node of another id is kept; and
/// distinctness of ids survives the filter.
pub proof fn lemma_nodes_without_props(s: Seq<MaterialNode>, id: u32)
    ensures
        forall|i: int|
            0 <= i < spec_nodes_without(s, id).len() ==> s.contains(
                #[trigger] spec_nodes_without(s, id)[i],
            ),
        forall|i: int|
            0 <= i < spec_nodes_without(s, id).len() ==> (#[trigger] spec_nodes_without(s, id)[i]).id
                != id,
        forall|j: int|
            0 <= j < s.len() && (#[trigger] s[j]).id != id ==> spec_nodes_without(s, id).contains(
                s[j],
            ),
        (forall|i: int, j: int|
            0 <= i < j < s.len() ==> (#[trigger] s[i]).id != (#[trigger] s[j]).id) ==> (forall|
            i: int,
            j: int,
        |
            0 <= i < j < spec_nodes_without(s, id).len() ==> (#[trigger] spec_nodes_without(
                s,
                id,
            )[i]).id != (#[trigger] spec_nodes_without(s, id)[j]).id),
    decreases s.len(),
{
    if s.len() > 0 {
        lemma_nodes_without_props(s.drop_first(), id);
        let rest = spec_nodes_without(s.drop_first(), id);
        assert forall|i: int| 0 <= i < rest.len() implies s.contains(rest[i]) by {
            assert(s.drop_first().contains(rest[i]));
            let k = choose|k: int|
                0 <= k < s.drop_first().len() && s.drop_first()[k] == rest[i];
            assert(s[k + 1] == rest[i]);
        }
        assert forall|j: int|
            0 <= j < s.len() && (#[trigger] s[j]).id != id implies spec_nodes_without(
            s,
            id,
        ).contains(s[j]) by {
            if j == 0 {
                assert(spec_nodes_without(s, id)[0] == s[0]);
            } else {
                assert(s.drop_first()[j - 1] == s[j]);
                assert(rest.contains(s[j]));
                let k = choose|k: int| 0 <= k < rest.len() && rest[k] == s[j];
                if s[0].id == id {
                    assert(spec_nodes_without(s, id)[k] == s[j]);
                } else {
                    assert(spec_nodes_without(s, id)[k + 1] == s[j]);
                }
            }
        }
        if forall|i: int, j: int| 0 <= i < j < s.len() ==> (#[trigger] s[i]).id != (#[trigger] s[j]).id {
            assert forall|i: int, j: int|
                0 <= i < j < s.drop_first().len() implies (#[trigger] s.drop_first()[i]).id != (
            #[trigger] s.drop_first()[j]).id by {
                assert(s.drop_first()[i] == s[i + 1]);
                assert(s.drop_first()[j] == s[j + 1]);
            }
            if s[0].id != id {
                assert forall|i: int, j: int|
                    0 <= i < j < spec_nodes_without(s, id).len() implies (
                #[trigger] spec_nodes_without(s, id)[i]).id != (#[trigger] spec_nodes_without(
                    s,
                    id,
                )[j]).id by {
                    if i > 0 {
                        assert(spec_nodes_without(s, id)[i] == rest[i - 1]);
                        assert(spec_nodes_without(s, id)[j] == rest[j - 1]);
                    } else {
                        assert(spec_nodes_without(s, id)[0] == s[0]);
                        assert(spec_nodes_without(s, id)[j] == rest[j - 1]);
                        assert(rest.contains(rest[j - 1]));
                        let k = choose|k: int|
                            0 <= k < s.drop_first().len() && s.drop_first()[k] == rest[j - 1];
                        assert(s[k + 1] == rest[j - 1]);
                    }
                }
            }
        }
    }
}

/// Every connection kept by the node filter comes from the original
/// sequence and does not touch the node; and when the original sequence
/// holds at most one connection per target, so does the filtered one.
pub proof fn lemma_without_node_props(s: Seq<MaterialConnection>, id: u32)
    ensures
        forall|i: int|
            0 <= i < spec_connections_without_node(s, id).len() ==> s.contains(
                #[trigger] spec_connections_without_node(s, id)[i],
            ),
        forall|i: int|
            0 <= i < spec_connections_without_node(s, id).len() ==> !conn_touches_node(
                #[trigger] spec_connections_without_node(s, id)[i],
                id,
            ),
        (forall|i: int, j: int|
            0 <= i < j < s.len() ==> !(conn_targets(#[trigger] s[i], (#[trigger] s[j]).to_node, s[j].to_input))) ==> (forall|
            i: int,
            j: int,
        |
            0 <= i < j < spec_connections_without_node(s, id).len() ==> !(conn_targets(
                #[trigger] spec_connections_without_node(s, id)[i],
                (#[trigger] spec_connections_without_node(s, id)[j]).to_node,
                spec_connections_without_node(s, id)[j].to_input,
            ))),
    decreases s.len(),
{
    if s.len() > 0 {
        lemma_without_node_props(s.drop_first(), id);
        let rest = spec_connections_without_node(s.drop_first(), id);
        assert forall|i: int| 0 <= i < rest.len() implies s.contains(rest[i]) by {
            assert(s.drop_first().contains(rest[i]));
            let k = choose|k: int|
                0 <= k < s.drop_first().len() && s.drop_first()[k] == rest[i];
            assert(s[k + 1] == rest[i]);
        }
        if forall|i: int, j: int|
            0 <= i < j < s.len() ==> !(conn_targets(#[trigger] s[i], (#[trigger] s[j]).to_node, s[j].to_input)) {
            assert forall|i: int, j: int|
                0 <= i < j < s.drop_first().len() implies !(conn_targets(
                #[trigger] s.drop_first()[i],
                (#[trigger] s.drop_first()[j]).to_node,
                s.drop_first()[j].to_input,
            )) by {
                assert(s.drop_first()[i] == s[i + 1]);
                assert(s.drop_first()[j] == s[j + 1]);
            }
            if !conn_touches_node(s[0], id) {
                let whole = spec_connections_without_node(s, id);
                assert forall|i: int, j: int|
                    0 <= i < j < whole.len() implies !(conn_targets(
                    #[trigger] whole[i],
                    (#[trigger] whole[j]).to_node,
                    whole[j].to_input,
                )) by {
                    if i > 0 {
                        assert(whole[i] == rest[i - 1]);
                        assert(whole[j] == rest[j - 1]);
                    } else {
                        assert(whole[0] == s[0]);
                        assert(whole[j] == rest[j - 1]);
                        assert(rest.contains(rest[j - 1]));
                        let k = choose|k: int|
                            0 <= k < s.drop_first().len() && s.drop_first()[k] == rest[j - 1];
                        assert(s[k + 1] == rest[j - 1]);
                    }
                }
            }
        }
    }
}

/// Appending a node leaves every successful lookup unchanged, and resolves
/// the new node's id when the lookup used to fail.
pub proof fn lemma_find_node_push(s: Seq<MaterialNode>, n: MaterialNode, id: u32)
    ensures
        spec_find_node(s, id) is Some ==> spec_find_node(s.push(n), id) == spec_find_node(s, id),
        spec_find_node(s, id) is None && n.id == id ==> spec_find_node(s.push(n), id) == Some(n),
        spec_find_node(s, id) is None && n.id != id ==> spec_find_node(s.push(n), id) is None,
    decreases s.len(),
{
    if s.len() == 0 {
        assert(s.push(n)[0] == n);
        assert(s.push(n).drop_first() =~= Seq::empty());
    } else {
        assert(s.push(n)[0] == s[0]);
        assert(s.push(n).drop_first() =~= s.drop_first().push(n));
        lemma_find_node_push(s.drop_first(), n, id);
    }
}

/// Dropping a node leaves the lookup of every other id unchanged.
pub proof fn lemma_find_node_without(s: Seq<MaterialNode>, id: u32, x: u32)
    requires
        x != id,
    ensures
        spec_find_node(spec_nodes_without(s, id), x) == spec_find_node(s, x),
    decreases s.len(),
{
    if s.len() > 0 {
        lemma_find_node_without(s.drop_first(), id, x);
        let rest = spec_nodes_without(s.drop_first(), id);
        if s[0].id == id {
            assert(s[0].id != x);
        } else {
            let whole = spec_nodes_without(s, id);
            assert(whole[0] == s[0]);
            assert(whole.drop_first() =~= rest);
        }
    }
}

/// Dropping a node with a distinct-id sequence equals removing its first
/// occurrence.
pub proof fn lemma_nodes_without_is_remove(s: Seq<MaterialNode>, id: u32, k: int)
    requires
        0 <= k < s.len(),
        s[k].id == id,
        forall|i: int, j: int| 0 <= i < j < s.len() ==> (#[trigger] s[i]).id != (#[trigger] s[j]).id,
    ensures
        spec_nodes_without(s, id) == s.remove(k),
    decreases k,
{
    if k == 0 {
        assert forall|i: int| 0 <= i < s.drop_first().len() implies (#[trigger] s.drop_first()[i]).id
            != id by {
            assert(s.drop_first()[i] == s[i + 1]);
        }
        lemma_nodes_without_all_kept(s.drop_first(), id);
        assert(s.remove(0) =~= s.drop_first());
    } else {
        assert forall|i: int, j: int|
            0 <= i < j < s.drop_first().len() implies (#[trigger] s.drop_first()[i]).id != (
        #[trigger] s.drop_first()[j]).id by {
            assert(s.drop_first()[i] == s[i + 1]);
            assert(s.drop_first()[j] == s[j + 1]);
        }
        assert(s.drop_first()[k - 1] == s[k]);
        lemma_nodes_without_is_remove(s.drop_first(), id, k - 1);
        assert(s[0].id != id);
        assert(spec_nodes_without(s, id) =~= s.remove(k));
    }
}

/// Collects the suffix of `v` from position `i`, keeping the connections
/// that do not touch the node.
fn connections_without_node_from(v: &Vec<MaterialConnection>, id: u32, i: usize) -> (r: Vec<
    MaterialConnection,
>)
    requires
        i <= v@.len(),
    ensures
        r@ == spec_connections_without_node(v@.subrange(i as int, v@.len() as int), id),
    decreases v@.len() - i,
{
    if i == v.len() {
        let r: Vec<MaterialConnection> = Vec::new();
        proof {
            assert(v@.subrange(i as int, v@.len() as int) =~= Seq::<MaterialConnection>::empty());
        }
        r
    } else {
        let mut rest = connections_without_node_from(v, id, i + 1);
        let c = v[i];
        proof {
            let suffix = v@.subrange(i as int, v@.len() as int);
            assert(suffix[0] == v@[i as int]);
            assert(suffix.drop_first() =~= v@.subrange(i as int + 1, v@.len() as int));
        }
        if c.from_node != id && c.to_node != id {
            let mut r: Vec<MaterialConnection> = Vec::new();
            r.push(c);
            r.append(&mut rest);
            proof {
                assert(r@ =~= seq![c] + spec_connections_without_node(
                    v@.subrange(i as int + 1, v@.len() as int),
                    id,
                ));
            }
            r
        } else {
            rest
        }
    }
}

/// Collects the suffix of `v` from position `i`, keeping the connections
/// that do not target the input socket.
fn connections_without_target_from(
    v: &Vec<MaterialConnection>,
    to_node: u32,
    to_input: SocketName,
    i: usize,
) -> (r: Vec<MaterialConnection>)
    requires
        i <= v@.len(),
    ensures
        r@ == spec_connections_without_target(
            v@.subrange(i as int, v@.len() as int),
            to_node,
            to_input,
        ),
    decreases v@.len() - i,
{
    if i == v.len() {
        let r: Vec<MaterialConnection> = Vec::new();
        proof {
            assert(v@.subrange(i as int, v@.len() as int) =~= Seq::<MaterialConnection>::empty());
        }
        r
    } else {
        let mut rest = connections_without_target_from(v, to_node, to_input, i + 1);
        let c = v[i];
        proof {
            let suffix = v@.subrange(i as int, v@.len() as int);
            assert(suffix[0] == v@[i as int]);
            assert(suffix.drop_first() =~= v@.subrange(i as int + 1, v@.len() as int));
        }
        if !(c.to_node == to_node && c.to_input == to_input) {
            let mut r: Vec<MaterialConnection> = Vec::new();
            r.push(c);
            r.append(&mut rest);
            proof {
                assert(r@ =~= seq![c] + spec_connections_without_target(
                    v@.subrange(i as int + 1, v@.len() as int),
                    to_node,
                    to_input,
                ));
            }
            r
        } else {
            rest
        }
    }
}

} // verus!
