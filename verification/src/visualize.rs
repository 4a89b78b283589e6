use vstd::prelude::*;
use vstd::string::StringExecFns;

verus! {

/// Process-unique identifier of a node of the dataflow graph.
#[derive(Clone, Debug, PartialEq, Eq)]
pub struct NodeId(pub String);

impl View for NodeId {
    type V = Seq<char>;

    open spec fn view(&self) -> Seq<char> {
        self.0@
    }
}

/// Identifier of one operator hosted by a runtime node.
#[derive(Clone, Debug, PartialEq, Eq)]
pub struct OperatorId(pub String);

impl View for OperatorId {
    type V = Seq<char>;

    open spec fn view(&self) -> Seq<char> {
        self.0@
    }
}

/// Identifier of one data input or output.
#[derive(Clone, Debug, PartialEq, Eq)]
pub struct DataId(pub String);

impl View for DataId {
    type V = Seq<char>;

    open spec fn view(&self) -> Seq<char> {
        self.0@
    }
}

/// Where one input comes from: a source node, optionally one of its
/// operators, and the output it reads.
#[derive(Clone, Debug, PartialEq, Eq)]
pub struct InputMapping {
    pub source: NodeId,
    pub operator: Option<OperatorId>,
    pub output: DataId,
}

/// The declared inputs (an ordered mapping of input identifiers to their
/// sources) and outputs of a node or of one operator.
#[derive(Clone, Debug, PartialEq, Eq)]
pub struct NodeRunConfig {
    pub inputs: Vec<(DataId, InputMapping)>,
    pub outputs: Vec<DataId>,
}

/// A node running a single custom executable.
#[derive(Clone, Debug, PartialEq, Eq)]
pub struct CustomNode {
    pub run_config: NodeRunConfig,
}

/// One operator hosted by a runtime node.
#[derive(Clone, Debug, PartialEq, Eq)]
pub struct OperatorDefinition {
    pub id: OperatorId,
    pub config: NodeRunConfig,
}

/// A node hosting a set of operators.
#[derive(Clone, Debug, PartialEq, Eq)]
pub struct RuntimeNode {
    pub operators: Vec<OperatorDefinition>,
}

/// The two kinds of resolved node.
#[derive(Clone, Debug, PartialEq, Eq)]
pub enum CoreNodeKind {
    Custom(CustomNode),
    Runtime(RuntimeNode),
}

/// One fully resolved node of the graph.
#[derive(Clone, Debug, PartialEq, Eq)]
pub struct ResolvedNode {
    pub id: NodeId,
    pub kind: CoreNodeKind,
}

/// The declaration line of a custom node: source nodes (no inputs) get a
/// trapezoid, sink nodes (no outputs) the inverse trapezoid, other nodes a
/// plain box.
pub open spec fn custom_node_text(node_id: Seq<char>, node: CustomNode) -> Seq<char> {
    if node.run_config.inputs@.len() == 0 {
        "  "@ + node_id + "[\\"@ + node_id + "/]\n"@
    } else if node.run_config.outputs@.len() == 0 {
        "  "@ + node_id + "[/"@ + node_id + "\\]\n"@
    } else {
        "  "@ + node_id + "\n"@
    }
}

/// The declaration line of one operator inside a runtime node's subgraph.
pub open spec fn operator_text(node_id: Seq<char>, op: OperatorDefinition) -> Seq<char> {
    if op.config.inputs@.len() == 0 {
        "  "@ + node_id + "/"@ + op.id@ + "[\\"@ + op.id@ + "/]\n"@
    } else if op.config.outputs@.len() == 0 {
        "  "@ + node_id + "/"@ + op.id@ + "[/"@ + op.id@ + "\\]\n"@
    } else {
        "  "@ + node_id + "/"@ + op.id@ + "["@ + op.id@ + "]\n"@
    }
}

/// The declaration lines of the first `i` operators of a runtime node.
pub open spec fn operators_text_upto(
    node_id: Seq<char>,
    ops: Seq<OperatorDefinition>,
    i: int,
) -> Seq<char>
    decreases i,
{
    if i <= 0 {
        Seq::empty()
    } else {
        operators_text_upto(node_id, ops, i - 1) + operator_text(node_id, ops[i - 1])
    }
}

/// The subgraph block declaring a runtime node and its operators.
pub open spec fn runtime_text(node_id: Seq<char>, ops: Seq<OperatorDefinition>) -> Seq<char> {
    "subgraph "@ + node_id + "\n"@ + operators_text_upto(node_id, ops, ops.len() as int)
        + "end\n"@
}

/// The declaration block of one node.
pub open spec fn node_text(node: ResolvedNode) -> Seq<char> {
    match node.kind {
        CoreNodeKind::Custom(n) => custom_node_text(node.id@, n),
        CoreNodeKind::Runtime(n) => runtime_text(node.id@, n.operators@),
    }
}

/// The declaration blocks of the first `i` nodes.
pub open spec fn nodes_text_upto(nodes: Seq<ResolvedNode>, i: int) -> Seq<char>
    decreases i,
{
    if i <= 0 {
        Seq::empty()
    } else {
        nodes_text_upto(nodes, i - 1) + node_text(nodes[i - 1])
    }
}

/// The node a source identifier denotes.  When several nodes share an
/// identifier the one declared last wins, mirroring a lookup table filled in
/// declaration order.
pub open spec fn find_node(nodes: Seq<ResolvedNode>, id: Seq<char>) -> Option<ResolvedNode>
    decreases nodes.len(),
{
    if nodes.len() == 0 {
        None
    } else if nodes.last().id@ == id {
        Some(nodes.last())
    } else {
        find_node(nodes.drop_last(), id)
    }
}

/// The first operator of a runtime node with the given identifier.
pub open spec fn find_operator(
    ops: Seq<OperatorDefinition>,
    id: Seq<char>,
) -> Option<OperatorDefinition>
    decreases ops.len(),
{
    if ops.len() == 0 {
        None
    } else if ops[0].id@ == id {
        Some(ops[0])
    } else {
        find_operator(ops.skip(1), id)
    }
}

/// Whether a declared output list contains the given identifier.
pub open spec fn has_data_id(outputs: Seq<DataId>, id: Seq<char>) -> bool {
    exists|k: int| 0 <= k < outputs.len() && #[trigger] outputs[k]@ == id
}

/// The label of an edge: the output identifier, renamed when the input it
/// feeds has a different name.
pub open spec fn data_label(output: Seq<char>, input_id: Seq<char>) -> Seq<char> {
    if output == input_id {
        output
    } else {
        output + " as "@ + input_id
    }
}

/// An edge from a resolved source to a target.
pub open spec fn edge_text(source_label: Seq<char>, label: Seq<char>, target: Seq<char>) -> Seq<
    char,
> {
    "  "@ + source_label + " -- "@ + label + " --> "@ + target + "\n"@
}

/// The edge drawn from a placeholder when an input's source cannot be
/// resolved.
pub open spec fn missing_text(input_id: Seq<char>, target: Seq<char>) -> Seq<char> {
    "  missing>missing] -- "@ + input_id + " --> "@ + target + "\n"@
}

/// The line drawn for one input of a target: an edge from its resolved
/// source when the source node (and operator, for runtime sources) exists
/// and declares the output, the missing placeholder otherwise.
pub open spec fn input_text(
    target: Seq<char>,
    input_id: Seq<char>,
    mapping: InputMapping,
    nodes: Seq<ResolvedNode>,
) -> Seq<char> {
    match find_node(nodes, mapping.source@) {
        Some(src) => match (src.kind, mapping.operator) {
            (CoreNodeKind::Custom(n), Option::None) => if has_data_id(
                n.run_config.outputs@,
                mapping.output@,
            ) {
                edge_text(mapping.source@, data_label(mapping.output@, input_id), target)
            } else {
                missing_text(input_id, target)
            },
            (CoreNodeKind::Runtime(n), Option::Some(op_id)) => match find_operator(
                n.operators@,
                op_id@,
            ) {
                Some(op) => if has_data_id(op.config.outputs@, mapping.output@) {
                    edge_text(
                        mapping.source@ + "/"@ + op_id@,
                        data_label(mapping.output@, input_id),
                        target,
                    )
                } else {
                    missing_text(input_id, target)
                },
                None => missing_text(input_id, target),
            },
            _ => missing_text(input_id, target),
        },
        None => missing_text(input_id, target),
    }
}

/// The lines for the first `i` inputs of one target.
pub open spec fn inputs_text_upto(
    target: Seq<char>,
    inputs: Seq<(DataId, InputMapping)>,
    nodes: Seq<ResolvedNode>,
    i: int,
) -> Seq<char>
    decreases i,
{
    if i <= 0 {
        Seq::empty()
    } else {
        inputs_text_upto(target, inputs, nodes, i - 1) + input_text(
            target,
            inputs[i - 1].0@,
            inputs[i - 1].1,
            nodes,
        )
    }
}

/// The target label of one operator of a runtime node.
pub open spec fn operator_target_text(node_id: Seq<char>, op_id: Seq<char>) -> Seq<char> {
    node_id + "/"@ + op_id
}

/// The input lines of the first `i` operators of a runtime node.
pub open spec fn runtime_inputs_upto(
    node_id: Seq<char>,
    ops: Seq<OperatorDefinition>,
    nodes: Seq<ResolvedNode>,
    i: int,
) -> Seq<char>
    decreases i,
{
    if i <= 0 {
        Seq::empty()
    } else {
        runtime_inputs_upto(node_id, ops, nodes, i - 1) + inputs_text_upto(
            operator_target_text(node_id, ops[i - 1].id@),
            ops[i - 1].config.inputs@,
            nodes,
            ops[i - 1].config.inputs@.len() as int,
        )
    }
}

/// The input lines of one node.
pub open spec fn node_inputs_text(node: ResolvedNode, nodes: Seq<ResolvedNode>) -> Seq<char> {
    match node.kind {
        CoreNodeKind::Custom(n) => inputs_text_upto(
            node.id@,
            n.run_config.inputs@,
            nodes,
            n.run_config.inputs@.len() as int,
        ),
        CoreNodeKind::Runtime(n) => runtime_inputs_upto(
            node.id@,
            n.operators@,
            nodes,
            n.operators@.len() as int,
        ),
    }
}

/// The input lines of the first `i` nodes.
pub open spec fn nodes_inputs_upto(nodes: Seq<ResolvedNode>, i: int) -> Seq<char>
    decreases i,
{
    if i <= 0 {
        Seq::empty()
    } else {
        nodes_inputs_upto(nodes, i - 1) + node_inputs_text(nodes[i - 1], nodes)
    }
}

/// The whole diagram: the header, every node's declaration block in order,
/// then every node's input edges in order.
pub open spec fn flowchart_text(nodes: Seq<ResolvedNode>) -> Seq<char> {
    "flowchart TB\n"@ + nodes_text_upto(nodes, nodes.len() as int) + nodes_inputs_upto(
        nodes,
        nodes.len() as int,
    )
}

/// Renders the declaration of one custom node.
pub fn visualize_custom_node(node_id: &NodeId, node: &CustomNode, flowchart: &mut String)
    ensures
        final(flowchart)@ == old(flowchart)@ + custom_node_text(node_id@, *node),
{
    if node.run_config.inputs.len() == 0 {
        flowchart.append("  ");
        flowchart.append(node_id.0.as_str());
        flowchart.append("[\\");
        flowchart.append(node_id.0.as_str());
        flowchart.append("/]\n");
    } else if node.run_config.outputs.len() == 0 {
        flowchart.append("  ");
        flowchart.append(node_id.0.as_str());
        flowchart.append("[/");
        flowchart.append(node_id.0.as_str());
        flowchart.append("\\]\n");
    } else {
        flowchart.append("  ");
        flowchart.append(node_id.0.as_str());
        flowchart.append("\n");
    }
    proof {
        assert(flowchart@ =~= old(flowchart)@ + custom_node_text(node_id@, *node));
    }
}

/// Renders the subgraph block of a runtime node and its operators.
pub fn visualize_runtime_node(
    node_id: &NodeId,
    operators: &Vec<OperatorDefinition>,
    flowchart: &mut String,
)
    ensures
        final(flowchart)@ == old(flowchart)@ + runtime_text(node_id@, operators@),
{
    flowchart.append("subgraph ");
    flowchart.append(node_id.0.as_str());
    flowchart.append("\n");
    let ghost base = flowchart@;
    let mut i: usize = 0;
    while i < operators.len()
        invariant
            i <= operators@.len(),
            base == old(flowchart)@ + "subgraph "@ + node_id@ + "\n"@,
            flowchart@ == base + operators_text_upto(node_id@, operators@, i as int),
        decreases operators@.len() - i,
    {
        let op = &operators[i];
        if op.config.inputs.len() == 0 {
            flowchart.append("  ");
            flowchart.append(node_id.0.as_str());
            flowchart.append("/");
            flowchart.append(op.id.0.as_str());
            flowchart.append("[\\");
            flowchart.append(op.id.0.as_str());
            flowchart.append("/]\n");
        } else if op.config.outputs.len() == 0 {
            flowchart.append("  ");
            flowchart.append(node_id.0.as_str());
            flowchart.append("/");
            flowchart.append(op.id.0.as_str());
            flowchart.append("[/");
            flowchart.append(op.id.0.as_str());
            flowchart.append("\\]\n");
        } else {
            flowchart.append("  ");
            flowchart.append(node_id.0.as_str());
            flowchart.append("/");
            flowchart.append(op.id.0.as_str());
            flowchart.append("[");
            flowchart.append(op.id.0.as_str());
            flowchart.append("]\n");
        }
        proof {
            assert(flowchart@ =~= base + operators_text_upto(
                node_id@,
                operators@,
                i as int + 1,
            ));
        }
        i = i + 1;
    }
    flowchart.append("end\n");
    proof {
        assert(flowchart@ =~= old(flowchart)@ + runtime_text(node_id@, operators@));
    }
}

/// Renders the declaration block of one node.
pub fn visualize_node(node: &ResolvedNode, flowchart: &mut String)
    ensures
        final(flowchart)@ == old(flowchart)@ + node_text(*node),
{
    match &node.kind {
        CoreNodeKind::Custom(n) => visualize_custom_node(&node.id, n, flowchart),
        CoreNodeKind::Runtime(n) => visualize_runtime_node(&node.id, &n.operators, flowchart),
    }
}

/// Looks a source node up by identifier; the node declared last wins.
fn find_node_index(nodes: &Vec<ResolvedNode>, id: &String) -> (r: Option<usize>)
    ensures
        match r {
            Some(i) => i < nodes@.len() && find_node(nodes@, id@) == Some(nodes@[i as int]),
            None => find_node(nodes@, id@) is None,
        },
{
    let mut i: usize = nodes.len();
    proof {
        assert(nodes@.take(nodes@.len() as int) =~= nodes@);
    }
    while i > 0
        invariant
            i <= nodes@.len(),
            find_node(nodes@, id@) == find_node(nodes@.take(i as int), id@),
        decreases i,
    {
        i = i - 1;
        proof {
            assert(nodes@.take(i as int + 1).last() == nodes@[i as int]);
            assert(nodes@.take(i as int + 1).drop_last() =~= nodes@.take(i as int));
        }
        if nodes[i].id.0 == *id {
            return Some(i);
        }
    }
    None
}

/// Looks an operator up by identifier; the first declared wins.
fn find_operator_index(ops: &Vec<OperatorDefinition>, id: &String) -> (r: Option<usize>)
    ensures
        match r {
            Some(i) => i < ops@.len() && find_operator(ops@, id@) == Some(ops@[i as int]),
            None => find_operator(ops@, id@) is None,
        },
{
    let mut i: usize = 0;
    proof {
        assert(ops@.skip(0) =~= ops@);
    }
    while i < ops.len()
        invariant
            i <= ops@.len(),
            find_operator(ops@, id@) == find_operator(ops@.skip(i as int), id@),
        decreases ops@.len() - i,
    {
        proof {
            assert(ops@.skip(i as int)[0] == ops@[i as int]);
            assert(ops@.skip(i as int).skip(1) =~= ops@.skip(i as int + 1));
        }
        if ops[i].id.0 == *id {
            return Some(i);
        }
        i = i + 1;
    }
    None
}

/// Whether a declared output list contains the given identifier.
fn contains_data_id(outputs: &Vec<DataId>, id: &DataId) -> (r: bool)
    ensures
        r == has_data_id(outputs@, id@),
{
    let mut i: usize = 0;
    while i < outputs.len()
        invariant
            i <= outputs@.len(),
            forall|j: int| 0 <= j < i ==> #[trigger] outputs@[j]@ != id@,
        decreases outputs@.len() - i,
    {
        if outputs[i].0 == id.0 {
            proof {
                assert(outputs@[i as int]@ == id@);
            }
            return true;
        }
        i = i + 1;
    }
    false
}

/// Appends an edge from a resolved source.
fn append_edge(
    flowchart: &mut String,
    source_label: &String,
    output: &DataId,
    input_id: &DataId,
    target: &String,
)
    ensures
        final(flowchart)@ == old(flowchart)@ + edge_text(
            source_label@,
            data_label(output@, input_id@),
            target@,
        ),
{
    flowchart.append("  ");
    flowchart.append(source_label.as_str());
    flowchart.append(" -- ");
    if output.0 == input_id.0 {
        flowchart.append(output.0.as_str());
    } else {
        flowchart.append(output.0.as_str());
        flowchart.append(" as ");
        flowchart.append(input_id.0.as_str());
    }
    flowchart.append(" --> ");
    flowchart.append(target.as_str());
    flowchart.append("\n");
    proof {
        assert(flowchart@ =~= old(flowchart)@ + edge_text(
            source_label@,
            data_label(output@, input_id@),
            target@,
        ));
    }
}

/// Appends the missing-source placeholder edge.
fn append_missing(flowchart: &mut String, input_id: &DataId, target: &String)
    ensures
        final(flowchart)@ == old(flowchart)@ + missing_text(input_id@, target@),
{
    flowchart.append("  missing>missing] -- ");
    flowchart.append(input_id.0.as_str());
    flowchart.append(" --> ");
    flowchart.append(target.as_str());
    flowchart.append("\n");
    proof {
        assert(flowchart@ =~= old(flowchart)@ + missing_text(input_id@, target@));
    }
}

/// Renders the edges for every input of one target, in declaration order.
pub fn visualize_inputs(
    target: &String,
    inputs: &Vec<(DataId, InputMapping)>,
    flowchart: &mut String,
    nodes: &Vec<ResolvedNode>,
)
    ensures
        final(flowchart)@ == old(flowchart)@ + inputs_text_upto(
            target@,
            inputs@,
            nodes@,
            inputs@.len() as int,
        ),
{
    let mut i: usize = 0;
    while i < inputs.len()
        invariant
            i <= inputs@.len(),
            flowchart@ == old(flowchart)@ + inputs_text_upto(target@, inputs@, nodes@, i as int),
        decreases inputs@.len() - i,
    {
        let input_id = &inputs[i].0;
        let mapping = &inputs[i].1;
        let mut source_found = false;
        match find_node_index(nodes, &mapping.source.0) {
            Some(si) => {
                let src = &nodes[si];
                match &src.kind {
                    CoreNodeKind::Custom(n) => match &mapping.operator {
                        None => {
                            if contains_data_id(&n.run_config.outputs, &mapping.output) {
                                append_edge(
                                    flowchart,
                                    &mapping.source.0,
                                    &mapping.output,
                                    input_id,
                                    target,
                                );
                                source_found = true;
                            }
                        },
                        Some(_) => {},
                    },
                    CoreNodeKind::Runtime(n) => match &mapping.operator {
                        Some(op_id) => {
                            match find_operator_index(&n.operators, &op_id.0) {
                                Some(oi) => {
                                    let op = &n.operators[oi];
                                    if contains_data_id(&op.config.outputs, &mapping.output) {
                                        let mut label = mapping.source.0.clone();
                                        label.append("/");
                                        label.append(op_id.0.as_str());
                                        append_edge(
                                            flowchart,
                                            &label,
                                            &mapping.output,
                                            input_id,
                                            target,
                                        );
                                        source_found = true;
                                    }
                                },
                                None => {},
                            }
                        },
                        None => {},
                    },
                }
            },
            None => {},
        }
        if !source_found {
            append_missing(flowchart, input_id, target);
        }
        proof {
            assert(flowchart@ =~= old(flowchart)@ + inputs_text_upto(
                target@,
                inputs@,
                nodes@,
                i as int + 1,
            ));
        }
        i = i + 1;
    }
}

/// Renders the input edges of one node.
pub fn visualize_node_inputs(
    node: &ResolvedNode,
    flowchart: &mut String,
    nodes: &Vec<ResolvedNode>,
)
    ensures
        final(flowchart)@ == old(flowchart)@ + node_inputs_text(*node, nodes@),
{
    match &node.kind {
        CoreNodeKind::Custom(n) => {
            visualize_inputs(&node.id.0, &n.run_config.inputs, flowchart, nodes);
        },
        CoreNodeKind::Runtime(n) => {
            let mut i: usize = 0;
            while i < n.operators.len()
                invariant
                    i <= n.operators@.len(),
                    flowchart@ == old(flowchart)@ + runtime_inputs_upto(
                        node.id@,
                        n.operators@,
                        nodes@,
                        i as int,
                    ),
                decreases n.operators@.len() - i,
            {
                let op = &n.operators[i];
                let mut target = node.id.0.clone();
                target.append("/");
                target.append(op.id.0.as_str());
                visualize_inputs(&target, &op.config.inputs, flowchart, nodes);
                proof {
                    assert(flowchart@ =~= old(flowchart)@ + runtime_inputs_upto(
                        node.id@,
                        n.operators@,
                        nodes@,
                        i as int + 1,
                    ));
                }
                i = i + 1;
            }
        },
    }
}

/// Renders the whole graph as a top-to-bottom flowchart: the header, the
/// declaration of every node, then every node's input edges.
pub fn visualize_nodes(nodes: &Vec<ResolvedNode>) -> (r: String)
    ensures
        r@ == flowchart_text(nodes@),
{
    let mut flowchart = String::from_str("flowchart TB\n");
    let mut i: usize = 0;
    while i < nodes.len()
        invariant
            i <= nodes@.len(),
            flowchart@ == "flowchart TB\n"@ + nodes_text_upto(nodes@, i as int),
        decreases nodes@.len() - i,
    {
        visualize_node(&nodes[i], &mut flowchart);
        proof {
            assert(flowchart@ =~= "flowchart TB\n"@ + nodes_text_upto(nodes@, i as int + 1));
        }
        i = i + 1;
    }
    let ghost declared = flowchart@;
    let mut i: usize = 0;
    while i < nodes.len()
        invariant
            i <= nodes@.len(),
            declared == "flowchart TB\n"@ + nodes_text_upto(nodes@, nodes@.len() as int),
            flowchart@ == declared + nodes_inputs_upto(nodes@, i as int),
        decreases nodes@.len() - i,
    {
        visualize_node_inputs(&nodes[i], &mut flowchart, nodes);
        proof {
            assert(flowchart@ =~= declared + nodes_inputs_upto(nodes@, i as int + 1));
        }
        i = i + 1;
    }
    proof {
        assert(flowchart@ =~= flowchart_text(nodes@));
    }
    flowchart
}

} // verus!
