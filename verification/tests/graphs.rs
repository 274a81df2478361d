use luminal_backends::dtype::DType;
use luminal_backends::graph::{GraphEdge, GraphNode, LlirGraph};
use luminal_backends::text::{decimal, hex_word, signed_decimal};

fn edge(id: usize, source: usize, target: usize) -> GraphEdge {
    GraphEdge { id, source, target }
}

fn graph(count: usize, edges: Vec<GraphEdge>) -> LlirGraph<()> {
    LlirGraph { nodes: (0..count).map(|_| GraphNode::Op(())).collect(), edges }
}

#[test]
fn arguments_follow_the_edge_numbers() {
    let graph = graph(4, vec![edge(7, 0, 3), edge(2, 1, 3), edge(5, 2, 3), edge(1, 0, 2)]);
    assert_eq!(graph.input_nodes(3), vec![1, 2, 0]);
    assert_eq!(graph.input_nodes(2), vec![0]);
    assert_eq!(graph.input_nodes(1), vec![]);
}

#[test]
fn order_leads_forward() {
    let graph = graph(5, vec![edge(0, 4, 1), edge(1, 1, 0), edge(2, 3, 0), edge(3, 0, 2)]);
    let order = graph.topological_order().unwrap();
    let at = |node| order.iter().position(|&other| other == node).unwrap();
    assert_eq!(order.len(), 5);
    for edge in &graph.edges {
        assert!(at(edge.source) < at(edge.target));
    }
    assert_eq!(self::graph(2, vec![edge(0, 0, 1), edge(1, 1, 0)]).topological_order(), None);
    assert_eq!(self::graph(1, vec![edge(0, 0, 0)]).topological_order(), None);
}

#[test]
fn later_output_of_one_number_wins() {
    let graph: LlirGraph<()> = LlirGraph {
        nodes: vec![
            GraphNode::Input { hlir: 5, dtype: DType::Bool },
            GraphNode::Input { hlir: 6, dtype: DType::I8 },
            GraphNode::Output { hlir: 9 },
            GraphNode::Output { hlir: 9 },
            GraphNode::Output { hlir: 8 },
        ],
        edges: vec![edge(0, 0, 2), edge(1, 1, 3)],
    };
    let order = vec![0, 1, 4, 3, 2];
    let outputs = graph.collect_outputs(&order);
    assert_eq!(outputs.len(), 1);
    assert_eq!(outputs[&9], 0);
    let inputs = graph.collect_inputs();
    assert_eq!((inputs.len(), inputs[&0], inputs[&1]), (2, 5, 6));
    assert_eq!(graph.input_dtype(6), Some(DType::I8));
    assert_eq!(graph.input_dtype(9), None);
}

#[test]
fn numbers_are_written_out() {
    assert_eq!(decimal(0), "0");
    assert_eq!(decimal(u64::MAX), "18446744073709551615");
    assert_eq!(signed_decimal(i32::MIN), "-2147483648");
    assert_eq!(hex_word(0xbeef), "0000beef");
}

#[test]
fn element_sizes() {
    assert_eq!(DType::F32.element_bytes(), 4);
    assert_eq!(DType::F16.element_bytes(), 2);
    assert_eq!(DType::Int.element_bytes(), 4);
    assert_eq!(DType::Bool.element_bytes(), 1);
    assert_eq!(DType::I8.element_bytes(), 1);
}
