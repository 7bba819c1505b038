use graphdrs::graph::{
    encode_graph6, graph6_number_of_vertices, parse_graph6_string, Graph, Graph6ParseError,
};

#[test]
fn test_parse_single_edge() {
    // 'A' encodes two vertices; '_' carries a set leading bit: the edge (0, 1).
    let graph = parse_graph6_string("A_").unwrap();
    assert_eq!(graph.vertices, 2);
    assert_eq!(graph.edges, vec![(0, 1)]);
}

#[test]
fn test_parse_triangle() {
    // The classic encoding of the complete graph on three vertices.
    let graph = parse_graph6_string("Bw").unwrap();
    assert_eq!(graph.vertices, 3);
    assert_eq!(graph.edges, vec![(0, 1), (0, 2), (1, 2)]);
}

#[test]
fn test_empty_string_is_rejected() {
    assert_eq!(
        parse_graph6_string("").unwrap_err(),
        Graph6ParseError::EmptyString
    );
    assert_eq!(
        graph6_number_of_vertices("").unwrap_err(),
        Graph6ParseError::EmptyString
    );
}

#[test]
fn test_zero_vertices_decode_to_empty_graph() {
    // '?' is the size byte for zero vertices.
    let graph = parse_graph6_string("?").unwrap();
    assert_eq!(graph.vertices, 0);
    assert_eq!(graph.edges, vec![]);
}

#[test]
fn test_oversized_graph_is_rejected() {
    // '~' asks for an extended size, which is not supported.
    assert_eq!(
        parse_graph6_string("~~").unwrap_err(),
        Graph6ParseError::UnsupportedGraphSize { supported_size: 62 }
    );
}

#[test]
fn test_invalid_start_character() {
    assert_eq!(
        parse_graph6_string(" ").unwrap_err(),
        Graph6ParseError::InvalidStartCharacter(' ')
    );
}

#[test]
fn test_escape_prefix() {
    // The ten-byte escape header shifts the size byte.
    let graph = parse_graph6_string(">>graph6<<A_").unwrap();
    assert_eq!(graph.vertices, 2);
    assert_eq!(graph.edges, vec![(0, 1)]);
}

#[test]
fn test_truncated_escape_prefix() {
    assert_eq!(
        parse_graph6_string(">>graph6<<").unwrap_err(),
        Graph6ParseError::UnexpectedStringEnd
    );
}

#[test]
fn test_round_trip_small_graph() {
    let mut graph = Graph::new(5);
    graph.edges.push((0, 1));
    graph.edges.push((2, 4));
    graph.edges.push((1, 3));

    let encoded = encode_graph6(&graph);
    let decoded = parse_graph6_string(&encoded).unwrap();
    assert_eq!(decoded.vertices, 5);
    // Decoding walks the triangle in order, so the set comes back sorted by
    // walk position.
    assert_eq!(decoded.edges, vec![(0, 1), (1, 3), (2, 4)]);
}

#[test]
fn test_round_trip_empty_graph() {
    let graph = Graph::new(0);
    let encoded = encode_graph6(&graph);
    assert_eq!(encoded, "?");
    let decoded = parse_graph6_string(&encoded).unwrap();
    assert_eq!(decoded.vertices, 0);
    assert_eq!(decoded.edges, vec![]);
}

#[test]
fn test_round_trip_complete_graph() {
    let mut graph = Graph::new(4);
    for u in 0..4usize {
        for v in (u + 1)..4usize {
            graph.edges.push((u, v));
        }
    }
    let decoded = parse_graph6_string(&encode_graph6(&graph)).unwrap();
    assert_eq!(decoded.vertices, 4);
    assert_eq!(
        decoded.edges,
        vec![(0, 1), (0, 2), (1, 2), (0, 3), (1, 3), (2, 3)]
    );
}

#[test]
fn test_round_trip_normalizes_duplicates_and_order() {
    // Duplicate edges and reversed endpoint pairs collapse onto the same
    // adjacency bits.
    let mut graph = Graph::new(4);
    graph.edges.push((3, 0));
    graph.edges.push((0, 3));
    graph.edges.push((0, 3));
    let decoded = parse_graph6_string(&encode_graph6(&graph)).unwrap();
    assert_eq!(decoded.edges, vec![(0, 3)]);
}

#[test]
fn test_escape_prefix_with_bad_size_byte() {
    // A size byte below the printable offset (reachable only behind the
    // escape header) is reported as an invalid character.
    assert_eq!(
        parse_graph6_string(">>graph6<<=").unwrap_err(),
        Graph6ParseError::InvalidStartCharacter('=')
    );
}

#[test]
fn test_encode_triangle_exactly() {
    let mut graph = Graph::new(3);
    graph.edges.push((0, 1));
    graph.edges.push((0, 2));
    graph.edges.push((1, 2));
    assert_eq!(encode_graph6(&graph), "Bw");
}
