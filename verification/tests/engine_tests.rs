use graphdrs::geometry::Point;
use graphdrs::graph::Graph;
use graphdrs::graph_drawer::{DrawConfig, DrawableGraph};
use graphdrs::graph_interface::{DrawState, GraphInterface, VertexProperties};
use graphdrs::grid::{CircleGrid, SquareGrid};

fn p(x: i64, y: i64) -> Point {
    Point { x, y }
}

fn demo_graph() -> Graph {
    let mut graph = Graph::new(4);
    graph.edges.push((0, 1));
    graph.edges.push((1, 2));
    graph.edges.push((2, 3));
    graph.edges.push((0, 3));
    graph.edges.push((1, 3));
    graph
}

fn demo_embedding() -> (Graph, GraphInterface) {
    let graph = demo_graph();
    let layout = vec![p(100, 20), p(180, 100), p(100, 180), p(20, 100)];
    let embedding = GraphInterface::new(&graph, &layout, 400, 300);
    (graph, embedding)
}

#[test]
fn test_update_edges_keeps_positions() {
    let (_, mut embedding) = demo_embedding();
    let before: Vec<Point> = (0..4).map(|i| embedding.get_position(i)).collect();

    let mut new_graph = Graph::new(4);
    new_graph.edges.push((0, 2));
    new_graph.edges.push((1, 3));
    embedding.update_edges(&new_graph);

    for i in 0..4 {
        assert_eq!(embedding.get_position(i), before[i]);
    }
    assert_eq!(embedding.edge_properties.len(), 2);
    assert_eq!(embedding.edge_properties[0].vertices, (0, 2));
    assert_eq!(embedding.edge_properties[1].vertices, (1, 3));

    // The freshly derived edge states are never hidden, so the composed
    // drawing shows exactly the new edge count.
    let drawable = DrawableGraph::compose(&embedding, &DrawConfig::default());
    assert_eq!(drawable.edges.len(), 2);
}

#[test]
fn test_vertex_at_exact_position_is_hit() {
    let (_, embedding) = demo_embedding();
    assert_eq!(embedding.get_vertex_at_position(p(100, 20)), Some(0));
    assert_eq!(embedding.get_vertex_at_position(p(180, 100)), Some(1));
    assert_eq!(embedding.get_vertex_at_position(p(250, 250)), None);
}

#[test]
fn test_vertex_at_prefers_lowest_index() {
    let graph = Graph::new(2);
    let layout = vec![p(50, 50), p(55, 50)];
    let embedding = GraphInterface::new(&graph, &layout, 400, 300);
    // Both hit radii (17) cover the midpoint; the lower index wins.
    assert_eq!(embedding.get_vertex_at_position(p(52, 50)), Some(0));
}

#[test]
fn test_edge_at_uses_line_distance() {
    let mut graph = Graph::new(2);
    graph.edges.push((0, 1));
    let layout = vec![p(0, 0), p(100, 0)];
    let embedding = GraphInterface::new(&graph, &layout, 400, 300);

    // Between the vertex discs, near the segment.
    assert_eq!(embedding.get_edge_at_position(p(50, 3)), Some(0));
    // Too far from the line.
    assert_eq!(embedding.get_edge_at_position(p(50, 8)), None);
    // Beyond the segment's end but inside the padded bounding box and close
    // to the infinite line: still a hit (the documented line-test quirk).
    assert_eq!(embedding.get_edge_at_position(p(103, 0)), Some(0));
    // Outside the bounding box.
    assert_eq!(embedding.get_edge_at_position(p(120, 0)), None);
}

#[test]
fn test_set_position_grows_with_defaults() {
    let (_, mut embedding) = demo_embedding();
    embedding.set_position(6, p(70, 70));
    assert_eq!(embedding.vertex_properties.len(), 7);
    assert_eq!(embedding.get_position(6), p(70, 70));
    // The gap entries take the default state.
    assert_eq!(embedding.get_position(5), p(0, 0));
    assert_eq!(embedding.vertex_properties[5].draw_state, DrawState::Default);
    // Out-of-range lookups return the zero sentinel.
    assert_eq!(embedding.get_position(100), p(0, 0));
}

#[test]
fn test_history_bounds() {
    let (_, mut embedding) = demo_embedding();

    // Backward in an empty history: a no-op.
    embedding.set_previous_highlighting();
    assert_eq!(embedding.current_highlight_graph, None);

    let mut sets = Vec::new();
    for edge in [(0usize, 1usize), (1, 2), (2, 3)] {
        let mut set = Graph::new(4);
        set.edges.push(edge);
        sets.push(set);
    }
    for set in sets {
        embedding.set_edge_highlighting_and_add_to_history(set);
    }
    assert_eq!(embedding.get_history_size(), 3);
    assert_eq!(embedding.current_highlight_graph, Some(2));

    // Forward at the last entry: a no-op.
    embedding.set_next_highlighting();
    assert_eq!(embedding.current_highlight_graph, Some(2));

    embedding.set_previous_highlighting();
    assert_eq!(embedding.current_highlight_graph, Some(1));
    assert_eq!(embedding.edge_properties[1].draw_state, DrawState::Highlighted);
    assert_eq!(embedding.edge_properties[0].draw_state, DrawState::Default);

    embedding.set_previous_highlighting();
    assert_eq!(embedding.current_highlight_graph, Some(0));
    // Backward at the first entry: a no-op.
    embedding.set_previous_highlighting();
    assert_eq!(embedding.current_highlight_graph, Some(0));

    // From an unset cursor, exactly three forward steps reach the last of
    // the three recorded sets.
    embedding.clear_edge_highlighting();
    assert_eq!(embedding.current_highlight_graph, None);
    embedding.set_next_highlighting();
    embedding.set_next_highlighting();
    embedding.set_next_highlighting();
    assert_eq!(embedding.current_highlight_graph, Some(2));
    assert_eq!(embedding.edge_properties[2].draw_state, DrawState::Highlighted);
}

#[test]
fn test_draw_state_cycle_returns_after_four() {
    let mut vp = VertexProperties::default();
    assert_eq!(vp.draw_state, DrawState::Default);
    vp.cycle_drawstate();
    assert_eq!(vp.draw_state, DrawState::Highlighted);
    vp.cycle_drawstate();
    assert_eq!(vp.draw_state, DrawState::Unhighlighted);
    vp.cycle_drawstate();
    assert_eq!(vp.draw_state, DrawState::Hidden);
    vp.cycle_drawstate();
    assert_eq!(vp.draw_state, DrawState::Default);
}

#[test]
fn test_hidden_vertex_composition() {
    let (_, mut embedding) = demo_embedding();
    let config = DrawConfig::default();

    embedding.vertex_properties[2].draw_state = DrawState::Hidden;
    let drawable = DrawableGraph::compose(&embedding, &config);
    assert_eq!(drawable.vertices.len(), 3);
    assert!(drawable.vertices.iter().all(|v| v.position != p(100, 180)));

    // Hovering the hidden vertex makes it reappear.
    embedding.hovered_vertex = Some(2);
    let drawable = DrawableGraph::compose(&embedding, &config);
    assert_eq!(drawable.vertices.len(), 4);
    assert!(drawable.vertices.iter().any(|v| v.position == p(100, 180)));
}

#[test]
fn test_compose_orders_vertices_in_reverse() {
    let (_, embedding) = demo_embedding();
    let drawable = DrawableGraph::compose(&embedding, &DrawConfig::default());
    assert_eq!(drawable.vertices.len(), 4);
    // Vertex 3 is emitted first, vertex 0 last (so it paints on top).
    assert_eq!(drawable.vertices[0].position, p(20, 100));
    assert_eq!(drawable.vertices[3].position, p(100, 20));
    // Default config labels vertices one-indexed.
    assert_eq!(
        drawable.vertices[3].label.as_ref().unwrap().content,
        "1"
    );
    assert_eq!(drawable.edges.len(), 5);
    assert_eq!(drawable.edges[0].start, p(100, 20));
    assert_eq!(drawable.edges[0].end, p(180, 100));
}

#[test]
fn test_integrator_clamps_to_canvas() {
    let graph = Graph::new(1);
    let layout = vec![p(50, 40)];
    let mut embedding = GraphInterface::new(&graph, &layout, 100, 80);
    embedding.apply_forces(&vec![p(1_000_000, -1_000_000)]);
    assert_eq!(embedding.get_position(0), p(100, 0));
}

#[test]
fn test_integrator_skips_mismatched_lengths() {
    let (_, mut embedding) = demo_embedding();
    let before: Vec<Point> = (0..4).map(|i| embedding.get_position(i)).collect();
    embedding.apply_forces(&vec![p(10, 10)]);
    for i in 0..4 {
        assert_eq!(embedding.get_position(i), before[i]);
    }
}

#[test]
fn test_dragged_vertex_exempt_from_forces() {
    let (_, mut embedding) = demo_embedding();
    let start = embedding.get_position(0);
    embedding.dragged_vertex = Some(0);
    embedding.apply_forces(&vec![p(10, 10); 4]);
    assert_eq!(embedding.get_position(0), start);
    assert_eq!(embedding.get_position(1), p(190, 110));
}

#[test]
fn test_click_cycles_hovered_vertex() {
    let (_, mut embedding) = demo_embedding();
    let at_vertex = p(100, 20);
    // Press and quickly release on vertex 0: a click, which cycles it.
    embedding.handle_mouse_input(true, at_vertex, 1000);
    assert_eq!(embedding.hovered_vertex, Some(0));
    embedding.handle_mouse_input(false, at_vertex, 1050);
    assert_eq!(embedding.vertex_properties[0].draw_state, DrawState::Highlighted);
}

#[test]
fn test_drag_translates_vertex() {
    let (_, mut embedding) = demo_embedding();
    let at_vertex = p(100, 20);
    embedding.handle_mouse_input(true, at_vertex, 0);
    // Held past the duration threshold: the press becomes a drag.
    embedding.handle_mouse_input(true, at_vertex, 200);
    assert_eq!(embedding.dragged_vertex, Some(0));
    // Each further sample translates by the pointer delta.
    embedding.handle_mouse_input(true, p(130, 25), 250);
    assert_eq!(embedding.get_position(0), p(130, 25));
    // Release ends the drag without a click (too long).
    embedding.handle_mouse_input(false, p(130, 25), 300);
    assert_eq!(embedding.dragged_vertex, None);
    assert_eq!(embedding.vertex_properties[0].draw_state, DrawState::Default);
}

#[test]
fn test_force_pairs_enumeration() {
    let mut graph = Graph::new(3);
    graph.edges.push((0, 1));
    let layout = vec![p(0, 0), p(10, 0), p(0, 10)];
    let embedding = GraphInterface::new(&graph, &layout, 400, 300);

    let pairs = embedding.force_pairs(&graph);
    assert_eq!(pairs.len(), 6);
    assert_eq!((pairs[0].main, pairs[0].secondary), (0, 1));
    assert!(pairs[0].connected);
    assert_eq!(pairs[0].delta, p(10, 0));
    assert_eq!((pairs[1].main, pairs[1].secondary), (0, 2));
    assert!(!pairs[1].connected);
    assert_eq!((pairs[2].main, pairs[2].secondary), (1, 0));
    assert!(pairs[2].connected);
    assert_eq!((pairs[5].main, pairs[5].secondary), (2, 1));
}

#[test]
fn test_apply_force_sums_pair_forces() {
    let graph = Graph::new(2);
    let layout = vec![p(50, 50), p(60, 60)];
    let mut embedding = GraphInterface::new(&graph, &layout, 400, 300);
    // One pair force per ordered pair: (0,1) and (1,0).
    embedding.apply_force(&graph, &vec![p(5, -3), p(-2, 4)]);
    assert_eq!(embedding.get_position(0), p(55, 47));
    assert_eq!(embedding.get_position(1), p(58, 64));
}

#[test]
fn test_square_grid_alignment_pulls_to_intersection() {
    let graph = Graph::new(1);
    let layout = vec![p(12, 10)];
    let mut embedding = GraphInterface::new(&graph, &layout, 400, 300);
    let grid = SquareGrid::new(10, 10);
    // Nearest intersection (10, 10): distance 2, mean spacing 10, so the
    // parabolic force moves the vertex one pixel toward it.
    embedding.align_to_square_grid(&grid);
    assert_eq!(embedding.get_position(0), p(11, 10));
}

#[test]
fn test_square_grid_alignment_fixpoint_on_grid() {
    let graph = Graph::new(1);
    let layout = vec![p(30, 20)];
    let mut embedding = GraphInterface::new(&graph, &layout, 400, 300);
    let mut grid = SquareGrid::new(10, 10);
    grid.set_deltas_square(10);
    embedding.align_to_square_grid(&grid);
    assert_eq!(embedding.get_position(0), p(30, 20));
}

#[test]
fn test_circular_grid_alignment_pulls_to_ring() {
    let graph = Graph::new(1);
    let layout = vec![p(14, 0)];
    let mut embedding = GraphInterface::new(&graph, &layout, 400, 300);
    let grid = CircleGrid::new(10, Point { x: 0, y: 0 });
    // Center distance 14, ring spacing 10: below the half-ring boundary, so
    // the force points inward, toward the ring at radius 10.
    embedding.align_to_circular_grid(&grid);
    assert_eq!(embedding.get_position(0), p(10, 0));
}

#[test]
fn test_grid_setters() {
    let mut grid = SquareGrid::new(30, 40);
    grid.make_square();
    assert_eq!((grid.x_delta, grid.y_delta), (30, 30));
    grid.set_deltas(12, 18);
    grid.set_offsets_from_window(p(100, 90));
    assert_eq!((grid.x_offset, grid.y_offset), (2, 9));
    assert_eq!(grid.delta_avg(), 15);

    let mut circle = CircleGrid::new(30, p(400, 300));
    assert_eq!(circle.center, p(200, 150));
    assert_eq!(circle.max, 400);
    circle.set_r_delta(12);
    circle.set_from_window(p(100, 600));
    assert_eq!(circle.center, p(50, 300));
    assert_eq!(circle.max, 600);
}

#[test]
fn test_compose_edge_labels() {
    let (_, embedding) = demo_embedding();
    let mut config = DrawConfig::default();
    config.edge_config.draw_index = true;
    let drawable = DrawableGraph::compose(&embedding, &config);
    // Edge (1, 3): canonical pairing index 3 * 2 / 2 + 1 = 4, one-indexed 5.
    let label = drawable.edges[4].label.as_ref().unwrap();
    assert_eq!(label.content, "5");

    config.edge_config.zero_indexed = true;
    let drawable = DrawableGraph::compose(&embedding, &config);
    assert_eq!(drawable.edges[4].label.as_ref().unwrap().content, "4");
}

#[test]
fn test_compose_zero_indexed_vertex_labels() {
    let (_, embedding) = demo_embedding();
    let mut config = DrawConfig::default();
    config.vertex_config.zero_indexed = true;
    let drawable = DrawableGraph::compose(&embedding, &config);
    // Reverse emission order: the first drawable is vertex 3.
    assert_eq!(drawable.vertices[0].label.as_ref().unwrap().content, "3");
}
