use graphdrs::geometry::Point;
use graphdrs::graph_drawer::{Color, DrawableLabel};
use graphdrs::graph::Graph;
use graphdrs::graph_drawer::{DrawConfig, DrawableGraph};
use graphdrs::graph_interface::GraphInterface;
use graphdrs::svg_writer::{SVGItem, SVGWriter, SVGWriterError};

#[test]
fn test_black() {
    let black = Color::new(0, 0, 0, 255);
    assert_eq!(black.to_svg_string(), "#000000");
}

#[test]
fn test_white() {
    let white = Color::new(255, 255, 255, 255);
    assert_eq!(white.to_svg_string(), "#FFFFFF");
}

#[test]
fn test_red() {
    let red = Color::new(255, 0, 0, 255);
    assert_eq!(red.to_svg_string(), "#FF0000");
}

#[test]
fn test_green() {
    let green = Color::new(0, 255, 0, 255);
    assert_eq!(green.to_svg_string(), "#00FF00");
}

#[test]
fn test_blue() {
    let blue = Color::new(0, 0, 255, 255);
    assert_eq!(blue.to_svg_string(), "#0000FF");
}

#[test]
fn test_label() {
    let label = DrawableLabel {
        content: "test label".to_string(),
        position: Point { x: 0, y: 0 },
        size: 10,
        color: Color::new(255, 255, 255, 255),
    };

    let string = r##"<text x="0" y="0" fill="#FFFFFF">test label</text>"##.to_string();
    assert_eq!(label.to_svg_string(), string);
}

#[test]
fn test_writer_protocol() {
    let mut writer = SVGWriter::new();
    assert_eq!(
        writer.add_item(&"x".to_string()),
        Err(SVGWriterError::MissingHeader)
    );
    assert_eq!(writer.finalise(), Err(SVGWriterError::MissingHeader));

    assert_eq!(writer.write_header(400, 300), Ok(()));
    assert_eq!(
        writer.write_header(400, 300),
        Err(SVGWriterError::AlreadyHasHeader)
    );

    assert_eq!(writer.add_item(&"<g/>".to_string()), Ok(()));
    assert_eq!(writer.finalise(), Ok(()));
    assert_eq!(writer.finalise(), Err(SVGWriterError::AlreadyFinalised));
    assert_eq!(
        writer.add_item(&"<g/>".to_string()),
        Err(SVGWriterError::AlreadyFinalised)
    );
}

#[test]
fn test_writer_document() {
    let mut writer = SVGWriter::new();
    writer.write_header(400, 300).unwrap();
    writer.add_item(&"hello\nworld".to_string()).unwrap();
    writer.finalise().unwrap();

    let expected = "<?xml version=\"1.0\" encoding=\"UTF-8\" standalone=\"no\"?>\n<!-- Created with GraphDrs -->\n\n<svg\n    viewBox=\"0 0 400 300\"\n    version=\"1.1\"\n    xmlns=\"http://www.w3.org/2000/svg\">\n    hello\n    world\n</svg>\n";
    assert_eq!(writer.svg_content(), expected);
}

#[test]
fn test_unexpected_indentation_level() {
    // A writer whose nesting was never opened (no header lines were
    // emitted) refuses to finalise away from the top level.
    let mut writer = SVGWriter {
        svg_string: Vec::new(),
        indentation_level: 0,
        indentation_size: 4,
        has_header: true,
        finalised: false,
    };
    assert_eq!(
        writer.finalise(),
        Err(SVGWriterError::UnexpectedIndentationLevel { expected: 1, found: 0 })
    );
}

#[test]
fn test_drawing_renders_into_document() {
    let mut graph = Graph::new(2);
    graph.edges.push((0, 1));
    let layout = vec![
        graphdrs::geometry::Point { x: 10, y: 10 },
        graphdrs::geometry::Point { x: 90, y: 10 },
    ];
    let embedding = GraphInterface::new(&graph, &layout, 100, 100);
    let drawable = DrawableGraph::compose(&embedding, &DrawConfig::default());

    let mut writer = SVGWriter::new();
    writer.write_header(100, 100).unwrap();
    writer.add_item(&drawable).unwrap();
    writer.finalise().unwrap();
    let document = writer.svg_content();
    assert!(document.contains("<line x1=\"10\" y1=\"10\" x2=\"90\" y2=\"10\""));
    assert!(document.contains("<circle cx=\"10\" cy=\"10\" r=\"17\""));
    assert!(document.ends_with("</svg>\n"));
}
