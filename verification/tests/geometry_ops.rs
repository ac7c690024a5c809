use vision_ocr::geometry::{BoundingBox, OptPoint, Point};

fn vertex(x: i64, y: i64) -> OptPoint {
    OptPoint { x: Some(x), y: Some(y) }
}

#[test]
fn measurements_of_an_upright_box() {
    // Service order: 0 top-left, 1 top-right, 2 bottom-right, 3 bottom-left.
    // The index-3-minus-index-1 formula then gives a negative width for an
    // upright box; that is surfaced, not clamped.
    let b = BoundingBox {
        vertices: vec![vertex(10, 20), vertex(110, 20), vertex(110, 70), vertex(10, 70)],
    };
    assert_eq!(b.left_top(), Point { x: 110, y: 20 });
    assert_eq!(b.width(), -100);
    assert_eq!(b.height(), 50);
}

#[test]
fn measurements_follow_the_service_vertex_order() {
    // Vertex 3 down-and-right of vertex 1: both measurements non-negative.
    let b = BoundingBox {
        vertices: vec![vertex(0, 0), vertex(10, 20), vertex(0, 0), vertex(30, 50)],
    };
    assert_eq!(b.left_top(), Point { x: 10, y: 20 });
    assert!(b.width() >= 0);
    assert!(b.height() >= 0);
    assert_eq!(b.width(), 20);
    assert_eq!(b.height(), 30);
}

#[test]
fn left_top_works_with_other_vertices_incomplete() {
    let b = BoundingBox {
        vertices: vec![
            OptPoint { x: None, y: None },
            vertex(5, 6),
            OptPoint { x: None, y: Some(1) },
            OptPoint { x: Some(2), y: None },
        ],
    };
    assert_eq!(b.left_top(), Point { x: 5, y: 6 });
}
