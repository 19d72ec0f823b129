use radiant_core::Point;
use radiant_core::Rect;
use radiant_core::geometry::compute_bounds;
use radiant_core::geometry::covers_point;
use radiant_core::geometry::make_path_points;

#[test]
fn bounds_of_generated_polygon() {
    let pts = make_path_points(Point { x: 10, y: 10 }, Point { x: 100, y: 100 }, 1);
    assert_eq!(pts.len(), 4);
    assert_eq!(pts[0], Point { x: 10, y: 10 });
    assert_eq!(pts[1], Point { x: 110, y: 310 });
    assert_eq!(pts[2], Point { x: 110, y: 510 });
    assert_eq!(pts[3], Point { x: -190, y: 210 });
    let rect = compute_bounds(&pts);
    assert_eq!(
        rect,
        Rect {
            min_x: -190,
            min_y: 10,
            max_x: 110,
            max_y: 510
        }
    );
}

#[test]
fn coverage_of_a_square() {
    let square = vec![
        Point { x: 0, y: 0 },
        Point { x: 10, y: 0 },
        Point { x: 10, y: 10 },
        Point { x: 0, y: 10 },
    ];
    assert!(covers_point(&square, Point { x: 5, y: 5 }));
    // Vertices and edges count as covered.
    assert!(covers_point(&square, Point { x: 0, y: 0 }));
    assert!(covers_point(&square, Point { x: 10, y: 5 }));
    // Outside, even within one coordinate range.
    assert!(!covers_point(&square, Point { x: 11, y: 5 }));
    assert!(!covers_point(&square, Point { x: -1, y: 0 }));
}

#[test]
fn degenerate_polygons_stay_well_defined() {
    // A polygon collapsed to one point covers exactly that point.
    let dot = vec![
        Point { x: 3, y: 4 },
        Point { x: 3, y: 4 },
        Point { x: 3, y: 4 },
    ];
    assert!(covers_point(&dot, Point { x: 3, y: 4 }));
    assert!(!covers_point(&dot, Point { x: 3, y: 5 }));
    // A polygon collapsed to a segment covers points on the segment.
    let line = vec![
        Point { x: 0, y: 0 },
        Point { x: 10, y: 0 },
        Point { x: 4, y: 0 },
    ];
    assert!(covers_point(&line, Point { x: 7, y: 0 }));
    assert!(!covers_point(&line, Point { x: 7, y: 1 }));
    // Fewer than three vertices never cover anything.
    let pair = vec![Point { x: 0, y: 0 }, Point { x: 10, y: 10 }];
    assert!(!covers_point(&pair, Point { x: 5, y: 5 }));
}
