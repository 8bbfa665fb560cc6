use aabb_sweep::sweep::{quadrant_of, sweep_region, BoxPoints, Quadrant, Sign, SweepRegion, TrianglePoints};
use aabb_sweep::wireframe::{shown_vertices, SUM2_HIDDEN, SUM2_LEN};

#[test]
fn quadrants_of_ordered_headings() {
    assert_eq!(quadrant_of(Sign::NonPositive, Sign::NonPositive), Some(Quadrant::NorthWest));
    assert_eq!(quadrant_of(Sign::Positive, Sign::NonPositive), Some(Quadrant::NorthEast));
    assert_eq!(quadrant_of(Sign::Positive, Sign::Positive), Some(Quadrant::SouthEast));
    assert_eq!(quadrant_of(Sign::NonPositive, Sign::Positive), Some(Quadrant::SouthWest));
}

#[test]
fn unordered_heading_has_no_quadrant() {
    for s in [Sign::Positive, Sign::NonPositive, Sign::Unordered] {
        assert_eq!(quadrant_of(Sign::Unordered, s), None);
        assert_eq!(quadrant_of(s, Sign::Unordered), None);
    }
}

#[test]
fn north_west_region() {
    assert_eq!(
        sweep_region(Quadrant::NorthWest),
        SweepRegion {
            bounds: BoxPoints { left: 20, top: 20, right: 2, bottom: 2 },
            cut_first: TrianglePoints { first: 11, second: 15, corner_x: 15, corner_y: 11 },
            cut_second: TrianglePoints { first: 29, second: 25, corner_x: 25, corner_y: 29 },
        }
    );
}

#[test]
fn north_east_region() {
    assert_eq!(
        sweep_region(Quadrant::NorthEast),
        SweepRegion {
            bounds: BoxPoints { left: 11, top: 29, right: 29, bottom: 11 },
            cut_first: TrianglePoints { first: 2, second: 6, corner_x: 6, corner_y: 2 },
            cut_second: TrianglePoints { first: 16, second: 20, corner_x: 16, corner_y: 20 },
        }
    );
}

#[test]
fn south_east_region() {
    assert_eq!(
        sweep_region(Quadrant::SouthEast),
        SweepRegion {
            bounds: BoxPoints { left: 16, top: 16, right: 6, bottom: 6 },
            cut_first: TrianglePoints { first: 15, second: 11, corner_x: 11, corner_y: 15 },
            cut_second: TrianglePoints { first: 29, second: 25, corner_x: 29, corner_y: 25 },
        }
    );
}

#[test]
fn south_west_region() {
    assert_eq!(
        sweep_region(Quadrant::SouthWest),
        SweepRegion {
            bounds: BoxPoints { left: 15, top: 25, right: 25, bottom: 15 },
            cut_first: TrianglePoints { first: 6, second: 2, corner_x: 2, corner_y: 6 },
            cut_second: TrianglePoints { first: 20, second: 16, corner_x: 20, corner_y: 16 },
        }
    );
}

#[test]
fn regions_read_only_shown_points() {
    let shown = shown_vertices(SUM2_LEN, &SUM2_HIDDEN);
    for q in [Quadrant::NorthWest, Quadrant::NorthEast, Quadrant::SouthEast, Quadrant::SouthWest] {
        let r = sweep_region(q);
        for p in [
            r.bounds.left, r.bounds.top, r.bounds.right, r.bounds.bottom,
            r.cut_first.first, r.cut_first.second, r.cut_first.corner_x, r.cut_first.corner_y,
            r.cut_second.first, r.cut_second.second, r.cut_second.corner_x, r.cut_second.corner_y,
        ] {
            assert!(shown.contains(&p));
        }
    }
}

#[test]
fn region_boxes_span_two_points_and_corners_mix_them() {
    for q in [Quadrant::NorthWest, Quadrant::NorthEast, Quadrant::SouthEast, Quadrant::SouthWest] {
        let r = sweep_region(q);
        let b = r.bounds;
        assert!((b.left == b.top && b.right == b.bottom && b.left != b.right)
            || (b.left == b.bottom && b.top == b.right && b.left != b.top));
        for t in [r.cut_first, r.cut_second] {
            assert_ne!(t.first, t.second);
            assert!((t.corner_x == t.first && t.corner_y == t.second)
                || (t.corner_x == t.second && t.corner_y == t.first));
        }
    }
}
