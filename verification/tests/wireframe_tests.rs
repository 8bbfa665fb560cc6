use aabb_sweep::wireframe::{shown_vertices, wireframe_edges, SUM1_HIDDEN, SUM1_LEN, SUM2_HIDDEN, SUM2_LEN};

#[test]
fn reduced_first_sum_shows_far_corner_before_and_after_motion() {
    assert_eq!(shown_vertices(SUM1_LEN, &SUM1_HIDDEN), vec![2, 6]);
}

#[test]
fn reduced_second_sum_shows_the_useful_points() {
    assert_eq!(
        shown_vertices(SUM2_LEN, &SUM2_HIDDEN),
        vec![2, 6, 11, 15, 16, 20, 25, 29]
    );
}

#[test]
fn nothing_hidden_shows_every_point() {
    assert_eq!(shown_vertices(5, &[]), vec![0, 1, 2, 3, 4]);
    assert_eq!(shown_vertices(0, &[1, 2]), Vec::<usize>::new());
}

#[test]
fn hidden_indices_beyond_the_bound_change_nothing() {
    assert_eq!(shown_vertices(4, &[1, 9, 40]), vec![0, 2, 3]);
}

#[test]
fn full_first_wireframe_joins_every_pair() {
    let edges = wireframe_edges(SUM1_LEN, &[]);
    assert_eq!(edges.len(), 64);
    assert_eq!(edges[0], (0, 0));
    assert_eq!(edges[1], (0, 1));
    assert_eq!(edges[8], (1, 0));
    assert_eq!(edges[63], (7, 7));
    for i in 0..8 {
        for j in 0..8 {
            assert_eq!(edges[i * 8 + j], (i, j));
        }
    }
}

#[test]
fn full_second_wireframe_has_every_pair() {
    let edges = wireframe_edges(SUM2_LEN, &[]);
    assert_eq!(edges.len(), 1024);
    assert_eq!(edges[33], (1, 1));
    assert_eq!(edges[1023], (31, 31));
}

#[test]
fn reduced_first_wireframe() {
    assert_eq!(
        wireframe_edges(SUM1_LEN, &SUM1_HIDDEN),
        vec![(2, 2), (2, 6), (6, 2), (6, 6)]
    );
}

#[test]
fn reduced_second_wireframe_joins_only_useful_points() {
    let edges = wireframe_edges(SUM2_LEN, &SUM2_HIDDEN);
    let useful = [2, 6, 11, 15, 16, 20, 25, 29];
    assert_eq!(edges.len(), 64);
    for (a, &i) in useful.iter().enumerate() {
        for (b, &j) in useful.iter().enumerate() {
            assert_eq!(edges[a * 8 + b], (i, j));
        }
    }
    for &(i, j) in &edges {
        assert!(!SUM2_HIDDEN.contains(&i) && !SUM2_HIDDEN.contains(&j));
    }
}

#[test]
fn empty_wireframe() {
    assert!(wireframe_edges(0, &[]).is_empty());
    assert!(wireframe_edges(3, &[0, 1, 2]).is_empty());
}
