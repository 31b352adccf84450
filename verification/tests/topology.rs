use scene3d::topology::{quad_strip_indices, triangle_fan_indices};

#[test]
fn fan_indices_of_seven_vertices() {
    assert_eq!(
        triangle_fan_indices(7),
        vec![0, 1, 2, 0, 2, 3, 0, 3, 4, 0, 4, 5, 0, 5, 6]
    );
}

#[test]
fn fan_indices_of_three_vertices_are_one_triangle() {
    assert_eq!(triangle_fan_indices(3), vec![0, 1, 2]);
}

#[test]
fn fan_indices_of_four_vertices() {
    assert_eq!(triangle_fan_indices(4), vec![0, 1, 2, 0, 2, 3]);
}

#[test]
fn fan_indices_below_three_vertices_are_empty() {
    assert!(triangle_fan_indices(0).is_empty());
    assert!(triangle_fan_indices(1).is_empty());
    assert!(triangle_fan_indices(2).is_empty());
}

#[test]
fn fan_has_n_minus_two_triangles() {
    for n in 3..200usize {
        let indices = triangle_fan_indices(n);
        assert_eq!(indices.len(), 3 * (n - 2));
    }
}

#[test]
fn fan_triangles_share_the_apex_and_walk_the_rim() {
    for n in 3..60usize {
        let indices = triangle_fan_indices(n);
        for (t, corner) in indices.chunks(3).enumerate() {
            assert_eq!(corner[0], 0);
            assert_eq!(corner[1] as usize, t + 1);
            assert_eq!(corner[2] as usize, t + 2);
            assert!(1 <= corner[1] && corner[1] < corner[2]);
            assert!((corner[2] as usize) <= n - 1);
        }
    }
}

#[test]
fn strip_indices_of_four_vertices_are_one_quad() {
    assert_eq!(quad_strip_indices(4), vec![0, 1, 2, 1, 2, 3]);
}

#[test]
fn strip_indices_of_six_vertices_are_two_quads() {
    assert_eq!(
        quad_strip_indices(6),
        vec![0, 1, 2, 1, 2, 3, 2, 3, 4, 3, 4, 5]
    );
}

#[test]
fn strip_indices_below_two_pairs_are_empty() {
    assert!(quad_strip_indices(0).is_empty());
    assert!(quad_strip_indices(1).is_empty());
    assert!(quad_strip_indices(2).is_empty());
    assert!(quad_strip_indices(3).is_empty());
}

#[test]
fn strip_ignores_a_trailing_unpaired_vertex() {
    assert_eq!(quad_strip_indices(5), quad_strip_indices(4));
    assert_eq!(quad_strip_indices(7), quad_strip_indices(6));
    assert_eq!(quad_strip_indices(15), quad_strip_indices(14));
    assert!(quad_strip_indices(15).iter().all(|&i| i < 14));
}

#[test]
fn strip_has_two_triangles_per_quad() {
    for k in 2..100usize {
        let indices = quad_strip_indices(2 * k);
        assert_eq!(indices.len(), 3 * 2 * (k - 1));
        assert!(indices.iter().all(|&i| (i as usize) < 2 * k));
    }
}

#[test]
fn strip_quads_start_at_even_vertices() {
    for k in 2..40usize {
        let indices = quad_strip_indices(2 * k);
        for (i, quad) in indices.chunks(6).enumerate() {
            let s = (2 * i) as u32;
            assert_eq!(quad, &[s, s + 1, s + 2, s + 1, s + 2, s + 3][..]);
        }
    }
}

#[test]
fn strip_triangle_j_joins_three_consecutive_vertices() {
    let indices = quad_strip_indices(20);
    for (j, corner) in indices.chunks(3).enumerate() {
        let j = j as u32;
        assert_eq!(corner, &[j, j + 1, j + 2][..]);
    }
}
