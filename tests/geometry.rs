use engine::geometry::{check_indices, incident_triangle_counts, Geometry};

fn grid_plane(rows: u32, columns: u32) -> Geometry<(u32, u32)> {
    Geometry::plane(rows, columns, |r, c| (r, c))
}

#[test]
fn unit_plane_has_four_corners_and_two_triangles() {
    let g = grid_plane(1, 1);
    assert_eq!(g.vertices, vec![(0, 0), (0, 1), (1, 0), (1, 1)]);
    assert_eq!(g.indices, vec![0, 2, 3, 0, 3, 1]);
}

#[test]
fn unit_plane_corner_positions() {
    let (w, l) = (2.0f32, 4.0f32);
    let g = Geometry::plane(1, 1, |r, c| (-w / 2.0 + c as f32 * w, 0.0f32, -l / 2.0 + r as f32 * l));
    assert_eq!(
        g.vertices,
        vec![(-1.0, 0.0, -2.0), (1.0, 0.0, -2.0), (-1.0, 0.0, 2.0), (1.0, 0.0, 2.0)]
    );
    // Seen from above (+y), each triangle turns counter-clockwise in the x-z plane.
    for t in g.indices.chunks(3) {
        let (a, b, c) = (g.vertices[t[0] as usize], g.vertices[t[1] as usize], g.vertices[t[2] as usize]);
        let cross_y = (b.2 - a.2) * (c.0 - a.0) - (b.0 - a.0) * (c.2 - a.2);
        assert!(cross_y > 0.0);
    }
}

#[test]
fn plane_grid_is_row_major() {
    let g = grid_plane(2, 3);
    assert_eq!(g.vertices.len(), 12);
    assert_eq!(g.vertices[5], (1, 1));
    assert_eq!(g.vertices[11], (2, 3));
    assert_eq!(g.indices.len(), 36);
    // Quad (1, 2): row length 4.
    assert_eq!(&g.indices[30..36], &[6, 10, 11, 6, 11, 7]);
    assert!(g.indices.iter().all(|i| (*i as usize) < g.vertices.len()));
}

#[test]
fn empty_plane_has_no_indices() {
    let g = grid_plane(0, 3);
    assert_eq!(g.vertices.len(), 4);
    assert!(g.indices.is_empty());
}

#[test]
fn cube_faces_merge_into_blocks_of_four() {
    let faces: Vec<Geometry<(u32, u32)>> = (0..6).map(|_| grid_plane(1, 1)).collect();
    let cube = Geometry::merge(faces);
    assert_eq!(cube.vertices.len(), 24);
    assert_eq!(cube.indices.len(), 36);
    for (k, i) in cube.indices.iter().enumerate() {
        let face = (k / 6) as u32;
        assert!(4 * face <= *i && *i < 4 * face + 4);
    }
    assert_eq!(&cube.indices[6..12], &[4, 6, 7, 4, 7, 5]);
    assert_eq!(&cube.indices[30..36], &[20, 22, 23, 20, 23, 21]);
}

#[test]
fn append_moves_indices_past_existing_vertices() {
    let mut g = grid_plane(1, 2);
    let other = grid_plane(1, 1);
    g.append(other);
    assert_eq!(g.vertices.len(), 10);
    assert_eq!(&g.indices[12..18], &[6, 8, 9, 6, 9, 7]);
}

#[test]
fn incident_counts_of_unit_plane() {
    let g = grid_plane(1, 1);
    assert_eq!(incident_triangle_counts(4, &g.indices), vec![2, 1, 1, 2]);
}

#[test]
fn incident_counts_of_larger_plane() {
    let g = grid_plane(2, 2);
    let counts = incident_triangle_counts(g.vertices.len(), &g.indices);
    assert_eq!(counts, vec![2, 3, 1, 3, 6, 3, 1, 3, 2]);
}

#[test]
fn index_checks() {
    assert!(check_indices(3, &vec![0, 1, 2]));
    assert!(check_indices(0, &vec![]));
    assert!(!check_indices(3, &vec![0, 1, 3]));
    assert!(!check_indices(3, &vec![0, 1]));
}
