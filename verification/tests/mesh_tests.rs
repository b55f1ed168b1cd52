use orbit_grid::fixed::SCALE;
use orbit_grid::plane::{generate, MeshError, SubdividedPlane};

#[test]
fn two_by_two_unit_grid() {
    let m = generate(2, 2, SCALE).unwrap();
    assert_eq!(m.positions.len(), 4);
    assert_eq!(m.normals.len(), 4);
    assert_eq!(m.uvs.len(), 4);
    assert_eq!(m.indices.len(), 6);
    let p: Vec<(i64, i64, i64)> = m.positions.iter().map(|v| (v.x, v.y, v.z)).collect();
    assert_eq!(
        p,
        vec![
            (-500_000, 0, -500_000),
            (500_000, 0, -500_000),
            (-500_000, 0, 500_000),
            (500_000, 0, 500_000),
        ]
    );
    assert_eq!(m.indices, vec![3, 1, 2, 0, 2, 1]);
    let uv: Vec<(i64, i64)> = m.uvs.iter().map(|v| (v.x, v.y)).collect();
    assert_eq!(
        uv,
        vec![(0, 1_000_000), (1_000_000, 1_000_000), (0, 0), (1_000_000, 0)]
    );
}

#[test]
fn buffer_lengths_follow_the_grid() {
    for &(rows, cols) in &[(2u32, 3u32), (3, 2), (4, 7), (10, 10)] {
        let m = generate(rows, cols, 2 * SCALE).unwrap();
        let verts = (rows * cols) as usize;
        assert_eq!(m.positions.len(), verts);
        assert_eq!(m.normals.len(), verts);
        assert_eq!(m.uvs.len(), verts);
        assert_eq!(m.indices.len(), ((rows - 1) * (cols - 1) * 6) as usize);
        for &ix in m.indices.iter() {
            assert!((ix as usize) < verts);
        }
    }
}

#[test]
fn all_normals_point_up() {
    let m = generate(5, 6, 3 * SCALE).unwrap();
    for n in m.normals.iter() {
        assert_eq!((n.x, n.y, n.z), (0, SCALE, 0));
    }
}

#[test]
fn uv_corners_span_the_square() {
    let rows = 5u32;
    let cols = 4u32;
    let m = generate(rows, cols, SCALE).unwrap();
    let first = &m.uvs[0];
    assert_eq!((first.x, first.y), (0, SCALE));
    let last = &m.uvs[((rows - 1) * cols + (cols - 1)) as usize];
    assert_eq!((last.x, last.y), (SCALE, 0));
}

#[test]
fn interior_vertices_interpolate() {
    // rows=2, cols=4: the second vertex sits a third of the way across.
    let m = generate(2, 4, SCALE).unwrap();
    let v = &m.positions[1];
    assert_eq!((v.x, v.y, v.z), (-166_667, 0, -500_000));
    assert_eq!((m.uvs[1].x, m.uvs[1].y), (333_333, 1_000_000));
    // rows=3, cols=3 with size 2: the center vertex sits at the origin.
    let m2 = generate(3, 3, 2 * SCALE).unwrap();
    let c = &m2.positions[4];
    assert_eq!((c.x, c.y, c.z), (0, 0, 0));
    assert_eq!((m2.uvs[4].x, m2.uvs[4].y), (500_000, 500_000));
}

#[test]
fn degenerate_grids_are_rejected() {
    assert!(matches!(generate(1, 5, SCALE), Err(MeshError::InvalidDimension)));
    assert!(matches!(generate(5, 1, SCALE), Err(MeshError::InvalidDimension)));
    assert!(matches!(generate(0, 0, SCALE), Err(MeshError::InvalidDimension)));
    assert!(generate(2, 2, SCALE).is_ok());
}

#[test]
fn subdivided_plane_matches_generate() {
    let plane = SubdividedPlane { subdivisions: 0, size: SCALE };
    let m = plane.to_mesh();
    let direct = generate(2, 2, SCALE).unwrap();
    assert_eq!(m.positions.len(), direct.positions.len());
    for (a, b) in m.positions.iter().zip(direct.positions.iter()) {
        assert_eq!((a.x, a.y, a.z), (b.x, b.y, b.z));
    }
    assert_eq!(m.indices, direct.indices);
}

#[test]
fn subdivided_plane_counts() {
    let plane = SubdividedPlane { subdivisions: 2, size: SCALE };
    let m = plane.to_mesh();
    // 4 vertex lines each way.
    assert_eq!(m.positions.len(), 16);
    assert_eq!(m.indices.len(), 3 * 3 * 6);
}

#[test]
fn triangles_cover_each_cell_twice() {
    let m = generate(3, 3, SCALE).unwrap();
    // 4 cells, 8 triangles.
    assert_eq!(m.indices.len(), 24);
    // First cell's two triangles: quad = 0, cols = 3.
    assert_eq!(&m.indices[0..6], &[4, 1, 3, 0, 3, 1]);
    // Last cell: quad = 1 * 3 + 1 = 4.
    assert_eq!(&m.indices[18..24], &[8, 5, 7, 4, 7, 5]);
}
