//! Procedural planar grid meshes.
//!
//! A grid of `rows * cols` vertices tessellates a square of edge length
//! `size`, centered at the origin in the XZ plane, into
//! `(rows-1) * (cols-1)` cells of two triangles each. Positions, normals,
//! texture coordinates and triangle indices are generated deterministically
//! and each buffer entry is pinned down by a specification function.

use vstd::prelude::*;

verus! {

use vstd::arithmetic::div_mod::{
    lemma_div_is_ordered,
    lemma_div_pos_is_pos,
    lemma_fundamental_div_mod_converse_div,
    lemma_fundamental_div_mod_converse_mod,
};
use vstd::arithmetic::mul::lemma_mul_inequality;
use crate::fixed::{fx_mul, lemma_tdiv_exact, mul_fx, SCALE};
use crate::geom::{Vec2, Vec3};

/// Half of one unit, in fixed-point steps.
pub const HALF_FX: i64 = 500_000;

/// The error of a grid whose subdivision counts admit no cell.
#[derive(Clone, Copy, PartialEq, Eq, Structural, Debug)]
pub enum MeshError {
    /// Fewer than two vertex lines along one of the grid axes.
    InvalidDimension,
}

/// A generated grid mesh: four index-aligned buffers.
pub struct GridMesh {
    /// World-space vertex positions.
    pub positions: Vec<Vec3>,
    /// Per-vertex normals; every one points up.
    pub normals: Vec<Vec3>,
    /// Per-vertex texture coordinates.
    pub uvs: Vec<Vec2>,
    /// Triangle list: consecutive triples of vertex indices.
    pub indices: Vec<u32>,
}

/// Parametric coordinate of vertex line `i` among `n`: `i / (n-1)` in
/// millionths, rounded down.
pub open spec fn grid_t(i: int, n: int) -> int {
    (i * (SCALE as int)) / (n - 1)
}

/// Position of grid vertex `(x, y)`: `((-0.5 + tx) * size, 0, (-0.5 + ty) * size)`.
pub open spec fn vertex_pos(x: int, y: int, cols: int, rows: int, size: int) -> (int, int, int) {
    (
        mul_fx(grid_t(x, cols) - HALF_FX as int, size),
        0,
        mul_fx(grid_t(y, rows) - HALF_FX as int, size),
    )
}

/// Texture coordinate of grid vertex `(x, y)`: `(tx, 1 - ty)`; the V axis
/// runs against the row index.
pub open spec fn vertex_uv(x: int, y: int, cols: int, rows: int) -> (int, int) {
    (grid_t(x, cols), SCALE as int - grid_t(y, rows))
}

/// The flat upward normal shared by every vertex.
pub open spec fn up_normal() -> (int, int, int) {
    (0, SCALE as int, 0)
}

/// Entry `k` of the index buffer: each cell emits the two triangles
/// `(quad+cols+1, quad+1, quad+cols)` and `(quad, quad+cols, quad+1)`,
/// wound so the visible face points up.
pub open spec fn index_at(k: int, cols: int) -> int {
    let cell = k / 6;
    let corner = k % 6;
    let cy = cell / (cols - 1);
    let cx = cell % (cols - 1);
    let quad = cy * cols + cx;
    if corner == 0 {
        quad + cols + 1
    } else if corner == 1 {
        quad + 1
    } else if corner == 2 {
        quad + cols
    } else if corner == 3 {
        quad
    } else if corner == 4 {
        quad + cols
    } else {
        quad + 1
    }
}

/// The mesh holds exactly the buffers of a `rows * cols` grid of edge
/// length `size`.
pub open spec fn mesh_matches(m: GridMesh, rows: int, cols: int, size: int) -> bool {
    &&& m.positions@.len() == rows * cols
    &&& m.normals@.len() == rows * cols
    &&& m.uvs@.len() == rows * cols
    &&& m.indices@.len() == (rows - 1) * (cols - 1) * 6
    &&& forall|i: int|
        0 <= i < rows * cols ==> (#[trigger] m.positions@[i])@ == vertex_pos(
            i % cols,
            i / cols,
            cols,
            rows,
            size,
        )
    &&& forall|i: int| 0 <= i < rows * cols ==> (#[trigger] m.normals@[i])@ == up_normal()
    &&& forall|i: int|
        0 <= i < rows * cols ==> (#[trigger] m.uvs@[i])@ == vertex_uv(i % cols, i / cols, cols, rows)
    &&& forall|k: int|
        0 <= k < (rows - 1) * (cols - 1) * 6 ==> #[trigger] m.indices@[k] == index_at(k, cols)
    &&& forall|k: int|
        0 <= k < (rows - 1) * (cols - 1) * 6 ==> 0 <= #[trigger] m.indices@[k] < rows * cols
}

/// Law: the parametric coordinate starts at zero and ends at one unit.
pub proof fn lemma_grid_t_ends(n: int)
    requires
        2 <= n,
    ensures
        grid_t(0, n) == 0,
        grid_t(n - 1, n) == SCALE as int,
{
    lemma_div_pos_is_pos(0, n - 1);
    vstd::arithmetic::div_mod::lemma_div_nonincreasing(0, n - 1);
    vstd::arithmetic::div_mod::lemma_div_multiples_vanish(1_000_000, n - 1);
    assert((n - 1) * 1_000_000 == (n - 1) * (SCALE as int));
}

/// Law: texture coordinates at the corners. Vertex `(0, 0)` carries UV
/// `(0, 1)` and vertex `(cols-1, rows-1)` carries UV `(1, 0)`.
pub proof fn lemma_uv_corners(rows: int, cols: int)
    requires
        2 <= rows,
        2 <= cols,
    ensures
        vertex_uv(0, 0, cols, rows) == (0int, SCALE as int),
        vertex_uv(cols - 1, rows - 1, cols, rows) == (SCALE as int, 0int),
{
    lemma_grid_t_ends(rows);
    lemma_grid_t_ends(cols);
}

/// Parametric coordinate of vertex line `i` among `n`.
fn compute_t(i: u32, n: u32) -> (t: i64)
    requires
        2 <= n,
        i < n,
    ensures
        t == grid_t(i as int, n as int),
        0 <= t <= SCALE,
{
    let num: u64 = (i as u64) * 1_000_000;
    let den: u64 = (n as u64) - 1;
    let t: u64 = num / den;
    proof {
        lemma_div_pos_is_pos(num as int, den as int);
        lemma_div_is_ordered(num as int, (den as int) * 1_000_000, den as int);
        lemma_tdiv_exact(1_000_000, den as int);
    }
    t as i64
}

/// Generate the grid mesh of `rows * cols` vertices over a square of edge
/// length `size` (fixed-point). Fails if either axis has fewer than two
/// vertex lines.
pub fn generate(rows: u32, cols: u32, size: i64) -> (r: Result<GridMesh, MeshError>)
    requires
        (rows as int) * (cols as int) <= 0x1_0000_0000,
    ensures
        (rows < 2 || cols < 2) <==> r is Err,
        r is Err ==> r == Err::<GridMesh, MeshError>(MeshError::InvalidDimension),
        r matches Ok(m) ==> mesh_matches(m, rows as int, cols as int, size as int),
{
    if rows < 2 || cols < 2 {
        return Err(MeshError::InvalidDimension);
    }
    let ghost rowsi = rows as int;
    let ghost colsi = cols as int;
    let mut positions: Vec<Vec3> = Vec::new();
    let mut normals: Vec<Vec3> = Vec::new();
    let mut uvs: Vec<Vec2> = Vec::new();
    let mut y: u32 = 0;
    while y < rows
        invariant
            2 <= rows,
            2 <= cols,
            rowsi == rows as int,
            colsi == cols as int,
            rowsi * colsi <= 0x1_0000_0000,
            y <= rows,
            positions@.len() == (y as int) * colsi,
            normals@.len() == (y as int) * colsi,
            uvs@.len() == (y as int) * colsi,
            forall|i: int|
                0 <= i < (y as int) * colsi ==> (#[trigger] positions@[i])@ == vertex_pos(
                    i % colsi,
                    i / colsi,
                    colsi,
                    rowsi,
                    size as int,
                ),
            forall|i: int| 0 <= i < (y as int) * colsi ==> (#[trigger] normals@[i])@ == up_normal(),
            forall|i: int|
                0 <= i < (y as int) * colsi ==> (#[trigger] uvs@[i])@ == vertex_uv(
                    i % colsi,
                    i / colsi,
                    colsi,
                    rowsi,
                ),
        decreases rows - y,
    {
        proof {
            lemma_mul_inequality(y as int + 1, rowsi, colsi);
        }
        let ty = compute_t(y, rows);
        let mut x: u32 = 0;
        while x < cols
            invariant
                2 <= rows,
                2 <= cols,
                rowsi == rows as int,
                colsi == cols as int,
                rowsi * colsi <= 0x1_0000_0000,
                y < rows,
                x <= cols,
                (y as int + 1) * colsi <= rowsi * colsi,
                ty == grid_t(y as int, rowsi),
                0 <= ty <= SCALE,
                positions@.len() == (y as int) * colsi + x as int,
                normals@.len() == (y as int) * colsi + x as int,
                uvs@.len() == (y as int) * colsi + x as int,
                forall|i: int|
                    0 <= i < (y as int) * colsi + x as int ==> (#[trigger] positions@[i])@
                        == vertex_pos(i % colsi, i / colsi, colsi, rowsi, size as int),
                forall|i: int|
                    0 <= i < (y as int) * colsi + x as int ==> (#[trigger] normals@[i])@
                        == up_normal(),
                forall|i: int|
                    0 <= i < (y as int) * colsi + x as int ==> (#[trigger] uvs@[i])@ == vertex_uv(
                        i % colsi,
                        i / colsi,
                        colsi,
                        rowsi,
                    ),
            decreases cols - x,
        {
            proof {
                assert((y as int + 1) * colsi == (y as int) * colsi + colsi) by (nonlinear_arith);
            }
            let tx = compute_t(x, cols);
            let px = fx_mul(tx - HALF_FX, size, Ghost(500_000), Ghost(0x8000_0000_0000_0000));
            let pz = fx_mul(ty - HALF_FX, size, Ghost(500_000), Ghost(0x8000_0000_0000_0000));
            let ghost idx = (y as int) * colsi + x as int;
            positions.push(Vec3 { x: px, y: 0, z: pz });
            normals.push(Vec3 { x: 0, y: SCALE, z: 0 });
            uvs.push(Vec2 { x: tx, y: SCALE - ty });
            proof {
                lemma_fundamental_div_mod_converse_div(idx, colsi, y as int, x as int);
                lemma_fundamental_div_mod_converse_mod(idx, colsi, y as int, x as int);
                assert((y as int) * colsi + x as int == (y as int) * colsi + (x as int));
            }
            x += 1;
        }
        proof {
            assert((y as int + 1) * colsi == (y as int) * colsi + colsi) by (nonlinear_arith);
        }
        y += 1;
    }
    let mut indices: Vec<u32> = Vec::new();
    let ghost ncells = (rowsi - 1) * (colsi - 1);
    let mut cy: u32 = 0;
    while cy < rows - 1
        invariant
            2 <= rows,
            2 <= cols,
            rowsi == rows as int,
            colsi == cols as int,
            rowsi * colsi <= 0x1_0000_0000,
            cy <= rows - 1,
            ncells == (rowsi - 1) * (colsi - 1),
            indices@.len() == (cy as int) * (colsi - 1) * 6,
            forall|k: int|
                0 <= k < indices@.len() ==> #[trigger] indices@[k] == index_at(k, colsi),
            forall|k: int|
                0 <= k < indices@.len() ==> 0 <= #[trigger] indices@[k] < rowsi * colsi,
        decreases rows - 1 - cy,
    {
        let mut cx: u32 = 0;
        while cx < cols - 1
            invariant
                2 <= rows,
                2 <= cols,
                rowsi == rows as int,
                colsi == cols as int,
                rowsi * colsi <= 0x1_0000_0000,
                cy < rows - 1,
                cx <= cols - 1,
                indices@.len() == ((cy as int) * (colsi - 1) + cx as int) * 6,
                forall|k: int|
                    0 <= k < indices@.len() ==> #[trigger] indices@[k] == index_at(k, colsi),
                forall|k: int|
                    0 <= k < indices@.len() ==> 0 <= #[trigger] indices@[k] < rowsi * colsi,
            decreases cols - 1 - cx,
        {
            proof {
                lemma_mul_inequality(cy as int, rowsi - 2, colsi);
                assert((rowsi - 2) * colsi + colsi + colsi == rowsi * colsi) by (nonlinear_arith);
            }
            let quad: u32 = cy * cols + cx;
            let ghost cell = (cy as int) * (colsi - 1) + cx as int;
            let ghost k0 = cell * 6;
            proof {
                assert(quad as int == (cy as int) * colsi + cx as int);
                lemma_fundamental_div_mod_converse_div(cell, colsi - 1, cy as int, cx as int);
                lemma_fundamental_div_mod_converse_mod(cell, colsi - 1, cy as int, cx as int);
                lemma_fundamental_div_mod_converse_div(k0 + 0, 6, cell, 0);
                lemma_fundamental_div_mod_converse_mod(k0 + 0, 6, cell, 0);
                lemma_fundamental_div_mod_converse_div(k0 + 1, 6, cell, 1);
                lemma_fundamental_div_mod_converse_mod(k0 + 1, 6, cell, 1);
                lemma_fundamental_div_mod_converse_div(k0 + 2, 6, cell, 2);
                lemma_fundamental_div_mod_converse_mod(k0 + 2, 6, cell, 2);
                lemma_fundamental_div_mod_converse_div(k0 + 3, 6, cell, 3);
                lemma_fundamental_div_mod_converse_mod(k0 + 3, 6, cell, 3);
                lemma_fundamental_div_mod_converse_div(k0 + 4, 6, cell, 4);
                lemma_fundamental_div_mod_converse_mod(k0 + 4, 6, cell, 4);
                lemma_fundamental_div_mod_converse_div(k0 + 5, 6, cell, 5);
                lemma_fundamental_div_mod_converse_mod(k0 + 5, 6, cell, 5);
            }
            indices.push(quad + cols + 1);
            indices.push(quad + 1);
            indices.push(quad + cols);
            indices.push(quad);
            indices.push(quad + cols);
            indices.push(quad + 1);
            proof {
                assert((cell + 1) * 6 == cell * 6 + 6) by (nonlinear_arith);
            }
            cx += 1;
        }
        proof {
            assert(((cy as int) * (colsi - 1) + (colsi - 1)) * 6 == ((cy as int) + 1) * (colsi - 1)
                * 6) by (nonlinear_arith);
        }
        cy += 1;
    }
    proof {
        assert((rowsi - 1) * (colsi - 1) * 6 == ((rowsi - 1) as int) * (colsi - 1) * 6);
    }
    Ok(GridMesh { positions, normals, uvs, indices })
}

/// A square plane subdivided into a uniform grid: `subdivisions + 2`
/// vertex lines along each axis.
pub struct SubdividedPlane {
    /// Number of interior vertex lines added along each axis.
    pub subdivisions: u32,
    /// Edge length of the square, in fixed-point units.
    pub size: i64,
}

impl SubdividedPlane {
    /// Tessellate the plane into its grid mesh.
    pub fn to_mesh(&self) -> (m: GridMesh)
        requires
            self.subdivisions <= 65534,
        ensures
            mesh_matches(
                m,
                self.subdivisions as int + 2,
                self.subdivisions as int + 2,
                self.size as int,
            ),
    {
        let n: u32 = self.subdivisions + 2;
        proof {
            assert((n as int) * (n as int) <= 0x1_0000_0000) by (nonlinear_arith)
                requires
                    n as int <= 65536,
            ;
        }
        let r = generate(n, n, self.size);
        match r {
            Ok(m) => m,
            Err(_) => {
                proof {
                    assert(false);
                }
                GridMesh { positions: Vec::new(), normals: Vec::new(), uvs: Vec::new(), indices: Vec::new() }
            },
        }
    }
}

} // verus!
