//! Triangle indices of a latitude-longitude sphere grid. Vertices are laid
//! out ring by ring from the north pole, `lon + 1` per ring, `lat + 1`
//! rings; each grid cell is cut into two triangles.
use vstd::prelude::*;

verus! {

/// The `k`-th index of the grid's triangle list: cell `k / 6`, in row-major
/// order, gives `a, b, a + 1, b, b + 1, a + 1` where `a` is the cell's top
/// left vertex and `b` the one below it.
pub open spec fn sphere_index(lon: int, k: int) -> int {
    let cell = k / 6;
    let a = (cell / lon) * (lon + 1) + cell % lon;
    let b = a + lon + 1;
    let t = k % 6;
    if t == 0 {
        a
    } else if t == 1 {
        b
    } else if t == 2 {
        a + 1
    } else if t == 3 {
        b
    } else if t == 4 {
        b + 1
    } else {
        a + 1
    }
}

/// The triangle list of a sphere grid with `lat` rows and `lon` columns of
/// cells: six indices per cell.
pub fn sphere_indices(lat: usize, lon: usize) -> (r: Vec<u32>)
    requires
        (lat + 1) * (lon + 1) <= 0x1_0000_0000,
        6 * lat * lon <= usize::MAX,
    ensures
        r@.len() == 6 * lat * lon,
        forall|k: int| 0 <= k < r@.len() ==> r@[k] == sphere_index(lon as int, k),
{
    let mut out: Vec<u32> = Vec::new();
    let mut i: usize = 0;
    while i < lat
        invariant
            i <= lat,
            (lat + 1) * (lon + 1) <= 0x1_0000_0000,
            6 * lat * lon <= usize::MAX,
            out@.len() == 6 * (i * lon),
            forall|k: int| 0 <= k < out@.len() ==> out@[k] == sphere_index(lon as int, k),
        decreases lat - i,
    {
        let mut j: usize = 0;
        while j < lon
            invariant
                i < lat,
                j <= lon,
                (lat + 1) * (lon + 1) <= 0x1_0000_0000,
                6 * lat * lon <= usize::MAX,
                out@.len() == 6 * (i * lon + j),
                forall|k: int| 0 <= k < out@.len() ==> out@[k] == sphere_index(lon as int, k),
            decreases lon - j,
        {
            let ghost cell = i * lon + j;
            proof {
                vstd::arithmetic::div_mod::lemma_fundamental_div_mod_converse(
                    cell as int,
                    lon as int,
                    i as int,
                    j as int,
                );
                assert((i + 1) * (lon + 1) <= lat * (lon + 1)) by (nonlinear_arith)
                    requires
                        i + 1 <= lat,
                ;
                assert(lat * (lon + 1) + lon + 1 == (lat + 1) * (lon + 1)) by (nonlinear_arith);
                assert(i * (lon + 1) + lon + 1 == (i + 1) * (lon + 1)) by (nonlinear_arith);
                assert(6 * (cell + 1) <= 6 * lat * lon) by (nonlinear_arith)
                    requires
                        cell == i * lon + j,
                        i < lat,
                        j < lon,
                ;
            }
            let a: u32 = (i as u64 * (lon as u64 + 1) + j as u64) as u32;
            let b: u32 = a + lon as u32 + 1;
            let ghost base = out@.len() as int;
            out.push(a);
            out.push(b);
            out.push(a + 1);
            out.push(b);
            out.push(b + 1);
            out.push(a + 1);
            assert forall|k: int| 0 <= k < out@.len() implies out@[k] == sphere_index(lon as int, k) by {
                if k >= base {
                    assert(k / 6 == cell);
                }
            }
            j = j + 1;
        }
        assert(i * lon + lon == (i + 1) * lon) by (nonlinear_arith);
        i = i + 1;
    }
    assert(6 * (lat * lon) == 6 * lat * lon) by (nonlinear_arith);
    out
}

} // verus!
