use vstd::prelude::*;

verus! {

/// The render distance counted in chunks: the render distance (in whole units) divided by the
/// number of chunk rows.
pub fn chunk_render_distance(render_distance: u32, chunk_rows: u32) -> (distance: u32)
    requires
        chunk_rows > 0,
    ensures
        distance == render_distance / chunk_rows,
{
    render_distance / chunk_rows
}

} // verus!
