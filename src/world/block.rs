use vstd::prelude::*;

use crate::models::cube::{self, is_cube_at, point, SIZE};
use crate::models::object::Object;

verus! {

/// What a cell of the world is made of.
#[derive(Clone, Copy, Debug, PartialEq, Eq, Structural)]
pub enum BlockType {
    Void,
    Bedrock,
}

impl BlockType {
    /// Whether a block of this kind is drawn.
    pub fn is_solid(&self) -> (r: bool)
        ensures
            r == (*self != BlockType::Void),
    {
        match self {
            BlockType::Void => false,
            BlockType::Bedrock => true,
        }
    }
}

/// Largest magnitude of a block coordinate: the mesh of such a block still fits in `i64`.
pub const COORD_LIMIT: i64 = 0x4_0000_0000_0000;

/// A block coordinate whose mesh can be built.
pub open spec fn fits_coordinate(c: i64) -> bool {
    -COORD_LIMIT <= c <= COORD_LIMIT
}

/// Where the centre of the block at grid coordinate `c` lies in world units:
/// one cube edge, `SIZE * 2`, per grid step.
pub open spec fn placement(c: [i64; 3]) -> (int, int, int) {
    (c[0] * SIZE * 2, c[1] * SIZE * 2, c[2] * SIZE * 2)
}

/// One cell of the world: its grid coordinate, its kind, and its mesh already
/// placed in world units.
#[derive(Debug)]
pub struct Block {
    pub render: Object,
    pub coordinates: [i64; 3],
    pub block_type: BlockType,
}

impl Block {
    /// The mesh is the cube at the block's placement.
    pub open spec fn wf(&self) -> bool {
        &&& fits_coordinate(self.coordinates[0])
        &&& fits_coordinate(self.coordinates[1])
        &&& fits_coordinate(self.coordinates[2])
        &&& is_cube_at(self.render@, placement(self.coordinates))
    }

    pub fn new(blocktype: BlockType, coordinates: [i64; 3]) -> (r: Block)
        requires
            fits_coordinate(coordinates[0]),
            fits_coordinate(coordinates[1]),
            fits_coordinate(coordinates[2]),
        ensures
            r.wf(),
            r.coordinates == coordinates,
            r.block_type == blocktype,
    {
        let centre: [i64; 3] = [
            coordinates[0] * SIZE * 2,
            coordinates[1] * SIZE * 2,
            coordinates[2] * SIZE * 2,
        ];
        Block { render: cube::new(centre), coordinates: coordinates, block_type: blocktype }
    }
}

/// The meshes of two blocks are shifted from one another, corner by corner,
/// by `SIZE * 2` world units per step between their grid coordinates.
pub proof fn lemma_block_offset(a: &Block, b: &Block)
    requires
        a.wf(),
        b.wf(),
    ensures
        forall|k: int|
            0 <= k < 8 ==> {
                let pa = point(#[trigger] a.render@.vertices[k]);
                let pb = point(b.render@.vertices[k]);
                &&& pb.0 - pa.0 == (b.coordinates[0] - a.coordinates[0]) * SIZE * 2
                &&& pb.1 - pa.1 == (b.coordinates[1] - a.coordinates[1]) * SIZE * 2
                &&& pb.2 - pa.2 == (b.coordinates[2] - a.coordinates[2]) * SIZE * 2
            },
{
}

} // verus!
