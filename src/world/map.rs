use vstd::prelude::*;

use crate::models::object::{Mesh, Object};
use crate::world::block::{Block, BlockType};

verus! {

/// Number of blocks along each side of a chunk.
pub const CHUNK_SIDE: i64 = 16;

/// Number of blocks in a chunk.
pub const CHUNK_VOLUME: usize = 4096;

/// Largest magnitude of a chunk origin: every block of such a chunk has a
/// coordinate that fits.
pub const ORIGIN_LIMIT: i64 = 0x2000_0000_0000;

/// A chunk origin whose blocks can all be built.
pub open spec fn fits_origin(c: i64) -> bool {
    -ORIGIN_LIMIT <= c <= ORIGIN_LIMIT
}

/// The blocks of a chunk lie in one flat list at `x * 256 + y * 16 + z`:
/// these recover `x`, `y` and `z` from the index.
pub open spec fn local_x(i: int) -> int {
    i / 256
}

pub open spec fn local_y(i: int) -> int {
    (i / 16) % 16
}

pub open spec fn local_z(i: int) -> int {
    i % 16
}

/// The meshes of the blocks in `blocks` that are not void, in order.
pub open spec fn shown(blocks: Seq<Block>) -> Seq<Mesh>
    decreases blocks.len(),
{
    if blocks.len() == 0 {
        seq![]
    } else {
        let rest = shown(blocks.drop_last());
        if blocks.last().block_type == BlockType::Void {
            rest
        } else {
            rest.push(blocks.last().render@)
        }
    }
}

/// The kind of the block at flat index `i` of a floor chunk: the bottom layer is solid.
pub open spec fn floor_kind(i: int) -> BlockType {
    if local_y(i) == 0 {
        BlockType::Bedrock
    } else {
        BlockType::Void
    }
}

/// A cube of 16 x 16 x 16 blocks, at chunk coordinate `origin`.
#[derive(Debug)]
pub struct Chunk {
    pub origin: [i64; 3],
    pub blocks: Vec<Block>,
}

impl Chunk {
    /// Every block is well formed and sits at `origin * 16` plus its local position.
    pub open spec fn laid_out(&self) -> bool {
        &&& self.blocks@.len() == CHUNK_VOLUME
        &&& forall|i: int|
            0 <= i < CHUNK_VOLUME ==> {
                let b = #[trigger] self.blocks@[i];
                &&& b.wf()
                &&& b.coordinates[0] == self.origin[0] * CHUNK_SIDE + local_x(i)
                &&& b.coordinates[1] == self.origin[1] * CHUNK_SIDE + local_y(i)
                &&& b.coordinates[2] == self.origin[2] * CHUNK_SIDE + local_z(i)
            }
    }

    /// A chunk where every block is void.
    pub fn new(coords: [i64; 3]) -> (r: Chunk)
        requires
            fits_origin(coords[0]),
            fits_origin(coords[1]),
            fits_origin(coords[2]),
        ensures
            r.origin == coords,
            r.laid_out(),
            forall|i: int| 0 <= i < CHUNK_VOLUME ==> (#[trigger] r.blocks@[i]).block_type == BlockType::Void,
            shown(r.blocks@).len() == 0,
    {
        let r = Chunk::build(coords, false);
        proof {
            lemma_void_chunk_shows_nothing(&r);
        }
        r
    }

    /// A chunk whose bottom layer (local `y` of 0) is bedrock and the rest void.
    pub fn floor(coords: [i64; 3]) -> (r: Chunk)
        requires
            fits_origin(coords[0]),
            fits_origin(coords[1]),
            fits_origin(coords[2]),
        ensures
            r.origin == coords,
            r.laid_out(),
            forall|i: int| 0 <= i < CHUNK_VOLUME ==> (#[trigger] r.blocks@[i]).block_type == floor_kind(i),
            shown(r.blocks@).len() == 256,
    {
        let r = Chunk::build(coords, true);
        proof {
            lemma_floor_chunk_shows_256(&r);
        }
        r
    }

    /// Lays out the blocks of a chunk, in scan order: `x` outer, `y` middle, `z` inner.
    fn build(coords: [i64; 3], with_floor: bool) -> (r: Chunk)
        requires
            fits_origin(coords[0]),
            fits_origin(coords[1]),
            fits_origin(coords[2]),
        ensures
            r.origin == coords,
            r.laid_out(),
            forall|i: int|
                0 <= i < CHUNK_VOLUME ==> (#[trigger] r.blocks@[i]).block_type == (if with_floor {
                    floor_kind(i)
                } else {
                    BlockType::Void
                }),
    {
        let mut blocks: Vec<Block> = Vec::new();
        let mut i: usize = 0;
        while i < CHUNK_VOLUME
            invariant
                i <= CHUNK_VOLUME,
                blocks@.len() == i,
                fits_origin(coords[0]),
                fits_origin(coords[1]),
                fits_origin(coords[2]),
                forall|j: int|
                    0 <= j < i ==> {
                        let b = #[trigger] blocks@[j];
                        &&& b.wf()
                        &&& b.coordinates[0] == coords[0] * CHUNK_SIDE + local_x(j)
                        &&& b.coordinates[1] == coords[1] * CHUNK_SIDE + local_y(j)
                        &&& b.coordinates[2] == coords[2] * CHUNK_SIDE + local_z(j)
                        &&& b.block_type == (if with_floor {
                            floor_kind(j)
                        } else {
                            BlockType::Void
                        })
                    },
            decreases CHUNK_VOLUME - i,
        {
            let x = (i / 256) as i64;
            let y = ((i / 16) % 16) as i64;
            let z = (i % 16) as i64;
            let world_x = coords[0] * CHUNK_SIDE + x;
            let world_y = coords[1] * CHUNK_SIDE + y;
            let world_z = coords[2] * CHUNK_SIDE + z;
            let block_type = if with_floor && y == 0 {
                BlockType::Bedrock
            } else {
                BlockType::Void
            };
            blocks.push(Block::new(block_type, [world_x, world_y, world_z]));
            i = i + 1;
        }
        Chunk { origin: coords, blocks }
    }

    /// The meshes of the chunk's solid blocks, in scan order.
    pub fn get_show(&self) -> (r: Vec<Object>)
        ensures
            r@.map_values(|o: Object| o@) == shown(self.blocks@),
    {
        let mut to_render: Vec<Object> = Vec::new();
        let mut i: usize = 0;
        while i < self.blocks.len()
            invariant
                i <= self.blocks@.len(),
                to_render@.map_values(|o: Object| o@) == shown(self.blocks@.take(i as int)),
            decreases self.blocks@.len() - i,
        {
            let block = &self.blocks[i];
            proof {
                assert(self.blocks@.take(i + 1).drop_last() =~= self.blocks@.take(i as int));
            }
            if block.block_type.is_solid() {
                to_render.push(block.render.duplicate());
            }
            i = i + 1;
            assert(to_render@.map_values(|o: Object| o@) =~= shown(self.blocks@.take(i as int)));
        }
        assert(self.blocks@.take(i as int) =~= self.blocks@);
        to_render
    }
}

/// Of blocks that are all void, none is shown.
pub proof fn lemma_void_shows_nothing(blocks: Seq<Block>, n: int)
    requires
        0 <= n <= blocks.len(),
        forall|i: int| 0 <= i < n ==> (#[trigger] blocks[i]).block_type == BlockType::Void,
    ensures
        shown(blocks.take(n)).len() == 0,
    decreases n,
{
    if n > 0 {
        assert(blocks.take(n).drop_last() =~= blocks.take(n - 1));
        lemma_void_shows_nothing(blocks, n - 1);
    }
}

/// Of the first `n` blocks laid out as a floor, one per started column of the
/// bottom layer is shown: 16 per full `x` slice, and the part of the current
/// slice's bottom row already reached.
pub proof fn lemma_floor_shows_one_layer(blocks: Seq<Block>, n: int)
    requires
        0 <= n <= blocks.len(),
        forall|i: int| 0 <= i < n ==> (#[trigger] blocks[i]).block_type == floor_kind(i),
    ensures
        shown(blocks.take(n)).len() == 16 * (n / 256) + (if n % 256 < 16 {
            n % 256
        } else {
            16
        }),
    decreases n,
{
    if n > 0 {
        let m = n - 1;
        assert(blocks.take(n).drop_last() =~= blocks.take(m));
        lemma_floor_shows_one_layer(blocks, m);
        assert(local_y(m) == 0 <==> m % 256 < 16) by (nonlinear_arith)
            requires
                m >= 0,
        ;
        assert(n / 256 == (if m % 256 == 255 {
            m / 256 + 1
        } else {
            m / 256
        }));
        assert(n % 256 == (if m % 256 == 255 {
            0
        } else {
            m % 256 + 1
        }));
    }
}

/// A floor chunk shows exactly its bottom layer: 256 meshes, one per column.
pub proof fn lemma_floor_chunk_shows_256(c: &Chunk)
    requires
        c.laid_out(),
        forall|i: int| 0 <= i < CHUNK_VOLUME ==> (#[trigger] c.blocks@[i]).block_type == floor_kind(i),
    ensures
        shown(c.blocks@).len() == 256,
{
    lemma_floor_shows_one_layer(c.blocks@, CHUNK_VOLUME as int);
    assert(c.blocks@.take(CHUNK_VOLUME as int) =~= c.blocks@);
}

/// A chunk of void blocks shows nothing.
pub proof fn lemma_void_chunk_shows_nothing(c: &Chunk)
    requires
        c.laid_out(),
        forall|i: int| 0 <= i < CHUNK_VOLUME ==> (#[trigger] c.blocks@[i]).block_type == BlockType::Void,
    ensures
        shown(c.blocks@).len() == 0,
{
    lemma_void_shows_nothing(c.blocks@, CHUNK_VOLUME as int);
    assert(c.blocks@.take(CHUNK_VOLUME as int) =~= c.blocks@);
}

/// The world's terrain: a list of chunks.
#[derive(Debug)]
pub struct WorldMap {
    pub chunks: Vec<Chunk>,
}

impl WorldMap {
    /// Two floor chunks, at origins `(0, 0, 0)` and `(1, 0, 1)`; each shows
    /// 256 blocks, 512 in all.
    pub fn new() -> (r: WorldMap)
        ensures
            r.chunks@.len() == 2,
            r.chunks@[0].origin@ == seq![0i64, 0, 0],
            r.chunks@[1].origin@ == seq![1i64, 0, 1],
            forall|c: int|
                0 <= c < 2 ==> {
                    &&& (#[trigger] r.chunks@[c]).laid_out()
                    &&& forall|i: int|
                        0 <= i < CHUNK_VOLUME ==> (#[trigger] r.chunks@[c].blocks@[i]).block_type
                            == floor_kind(i)
                    &&& shown(r.chunks@[c].blocks@).len() == 256
                },
            shown(r.chunks@[0].blocks@).len() + shown(r.chunks@[1].blocks@).len() == 512,
    {
        let mut chunks: Vec<Chunk> = Vec::new();
        let first = Chunk::floor([0, 0, 0]);
        let second = Chunk::floor([1, 0, 1]);
        chunks.push(first);
        chunks.push(second);
        WorldMap { chunks }
    }
}

} // verus!
