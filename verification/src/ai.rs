//! The discrete side of the AI vegetation system: which blocks the model
//! decides about, the bounded player-feedback queue, and how a generated
//! tile is laid out over a larger texture.
//!
//! The network itself (weights, training, inference) computes in floating
//! point and runs in the application.

use vstd::prelude::*;
use crate::block::BlockType;

verus! {

/// The model's vegetation class of a block: 0 flower, 1 fern, 2 stick,
/// 3 pebble; `None` for blocks the model does not decide about.
pub open spec fn vegetation_class_spec(block: BlockType) -> Option<usize> {
    match block {
        BlockType::Rose | BlockType::DandelionFlower | BlockType::TulipRed | BlockType::TulipPink
        | BlockType::TulipWhite | BlockType::TulipOrange | BlockType::Cornflower | BlockType::Allium
        | BlockType::AzaleaFlower | BlockType::Flower => Some(0),
        BlockType::Fern | BlockType::FernPlant => Some(1),
        BlockType::Stick | BlockType::StickSmall => Some(2),
        BlockType::Pebble1 | BlockType::Pebble2 | BlockType::Pebble3 => Some(3),
        _ => None,
    }
}

/// Which of the four output classes a block maps to (if any).
pub fn vegetation_class(block: BlockType) -> (r: Option<usize>)
    ensures
        r == vegetation_class_spec(block),
{
    match block {
        BlockType::Rose | BlockType::DandelionFlower | BlockType::TulipRed | BlockType::TulipPink
        | BlockType::TulipWhite | BlockType::TulipOrange | BlockType::Cornflower | BlockType::Allium
        | BlockType::AzaleaFlower | BlockType::Flower => Some(0),
        BlockType::Fern | BlockType::FernPlant => Some(1),
        BlockType::Stick | BlockType::StickSmall => Some(2),
        BlockType::Pebble1 | BlockType::Pebble2 | BlockType::Pebble3 => Some(3),
        _ => None,
    }
}

/// The block placed for a predicted class.
pub open spec fn vegetation_block_spec(class: usize) -> BlockType {
    match class {
        0 => BlockType::Rose,
        1 => BlockType::Fern,
        2 => BlockType::StickSmall,
        3 => BlockType::Pebble1,
        _ => BlockType::Air,
    }
}

/// The block placed for the model's most likely class: a rose, a fern, a
/// small stick or a pebble; air for anything else.
pub fn vegetation_block(class: usize) -> (b: BlockType)
    ensures
        b == vegetation_block_spec(class),
{
    match class {
        0 => BlockType::Rose,
        1 => BlockType::Fern,
        2 => BlockType::StickSmall,
        3 => BlockType::Pebble1,
        _ => BlockType::Air,
    }
}

/// Placing what the model predicts feeds back the same class: for every
/// class the model outputs, the block placed for it maps back to it.
pub proof fn lemma_vegetation_class_roundtrip(class: usize)
    requires
        class < 4,
    ensures
        vegetation_class_spec(vegetation_block_spec(class)) == Some(class),
{
}

/// Most player-feedback samples kept before the oldest are dropped.
pub const FEEDBACK_CAPACITY: usize = 4096;

/// Player-action samples waiting for the background trainer. The queue is
/// bounded: when it is full, the oldest sample makes room for the newest.
pub struct FeedbackBuffer<T> {
    items: Vec<T>,
}

impl<T> FeedbackBuffer<T> {
    /// The queued samples, oldest first.
    pub closed spec fn view_items(&self) -> Seq<T> {
        self.items@
    }

    /// The queue never holds more than its capacity.
    #[verifier::type_invariant]
    closed spec fn bounded(self) -> bool {
        self.items.len() <= FEEDBACK_CAPACITY
    }

    /// An empty queue.
    pub fn new() -> (r: FeedbackBuffer<T>)
        ensures
            r.view_items() == Seq::<T>::empty(),
    {
        FeedbackBuffer { items: Vec::new() }
    }

    /// Queue a sample; when the queue is full the oldest one is dropped.
    pub fn push(&mut self, sample: T)
        ensures
            final(self).view_items() == if old(self).view_items().len() >= FEEDBACK_CAPACITY {
                old(self).view_items().drop_first().push(sample)
            } else {
                old(self).view_items().push(sample)
            },
            final(self).view_items().len() <= FEEDBACK_CAPACITY,
    {
        proof {
            use_type_invariant(&*self);
        }
        let mut items: Vec<T> = Vec::new();
        std::mem::swap(&mut items, &mut self.items);
        if items.len() >= FEEDBACK_CAPACITY {
            items.remove(0);
        }
        items.push(sample);
        self.items = items;
    }

    /// Number of queued samples.
    pub fn len(&self) -> (r: usize)
        ensures
            r == self.view_items().len(),
            r <= FEEDBACK_CAPACITY,
    {
        proof {
            use_type_invariant(self);
        }
        self.items.len()
    }

    /// Take every queued sample, oldest first, leaving the queue empty.
    pub fn take_all(&mut self) -> (r: Vec<T>)
        ensures
            r@ == old(self).view_items(),
            final(self).view_items() == Seq::<T>::empty(),
    {
        let mut items: Vec<T> = Vec::new();
        std::mem::swap(&mut items, &mut self.items);
        items
    }
}

/// The queue stays within its capacity and always keeps the newest sample
/// last, whatever was queued before.
pub proof fn lemma_feedback_bounded<T>(old_items: Seq<T>, sample: T)
    requires
        old_items.len() <= FEEDBACK_CAPACITY,
    ensures
        ({
            let new_items = if old_items.len() >= FEEDBACK_CAPACITY {
                old_items.drop_first().push(sample)
            } else {
                old_items.push(sample)
            };
            &&& new_items.len() <= FEEDBACK_CAPACITY
            &&& new_items.last() == sample
        }),
{
}

/// The generator state after one step of the weight-initialisation LCG.
pub open spec fn lcg_step_spec(state: u64) -> u64 {
    vstd::wrapping::u64_specs::wrapping_add(
        vstd::wrapping::u64_specs::wrapping_mul(state, 1103515245u64),
        12345u64,
    )
}

/// Advance the weight-initialisation generator by one step and return its
/// 15-bit output, `(state / 65536) mod 32768` of the new state; the initial
/// weight is that output over 32767.
pub fn lcg_advance(state: &mut u64) -> (r: u16)
    ensures
        *final(state) == lcg_step_spec(*old(state)),
        r as int == (*final(state) as int / 65536) % 32768,
{
    *state = state.wrapping_mul(1103515245u64).wrapping_add(12345u64);
    let out: u64 = (*state / 65536u64) % 32768u64;
    out as u16
}

/// What the background trainer does at the end of an epoch.
#[derive(Debug, Clone, Copy, PartialEq, Eq, Structural)]
pub struct EpochPlan {
    /// Save the model to its checkpoint file.
    pub checkpoint: bool,
    /// Sleep briefly before the next epoch.
    pub cooldown: bool,
    /// Print progress for individual samples.
    pub verbose: bool,
}

/// The trainer's schedule for epoch `epoch` (counted from 1): a checkpoint
/// every 20th epoch, a pause every 5th, per-sample progress in the first
/// three.
pub fn epoch_plan(epoch: u32) -> (r: EpochPlan)
    ensures
        r.checkpoint == (epoch % 20 == 0),
        r.cooldown == (epoch % 5 == 0),
        r.verbose == (epoch <= 3),
{
    EpochPlan { checkpoint: epoch % 20 == 0, cooldown: epoch % 5 == 0, verbose: epoch <= 3 }
}

/// Most online samples merged into one epoch.
pub const DATASET_BATCH: usize = 200;

/// How many samples of a fetched online dataset of `len` samples the
/// trainer merges: none for 8 or fewer, otherwise the first 200 at most.
pub fn dataset_merge_count(len: usize) -> (r: usize)
    ensures
        len <= 8 ==> r == 0,
        len > 8 ==> r == (if len < DATASET_BATCH { len } else { DATASET_BATCH }),
{
    if len <= 8 {
        0
    } else if len < DATASET_BATCH {
        len
    } else {
        DATASET_BATCH
    }
}

/// Side of a generated tile, in pixels.
pub const TILE_SIZE: u32 = 16;

/// Bytes of one generated RGBA tile.
pub const TILE_BYTES: usize = 1024;

/// The texture of `width` × `height` RGBA pixels laid out from one tile:
/// the tile itself for 16 × 16; otherwise pixel (x, y) repeats the tile's
/// pixel `y mod 16` of its first row.
pub open spec fn tiled_texture_spec(tile: Seq<u8>, width: int, height: int) -> Seq<u8> {
    if width == 16 && height == 16 {
        tile
    } else {
        Seq::new(
            (width * height * 4) as nat,
            |k: int| tile[((k / 4) / width) % 16 * 4 + k % 4],
        )
    }
}

/// Lay a 16 × 16 tile out over a `width` × `height` texture (see
/// [`tiled_texture_spec`]). A 16 × 16 request gets the tile itself. Any
/// other size is filled row by row from the tile's first row: every pixel
/// of output row `y` takes the colour of tile pixel `(y mod 16, 0)`, and
/// the pixel's column selects nothing, so each output row is one colour.
pub fn tiled_texture(tile: &Vec<u8>, width: u32, height: u32) -> (out: Vec<u8>)
    requires
        tile.len() == TILE_BYTES,
        width as int * height as int * 4 <= u32::MAX,
    ensures
        out@ == tiled_texture_spec(tile@, width as int, height as int),
{
    if width == 16 && height == 16 {
        return tile.clone();
    }
    let mut out: Vec<u8> = Vec::new();
    let mut y: u32 = 0;
    while y < height
        invariant
            tile.len() == TILE_BYTES,
            width as int * height as int * 4 <= u32::MAX,
            y <= height,
            out.len() == y as int * width as int * 4,
            forall|k: int| 0 <= k < out.len() ==> #[trigger] out@[k] == tile@[((k / 4) / width as int) % 16 * 4 + k % 4],
        decreases height - y,
    {
        let sy = ((y % 16) * 4) as usize;
        let mut x: u32 = 0;
        while x < width
            invariant
                tile.len() == TILE_BYTES,
                width as int * height as int * 4 <= u32::MAX,
                y < height,
                x <= width,
                sy == (y % 16) * 4,
                out.len() == (y as int * width as int + x as int) * 4,
                forall|k: int| 0 <= k < out.len() ==> #[trigger] out@[k] == tile@[((k / 4) / width as int) % 16 * 4 + k % 4],
            decreases width - x,
        {
            let base = out.len();
            let mut c: usize = 0;
            while c < 4
                invariant
                    tile.len() == TILE_BYTES,
                    y < height,
                    x < width,
                    sy == (y % 16) * 4,
                    c <= 4,
                    base == (y as int * width as int + x as int) * 4,
                    out.len() == base + c,
                    forall|k: int| 0 <= k < out.len() ==> #[trigger] out@[k] == tile@[((k / 4) / width as int) % 16 * 4 + k % 4],
                decreases 4 - c,
            {
                proof {
                    let k = base + c;
                    assert(k / 4 == y as int * width as int + x as int) by (nonlinear_arith)
                        requires
                            k == (y as int * width as int + x as int) * 4 + c,
                            c < 4,
                    ;
                    assert(k % 4 == c) by (nonlinear_arith)
                        requires
                            k == (y as int * width as int + x as int) * 4 + c,
                            c < 4,
                    ;
                    assert((y as int * width as int + x as int) / width as int == y) by (nonlinear_arith)
                        requires
                            x < width,
                            0 <= x,
                            0 <= y,
                    ;
                }
                out.push(tile[sy + c]);
                c = c + 1;
            }
            proof {
                assert(base + 4 == (y as int * width as int + (x + 1) as int) * 4) by (nonlinear_arith)
                    requires
                        base == (y as int * width as int + x as int) * 4,
                ;
            }
            x = x + 1;
        }
        proof {
            assert((y as int * width as int + width as int) * 4 == (y + 1) as int * width as int * 4) by (nonlinear_arith);
        }
        y = y + 1;
    }
    proof {
        assert(height as int * width as int * 4 == width as int * height as int * 4) by (nonlinear_arith);
        assert(out@ =~= tiled_texture_spec(tile@, width as int, height as int));
    }
    out
}

} // verus!
