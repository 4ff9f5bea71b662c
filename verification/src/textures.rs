//! Procedural texture styles: which palette and pattern a block or a
//! texture file is drawn with, and the name-derived seeds of the atlas.
//!
//! The pixels themselves are synthesised by the application.

use vstd::prelude::*;
use crate::block::{BlockType, first_named_from};
use crate::text::{chars_of, contains_seq, contains_vec, lower_seq, lower_vec, occurs_at};
use vstd::string::StringSliceAdditionalSpecFns;

verus! {

/// Base palette of a procedural texture: two colours blended by noise.
#[derive(Debug, Clone, Copy)]
pub struct TexturePalette {
    pub c0: [u8; 3],
    pub c1: [u8; 3],
    /// Optional third colour (ore speckles, leaf holes, plank seams…).
    pub c2: Option<[u8; 3]>,
    pub alpha: u8,
}

/// Which visual pattern to synthesise.
#[derive(Debug, Clone, Copy, PartialEq, Eq, Structural)]
pub enum TexturePattern {
    /// Smooth value-noise blend between c0 and c1.
    Noise,
    /// c0 base with c1 speckle blobs (ores).
    Speckle,
    /// Vertical streaks (wood/log sides).
    Wood,
    /// Concentric rings (log top).
    Rings,
    /// Dense chaotic noise with translucent holes (leaves).
    Leaves,
    /// Horizontal boards with seams (planks).
    Planks,
    /// Smooth noise with slight transparency (water).
    Water,
    /// Hot glowing noise (lava).
    Lava,
    /// Smooth fine noise (stone, sand, dirt…).
    Stone,
}

/// Initial value of the name hash.
pub const NAME_SEED_INIT: u64 = 0x9E3779B97F4A7C15;

/// One step of the name hash: multiply, add the byte, fold the high bits.
pub open spec fn name_seed_step(h: u64, b: u8) -> u64 {
    let m = vstd::wrapping::u64_specs::wrapping_add(
        vstd::wrapping::u64_specs::wrapping_mul(h, 0x100000001B3u64),
        b as u64,
    );
    m ^ (m >> 29u64)
}

/// The name hash of a byte string.
pub open spec fn name_seed_of(bytes: Seq<u8>) -> u64
    decreases bytes.len(),
{
    if bytes.len() == 0 {
        NAME_SEED_INIT
    } else {
        name_seed_step(name_seed_of(bytes.drop_last()), bytes.last())
    }
}

/// Deterministic seed derived from a texture name (used by the atlas):
/// a multiplicative hash over the name's UTF-8 bytes.
pub fn name_seed(name: &str) -> (h: u64)
    ensures
        h == name_seed_of(name.spec_bytes()),
{
    let bytes = name.as_bytes();
    let mut h: u64 = NAME_SEED_INIT;
    let mut i: usize = 0;
    while i < bytes.len()
        invariant
            bytes@ == name.spec_bytes(),
            i <= bytes.len(),
            h == name_seed_of(bytes@.take(i as int)),
        decreases bytes.len() - i,
    {
        let b = bytes[i];
        let m = h.wrapping_mul(0x100000001B3u64).wrapping_add(b as u64);
        h = m ^ (m >> 29u64);
        assert(bytes@.take(i as int + 1).drop_last() =~= bytes@.take(i as int));
        i = i + 1;
    }
    assert(bytes@.take(bytes.len() as int) =~= bytes@);
    h
}

/// The integer mix behind the value noise of the tiles: the low 16 bits of
/// a multiplicative hash of the lattice point `(x, y)` under `seed`.
pub open spec fn noise_hash_spec(x: u32, y: u32, seed: u64) -> u16 {
    let h1 = vstd::wrapping::u64_specs::wrapping_add(
        vstd::wrapping::u64_specs::wrapping_mul(seed, 0x9E3779B97F4A7C15u64),
        x as u64,
    );
    let h2 = h1 ^ (h1 >> 29u64);
    let h3 = vstd::wrapping::u64_specs::wrapping_add(
        vstd::wrapping::u64_specs::wrapping_mul(h2, 0xBF58476D1CE4E5B9u64),
        y as u64,
    );
    let h4 = vstd::wrapping::u64_specs::wrapping_add(
        vstd::wrapping::u64_specs::wrapping_mul(h3, 0x94D049BB133111EBu64),
        h3 >> 31u64,
    );
    let h5 = h4 ^ (h4 >> 32u64);
    (h5 & 0xFFFFu64) as u16
}

/// Hash a lattice point of the tile noise (see [`noise_hash_spec`]); the
/// noise value is this hash over 65535.
pub fn noise_hash(x: u32, y: u32, seed: u64) -> (r: u16)
    ensures
        r == noise_hash_spec(x, y, seed),
{
    let mut h: u64 = seed;
    h = h.wrapping_mul(0x9E3779B97F4A7C15u64).wrapping_add(x as u64);
    h = h ^ (h >> 29u64);
    h = h.wrapping_mul(0xBF58476D1CE4E5B9u64).wrapping_add(y as u64);
    h = h.wrapping_mul(0x94D049BB133111EBu64).wrapping_add(h >> 31u64);
    h = h ^ (h >> 32u64);
    let low = h & 0xFFFFu64;
    assert(low <= 0xFFFFu64) by (bit_vector)
        requires
            low == h & 0xFFFFu64,
    ;
    low as u16
}

/// Palette and pattern of each block.
pub open spec fn style_for_block_spec(block: BlockType) -> (TexturePalette, TexturePattern) {
    match block {
        BlockType::Grass | BlockType::ForestFloor | BlockType::BloomFloor | BlockType::MossMat | BlockType::MossCarpet | BlockType::Fern | BlockType::FernPlant => (
            TexturePalette { c0: [74, 128, 56], c1: [104, 158, 74], c2: Some([52, 96, 40]), alpha: 255 },
            TexturePattern::Noise,
        ),
        BlockType::Dirt | BlockType::CoarseSoil | BlockType::RootedSoil | BlockType::Mud | BlockType::PackedMud => (
            TexturePalette { c0: [108, 74, 48], c1: [134, 96, 62], c2: Some([84, 58, 38]), alpha: 255 },
            TexturePattern::Noise,
        ),
        BlockType::Sand => (
            TexturePalette { c0: [219, 205, 156], c1: [232, 220, 180], c2: None, alpha: 255 },
            TexturePattern::Noise,
        ),
        BlockType::Gravel => (
            TexturePalette { c0: [116, 112, 108], c1: [140, 136, 130], c2: Some([90, 88, 86]), alpha: 255 },
            TexturePattern::Speckle,
        ),
        BlockType::Snow => (
            TexturePalette { c0: [238, 242, 248], c1: [252, 253, 255], c2: None, alpha: 255 },
            TexturePattern::Noise,
        ),
        BlockType::Stone | BlockType::Andesite | BlockType::Tuff | BlockType::SlateRock | BlockType::Cobblestone | BlockType::CobbleMoss => (
            TexturePalette { c0: [116, 118, 124], c1: [138, 140, 148], c2: Some([94, 96, 102]), alpha: 255 },
            TexturePattern::Stone,
        ),
        BlockType::Bedrock => (
            TexturePalette { c0: [48, 48, 52], c1: [72, 72, 78], c2: Some([30, 30, 34]), alpha: 255 },
            TexturePattern::Stone,
        ),
        BlockType::Obsidian => (
            TexturePalette { c0: [24, 20, 42], c1: [38, 32, 60], c2: Some([14, 12, 26]), alpha: 255 },
            TexturePattern::Stone,
        ),
        BlockType::StoneBricks => (
            TexturePalette { c0: [122, 124, 130], c1: [140, 142, 150], c2: Some([104, 106, 112]), alpha: 255 },
            TexturePattern::Planks,
        ),
        BlockType::Clay => (
            TexturePalette { c0: [152, 156, 168], c1: [170, 174, 186], c2: None, alpha: 255 },
            TexturePattern::Stone,
        ),
        BlockType::CoalOre | BlockType::SlateCoalOre => (
            TexturePalette { c0: [110, 112, 118], c1: [70, 70, 74], c2: Some([30, 30, 32]), alpha: 255 },
            TexturePattern::Speckle,
        ),
        BlockType::IronOre | BlockType::SlateDiamondOre => (
            TexturePalette { c0: [116, 118, 124], c1: [214, 160, 132], c2: Some([180, 120, 90]), alpha: 255 },
            TexturePattern::Speckle,
        ),
        BlockType::GoldOre => (
            TexturePalette { c0: [116, 118, 124], c1: [255, 224, 96], c2: Some([230, 190, 50]), alpha: 255 },
            TexturePattern::Speckle,
        ),
        BlockType::DiamondOre => (
            TexturePalette { c0: [116, 118, 124], c1: [120, 235, 220], c2: Some([80, 200, 190]), alpha: 255 },
            TexturePattern::Speckle,
        ),
        BlockType::EmeraldOre => (
            TexturePalette { c0: [116, 118, 124], c1: [90, 225, 120], c2: Some([50, 190, 80]), alpha: 255 },
            TexturePattern::Speckle,
        ),
        BlockType::RedstoneOre => (
            TexturePalette { c0: [116, 118, 124], c1: [240, 80, 60], c2: Some([200, 50, 40]), alpha: 255 },
            TexturePattern::Speckle,
        ),
        BlockType::TreeTrunk | BlockType::NeedleWood | BlockType::WarmWood | BlockType::WetWood | BlockType::PaleWood | BlockType::DarkWood => (
            TexturePalette { c0: [98, 74, 48], c1: [120, 92, 60], c2: Some([76, 56, 36]), alpha: 255 },
            TexturePattern::Wood,
        ),
        BlockType::TreeLeaves | BlockType::NeedleCanopy | BlockType::WarmCanopy | BlockType::WetCanopy | BlockType::PaleCanopy | BlockType::BloomCanopy | BlockType::DarkCanopy => (
            TexturePalette { c0: [56, 108, 52], c1: [86, 142, 70], c2: Some([40, 82, 40]), alpha: 235 },
            TexturePattern::Leaves,
        ),
        BlockType::Planks => (
            TexturePalette { c0: [160, 128, 86], c1: [178, 146, 100], c2: Some([134, 106, 70]), alpha: 255 },
            TexturePattern::Planks,
        ),
        BlockType::Water => (
            TexturePalette { c0: [20, 60, 150], c1: [50, 100, 210], c2: None, alpha: 190 },
            TexturePattern::Water,
        ),
        BlockType::EmberRock | BlockType::GlowRock => (
            TexturePalette { c0: [120, 60, 20], c1: [235, 120, 30], c2: Some([255, 200, 80]), alpha: 255 },
            TexturePattern::Lava,
        ),
        _ => (
            TexturePalette { c0: [132, 122, 108], c1: [150, 140, 124], c2: None, alpha: 255 },
            TexturePattern::Stone,
        ),
    }
}

/// Map a block to a palette and pattern for procedural generation.
pub fn texture_style_for_block(block: BlockType) -> (r: (TexturePalette, TexturePattern))
    ensures
        r == style_for_block_spec(block),
{
    match block {
        BlockType::Grass | BlockType::ForestFloor | BlockType::BloomFloor | BlockType::MossMat | BlockType::MossCarpet | BlockType::Fern | BlockType::FernPlant => (
            TexturePalette { c0: [74, 128, 56], c1: [104, 158, 74], c2: Some([52, 96, 40]), alpha: 255 },
            TexturePattern::Noise,
        ),
        BlockType::Dirt | BlockType::CoarseSoil | BlockType::RootedSoil | BlockType::Mud | BlockType::PackedMud => (
            TexturePalette { c0: [108, 74, 48], c1: [134, 96, 62], c2: Some([84, 58, 38]), alpha: 255 },
            TexturePattern::Noise,
        ),
        BlockType::Sand => (
            TexturePalette { c0: [219, 205, 156], c1: [232, 220, 180], c2: None, alpha: 255 },
            TexturePattern::Noise,
        ),
        BlockType::Gravel => (
            TexturePalette { c0: [116, 112, 108], c1: [140, 136, 130], c2: Some([90, 88, 86]), alpha: 255 },
            TexturePattern::Speckle,
        ),
        BlockType::Snow => (
            TexturePalette { c0: [238, 242, 248], c1: [252, 253, 255], c2: None, alpha: 255 },
            TexturePattern::Noise,
        ),
        BlockType::Stone | BlockType::Andesite | BlockType::Tuff | BlockType::SlateRock | BlockType::Cobblestone | BlockType::CobbleMoss => (
            TexturePalette { c0: [116, 118, 124], c1: [138, 140, 148], c2: Some([94, 96, 102]), alpha: 255 },
            TexturePattern::Stone,
        ),
        BlockType::Bedrock => (
            TexturePalette { c0: [48, 48, 52], c1: [72, 72, 78], c2: Some([30, 30, 34]), alpha: 255 },
            TexturePattern::Stone,
        ),
        BlockType::Obsidian => (
            TexturePalette { c0: [24, 20, 42], c1: [38, 32, 60], c2: Some([14, 12, 26]), alpha: 255 },
            TexturePattern::Stone,
        ),
        BlockType::StoneBricks => (
            TexturePalette { c0: [122, 124, 130], c1: [140, 142, 150], c2: Some([104, 106, 112]), alpha: 255 },
            TexturePattern::Planks,
        ),
        BlockType::Clay => (
            TexturePalette { c0: [152, 156, 168], c1: [170, 174, 186], c2: None, alpha: 255 },
            TexturePattern::Stone,
        ),
        BlockType::CoalOre | BlockType::SlateCoalOre => (
            TexturePalette { c0: [110, 112, 118], c1: [70, 70, 74], c2: Some([30, 30, 32]), alpha: 255 },
            TexturePattern::Speckle,
        ),
        BlockType::IronOre | BlockType::SlateDiamondOre => (
            TexturePalette { c0: [116, 118, 124], c1: [214, 160, 132], c2: Some([180, 120, 90]), alpha: 255 },
            TexturePattern::Speckle,
        ),
        BlockType::GoldOre => (
            TexturePalette { c0: [116, 118, 124], c1: [255, 224, 96], c2: Some([230, 190, 50]), alpha: 255 },
            TexturePattern::Speckle,
        ),
        BlockType::DiamondOre => (
            TexturePalette { c0: [116, 118, 124], c1: [120, 235, 220], c2: Some([80, 200, 190]), alpha: 255 },
            TexturePattern::Speckle,
        ),
        BlockType::EmeraldOre => (
            TexturePalette { c0: [116, 118, 124], c1: [90, 225, 120], c2: Some([50, 190, 80]), alpha: 255 },
            TexturePattern::Speckle,
        ),
        BlockType::RedstoneOre => (
            TexturePalette { c0: [116, 118, 124], c1: [240, 80, 60], c2: Some([200, 50, 40]), alpha: 255 },
            TexturePattern::Speckle,
        ),
        BlockType::TreeTrunk | BlockType::NeedleWood | BlockType::WarmWood | BlockType::WetWood | BlockType::PaleWood | BlockType::DarkWood => (
            TexturePalette { c0: [98, 74, 48], c1: [120, 92, 60], c2: Some([76, 56, 36]), alpha: 255 },
            TexturePattern::Wood,
        ),
        BlockType::TreeLeaves | BlockType::NeedleCanopy | BlockType::WarmCanopy | BlockType::WetCanopy | BlockType::PaleCanopy | BlockType::BloomCanopy | BlockType::DarkCanopy => (
            TexturePalette { c0: [56, 108, 52], c1: [86, 142, 70], c2: Some([40, 82, 40]), alpha: 235 },
            TexturePattern::Leaves,
        ),
        BlockType::Planks => (
            TexturePalette { c0: [160, 128, 86], c1: [178, 146, 100], c2: Some([134, 106, 70]), alpha: 255 },
            TexturePattern::Planks,
        ),
        BlockType::Water => (
            TexturePalette { c0: [20, 60, 150], c1: [50, 100, 210], c2: None, alpha: 190 },
            TexturePattern::Water,
        ),
        BlockType::EmberRock | BlockType::GlowRock => (
            TexturePalette { c0: [120, 60, 20], c1: [235, 120, 30], c2: Some([255, 200, 80]), alpha: 255 },
            TexturePattern::Lava,
        ),
        _ => (
            TexturePalette { c0: [132, 122, 108], c1: [150, 140, 124], c2: None, alpha: 255 },
            TexturePattern::Stone,
        ),
    }
}

/// Palette and pattern by keyword, for texture names without a block.
pub open spec fn style_for_keywords_spec(n: Seq<char>) -> (TexturePalette, TexturePattern) {
    if contains_seq(n, "log"@) || contains_seq(n, "wood"@) || contains_seq(n, "trunk"@) {
        (
            TexturePalette { c0: [98, 74, 48], c1: [120, 92, 60], c2: Some([76, 56, 36]), alpha: 255 },
            TexturePattern::Wood,
        )
    } else if contains_seq(n, "leaves"@) || contains_seq(n, "canopy"@) {
        (
            TexturePalette { c0: [56, 108, 52], c1: [86, 142, 70], c2: Some([40, 82, 40]), alpha: 235 },
            TexturePattern::Leaves,
        )
    } else if contains_seq(n, "grass"@) {
        (
            TexturePalette { c0: [74, 128, 56], c1: [104, 158, 74], c2: Some([52, 96, 40]), alpha: 255 },
            TexturePattern::Noise,
        )
    } else if contains_seq(n, "sand"@) {
        (
            TexturePalette { c0: [219, 205, 156], c1: [232, 220, 180], c2: None, alpha: 255 },
            TexturePattern::Noise,
        )
    } else if contains_seq(n, "snow"@) {
        (
            TexturePalette { c0: [238, 242, 248], c1: [252, 253, 255], c2: None, alpha: 255 },
            TexturePattern::Noise,
        )
    } else if contains_seq(n, "water"@) {
        (
            TexturePalette { c0: [20, 60, 150], c1: [50, 100, 210], c2: None, alpha: 190 },
            TexturePattern::Water,
        )
    } else if contains_seq(n, "lava"@) || contains_seq(n, "ember"@) || contains_seq(n, "glow"@) {
        (
            TexturePalette { c0: [120, 60, 20], c1: [235, 120, 30], c2: Some([255, 200, 80]), alpha: 255 },
            TexturePattern::Lava,
        )
    } else if contains_seq(n, "ore"@) {
        (
            TexturePalette { c0: [116, 118, 124], c1: [235, 210, 90], c2: Some([180, 150, 50]), alpha: 255 },
            TexturePattern::Speckle,
        )
    } else if contains_seq(n, "planks"@) {
        (
            TexturePalette { c0: [160, 128, 86], c1: [178, 146, 100], c2: Some([134, 106, 70]), alpha: 255 },
            TexturePattern::Planks,
        )
    } else {
        (
            TexturePalette { c0: [132, 122, 108], c1: [150, 140, 124], c2: None, alpha: 255 },
            TexturePattern::Stone,
        )
    }
}

/// Palette and pattern for a texture file name.
pub open spec fn style_for_name_spec(name: Seq<char>) -> (TexturePalette, TexturePattern) {
    match first_named_from(name, 0) {
        Some(b) => style_for_block_spec(b),
        None => style_for_keywords_spec(lower_seq(name)),
    }
}

/// Which blocks get which pattern: ground cover and soils (grass, forest
/// and bloom floor, moss, ferns, dirt, coarse and rooted soil, mud, sand,
/// snow) are smooth noise; gravel and the ores are speckled; trunks and
/// wood show grain; leaves and canopies are leaves; planks and stone
/// bricks are boards; water is water; ember and glow rock are lava; every
/// other block is stone. Only leaves (alpha 235) and water (alpha 190) are
/// translucent.
pub proof fn lemma_block_patterns(b: BlockType)
    ensures
        ({
            let (palette, pattern) = style_for_block_spec(b);
            &&& (pattern == TexturePattern::Noise) == (b == BlockType::Grass || b == BlockType::ForestFloor || b == BlockType::BloomFloor || b == BlockType::MossMat || b == BlockType::MossCarpet || b == BlockType::Fern || b == BlockType::FernPlant || b == BlockType::Dirt || b == BlockType::CoarseSoil || b == BlockType::RootedSoil || b == BlockType::Mud || b == BlockType::PackedMud || b == BlockType::Sand || b == BlockType::Snow)
            &&& (pattern == TexturePattern::Speckle) == (b == BlockType::Gravel || b == BlockType::CoalOre || b == BlockType::SlateCoalOre || b == BlockType::IronOre || b == BlockType::SlateDiamondOre || b == BlockType::GoldOre || b == BlockType::DiamondOre || b == BlockType::EmeraldOre || b == BlockType::RedstoneOre)
            &&& (pattern == TexturePattern::Wood) == (b == BlockType::TreeTrunk || b == BlockType::NeedleWood || b == BlockType::WarmWood || b == BlockType::WetWood || b == BlockType::PaleWood || b == BlockType::DarkWood)
            &&& (pattern == TexturePattern::Leaves) == (b == BlockType::TreeLeaves || b == BlockType::NeedleCanopy || b == BlockType::WarmCanopy || b == BlockType::WetCanopy || b == BlockType::PaleCanopy || b == BlockType::BloomCanopy || b == BlockType::DarkCanopy)
            &&& (pattern == TexturePattern::Planks) == (b == BlockType::Planks || b == BlockType::StoneBricks)
            &&& (pattern == TexturePattern::Water) == (b == BlockType::Water)
            &&& (pattern == TexturePattern::Lava) == (b == BlockType::EmberRock || b == BlockType::GlowRock)
            &&& pattern != TexturePattern::Rings
            &&& (palette.alpha == 235) == (b == BlockType::TreeLeaves || b == BlockType::NeedleCanopy || b == BlockType::WarmCanopy || b == BlockType::WetCanopy || b == BlockType::PaleCanopy || b == BlockType::BloomCanopy || b == BlockType::DarkCanopy)
            &&& (palette.alpha == 190) == (b == BlockType::Water)
            &&& palette.alpha == 255 || palette.alpha == 235 || palette.alpha == 190
        }),
{
}

/// `word` occurs somewhere in `n`.
pub open spec fn has_keyword(n: Seq<char>, word: Seq<char>) -> bool {
    exists|i: int| 0 <= i <= n.len() - word.len() && #[trigger] n.subrange(i, i + word.len()) == word
}

/// The two ways of saying that a keyword occurs agree.
proof fn lemma_has_keyword(n: Seq<char>, word: Seq<char>)
    ensures
        has_keyword(n, word) == contains_seq(n, word),
{
    if has_keyword(n, word) {
        let i = choose|i: int| 0 <= i <= n.len() - word.len() && #[trigger] n.subrange(i, i + word.len()) == word;
        assert(occurs_at(n, word, i));
    }
    if contains_seq(n, word) {
        let i = choose|i: int| occurs_at(n, word, i);
        assert(n.subrange(i, i + word.len()) == word);
    }
}

/// A texture name that is no block's registry name is styled by the first
/// keyword group its lower-cased form contains, in this order: log, wood or
/// trunk (wood grain); leaves or canopy (leaves); grass; sand; snow; water;
/// lava, ember or glow (lava); ore (speckles); planks. A name with none of
/// them is plain stone.
pub proof fn lemma_keyword_styles(name: Seq<char>)
    requires
        first_named_from(name, 0) is None,
    ensures
        ({
            let r = style_for_name_spec(name);
            let n = lower_seq(name);
            let wood = has_keyword(n, "trunk"@) || has_keyword(n, "wood"@) || has_keyword(n, "log"@);
            let leaves = has_keyword(n, "canopy"@) || has_keyword(n, "leaves"@);
            let grass = has_keyword(n, "grass"@);
            let sand = has_keyword(n, "sand"@);
            let snow = has_keyword(n, "snow"@);
            let water = has_keyword(n, "water"@);
            let hot = has_keyword(n, "glow"@) || has_keyword(n, "ember"@) || has_keyword(n, "lava"@);
            let ore = has_keyword(n, "ore"@);
            let planks = has_keyword(n, "planks"@);
            &&& wood ==> r == (TexturePalette { c0: [98, 74, 48], c1: [120, 92, 60], c2: Some([76, 56, 36]), alpha: 255 }, TexturePattern::Wood)
            &&& !wood && leaves ==> r == (TexturePalette { c0: [56, 108, 52], c1: [86, 142, 70], c2: Some([40, 82, 40]), alpha: 235 }, TexturePattern::Leaves)
            &&& !wood && !leaves && grass ==> r == (TexturePalette { c0: [74, 128, 56], c1: [104, 158, 74], c2: Some([52, 96, 40]), alpha: 255 }, TexturePattern::Noise)
            &&& !wood && !leaves && !grass && sand ==> r == (TexturePalette { c0: [219, 205, 156], c1: [232, 220, 180], c2: None, alpha: 255 }, TexturePattern::Noise)
            &&& !wood && !leaves && !grass && !sand && snow ==> r == (TexturePalette { c0: [238, 242, 248], c1: [252, 253, 255], c2: None, alpha: 255 }, TexturePattern::Noise)
            &&& !wood && !leaves && !grass && !sand && !snow && water ==> r == (TexturePalette { c0: [20, 60, 150], c1: [50, 100, 210], c2: None, alpha: 190 }, TexturePattern::Water)
            &&& !wood && !leaves && !grass && !sand && !snow && !water && hot ==> r == (TexturePalette { c0: [120, 60, 20], c1: [235, 120, 30], c2: Some([255, 200, 80]), alpha: 255 }, TexturePattern::Lava)
            &&& !wood && !leaves && !grass && !sand && !snow && !water && !hot && ore ==> r == (TexturePalette { c0: [116, 118, 124], c1: [235, 210, 90], c2: Some([180, 150, 50]), alpha: 255 }, TexturePattern::Speckle)
            &&& !wood && !leaves && !grass && !sand && !snow && !water && !hot && !ore && planks ==> r == (TexturePalette { c0: [160, 128, 86], c1: [178, 146, 100], c2: Some([134, 106, 70]), alpha: 255 }, TexturePattern::Planks)
            &&& !wood && !leaves && !grass && !sand && !snow && !water && !hot && !ore && !planks ==> r == (TexturePalette { c0: [132, 122, 108], c1: [150, 140, 124], c2: None, alpha: 255 }, TexturePattern::Stone)
        }),
{
    let n = lower_seq(name);
    lemma_has_keyword(n, "log"@);
    lemma_has_keyword(n, "wood"@);
    lemma_has_keyword(n, "trunk"@);
    lemma_has_keyword(n, "leaves"@);
    lemma_has_keyword(n, "canopy"@);
    lemma_has_keyword(n, "grass"@);
    lemma_has_keyword(n, "sand"@);
    lemma_has_keyword(n, "snow"@);
    lemma_has_keyword(n, "water"@);
    lemma_has_keyword(n, "lava"@);
    lemma_has_keyword(n, "ember"@);
    lemma_has_keyword(n, "glow"@);
    lemma_has_keyword(n, "ore"@);
    lemma_has_keyword(n, "planks"@);
}

/// Whether the lower-cased name contains a keyword.
fn has_word(n: &Vec<char>, word: &str) -> (r: bool)
    ensures
        r == contains_seq(n@, word@),
{
    contains_vec(n, &chars_of(word))
}

/// Look up a palette and pattern by texture file name (e.g. `"oak_log"`).
/// A name that is a block's registry name uses that block's style; other
/// names are matched by keyword (log/wood/trunk, leaves/canopy, grass,
/// sand, snow, water, lava/ember/glow, ore, planks), falling back to plain
/// stone. Used by the texture atlas when an asset file is missing.
pub fn texture_style_for_name(name: &str) -> (r: (TexturePalette, TexturePattern))
    ensures
        r == style_for_name_spec(name@),
{
    if let Some(block) = BlockType::from_name(name) {
        return texture_style_for_block(block);
    }
    let n = lower_vec(&chars_of(name));
    if has_word(&n, "log") || has_word(&n, "wood") || has_word(&n, "trunk") {
        (
            TexturePalette { c0: [98, 74, 48], c1: [120, 92, 60], c2: Some([76, 56, 36]), alpha: 255 },
            TexturePattern::Wood,
        )
    } else if has_word(&n, "leaves") || has_word(&n, "canopy") {
        (
            TexturePalette { c0: [56, 108, 52], c1: [86, 142, 70], c2: Some([40, 82, 40]), alpha: 235 },
            TexturePattern::Leaves,
        )
    } else if has_word(&n, "grass") {
        (
            TexturePalette { c0: [74, 128, 56], c1: [104, 158, 74], c2: Some([52, 96, 40]), alpha: 255 },
            TexturePattern::Noise,
        )
    } else if has_word(&n, "sand") {
        (
            TexturePalette { c0: [219, 205, 156], c1: [232, 220, 180], c2: None, alpha: 255 },
            TexturePattern::Noise,
        )
    } else if has_word(&n, "snow") {
        (
            TexturePalette { c0: [238, 242, 248], c1: [252, 253, 255], c2: None, alpha: 255 },
            TexturePattern::Noise,
        )
    } else if has_word(&n, "water") {
        (
            TexturePalette { c0: [20, 60, 150], c1: [50, 100, 210], c2: None, alpha: 190 },
            TexturePattern::Water,
        )
    } else if has_word(&n, "lava") || has_word(&n, "ember") || has_word(&n, "glow") {
        (
            TexturePalette { c0: [120, 60, 20], c1: [235, 120, 30], c2: Some([255, 200, 80]), alpha: 255 },
            TexturePattern::Lava,
        )
    } else if has_word(&n, "ore") {
        (
            TexturePalette { c0: [116, 118, 124], c1: [235, 210, 90], c2: Some([180, 150, 50]), alpha: 255 },
            TexturePattern::Speckle,
        )
    } else if has_word(&n, "planks") {
        (
            TexturePalette { c0: [160, 128, 86], c1: [178, 146, 100], c2: Some([134, 106, 70]), alpha: 255 },
            TexturePattern::Planks,
        )
    } else {
        (
            TexturePalette { c0: [132, 122, 108], c1: [150, 140, 124], c2: None, alpha: 255 },
            TexturePattern::Stone,
        )
    }
}

} // verus!
