//! Biomes and the block-level half of terrain generation.
//!
//! The noise fields that decide a column's biome, height and caves are
//! sampled by the application; what a column is built from once those
//! samples are known — which block lies at which depth, where water
//! stands, where ground cover may grow, where the player may spawn — is
//! decided here.

use vstd::prelude::*;
use crate::block::BlockType;

verus! {

/// Sea level (world y).
pub const SEA_LEVEL: usize = 46;
/// Chunk width (x) in blocks.
pub const CHUNK_W: usize = 16;
/// Chunk height (y) in blocks.
pub const CHUNK_H: usize = 256;
/// Chunk depth (z) in blocks.
pub const CHUNK_D: usize = 16;

/// Real-world climate zone (Whittaker-style classification from measured
/// annual temperature and precipitation).
#[derive(Debug, Clone, Copy, PartialEq, Eq, Structural)]
pub enum ClimateZone {
    /// Warmest month below 10 °C: polar snowfields.
    Tundra,
    /// Cold: boreal conifer forest.
    Boreal,
    /// Mild with moderate rain: temperate forest and grassland.
    Temperate,
    /// Warm with little rain: steppe.
    Dry,
    /// Arid: desert.
    Desert,
    /// Hot and wet: rainforest.
    TropicalWet,
}

/// The world's biomes.
#[derive(Debug, Clone, Copy, PartialEq, Eq, Hash, Structural)]
pub enum BiomeId {
    Ocean,
    Coast,
    Plains,
    Forest,
    DarkForest,
    Swamp,
    Taiga,
    Desert,
    Mountains,
}

/// Tree species.
#[derive(Debug, Clone, Copy, PartialEq, Eq, Hash, Structural)]
pub enum TreeKind {
    Oak,
    Birch,
    Pine,
    DarkOak,
    DeadTree,
}

impl BiomeId {
    /// Class index of the biome (0 Ocean … 8 Mountains), the order the
    /// biome classifier uses.
    pub open spec fn index_spec(self) -> usize {
        match self {
            BiomeId::Ocean => 0,
            BiomeId::Coast => 1,
            BiomeId::Plains => 2,
            BiomeId::Forest => 3,
            BiomeId::DarkForest => 4,
            BiomeId::Swamp => 5,
            BiomeId::Taiga => 6,
            BiomeId::Desert => 7,
            BiomeId::Mountains => 8,
        }
    }

    /// Class index of the biome.
    pub fn index(self) -> (r: usize)
        ensures
            r == self.index_spec(),
    {
        match self {
            BiomeId::Ocean => 0,
            BiomeId::Coast => 1,
            BiomeId::Plains => 2,
            BiomeId::Forest => 3,
            BiomeId::DarkForest => 4,
            BiomeId::Swamp => 5,
            BiomeId::Taiga => 6,
            BiomeId::Desert => 7,
            BiomeId::Mountains => 8,
        }
    }

    /// The biome with a class index (`None` from 9 on).
    pub fn from_index(i: usize) -> (r: Option<BiomeId>)
        ensures
            i < 9 ==> (r matches Some(b) && b.index_spec() == i),
            i >= 9 ==> r is None,
    {
        match i {
            0 => Some(BiomeId::Ocean),
            1 => Some(BiomeId::Coast),
            2 => Some(BiomeId::Plains),
            3 => Some(BiomeId::Forest),
            4 => Some(BiomeId::DarkForest),
            5 => Some(BiomeId::Swamp),
            6 => Some(BiomeId::Taiga),
            7 => Some(BiomeId::Desert),
            8 => Some(BiomeId::Mountains),
            _ => None,
        }
    }

    /// Registry name of the biome.
    pub open spec fn name_spec(self) -> &'static str {
        match self {
            BiomeId::Ocean => "ocean",
            BiomeId::Coast => "coast",
            BiomeId::Plains => "plains",
            BiomeId::Forest => "forest",
            BiomeId::DarkForest => "dark_forest",
            BiomeId::Swamp => "swamp",
            BiomeId::Taiga => "taiga",
            BiomeId::Desert => "desert",
            BiomeId::Mountains => "mountains",
        }
    }

    /// Registry name of the biome.
    pub fn name(self) -> (r: &'static str)
        ensures
            r == self.name_spec(),
    {
        match self {
            BiomeId::Ocean => "ocean",
            BiomeId::Coast => "coast",
            BiomeId::Plains => "plains",
            BiomeId::Forest => "forest",
            BiomeId::DarkForest => "dark_forest",
            BiomeId::Swamp => "swamp",
            BiomeId::Taiga => "taiga",
            BiomeId::Desert => "desert",
            BiomeId::Mountains => "mountains",
        }
    }
}

/// The four blocks a biome builds its terrain from.
#[derive(Debug, Clone, Copy, PartialEq, Eq, Structural)]
pub struct BiomeBlocks {
    /// Top block of a dry column.
    pub surface_block: BlockType,
    /// Filler below the surface.
    pub ground_block: BlockType,
    /// Top block of a submerged column.
    pub shoreline_block: BlockType,
    /// Exposed rock.
    pub cliff_block: BlockType,
}

/// The blocks of each biome.
pub open spec fn biome_blocks_spec(id: BiomeId) -> BiomeBlocks {
    match id {
        BiomeId::Ocean => BiomeBlocks { surface_block: BlockType::Sand, ground_block: BlockType::Clay, shoreline_block: BlockType::Sand, cliff_block: BlockType::Gravel },
        BiomeId::Coast => BiomeBlocks { surface_block: BlockType::Sand, ground_block: BlockType::Sand, shoreline_block: BlockType::Sand, cliff_block: BlockType::Gravel },
        BiomeId::Plains => BiomeBlocks { surface_block: BlockType::Grass, ground_block: BlockType::Dirt, shoreline_block: BlockType::Gravel, cliff_block: BlockType::Stone },
        BiomeId::Forest => BiomeBlocks { surface_block: BlockType::Grass, ground_block: BlockType::Dirt, shoreline_block: BlockType::Gravel, cliff_block: BlockType::Stone },
        BiomeId::DarkForest => BiomeBlocks { surface_block: BlockType::ForestFloor, ground_block: BlockType::Dirt, shoreline_block: BlockType::Clay, cliff_block: BlockType::Stone },
        BiomeId::Swamp => BiomeBlocks { surface_block: BlockType::Mud, ground_block: BlockType::PackedMud, shoreline_block: BlockType::Clay, cliff_block: BlockType::RootedSoil },
        BiomeId::Taiga => BiomeBlocks { surface_block: BlockType::Grass, ground_block: BlockType::Dirt, shoreline_block: BlockType::Gravel, cliff_block: BlockType::Andesite },
        BiomeId::Desert => BiomeBlocks { surface_block: BlockType::Sand, ground_block: BlockType::Sand, shoreline_block: BlockType::Sand, cliff_block: BlockType::Stone },
        BiomeId::Mountains => BiomeBlocks { surface_block: BlockType::Grass, ground_block: BlockType::Gravel, shoreline_block: BlockType::Gravel, cliff_block: BlockType::Andesite },
    }
}

/// The blocks a biome builds its terrain from.
pub fn biome_blocks(id: BiomeId) -> (r: BiomeBlocks)
    ensures
        r == biome_blocks_spec(id),
{
    match id {
        BiomeId::Ocean => BiomeBlocks { surface_block: BlockType::Sand, ground_block: BlockType::Clay, shoreline_block: BlockType::Sand, cliff_block: BlockType::Gravel },
        BiomeId::Coast => BiomeBlocks { surface_block: BlockType::Sand, ground_block: BlockType::Sand, shoreline_block: BlockType::Sand, cliff_block: BlockType::Gravel },
        BiomeId::Plains => BiomeBlocks { surface_block: BlockType::Grass, ground_block: BlockType::Dirt, shoreline_block: BlockType::Gravel, cliff_block: BlockType::Stone },
        BiomeId::Forest => BiomeBlocks { surface_block: BlockType::Grass, ground_block: BlockType::Dirt, shoreline_block: BlockType::Gravel, cliff_block: BlockType::Stone },
        BiomeId::DarkForest => BiomeBlocks { surface_block: BlockType::ForestFloor, ground_block: BlockType::Dirt, shoreline_block: BlockType::Clay, cliff_block: BlockType::Stone },
        BiomeId::Swamp => BiomeBlocks { surface_block: BlockType::Mud, ground_block: BlockType::PackedMud, shoreline_block: BlockType::Clay, cliff_block: BlockType::RootedSoil },
        BiomeId::Taiga => BiomeBlocks { surface_block: BlockType::Grass, ground_block: BlockType::Dirt, shoreline_block: BlockType::Gravel, cliff_block: BlockType::Andesite },
        BiomeId::Desert => BiomeBlocks { surface_block: BlockType::Sand, ground_block: BlockType::Sand, shoreline_block: BlockType::Sand, cliff_block: BlockType::Stone },
        BiomeId::Mountains => BiomeBlocks { surface_block: BlockType::Grass, ground_block: BlockType::Gravel, shoreline_block: BlockType::Gravel, cliff_block: BlockType::Andesite },
    }
}

/// The tree species a biome grows: none on ocean, coast and desert; oak
/// on plains and in forests; dark oak in dark forests; oak and dead trees
/// in swamps; pine in taiga and mountains.
pub open spec fn tree_kinds_spec(biome: BiomeId) -> Seq<TreeKind> {
    match biome {
        BiomeId::Ocean | BiomeId::Coast | BiomeId::Desert => Seq::empty(),
        BiomeId::Plains | BiomeId::Forest => seq![TreeKind::Oak],
        BiomeId::DarkForest => seq![TreeKind::DarkOak],
        BiomeId::Swamp => seq![TreeKind::Oak, TreeKind::DeadTree],
        BiomeId::Taiga | BiomeId::Mountains => seq![TreeKind::Pine],
    }
}

/// The tree species a biome grows (see [`tree_kinds_spec`]).
pub fn tree_kinds(biome: BiomeId) -> (r: &'static [TreeKind])
    ensures
        r@ == tree_kinds_spec(biome),
{
    let r: &'static [TreeKind] = match biome {
        BiomeId::Ocean | BiomeId::Coast | BiomeId::Desert => &[],
        BiomeId::Plains | BiomeId::Forest => &[TreeKind::Oak],
        BiomeId::DarkForest => &[TreeKind::DarkOak],
        BiomeId::Swamp => &[TreeKind::Oak, TreeKind::DeadTree],
        BiomeId::Taiga | BiomeId::Mountains => &[TreeKind::Pine],
    };
    r
}

/// Filler block `depth` blocks below the surface (1 ≤ depth ≤ 5).
pub open spec fn filler_block_spec(biome: BiomeId, blocks: BiomeBlocks, depth: usize) -> BlockType {
    match biome {
        BiomeId::Ocean | BiomeId::Coast => if depth <= 4 { BlockType::Sand } else { BlockType::Clay },
        BiomeId::Swamp => if depth <= 2 {
            BlockType::Mud
        } else if depth <= 5 {
            BlockType::PackedMud
        } else {
            blocks.ground_block
        },
        BiomeId::Desert => if depth <= 6 { BlockType::Sand } else { BlockType::Clay },
        BiomeId::Mountains => if depth <= 2 {
            BlockType::Gravel
        } else if depth <= 5 {
            BlockType::Andesite
        } else {
            blocks.cliff_block
        },
        BiomeId::Taiga => if depth <= 2 { BlockType::CoarseSoil } else { blocks.ground_block },
        BiomeId::DarkForest => if depth <= 2 { BlockType::RootedSoil } else { blocks.ground_block },
        BiomeId::Plains | BiomeId::Forest => blocks.ground_block,
    }
}

/// Filler block `depth` blocks below the surface of a column.
pub fn filler_block(biome: BiomeId, blocks: BiomeBlocks, depth: usize) -> (r: BlockType)
    ensures
        r == filler_block_spec(biome, blocks, depth),
{
    match biome {
        BiomeId::Ocean | BiomeId::Coast => if depth <= 4 { BlockType::Sand } else { BlockType::Clay },
        BiomeId::Swamp => if depth <= 2 {
            BlockType::Mud
        } else if depth <= 5 {
            BlockType::PackedMud
        } else {
            blocks.ground_block
        },
        BiomeId::Desert => if depth <= 6 { BlockType::Sand } else { BlockType::Clay },
        BiomeId::Mountains => if depth <= 2 {
            BlockType::Gravel
        } else if depth <= 5 {
            BlockType::Andesite
        } else {
            blocks.cliff_block
        },
        BiomeId::Taiga => if depth <= 2 { BlockType::CoarseSoil } else { blocks.ground_block },
        BiomeId::DarkForest => if depth <= 2 { BlockType::RootedSoil } else { blocks.ground_block },
        BiomeId::Plains | BiomeId::Forest => blocks.ground_block,
    }
}

/// Surfaces a ground-cover block (grass tuft, fern, dead bush, cactus)
/// may sit on.
pub open spec fn supports_cover_spec(block: BlockType) -> bool {
    block == BlockType::Grass || block == BlockType::ForestFloor || block == BlockType::BloomFloor
        || block == BlockType::CoarseSoil || block == BlockType::RootedSoil || block
        == BlockType::MossMat || block == BlockType::Mud || block == BlockType::Sand
}

/// True when a ground-cover block may sit on top of `block`.
pub fn supports_cover_surface(block: BlockType) -> (r: bool)
    ensures
        r == supports_cover_spec(block),
{
    matches!(
        block,
        BlockType::Grass | BlockType::ForestFloor | BlockType::BloomFloor | BlockType::CoarseSoil
            | BlockType::RootedSoil | BlockType::MossMat | BlockType::Mud | BlockType::Sand
    )
}

/// The layers under a biome's surface, by depth below it: sand on ocean
/// and coast down to depth 4, clay below; mud two deep in swamps, packed
/// mud to depth 5, then the ground block; sand in deserts down to depth 6,
/// clay below; gravel two deep on mountains, andesite to depth 5, then the
/// cliff block; coarse soil two deep in taiga and rooted soil two deep in
/// dark forests, the ground block below; the ground block on plains and in
/// forests.
pub proof fn lemma_filler_layers(biome: BiomeId, blocks: BiomeBlocks, depth: usize)
    requires
        depth >= 1,
    ensures
        ({
            let f = filler_block_spec(biome, blocks, depth);
            &&& (biome == BiomeId::Ocean || biome == BiomeId::Coast) && depth <= 4 ==> f == BlockType::Sand
            &&& (biome == BiomeId::Ocean || biome == BiomeId::Coast) && depth >= 5 ==> f == BlockType::Clay
            &&& biome == BiomeId::Swamp && depth <= 2 ==> f == BlockType::Mud
            &&& biome == BiomeId::Swamp && 3 <= depth <= 5 ==> f == BlockType::PackedMud
            &&& biome == BiomeId::Swamp && depth >= 6 ==> f == blocks.ground_block
            &&& biome == BiomeId::Desert && depth <= 6 ==> f == BlockType::Sand
            &&& biome == BiomeId::Desert && depth >= 7 ==> f == BlockType::Clay
            &&& biome == BiomeId::Mountains && depth <= 2 ==> f == BlockType::Gravel
            &&& biome == BiomeId::Mountains && 3 <= depth <= 5 ==> f == BlockType::Andesite
            &&& biome == BiomeId::Mountains && depth >= 6 ==> f == blocks.cliff_block
            &&& biome == BiomeId::Taiga && depth <= 2 ==> f == BlockType::CoarseSoil
            &&& biome == BiomeId::Taiga && depth >= 3 ==> f == blocks.ground_block
            &&& biome == BiomeId::DarkForest && depth <= 2 ==> f == BlockType::RootedSoil
            &&& biome == BiomeId::DarkForest && depth >= 3 ==> f == blocks.ground_block
            &&& (biome == BiomeId::Plains || biome == BiomeId::Forest) ==> f == blocks.ground_block
        }),
{
}

/// Where a column's surface noise falls against its biome's thresholds.
#[derive(Debug, Clone, Copy, PartialEq, Eq, Structural)]
pub enum SurfaceNoise {
    /// Below the biome's lower threshold.
    Low,
    /// Between the thresholds.
    Mid,
    /// Above the biome's upper threshold.
    High,
}

/// The top block of a column: the shoreline block when it is submerged or
/// on ocean and coast; snow on taiga and mountains above the snowline;
/// otherwise the biome's variation chosen by the surface noise.
pub open spec fn surface_block_spec(
    biome: BiomeId,
    blocks: BiomeBlocks,
    flooded: bool,
    above_snowline: bool,
    noise: SurfaceNoise,
) -> BlockType {
    if flooded {
        blocks.shoreline_block
    } else {
        match biome {
            BiomeId::Ocean | BiomeId::Coast => blocks.shoreline_block,
            BiomeId::Plains => match noise {
                SurfaceNoise::High => BlockType::CoarseSoil,
                SurfaceNoise::Low => BlockType::BloomFloor,
                SurfaceNoise::Mid => blocks.surface_block,
            },
            BiomeId::Forest => match noise {
                SurfaceNoise::High => BlockType::ForestFloor,
                SurfaceNoise::Low => BlockType::BloomFloor,
                SurfaceNoise::Mid => blocks.surface_block,
            },
            BiomeId::DarkForest => if noise == SurfaceNoise::High {
                BlockType::ForestFloor
            } else {
                BlockType::RootedSoil
            },
            BiomeId::Swamp => if noise == SurfaceNoise::High {
                BlockType::MossMat
            } else {
                blocks.surface_block
            },
            BiomeId::Taiga => if above_snowline {
                BlockType::Snow
            } else if noise == SurfaceNoise::High {
                BlockType::CoarseSoil
            } else {
                blocks.surface_block
            },
            BiomeId::Desert => if noise == SurfaceNoise::High {
                BlockType::Sand
            } else {
                BlockType::CoarseSoil
            },
            BiomeId::Mountains => if above_snowline {
                BlockType::Snow
            } else if noise == SurfaceNoise::High {
                blocks.cliff_block
            } else {
                blocks.surface_block
            },
        }
    }
}

/// The top block of a column (see [`surface_block_spec`]). The caller
/// compares the surface noise with the biome's thresholds and the column's
/// height with the snowline.
pub fn surface_block(
    biome: BiomeId,
    blocks: BiomeBlocks,
    flooded: bool,
    above_snowline: bool,
    noise: SurfaceNoise,
) -> (r: BlockType)
    ensures
        r == surface_block_spec(biome, blocks, flooded, above_snowline, noise),
{
    if flooded {
        return blocks.shoreline_block;
    }
    match biome {
        BiomeId::Ocean | BiomeId::Coast => blocks.shoreline_block,
        BiomeId::Plains => match noise {
            SurfaceNoise::High => BlockType::CoarseSoil,
            SurfaceNoise::Low => BlockType::BloomFloor,
            SurfaceNoise::Mid => blocks.surface_block,
        },
        BiomeId::Forest => match noise {
            SurfaceNoise::High => BlockType::ForestFloor,
            SurfaceNoise::Low => BlockType::BloomFloor,
            SurfaceNoise::Mid => blocks.surface_block,
        },
        BiomeId::DarkForest => if noise == SurfaceNoise::High {
            BlockType::ForestFloor
        } else {
            BlockType::RootedSoil
        },
        BiomeId::Swamp => if noise == SurfaceNoise::High {
            BlockType::MossMat
        } else {
            blocks.surface_block
        },
        BiomeId::Taiga => if above_snowline {
            BlockType::Snow
        } else if noise == SurfaceNoise::High {
            BlockType::CoarseSoil
        } else {
            blocks.surface_block
        },
        BiomeId::Desert => if noise == SurfaceNoise::High {
            BlockType::Sand
        } else {
            BlockType::CoarseSoil
        },
        BiomeId::Mountains => if above_snowline {
            BlockType::Snow
        } else if noise == SurfaceNoise::High {
            blocks.cliff_block
        } else {
            blocks.surface_block
        },
    }
}

/// The integer facts of one sampled terrain column.
#[derive(Debug, Clone, Copy, PartialEq, Eq, Structural)]
pub struct ColumnLayout {
    pub biome: BiomeId,
    /// The biome's blocks.
    pub blocks: BiomeBlocks,
    /// World y of the top solid block.
    pub surface: usize,
    /// World y of the water surface (`== surface` for a dry column).
    pub water_top: usize,
    /// The top block chosen for a dry column.
    pub surface_block: BlockType,
}

/// Water level of a column: the sea fills everything below sea level; a
/// low swamp column with a pool (decided by the caller from humidity and
/// pool noise) is flooded one block deep, never above `SEA_LEVEL + 2`; any
/// other column is dry.
pub open spec fn water_top_spec(biome: BiomeId, surface: usize, swamp_pool: bool) -> usize {
    if surface < SEA_LEVEL {
        SEA_LEVEL
    } else if biome == BiomeId::Swamp && surface <= SEA_LEVEL + 2 && swamp_pool {
        if surface + 1 < SEA_LEVEL + 2 { (surface + 1) as usize } else { (SEA_LEVEL + 2) as usize }
    } else {
        surface
    }
}

/// Water level of a column (see [`water_top_spec`]).
pub fn water_top(biome: BiomeId, surface: usize, swamp_pool: bool) -> (r: usize)
    ensures
        r == water_top_spec(biome, surface, swamp_pool),
{
    if surface < SEA_LEVEL {
        return SEA_LEVEL;
    }
    if biome == BiomeId::Swamp && surface <= SEA_LEVEL + 2 && swamp_pool {
        let raised = surface + 1;
        return if raised < SEA_LEVEL + 2 { raised } else { SEA_LEVEL + 2 };
    }
    surface
}

/// The block at height `y` of a terrain column, given per-height cave,
/// ore and deep-stone samples.
pub open spec fn column_block(
    l: ColumnLayout,
    caves: Seq<bool>,
    ores: Seq<Option<BlockType>>,
    deep: Seq<BlockType>,
    y: int,
) -> BlockType {
    let flooded = l.water_top > l.surface;
    if y == l.surface {
        if flooded { l.blocks.shoreline_block } else { l.surface_block }
    } else if y == 0 {
        BlockType::Bedrock
    } else if y < l.surface {
        if caves[y] {
            if flooded && y <= SEA_LEVEL - 3 { BlockType::Water } else { BlockType::Air }
        } else if ores[y] is Some {
            ores[y]->0
        } else if l.surface - y <= 5 {
            filler_block_spec(l.biome, l.blocks, (l.surface - y) as usize)
        } else {
            deep[y]
        }
    } else if flooded && y <= l.water_top {
        BlockType::Water
    } else {
        BlockType::Air
    }
}

/// Build one terrain column of `CHUNK_H` blocks: bedrock at the bottom;
/// below the surface carved caves (flooded below `SEA_LEVEL - 3` under
/// water), ores, five blocks of biome filler, then deep stone; the surface
/// block (the shoreline block when submerged); water up to the water
/// level; air above.
///
/// `caves[y]`, `ores[y]` and `deep[y]` are the caller's noise samples for
/// height `y`.
pub fn fill_terrain_column(
    l: &ColumnLayout,
    caves: &Vec<bool>,
    ores: &Vec<Option<BlockType>>,
    deep: &Vec<BlockType>,
) -> (column: Vec<BlockType>)
    requires
        l.surface < CHUNK_H,
        caves.len() == CHUNK_H,
        ores.len() == CHUNK_H,
        deep.len() == CHUNK_H,
    ensures
        column.len() == CHUNK_H,
        forall|y: int| 0 <= y < CHUNK_H ==> #[trigger] column@[y] == column_block(*l, caves@, ores@, deep@, y),
{
    let flooded = l.water_top > l.surface;
    let mut column: Vec<BlockType> = Vec::new();
    let mut y: usize = 0;
    while y < CHUNK_H
        invariant
            l.surface < CHUNK_H,
            caves.len() == CHUNK_H,
            ores.len() == CHUNK_H,
            deep.len() == CHUNK_H,
            flooded == (l.water_top > l.surface),
            y <= CHUNK_H,
            column.len() == y,
            forall|k: int| 0 <= k < y ==> #[trigger] column@[k] == column_block(*l, caves@, ores@, deep@, k),
        decreases CHUNK_H - y,
    {
        let b = if y == l.surface {
            if flooded { l.blocks.shoreline_block } else { l.surface_block }
        } else if y == 0 {
            BlockType::Bedrock
        } else if y < l.surface {
            if caves[y] {
                if flooded && y <= SEA_LEVEL - 3 { BlockType::Water } else { BlockType::Air }
            } else {
                match ores[y] {
                    Some(ore) => ore,
                    None => {
                        let depth = l.surface - y;
                        if depth <= 5 {
                            filler_block(l.biome, l.blocks, depth)
                        } else {
                            deep[y]
                        }
                    },
                }
            }
        } else if flooded && y <= l.water_top {
            BlockType::Water
        } else {
            BlockType::Air
        };
        column.push(b);
        y = y + 1;
    }
    column
}

/// How humid a column is, relative to the ground-cover thresholds.
#[derive(Debug, Clone, Copy, PartialEq, Eq, Structural)]
pub enum HumidityBand {
    /// Humidity at most 0.62.
    Dry,
    /// Humidity above 0.62, at most 0.75.
    Humid,
    /// Humidity above 0.75.
    Wet,
}

/// Biomes that grow ground cover at all (every biome but ocean and coast).
pub open spec fn biome_has_cover(biome: BiomeId) -> bool {
    biome != BiomeId::Ocean && biome != BiomeId::Coast
}

/// The ground-cover block a biome grows on a given surface.
pub open spec fn cover_block_spec(biome: BiomeId, surface_block: BlockType, band: HumidityBand) -> BlockType {
    match biome {
        BiomeId::Desert => if surface_block == BlockType::Sand { BlockType::DeadBush } else { BlockType::Cactus },
        BiomeId::Swamp => if band == HumidityBand::Wet { BlockType::Fern } else { BlockType::TallGrass },
        BiomeId::Taiga | BiomeId::Mountains => BlockType::TallGrass,
        _ => if band != HumidityBand::Dry { BlockType::Fern } else { BlockType::TallGrass },
    }
}

/// Ground cover for a column: none on a submerged column, on a surface
/// that cannot carry cover, in a biome without cover, or where the
/// caller's scatter noise leaves the spot empty (`scatter == false`);
/// otherwise the biome's cover block for this surface and humidity.
pub open spec fn ground_cover_spec(l: ColumnLayout, band: HumidityBand, scatter: bool) -> Option<BlockType> {
    if l.water_top != l.surface || !supports_cover_spec(l.surface_block) || !biome_has_cover(l.biome)
        || !scatter {
        None
    } else {
        Some(cover_block_spec(l.biome, l.surface_block, band))
    }
}

/// Ground cover for a column (see [`ground_cover_spec`]).
pub fn ground_cover(l: &ColumnLayout, band: HumidityBand, scatter: bool) -> (r: Option<BlockType>)
    ensures
        r == ground_cover_spec(*l, band, scatter),
{
    if l.water_top != l.surface {
        return None;
    }
    if !supports_cover_surface(l.surface_block) {
        return None;
    }
    let has_cover = match l.biome {
        BiomeId::Ocean | BiomeId::Coast => false,
        _ => true,
    };
    if !has_cover || !scatter {
        return None;
    }
    let block = match l.biome {
        BiomeId::Desert => if l.surface_block == BlockType::Sand { BlockType::DeadBush } else { BlockType::Cactus },
        BiomeId::Swamp => if band == HumidityBand::Wet { BlockType::Fern } else { BlockType::TallGrass },
        BiomeId::Taiga | BiomeId::Mountains => BlockType::TallGrass,
        _ => if band != HumidityBand::Dry { BlockType::Fern } else { BlockType::TallGrass },
    };
    Some(block)
}

/// Place a column's ground cover on top of its surface (when there is
/// cover and room below the chunk top).
pub fn place_ground_cover(column: &mut Vec<BlockType>, l: &ColumnLayout, band: HumidityBand, scatter: bool)
    requires
        old(column).len() == CHUNK_H,
    ensures
        final(column).len() == CHUNK_H,
        ({
            let y = l.surface + 1;
            match ground_cover_spec(*l, band, scatter) {
                Some(c) => if y < CHUNK_H {
                    final(column)@ == old(column)@.update(y, c)
                } else {
                    final(column)@ == old(column)@
                },
                None => final(column)@ == old(column)@,
            }
        }),
{
    let cover = ground_cover(l, band, scatter);
    if let Some(c) = cover {
        if l.surface < CHUNK_H - 1 {
            column.set(l.surface + 1, c);
        }
    }
}

/// Ground cover only ever lands directly on a surface that can carry it:
/// in a column built by [`fill_terrain_column`], the block that
/// [`place_ground_cover`] changes sits on the column's surface block, and
/// that block supports cover.
pub proof fn lemma_cover_rests_on_supported_surface(
    l: ColumnLayout,
    caves: Seq<bool>,
    ores: Seq<Option<BlockType>>,
    deep: Seq<BlockType>,
    band: HumidityBand,
    scatter: bool,
)
    requires
        l.surface < CHUNK_H,
        ground_cover_spec(l, band, scatter) is Some,
    ensures
        column_block(l, caves, ores, deep, l.surface as int) == l.surface_block,
        supports_cover_spec(column_block(l, caves, ores, deep, l.surface as int)),
{
}

/// Column is dry land well above the sea, outside ocean, coast and swamp.
pub open spec fn is_land_spec(l: ColumnLayout) -> bool {
    l.water_top == l.surface && l.surface >= SEA_LEVEL + 3 && l.biome != BiomeId::Ocean && l.biome
        != BiomeId::Coast && l.biome != BiomeId::Swamp
}

/// Whether a column is dry land (see [`is_land_spec`]).
pub fn is_land_column(l: &ColumnLayout) -> (r: bool)
    ensures
        r == is_land_spec(*l),
{
    l.water_top == l.surface && l.surface >= SEA_LEVEL + 3 && !matches!(
        l.biome,
        BiomeId::Ocean | BiomeId::Coast | BiomeId::Swamp
    )
}

/// Column where the player may spawn: dry plains, forest or taiga between
/// `SEA_LEVEL + 6` and 96 on a walkable surface block, whose four
/// neighbours (8 blocks away) are dry land at least `SEA_LEVEL + 3` high
/// outside ocean, coast and swamp.
pub open spec fn is_spawn_spec(l: ColumnLayout, n: Seq<ColumnLayout>) -> bool {
    &&& l.water_top == l.surface
    &&& (l.biome == BiomeId::Plains || l.biome == BiomeId::Forest || l.biome == BiomeId::Taiga)
    &&& SEA_LEVEL + 6 <= l.surface <= 96
    &&& (l.surface_block == BlockType::Grass || l.surface_block == BlockType::ForestFloor
        || l.surface_block == BlockType::BloomFloor || l.surface_block == BlockType::RootedSoil
        || l.surface_block == BlockType::CoarseSoil || l.surface_block == BlockType::Snow)
    &&& forall|k: int| 0 <= k < n.len() ==> is_land_spec(#[trigger] n[k])
}

/// Whether the centre column `l` with neighbours `n` (east, west, south,
/// north) is a spawn point (see [`is_spawn_spec`]).
pub fn is_spawn_column(l: &ColumnLayout, n: &[ColumnLayout; 4]) -> (r: bool)
    ensures
        r == is_spawn_spec(*l, n@),
{
    if l.water_top != l.surface {
        return false;
    }
    if !matches!(l.biome, BiomeId::Plains | BiomeId::Forest | BiomeId::Taiga) {
        return false;
    }
    if l.surface < SEA_LEVEL + 6 || l.surface > 96 {
        return false;
    }
    if !matches!(
        l.surface_block,
        BlockType::Grass | BlockType::ForestFloor | BlockType::BloomFloor | BlockType::RootedSoil
            | BlockType::CoarseSoil | BlockType::Snow
    ) {
        return false;
    }
    let mut k: usize = 0;
    while k < 4
        invariant
            k <= 4,
            forall|j: int| 0 <= j < k ==> is_land_spec(#[trigger] n@[j]),
        decreases 4 - k,
    {
        if !is_land_column(&n[k]) {
            return false;
        }
        k = k + 1;
    }
    true
}

/// Ground cover grows only on a dry column, where the scatter noise allows
/// it, outside ocean and coast, on grass, forest or bloom floor, coarse or
/// rooted soil, moss, mud or sand. There it is a dead bush on desert sand
/// and a cactus on other desert ground; a fern in wet swamps and tall grass
/// in other swamps; tall grass in taiga and on mountains; elsewhere tall
/// grass where it is dry and a fern where it is humid or wet.
pub proof fn lemma_ground_cover_rules(l: ColumnLayout, band: HumidityBand, scatter: bool)
    ensures
        ({
            let c = ground_cover_spec(l, band, scatter);
            let grows = l.surface == l.water_top && scatter && l.biome != BiomeId::Coast
                && l.biome != BiomeId::Ocean && (l.surface_block == BlockType::Sand
                || l.surface_block == BlockType::Mud || l.surface_block == BlockType::MossMat
                || l.surface_block == BlockType::RootedSoil || l.surface_block == BlockType::CoarseSoil
                || l.surface_block == BlockType::BloomFloor || l.surface_block == BlockType::ForestFloor
                || l.surface_block == BlockType::Grass);
            &&& c is Some <==> grows
            &&& grows && l.biome == BiomeId::Desert && l.surface_block == BlockType::Sand ==> c
                == Some(BlockType::DeadBush)
            &&& grows && l.biome == BiomeId::Desert && l.surface_block != BlockType::Sand ==> c
                == Some(BlockType::Cactus)
            &&& grows && l.biome == BiomeId::Swamp ==> c == Some(
                if band == HumidityBand::Wet { BlockType::Fern } else { BlockType::TallGrass },
            )
            &&& grows && (l.biome == BiomeId::Taiga || l.biome == BiomeId::Mountains) ==> c == Some(
                BlockType::TallGrass,
            )
            &&& grows && (l.biome == BiomeId::Plains || l.biome == BiomeId::Forest || l.biome
                == BiomeId::DarkForest) ==> c == Some(
                if band == HumidityBand::Dry { BlockType::TallGrass } else { BlockType::Fern },
            )
        }),
{
}

/// Dry land is a column without standing water, at least `SEA_LEVEL + 3`
/// high, outside ocean, coast and swamp.
pub proof fn lemma_land_rules(l: ColumnLayout)
    ensures
        is_land_spec(l) <==> {
            &&& l.surface == l.water_top
            &&& l.surface >= SEA_LEVEL + 3
            &&& l.biome != BiomeId::Swamp && l.biome != BiomeId::Coast && l.biome != BiomeId::Ocean
        },
{
}

/// The layers of a built column: bedrock at the bottom; below the surface
/// a cave is air, or water when the column is submerged and the cave lies
/// at most `SEA_LEVEL - 3`; otherwise an ore where one was sampled; the
/// biome filler in the five layers under the surface and deep stone
/// further down; the surface itself is the shoreline block of a submerged
/// column and the chosen top block of a dry one; above it water up to the
/// water level, then air.
pub proof fn lemma_column_layers(
    l: ColumnLayout,
    caves: Seq<bool>,
    ores: Seq<Option<BlockType>>,
    deep: Seq<BlockType>,
    y: int,
)
    ensures
        ({
            let b = column_block(l, caves, ores, deep, y);
            let submerged = l.surface < l.water_top;
            let solid = 0 < y < l.surface && !caves[y] && ores[y] is None;
            &&& y == 0 && l.surface > 0 ==> b == BlockType::Bedrock
            &&& y == l.surface && submerged ==> b == l.blocks.shoreline_block
            &&& y == l.surface && !submerged ==> b == l.surface_block
            &&& y > l.surface && submerged && y <= l.water_top ==> b == BlockType::Water
            &&& y > l.surface && (!submerged || y > l.water_top) ==> b == BlockType::Air
            &&& 0 < y < l.surface && caves[y] && submerged && y + 3 <= SEA_LEVEL ==> b == BlockType::Water
            &&& 0 < y < l.surface && caves[y] && (!submerged || y + 3 > SEA_LEVEL) ==> b == BlockType::Air
            &&& 0 < y < l.surface && !caves[y] && ores[y] is Some ==> b == ores[y]->0
            &&& solid && l.surface - y >= 6 ==> b == deep[y]
            &&& solid && l.surface - y <= 5 ==> b == filler_block_spec(l.biome, l.blocks, (l.surface - y) as usize)
        }),
{
}

/// A column is a spawn point exactly when it is dry; lies in plains, a
/// forest or taiga; its surface is between `SEA_LEVEL + 6` and 96; its top
/// block is grass, forest floor, bloom floor, rooted soil, coarse soil or
/// snow; and every neighbour is dry, at least `SEA_LEVEL + 3` high, and
/// outside ocean, coast and swamp.
pub proof fn lemma_spawn_rules(l: ColumnLayout, n: Seq<ColumnLayout>)
    ensures
        is_spawn_spec(l, n) <==> {
            &&& l.water_top == l.surface
            &&& (l.biome == BiomeId::Plains || l.biome == BiomeId::Forest || l.biome == BiomeId::Taiga)
            &&& SEA_LEVEL + 6 <= l.surface && l.surface <= 96
            &&& (l.surface_block == BlockType::Snow || l.surface_block == BlockType::Grass
                || l.surface_block == BlockType::CoarseSoil || l.surface_block == BlockType::RootedSoil
                || l.surface_block == BlockType::ForestFloor || l.surface_block == BlockType::BloomFloor)
            &&& forall|k: int|
                0 <= k < n.len() ==> {
                    &&& (#[trigger] n[k]).water_top == n[k].surface
                    &&& n[k].surface >= SEA_LEVEL + 3
                    &&& n[k].biome != BiomeId::Ocean && n[k].biome != BiomeId::Coast && n[k].biome
                        != BiomeId::Swamp
                }
        },
{
}

/// Water never stands below the surface: the sea fills every column below
/// sea level up to it; a dry-land column above sea level stays dry unless
/// it is a swamp pool, which floods one block deep but never above
/// `SEA_LEVEL + 2`.
pub proof fn lemma_water_levels(biome: BiomeId, surface: usize, swamp_pool: bool)
    ensures
        ({
            let w = water_top_spec(biome, surface, swamp_pool);
            &&& w >= surface
            &&& surface < SEA_LEVEL ==> w == SEA_LEVEL
            &&& surface >= SEA_LEVEL && !(biome == BiomeId::Swamp && swamp_pool) ==> w == surface
            &&& surface > SEA_LEVEL + 2 ==> w == surface
            &&& biome == BiomeId::Swamp && swamp_pool && SEA_LEVEL <= surface && surface < SEA_LEVEL + 2
                ==> w == surface + 1
            &&& surface >= SEA_LEVEL ==> w <= SEA_LEVEL + 2 || w == surface
        }),
{
}

/// Every spawn point is itself dry land.
pub proof fn lemma_spawn_is_land(l: ColumnLayout, n: Seq<ColumnLayout>)
    requires
        is_spawn_spec(l, n),
    ensures
        is_land_spec(l),
{
}

} // verus!
