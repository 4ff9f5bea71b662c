//! The block registry: every block type with its numeric id, registry
//! name and display name.

use vstd::prelude::*;
use crate::text::{chars_of, seq_eq};

verus! {

/// Number of registered block types; ids run from 0 to `BLOCK_COUNT - 1`.
pub const BLOCK_COUNT: u16 = 70;

/// A block type of the voxel world.
#[derive(Clone, Copy, Debug, PartialEq, Eq, Hash, Structural)]
pub enum BlockType {
    // Terrain and building blocks.
    Air,
    Bedrock,
    Stone,
    Dirt,
    Grass,
    Sand,
    Gravel,
    Clay,
    Snow,
    Water,
    Andesite,
    Tuff,
    SlateRock,
    Cobblestone,
    CobbleMoss,
    Obsidian,
    StoneBricks,
    Planks,
    // Biome surface blocks.
    ForestFloor,
    BloomFloor,
    CoarseSoil,
    RootedSoil,
    MossMat,
    MossCarpet,
    Mud,
    PackedMud,
    // Ores.
    CoalOre,
    SlateCoalOre,
    IronOre,
    GoldOre,
    DiamondOre,
    SlateDiamondOre,
    EmeraldOre,
    RedstoneOre,
    // Tree trunks.
    TreeTrunk,
    NeedleWood,
    WarmWood,
    WetWood,
    PaleWood,
    DarkWood,
    // Tree canopies.
    TreeLeaves,
    NeedleCanopy,
    WarmCanopy,
    WetCanopy,
    PaleCanopy,
    BloomCanopy,
    DarkCanopy,
    // Glowing rock.
    EmberRock,
    GlowRock,
    // Ground cover and flowers.
    TallGrass,
    Fern,
    FernPlant,
    DeadBush,
    Cactus,
    Flower,
    Rose,
    // Tools.
    StonePickaxe,
    // Flowers, sticks and pebbles.
    DandelionFlower,
    TulipRed,
    TulipPink,
    TulipWhite,
    TulipOrange,
    Cornflower,
    Allium,
    AzaleaFlower,
    Stick,
    StickSmall,
    Pebble1,
    Pebble2,
    Pebble3,
}

impl BlockType {
    /// Numeric id of the block.
    pub open spec fn id_spec(self) -> u16 {
        match self {
            BlockType::Air => 0,
            BlockType::Bedrock => 1,
            BlockType::Stone => 2,
            BlockType::Dirt => 3,
            BlockType::Grass => 4,
            BlockType::Sand => 5,
            BlockType::Gravel => 6,
            BlockType::Clay => 7,
            BlockType::Snow => 8,
            BlockType::Water => 9,
            BlockType::Andesite => 10,
            BlockType::Tuff => 11,
            BlockType::SlateRock => 12,
            BlockType::Cobblestone => 13,
            BlockType::CobbleMoss => 14,
            BlockType::Obsidian => 15,
            BlockType::StoneBricks => 16,
            BlockType::Planks => 17,
            BlockType::ForestFloor => 18,
            BlockType::BloomFloor => 19,
            BlockType::CoarseSoil => 20,
            BlockType::RootedSoil => 21,
            BlockType::MossMat => 22,
            BlockType::MossCarpet => 23,
            BlockType::Mud => 24,
            BlockType::PackedMud => 25,
            BlockType::CoalOre => 26,
            BlockType::SlateCoalOre => 27,
            BlockType::IronOre => 28,
            BlockType::GoldOre => 29,
            BlockType::DiamondOre => 30,
            BlockType::SlateDiamondOre => 31,
            BlockType::EmeraldOre => 32,
            BlockType::RedstoneOre => 33,
            BlockType::TreeTrunk => 34,
            BlockType::NeedleWood => 35,
            BlockType::WarmWood => 36,
            BlockType::WetWood => 37,
            BlockType::PaleWood => 38,
            BlockType::DarkWood => 39,
            BlockType::TreeLeaves => 40,
            BlockType::NeedleCanopy => 41,
            BlockType::WarmCanopy => 42,
            BlockType::WetCanopy => 43,
            BlockType::PaleCanopy => 44,
            BlockType::BloomCanopy => 45,
            BlockType::DarkCanopy => 46,
            BlockType::EmberRock => 47,
            BlockType::GlowRock => 48,
            BlockType::TallGrass => 49,
            BlockType::Fern => 50,
            BlockType::FernPlant => 51,
            BlockType::DeadBush => 52,
            BlockType::Cactus => 53,
            BlockType::Flower => 54,
            BlockType::Rose => 55,
            BlockType::StonePickaxe => 56,
            BlockType::DandelionFlower => 57,
            BlockType::TulipRed => 58,
            BlockType::TulipPink => 59,
            BlockType::TulipWhite => 60,
            BlockType::TulipOrange => 61,
            BlockType::Cornflower => 62,
            BlockType::Allium => 63,
            BlockType::AzaleaFlower => 64,
            BlockType::Stick => 65,
            BlockType::StickSmall => 66,
            BlockType::Pebble1 => 67,
            BlockType::Pebble2 => 68,
            BlockType::Pebble3 => 69,
        }
    }

    /// Numeric id of the block.
    pub fn id(self) -> (r: u16)
        ensures
            r == self.id_spec(),
    {
        match self {
            BlockType::Air => 0,
            BlockType::Bedrock => 1,
            BlockType::Stone => 2,
            BlockType::Dirt => 3,
            BlockType::Grass => 4,
            BlockType::Sand => 5,
            BlockType::Gravel => 6,
            BlockType::Clay => 7,
            BlockType::Snow => 8,
            BlockType::Water => 9,
            BlockType::Andesite => 10,
            BlockType::Tuff => 11,
            BlockType::SlateRock => 12,
            BlockType::Cobblestone => 13,
            BlockType::CobbleMoss => 14,
            BlockType::Obsidian => 15,
            BlockType::StoneBricks => 16,
            BlockType::Planks => 17,
            BlockType::ForestFloor => 18,
            BlockType::BloomFloor => 19,
            BlockType::CoarseSoil => 20,
            BlockType::RootedSoil => 21,
            BlockType::MossMat => 22,
            BlockType::MossCarpet => 23,
            BlockType::Mud => 24,
            BlockType::PackedMud => 25,
            BlockType::CoalOre => 26,
            BlockType::SlateCoalOre => 27,
            BlockType::IronOre => 28,
            BlockType::GoldOre => 29,
            BlockType::DiamondOre => 30,
            BlockType::SlateDiamondOre => 31,
            BlockType::EmeraldOre => 32,
            BlockType::RedstoneOre => 33,
            BlockType::TreeTrunk => 34,
            BlockType::NeedleWood => 35,
            BlockType::WarmWood => 36,
            BlockType::WetWood => 37,
            BlockType::PaleWood => 38,
            BlockType::DarkWood => 39,
            BlockType::TreeLeaves => 40,
            BlockType::NeedleCanopy => 41,
            BlockType::WarmCanopy => 42,
            BlockType::WetCanopy => 43,
            BlockType::PaleCanopy => 44,
            BlockType::BloomCanopy => 45,
            BlockType::DarkCanopy => 46,
            BlockType::EmberRock => 47,
            BlockType::GlowRock => 48,
            BlockType::TallGrass => 49,
            BlockType::Fern => 50,
            BlockType::FernPlant => 51,
            BlockType::DeadBush => 52,
            BlockType::Cactus => 53,
            BlockType::Flower => 54,
            BlockType::Rose => 55,
            BlockType::StonePickaxe => 56,
            BlockType::DandelionFlower => 57,
            BlockType::TulipRed => 58,
            BlockType::TulipPink => 59,
            BlockType::TulipWhite => 60,
            BlockType::TulipOrange => 61,
            BlockType::Cornflower => 62,
            BlockType::Allium => 63,
            BlockType::AzaleaFlower => 64,
            BlockType::Stick => 65,
            BlockType::StickSmall => 66,
            BlockType::Pebble1 => 67,
            BlockType::Pebble2 => 68,
            BlockType::Pebble3 => 69,
        }
    }

    /// Registry name (`snake_case`), used by texture file names.
    pub open spec fn name_spec(self) -> &'static str {
        match self {
            BlockType::Air => "air",
            BlockType::Bedrock => "bedrock",
            BlockType::Stone => "stone",
            BlockType::Dirt => "dirt",
            BlockType::Grass => "grass",
            BlockType::Sand => "sand",
            BlockType::Gravel => "gravel",
            BlockType::Clay => "clay",
            BlockType::Snow => "snow",
            BlockType::Water => "water",
            BlockType::Andesite => "andesite",
            BlockType::Tuff => "tuff",
            BlockType::SlateRock => "slate_rock",
            BlockType::Cobblestone => "cobblestone",
            BlockType::CobbleMoss => "cobble_moss",
            BlockType::Obsidian => "obsidian",
            BlockType::StoneBricks => "stone_bricks",
            BlockType::Planks => "planks",
            BlockType::ForestFloor => "forest_floor",
            BlockType::BloomFloor => "bloom_floor",
            BlockType::CoarseSoil => "coarse_soil",
            BlockType::RootedSoil => "rooted_soil",
            BlockType::MossMat => "moss_mat",
            BlockType::MossCarpet => "moss_carpet",
            BlockType::Mud => "mud",
            BlockType::PackedMud => "packed_mud",
            BlockType::CoalOre => "coal_ore",
            BlockType::SlateCoalOre => "slate_coal_ore",
            BlockType::IronOre => "iron_ore",
            BlockType::GoldOre => "gold_ore",
            BlockType::DiamondOre => "diamond_ore",
            BlockType::SlateDiamondOre => "slate_diamond_ore",
            BlockType::EmeraldOre => "emerald_ore",
            BlockType::RedstoneOre => "redstone_ore",
            BlockType::TreeTrunk => "tree_trunk",
            BlockType::NeedleWood => "needle_wood",
            BlockType::WarmWood => "warm_wood",
            BlockType::WetWood => "wet_wood",
            BlockType::PaleWood => "pale_wood",
            BlockType::DarkWood => "dark_wood",
            BlockType::TreeLeaves => "tree_leaves",
            BlockType::NeedleCanopy => "needle_canopy",
            BlockType::WarmCanopy => "warm_canopy",
            BlockType::WetCanopy => "wet_canopy",
            BlockType::PaleCanopy => "pale_canopy",
            BlockType::BloomCanopy => "bloom_canopy",
            BlockType::DarkCanopy => "dark_canopy",
            BlockType::EmberRock => "ember_rock",
            BlockType::GlowRock => "glow_rock",
            BlockType::TallGrass => "tall_grass",
            BlockType::Fern => "fern",
            BlockType::FernPlant => "fern_plant",
            BlockType::DeadBush => "dead_bush",
            BlockType::Cactus => "cactus",
            BlockType::Flower => "flower",
            BlockType::Rose => "rose",
            BlockType::StonePickaxe => "stone_pickaxe",
            BlockType::DandelionFlower => "dandelion_flower",
            BlockType::TulipRed => "tulip_red",
            BlockType::TulipPink => "tulip_pink",
            BlockType::TulipWhite => "tulip_white",
            BlockType::TulipOrange => "tulip_orange",
            BlockType::Cornflower => "cornflower",
            BlockType::Allium => "allium",
            BlockType::AzaleaFlower => "azalea_flower",
            BlockType::Stick => "stick",
            BlockType::StickSmall => "stick_small",
            BlockType::Pebble1 => "pebble_1",
            BlockType::Pebble2 => "pebble_2",
            BlockType::Pebble3 => "pebble_3",
        }
    }

    /// Registry name (`snake_case`), used by texture file names.
    pub fn name(self) -> (r: &'static str)
        ensures
            r == self.name_spec(),
    {
        match self {
            BlockType::Air => "air",
            BlockType::Bedrock => "bedrock",
            BlockType::Stone => "stone",
            BlockType::Dirt => "dirt",
            BlockType::Grass => "grass",
            BlockType::Sand => "sand",
            BlockType::Gravel => "gravel",
            BlockType::Clay => "clay",
            BlockType::Snow => "snow",
            BlockType::Water => "water",
            BlockType::Andesite => "andesite",
            BlockType::Tuff => "tuff",
            BlockType::SlateRock => "slate_rock",
            BlockType::Cobblestone => "cobblestone",
            BlockType::CobbleMoss => "cobble_moss",
            BlockType::Obsidian => "obsidian",
            BlockType::StoneBricks => "stone_bricks",
            BlockType::Planks => "planks",
            BlockType::ForestFloor => "forest_floor",
            BlockType::BloomFloor => "bloom_floor",
            BlockType::CoarseSoil => "coarse_soil",
            BlockType::RootedSoil => "rooted_soil",
            BlockType::MossMat => "moss_mat",
            BlockType::MossCarpet => "moss_carpet",
            BlockType::Mud => "mud",
            BlockType::PackedMud => "packed_mud",
            BlockType::CoalOre => "coal_ore",
            BlockType::SlateCoalOre => "slate_coal_ore",
            BlockType::IronOre => "iron_ore",
            BlockType::GoldOre => "gold_ore",
            BlockType::DiamondOre => "diamond_ore",
            BlockType::SlateDiamondOre => "slate_diamond_ore",
            BlockType::EmeraldOre => "emerald_ore",
            BlockType::RedstoneOre => "redstone_ore",
            BlockType::TreeTrunk => "tree_trunk",
            BlockType::NeedleWood => "needle_wood",
            BlockType::WarmWood => "warm_wood",
            BlockType::WetWood => "wet_wood",
            BlockType::PaleWood => "pale_wood",
            BlockType::DarkWood => "dark_wood",
            BlockType::TreeLeaves => "tree_leaves",
            BlockType::NeedleCanopy => "needle_canopy",
            BlockType::WarmCanopy => "warm_canopy",
            BlockType::WetCanopy => "wet_canopy",
            BlockType::PaleCanopy => "pale_canopy",
            BlockType::BloomCanopy => "bloom_canopy",
            BlockType::DarkCanopy => "dark_canopy",
            BlockType::EmberRock => "ember_rock",
            BlockType::GlowRock => "glow_rock",
            BlockType::TallGrass => "tall_grass",
            BlockType::Fern => "fern",
            BlockType::FernPlant => "fern_plant",
            BlockType::DeadBush => "dead_bush",
            BlockType::Cactus => "cactus",
            BlockType::Flower => "flower",
            BlockType::Rose => "rose",
            BlockType::StonePickaxe => "stone_pickaxe",
            BlockType::DandelionFlower => "dandelion_flower",
            BlockType::TulipRed => "tulip_red",
            BlockType::TulipPink => "tulip_pink",
            BlockType::TulipWhite => "tulip_white",
            BlockType::TulipOrange => "tulip_orange",
            BlockType::Cornflower => "cornflower",
            BlockType::Allium => "allium",
            BlockType::AzaleaFlower => "azalea_flower",
            BlockType::Stick => "stick",
            BlockType::StickSmall => "stick_small",
            BlockType::Pebble1 => "pebble_1",
            BlockType::Pebble2 => "pebble_2",
            BlockType::Pebble3 => "pebble_3",
        }
    }

    /// Name shown to the player.
    pub open spec fn display_name_spec(self) -> &'static str {
        match self {
            BlockType::Air => "Air",
            BlockType::Bedrock => "Bedrock",
            BlockType::Stone => "Stone",
            BlockType::Dirt => "Dirt",
            BlockType::Grass => "Grass",
            BlockType::Sand => "Sand",
            BlockType::Gravel => "Gravel",
            BlockType::Clay => "Clay",
            BlockType::Snow => "Snow",
            BlockType::Water => "Water",
            BlockType::Andesite => "Andesite",
            BlockType::Tuff => "Tuff",
            BlockType::SlateRock => "Slate Rock",
            BlockType::Cobblestone => "Cobblestone",
            BlockType::CobbleMoss => "Cobble Moss",
            BlockType::Obsidian => "Obsidian",
            BlockType::StoneBricks => "Stone Bricks",
            BlockType::Planks => "Planks",
            BlockType::ForestFloor => "Forest Floor",
            BlockType::BloomFloor => "Bloom Floor",
            BlockType::CoarseSoil => "Coarse Soil",
            BlockType::RootedSoil => "Rooted Soil",
            BlockType::MossMat => "Moss Mat",
            BlockType::MossCarpet => "Moss Carpet",
            BlockType::Mud => "Mud",
            BlockType::PackedMud => "Packed Mud",
            BlockType::CoalOre => "Coal Ore",
            BlockType::SlateCoalOre => "Slate Coal Ore",
            BlockType::IronOre => "Iron Ore",
            BlockType::GoldOre => "Gold Ore",
            BlockType::DiamondOre => "Diamond Ore",
            BlockType::SlateDiamondOre => "Slate Diamond Ore",
            BlockType::EmeraldOre => "Emerald Ore",
            BlockType::RedstoneOre => "Redstone Ore",
            BlockType::TreeTrunk => "Tree Trunk",
            BlockType::NeedleWood => "Needle Wood",
            BlockType::WarmWood => "Warm Wood",
            BlockType::WetWood => "Wet Wood",
            BlockType::PaleWood => "Pale Wood",
            BlockType::DarkWood => "Dark Wood",
            BlockType::TreeLeaves => "Tree Leaves",
            BlockType::NeedleCanopy => "Needle Canopy",
            BlockType::WarmCanopy => "Warm Canopy",
            BlockType::WetCanopy => "Wet Canopy",
            BlockType::PaleCanopy => "Pale Canopy",
            BlockType::BloomCanopy => "Bloom Canopy",
            BlockType::DarkCanopy => "Dark Canopy",
            BlockType::EmberRock => "Ember Rock",
            BlockType::GlowRock => "Glow Rock",
            BlockType::TallGrass => "Tall Grass",
            BlockType::Fern => "Fern",
            BlockType::FernPlant => "Fern Plant",
            BlockType::DeadBush => "Dead Bush",
            BlockType::Cactus => "Cactus",
            BlockType::Flower => "Flower",
            BlockType::Rose => "Rose",
            BlockType::StonePickaxe => "Stone Pickaxe",
            BlockType::DandelionFlower => "Dandelion Flower",
            BlockType::TulipRed => "Tulip Red",
            BlockType::TulipPink => "Tulip Pink",
            BlockType::TulipWhite => "Tulip White",
            BlockType::TulipOrange => "Tulip Orange",
            BlockType::Cornflower => "Cornflower",
            BlockType::Allium => "Allium",
            BlockType::AzaleaFlower => "Azalea Flower",
            BlockType::Stick => "Stick",
            BlockType::StickSmall => "Stick Small",
            BlockType::Pebble1 => "Pebble 1",
            BlockType::Pebble2 => "Pebble 2",
            BlockType::Pebble3 => "Pebble 3",
        }
    }

    /// Name shown to the player.
    pub fn display_name(self) -> (r: &'static str)
        ensures
            r == self.display_name_spec(),
    {
        match self {
            BlockType::Air => "Air",
            BlockType::Bedrock => "Bedrock",
            BlockType::Stone => "Stone",
            BlockType::Dirt => "Dirt",
            BlockType::Grass => "Grass",
            BlockType::Sand => "Sand",
            BlockType::Gravel => "Gravel",
            BlockType::Clay => "Clay",
            BlockType::Snow => "Snow",
            BlockType::Water => "Water",
            BlockType::Andesite => "Andesite",
            BlockType::Tuff => "Tuff",
            BlockType::SlateRock => "Slate Rock",
            BlockType::Cobblestone => "Cobblestone",
            BlockType::CobbleMoss => "Cobble Moss",
            BlockType::Obsidian => "Obsidian",
            BlockType::StoneBricks => "Stone Bricks",
            BlockType::Planks => "Planks",
            BlockType::ForestFloor => "Forest Floor",
            BlockType::BloomFloor => "Bloom Floor",
            BlockType::CoarseSoil => "Coarse Soil",
            BlockType::RootedSoil => "Rooted Soil",
            BlockType::MossMat => "Moss Mat",
            BlockType::MossCarpet => "Moss Carpet",
            BlockType::Mud => "Mud",
            BlockType::PackedMud => "Packed Mud",
            BlockType::CoalOre => "Coal Ore",
            BlockType::SlateCoalOre => "Slate Coal Ore",
            BlockType::IronOre => "Iron Ore",
            BlockType::GoldOre => "Gold Ore",
            BlockType::DiamondOre => "Diamond Ore",
            BlockType::SlateDiamondOre => "Slate Diamond Ore",
            BlockType::EmeraldOre => "Emerald Ore",
            BlockType::RedstoneOre => "Redstone Ore",
            BlockType::TreeTrunk => "Tree Trunk",
            BlockType::NeedleWood => "Needle Wood",
            BlockType::WarmWood => "Warm Wood",
            BlockType::WetWood => "Wet Wood",
            BlockType::PaleWood => "Pale Wood",
            BlockType::DarkWood => "Dark Wood",
            BlockType::TreeLeaves => "Tree Leaves",
            BlockType::NeedleCanopy => "Needle Canopy",
            BlockType::WarmCanopy => "Warm Canopy",
            BlockType::WetCanopy => "Wet Canopy",
            BlockType::PaleCanopy => "Pale Canopy",
            BlockType::BloomCanopy => "Bloom Canopy",
            BlockType::DarkCanopy => "Dark Canopy",
            BlockType::EmberRock => "Ember Rock",
            BlockType::GlowRock => "Glow Rock",
            BlockType::TallGrass => "Tall Grass",
            BlockType::Fern => "Fern",
            BlockType::FernPlant => "Fern Plant",
            BlockType::DeadBush => "Dead Bush",
            BlockType::Cactus => "Cactus",
            BlockType::Flower => "Flower",
            BlockType::Rose => "Rose",
            BlockType::StonePickaxe => "Stone Pickaxe",
            BlockType::DandelionFlower => "Dandelion Flower",
            BlockType::TulipRed => "Tulip Red",
            BlockType::TulipPink => "Tulip Pink",
            BlockType::TulipWhite => "Tulip White",
            BlockType::TulipOrange => "Tulip Orange",
            BlockType::Cornflower => "Cornflower",
            BlockType::Allium => "Allium",
            BlockType::AzaleaFlower => "Azalea Flower",
            BlockType::Stick => "Stick",
            BlockType::StickSmall => "Stick Small",
            BlockType::Pebble1 => "Pebble 1",
            BlockType::Pebble2 => "Pebble 2",
            BlockType::Pebble3 => "Pebble 3",
        }
    }

    /// The block with a given id.
    pub open spec fn from_id_spec(id: u16) -> Option<BlockType> {
        match id {
            0 => Some(BlockType::Air),
            1 => Some(BlockType::Bedrock),
            2 => Some(BlockType::Stone),
            3 => Some(BlockType::Dirt),
            4 => Some(BlockType::Grass),
            5 => Some(BlockType::Sand),
            6 => Some(BlockType::Gravel),
            7 => Some(BlockType::Clay),
            8 => Some(BlockType::Snow),
            9 => Some(BlockType::Water),
            10 => Some(BlockType::Andesite),
            11 => Some(BlockType::Tuff),
            12 => Some(BlockType::SlateRock),
            13 => Some(BlockType::Cobblestone),
            14 => Some(BlockType::CobbleMoss),
            15 => Some(BlockType::Obsidian),
            16 => Some(BlockType::StoneBricks),
            17 => Some(BlockType::Planks),
            18 => Some(BlockType::ForestFloor),
            19 => Some(BlockType::BloomFloor),
            20 => Some(BlockType::CoarseSoil),
            21 => Some(BlockType::RootedSoil),
            22 => Some(BlockType::MossMat),
            23 => Some(BlockType::MossCarpet),
            24 => Some(BlockType::Mud),
            25 => Some(BlockType::PackedMud),
            26 => Some(BlockType::CoalOre),
            27 => Some(BlockType::SlateCoalOre),
            28 => Some(BlockType::IronOre),
            29 => Some(BlockType::GoldOre),
            30 => Some(BlockType::DiamondOre),
            31 => Some(BlockType::SlateDiamondOre),
            32 => Some(BlockType::EmeraldOre),
            33 => Some(BlockType::RedstoneOre),
            34 => Some(BlockType::TreeTrunk),
            35 => Some(BlockType::NeedleWood),
            36 => Some(BlockType::WarmWood),
            37 => Some(BlockType::WetWood),
            38 => Some(BlockType::PaleWood),
            39 => Some(BlockType::DarkWood),
            40 => Some(BlockType::TreeLeaves),
            41 => Some(BlockType::NeedleCanopy),
            42 => Some(BlockType::WarmCanopy),
            43 => Some(BlockType::WetCanopy),
            44 => Some(BlockType::PaleCanopy),
            45 => Some(BlockType::BloomCanopy),
            46 => Some(BlockType::DarkCanopy),
            47 => Some(BlockType::EmberRock),
            48 => Some(BlockType::GlowRock),
            49 => Some(BlockType::TallGrass),
            50 => Some(BlockType::Fern),
            51 => Some(BlockType::FernPlant),
            52 => Some(BlockType::DeadBush),
            53 => Some(BlockType::Cactus),
            54 => Some(BlockType::Flower),
            55 => Some(BlockType::Rose),
            56 => Some(BlockType::StonePickaxe),
            57 => Some(BlockType::DandelionFlower),
            58 => Some(BlockType::TulipRed),
            59 => Some(BlockType::TulipPink),
            60 => Some(BlockType::TulipWhite),
            61 => Some(BlockType::TulipOrange),
            62 => Some(BlockType::Cornflower),
            63 => Some(BlockType::Allium),
            64 => Some(BlockType::AzaleaFlower),
            65 => Some(BlockType::Stick),
            66 => Some(BlockType::StickSmall),
            67 => Some(BlockType::Pebble1),
            68 => Some(BlockType::Pebble2),
            69 => Some(BlockType::Pebble3),
            _ => None,
        }
    }

    /// The block with a given id (`None` for an unknown id).
    pub fn from_id(id: u16) -> (r: Option<BlockType>)
        ensures
            r == Self::from_id_spec(id),
    {
        match id {
            0 => Some(BlockType::Air),
            1 => Some(BlockType::Bedrock),
            2 => Some(BlockType::Stone),
            3 => Some(BlockType::Dirt),
            4 => Some(BlockType::Grass),
            5 => Some(BlockType::Sand),
            6 => Some(BlockType::Gravel),
            7 => Some(BlockType::Clay),
            8 => Some(BlockType::Snow),
            9 => Some(BlockType::Water),
            10 => Some(BlockType::Andesite),
            11 => Some(BlockType::Tuff),
            12 => Some(BlockType::SlateRock),
            13 => Some(BlockType::Cobblestone),
            14 => Some(BlockType::CobbleMoss),
            15 => Some(BlockType::Obsidian),
            16 => Some(BlockType::StoneBricks),
            17 => Some(BlockType::Planks),
            18 => Some(BlockType::ForestFloor),
            19 => Some(BlockType::BloomFloor),
            20 => Some(BlockType::CoarseSoil),
            21 => Some(BlockType::RootedSoil),
            22 => Some(BlockType::MossMat),
            23 => Some(BlockType::MossCarpet),
            24 => Some(BlockType::Mud),
            25 => Some(BlockType::PackedMud),
            26 => Some(BlockType::CoalOre),
            27 => Some(BlockType::SlateCoalOre),
            28 => Some(BlockType::IronOre),
            29 => Some(BlockType::GoldOre),
            30 => Some(BlockType::DiamondOre),
            31 => Some(BlockType::SlateDiamondOre),
            32 => Some(BlockType::EmeraldOre),
            33 => Some(BlockType::RedstoneOre),
            34 => Some(BlockType::TreeTrunk),
            35 => Some(BlockType::NeedleWood),
            36 => Some(BlockType::WarmWood),
            37 => Some(BlockType::WetWood),
            38 => Some(BlockType::PaleWood),
            39 => Some(BlockType::DarkWood),
            40 => Some(BlockType::TreeLeaves),
            41 => Some(BlockType::NeedleCanopy),
            42 => Some(BlockType::WarmCanopy),
            43 => Some(BlockType::WetCanopy),
            44 => Some(BlockType::PaleCanopy),
            45 => Some(BlockType::BloomCanopy),
            46 => Some(BlockType::DarkCanopy),
            47 => Some(BlockType::EmberRock),
            48 => Some(BlockType::GlowRock),
            49 => Some(BlockType::TallGrass),
            50 => Some(BlockType::Fern),
            51 => Some(BlockType::FernPlant),
            52 => Some(BlockType::DeadBush),
            53 => Some(BlockType::Cactus),
            54 => Some(BlockType::Flower),
            55 => Some(BlockType::Rose),
            56 => Some(BlockType::StonePickaxe),
            57 => Some(BlockType::DandelionFlower),
            58 => Some(BlockType::TulipRed),
            59 => Some(BlockType::TulipPink),
            60 => Some(BlockType::TulipWhite),
            61 => Some(BlockType::TulipOrange),
            62 => Some(BlockType::Cornflower),
            63 => Some(BlockType::Allium),
            64 => Some(BlockType::AzaleaFlower),
            65 => Some(BlockType::Stick),
            66 => Some(BlockType::StickSmall),
            67 => Some(BlockType::Pebble1),
            68 => Some(BlockType::Pebble2),
            69 => Some(BlockType::Pebble3),
            _ => None,
        }
    }

    /// The block registered under `name` (`None` when no block has it);
    /// with several, the one with the lowest id.
    pub fn from_name(name: &str) -> (r: Option<BlockType>)
        ensures
            r == first_named_from(name@, 0),
            match r {
                Some(b) => b.name_spec()@ == name@,
                None => forall|b: BlockType| b.name_spec()@ != name@,
            },
    {
        let target = chars_of(name);
        let mut id: u16 = 0;
        while id < BLOCK_COUNT
            invariant
                id <= BLOCK_COUNT,
                target@ == name@,
                first_named_from(name@, 0) == first_named_from(name@, id as int),
                forall|j: u16| j < id ==> ((#[trigger] Self::from_id_spec(j)) matches Some(c) && c.name_spec()@ != name@),
            decreases BLOCK_COUNT - id,
        {
            proof {
                lemma_from_id_range(id);
            }
            let b = Self::from_id(id).unwrap();
            if seq_eq(&chars_of(b.name()), &target) {
                return Some(b);
            }
            id = id + 1;
        }
        proof {
            assert forall|b: BlockType| b.name_spec()@ != name@ by {
                lemma_id_roundtrip(b);
                let j = b.id_spec();
                assert(Self::from_id_spec(j) matches Some(c) && c.name_spec()@ != name@);
            }
        }
        None
    }
}

/// The first block (lowest id from `id` on) registered under `name`.
pub open spec fn first_named_from(name: Seq<char>, id: int) -> Option<BlockType>
    decreases BLOCK_COUNT - id,
{
    if id < 0 || id >= BLOCK_COUNT {
        None
    } else if BlockType::from_id_spec(id as u16) is Some && BlockType::from_id_spec(id as u16)->0.name_spec()@
        == name {
        BlockType::from_id_spec(id as u16)
    } else {
        first_named_from(name, id + 1)
    }
}

/// Every block's id is in range and leads back to the block.
pub proof fn lemma_id_roundtrip(b: BlockType)
    ensures
        b.id_spec() < BLOCK_COUNT,
        BlockType::from_id_spec(b.id_spec()) == Some(b),
{
}

/// Exactly the ids below `BLOCK_COUNT` name a block, and that block has
/// the id.
pub proof fn lemma_from_id_range(id: u16)
    ensures
        (id < BLOCK_COUNT) == (BlockType::from_id_spec(id) is Some),
        BlockType::from_id_spec(id) matches Some(b) ==> b.id_spec() == id,
{
}

/// The registry as `(id, name, display name)` rows, in id order.
pub fn block_registry() -> (v: Vec<(u16, &'static str, &'static str)>)
    ensures
        v.len() == BLOCK_COUNT,
        forall|i: int|
            0 <= i < v.len() ==> {
                let b = BlockType::from_id_spec(i as u16)->0;
                &&& BlockType::from_id_spec(i as u16) is Some
                &&& (#[trigger] v[i]).0 == i
                &&& v[i].1 == b.name_spec()
                &&& v[i].2 == b.display_name_spec()
            },
{
    let mut v: Vec<(u16, &'static str, &'static str)> = Vec::new();
    let mut id: u16 = 0;
    while id < BLOCK_COUNT
        invariant
            id <= BLOCK_COUNT,
            v.len() == id,
            forall|i: int|
                0 <= i < v.len() ==> {
                    let b = BlockType::from_id_spec(i as u16)->0;
                    &&& BlockType::from_id_spec(i as u16) is Some
                    &&& (#[trigger] v[i]).0 == i
                    &&& v[i].1 == b.name_spec()
                    &&& v[i].2 == b.display_name_spec()
                },
        decreases BLOCK_COUNT - id,
    {
        proof {
            lemma_from_id_range(id);
        }
        let b = BlockType::from_id(id).unwrap();
        v.push((id, b.name(), b.display_name()));
        id = id + 1;
    }
    v
}

} // verus!
