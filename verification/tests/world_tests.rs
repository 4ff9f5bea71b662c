use nv2_engine::ai::{
    dataset_merge_count, epoch_plan, lcg_advance, tiled_texture, vegetation_block, vegetation_class, FeedbackBuffer, FEEDBACK_CAPACITY, TILE_BYTES,
};
use nv2_engine::biomes::{
    biome_blocks, fill_terrain_column, filler_block, ground_cover, is_land_column, is_spawn_column,
    place_ground_cover, supports_cover_surface, surface_block, tree_kinds, water_top, SurfaceNoise,
    TreeKind, BiomeId, ColumnLayout, HumidityBand,
    CHUNK_H, SEA_LEVEL,
};
use nv2_engine::block::{block_registry, BlockType, BLOCK_COUNT};
use nv2_engine::meteo::{climate_grid, ClimateGrid, GRID_CELLS, GRID_LAT, GRID_LON};
use nv2_engine::textures::{
    name_seed, noise_hash, texture_style_for_block, texture_style_for_name, TexturePattern,
};

fn layout(biome: BiomeId, surface: usize, water: usize, surface_block: BlockType) -> ColumnLayout {
    ColumnLayout { biome, blocks: biome_blocks(biome), surface, water_top: water, surface_block }
}

#[test]
fn registry_roundtrips_names_and_ids() {
    let reg = block_registry();
    assert_eq!(reg.len(), BLOCK_COUNT as usize);
    for (id, name, display) in reg {
        let b = BlockType::from_id(id).unwrap();
        assert_eq!(b.id(), id);
        assert_eq!(b.name(), name);
        assert_eq!(b.display_name(), display);
        assert_eq!(BlockType::from_name(name), Some(b));
    }
    assert_eq!(BlockType::from_name("oak_log"), None);
    assert_eq!(BlockType::from_name("stone_pickaxe"), Some(BlockType::StonePickaxe));
    assert_eq!(BlockType::StonePickaxe.display_name(), "Stone Pickaxe");
}

#[test]
fn name_seed_exact_values() {
    assert_eq!(name_seed(""), 11400714819323198485);
    assert_eq!(name_seed("a"), 2503978519406543242);
    assert_eq!(name_seed("grass"), 17402170225343494711);
    assert_eq!(name_seed("oak_log"), 1307124008378146763);
}

#[test]
fn texture_styles_by_block() {
    let (p, pat) = texture_style_for_block(BlockType::Grass);
    assert_eq!(p.c0, [74, 128, 56]);
    assert_eq!(p.c2, Some([52, 96, 40]));
    assert_eq!(pat, TexturePattern::Noise);
    let (p, pat) = texture_style_for_block(BlockType::GoldOre);
    assert_eq!(p.c1, [255, 224, 96]);
    assert_eq!(pat, TexturePattern::Speckle);
    let (p, pat) = texture_style_for_block(BlockType::Water);
    assert_eq!(p.alpha, 190);
    assert_eq!(pat, TexturePattern::Water);
    let (p, pat) = texture_style_for_block(BlockType::Rose);
    assert_eq!(p.c0, [132, 122, 108]);
    assert_eq!(pat, TexturePattern::Stone);
}

#[test]
fn texture_styles_by_name() {
    // registry name → block style
    let (p, pat) = texture_style_for_name("bedrock");
    assert_eq!(p.c0, [48, 48, 52]);
    assert_eq!(pat, TexturePattern::Stone);
    // keywords, case-insensitive
    assert_eq!(texture_style_for_name("Oak_Log_Top").1, TexturePattern::Wood);
    assert_eq!(texture_style_for_name("birch_leaves").1, TexturePattern::Leaves);
    assert_eq!(texture_style_for_name("grass_block_side").1, TexturePattern::Noise);
    assert_eq!(texture_style_for_name("red_sand").0.c0, [219, 205, 156]);
    assert_eq!(texture_style_for_name("lava_still").1, TexturePattern::Lava);
    assert_eq!(texture_style_for_name("copper_ore").1, TexturePattern::Speckle);
    assert_eq!(texture_style_for_name("spruce_planks").1, TexturePattern::Planks);
    assert_eq!(texture_style_for_name("still_water").1, TexturePattern::Water);
    let (p, pat) = texture_style_for_name("mystery");
    assert_eq!(p.c0, [132, 122, 108]);
    assert_eq!(pat, TexturePattern::Stone);
}

#[test]
fn filler_depths() {
    let swamp = biome_blocks(BiomeId::Swamp);
    assert_eq!(filler_block(BiomeId::Swamp, swamp, 1), BlockType::Mud);
    assert_eq!(filler_block(BiomeId::Swamp, swamp, 4), BlockType::PackedMud);
    let mountains = biome_blocks(BiomeId::Mountains);
    assert_eq!(filler_block(BiomeId::Mountains, mountains, 2), BlockType::Gravel);
    assert_eq!(filler_block(BiomeId::Mountains, mountains, 3), BlockType::Andesite);
    assert_eq!(filler_block(BiomeId::Ocean, biome_blocks(BiomeId::Ocean), 5), BlockType::Clay);
    assert_eq!(filler_block(BiomeId::Plains, biome_blocks(BiomeId::Plains), 1), BlockType::Dirt);
}

#[test]
fn water_levels() {
    assert_eq!(water_top(BiomeId::Plains, 30, true), SEA_LEVEL);
    assert_eq!(water_top(BiomeId::Swamp, SEA_LEVEL, true), SEA_LEVEL + 1);
    assert_eq!(water_top(BiomeId::Swamp, SEA_LEVEL + 2, true), SEA_LEVEL + 2);
    assert_eq!(water_top(BiomeId::Swamp, SEA_LEVEL, false), SEA_LEVEL);
    assert_eq!(water_top(BiomeId::Forest, 60, true), 60);
}

#[test]
fn dry_column_layers() {
    let l = layout(BiomeId::Plains, 60, 60, BlockType::Grass);
    let caves = vec![false; CHUNK_H];
    let mut ores = vec![None; CHUNK_H];
    ores[20] = Some(BlockType::IronOre);
    let deep = vec![BlockType::Stone; CHUNK_H];
    let col = fill_terrain_column(&l, &caves, &ores, &deep);
    assert_eq!(col.len(), CHUNK_H);
    assert_eq!(col[0], BlockType::Bedrock);
    assert_eq!(col[20], BlockType::IronOre);
    assert_eq!(col[54], BlockType::Stone);
    assert_eq!(col[55], BlockType::Dirt);
    assert_eq!(col[59], BlockType::Dirt);
    assert_eq!(col[60], BlockType::Grass);
    assert_eq!(col[61], BlockType::Air);
}

#[test]
fn flooded_column_has_shoreline_water_and_flooded_caves() {
    let l = layout(BiomeId::Ocean, 30, SEA_LEVEL, BlockType::Sand);
    let mut caves = vec![false; CHUNK_H];
    caves[10] = true;
    let ores = vec![None; CHUNK_H];
    let deep = vec![BlockType::Andesite; CHUNK_H];
    let col = fill_terrain_column(&l, &caves, &ores, &deep);
    assert_eq!(col[10], BlockType::Water);
    assert_eq!(col[11], BlockType::Andesite);
    assert_eq!(col[30], BlockType::Sand);
    assert_eq!(col[31], BlockType::Water);
    assert_eq!(col[SEA_LEVEL], BlockType::Water);
    assert_eq!(col[SEA_LEVEL + 1], BlockType::Air);
}

#[test]
fn dry_cave_is_air() {
    let l = layout(BiomeId::Forest, 80, 80, BlockType::Grass);
    let mut caves = vec![false; CHUNK_H];
    caves[30] = true;
    let col = fill_terrain_column(&l, &caves, &vec![None; CHUNK_H], &vec![BlockType::Stone; CHUNK_H]);
    assert_eq!(col[30], BlockType::Air);
}

#[test]
fn ground_cover_rules() {
    let plains = layout(BiomeId::Plains, 60, 60, BlockType::Grass);
    assert_eq!(ground_cover(&plains, HumidityBand::Dry, true), Some(BlockType::TallGrass));
    assert_eq!(ground_cover(&plains, HumidityBand::Humid, true), Some(BlockType::Fern));
    assert_eq!(ground_cover(&plains, HumidityBand::Dry, false), None);
    let desert = layout(BiomeId::Desert, 60, 60, BlockType::Sand);
    assert_eq!(ground_cover(&desert, HumidityBand::Dry, true), Some(BlockType::DeadBush));
    let desert_soil = layout(BiomeId::Desert, 60, 60, BlockType::CoarseSoil);
    assert_eq!(ground_cover(&desert_soil, HumidityBand::Dry, true), Some(BlockType::Cactus));
    let swamp = layout(BiomeId::Swamp, 60, 60, BlockType::Mud);
    assert_eq!(ground_cover(&swamp, HumidityBand::Humid, true), Some(BlockType::TallGrass));
    assert_eq!(ground_cover(&swamp, HumidityBand::Wet, true), Some(BlockType::Fern));
    let coast = layout(BiomeId::Coast, 60, 60, BlockType::Sand);
    assert_eq!(ground_cover(&coast, HumidityBand::Wet, true), None);
    let snowy = layout(BiomeId::Taiga, 90, 90, BlockType::Snow);
    assert_eq!(ground_cover(&snowy, HumidityBand::Dry, true), None);
    let flooded = layout(BiomeId::Plains, 40, SEA_LEVEL, BlockType::Grass);
    assert_eq!(ground_cover(&flooded, HumidityBand::Dry, true), None);
    assert!(supports_cover_surface(BlockType::MossMat));
    assert!(!supports_cover_surface(BlockType::Stone));
}

#[test]
fn cover_sits_on_supported_surface() {
    let l = layout(BiomeId::Forest, 70, 70, BlockType::ForestFloor);
    let mut col = fill_terrain_column(&l, &vec![false; CHUNK_H], &vec![None; CHUNK_H], &vec![BlockType::Stone; CHUNK_H]);
    place_ground_cover(&mut col, &l, HumidityBand::Dry, true);
    assert_eq!(col[71], BlockType::TallGrass);
    assert!(supports_cover_surface(col[70]));
    let top = CHUNK_H - 1;
    let high = layout(BiomeId::Forest, top, top, BlockType::Grass);
    let mut col2 = vec![BlockType::Air; CHUNK_H];
    place_ground_cover(&mut col2, &high, HumidityBand::Dry, true);
    assert!(col2.iter().all(|b| *b == BlockType::Air));
}

#[test]
fn land_and_spawn_columns() {
    let good = layout(BiomeId::Plains, SEA_LEVEL + 10, SEA_LEVEL + 10, BlockType::Grass);
    let land = layout(BiomeId::Forest, SEA_LEVEL + 3, SEA_LEVEL + 3, BlockType::Grass);
    assert!(is_land_column(&good));
    assert!(is_spawn_column(&good, &[land, land, land, land]));
    let swamp = layout(BiomeId::Swamp, SEA_LEVEL + 10, SEA_LEVEL + 10, BlockType::Mud);
    assert!(!is_land_column(&swamp));
    assert!(!is_spawn_column(&good, &[land, land, swamp, land]));
    let low = layout(BiomeId::Plains, SEA_LEVEL + 5, SEA_LEVEL + 5, BlockType::Grass);
    assert!(is_land_column(&low));
    assert!(!is_spawn_column(&low, &[land, land, land, land]));
    let high = layout(BiomeId::Taiga, 97, 97, BlockType::Snow);
    assert!(!is_spawn_column(&high, &[land, land, land, land]));
    let sand = layout(BiomeId::Plains, SEA_LEVEL + 10, SEA_LEVEL + 10, BlockType::Sand);
    assert!(!is_spawn_column(&sand, &[land, land, land, land]));
}

#[test]
fn biome_indices_and_names() {
    assert_eq!(BiomeId::Ocean.index(), 0);
    assert_eq!(BiomeId::Mountains.index(), 8);
    assert_eq!(BiomeId::from_index(5), Some(BiomeId::Swamp));
    assert_eq!(BiomeId::from_index(9), None);
    assert_eq!(BiomeId::DarkForest.name(), "dark_forest");
    assert_eq!(biome_blocks(BiomeId::Swamp).cliff_block, BlockType::RootedSoil);
}

fn climate_bytes() -> Vec<u8> {
    let mut b = b"NV2CLIM1".to_vec();
    b.extend_from_slice(&(GRID_LAT as u16).to_le_bytes());
    b.extend_from_slice(&(GRID_LON as u16).to_le_bytes());
    // t_ann: cell k holds k - 5000 (signed)
    for k in 0..GRID_CELLS {
        b.extend_from_slice(&((k as i32 - 5000) as i16).to_le_bytes());
    }
    for k in 0..GRID_CELLS {
        b.extend_from_slice(&(k as u16).to_le_bytes());
    }
    for k in 0..GRID_CELLS * 12 {
        b.extend_from_slice(&((k % 30000) as i16 - 15000).to_le_bytes());
    }
    for k in 0..GRID_CELLS * 12 {
        b.extend_from_slice(&((k % 60000) as u16).to_le_bytes());
    }
    b
}

#[test]
fn climate_grid_parses_values() {
    let bytes = climate_bytes();
    let g = ClimateGrid::parse(&bytes).expect("valid file");
    assert_eq!(g.annual_temp(0, 0), -5000);
    assert_eq!(g.annual_temp(1, 2), (GRID_LON as i32 + 2 - 5000) as i16);
    assert_eq!(g.annual_precip(72, 143), (GRID_CELLS - 1) as u16);
    let k = (3 * GRID_LAT + 4) * GRID_LON + 5;
    assert_eq!(g.monthly_temp(3, 4, 5), (k % 30000) as i16 - 15000);
    let k = (11 * GRID_LAT + 72) * GRID_LON + 143;
    assert_eq!(g.monthly_precip(11, 72, 143), (k % 60000) as u16);
}

#[test]
fn climate_grid_rejects_bad_files() {
    let good = climate_bytes();
    assert!(ClimateGrid::parse(&good[..11]).is_none());
    let mut bad_magic = good.clone();
    bad_magic[3] = b'X';
    assert!(ClimateGrid::parse(&bad_magic).is_none());
    let mut bad_dims = good.clone();
    bad_dims[8] = 72;
    assert!(ClimateGrid::parse(&bad_dims).is_none());
    assert!(ClimateGrid::parse(&good[..good.len() - 1]).is_none());
    let g = climate_grid(&bad_magic);
    assert_eq!(g.annual_temp(10, 10), 0);
    assert_eq!(g.monthly_precip(5, 10, 10), 0);
    let g = climate_grid(&good);
    assert_eq!(g.annual_temp(0, 1), -4999);
}

#[test]
fn vegetation_classes() {
    assert_eq!(vegetation_class(BlockType::TulipPink), Some(0));
    assert_eq!(vegetation_class(BlockType::FernPlant), Some(1));
    assert_eq!(vegetation_class(BlockType::Stick), Some(2));
    assert_eq!(vegetation_class(BlockType::Pebble3), Some(3));
    assert_eq!(vegetation_class(BlockType::Stone), None);
    for c in 0..4 {
        assert_eq!(vegetation_class(vegetation_block(c)), Some(c));
    }
    assert_eq!(vegetation_block(7), BlockType::Air);
}

#[test]
fn feedback_buffer_is_bounded() {
    let mut buf: FeedbackBuffer<u32> = FeedbackBuffer::new();
    for i in 0..(FEEDBACK_CAPACITY as u32 + 10) {
        buf.push(i);
        assert!(buf.len() <= FEEDBACK_CAPACITY);
    }
    assert_eq!(buf.len(), FEEDBACK_CAPACITY);
    let all = buf.take_all();
    assert_eq!(all.len(), FEEDBACK_CAPACITY);
    assert_eq!(all[0], 10);
    assert_eq!(*all.last().unwrap(), FEEDBACK_CAPACITY as u32 + 9);
    assert_eq!(buf.len(), 0);
}

#[test]
fn tile_layout() {
    let tile: Vec<u8> = (0..TILE_BYTES).map(|i| (i % 251) as u8).collect();
    assert_eq!(tiled_texture(&tile, 16, 16), tile);
    let out = tiled_texture(&tile, 3, 20);
    assert_eq!(out.len(), 3 * 20 * 4);
    // pixel (x=2, y=17) repeats tile pixel 17 % 16 = 1 of the first row
    let p = (17 * 3 + 2) * 4;
    assert_eq!(&out[p..p + 4], &tile[4..8]);
    assert!(tiled_texture(&tile, 0, 5).is_empty());
}

#[test]
fn noise_hash_exact_values() {
    assert_eq!(noise_hash(0, 0, 0), 0);
    assert_eq!(noise_hash(1, 2, 1234), 6176);
    assert_eq!(noise_hash(15, 15, 42), 7207);
    assert_eq!(noise_hash(3, 7, 0), 5935);
}

#[test]
fn weight_init_generator_sequence() {
    let mut state: u64 = 0x5EED_5EED_0000_0001;
    assert_eq!(lcg_advance(&mut state), 16838);
    assert_eq!(state, 6218240634206453414);
    assert_eq!(lcg_advance(&mut state), 5758);
    assert_eq!(state, 8599301372736614631);
    assert_eq!(lcg_advance(&mut state), 10113);
    assert_eq!(state, 2258766143928001684);
}

#[test]
fn seed_anchor_halves() {
    assert_eq!(nv2_engine::meteo::seed_anchor(0), (0, 0));
    assert_eq!(nv2_engine::meteo::seed_anchor(1), (1, 0));
    assert_eq!(nv2_engine::meteo::seed_anchor(2), (2, 0));
    assert_eq!(nv2_engine::meteo::seed_anchor(0x1234_ABCD), (0xABCD, 0x1234));
    assert_eq!(nv2_engine::meteo::seed_anchor(u32::MAX), (0xFFFF, 0xFFFF));
}

#[test]
fn tree_species_per_biome() {
    assert!(tree_kinds(BiomeId::Ocean).is_empty());
    assert!(tree_kinds(BiomeId::Desert).is_empty());
    assert_eq!(tree_kinds(BiomeId::Plains), &[TreeKind::Oak]);
    assert_eq!(tree_kinds(BiomeId::DarkForest), &[TreeKind::DarkOak]);
    assert_eq!(tree_kinds(BiomeId::Swamp), &[TreeKind::Oak, TreeKind::DeadTree]);
    assert_eq!(tree_kinds(BiomeId::Mountains), &[TreeKind::Pine]);
}

#[test]
fn surface_blocks_by_biome_and_noise() {
    let plains = biome_blocks(BiomeId::Plains);
    assert_eq!(surface_block(BiomeId::Plains, plains, true, false, SurfaceNoise::High), BlockType::Gravel);
    assert_eq!(surface_block(BiomeId::Plains, plains, false, false, SurfaceNoise::High), BlockType::CoarseSoil);
    assert_eq!(surface_block(BiomeId::Plains, plains, false, false, SurfaceNoise::Low), BlockType::BloomFloor);
    assert_eq!(surface_block(BiomeId::Plains, plains, false, false, SurfaceNoise::Mid), BlockType::Grass);
    let taiga = biome_blocks(BiomeId::Taiga);
    assert_eq!(surface_block(BiomeId::Taiga, taiga, false, true, SurfaceNoise::High), BlockType::Snow);
    assert_eq!(surface_block(BiomeId::Taiga, taiga, false, false, SurfaceNoise::High), BlockType::CoarseSoil);
    let mountains = biome_blocks(BiomeId::Mountains);
    assert_eq!(surface_block(BiomeId::Mountains, mountains, false, false, SurfaceNoise::High), BlockType::Andesite);
    let desert = biome_blocks(BiomeId::Desert);
    assert_eq!(surface_block(BiomeId::Desert, desert, false, false, SurfaceNoise::Mid), BlockType::CoarseSoil);
    assert_eq!(surface_block(BiomeId::Desert, desert, false, false, SurfaceNoise::High), BlockType::Sand);
    let dark = biome_blocks(BiomeId::DarkForest);
    assert_eq!(surface_block(BiomeId::DarkForest, dark, false, false, SurfaceNoise::Low), BlockType::RootedSoil);
    let ocean = biome_blocks(BiomeId::Ocean);
    assert_eq!(surface_block(BiomeId::Ocean, ocean, false, false, SurfaceNoise::High), BlockType::Sand);
}

#[test]
fn trainer_schedule() {
    let p1 = epoch_plan(1);
    assert!(p1.verbose && !p1.checkpoint && !p1.cooldown);
    let p5 = epoch_plan(5);
    assert!(!p5.verbose && !p5.checkpoint && p5.cooldown);
    let p20 = epoch_plan(20);
    assert!(p20.checkpoint && p20.cooldown);
    assert_eq!(dataset_merge_count(0), 0);
    assert_eq!(dataset_merge_count(8), 0);
    assert_eq!(dataset_merge_count(9), 9);
    assert_eq!(dataset_merge_count(64), 64);
    assert_eq!(dataset_merge_count(500), 200);
}

#[test]
fn cover_placed_without_surface_bound() {
    let mut col = vec![BlockType::Air; CHUNK_H];
    let top = layout(BiomeId::Plains, CHUNK_H - 1, CHUNK_H - 1, BlockType::Grass);
    place_ground_cover(&mut col, &top, HumidityBand::Dry, true);
    assert!(col.iter().all(|b| *b == BlockType::Air));
    let beyond = layout(BiomeId::Plains, CHUNK_H + 10, CHUNK_H + 10, BlockType::Grass);
    place_ground_cover(&mut col, &beyond, HumidityBand::Dry, true);
    assert!(col.iter().all(|b| *b == BlockType::Air));
}
