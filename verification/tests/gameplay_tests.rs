use nv2_engine::biomes::BiomeId;
use nv2_engine::block::{block_registry, BlockType};
use nv2_engine::gameplay::{
    full_health_report, is_tool, kill_report, kind_for_biome, night_transition, AchievementTracker,
    AnimalKind, SessionFeedback, ToolWear,
};

/// A known tool block (stone pickaxe, id 56).
fn tool_block() -> BlockType {
    BlockType::StonePickaxe
}

#[test]
fn tools_wear_break_and_repair() {
    let mut wear = ToolWear::new(3);
    // only real tools are tracked
    assert!(wear.use_tool(BlockType::TreeTrunk).is_none());
    let tool = tool_block();
    assert_eq!(wear.use_tool(tool), Some(2));
    assert_eq!(wear.use_tool(tool), Some(1));
    assert_eq!(wear.use_tool(tool), None); // broken
    assert!(wear.broken(tool));
    wear.repair(tool);
    assert!(!wear.broken(tool));
    assert_eq!(wear.remaining(tool), 3);
}

#[test]
fn achievements_unlock_once() {
    let mut a = AchievementTracker::new();
    assert!(a.record_kill());
    assert!(!a.record_kill()); // second kill, no new unlock yet
    assert!(a.unlocked.contains(&"first-kill".to_string()));
    // nights: 1 unlocks, 2/3/4 don't, 5 unlocks
    assert!(a.record_night_survived());
    assert!(!a.record_night_survived());
    assert!(!a.record_night_survived());
    assert!(!a.record_night_survived());
    assert!(a.record_night_survived()); // 5th night → five-nights
    assert!(a.unlocked.contains(&"five-nights".to_string()));
    // craft
    assert!(a.record_craft());
    assert!(a.unlocked.contains(&"master-crafter".to_string()));
}

#[test]
fn some_tool_blocks_exist() {
    let tools: Vec<&str> = block_registry()
        .iter()
        .filter_map(|(_, name, _)| BlockType::from_name(name))
        .filter(|b| is_tool(*b))
        .map(|b| b.display_name())
        .collect();
    assert!(
        !tools.is_empty(),
        "registry must contain tools (pickaxes/axes/swords/shovels/hoes): {tools:?}"
    );
    assert!(tools.iter().any(|t| t.contains("Pickaxe")));
}

#[test]
fn stone_pickaxe_has_id_56() {
    assert_eq!(tool_block().id(), 56);
    assert_eq!(BlockType::from_id(56), Some(BlockType::StonePickaxe));
    assert_eq!(BlockType::from_id(500), None);
}

#[test]
fn non_tools_are_not_tools() {
    assert!(!is_tool(BlockType::TreeTrunk));
    assert!(!is_tool(BlockType::Stone));
    assert!(!is_tool(BlockType::Air));
    assert!(is_tool(BlockType::StonePickaxe));
}

#[test]
fn tool_wear_exact_counts_and_repair_all() {
    let mut wear = ToolWear::new(5);
    assert_eq!(wear.max_wear(), 5);
    assert_eq!(wear.remaining(tool_block()), 5);
    assert_eq!(wear.use_tool(tool_block()), Some(4));
    assert_eq!(wear.remaining(tool_block()), 4);
    let worn = wear.worn_tools();
    assert_eq!(worn, vec![(BlockType::StonePickaxe, 4)]);
    wear.repair_all();
    assert!(wear.worn_tools().is_empty());
    assert_eq!(wear.remaining(tool_block()), 5);
}

#[test]
fn tool_wear_past_breaking_stays_broken() {
    let mut wear = ToolWear::new(1);
    assert_eq!(wear.use_tool(tool_block()), None);
    assert_eq!(wear.use_tool(tool_block()), None);
    assert_eq!(wear.remaining(tool_block()), 0);
    assert_eq!(wear.worn_tools(), vec![(BlockType::StonePickaxe, 0)]);
}

#[test]
fn tool_wear_zero_max_breaks_immediately() {
    let mut wear = ToolWear::new(0);
    assert!(wear.broken(tool_block()));
    assert_eq!(wear.use_tool(tool_block()), None);
}

#[test]
fn unlock_reports_only_new_names() {
    let mut a = AchievementTracker::new();
    assert!(a.unlock("x"));
    assert!(!a.unlock("x"));
    assert!(a.unlock("y"));
    assert_eq!(a.unlocked, vec!["x".to_string(), "y".to_string()]);
}

#[test]
fn hunter_unlocks_on_tenth_kill() {
    let mut a = AchievementTracker::new();
    for k in 1..=9 {
        let new = a.record_kill();
        assert_eq!(new, k == 1);
    }
    assert!(!a.unlocked.contains(&"hunter".to_string()));
    assert!(a.record_kill());
    assert_eq!(a.kills, 10);
    assert!(a.unlocked.contains(&"hunter".to_string()));
    assert!(!a.record_kill());
}

#[test]
fn full_health_and_craft_unlock_once() {
    let mut a = AchievementTracker::new();
    assert!(a.record_full_health());
    assert!(!a.record_full_health());
    assert!(a.record_craft());
    assert!(!a.record_craft());
    assert_eq!(a.crafts, 2);
    assert_eq!(a.unlocked.len(), 2);
}

#[test]
fn animals_spawn_where_they_live() {
    for b in [
        BiomeId::Ocean,
        BiomeId::Coast,
        BiomeId::Plains,
        BiomeId::Forest,
        BiomeId::DarkForest,
        BiomeId::Swamp,
        BiomeId::Taiga,
        BiomeId::Desert,
        BiomeId::Mountains,
    ] {
        if let Some(k) = kind_for_biome(Some(b)) {
            assert!(k.lives_in(b));
        }
    }
    assert_eq!(kind_for_biome(Some(BiomeId::Desert)), None);
    assert_eq!(kind_for_biome(None), None);
    assert_eq!(kind_for_biome(Some(BiomeId::Plains)), Some(AnimalKind::Rabbit));
    assert_eq!(kind_for_biome(Some(BiomeId::Taiga)), Some(AnimalKind::Deer));
    assert!(!AnimalKind::Rabbit.lives_in(BiomeId::Desert));
}

#[test]
fn night_transition_counts_mornings_only() {
    let mut a = AchievementTracker::new();
    assert!(night_transition(&mut a, false, true).is_none());
    assert!(night_transition(&mut a, true, true).is_none());
    assert_eq!(a.nights_survived, 0);
    let first = night_transition(&mut a, true, false).unwrap();
    assert_eq!(first, vec!["first-night".to_string()]);
    for _ in 0..3 {
        let r = night_transition(&mut a, true, false).unwrap();
        assert!(r.is_empty());
    }
    let fifth = night_transition(&mut a, true, false).unwrap();
    assert_eq!(fifth, vec!["five-nights".to_string()]);
    let sixth = night_transition(&mut a, true, false).unwrap();
    assert!(sixth.is_empty());
    assert_eq!(a.nights_survived, 6);
    assert_eq!(a.unlocked, vec!["first-night".to_string(), "five-nights".to_string()]);
}

#[test]
fn session_night_transition_grants_achievement() {
    let mut a = AchievementTracker::new();
    // the clock jumps to 05:00 without a night before it: no transition
    assert!(night_transition(&mut a, false, false).is_none());
    // enter the night, then leave it at dawn
    assert!(night_transition(&mut a, false, true).is_none());
    let fb = night_transition(&mut a, true, false).unwrap();
    assert_eq!(a.nights_survived, 1);
    assert!(fb.iter().any(|m| m.contains("first-night")));
}

#[test]
fn kill_and_health_reports() {
    let mut a = AchievementTracker::new();
    assert_eq!(kill_report(&mut a), vec!["first-kill".to_string()]);
    for _ in 2..10 {
        assert!(kill_report(&mut a).is_empty());
    }
    assert_eq!(kill_report(&mut a), vec!["hunter".to_string()]);
    assert!(kill_report(&mut a).is_empty());
    assert_eq!(a.kills, 11);
    assert_eq!(full_health_report(&mut a, false), None);
    assert_eq!(full_health_report(&mut a, true).as_deref(), Some("full-health"));
    assert_eq!(full_health_report(&mut a, true), None);
}

#[test]
fn session_feedback_starts_empty() {
    let fb = SessionFeedback::new();
    assert!(fb.messages.is_empty());
    assert!(!fb.died);
    assert!(fb.unlocked_achievements.is_empty());
}

#[test]
fn default_trackers_start_empty() {
    let mut wear = ToolWear::default();
    assert_eq!(wear.max_wear(), 0);
    assert!(wear.worn_tools().is_empty());
    assert_eq!(wear.use_tool(tool_block()), None);
    assert!(wear.broken(tool_block()));

    let tracker = AchievementTracker::default();
    assert!(tracker.unlocked.is_empty());
    assert_eq!((tracker.nights_survived, tracker.kills, tracker.crafts), (0, 0, 0));

    let fb = SessionFeedback::default();
    assert!(fb.messages.is_empty() && !fb.died && fb.unlocked_achievements.is_empty());
}

#[test]
fn cloned_trackers_are_independent() {
    let mut wear = ToolWear::new(5);
    wear.use_tool(tool_block());
    let copy = wear.clone();
    wear.use_tool(tool_block());
    assert_eq!(copy.remaining(tool_block()), 4);
    assert_eq!(wear.remaining(tool_block()), 3);

    let mut a = AchievementTracker::new();
    a.unlock("first-kill");
    let b = a.clone();
    a.unlock("hunter");
    assert_eq!(b.unlocked, vec!["first-kill".to_string()]);
    assert_eq!(a.unlocked.len(), 2);
}
