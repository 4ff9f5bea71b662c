//! Gameplay rules that need no geometry: which animals live where, tool
//! wear, achievements, and what a game session reports when the night ends
//! or an enemy falls.

use vstd::prelude::*;
use std::collections::HashMap;
use crate::biomes::BiomeId;
use crate::block::{BlockType, BLOCK_COUNT, lemma_from_id_range, lemma_id_roundtrip};
use crate::text::{chars_of, clone_strings, contains_seq, contains_vec, lower_seq, lower_vec, str_eq};

verus! {

broadcast use vstd::std_specs::hash::group_hash_axioms;

// ─────────────────────────────────────────────────────────── animals ──

/// Passive wildlife.
#[derive(Clone, Copy, Debug, PartialEq, Eq, Structural)]
pub enum AnimalKind {
    Deer,
    Rabbit,
}

impl AnimalKind {
    /// Biomes an animal lives in: deer in forests, taiga, swamps and
    /// mountains; rabbits on plains and coasts.
    pub open spec fn lives_in_spec(self, biome: BiomeId) -> bool {
        match self {
            AnimalKind::Deer => biome == BiomeId::Forest || biome == BiomeId::DarkForest || biome
                == BiomeId::Taiga || biome == BiomeId::Swamp || biome == BiomeId::Mountains,
            AnimalKind::Rabbit => biome == BiomeId::Plains || biome == BiomeId::Coast,
        }
    }

    /// Whether this animal can live in the given biome.
    pub fn lives_in(self, biome: BiomeId) -> (r: bool)
        ensures
            r == self.lives_in_spec(biome),
    {
        match self {
            AnimalKind::Deer => matches!(
                biome,
                BiomeId::Forest | BiomeId::DarkForest | BiomeId::Taiga | BiomeId::Swamp
                    | BiomeId::Mountains
            ),
            AnimalKind::Rabbit => matches!(biome, BiomeId::Plains | BiomeId::Coast),
        }
    }
}

/// The animal that spawns in a biome.
pub open spec fn kind_for_biome_spec(biome: Option<BiomeId>) -> Option<AnimalKind> {
    match biome {
        Some(BiomeId::Plains) | Some(BiomeId::Coast) => Some(AnimalKind::Rabbit),
        Some(BiomeId::Forest) | Some(BiomeId::DarkForest) | Some(BiomeId::Taiga) | Some(BiomeId::Swamp)
        | Some(BiomeId::Mountains) => Some(AnimalKind::Deer),
        _ => None,
    }
}

/// The animal kind that may spawn in the biome at the player (`None` in
/// deserts and oceans, or when the biome is unknown).
pub fn kind_for_biome(biome: Option<BiomeId>) -> (r: Option<AnimalKind>)
    ensures
        r == kind_for_biome_spec(biome),
{
    match biome {
        Some(BiomeId::Plains) | Some(BiomeId::Coast) => Some(AnimalKind::Rabbit),
        Some(BiomeId::Forest) | Some(BiomeId::DarkForest) | Some(BiomeId::Taiga) | Some(BiomeId::Swamp)
        | Some(BiomeId::Mountains) => Some(AnimalKind::Deer),
        _ => None,
    }
}

/// Animals only spawn where they belong: the kind chosen for a biome lives
/// in it, and every biome an animal lives in gets an animal.
pub proof fn lemma_spawned_animals_live_there(biome: BiomeId, kind: AnimalKind)
    ensures
        kind_for_biome_spec(Some(biome)) matches Some(k) ==> k.lives_in_spec(biome),
        kind.lives_in_spec(biome) ==> kind_for_biome_spec(Some(biome)) == Some(kind),
        kind_for_biome_spec(Some(BiomeId::Desert)) is None,
        kind_for_biome_spec(Some(BiomeId::Ocean)) is None,
{
}

// ─────────────────────────────────────────────────────────────── tools ──

/// A block counts as a tool when its display name names one.
pub open spec fn is_tool_spec(block: BlockType) -> bool {
    let n = lower_seq(block.display_name_spec()@);
    contains_seq(n, "pickaxe"@) || contains_seq(n, "axe"@) || contains_seq(n, "sword"@)
        || contains_seq(n, "shovel"@) || contains_seq(n, "hoe"@)
}

/// Which block types count as tools: those whose display name contains
/// "pickaxe", "axe", "sword", "shovel" or "hoe" (case-insensitively).
pub fn is_tool(block: BlockType) -> (r: bool)
    ensures
        r == is_tool_spec(block),
{
    let name = lower_vec(&chars_of(block.display_name()));
    contains_vec(&name, &chars_of("pickaxe")) || contains_vec(&name, &chars_of("axe"))
        || contains_vec(&name, &chars_of("sword")) || contains_vec(&name, &chars_of("shovel"))
        || contains_vec(&name, &chars_of("hoe"))
}

/// `a - b`, or 0 when `b` exceeds `a`.
pub open spec fn sat_sub(a: u32, b: u32) -> u32 {
    if a >= b { (a - b) as u32 } else { 0 }
}

/// Tool durability: uses recorded per tool, keyed by block id.
pub struct ToolWear {
    wear: HashMap<u16, u32>,
    max_wear: u32,
}

impl ToolWear {
    /// Uses recorded per block id.
    pub closed spec fn wear_map(&self) -> Map<u16, u32> {
        self.wear@
    }

    /// Uses before a tool breaks.
    pub closed spec fn max_wear_spec(&self) -> u32 {
        self.max_wear
    }

    /// Only tools are ever recorded.
    pub open spec fn wf(&self) -> bool {
        forall|k: u16| #[trigger] self.wear_map().contains_key(k) ==> (BlockType::from_id_spec(k) matches Some(b)
            && is_tool_spec(b))
    }

    /// Every tracker only ever records tools.
    #[verifier::type_invariant]
    closed spec fn only_tools(self) -> bool {
        self.wf()
    }

    /// Uses recorded for a tool (0 when never used or repaired).
    pub open spec fn wear_of(&self, tool: BlockType) -> u32 {
        if self.wear_map().contains_key(tool.id_spec()) {
            self.wear_map()[tool.id_spec()]
        } else {
            0
        }
    }

    /// Uses left before a tool breaks.
    pub open spec fn remaining_spec(&self, tool: BlockType) -> u32 {
        sat_sub(self.max_wear_spec(), self.wear_of(tool))
    }

    /// Fresh tracker: nothing worn, tools break after `max_wear` uses.
    pub fn new(max_wear: u32) -> (r: ToolWear)
        ensures
            r.wf(),
            r.wear_map() == Map::<u16, u32>::empty(),
            r.max_wear_spec() == max_wear,
    {
        ToolWear { wear: HashMap::new(), max_wear }
    }

    /// Uses before a tool breaks.
    pub fn max_wear(&self) -> (r: u32)
        ensures
            r == self.max_wear_spec(),
    {
        self.max_wear
    }

    /// Use a tool once. Non-tools are not tracked (`None`, nothing
    /// changes). A tool's wear grows by one; the result is the number of
    /// uses left, or `None` once the tool is broken.
    pub fn use_tool(&mut self, tool: BlockType) -> (r: Option<u32>)
        requires
            is_tool_spec(tool) ==> old(self).wear_of(tool) < u32::MAX,
        ensures
            final(self).wf(),
            final(self).max_wear_spec() == old(self).max_wear_spec(),
            !is_tool_spec(tool) ==> r is None && final(self).wear_map() == old(self).wear_map(),
            is_tool_spec(tool) ==> {
                let w = (old(self).wear_of(tool) + 1) as u32;
                &&& final(self).wear_map() == old(self).wear_map().insert(tool.id_spec(), w)
                &&& r == if w >= old(self).max_wear_spec() {
                    None::<u32>
                } else {
                    Some((old(self).max_wear_spec() - w) as u32)
                }
            },
            is_tool_spec(tool) ==> (r is None <==> final(self).remaining_spec(tool) == 0),
            r matches Some(n) ==> n == final(self).remaining_spec(tool),
    {
        proof {
            use_type_invariant(&*self);
        }
        if !is_tool(tool) {
            return None;
        }
        let id = tool.id();
        let current: u32 = match self.wear.get(&id) {
            Some(w) => *w,
            None => 0,
        };
        let w = current + 1;
        let mut wear: HashMap<u16, u32> = HashMap::new();
        std::mem::swap(&mut wear, &mut self.wear);
        wear.insert(id, w);
        proof {
            lemma_id_roundtrip(tool);
            assert forall|k: u16| #[trigger] wear@.contains_key(k) implies (BlockType::from_id_spec(
                k,
            ) matches Some(b) && is_tool_spec(b)) by {
                if k != id {
                    assert(old(self).wear_map().contains_key(k));
                }
            }
        }
        self.wear = wear;
        if w >= self.max_wear {
            None
        } else {
            Some(self.max_wear - w)
        }
    }

    /// Uses left before the tool breaks (0 when broken).
    pub fn remaining(&self, tool: BlockType) -> (r: u32)
        ensures
            r == self.remaining_spec(tool),
    {
        let used: u32 = match self.wear.get(&tool.id()) {
            Some(w) => *w,
            None => 0,
        };
        self.max_wear.saturating_sub(used)
    }

    /// Whether the tool is broken (no uses left).
    pub fn broken(&self, tool: BlockType) -> (r: bool)
        ensures
            r == (self.remaining_spec(tool) == 0),
    {
        self.remaining(tool) == 0
    }

    /// Repair one tool: its wear is forgotten.
    pub fn repair(&mut self, tool: BlockType)
        ensures
            final(self).wf(),
            final(self).max_wear_spec() == old(self).max_wear_spec(),
            final(self).wear_map() == old(self).wear_map().remove(tool.id_spec()),
    {
        proof {
            use_type_invariant(&*self);
        }
        let id = tool.id();
        let mut wear: HashMap<u16, u32> = HashMap::new();
        std::mem::swap(&mut wear, &mut self.wear);
        wear.remove(&id);
        proof {
            assert forall|k: u16| #[trigger] wear@.contains_key(k) implies (BlockType::from_id_spec(
                k,
            ) matches Some(b) && is_tool_spec(b)) by {
                assert(old(self).wear_map().contains_key(k));
            }
        }
        self.wear = wear;
    }

    /// Repair every tool.
    pub fn repair_all(&mut self)
        ensures
            final(self).wf(),
            final(self).max_wear_spec() == old(self).max_wear_spec(),
            final(self).wear_map() == Map::<u16, u32>::empty(),
    {
        self.wear = HashMap::new();
    }

    /// Every worn tool with its remaining uses, fewest uses left first.
    pub fn worn_tools(&self) -> (v: Vec<(BlockType, u32)>)
        ensures
            v.len() == self.wear_map().dom().len(),
            forall|i: int|
                0 <= i < v.len() ==> self.wear_map().contains_key((#[trigger] v[i]).0.id_spec()) && v[i].1
                    == self.remaining_spec(v[i].0),
            forall|i: int, j: int| 0 <= i < j < v.len() ==> (#[trigger] v[i]).0 != (#[trigger] v[j]).0,
            forall|k: u16|
                #[trigger] self.wear_map().contains_key(k) ==> exists|i: int| 0 <= i < v.len() && (#[trigger] v[i]).0.id_spec() == k,
            forall|i: int, j: int| 0 <= i < j < v.len() ==> (#[trigger] v[i]).1 <= (#[trigger] v[j]).1,
    {
        proof {
            use_type_invariant(self);
        }
        let mut v: Vec<(BlockType, u32)> = Vec::new();
        let mut id: u16 = 0;
        while id < BLOCK_COUNT
            invariant
                self.wf(),
                id <= BLOCK_COUNT,
                forall|i: int|
                    0 <= i < v.len() ==> self.wear_map().contains_key((#[trigger] v[i]).0.id_spec()) && v[i].0.id_spec() < id
                        && v[i].1 == self.remaining_spec(v[i].0),
                forall|i: int, j: int| 0 <= i < j < v.len() ==> (#[trigger] v[i]).0 != (#[trigger] v[j]).0,
                forall|k: u16|
                    #[trigger] self.wear_map().contains_key(k) && k < id ==> exists|i: int| 0 <= i < v.len() && (#[trigger] v[i]).0.id_spec() == k,
                forall|i: int, j: int| 0 <= i < j < v.len() ==> (#[trigger] v[i]).1 <= (#[trigger] v[j]).1,
            decreases BLOCK_COUNT - id,
        {
            proof {
                lemma_from_id_range(id);
            }
            let b = BlockType::from_id(id).unwrap();
            if let Some(w) = self.wear.get(&id) {
                let rem = self.max_wear.saturating_sub(*w);
                let entry = (b, rem);
                // stable insertion point: after every entry with no more uses left
                let mut pos: usize = 0;
                while pos < v.len() && v[pos].1 <= rem
                    invariant
                        pos <= v.len(),
                        forall|i: int| 0 <= i < pos ==> (#[trigger] v[i]).1 <= rem,
                    decreases v.len() - pos,
                {
                    pos = pos + 1;
                }
                let ghost before = v@;
                proof {
                    assert forall|i: int| pos <= i < v.len() implies rem < (#[trigger] v[i]).1 by {
                        if pos < v.len() {
                            assert(rem < v[pos as int].1);
                            if i > pos {
                                assert(v[pos as int].1 <= v[i].1);
                            }
                        }
                    }
                }
                v.insert(pos, entry);
                proof {
                    before.insert_ensures(pos as int, entry);
                    assert forall|k: u16|
                        #[trigger] self.wear_map().contains_key(k) && k < id + 1 implies exists|i: int|
                        0 <= i < v.len() && (#[trigger] v[i]).0.id_spec() == k by {
                        if k == id {
                            assert(v[pos as int].0.id_spec() == k);
                        } else {
                            let i0 = choose|i: int| 0 <= i < before.len() && (#[trigger] before[i]).0.id_spec() == k;
                            if i0 < pos {
                                assert(v[i0].0.id_spec() == k);
                            } else {
                                assert(v[i0 + 1].0.id_spec() == k);
                            }
                        }
                    }
                    assert forall|i: int, j: int| 0 <= i < j < v.len() implies (#[trigger] v[i]).0 != (#[trigger] v[j]).0 by {
                        if i == pos {
                            assert(v[j] == before[j - 1]);
                        } else if j == pos {
                            assert(v[i] == before[i]);
                        }
                    }
                }
            }
            id = id + 1;
        }
        proof {
            // every key is a valid id, so all were visited; count them
            assert forall|k: u16| #[trigger] self.wear_map().contains_key(k) implies k < BLOCK_COUNT by {
                lemma_from_id_range(k);
            }
            let ids = v@.map_values(|p: (BlockType, u32)| p.0.id_spec());
            assert(ids.no_duplicates()) by {
                assert forall|i: int, j: int| 0 <= i < ids.len() && 0 <= j < ids.len() && i != j implies ids[i] != ids[j] by {
                    lemma_id_roundtrip(v[i].0);
                    lemma_id_roundtrip(v[j].0);
                    if i < j {
                        assert(v[i].0 != v[j].0);
                    } else {
                        assert(v[j].0 != v[i].0);
                    }
                }
            }
            assert(ids.to_set() =~= self.wear_map().dom()) by {
                assert forall|k: u16| ids.to_set().contains(k) implies self.wear_map().dom().contains(k) by {
                    let i = choose|i: int| 0 <= i < ids.len() && ids[i] == k;
                    assert(v[i].0.id_spec() == k);
                }
                assert forall|k: u16| self.wear_map().dom().contains(k) implies ids.to_set().contains(k) by {
                    let i = choose|i: int| 0 <= i < v.len() && (#[trigger] v[i]).0.id_spec() == k;
                    assert(ids[i] == k);
                }
            }
            ids.unique_seq_to_set();
        }
        v
    }
}

impl Clone for ToolWear {
    /// The same wear and the same limit.
    fn clone(&self) -> (r: ToolWear)
        ensures
            r.wear_map() == self.wear_map(),
            r.max_wear_spec() == self.max_wear_spec(),
    {
        proof {
            use_type_invariant(self);
        }
        let wear = self.wear.clone();
        assert(wear@ == self.wear_map());
        assert(forall|k: u16| #[trigger] wear@.contains_key(k) ==> (BlockType::from_id_spec(k) matches Some(b)
            && is_tool_spec(b)));
        ToolWear { wear, max_wear: self.max_wear }
    }
}

impl Default for ToolWear {
    /// Nothing worn; tools break at once (`max_wear` 0).
    fn default() -> (r: ToolWear)
        ensures
            r.wf(),
            r.wear_map() == Map::<u16, u32>::empty(),
            r.max_wear_spec() == 0,
    {
        ToolWear::new(0)
    }
}

/// Repairing undoes all wear: right after `repair`, the tool has its full
/// number of uses again (and is not broken unless tools break at once).
pub proof fn lemma_repair_restores(before: &ToolWear, after: &ToolWear, tool: BlockType)
    requires
        after.wear_map() == before.wear_map().remove(tool.id_spec()),
        after.max_wear_spec() == before.max_wear_spec(),
    ensures
        after.remaining_spec(tool) == before.max_wear_spec(),
        after.max_wear_spec() > 0 ==> after.remaining_spec(tool) != 0,
{
}

// ──────────────────────────────────────────────────────── achievements ──

/// The unlocked list after unlocking `name`: appended unless already there.
pub open spec fn after_unlock(list: Seq<Seq<char>>, name: Seq<char>) -> Seq<Seq<char>> {
    if list.contains(name) {
        list
    } else {
        list.push(name)
    }
}

/// Progression and unlocked achievements.
#[derive(Debug)]
pub struct AchievementTracker {
    /// Unlocked achievement ids, in unlock order.
    pub unlocked: Vec<String>,
    pub nights_survived: u32,
    pub kills: u32,
    pub crafts: u32,
}

impl AchievementTracker {
    /// The unlocked ids as character sequences.
    pub open spec fn unlocked_view(&self) -> Seq<Seq<char>> {
        self.unlocked@.map_values(|s: String| s@)
    }

    /// Nothing unlocked, no progress.
    pub fn new() -> (r: AchievementTracker)
        ensures
            r.unlocked_view() == Seq::<Seq<char>>::empty(),
            r.nights_survived == 0,
            r.kills == 0,
            r.crafts == 0,
    {
        let r = AchievementTracker { unlocked: Vec::new(), nights_survived: 0, kills: 0, crafts: 0 };
        assert(r.unlocked_view() =~= Seq::<Seq<char>>::empty());
        r
    }

    /// Unlock an achievement. Returns true when it was newly unlocked,
    /// false when it already was (the list is then unchanged).
    pub fn unlock(&mut self, name: &str) -> (r: bool)
        ensures
            r == !old(self).unlocked_view().contains(name@),
            final(self).unlocked_view() == after_unlock(old(self).unlocked_view(), name@),
            final(self).nights_survived == old(self).nights_survived,
            final(self).kills == old(self).kills,
            final(self).crafts == old(self).crafts,
            old(self).unlocked_view().no_duplicates() ==> final(self).unlocked_view().no_duplicates(),
    {
        let ghost list = self.unlocked_view();
        let mut i: usize = 0;
        while i < self.unlocked.len()
            invariant
                list == self.unlocked_view(),
                i <= self.unlocked.len(),
                forall|j: int| 0 <= j < i ==> list[j] != name@,
            decreases self.unlocked.len() - i,
        {
            if str_eq(self.unlocked[i].as_str(), name) {
                assert(list[i as int] == name@);
                return false;
            }
            i = i + 1;
        }
        assert(!list.contains(name@));
        let owned: String = name.to_owned();
        self.unlocked.push(owned);
        assert(self.unlocked_view() =~= list.push(name@));
        true
    }

    /// The ids unlocked from position `start` of the list on, in order.
    pub fn unlocked_since(&self, start: usize) -> (r: Vec<String>)
        requires
            start <= self.unlocked_view().len(),
        ensures
            r@.map_values(|s: String| s@) == self.unlocked_view().skip(start as int),
    {
        let mut r: Vec<String> = Vec::new();
        let mut i: usize = start;
        while i < self.unlocked.len()
            invariant
                start <= i <= self.unlocked.len(),
                r@.map_values(|s: String| s@) == self.unlocked_view().subrange(start as int, i as int),
            decreases self.unlocked.len() - i,
        {
            let ghost before = r@;
            let s = self.unlocked[i].clone();
            r.push(s);
            assert(r@ == before.push(self.unlocked@[i as int]));
            assert(self.unlocked_view()[i as int] == self.unlocked@[i as int]@);
            assert(r@.map_values(|s: String| s@) =~= before.map_values(|s: String| s@).push(self.unlocked_view()[i as int]));
            assert(self.unlocked_view().subrange(start as int, i + 1) =~= self.unlocked_view().subrange(start as int, i as int).push(self.unlocked_view()[i as int]));
            i = i + 1;
        }
        assert(self.unlocked_view().subrange(start as int, i as int) =~= self.unlocked_view().skip(start as int));
        r
    }

    /// A night was survived: "first-night" unlocks on the first, and
    /// "five-nights" from the fifth on. Returns whether anything was newly
    /// unlocked.
    pub fn record_night_survived(&mut self) -> (r: bool)
        requires
            old(self).nights_survived < u32::MAX,
        ensures
            ({
                let n = (old(self).nights_survived + 1) as u32;
                let l0 = old(self).unlocked_view();
                let l1 = if n == 1 { after_unlock(l0, "first-night"@) } else { l0 };
                let l2 = if n >= 5 { after_unlock(l1, "five-nights"@) } else { l1 };
                &&& final(self).nights_survived == n
                &&& final(self).unlocked_view() == l2
                &&& r == ((n == 1 && !l0.contains("first-night"@)) || (n >= 5 && !l1.contains(
                    "five-nights"@,
                )))
            }),
            final(self).kills == old(self).kills,
            final(self).crafts == old(self).crafts,
            old(self).unlocked_view().no_duplicates() ==> final(self).unlocked_view().no_duplicates(),
    {
        self.nights_survived = self.nights_survived + 1;
        let mut any = false;
        if self.nights_survived == 1 {
            any = self.unlock("first-night") || any;
        }
        if self.nights_survived >= 5 {
            let u = self.unlock("five-nights");
            any = any || u;
        }
        any
    }

    /// An enemy was defeated: "first-kill" unlocks on the first, "hunter"
    /// from the tenth on. Returns whether anything was newly unlocked.
    pub fn record_kill(&mut self) -> (r: bool)
        requires
            old(self).kills < u32::MAX,
        ensures
            ({
                let n = (old(self).kills + 1) as u32;
                let l0 = old(self).unlocked_view();
                let l1 = if n == 1 { after_unlock(l0, "first-kill"@) } else { l0 };
                let l2 = if n >= 10 { after_unlock(l1, "hunter"@) } else { l1 };
                &&& final(self).kills == n
                &&& final(self).unlocked_view() == l2
                &&& r == ((n == 1 && !l0.contains("first-kill"@)) || (n >= 10 && !l1.contains("hunter"@)))
            }),
            final(self).nights_survived == old(self).nights_survived,
            final(self).crafts == old(self).crafts,
            old(self).unlocked_view().no_duplicates() ==> final(self).unlocked_view().no_duplicates(),
    {
        self.kills = self.kills + 1;
        let mut any = false;
        if self.kills == 1 {
            any = self.unlock("first-kill") || any;
        }
        if self.kills >= 10 {
            let u = self.unlock("hunter");
            any = any || u;
        }
        any
    }

    /// An item was crafted: "master-crafter" unlocks. Returns whether it
    /// was newly unlocked.
    pub fn record_craft(&mut self) -> (r: bool)
        requires
            old(self).crafts < u32::MAX,
        ensures
            final(self).crafts == old(self).crafts + 1,
            final(self).unlocked_view() == after_unlock(old(self).unlocked_view(), "master-crafter"@),
            r == !old(self).unlocked_view().contains("master-crafter"@),
            final(self).nights_survived == old(self).nights_survived,
            final(self).kills == old(self).kills,
            old(self).unlocked_view().no_duplicates() ==> final(self).unlocked_view().no_duplicates(),
    {
        self.crafts = self.crafts + 1;
        self.unlock("master-crafter")
    }

    /// The player reached full health: "full-health" unlocks. Returns
    /// whether it was newly unlocked.
    pub fn record_full_health(&mut self) -> (r: bool)
        ensures
            final(self).unlocked_view() == after_unlock(old(self).unlocked_view(), "full-health"@),
            r == !old(self).unlocked_view().contains("full-health"@),
            final(self).nights_survived == old(self).nights_survived,
            final(self).kills == old(self).kills,
            final(self).crafts == old(self).crafts,
            old(self).unlocked_view().no_duplicates() ==> final(self).unlocked_view().no_duplicates(),
    {
        self.unlock("full-health")
    }
}

impl Clone for AchievementTracker {
    /// The same list and counters.
    fn clone(&self) -> (r: AchievementTracker)
        ensures
            r.unlocked@ == self.unlocked@,
            r.nights_survived == self.nights_survived,
            r.kills == self.kills,
            r.crafts == self.crafts,
    {
        AchievementTracker {
            unlocked: clone_strings(&self.unlocked),
            nights_survived: self.nights_survived,
            kills: self.kills,
            crafts: self.crafts,
        }
    }
}

impl Default for AchievementTracker {
    /// Nothing unlocked, no progress.
    fn default() -> (r: AchievementTracker)
        ensures
            r.unlocked_view() == Seq::<Seq<char>>::empty(),
            r.nights_survived == 0,
            r.kills == 0,
            r.crafts == 0,
    {
        AchievementTracker::new()
    }
}

/// Each achievement unlocks at most once: after unlocking a name it is in
/// the list, unlocking it again changes nothing (and reports nothing new),
/// and a list without duplicates stays without duplicates.
pub proof fn lemma_unlock_once(list: Seq<Seq<char>>, name: Seq<char>)
    ensures
        after_unlock(list, name).contains(name),
        after_unlock(after_unlock(list, name), name) == after_unlock(list, name),
        list.no_duplicates() ==> after_unlock(list, name).no_duplicates(),
{
    if !list.contains(name) {
        assert(list.push(name)[list.len() as int] == name);
    }
}

// ───────────────────────────────────────────────────────────── session ──

/// Per-frame player feedback gathered by a game session.
#[derive(Debug)]
pub struct SessionFeedback {
    pub messages: Vec<String>,
    pub died: bool,
    /// Achievement ids unlocked this frame (for store reporting).
    pub unlocked_achievements: Vec<String>,
}

impl SessionFeedback {
    /// No messages, no death, nothing unlocked.
    pub fn new() -> (r: SessionFeedback)
        ensures
            r.messages@.len() == 0,
            !r.died,
            r.unlocked_achievements@.len() == 0,
    {
        SessionFeedback { messages: Vec::new(), died: false, unlocked_achievements: Vec::new() }
    }
}

impl Clone for SessionFeedback {
    /// The same messages, death flag and ids.
    fn clone(&self) -> (r: SessionFeedback)
        ensures
            r.messages@ == self.messages@,
            r.died == self.died,
            r.unlocked_achievements@ == self.unlocked_achievements@,
    {
        SessionFeedback {
            messages: clone_strings(&self.messages),
            died: self.died,
            unlocked_achievements: clone_strings(&self.unlocked_achievements),
        }
    }
}

impl Default for SessionFeedback {
    /// No messages, no death, nothing unlocked.
    fn default() -> (r: SessionFeedback)
        ensures
            r.messages@.len() == 0,
            !r.died,
            r.unlocked_achievements@.len() == 0,
    {
        SessionFeedback::new()
    }
}

/// Session bookkeeping for the night/day cycle: when the previous frame was
/// night and this one is not, a survived night is recorded, and the result
/// lists the achievement ids that recording newly unlocked, in unlock
/// order. `None` when no night ended this frame.
pub fn night_transition(tracker: &mut AchievementTracker, prev_night: bool, night: bool) -> (r: Option<
    Vec<String>,
>)
    requires
        prev_night && !night ==> old(tracker).nights_survived < u32::MAX,
    ensures
        !(prev_night && !night) ==> r is None && final(tracker).unlocked_view() == old(tracker).unlocked_view()
            && final(tracker).nights_survived == old(tracker).nights_survived,
        prev_night && !night ==> {
            let n = (old(tracker).nights_survived + 1) as u32;
            let l0 = old(tracker).unlocked_view();
            let l1 = if n == 1 { after_unlock(l0, "first-night"@) } else { l0 };
            let l2 = if n >= 5 { after_unlock(l1, "five-nights"@) } else { l1 };
            &&& final(tracker).nights_survived == n
            &&& final(tracker).unlocked_view() == l2
            &&& r matches Some(ids) && ids@.map_values(|s: String| s@) == l2.skip(l0.len() as int)
        },
        final(tracker).kills == old(tracker).kills,
        final(tracker).crafts == old(tracker).crafts,
{
    if !(prev_night && !night) {
        return None;
    }
    let start = tracker.unlocked.len();
    let _ = tracker.record_night_survived();
    proof {
        lemma_after_unlock_extends(old(tracker).unlocked_view(), "first-night"@);
        let l0 = old(tracker).unlocked_view();
        let l1 = if tracker.nights_survived == 1 { after_unlock(l0, "first-night"@) } else { l0 };
        lemma_after_unlock_extends(l1, "five-nights"@);
    }
    Some(tracker.unlocked_since(start))
}

/// Session bookkeeping for a defeated enemy: the kill is recorded, and the
/// result lists the achievement ids that recording newly unlocked
/// ("first-kill" on the first kill, "hunter" on the tenth), in unlock
/// order.
pub fn kill_report(tracker: &mut AchievementTracker) -> (r: Vec<String>)
    requires
        old(tracker).kills < u32::MAX,
    ensures
        ({
            let n = (old(tracker).kills + 1) as u32;
            let l0 = old(tracker).unlocked_view();
            let l1 = if n == 1 { after_unlock(l0, "first-kill"@) } else { l0 };
            let l2 = if n >= 10 { after_unlock(l1, "hunter"@) } else { l1 };
            &&& final(tracker).kills == n
            &&& final(tracker).unlocked_view() == l2
            &&& r@.map_values(|s: String| s@) == l2.skip(l0.len() as int)
        }),
        final(tracker).nights_survived == old(tracker).nights_survived,
        final(tracker).crafts == old(tracker).crafts,
{
    let start = tracker.unlocked.len();
    let _ = tracker.record_kill();
    proof {
        lemma_after_unlock_extends(old(tracker).unlocked_view(), "first-kill"@);
        let l0 = old(tracker).unlocked_view();
        let l1 = if tracker.kills == 1 { after_unlock(l0, "first-kill"@) } else { l0 };
        lemma_after_unlock_extends(l1, "hunter"@);
    }
    tracker.unlocked_since(start)
}

/// Unlocking only ever appends: the old list is a prefix of the new one.
proof fn lemma_after_unlock_extends(list: Seq<Seq<char>>, name: Seq<char>)
    ensures
        after_unlock(list, name).len() >= list.len(),
        after_unlock(list, name).take(list.len() as int) == list,
{
    assert(list.push(name).take(list.len() as int) =~= list);
    assert(list.take(list.len() as int) =~= list);
}

/// Session bookkeeping for the full-health check: at full health the
/// "full-health" achievement is recorded and reported when new.
pub fn full_health_report(tracker: &mut AchievementTracker, at_full_health: bool) -> (r: Option<String>)
    ensures
        !at_full_health ==> r is None && final(tracker).unlocked_view() == old(tracker).unlocked_view(),
        at_full_health ==> final(tracker).unlocked_view() == after_unlock(old(tracker).unlocked_view(), "full-health"@)
            && if !old(tracker).unlocked_view().contains("full-health"@) {
                r matches Some(s) && s@ == "full-health"@
            } else {
                r is None
            },
        final(tracker).nights_survived == old(tracker).nights_survived,
        final(tracker).kills == old(tracker).kills,
        final(tracker).crafts == old(tracker).crafts,
{
    if at_full_health && tracker.record_full_health() {
        Some("full-health".to_owned())
    } else {
        None
    }
}

} // verus!
