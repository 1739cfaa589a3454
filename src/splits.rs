//! The ordered milestone rules: which rule fires on a tick, and what it does
//! to the run.
use vstd::prelude::*;
use crate::change_cell::Observation;
use crate::clock::{FrameClock, ACCUMULATED_LIMIT};
use crate::memory::{Element, Equipment, InventoryItem, PauseMenu};
use crate::milestone::{Guard, Milestone, ProgressGuard, Settings, MILESTONE_COUNT};

verus! {

pub const SCENE_MINISH_WOODS: u8 = 0x00;
pub const SCENE_MT_CRENEL: u8 = 0x06;
pub const SCENE_FORTRESS_OF_WINDS: u8 = 0x18;
pub const SCENE_DEEPWOOD_SHRINE: u8 = 0x48;
pub const SCENE_DEEPWOOD_SHRINE_BOSS: u8 = 0x49;
pub const SCENE_CAVE_OF_FLAMES: u8 = 0x50;
pub const SCENE_CAVE_OF_FLAMES_BOSS: u8 = 0x51;
pub const SCENE_FORTRESS_OF_WINDS_GREEN_FLOOR: u8 = 0x58;
pub const SCENE_TEMPLE_OF_DROPLETS: u8 = 0x60;
pub const SCENE_PALACE_OF_WINDS: u8 = 0x70;
pub const SCENE_VAATI3: u8 = 0x8B;

/// The sprite that shows while the Minish Cap is handed over.
pub const SPRITE_RECEIVE_MINISH_CAP: u16 = 0x31C;

/// On the Fortress of Winds floor that leads to the boss, the boss-room entry
/// counts only at or below this vertical position.
pub const BOSS_ROOM_Y_LIMIT: u16 = 1015;

/// Frames between the Minish Cap cutscene and its split.
pub const MINISH_CAP_DELAY: i64 = 20;

/// Frames between picking up the Four Sword and its split.
pub const FOUR_SWORD_DELAY: i64 = 244;

/// The bit of the Dark Hyrule Castle key byte that marks the big key.
pub const DHC_BIG_KEY_BIT: i32 = 4;

/// One tick's observations of every watched location.
#[derive(Clone, Copy, Debug)]
pub struct Vars {
    pub pause_menu: Observation<PauseMenu>,
    pub scene: Observation<u8>,
    pub dhc_big_key: Observation<i32>,
    pub vaati3_phases: Observation<i32>,
    pub sprite: Observation<u16>,
    pub frame_count: Observation<u16>,
    pub uix_position: Observation<i32>,
    pub uiy_position: Observation<i32>,
    pub link_position_y: Observation<u16>,
    pub visual_rupees: Observation<u16>,
    pub visual_hearts: Observation<u8>,
    pub visual_keys: Observation<u8>,
    pub tiger_scrolls: Observation<u8>,
    pub mysterious_shells: Observation<u16>,
    pub bombs: Observation<u8>,
}

/// A split held back until the frame count reaches `due_frame`.
#[derive(Clone, Copy, Debug, PartialEq, Eq, Structural)]
pub struct DelayedSplit {
    pub milestone: Milestone,
    pub due_frame: i64,
}

/// What a run carries from tick to tick.
#[derive(Clone, Copy, Debug)]
pub struct Run {
    pub clock: FrameClock,
    pub progress: ProgressGuard,
    pub delayed: Option<DelayedSplit>,
}

impl Run {
    /// A run before any start: count at zero, no flag set, nothing pending.
    pub fn new() -> (r: Run)
        ensures
            r.clock.accumulated == 0,
            r.progress.is_clear(),
            r.delayed is None,
    {
        Run { clock: FrameClock::new(), progress: ProgressGuard::new(), delayed: None }
    }

    /// Starts a run at the counter value `narrow`: the frame count becomes
    /// zero, every flag is cleared and a pending split is dropped.
    pub fn restart(&mut self, narrow: u16)
        ensures
            *final(self) == old(self).restarted(narrow),
            final(self).clock.spec_frame_count(narrow) == 0,
            final(self).progress.is_clear(),
            final(self).delayed is None,
    {
        self.clock.restart(narrow);
        self.progress = ProgressGuard::new();
        self.delayed = None;
    }

    /// A pending split belongs to a rule that holds its split back.
    pub open spec fn wf(self) -> bool {
        self.delayed is Some ==> delay_of(self.delayed.unwrap().milestone) is Some
    }

    pub open spec fn restarted(self, narrow: u16) -> Run {
        Run {
            clock: FrameClock { accumulated: -(narrow as int) as i64 },
            progress: ProgressGuard::spec_cleared(),
            delayed: None,
        }
    }
}

/// The frame count of the tick.
pub open spec fn frame_now(v: Vars, run: Run) -> int {
    run.clock.spec_frame_count(v.frame_count.current)
}

pub open spec fn item_rose(o: Observation<PauseMenu>, item: InventoryItem) -> bool {
    o.rose(|p: PauseMenu| p.spec_holds(item))
}

pub open spec fn element_rose(o: Observation<PauseMenu>, e: Element) -> bool {
    o.rose(|p: PauseMenu| p.spec_has_element(e))
}

pub open spec fn equipment_rose(o: Observation<PauseMenu>, e: Equipment) -> bool {
    o.rose(|p: PauseMenu| p.spec_has_equipment(e))
}

pub open spec fn sprite_rose(o: Observation<u16>) -> bool {
    o.rose(|s: u16| s == SPRITE_RECEIVE_MINISH_CAP)
}

pub open spec fn big_key_rose(o: Observation<i32>) -> bool {
    o.rose(|k: i32| k & DHC_BIG_KEY_BIT != 0)
}

fn item_edge(o: &Observation<PauseMenu>, item: InventoryItem) -> (r: bool)
    ensures
        r == item_rose(*o, item),
{
    o.check(|p: &PauseMenu| -> (b: bool)
        ensures
            b == p.spec_holds(item),
        { p.holds(item) })
}

fn element_edge(o: &Observation<PauseMenu>, e: Element) -> (r: bool)
    ensures
        r == element_rose(*o, e),
{
    o.check(|p: &PauseMenu| -> (b: bool)
        ensures
            b == p.spec_has_element(e),
        { p.has_element(e) })
}

fn equipment_edge(o: &Observation<PauseMenu>, e: Equipment) -> (r: bool)
    ensures
        r == equipment_rose(*o, e),
{
    o.check(|p: &PauseMenu| -> (b: bool)
        ensures
            b == p.spec_has_equipment(e),
        { p.has_equipment(e) })
}

fn sprite_edge(o: &Observation<u16>) -> (r: bool)
    ensures
        r == sprite_rose(*o),
{
    o.check(|s: &u16| -> (b: bool)
        ensures
            b == (*s == SPRITE_RECEIVE_MINISH_CAP),
        { *s == SPRITE_RECEIVE_MINISH_CAP })
}

fn big_key_edge(o: &Observation<i32>) -> (r: bool)
    ensures
        r == big_key_rose(*o),
{
    o.check(|k: &i32| -> (b: bool)
        ensures
            b == (*k & DHC_BIG_KEY_BIT != 0),
        { *k & DHC_BIG_KEY_BIT != 0 })
}

/// What the memory must show for the rule of `m`, before its guard and its
/// toggle are consulted.
pub open spec fn trigger(m: Milestone, v: Vars) -> bool {
    match m {
        Milestone::GetSmithsSword => item_rose(v.pause_menu, InventoryItem::SmithsSword),
        Milestone::ReceiveMinishCap => sprite_rose(v.sprite) && v.scene.current == SCENE_MINISH_WOODS,
        Milestone::EnterDeepwoodShrine => v.scene.current == SCENE_DEEPWOOD_SHRINE,
        Milestone::GetGustJar => item_rose(v.pause_menu, InventoryItem::GustJar),
        Milestone::EnterDeepwoodShrineBossRoom => v.scene.current == SCENE_DEEPWOOD_SHRINE_BOSS,
        Milestone::GetEarthElement => element_rose(v.pause_menu, Element::Earth),
        Milestone::EnterMtCrenel => v.scene.current == SCENE_MT_CRENEL,
        Milestone::GetGripRing => equipment_rose(v.pause_menu, Equipment::GripRing),
        Milestone::EnterCaveOfFlames => v.scene.current == SCENE_CAVE_OF_FLAMES,
        Milestone::GetCaneOfPacci => item_rose(v.pause_menu, InventoryItem::CaneOfPacci),
        Milestone::EnterCaveOfFlamesBossRoom => v.scene.current == SCENE_CAVE_OF_FLAMES_BOSS,
        Milestone::GetFireElement => element_rose(v.pause_menu, Element::Fire),
        Milestone::GetPegasusBoots => item_rose(v.pause_menu, InventoryItem::PegasusBoots),
        Milestone::GetBow => item_rose(v.pause_menu, InventoryItem::Bow),
        Milestone::EnterFortressOfWinds => v.scene.current == SCENE_FORTRESS_OF_WINDS,
        Milestone::GetMoleMitts => item_rose(v.pause_menu, InventoryItem::MoleMitts),
        Milestone::EnterFortressOfWindsBossRoom => v.scene.current == SCENE_FORTRESS_OF_WINDS_GREEN_FLOOR && v.link_position_y.current <= BOSS_ROOM_Y_LIMIT,
        Milestone::GetOcarina => item_rose(v.pause_menu, InventoryItem::Ocarina),
        Milestone::GetMagicalBoomerang => item_rose(v.pause_menu, InventoryItem::MagicalBoomerang),
        Milestone::GetPowerBracelets => equipment_rose(v.pause_menu, Equipment::PowerBracelets),
        Milestone::GetFlippers => equipment_rose(v.pause_menu, Equipment::Flippers),
        Milestone::EnterTempleOfDroplets => v.scene.current == SCENE_TEMPLE_OF_DROPLETS,
        Milestone::GetFlameLantern => item_rose(v.pause_menu, InventoryItem::FlameLantern),
        Milestone::GetWaterElement => element_rose(v.pause_menu, Element::Water),
        Milestone::EnterPalaceOfWinds => v.scene.current == SCENE_PALACE_OF_WINDS,
        Milestone::GetRocsCape => item_rose(v.pause_menu, InventoryItem::RocsCape),
        Milestone::GetWindElement => element_rose(v.pause_menu, Element::Wind),
        Milestone::GetFourSword => item_rose(v.pause_menu, InventoryItem::FourSword),
        Milestone::GetDhcBigKey => big_key_rose(v.dhc_big_key),
        Milestone::DefeatVaati => v.scene.current == SCENE_VAATI3 && v.vaati3_phases.previous == 1 && v.vaati3_phases.current == 0,
    }
}

fn trigger_exec(m: Milestone, v: &Vars) -> (r: bool)
    ensures
        r == trigger(m, *v),
{
    match m {
        Milestone::GetSmithsSword => item_edge(&v.pause_menu, InventoryItem::SmithsSword),
        Milestone::ReceiveMinishCap => sprite_edge(&v.sprite) && v.scene.current == SCENE_MINISH_WOODS,
        Milestone::EnterDeepwoodShrine => v.scene.current == SCENE_DEEPWOOD_SHRINE,
        Milestone::GetGustJar => item_edge(&v.pause_menu, InventoryItem::GustJar),
        Milestone::EnterDeepwoodShrineBossRoom => v.scene.current == SCENE_DEEPWOOD_SHRINE_BOSS,
        Milestone::GetEarthElement => element_edge(&v.pause_menu, Element::Earth),
        Milestone::EnterMtCrenel => v.scene.current == SCENE_MT_CRENEL,
        Milestone::GetGripRing => equipment_edge(&v.pause_menu, Equipment::GripRing),
        Milestone::EnterCaveOfFlames => v.scene.current == SCENE_CAVE_OF_FLAMES,
        Milestone::GetCaneOfPacci => item_edge(&v.pause_menu, InventoryItem::CaneOfPacci),
        Milestone::EnterCaveOfFlamesBossRoom => v.scene.current == SCENE_CAVE_OF_FLAMES_BOSS,
        Milestone::GetFireElement => element_edge(&v.pause_menu, Element::Fire),
        Milestone::GetPegasusBoots => item_edge(&v.pause_menu, InventoryItem::PegasusBoots),
        Milestone::GetBow => item_edge(&v.pause_menu, InventoryItem::Bow),
        Milestone::EnterFortressOfWinds => v.scene.current == SCENE_FORTRESS_OF_WINDS,
        Milestone::GetMoleMitts => item_edge(&v.pause_menu, InventoryItem::MoleMitts),
        Milestone::EnterFortressOfWindsBossRoom => v.scene.current == SCENE_FORTRESS_OF_WINDS_GREEN_FLOOR && v.link_position_y.current <= BOSS_ROOM_Y_LIMIT,
        Milestone::GetOcarina => item_edge(&v.pause_menu, InventoryItem::Ocarina),
        Milestone::GetMagicalBoomerang => item_edge(&v.pause_menu, InventoryItem::MagicalBoomerang),
        Milestone::GetPowerBracelets => equipment_edge(&v.pause_menu, Equipment::PowerBracelets),
        Milestone::GetFlippers => equipment_edge(&v.pause_menu, Equipment::Flippers),
        Milestone::EnterTempleOfDroplets => v.scene.current == SCENE_TEMPLE_OF_DROPLETS,
        Milestone::GetFlameLantern => item_edge(&v.pause_menu, InventoryItem::FlameLantern),
        Milestone::GetWaterElement => element_edge(&v.pause_menu, Element::Water),
        Milestone::EnterPalaceOfWinds => v.scene.current == SCENE_PALACE_OF_WINDS,
        Milestone::GetRocsCape => item_edge(&v.pause_menu, InventoryItem::RocsCape),
        Milestone::GetWindElement => element_edge(&v.pause_menu, Element::Wind),
        Milestone::GetFourSword => item_edge(&v.pause_menu, InventoryItem::FourSword),
        Milestone::GetDhcBigKey => big_key_edge(&v.dhc_big_key),
        Milestone::DefeatVaati => v.scene.current == SCENE_VAATI3 && v.vaati3_phases.previous == 1 && v.vaati3_phases.current == 0,
    }
}

/// The one-shot flag of an area-entry rule.
pub open spec fn entry_guard(m: Milestone) -> Option<Guard> {
    match m {
        Milestone::EnterDeepwoodShrine => Some(Guard::DeepwoodShrine),
        Milestone::EnterDeepwoodShrineBossRoom => Some(Guard::DeepwoodShrineBoss),
        Milestone::EnterMtCrenel => Some(Guard::MtCrenel),
        Milestone::EnterCaveOfFlames => Some(Guard::CaveOfFlames),
        Milestone::EnterCaveOfFlamesBossRoom => Some(Guard::CaveOfFlamesBoss),
        Milestone::EnterFortressOfWinds => Some(Guard::FortressOfWinds),
        Milestone::EnterFortressOfWindsBossRoom => Some(Guard::FortressOfWindsBoss),
        Milestone::EnterTempleOfDroplets => Some(Guard::TempleOfDroplets),
        Milestone::EnterPalaceOfWinds => Some(Guard::PalaceOfWinds),
        _ => None,
    }
}

fn entry_guard_exec(m: Milestone) -> (r: Option<Guard>)
    ensures
        r == entry_guard(m),
{
    match m {
        Milestone::EnterDeepwoodShrine => Some(Guard::DeepwoodShrine),
        Milestone::EnterDeepwoodShrineBossRoom => Some(Guard::DeepwoodShrineBoss),
        Milestone::EnterMtCrenel => Some(Guard::MtCrenel),
        Milestone::EnterCaveOfFlames => Some(Guard::CaveOfFlames),
        Milestone::EnterCaveOfFlamesBossRoom => Some(Guard::CaveOfFlamesBoss),
        Milestone::EnterFortressOfWinds => Some(Guard::FortressOfWinds),
        Milestone::EnterFortressOfWindsBossRoom => Some(Guard::FortressOfWindsBoss),
        Milestone::EnterTempleOfDroplets => Some(Guard::TempleOfDroplets),
        Milestone::EnterPalaceOfWinds => Some(Guard::PalaceOfWinds),
        _ => None,
    }
}

/// The delay, in frames, of a rule whose split is held back.
pub open spec fn delay_of(m: Milestone) -> Option<i64> {
    match m {
        Milestone::ReceiveMinishCap => Some(MINISH_CAP_DELAY),
        Milestone::GetFourSword => Some(FOUR_SWORD_DELAY),
        _ => None,
    }
}

/// The rule of `m` matches: its trigger holds, its one-shot flag (if any) is
/// clear, and its toggle is on. A disabled rule never matches, so the rules
/// after it are tried as if it were absent.
pub open spec fn rule_matches(m: Milestone, v: Vars, p: ProgressGuard, s: Settings) -> bool {
    &&& trigger(m, v)
    &&& match entry_guard(m) {
        Some(g) => !p.spec_is_set(g),
        None => true,
    }
    &&& s.spec_is_enabled(m)
}

fn rule_matches_exec(m: Milestone, v: &Vars, p: &ProgressGuard, s: &Settings) -> (r: bool)
    ensures
        r == rule_matches(m, *v, *p, *s),
{
    if !trigger_exec(m, v) {
        return false;
    }
    if let Some(g) = entry_guard_exec(m) {
        if p.is_set(g) {
            return false;
        }
    }
    s.is_enabled(m)
}

/// The first rule, from position `i` on, that matches.
pub open spec fn first_match_from(v: Vars, p: ProgressGuard, s: Settings, i: int) -> Option<Milestone>
    decreases MILESTONE_COUNT - i,
{
    if i < 0 || i >= MILESTONE_COUNT {
        None
    } else if rule_matches(Milestone::spec_at(i as usize), v, p, s) {
        Some(Milestone::spec_at(i as usize))
    } else {
        first_match_from(v, p, s, i + 1)
    }
}

/// The first rule in evaluation order that matches.
pub open spec fn first_match(v: Vars, p: ProgressGuard, s: Settings) -> Option<Milestone> {
    first_match_from(v, p, s, 0)
}

/// Finds the first rule in evaluation order that matches.
pub fn find_match(v: &Vars, p: &ProgressGuard, s: &Settings) -> (r: Option<Milestone>)
    ensures
        r == first_match(*v, *p, *s),
{
    let mut i: usize = 0;
    while i < MILESTONE_COUNT
        invariant
            i <= MILESTONE_COUNT,
            first_match(*v, *p, *s) == first_match_from(*v, *p, *s, i as int),
        decreases MILESTONE_COUNT - i,
    {
        let m = Milestone::at(i);
        if rule_matches_exec(m, v, p, s) {
            return Some(m);
        }
        i += 1;
    }
    None
}

/// The run and the split after the rule of `m` fired: the sword's rule sets
/// its flag and splits only on a new game, not on a save that already had the
/// sword; an area entry
/// sets its flag and splits; a held-back rule schedules its split and gives
/// none now; any other rule splits.
pub open spec fn fire(m: Milestone, v: Vars, run: Run) -> (Run, Option<Milestone>) {
    if m == Milestone::GetSmithsSword {
        (
            Run { progress: run.progress.marked(Guard::SmithsSword), ..run },
            if run.progress.smiths_sword {
                None
            } else {
                Some(m)
            },
        )
    } else if let Some(g) = entry_guard(m) {
        (Run { progress: run.progress.marked(g), ..run }, Some(m))
    } else if let Some(d) = delay_of(m) {
        (
            Run {
                delayed: Some(DelayedSplit { milestone: m, due_frame: (frame_now(v, run) + d) as i64 }),
                ..run
            },
            None,
        )
    } else {
        (run, Some(m))
    }
}

/// One tick's evaluation: a pending split that is due comes first and is
/// cleared; otherwise the first matching rule fires; otherwise nothing
/// happens.
pub open spec fn evaluate(v: Vars, run: Run, s: Settings) -> (Run, Option<Milestone>) {
    if run.delayed is Some && frame_now(v, run) >= run.delayed.unwrap().due_frame {
        (Run { delayed: None, ..run }, Some(run.delayed.unwrap().milestone))
    } else {
        match first_match(v, run.progress, s) {
            Some(m) => fire(m, v, run),
            None => (run, None),
        }
    }
}

/// Decides the tick's split, at most one, and applies what its rule does to
/// the run.
pub fn should_split(v: &Vars, run: &mut Run, settings: &Settings) -> (r: Option<Milestone>)
    requires
        old(run).clock.accumulated <= ACCUMULATED_LIMIT + 65536,
    ensures
        (*final(run), r) == evaluate(*v, *old(run), *settings),
{
    let now = run.clock.frame_count(v.frame_count.current);
    if let Some(d) = run.delayed {
        if now >= d.due_frame {
            run.delayed = None;
            return Some(d.milestone);
        }
    }
    let found = find_match(v, &run.progress, settings);
    match found {
        None => None,
        Some(m) => {
            if let Milestone::GetSmithsSword = m {
                let resumed = run.progress.smiths_sword;
                run.progress.mark(Guard::SmithsSword);
                if resumed {
                    None
                } else {
                    Some(m)
                }
            } else if let Some(g) = entry_guard_exec(m) {
                run.progress.mark(g);
                Some(m)
            } else if let Milestone::ReceiveMinishCap = m {
                run.delayed = Some(DelayedSplit { milestone: m, due_frame: now + MINISH_CAP_DELAY });
                None
            } else if let Milestone::GetFourSword = m {
                run.delayed = Some(DelayedSplit { milestone: m, due_frame: now + FOUR_SWORD_DELAY });
                None
            } else {
                Some(m)
            }
        },
    }
}

proof fn first_match_from_matches(v: Vars, p: ProgressGuard, s: Settings, i: int)
    requires
        0 <= i <= MILESTONE_COUNT,
    ensures
        first_match_from(v, p, s, i) matches Some(m) ==> rule_matches(m, v, p, s) && i
            <= m.spec_position() && forall|j: int|
            i <= j < m.spec_position() ==> !rule_matches(#[trigger] Milestone::spec_at(j as usize), v, p, s),
        first_match_from(v, p, s, i) is None ==> forall|j: int|
            i <= j < MILESTONE_COUNT ==> !rule_matches(#[trigger] Milestone::spec_at(j as usize), v, p, s),
    decreases MILESTONE_COUNT - i,
{
    if i < MILESTONE_COUNT {
        let m = Milestone::spec_at(i as usize);
        if !rule_matches(m, v, p, s) {
            first_match_from_matches(v, p, s, i + 1);
        } else {
            assert(m.spec_position() == i) by {
                Milestone::position_of_at(i as usize);
            }
        }
    }
}

/// The rule that fires is the first one, in evaluation order, that matches:
/// it matches, and no rule before it does.
pub proof fn first_match_is_a_match(v: Vars, p: ProgressGuard, s: Settings)
    ensures
        first_match(v, p, s) matches Some(m) ==> rule_matches(m, v, p, s) && forall|j: int|
            0 <= j < m.spec_position() ==> !rule_matches(#[trigger] Milestone::spec_at(j as usize), v, p, s),
        first_match(v, p, s) is None ==> forall|m: Milestone| !rule_matches(m, v, p, s),
{
    first_match_from_matches(v, p, s, 0);
    if first_match(v, p, s) is None {
        assert forall|m: Milestone| !rule_matches(m, v, p, s) by {
            Milestone::at_of_position(m);
            let j = m.spec_position() as int;
            assert(0 <= j < MILESTONE_COUNT);
            assert(!rule_matches(Milestone::spec_at(j as usize), v, p, s));
        }
    }
}

/// A rule whose trigger does not hold does not split, unless its split was
/// already pending: an item rule stays quiet while its flag stays set.
pub proof fn quiet_without_trigger(m: Milestone, v: Vars, run: Run, s: Settings)
    requires
        !trigger(m, v),
        !(run.delayed matches Some(d) && d.milestone == m),
    ensures
        evaluate(v, run, s).1 != Some(m),
{
    first_match_is_a_match(v, run.progress, s);
}

/// A held-back rule that fires schedules its split at the current frame plus
/// its delay, gives no split now and leaves the flags as they were.
pub proof fn held_back_rule_schedules(m: Milestone, v: Vars, run: Run, s: Settings)
    requires
        !(run.delayed is Some && frame_now(v, run) >= run.delayed.unwrap().due_frame),
        first_match(v, run.progress, s) == Some(m),
        delay_of(m) is Some,
    ensures
        evaluate(v, run, s) == (
            Run {
                delayed: Some(
                    DelayedSplit { milestone: m, due_frame: (frame_now(v, run) + delay_of(m).unwrap()) as i64 },
                ),
                ..run
            },
            None::<Milestone>,
        ),
{
}

proof fn first_match_skipping(m: Milestone, v: Vars, p: ProgressGuard, s: Settings, t: Settings, i: int)
    requires
        0 <= i <= m.spec_position(),
        !t.spec_is_enabled(m),
        forall|n: Milestone| n != m ==> t.spec_is_enabled(n) == s.spec_is_enabled(n),
        first_match_from(v, p, s, i) == Some(m),
    ensures
        first_match_from(v, p, t, i) == first_match_from(v, p, s, m.spec_position() + 1),
    decreases MILESTONE_COUNT - i,
{
    let n = Milestone::spec_at(i as usize);
    Milestone::position_of_at(i as usize);
    if i == m.spec_position() {
        Milestone::at_of_position(m);
        first_match_from_matches(v, p, s, i + 1);
        first_match_without(m, v, p, s, t, i + 1);
    } else {
        assert(n != m);
        first_match_skipping(m, v, p, s, t, i + 1);
    }
}

/// Turning off the milestone whose rule would have fired hands the tick to
/// the next rule in order that matches, as if the disabled rule were absent.
pub proof fn disabled_rule_passes_to_next(m: Milestone, v: Vars, p: ProgressGuard, s: Settings, t: Settings)
    requires
        !t.spec_is_enabled(m),
        forall|n: Milestone| n != m ==> t.spec_is_enabled(n) == s.spec_is_enabled(n),
        first_match(v, p, s) == Some(m),
    ensures
        first_match(v, p, t) == first_match_from(v, p, s, m.spec_position() + 1),
{
    first_match_from_matches(v, p, s, 0);
    first_match_skipping(m, v, p, s, t, 0);
}

proof fn first_match_without(m: Milestone, v: Vars, p: ProgressGuard, s: Settings, t: Settings, i: int)
    requires
        0 <= i <= MILESTONE_COUNT,
        !t.spec_is_enabled(m),
        forall|n: Milestone| n != m ==> t.spec_is_enabled(n) == s.spec_is_enabled(n),
        first_match_from(v, p, s, i) != Some(m),
    ensures
        first_match_from(v, p, t, i) == first_match_from(v, p, s, i),
    decreases MILESTONE_COUNT - i,
{
    if i < MILESTONE_COUNT {
        let n = Milestone::spec_at(i as usize);
        if n == m {
            assert(!rule_matches(n, v, p, s));
            first_match_without(m, v, p, s, t, i + 1);
        } else if !rule_matches(n, v, p, s) {
            first_match_without(m, v, p, s, t, i + 1);
        }
    }
}

/// Turning off one milestone changes nothing on a tick where its rule would
/// not have fired: every other enabled rule evaluates and fires as before.
pub proof fn disabling_leaves_other_rules(m: Milestone, v: Vars, run: Run, s: Settings, t: Settings)
    requires
        !t.spec_is_enabled(m),
        forall|n: Milestone| n != m ==> t.spec_is_enabled(n) == s.spec_is_enabled(n),
        first_match(v, run.progress, s) != Some(m),
    ensures
        evaluate(v, run, t) == evaluate(v, run, s),
{
    first_match_without(m, v, run.progress, s, t, 0);
}


/// A tick keeps a run well formed, and never clears a one-shot flag.
pub proof fn evaluate_keeps_run(v: Vars, run: Run, s: Settings)
    requires
        run.wf(),
    ensures
        evaluate(v, run, s).0.wf(),
        forall|g: Guard| run.progress.spec_is_set(g) ==> #[trigger] evaluate(v, run, s).0.progress.spec_is_set(g),
{
}

/// An area entry splits at most once per run: once it has split, no later
/// tick of the same run splits it again, whatever the memory shows.
pub proof fn entry_splits_once(m: Milestone, v: Vars, run: Run, s: Settings, later: Vars)
    requires
        run.wf(),
        entry_guard(m) is Some,
        evaluate(v, run, s).1 == Some(m),
    ensures
        evaluate(v, run, s).0.progress.spec_is_set(entry_guard(m).unwrap()),
        evaluate(later, evaluate(v, run, s).0, s).1 != Some(m),
{
    first_match_is_a_match(v, run.progress, s);
    let next = evaluate(v, run, s).0;
    first_match_is_a_match(later, next.progress, s);
    evaluate_keeps_run(v, run, s);
}

/// With the flag of an area entry set, its rule never splits.
pub proof fn entered_area_stays_quiet(m: Milestone, v: Vars, run: Run, s: Settings)
    requires
        run.wf(),
        entry_guard(m) is Some,
        run.progress.spec_is_set(entry_guard(m).unwrap()),
    ensures
        evaluate(v, run, s).1 != Some(m),
        evaluate(v, run, s).0.progress.spec_is_set(entry_guard(m).unwrap()),
{
    first_match_is_a_match(v, run.progress, s);
}

/// A disabled milestone never splits, and never becomes pending, as long as
/// it was not pending already.
pub proof fn disabled_never_splits(m: Milestone, v: Vars, run: Run, s: Settings)
    requires
        !s.spec_is_enabled(m),
        !(run.delayed matches Some(d) && d.milestone == m),
    ensures
        evaluate(v, run, s).1 != Some(m),
        !(evaluate(v, run, s).0.delayed matches Some(d) && d.milestone == m),
{
    first_match_is_a_match(v, run.progress, s);
}

/// A pending split is not given before its frame; on the first tick at or
/// past its frame it is given and cleared.
pub proof fn delayed_split_on_time(v: Vars, run: Run, s: Settings)
    requires
        run.wf(),
        run.delayed is Some,
    ensures
        frame_now(v, run) < run.delayed.unwrap().due_frame ==> evaluate(v, run, s).1 != Some(
            run.delayed.unwrap().milestone,
        ),
        frame_now(v, run) >= run.delayed.unwrap().due_frame ==> evaluate(v, run, s) == (
            Run { delayed: None, ..run },
            Some(run.delayed.unwrap().milestone),
        ),
{
    first_match_is_a_match(v, run.progress, s);
}

} // verus!
