use minish_splits::memory::{PauseMenu, PAUSE_MENU_LEN};
use minish_splits::milestone::{Milestone, Settings};
use minish_splits::session::{Readings, Session, Tick, TimerState};

fn menu(slots: [u8; 6], elements: u8, equipment: u8) -> PauseMenu {
    let mut bytes = [0u8; PAUSE_MENU_LEN];
    bytes[..6].copy_from_slice(&slots);
    bytes[16] = elements;
    bytes[17] = equipment;
    PauseMenu::decode(&bytes).unwrap()
}

fn readings(pause_menu: PauseMenu, scene: u8, frame: u16) -> Readings {
    Readings {
        pause_menu: Some(pause_menu),
        scene: Some(scene),
        dhc_big_key: Some(0),
        vaati3_phases: Some(0),
        sprite: Some(0),
        frame_count: Some(frame),
        uix_position: Some(0),
        uiy_position: Some(0),
        link_position_y: Some(2000),
        visual_rupees: Some(0),
        visual_hearts: Some(12),
        visual_keys: Some(0),
        tiger_scrolls: Some(0),
        mysterious_shells: Some(0),
        bombs: Some(0),
    }
}

fn empty() -> PauseMenu {
    menu([0; 6], 0, 0)
}

fn tick(session: &mut Session, r: &Readings, timer: TimerState, settings: &Settings) -> Tick {
    session.tick(r, timer, settings).expect("every read succeeded")
}

fn split_label(t: &Tick) -> Option<&'static str> {
    t.split.map(|m| m.label())
}

/// Drives the start gesture on an idle timer at the given counter value.
fn start_run(session: &mut Session, frame: u16) -> Tick {
    let settings = Settings::all_enabled();
    let mut r = readings(empty(), 0x03, frame);
    r.uix_position = Some(24);
    r.uiy_position = Some(144);
    tick(session, &r, TimerState::NotRunning, &settings);
    r.uiy_position = Some(160);
    tick(session, &r, TimerState::NotRunning, &settings)
}

#[test]
fn smiths_sword_splits_once() {
    let settings = Settings::all_enabled();
    let mut s = Session::new();
    let t1 = tick(&mut s, &readings(menu([0b000, 0, 0, 0, 0, 0], 0, 0), 0x03, 10), TimerState::Running, &settings);
    assert_eq!(t1.split, None);
    let t2 = tick(&mut s, &readings(menu([0b100, 0, 0, 0, 0, 0], 0, 0), 0x03, 11), TimerState::Running, &settings);
    assert_eq!(split_label(&t2), Some("Get Smith's Sword"));
    let t3 = tick(&mut s, &readings(menu([0b100, 0, 0, 0, 0, 0], 0, 0), 0x03, 12), TimerState::Running, &settings);
    assert_eq!(t3.split, None);
}

#[test]
fn deepwood_entry_splits_on_third_tick_only() {
    let settings = Settings::all_enabled();
    let mut s = Session::new();
    let scenes = [0x03u8, 0x03, 0x48, 0x48, 0x03, 0x48, 0x48];
    let mut labels = Vec::new();
    for (i, scene) in scenes.iter().enumerate() {
        let t = tick(&mut s, &readings(empty(), *scene, i as u16), TimerState::Running, &settings);
        labels.push(split_label(&t));
    }
    assert_eq!(labels, vec![None, None, Some("Enter Deepwood Shrine"), None, None, None, None]);
}

#[test]
fn deepwood_entry_splits_again_after_run_reset() {
    let settings = Settings::all_enabled();
    let mut s = Session::new();
    tick(&mut s, &readings(empty(), 0x48, 1), TimerState::Running, &settings);
    let again = tick(&mut s, &readings(empty(), 0x48, 2), TimerState::Running, &settings);
    assert_eq!(again.split, None);
    let started = start_run(&mut s, 3);
    assert!(started.start);
    let t = tick(&mut s, &readings(empty(), 0x48, 4), TimerState::Running, &settings);
    assert_eq!(split_label(&t), Some("Enter Deepwood Shrine"));
}

#[test]
fn frame_count_steps_through_wrap() {
    let settings = Settings::all_enabled();
    let mut s = Session::new();
    let mut frames = Vec::new();
    for narrow in [65534u16, 65535, 0, 1] {
        let t = tick(&mut s, &readings(empty(), 0x03, narrow), TimerState::Running, &settings);
        frames.push(t.game_frames.unwrap());
    }
    assert_eq!(frames, vec![65534, 65535, 65536, 65537]);
    assert_eq!(s.run.clock.accumulated, 65536);
}

#[test]
fn paused_counter_keeps_frame_count() {
    let settings = Settings::all_enabled();
    let mut s = Session::new();
    let a = tick(&mut s, &readings(empty(), 0x03, 500), TimerState::Paused, &settings);
    let b = tick(&mut s, &readings(empty(), 0x03, 500), TimerState::Paused, &settings);
    assert_eq!(a.game_frames, Some(500));
    assert_eq!(b.game_frames, Some(500));
}

#[test]
fn run_start_zeroes_frame_count_and_clears_flags() {
    let settings = Settings::all_enabled();
    let mut s = Session::new();
    tick(&mut s, &readings(empty(), 0x48, 100), TimerState::Running, &settings);
    assert!(s.run.progress.deepwood_shrine);
    let started = start_run(&mut s, 4321);
    assert!(started.start);
    assert_eq!(started.game_frames, None);
    assert_eq!(s.run.clock.accumulated, -4321);
    assert_eq!(s.run.clock.frame_count(4321), 0);
    assert!(!s.run.progress.deepwood_shrine);
    assert!(!s.run.progress.smiths_sword);
    assert!(s.run.delayed.is_none());
    let t = tick(&mut s, &readings(empty(), 0x03, 4321), TimerState::Running, &settings);
    assert_eq!(t.game_frames, Some(0));
}

#[test]
fn start_gesture_needs_resting_row_first() {
    let settings = Settings::all_enabled();
    let mut s = Session::new();
    let mut r = readings(empty(), 0x03, 7);
    r.uix_position = Some(24);
    r.uiy_position = Some(160);
    let a = tick(&mut s, &r, TimerState::NotRunning, &settings);
    let b = tick(&mut s, &r, TimerState::NotRunning, &settings);
    assert!(!a.start);
    assert!(!b.start);
}

#[test]
fn minish_cap_split_is_delayed_twenty_frames() {
    let settings = Settings::all_enabled();
    let mut s = Session::new();
    tick(&mut s, &readings(empty(), 0x00, 100), TimerState::Running, &settings);
    let mut r = readings(empty(), 0x00, 101);
    r.sprite = Some(0x31C);
    let trigger = tick(&mut s, &r, TimerState::Running, &settings);
    assert_eq!(trigger.split, None);
    assert_eq!(s.run.delayed.map(|d| d.due_frame), Some(121));
    let early = tick(&mut s, &readings(empty(), 0x00, 120), TimerState::Running, &settings);
    assert_eq!(early.split, None);
    let due = tick(&mut s, &readings(empty(), 0x00, 121), TimerState::Running, &settings);
    assert_eq!(split_label(&due), Some("Receive Minish Cap"));
    assert!(s.run.delayed.is_none());
    let after = tick(&mut s, &readings(empty(), 0x00, 122), TimerState::Running, &settings);
    assert_eq!(after.split, None);
}

#[test]
fn pending_split_is_dropped_by_run_start() {
    let settings = Settings::all_enabled();
    let mut s = Session::new();
    tick(&mut s, &readings(empty(), 0x00, 100), TimerState::Running, &settings);
    let mut r = readings(empty(), 0x00, 101);
    r.sprite = Some(0x31C);
    tick(&mut s, &r, TimerState::Running, &settings);
    assert!(s.run.delayed.is_some());
    start_run(&mut s, 105);
    assert!(s.run.delayed.is_none());
    let t = tick(&mut s, &readings(empty(), 0x00, 200), TimerState::Running, &settings);
    assert_eq!(t.split, None);
}

#[test]
fn four_sword_split_is_delayed() {
    let settings = Settings::all_enabled();
    let mut s = Session::new();
    tick(&mut s, &readings(empty(), 0x03, 1000), TimerState::Running, &settings);
    let t = tick(&mut s, &readings(menu([0, 0b1_0000, 0, 0, 0, 0], 0, 0), 0x03, 1001), TimerState::Running, &settings);
    assert_eq!(t.split, None);
    assert_eq!(s.run.delayed.map(|d| (d.milestone, d.due_frame)), Some((Milestone::GetFourSword, 1245)));
    let held = menu([0, 0b1_0000, 0, 0, 0, 0], 0, 0);
    assert_eq!(tick(&mut s, &readings(held, 0x03, 1244), TimerState::Running, &settings).split, None);
    let due = tick(&mut s, &readings(held, 0x03, 1250), TimerState::Running, &settings);
    assert_eq!(split_label(&due), Some("Get Four Sword"));
}

#[test]
fn disabled_milestone_is_skipped_and_next_rule_fires() {
    let settings = Settings { get_gust_jar: false, ..Settings::all_enabled() };
    let mut s = Session::new();
    tick(&mut s, &readings(empty(), 0x03, 1), TimerState::Running, &settings);
    // Gust Jar and Grip Ring arrive on the same tick.
    let t = tick(&mut s, &readings(menu([0, 0, 0, 0, 0b100, 0], 0, 0b1), 0x03, 2), TimerState::Running, &settings);
    assert_eq!(split_label(&t), Some("Get Grip Ring"));
    let t = tick(&mut s, &readings(menu([0, 0, 0, 0, 0b100, 0], 0, 0b1), 0x03, 3), TimerState::Running, &settings);
    assert_eq!(t.split, None);
}

#[test]
fn disabled_milestone_never_splits() {
    let settings = Settings { get_gust_jar: false, ..Settings::all_enabled() };
    let mut s = Session::new();
    for (i, slot4) in [0u8, 0b100, 0, 0b100, 0].iter().enumerate() {
        let t = tick(&mut s, &readings(menu([0, 0, 0, 0, *slot4, 0], 0, 0), 0x03, i as u16), TimerState::Running, &settings);
        assert_eq!(t.split, None);
    }
}

#[test]
fn earlier_rule_wins_on_a_shared_tick() {
    let settings = Settings::all_enabled();
    let mut s = Session::new();
    tick(&mut s, &readings(empty(), 0x03, 1), TimerState::Running, &settings);
    // The earth element and the grip ring on one tick: the earth element comes first.
    let both = menu([0, 0, 0, 0, 0, 0], 0b1, 0b1);
    let t = tick(&mut s, &readings(both, 0x03, 2), TimerState::Running, &settings);
    assert_eq!(t.split, Some(Milestone::GetEarthElement));
    // The grip ring's edge has passed: it does not split on the next tick.
    let t = tick(&mut s, &readings(both, 0x03, 3), TimerState::Running, &settings);
    assert_eq!(t.split, None);
}

#[test]
fn loaded_save_with_sword_does_not_split_again() {
    let settings = Settings::all_enabled();
    let mut s = Session::new();
    tick(&mut s, &readings(empty(), 0x03, 1), TimerState::Running, &settings);
    let sword = menu([0b100, 0, 0, 0, 0, 0], 0, 0);
    assert_eq!(split_label(&tick(&mut s, &readings(sword, 0x03, 2), TimerState::Running, &settings)), Some("Get Smith's Sword"));
    // The save is reloaded: the flag drops and comes back.
    tick(&mut s, &readings(empty(), 0x03, 3), TimerState::Running, &settings);
    assert_eq!(tick(&mut s, &readings(sword, 0x03, 4), TimerState::Running, &settings).split, None);
}

#[test]
fn disabled_sword_lets_later_rules_fire() {
    let settings = Settings { get_smiths_sword: false, ..Settings::all_enabled() };
    let mut s = Session::new();
    tick(&mut s, &readings(empty(), 0x03, 1), TimerState::Running, &settings);
    // The sword arrives on the same tick as the shrine is entered.
    let sword = menu([0b100, 0, 0, 0, 0, 0], 0, 0);
    let t = tick(&mut s, &readings(sword, 0x48, 2), TimerState::Running, &settings);
    assert_eq!(split_label(&t), Some("Enter Deepwood Shrine"));
    assert!(s.run.progress.deepwood_shrine);
    let t = tick(&mut s, &readings(sword, 0x48, 3), TimerState::Running, &settings);
    assert_eq!(t.split, None);
}

#[test]
fn disabled_sword_never_splits() {
    let settings = Settings { get_smiths_sword: false, ..Settings::all_enabled() };
    let mut s = Session::new();
    for (i, slot0) in [0u8, 0b100, 0, 0b100].iter().enumerate() {
        let t = tick(&mut s, &readings(menu([*slot0, 0, 0, 0, 0, 0], 0, 0), 0x03, i as u16), TimerState::Running, &settings);
        assert_eq!(t.split, None);
    }
}

#[test]
fn fortress_boss_room_needs_position_gate() {
    let settings = Settings::all_enabled();
    let mut s = Session::new();
    let mut r = readings(empty(), 0x58, 1);
    r.link_position_y = Some(1016);
    assert_eq!(tick(&mut s, &r, TimerState::Running, &settings).split, None);
    r.link_position_y = Some(1015);
    r.frame_count = Some(2);
    assert_eq!(split_label(&tick(&mut s, &r, TimerState::Running, &settings)), Some("Enter Fortress of Winds Boss Room"));
}

#[test]
fn vaati_defeat_needs_phase_one_to_zero() {
    let settings = Settings::all_enabled();
    let mut s = Session::new();
    let mut r = readings(empty(), 0x8B, 1);
    r.vaati3_phases = Some(2);
    tick(&mut s, &r, TimerState::Running, &settings);
    r.vaati3_phases = Some(0);
    assert_eq!(tick(&mut s, &r, TimerState::Running, &settings).split, None);
    r.vaati3_phases = Some(1);
    tick(&mut s, &r, TimerState::Running, &settings);
    r.vaati3_phases = Some(0);
    assert_eq!(split_label(&tick(&mut s, &r, TimerState::Running, &settings)), Some("Defeat Vaati"));
}

#[test]
fn dhc_big_key_splits_on_its_bit() {
    let settings = Settings::all_enabled();
    let mut s = Session::new();
    let mut r = readings(empty(), 0x88, 1);
    r.dhc_big_key = Some(3);
    tick(&mut s, &r, TimerState::Running, &settings);
    r.dhc_big_key = Some(7);
    assert_eq!(split_label(&tick(&mut s, &r, TimerState::Running, &settings)), Some("Get DHC Big Key"));
}

#[test]
fn failed_read_skips_the_tick_and_keeps_values() {
    let settings = Settings::all_enabled();
    let mut s = Session::new();
    tick(&mut s, &readings(empty(), 0x03, 1), TimerState::Running, &settings);
    let mut r = readings(empty(), 0x48, 2);
    r.bombs = None;
    assert!(s.tick(&r, TimerState::Running, &settings).is_none());
    assert!(!s.run.progress.deepwood_shrine);
    let scene = s.scene.observation().unwrap();
    assert_eq!((scene.previous, scene.current), (0x03, 0x48));
    let bombs = s.bombs.observation().unwrap();
    assert_eq!((bombs.previous, bombs.current), (0, 0));
}

#[test]
fn ended_timer_does_nothing() {
    let settings = Settings::all_enabled();
    let mut s = Session::new();
    let t = tick(&mut s, &readings(empty(), 0x48, 1), TimerState::Ended, &settings);
    assert_eq!(t.split, None);
    assert_eq!(t.game_frames, None);
    assert!(!t.start);
    assert!(!s.run.progress.deepwood_shrine);
}

#[test]
fn counter_advance_is_not_counted_while_idle() {
    let settings = Settings::all_enabled();
    let mut s = Session::new();
    tick(&mut s, &readings(empty(), 0x03, 65000), TimerState::NotRunning, &settings);
    tick(&mut s, &readings(empty(), 0x03, 5), TimerState::NotRunning, &settings);
    assert_eq!(s.run.clock.accumulated, 0);
}
