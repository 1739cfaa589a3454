//! One poll of the game: the watched readings go in, and what the timer
//! should do comes out.
use vstd::prelude::*;
use crate::change_cell::{after_read, ChangeCell, Observation};
use crate::clock::{advanced, FrameClock, ACCUMULATED_LIMIT};
use crate::memory::PauseMenu;
use crate::milestone::{Milestone, Settings};
use crate::splits::{evaluate, evaluate_keeps_run, frame_now, should_split, Run, Vars};

verus! {

/// The menu cursor's column on the file-select screen.
pub const START_CURSOR_X: i32 = 24;

/// The menu cursor's resting row before a new game is confirmed.
pub const START_CURSOR_Y: i32 = 144;

/// What the timer reports about itself.
#[derive(Clone, Copy, Debug, PartialEq, Eq, Structural)]
pub enum TimerState {
    NotRunning,
    Running,
    Paused,
    Ended,
}

/// One poll's reads, decoded; `None` where the read failed.
#[derive(Clone, Copy, Debug)]
pub struct Readings {
    pub pause_menu: Option<PauseMenu>,
    pub scene: Option<u8>,
    pub dhc_big_key: Option<i32>,
    pub vaati3_phases: Option<i32>,
    pub sprite: Option<u16>,
    pub frame_count: Option<u16>,
    pub uix_position: Option<i32>,
    pub uiy_position: Option<i32>,
    pub link_position_y: Option<u16>,
    pub visual_rupees: Option<u16>,
    pub visual_hearts: Option<u8>,
    pub visual_keys: Option<u8>,
    pub tiger_scrolls: Option<u8>,
    pub mysterious_shells: Option<u16>,
    pub bombs: Option<u8>,
}

/// What the timer should do after a poll.
#[derive(Clone, Copy, Debug)]
pub struct Tick {
    /// The observations of the poll.
    pub vars: Vars,
    /// Start the timer, with game time driven by the frame count.
    pub start: bool,
    /// The game time to report, in frames.
    pub game_frames: Option<i64>,
    /// The split to report.
    pub split: Option<Milestone>,
}

/// The observation after a read that may have failed.
pub open spec fn read_into<T>(o: Option<Observation<T>>, read: Option<T>) -> Option<Observation<T>> {
    match read {
        Some(v) => Some(after_read(o, v)),
        None => o,
    }
}

/// Every read of the poll succeeded.
pub open spec fn all_read(r: Readings) -> bool {
    r.pause_menu is Some
        && r.scene is Some
        && r.dhc_big_key is Some
        && r.vaati3_phases is Some
        && r.sprite is Some
        && r.frame_count is Some
        && r.uix_position is Some
        && r.uiy_position is Some
        && r.link_position_y is Some
        && r.visual_rupees is Some
        && r.visual_hearts is Some
        && r.visual_keys is Some
        && r.tiger_scrolls is Some
        && r.mysterious_shells is Some
        && r.bombs is Some
}

/// The menu gesture that confirms a new game: the cursor sits in the start
/// column, was on its resting row on the previous poll and is now below it.
pub open spec fn start_gesture(v: Vars) -> bool {
    v.uix_position.current == START_CURSOR_X && v.uiy_position.previous == START_CURSOR_Y
        && v.uiy_position.current > START_CURSOR_Y
}

/// What one complete poll does to the run, and what it asks of the timer.
/// While the timer is idle, only the start gesture matters; while it runs or
/// is paused, the frame count advances, is reported, and the rules are
/// evaluated; once it has ended, nothing happens.
pub open spec fn step(v: Vars, run: Run, timer: TimerState, s: Settings) -> (Run, Tick) {
    match timer {
        TimerState::NotRunning => if start_gesture(v) {
            (
                run.restarted(v.frame_count.current),
                Tick { vars: v, start: true, game_frames: None, split: None },
            )
        } else {
            (run, Tick { vars: v, start: false, game_frames: None, split: None })
        },
        TimerState::Running | TimerState::Paused => {
            let moved = Run {
                clock: FrameClock {
                    accumulated: advanced(run.clock.accumulated as int, v.frame_count) as i64,
                },
                ..run
            };
            let (after, split) = evaluate(v, moved, s);
            (
                after,
                Tick {
                    vars: v,
                    start: false,
                    game_frames: Some(frame_now(v, moved) as i64),
                    split,
                },
            )
        },
        TimerState::Ended => (run, Tick { vars: v, start: false, game_frames: None, split: None }),
    }
}

/// Everything the library keeps while attached to the game: the watched
/// locations, which outlive runs, and the current run.
pub struct Session {
    pub pause_menu: ChangeCell<PauseMenu>,
    pub scene: ChangeCell<u8>,
    pub dhc_big_key: ChangeCell<i32>,
    pub vaati3_phases: ChangeCell<i32>,
    pub sprite: ChangeCell<u16>,
    pub frame_count: ChangeCell<u16>,
    pub uix_position: ChangeCell<i32>,
    pub uiy_position: ChangeCell<i32>,
    pub link_position_y: ChangeCell<u16>,
    pub visual_rupees: ChangeCell<u16>,
    pub visual_hearts: ChangeCell<u8>,
    pub visual_keys: ChangeCell<u8>,
    pub tiger_scrolls: ChangeCell<u8>,
    pub mysterious_shells: ChangeCell<u16>,
    pub bombs: ChangeCell<u8>,
    pub run: Run,
}

impl Session {
    /// A session that has read nothing yet.
    pub fn new() -> (s: Session)
        ensures
            s.wf(),
            s.pause_menu@ is None,
            s.scene@ is None,
            s.dhc_big_key@ is None,
            s.vaati3_phases@ is None,
            s.sprite@ is None,
            s.frame_count@ is None,
            s.uix_position@ is None,
            s.uiy_position@ is None,
            s.link_position_y@ is None,
            s.visual_rupees@ is None,
            s.visual_hearts@ is None,
            s.visual_keys@ is None,
            s.tiger_scrolls@ is None,
            s.mysterious_shells@ is None,
            s.bombs@ is None,
            s.run.clock.accumulated == 0,
            s.run.progress.is_clear(),
            s.run.delayed is None,
    {
        Session {
            pause_menu: ChangeCell::new(),
            scene: ChangeCell::new(),
            dhc_big_key: ChangeCell::new(),
            vaati3_phases: ChangeCell::new(),
            sprite: ChangeCell::new(),
            frame_count: ChangeCell::new(),
            uix_position: ChangeCell::new(),
            uiy_position: ChangeCell::new(),
            link_position_y: ChangeCell::new(),
            visual_rupees: ChangeCell::new(),
            visual_hearts: ChangeCell::new(),
            visual_keys: ChangeCell::new(),
            tiger_scrolls: ChangeCell::new(),
            mysterious_shells: ChangeCell::new(),
            bombs: ChangeCell::new(),
            run: Run::new(),
        }
    }

    pub open spec fn wf(&self) -> bool {
        self.run.wf()
    }

    /// Every watched location has been read at least once.
    pub open spec fn all_observed(&self) -> bool {
        self.pause_menu@ is Some
            && self.scene@ is Some
            && self.dhc_big_key@ is Some
            && self.vaati3_phases@ is Some
            && self.sprite@ is Some
            && self.frame_count@ is Some
            && self.uix_position@ is Some
            && self.uiy_position@ is Some
            && self.link_position_y@ is Some
            && self.visual_rupees@ is Some
            && self.visual_hearts@ is Some
            && self.visual_keys@ is Some
            && self.tiger_scrolls@ is Some
            && self.mysterious_shells@ is Some
            && self.bombs@ is Some
    }

    /// The observations of every watched location.
    pub open spec fn spec_vars(&self) -> Vars {
        Vars {
            pause_menu: self.pause_menu@.unwrap(),
            scene: self.scene@.unwrap(),
            dhc_big_key: self.dhc_big_key@.unwrap(),
            vaati3_phases: self.vaati3_phases@.unwrap(),
            sprite: self.sprite@.unwrap(),
            frame_count: self.frame_count@.unwrap(),
            uix_position: self.uix_position@.unwrap(),
            uiy_position: self.uiy_position@.unwrap(),
            link_position_y: self.link_position_y@.unwrap(),
            visual_rupees: self.visual_rupees@.unwrap(),
            visual_hearts: self.visual_hearts@.unwrap(),
            visual_keys: self.visual_keys@.unwrap(),
            tiger_scrolls: self.tiger_scrolls@.unwrap(),
            mysterious_shells: self.mysterious_shells@.unwrap(),
            bombs: self.bombs@.unwrap(),
        }
    }

    /// The run's count is low enough for another poll.
    pub fn has_headroom(&self) -> (r: bool)
        ensures
            r == (self.run.clock.accumulated <= ACCUMULATED_LIMIT),
    {
        self.run.clock.has_headroom()
    }

    /// One poll. Each watched location takes its read. If any read failed,
    /// the poll stops there: the run is untouched and `None` comes back.
    /// Otherwise the run moves on as `step` says and the timer's orders
    /// come back.
    pub fn tick(&mut self, readings: &Readings, timer: TimerState, settings: &Settings) -> (r: Option<Tick>)
        requires
            old(self).wf(),
            old(self).run.clock.accumulated <= ACCUMULATED_LIMIT,
        ensures
            final(self).wf(),
            final(self).pause_menu@ == read_into(old(self).pause_menu@, readings.pause_menu),
            final(self).scene@ == read_into(old(self).scene@, readings.scene),
            final(self).dhc_big_key@ == read_into(old(self).dhc_big_key@, readings.dhc_big_key),
            final(self).vaati3_phases@ == read_into(old(self).vaati3_phases@, readings.vaati3_phases),
            final(self).sprite@ == read_into(old(self).sprite@, readings.sprite),
            final(self).frame_count@ == read_into(old(self).frame_count@, readings.frame_count),
            final(self).uix_position@ == read_into(old(self).uix_position@, readings.uix_position),
            final(self).uiy_position@ == read_into(old(self).uiy_position@, readings.uiy_position),
            final(self).link_position_y@ == read_into(old(self).link_position_y@, readings.link_position_y),
            final(self).visual_rupees@ == read_into(old(self).visual_rupees@, readings.visual_rupees),
            final(self).visual_hearts@ == read_into(old(self).visual_hearts@, readings.visual_hearts),
            final(self).visual_keys@ == read_into(old(self).visual_keys@, readings.visual_keys),
            final(self).tiger_scrolls@ == read_into(old(self).tiger_scrolls@, readings.tiger_scrolls),
            final(self).mysterious_shells@ == read_into(old(self).mysterious_shells@, readings.mysterious_shells),
            final(self).bombs@ == read_into(old(self).bombs@, readings.bombs),
            !all_read(*readings) ==> r is None && final(self).run == old(self).run,
            all_read(*readings) ==> final(self).all_observed() && r == Some(
                step(final(self).spec_vars(), old(self).run, timer, *settings).1,
            ) && final(self).run == step(final(self).spec_vars(), old(self).run, timer, *settings).0,
    {
        let pause_menu = self.pause_menu.update(readings.pause_menu);
        let scene = self.scene.update(readings.scene);
        let dhc_big_key = self.dhc_big_key.update(readings.dhc_big_key);
        let vaati3_phases = self.vaati3_phases.update(readings.vaati3_phases);
        let sprite = self.sprite.update(readings.sprite);
        let frame_count = self.frame_count.update(readings.frame_count);
        let uix_position = self.uix_position.update(readings.uix_position);
        let uiy_position = self.uiy_position.update(readings.uiy_position);
        let link_position_y = self.link_position_y.update(readings.link_position_y);
        let visual_rupees = self.visual_rupees.update(readings.visual_rupees);
        let visual_hearts = self.visual_hearts.update(readings.visual_hearts);
        let visual_keys = self.visual_keys.update(readings.visual_keys);
        let tiger_scrolls = self.tiger_scrolls.update(readings.tiger_scrolls);
        let mysterious_shells = self.mysterious_shells.update(readings.mysterious_shells);
        let bombs = self.bombs.update(readings.bombs);
        let v = match (
            pause_menu,
            scene,
            dhc_big_key,
            vaati3_phases,
            sprite,
            frame_count,
            uix_position,
            uiy_position,
            link_position_y,
            visual_rupees,
            visual_hearts,
            visual_keys,
            tiger_scrolls,
            mysterious_shells,
            bombs,
        ) {
            (
                Some(pause_menu),
                Some(scene),
                Some(dhc_big_key),
                Some(vaati3_phases),
                Some(sprite),
                Some(frame_count),
                Some(uix_position),
                Some(uiy_position),
                Some(link_position_y),
                Some(visual_rupees),
                Some(visual_hearts),
                Some(visual_keys),
                Some(tiger_scrolls),
                Some(mysterious_shells),
                Some(bombs),
            ) => Vars {
                pause_menu,
                scene,
                dhc_big_key,
                vaati3_phases,
                sprite,
                frame_count,
                uix_position,
                uiy_position,
                link_position_y,
                visual_rupees,
                visual_hearts,
                visual_keys,
                tiger_scrolls,
                mysterious_shells,
                bombs,
            },
            _ => return None,
        };
        assert(v == self.spec_vars());
        let r = match timer {
            TimerState::NotRunning => {
                let start = start_gesture_exec(&v);
                if start {
                    self.run.restart(v.frame_count.current);
                }
                Tick { vars: v, start, game_frames: None, split: None }
            },
            TimerState::Running | TimerState::Paused => {
                self.run.clock.advance(v.frame_count);
                let frames = self.run.clock.frame_count(v.frame_count.current);
                let ghost moved = self.run;
                let split = should_split(&v, &mut self.run, settings);
                proof {
                    evaluate_keeps_run(v, moved, *settings);
                }
                Tick { vars: v, start: false, game_frames: Some(frames), split }
            },
            TimerState::Ended => Tick { vars: v, start: false, game_frames: None, split: None },
        };
        Some(r)
    }
}

/// A run start, detected while the timer is idle, brings the frame count to
/// exactly zero on that poll, clears every one-shot flag, drops a pending
/// split and starts the timer.
pub proof fn run_start_resets(v: Vars, run: Run, s: Settings)
    requires
        start_gesture(v),
    ensures
        frame_now(v, step(v, run, TimerState::NotRunning, s).0) == 0,
        step(v, run, TimerState::NotRunning, s).0.progress.is_clear(),
        step(v, run, TimerState::NotRunning, s).0.delayed is None,
        step(v, run, TimerState::NotRunning, s).1.start,
{
}

/// While the timer runs or is paused, a poll adds a wrap of the counter to
/// the count, reports the count with the counter's new value, and leaves the
/// count as evaluated rules find it.
pub proof fn running_poll_reports_frames(v: Vars, run: Run, timer: TimerState, s: Settings)
    requires
        timer == TimerState::Running || timer == TimerState::Paused,
        run.clock.accumulated <= ACCUMULATED_LIMIT,
    ensures
        step(v, run, timer, s).0.clock.accumulated == advanced(run.clock.accumulated as int, v.frame_count),
        step(v, run, timer, s).1.game_frames == Some(
            (advanced(run.clock.accumulated as int, v.frame_count) + v.frame_count.current) as i64,
        ),
        !step(v, run, timer, s).1.start,
{
}

/// While the timer is idle and the start gesture is absent, a poll changes
/// nothing in the run and gives the timer no order.
pub proof fn idle_poll_keeps_run(v: Vars, run: Run, s: Settings)
    requires
        !start_gesture(v),
    ensures
        step(v, run, TimerState::NotRunning, s).0 == run,
        !step(v, run, TimerState::NotRunning, s).1.start,
        step(v, run, TimerState::NotRunning, s).1.game_frames is None,
        step(v, run, TimerState::NotRunning, s).1.split is None,
{
}

fn start_gesture_exec(v: &Vars) -> (r: bool)
    ensures
        r == start_gesture(*v),
{
    v.uix_position.current == START_CURSOR_X && v.uiy_position.previous == START_CURSOR_Y
        && v.uiy_position.current > START_CURSOR_Y
}

} // verus!
