use minish_splits::change_cell::{ChangeCell, Observation};
use minish_splits::clock::FrameClock;
use minish_splits::display::hearts_text;
use minish_splits::memory::{
    decode_i32, decode_u16, decode_u8, DecodeError, Element, Equipment, InventoryItem, PauseMenu,
};
use minish_splits::milestone::{Guard, Milestone, ProgressGuard, Settings, MILESTONE_COUNT};

#[test]
fn first_read_fills_both_values() {
    let mut c: ChangeCell<u8> = ChangeCell::new();
    assert!(c.observation().is_none());
    let o = c.update(Some(7)).unwrap();
    assert_eq!((o.previous, o.current), (7, 7));
}

#[test]
fn read_shifts_current_into_previous() {
    let mut c: ChangeCell<u16> = ChangeCell::new();
    c.update(Some(1));
    c.update(Some(2));
    let o = c.update(Some(3)).unwrap();
    assert_eq!((o.previous, o.current), (2, 3));
}

#[test]
fn failed_read_keeps_values() {
    let mut c: ChangeCell<u16> = ChangeCell::new();
    c.update(Some(1));
    c.update(Some(2));
    assert!(c.update(None).is_none());
    assert!(c.update(None).is_none());
    let o = c.observation().unwrap();
    assert_eq!((o.previous, o.current), (1, 2));
    // The read that resumes compares against the old current value.
    let o = c.update(Some(2)).unwrap();
    assert_eq!((o.previous, o.current), (2, 2));
}

#[test]
fn check_is_edge_triggered() {
    let mut c: ChangeCell<u8> = ChangeCell::new();
    let big = |v: &u8| *v >= 10;
    assert!(!c.update(Some(3)).unwrap().check(big));
    assert!(c.update(Some(12)).unwrap().check(big));
    assert!(!c.update(Some(15)).unwrap().check(big));
    assert!(!c.update(Some(4)).unwrap().check(big));
    assert!(c.update(Some(10)).unwrap().check(big));
}

#[test]
fn observation_check_on_literal_values() {
    let o = Observation { previous: 0u8, current: 4u8 };
    assert!(o.check(|v: &u8| *v & 4 == 4));
    let o = Observation { previous: 4u8, current: 4u8 };
    assert!(!o.check(|v: &u8| *v & 4 == 4));
}

#[test]
fn clock_wrap_adds_previous_plus_one() {
    let mut c = FrameClock::new();
    c.advance(Observation { previous: 65535, current: 0 });
    assert_eq!(c.accumulated, 65536);
    assert_eq!(c.frame_count(0), 65536);
    c.advance(Observation { previous: 0, current: 1 });
    assert_eq!(c.frame_count(1), 65537);
    c.advance(Observation { previous: 40000, current: 3 });
    assert_eq!(c.accumulated, 65536 + 40001);
}

#[test]
fn clock_restart_gives_zero() {
    let mut c = FrameClock::new();
    c.restart(300);
    assert_eq!(c.accumulated, -300);
    assert_eq!(c.frame_count(300), 0);
    assert_eq!(c.frame_count(360), 60);
    assert!(c.has_headroom());
}

#[test]
fn pause_menu_decode_reads_layout() {
    let mut bytes = [0u8; 18];
    bytes[0] = 0b100;
    bytes[4] = 0b1_0100;
    bytes[10] = 0xFF;
    bytes[16] = 0b100_0001;
    bytes[17] = 0b1_0000;
    let m = PauseMenu::decode(&bytes).unwrap();
    assert!(m.has_item(0, InventoryItem::SmithsSword));
    assert!(!m.has_item(0, InventoryItem::WhiteSword));
    assert!(m.holds(InventoryItem::GustJar));
    assert!(m.holds(InventoryItem::CaneOfPacci));
    assert!(!m.holds(InventoryItem::MoleMitts));
    // Slot 0 and slot 4 share bit positions: the slot decides the meaning.
    assert!(!m.holds(InventoryItem::FourSword));
    assert!(m.has_element(Element::Earth));
    assert!(m.has_element(Element::Wind));
    assert!(!m.has_element(Element::Fire));
    assert!(m.has_equipment(Equipment::Flippers));
    assert!(!m.has_equipment(Equipment::GripRing));
}

#[test]
fn pause_menu_decode_rejects_wrong_length() {
    let bytes = [0u8; 17];
    assert_eq!(PauseMenu::decode(&bytes).unwrap_err(), DecodeError { expected: 18, actual: 17 });
}

#[test]
fn item_table_slots_and_masks() {
    assert_eq!((InventoryItem::SmithsSword.slot(), InventoryItem::SmithsSword.mask()), (0, 4));
    assert_eq!((InventoryItem::FourSword.slot(), InventoryItem::FourSword.mask()), (1, 16));
    assert_eq!((InventoryItem::Bow.slot(), InventoryItem::Bow.mask()), (2, 4));
    assert_eq!((InventoryItem::MagicalBoomerang.slot(), InventoryItem::MagicalBoomerang.mask()), (3, 1));
    assert_eq!((InventoryItem::FlameLantern.slot(), InventoryItem::FlameLantern.mask()), (3, 64));
    assert_eq!((InventoryItem::MoleMitts.slot(), InventoryItem::MoleMitts.mask()), (4, 64));
    assert_eq!((InventoryItem::Ocarina.slot(), InventoryItem::Ocarina.mask()), (5, 64));
}

#[test]
fn scalar_decoders_are_little_endian() {
    assert_eq!(decode_u8(&[0x48]), Ok(0x48));
    assert_eq!(decode_u16(&[0x1C, 0x03]), Ok(0x31C));
    assert_eq!(decode_i32(&[0x04, 0, 0, 0]), Ok(4));
    assert_eq!(decode_i32(&[0xFF, 0xFF, 0xFF, 0xFF]), Ok(-1));
    assert_eq!(decode_i32(&[0x00, 0x00, 0x00, 0x80]), Ok(i32::MIN));
    assert_eq!(decode_u16(&[1, 2, 3]), Err(DecodeError { expected: 2, actual: 3 }));
    assert_eq!(decode_u8(&[]), Err(DecodeError { expected: 1, actual: 0 }));
    assert_eq!(decode_i32(&[1, 2]), Err(DecodeError { expected: 4, actual: 2 }));
}

#[test]
fn hearts_text_formats_quarters() {
    assert_eq!(hearts_text(0).as_str(), "0");
    assert_eq!(hearts_text(1).as_str(), "\u{bc}");
    assert_eq!(hearts_text(2).as_str(), "\u{bd}");
    assert_eq!(hearts_text(3).as_str(), "\u{be}");
    assert_eq!(hearts_text(4).as_str(), "1");
    assert_eq!(hearts_text(13).as_str(), "3\u{bc}");
    assert_eq!(hearts_text(40).as_str(), "10");
    assert_eq!(hearts_text(255).as_str(), "63\u{be}");
}

#[test]
fn milestone_order_and_labels() {
    assert_eq!(Milestone::at(0), Milestone::GetSmithsSword);
    assert_eq!(Milestone::at(MILESTONE_COUNT - 1), Milestone::DefeatVaati);
    for i in 0..MILESTONE_COUNT {
        assert_eq!(Milestone::at(i).position(), i);
    }
    assert_eq!(Milestone::EnterMtCrenel.label(), "Enter Mt. Crenel");
    assert_eq!(Milestone::GetRocsCape.label(), "Get Roc's Cape");
}

#[test]
fn settings_toggles() {
    let s = Settings { defeat_vaati: false, ..Settings::all_enabled() };
    assert!(!s.is_enabled(Milestone::DefeatVaati));
    assert!(s.is_enabled(Milestone::GetBow));
}

#[test]
fn guard_marks_one_flag() {
    let mut g = ProgressGuard::new();
    g.mark(Guard::CaveOfFlames);
    assert!(g.is_set(Guard::CaveOfFlames));
    assert!(!g.is_set(Guard::CaveOfFlamesBoss));
}
