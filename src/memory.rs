//! Fixed-layout decoding of the game's memory.
use vstd::prelude::*;

verus! {

/// The byte slice handed to a decoder does not have the layout's length.
#[derive(Clone, Copy, Debug, PartialEq, Eq, Structural)]
pub struct DecodeError {
    pub expected: usize,
    pub actual: usize,
}

/// Bytes in the pause-menu block: six inventory slots, ten unused bytes,
/// the elements byte and the permanent-equipment byte.
pub const PAUSE_MENU_LEN: usize = 18;

/// `byte` has every bit of `mask` set.
pub open spec fn has_bits(byte: u8, mask: u8) -> bool {
    byte & mask == mask
}

/// The logical items packed in the six inventory bytes. Each byte carries four
/// unrelated items, at bits 0, 2, 4 and 6; the variants are listed slot by
/// slot, four to a slot, in bit order.
#[derive(Clone, Copy, Debug, PartialEq, Eq, Structural)]
pub enum InventoryItem {
    PauseMenu,
    SmithsSword,
    WhiteSword,
    WhiteSword2,
    WhiteSword3,
    SwordLamp,
    FourSword,
    Bombs,
    RemoteBombs,
    Bow,
    Bow2,
    Boomerang,
    MagicalBoomerang,
    Shield,
    MirrorShield,
    FlameLantern,
    Lamp2,
    GustJar,
    CaneOfPacci,
    MoleMitts,
    RocsCape,
    PegasusBoots,
    UnknownItem,
    Ocarina,
}

/// The flag for the `i`-th of the four items sharing a byte.
pub open spec fn quad_mask(i: int) -> u8 {
    if i == 0 {
        1
    } else if i == 1 {
        4
    } else if i == 2 {
        16
    } else {
        64
    }
}

fn quad_mask_exec(i: usize) -> (r: u8)
    requires
        i < 4,
    ensures
        r == quad_mask(i as int),
{
    if i == 0 {
        1
    } else if i == 1 {
        4
    } else if i == 2 {
        16
    } else {
        64
    }
}

impl InventoryItem {
    /// Position of the item in the table: slot `position / 4`, flag `position % 4`.
    pub open spec fn position(self) -> int {
        match self {
            InventoryItem::PauseMenu => 0,
            InventoryItem::SmithsSword => 1,
            InventoryItem::WhiteSword => 2,
            InventoryItem::WhiteSword2 => 3,
            InventoryItem::WhiteSword3 => 4,
            InventoryItem::SwordLamp => 5,
            InventoryItem::FourSword => 6,
            InventoryItem::Bombs => 7,
            InventoryItem::RemoteBombs => 8,
            InventoryItem::Bow => 9,
            InventoryItem::Bow2 => 10,
            InventoryItem::Boomerang => 11,
            InventoryItem::MagicalBoomerang => 12,
            InventoryItem::Shield => 13,
            InventoryItem::MirrorShield => 14,
            InventoryItem::FlameLantern => 15,
            InventoryItem::Lamp2 => 16,
            InventoryItem::GustJar => 17,
            InventoryItem::CaneOfPacci => 18,
            InventoryItem::MoleMitts => 19,
            InventoryItem::RocsCape => 20,
            InventoryItem::PegasusBoots => 21,
            InventoryItem::UnknownItem => 22,
            InventoryItem::Ocarina => 23,
        }
    }

    fn position_exec(self) -> (r: usize)
        ensures
            r == self.position(),
    {
        match self {
            InventoryItem::PauseMenu => 0,
            InventoryItem::SmithsSword => 1,
            InventoryItem::WhiteSword => 2,
            InventoryItem::WhiteSword2 => 3,
            InventoryItem::WhiteSword3 => 4,
            InventoryItem::SwordLamp => 5,
            InventoryItem::FourSword => 6,
            InventoryItem::Bombs => 7,
            InventoryItem::RemoteBombs => 8,
            InventoryItem::Bow => 9,
            InventoryItem::Bow2 => 10,
            InventoryItem::Boomerang => 11,
            InventoryItem::MagicalBoomerang => 12,
            InventoryItem::Shield => 13,
            InventoryItem::MirrorShield => 14,
            InventoryItem::FlameLantern => 15,
            InventoryItem::Lamp2 => 16,
            InventoryItem::GustJar => 17,
            InventoryItem::CaneOfPacci => 18,
            InventoryItem::MoleMitts => 19,
            InventoryItem::RocsCape => 20,
            InventoryItem::PegasusBoots => 21,
            InventoryItem::UnknownItem => 22,
            InventoryItem::Ocarina => 23,
        }
    }

    pub open spec fn spec_slot(self) -> usize {
        (self.position() / 4) as usize
    }

    pub open spec fn spec_mask(self) -> u8 {
        quad_mask(self.position() % 4)
    }

    /// The inventory byte that carries the item.
    #[verifier::when_used_as_spec(spec_slot)]
    pub fn slot(self) -> (r: usize)
        ensures
            r == self.spec_slot(),
            r < 6,
    {
        self.position_exec() / 4
    }

    /// The item's flag within its inventory byte.
    #[verifier::when_used_as_spec(spec_mask)]
    pub fn mask(self) -> (r: u8)
        ensures
            r == self.spec_mask(),
    {
        quad_mask_exec(self.position_exec() % 4)
    }
}

/// The four elements, at bits 0, 2, 4 and 6 of the elements byte.
#[derive(Clone, Copy, Debug, PartialEq, Eq, Structural)]
pub enum Element {
    Earth,
    Fire,
    Water,
    Wind,
}

impl Element {
    pub open spec fn spec_mask(self) -> u8 {
        match self {
            Element::Earth => 1,
            Element::Fire => 4,
            Element::Water => 16,
            Element::Wind => 64,
        }
    }

    #[verifier::when_used_as_spec(spec_mask)]
    pub fn mask(self) -> (r: u8)
        ensures
            r == self.spec_mask(),
    {
        match self {
            Element::Earth => 1,
            Element::Fire => 4,
            Element::Water => 16,
            Element::Wind => 64,
        }
    }
}

/// The permanent equipment, at bits 0, 2, 4 and 6 of its byte.
#[derive(Clone, Copy, Debug, PartialEq, Eq, Structural)]
pub enum Equipment {
    GripRing,
    PowerBracelets,
    Flippers,
    UnknownEquipment,
}

impl Equipment {
    pub open spec fn spec_mask(self) -> u8 {
        match self {
            Equipment::GripRing => 1,
            Equipment::PowerBracelets => 4,
            Equipment::Flippers => 16,
            Equipment::UnknownEquipment => 64,
        }
    }

    #[verifier::when_used_as_spec(spec_mask)]
    pub fn mask(self) -> (r: u8)
        ensures
            r == self.spec_mask(),
    {
        match self {
            Equipment::GripRing => 1,
            Equipment::PowerBracelets => 4,
            Equipment::Flippers => 16,
            Equipment::UnknownEquipment => 64,
        }
    }
}

/// The pause-menu block.
#[derive(Clone, Copy, Debug)]
pub struct PauseMenu {
    pub inventory: [u8; 6],
    pub elements: u8,
    pub permanent_equipment: u8,
}

impl PauseMenu {
    /// Decodes the pause-menu block from exactly `PAUSE_MENU_LEN` bytes.
    pub fn decode(bytes: &[u8]) -> (r: Result<PauseMenu, DecodeError>)
        ensures
            bytes@.len() == PAUSE_MENU_LEN ==> (r matches Ok(m) && m.inventory@ == bytes@.subrange(0, 6)
                && m.elements == bytes@[16] && m.permanent_equipment == bytes@[17]),
            bytes@.len() != PAUSE_MENU_LEN ==> r == Err::<PauseMenu, DecodeError>(
                DecodeError { expected: PAUSE_MENU_LEN, actual: bytes@.len() as usize },
            ),
    {
        if bytes.len() != PAUSE_MENU_LEN {
            return Err(DecodeError { expected: PAUSE_MENU_LEN, actual: bytes.len() });
        }
        let inventory = [bytes[0], bytes[1], bytes[2], bytes[3], bytes[4], bytes[5]];
        assert(inventory@ =~= bytes@.subrange(0, 6));
        Ok(PauseMenu { inventory, elements: bytes[16], permanent_equipment: bytes[17] })
    }

    pub open spec fn spec_has_item(&self, inventory_slot: int, inventory_item: InventoryItem) -> bool {
        has_bits(self.inventory@[inventory_slot], inventory_item.mask())
    }

    /// The byte of `inventory_slot` has the flag of `inventory_item` set.
    pub fn has_item(&self, inventory_slot: usize, inventory_item: InventoryItem) -> (r: bool)
        requires
            inventory_slot < 6,
        ensures
            r == self.spec_has_item(inventory_slot as int, inventory_item),
    {
        let mask = inventory_item.mask();
        self.inventory[inventory_slot] & mask == mask
    }

    pub open spec fn spec_holds(&self, item: InventoryItem) -> bool {
        self.spec_has_item(item.spec_slot() as int, item)
    }

    /// The item is held, read from the slot that carries it.
    #[verifier::when_used_as_spec(spec_holds)]
    pub fn holds(&self, item: InventoryItem) -> (r: bool)
        ensures
            r == self.spec_holds(item),
    {
        self.has_item(item.slot(), item)
    }

    pub open spec fn spec_has_element(&self, element: Element) -> bool {
        has_bits(self.elements, element.mask())
    }

    #[verifier::when_used_as_spec(spec_has_element)]
    pub fn has_element(&self, element: Element) -> (r: bool)
        ensures
            r == self.spec_has_element(element),
    {
        let mask = element.mask();
        self.elements & mask == mask
    }

    pub open spec fn spec_has_equipment(&self, equipment: Equipment) -> bool {
        has_bits(self.permanent_equipment, equipment.mask())
    }

    #[verifier::when_used_as_spec(spec_has_equipment)]
    pub fn has_equipment(&self, equipment: Equipment) -> (r: bool)
        ensures
            r == self.spec_has_equipment(equipment),
    {
        let mask = equipment.mask();
        self.permanent_equipment & mask == mask
    }
}

/// Little-endian unsigned value of two bytes.
pub open spec fn le_u16(b: Seq<u8>) -> int {
    b[0] + 256 * b[1]
}

/// Little-endian unsigned value of four bytes.
pub open spec fn le_u32(b: Seq<u8>) -> int {
    b[0] + 256 * b[1] + 65536 * b[2] + 16777216 * b[3]
}

/// Decodes one byte.
pub fn decode_u8(bytes: &[u8]) -> (r: Result<u8, DecodeError>)
    ensures
        bytes@.len() == 1 ==> r == Ok::<u8, DecodeError>(bytes@[0]),
        bytes@.len() != 1 ==> r == Err::<u8, DecodeError>(
            DecodeError { expected: 1, actual: bytes@.len() as usize },
        ),
{
    if bytes.len() != 1 {
        return Err(DecodeError { expected: 1, actual: bytes.len() });
    }
    Ok(bytes[0])
}

/// Decodes a little-endian `u16` from two bytes.
pub fn decode_u16(bytes: &[u8]) -> (r: Result<u16, DecodeError>)
    ensures
        bytes@.len() == 2 ==> r == Ok::<u16, DecodeError>(le_u16(bytes@) as u16),
        bytes@.len() != 2 ==> r == Err::<u16, DecodeError>(
            DecodeError { expected: 2, actual: bytes@.len() as usize },
        ),
{
    if bytes.len() != 2 {
        return Err(DecodeError { expected: 2, actual: bytes.len() });
    }
    Ok(bytes[0] as u16 + 256 * (bytes[1] as u16))
}

/// Decodes a little-endian two's-complement `i32` from four bytes.
pub fn decode_i32(bytes: &[u8]) -> (r: Result<i32, DecodeError>)
    ensures
        bytes@.len() == 4 ==> r == Ok::<i32, DecodeError>(le_u32(bytes@) as i32),
        bytes@.len() != 4 ==> r == Err::<i32, DecodeError>(
            DecodeError { expected: 4, actual: bytes@.len() as usize },
        ),
{
    if bytes.len() != 4 {
        return Err(DecodeError { expected: 4, actual: bytes.len() });
    }
    let v: u32 = bytes[0] as u32 + 256 * (bytes[1] as u32) + 65536 * (bytes[2] as u32)
        + 16777216 * (bytes[3] as u32);
    Ok(v as i32)
}

} // verus!
