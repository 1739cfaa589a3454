//! The milestones, the order their rules are tried in, which of them are
//! enabled, and the one-shot guards of a run.
use vstd::prelude::*;

verus! {

/// Number of milestone rules.
pub const MILESTONE_COUNT: usize = 30;

/// A milestone that can produce a split. The variants are listed in the order
/// their rules are tried, which follows the game's progression.
#[derive(Clone, Copy, Debug, PartialEq, Eq, Structural)]
pub enum Milestone {
    GetSmithsSword,
    ReceiveMinishCap,
    EnterDeepwoodShrine,
    GetGustJar,
    EnterDeepwoodShrineBossRoom,
    GetEarthElement,
    EnterMtCrenel,
    GetGripRing,
    EnterCaveOfFlames,
    GetCaneOfPacci,
    EnterCaveOfFlamesBossRoom,
    GetFireElement,
    GetPegasusBoots,
    GetBow,
    EnterFortressOfWinds,
    GetMoleMitts,
    EnterFortressOfWindsBossRoom,
    GetOcarina,
    GetMagicalBoomerang,
    GetPowerBracelets,
    GetFlippers,
    EnterTempleOfDroplets,
    GetFlameLantern,
    GetWaterElement,
    EnterPalaceOfWinds,
    GetRocsCape,
    GetWindElement,
    GetFourSword,
    GetDhcBigKey,
    DefeatVaati,
}

impl Milestone {
    /// Position of the milestone's rule in the evaluation order.
    pub open spec fn spec_position(self) -> usize {
        match self {
            Milestone::GetSmithsSword => 0,
            Milestone::ReceiveMinishCap => 1,
            Milestone::EnterDeepwoodShrine => 2,
            Milestone::GetGustJar => 3,
            Milestone::EnterDeepwoodShrineBossRoom => 4,
            Milestone::GetEarthElement => 5,
            Milestone::EnterMtCrenel => 6,
            Milestone::GetGripRing => 7,
            Milestone::EnterCaveOfFlames => 8,
            Milestone::GetCaneOfPacci => 9,
            Milestone::EnterCaveOfFlamesBossRoom => 10,
            Milestone::GetFireElement => 11,
            Milestone::GetPegasusBoots => 12,
            Milestone::GetBow => 13,
            Milestone::EnterFortressOfWinds => 14,
            Milestone::GetMoleMitts => 15,
            Milestone::EnterFortressOfWindsBossRoom => 16,
            Milestone::GetOcarina => 17,
            Milestone::GetMagicalBoomerang => 18,
            Milestone::GetPowerBracelets => 19,
            Milestone::GetFlippers => 20,
            Milestone::EnterTempleOfDroplets => 21,
            Milestone::GetFlameLantern => 22,
            Milestone::GetWaterElement => 23,
            Milestone::EnterPalaceOfWinds => 24,
            Milestone::GetRocsCape => 25,
            Milestone::GetWindElement => 26,
            Milestone::GetFourSword => 27,
            Milestone::GetDhcBigKey => 28,
            Milestone::DefeatVaati => 29,
        }
    }

    #[verifier::when_used_as_spec(spec_position)]
    pub fn position(self) -> (r: usize)
        ensures
            r == self.spec_position(),
            r < MILESTONE_COUNT,
    {
        match self {
            Milestone::GetSmithsSword => 0,
            Milestone::ReceiveMinishCap => 1,
            Milestone::EnterDeepwoodShrine => 2,
            Milestone::GetGustJar => 3,
            Milestone::EnterDeepwoodShrineBossRoom => 4,
            Milestone::GetEarthElement => 5,
            Milestone::EnterMtCrenel => 6,
            Milestone::GetGripRing => 7,
            Milestone::EnterCaveOfFlames => 8,
            Milestone::GetCaneOfPacci => 9,
            Milestone::EnterCaveOfFlamesBossRoom => 10,
            Milestone::GetFireElement => 11,
            Milestone::GetPegasusBoots => 12,
            Milestone::GetBow => 13,
            Milestone::EnterFortressOfWinds => 14,
            Milestone::GetMoleMitts => 15,
            Milestone::EnterFortressOfWindsBossRoom => 16,
            Milestone::GetOcarina => 17,
            Milestone::GetMagicalBoomerang => 18,
            Milestone::GetPowerBracelets => 19,
            Milestone::GetFlippers => 20,
            Milestone::EnterTempleOfDroplets => 21,
            Milestone::GetFlameLantern => 22,
            Milestone::GetWaterElement => 23,
            Milestone::EnterPalaceOfWinds => 24,
            Milestone::GetRocsCape => 25,
            Milestone::GetWindElement => 26,
            Milestone::GetFourSword => 27,
            Milestone::GetDhcBigKey => 28,
            Milestone::DefeatVaati => 29,
        }
    }

    /// The milestone whose rule stands at `position`.
    pub open spec fn spec_at(position: usize) -> Milestone {
        if position == 0 {
            Milestone::GetSmithsSword
        } else if position == 1 {
            Milestone::ReceiveMinishCap
        } else if position == 2 {
            Milestone::EnterDeepwoodShrine
        } else if position == 3 {
            Milestone::GetGustJar
        } else if position == 4 {
            Milestone::EnterDeepwoodShrineBossRoom
        } else if position == 5 {
            Milestone::GetEarthElement
        } else if position == 6 {
            Milestone::EnterMtCrenel
        } else if position == 7 {
            Milestone::GetGripRing
        } else if position == 8 {
            Milestone::EnterCaveOfFlames
        } else if position == 9 {
            Milestone::GetCaneOfPacci
        } else if position == 10 {
            Milestone::EnterCaveOfFlamesBossRoom
        } else if position == 11 {
            Milestone::GetFireElement
        } else if position == 12 {
            Milestone::GetPegasusBoots
        } else if position == 13 {
            Milestone::GetBow
        } else if position == 14 {
            Milestone::EnterFortressOfWinds
        } else if position == 15 {
            Milestone::GetMoleMitts
        } else if position == 16 {
            Milestone::EnterFortressOfWindsBossRoom
        } else if position == 17 {
            Milestone::GetOcarina
        } else if position == 18 {
            Milestone::GetMagicalBoomerang
        } else if position == 19 {
            Milestone::GetPowerBracelets
        } else if position == 20 {
            Milestone::GetFlippers
        } else if position == 21 {
            Milestone::EnterTempleOfDroplets
        } else if position == 22 {
            Milestone::GetFlameLantern
        } else if position == 23 {
            Milestone::GetWaterElement
        } else if position == 24 {
            Milestone::EnterPalaceOfWinds
        } else if position == 25 {
            Milestone::GetRocsCape
        } else if position == 26 {
            Milestone::GetWindElement
        } else if position == 27 {
            Milestone::GetFourSword
        } else if position == 28 {
            Milestone::GetDhcBigKey
        } else {
            Milestone::DefeatVaati
        }
    }

    #[verifier::when_used_as_spec(spec_at)]
    pub fn at(position: usize) -> (r: Milestone)
        requires
            position < MILESTONE_COUNT,
        ensures
            r == Milestone::spec_at(position),
            r.spec_position() == position,
    {
        if position == 0 {
            Milestone::GetSmithsSword
        } else if position == 1 {
            Milestone::ReceiveMinishCap
        } else if position == 2 {
            Milestone::EnterDeepwoodShrine
        } else if position == 3 {
            Milestone::GetGustJar
        } else if position == 4 {
            Milestone::EnterDeepwoodShrineBossRoom
        } else if position == 5 {
            Milestone::GetEarthElement
        } else if position == 6 {
            Milestone::EnterMtCrenel
        } else if position == 7 {
            Milestone::GetGripRing
        } else if position == 8 {
            Milestone::EnterCaveOfFlames
        } else if position == 9 {
            Milestone::GetCaneOfPacci
        } else if position == 10 {
            Milestone::EnterCaveOfFlamesBossRoom
        } else if position == 11 {
            Milestone::GetFireElement
        } else if position == 12 {
            Milestone::GetPegasusBoots
        } else if position == 13 {
            Milestone::GetBow
        } else if position == 14 {
            Milestone::EnterFortressOfWinds
        } else if position == 15 {
            Milestone::GetMoleMitts
        } else if position == 16 {
            Milestone::EnterFortressOfWindsBossRoom
        } else if position == 17 {
            Milestone::GetOcarina
        } else if position == 18 {
            Milestone::GetMagicalBoomerang
        } else if position == 19 {
            Milestone::GetPowerBracelets
        } else if position == 20 {
            Milestone::GetFlippers
        } else if position == 21 {
            Milestone::EnterTempleOfDroplets
        } else if position == 22 {
            Milestone::GetFlameLantern
        } else if position == 23 {
            Milestone::GetWaterElement
        } else if position == 24 {
            Milestone::EnterPalaceOfWinds
        } else if position == 25 {
            Milestone::GetRocsCape
        } else if position == 26 {
            Milestone::GetWindElement
        } else if position == 27 {
            Milestone::GetFourSword
        } else if position == 28 {
            Milestone::GetDhcBigKey
        } else {
            Milestone::DefeatVaati
        }
    }

    /// `at` and `position` are inverse.
    pub proof fn position_of_at(position: usize)
        requires
            position < MILESTONE_COUNT,
        ensures
            Milestone::spec_at(position).spec_position() == position,
    {
    }

    pub proof fn at_of_position(m: Milestone)
        ensures
            Milestone::spec_at(m.spec_position()) == m,
    {
    }

    /// The split label.
    pub open spec fn spec_label(self) -> Seq<char> {
        match self {
            Milestone::GetSmithsSword => "Get Smith's Sword"@,
            Milestone::ReceiveMinishCap => "Receive Minish Cap"@,
            Milestone::EnterDeepwoodShrine => "Enter Deepwood Shrine"@,
            Milestone::GetGustJar => "Get Gust Jar"@,
            Milestone::EnterDeepwoodShrineBossRoom => "Enter Deepwood Shrine Boss Room"@,
            Milestone::GetEarthElement => "Get Earth Element"@,
            Milestone::EnterMtCrenel => "Enter Mt. Crenel"@,
            Milestone::GetGripRing => "Get Grip Ring"@,
            Milestone::EnterCaveOfFlames => "Enter Cave of Flames"@,
            Milestone::GetCaneOfPacci => "Get Cane of Pacci"@,
            Milestone::EnterCaveOfFlamesBossRoom => "Enter Cave of Flames Boss Room"@,
            Milestone::GetFireElement => "Get Fire Element"@,
            Milestone::GetPegasusBoots => "Get Pegasus Boots"@,
            Milestone::GetBow => "Get Bow"@,
            Milestone::EnterFortressOfWinds => "Enter Fortress of Winds"@,
            Milestone::GetMoleMitts => "Get Mole Mitts"@,
            Milestone::EnterFortressOfWindsBossRoom => "Enter Fortress of Winds Boss Room"@,
            Milestone::GetOcarina => "Get Ocarina"@,
            Milestone::GetMagicalBoomerang => "Get Magical Boomerang"@,
            Milestone::GetPowerBracelets => "Get Power Bracelets"@,
            Milestone::GetFlippers => "Get Flippers"@,
            Milestone::EnterTempleOfDroplets => "Enter Temple of Droplets"@,
            Milestone::GetFlameLantern => "Get Flame Lantern"@,
            Milestone::GetWaterElement => "Get Water Element"@,
            Milestone::EnterPalaceOfWinds => "Enter Palace of Winds"@,
            Milestone::GetRocsCape => "Get Roc's Cape"@,
            Milestone::GetWindElement => "Get Wind Element"@,
            Milestone::GetFourSword => "Get Four Sword"@,
            Milestone::GetDhcBigKey => "Get DHC Big Key"@,
            Milestone::DefeatVaati => "Defeat Vaati"@,
        }
    }

    pub fn label(self) -> (r: &'static str)
        ensures
            r@ == self.spec_label(),
    {
        match self {
            Milestone::GetSmithsSword => "Get Smith's Sword",
            Milestone::ReceiveMinishCap => "Receive Minish Cap",
            Milestone::EnterDeepwoodShrine => "Enter Deepwood Shrine",
            Milestone::GetGustJar => "Get Gust Jar",
            Milestone::EnterDeepwoodShrineBossRoom => "Enter Deepwood Shrine Boss Room",
            Milestone::GetEarthElement => "Get Earth Element",
            Milestone::EnterMtCrenel => "Enter Mt. Crenel",
            Milestone::GetGripRing => "Get Grip Ring",
            Milestone::EnterCaveOfFlames => "Enter Cave of Flames",
            Milestone::GetCaneOfPacci => "Get Cane of Pacci",
            Milestone::EnterCaveOfFlamesBossRoom => "Enter Cave of Flames Boss Room",
            Milestone::GetFireElement => "Get Fire Element",
            Milestone::GetPegasusBoots => "Get Pegasus Boots",
            Milestone::GetBow => "Get Bow",
            Milestone::EnterFortressOfWinds => "Enter Fortress of Winds",
            Milestone::GetMoleMitts => "Get Mole Mitts",
            Milestone::EnterFortressOfWindsBossRoom => "Enter Fortress of Winds Boss Room",
            Milestone::GetOcarina => "Get Ocarina",
            Milestone::GetMagicalBoomerang => "Get Magical Boomerang",
            Milestone::GetPowerBracelets => "Get Power Bracelets",
            Milestone::GetFlippers => "Get Flippers",
            Milestone::EnterTempleOfDroplets => "Enter Temple of Droplets",
            Milestone::GetFlameLantern => "Get Flame Lantern",
            Milestone::GetWaterElement => "Get Water Element",
            Milestone::EnterPalaceOfWinds => "Enter Palace of Winds",
            Milestone::GetRocsCape => "Get Roc's Cape",
            Milestone::GetWindElement => "Get Wind Element",
            Milestone::GetFourSword => "Get Four Sword",
            Milestone::GetDhcBigKey => "Get DHC Big Key",
            Milestone::DefeatVaati => "Defeat Vaati",
        }
    }
}

/// Which milestones split: one toggle each.
#[derive(Clone, Copy, Debug)]
pub struct Settings {
    /// Get Smith's Sword
    pub get_smiths_sword: bool,
    /// Receive Minish Cap
    pub receive_minish_cap: bool,
    /// Enter Deepwood Shrine
    pub enter_deepwood_shrine: bool,
    /// Get Gust Jar
    pub get_gust_jar: bool,
    /// Enter Deepwood Shrine Boss Room
    pub enter_deepwood_shrine_boss_room: bool,
    /// Get Earth Element
    pub get_earth_element: bool,
    /// Enter Mt. Crenel
    pub enter_mt_crenel: bool,
    /// Get Grip Ring
    pub get_grip_ring: bool,
    /// Enter Cave of Flames
    pub enter_cave_of_flames: bool,
    /// Get Cane of Pacci
    pub get_cane_of_pacci: bool,
    /// Enter Cave of Flames Boss Room
    pub enter_cave_of_flames_boss_room: bool,
    /// Get Fire Element
    pub get_fire_element: bool,
    /// Get Pegasus Boots
    pub get_pegasus_boots: bool,
    /// Get Bow
    pub get_bow: bool,
    /// Enter Fortress of Winds
    pub enter_fortress_of_winds: bool,
    /// Get Mole Mitts
    pub get_mole_mitts: bool,
    /// Enter Fortress of Winds Boss Room
    pub enter_fortress_of_winds_boss_room: bool,
    /// Get Ocarina
    pub get_ocarina: bool,
    /// Get Magical Boomerang
    pub get_magical_boomerang: bool,
    /// Get Power Bracelets
    pub get_power_bracelets: bool,
    /// Get Flippers
    pub get_flippers: bool,
    /// Enter Temple of Droplets
    pub enter_temple_of_droplets: bool,
    /// Get Flame Lantern
    pub get_flame_lantern: bool,
    /// Get Water Element
    pub get_water_element: bool,
    /// Enter Palace of Winds
    pub enter_palace_of_winds: bool,
    /// Get Roc's Cape
    pub get_rocs_cape: bool,
    /// Get Wind Element
    pub get_wind_element: bool,
    /// Get Four Sword
    pub get_four_sword: bool,
    /// Get DHC Big Key
    pub get_dhc_big_key: bool,
    /// Defeat Vaati
    pub defeat_vaati: bool,
}

impl Settings {
    /// Every milestone enabled.
    pub fn all_enabled() -> (s: Settings)
        ensures
            forall|m: Milestone| s.spec_is_enabled(m),
    {
        Settings {
            get_smiths_sword: true,
            receive_minish_cap: true,
            enter_deepwood_shrine: true,
            get_gust_jar: true,
            enter_deepwood_shrine_boss_room: true,
            get_earth_element: true,
            enter_mt_crenel: true,
            get_grip_ring: true,
            enter_cave_of_flames: true,
            get_cane_of_pacci: true,
            enter_cave_of_flames_boss_room: true,
            get_fire_element: true,
            get_pegasus_boots: true,
            get_bow: true,
            enter_fortress_of_winds: true,
            get_mole_mitts: true,
            enter_fortress_of_winds_boss_room: true,
            get_ocarina: true,
            get_magical_boomerang: true,
            get_power_bracelets: true,
            get_flippers: true,
            enter_temple_of_droplets: true,
            get_flame_lantern: true,
            get_water_element: true,
            enter_palace_of_winds: true,
            get_rocs_cape: true,
            get_wind_element: true,
            get_four_sword: true,
            get_dhc_big_key: true,
            defeat_vaati: true,
        }
    }

    pub open spec fn spec_is_enabled(&self, m: Milestone) -> bool {
        match m {
            Milestone::GetSmithsSword => self.get_smiths_sword,
            Milestone::ReceiveMinishCap => self.receive_minish_cap,
            Milestone::EnterDeepwoodShrine => self.enter_deepwood_shrine,
            Milestone::GetGustJar => self.get_gust_jar,
            Milestone::EnterDeepwoodShrineBossRoom => self.enter_deepwood_shrine_boss_room,
            Milestone::GetEarthElement => self.get_earth_element,
            Milestone::EnterMtCrenel => self.enter_mt_crenel,
            Milestone::GetGripRing => self.get_grip_ring,
            Milestone::EnterCaveOfFlames => self.enter_cave_of_flames,
            Milestone::GetCaneOfPacci => self.get_cane_of_pacci,
            Milestone::EnterCaveOfFlamesBossRoom => self.enter_cave_of_flames_boss_room,
            Milestone::GetFireElement => self.get_fire_element,
            Milestone::GetPegasusBoots => self.get_pegasus_boots,
            Milestone::GetBow => self.get_bow,
            Milestone::EnterFortressOfWinds => self.enter_fortress_of_winds,
            Milestone::GetMoleMitts => self.get_mole_mitts,
            Milestone::EnterFortressOfWindsBossRoom => self.enter_fortress_of_winds_boss_room,
            Milestone::GetOcarina => self.get_ocarina,
            Milestone::GetMagicalBoomerang => self.get_magical_boomerang,
            Milestone::GetPowerBracelets => self.get_power_bracelets,
            Milestone::GetFlippers => self.get_flippers,
            Milestone::EnterTempleOfDroplets => self.enter_temple_of_droplets,
            Milestone::GetFlameLantern => self.get_flame_lantern,
            Milestone::GetWaterElement => self.get_water_element,
            Milestone::EnterPalaceOfWinds => self.enter_palace_of_winds,
            Milestone::GetRocsCape => self.get_rocs_cape,
            Milestone::GetWindElement => self.get_wind_element,
            Milestone::GetFourSword => self.get_four_sword,
            Milestone::GetDhcBigKey => self.get_dhc_big_key,
            Milestone::DefeatVaati => self.defeat_vaati,
        }
    }

    #[verifier::when_used_as_spec(spec_is_enabled)]
    pub fn is_enabled(&self, m: Milestone) -> (r: bool)
        ensures
            r == self.spec_is_enabled(m),
    {
        match m {
            Milestone::GetSmithsSword => self.get_smiths_sword,
            Milestone::ReceiveMinishCap => self.receive_minish_cap,
            Milestone::EnterDeepwoodShrine => self.enter_deepwood_shrine,
            Milestone::GetGustJar => self.get_gust_jar,
            Milestone::EnterDeepwoodShrineBossRoom => self.enter_deepwood_shrine_boss_room,
            Milestone::GetEarthElement => self.get_earth_element,
            Milestone::EnterMtCrenel => self.enter_mt_crenel,
            Milestone::GetGripRing => self.get_grip_ring,
            Milestone::EnterCaveOfFlames => self.enter_cave_of_flames,
            Milestone::GetCaneOfPacci => self.get_cane_of_pacci,
            Milestone::EnterCaveOfFlamesBossRoom => self.enter_cave_of_flames_boss_room,
            Milestone::GetFireElement => self.get_fire_element,
            Milestone::GetPegasusBoots => self.get_pegasus_boots,
            Milestone::GetBow => self.get_bow,
            Milestone::EnterFortressOfWinds => self.enter_fortress_of_winds,
            Milestone::GetMoleMitts => self.get_mole_mitts,
            Milestone::EnterFortressOfWindsBossRoom => self.enter_fortress_of_winds_boss_room,
            Milestone::GetOcarina => self.get_ocarina,
            Milestone::GetMagicalBoomerang => self.get_magical_boomerang,
            Milestone::GetPowerBracelets => self.get_power_bracelets,
            Milestone::GetFlippers => self.get_flippers,
            Milestone::EnterTempleOfDroplets => self.enter_temple_of_droplets,
            Milestone::GetFlameLantern => self.get_flame_lantern,
            Milestone::GetWaterElement => self.get_water_element,
            Milestone::EnterPalaceOfWinds => self.enter_palace_of_winds,
            Milestone::GetRocsCape => self.get_rocs_cape,
            Milestone::GetWindElement => self.get_wind_element,
            Milestone::GetFourSword => self.get_four_sword,
            Milestone::GetDhcBigKey => self.get_dhc_big_key,
            Milestone::DefeatVaati => self.defeat_vaati,
        }
    }
}

/// A one-shot flag of a run: the save-load check of the sword and the
/// entries into areas and boss rooms.
#[derive(Clone, Copy, Debug, PartialEq, Eq, Structural)]
pub enum Guard {
    SmithsSword,
    DeepwoodShrine,
    DeepwoodShrineBoss,
    MtCrenel,
    CaveOfFlames,
    CaveOfFlamesBoss,
    FortressOfWinds,
    FortressOfWindsBoss,
    TempleOfDroplets,
    PalaceOfWinds,
}

/// The one-shot flags of a run; all clear when the run starts.
#[derive(Clone, Copy, Debug)]
pub struct ProgressGuard {
    pub smiths_sword: bool,
    pub deepwood_shrine: bool,
    pub deepwood_shrine_boss: bool,
    pub mt_crenel: bool,
    pub cave_of_flames: bool,
    pub cave_of_flames_boss: bool,
    pub fortress_of_winds: bool,
    pub fortress_of_winds_boss: bool,
    pub temple_of_droplets: bool,
    pub palace_of_winds: bool,
}

impl ProgressGuard {
    /// Every flag clear.
    pub fn new() -> (p: ProgressGuard)
        ensures
            p == ProgressGuard::spec_cleared(),
            p.is_clear(),
    {
        ProgressGuard {
            smiths_sword: false,
            deepwood_shrine: false,
            deepwood_shrine_boss: false,
            mt_crenel: false,
            cave_of_flames: false,
            cave_of_flames_boss: false,
            fortress_of_winds: false,
            fortress_of_winds_boss: false,
            temple_of_droplets: false,
            palace_of_winds: false,
        }
    }

    pub open spec fn spec_cleared() -> ProgressGuard {
        ProgressGuard {
            smiths_sword: false,
            deepwood_shrine: false,
            deepwood_shrine_boss: false,
            mt_crenel: false,
            cave_of_flames: false,
            cave_of_flames_boss: false,
            fortress_of_winds: false,
            fortress_of_winds_boss: false,
            temple_of_droplets: false,
            palace_of_winds: false,
        }
    }

    pub open spec fn is_clear(&self) -> bool {
        forall|g: Guard| !self.spec_is_set(g)
    }

    pub open spec fn spec_is_set(&self, g: Guard) -> bool {
        match g {
            Guard::SmithsSword => self.smiths_sword,
            Guard::DeepwoodShrine => self.deepwood_shrine,
            Guard::DeepwoodShrineBoss => self.deepwood_shrine_boss,
            Guard::MtCrenel => self.mt_crenel,
            Guard::CaveOfFlames => self.cave_of_flames,
            Guard::CaveOfFlamesBoss => self.cave_of_flames_boss,
            Guard::FortressOfWinds => self.fortress_of_winds,
            Guard::FortressOfWindsBoss => self.fortress_of_winds_boss,
            Guard::TempleOfDroplets => self.temple_of_droplets,
            Guard::PalaceOfWinds => self.palace_of_winds,
        }
    }

    #[verifier::when_used_as_spec(spec_is_set)]
    pub fn is_set(&self, g: Guard) -> (r: bool)
        ensures
            r == self.spec_is_set(g),
    {
        match g {
            Guard::SmithsSword => self.smiths_sword,
            Guard::DeepwoodShrine => self.deepwood_shrine,
            Guard::DeepwoodShrineBoss => self.deepwood_shrine_boss,
            Guard::MtCrenel => self.mt_crenel,
            Guard::CaveOfFlames => self.cave_of_flames,
            Guard::CaveOfFlamesBoss => self.cave_of_flames_boss,
            Guard::FortressOfWinds => self.fortress_of_winds,
            Guard::FortressOfWindsBoss => self.fortress_of_winds_boss,
            Guard::TempleOfDroplets => self.temple_of_droplets,
            Guard::PalaceOfWinds => self.palace_of_winds,
        }
    }

    /// The flags after `g` is set.
    pub open spec fn marked(self, g: Guard) -> ProgressGuard {
        match g {
            Guard::SmithsSword => ProgressGuard { smiths_sword: true, ..self },
            Guard::DeepwoodShrine => ProgressGuard { deepwood_shrine: true, ..self },
            Guard::DeepwoodShrineBoss => ProgressGuard { deepwood_shrine_boss: true, ..self },
            Guard::MtCrenel => ProgressGuard { mt_crenel: true, ..self },
            Guard::CaveOfFlames => ProgressGuard { cave_of_flames: true, ..self },
            Guard::CaveOfFlamesBoss => ProgressGuard { cave_of_flames_boss: true, ..self },
            Guard::FortressOfWinds => ProgressGuard { fortress_of_winds: true, ..self },
            Guard::FortressOfWindsBoss => ProgressGuard { fortress_of_winds_boss: true, ..self },
            Guard::TempleOfDroplets => ProgressGuard { temple_of_droplets: true, ..self },
            Guard::PalaceOfWinds => ProgressGuard { palace_of_winds: true, ..self },
        }
    }

    /// Sets the flag `g`, leaving the others.
    pub fn mark(&mut self, g: Guard)
        ensures
            *final(self) == old(self).marked(g),
            final(self).spec_is_set(g),
            forall|h: Guard| h != g ==> final(self).spec_is_set(h) == old(self).spec_is_set(h),
    {
        match g {
            Guard::SmithsSword => self.smiths_sword = true,
            Guard::DeepwoodShrine => self.deepwood_shrine = true,
            Guard::DeepwoodShrineBoss => self.deepwood_shrine_boss = true,
            Guard::MtCrenel => self.mt_crenel = true,
            Guard::CaveOfFlames => self.cave_of_flames = true,
            Guard::CaveOfFlamesBoss => self.cave_of_flames_boss = true,
            Guard::FortressOfWinds => self.fortress_of_winds = true,
            Guard::FortressOfWindsBoss => self.fortress_of_winds_boss = true,
            Guard::TempleOfDroplets => self.temple_of_droplets = true,
            Guard::PalaceOfWinds => self.palace_of_winds = true,
        }
    }
}

} // verus!
