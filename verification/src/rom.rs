//! The ROMs that come with the library, and the table that holds their
//! images.
//!
//! The engine picks a game's settings by the name of the file it is loaded
//! from, so each title has one fixed file name. The images themselves are
//! brought by whoever bundles them, as a table with one image per title.

use vstd::prelude::*;

verus! {

/// A title whose ROM comes with the library.
#[derive(Clone, Copy, Debug, PartialEq, Eq, Structural)]
pub enum BundledRom {
    Adventure,
    AirRaid,
    Alien,
    Amidar,
    Assault,
    Asterix,
    Asteroids,
    Atlantis,
    BankHeist,
    BattleZone,
    BeamRider,
    Berzerk,
    Bowling,
    Boxing,
    Breakout,
    Carnival,
    Centipede,
    ChopperCommand,
    CrazyClimber,
    Defender,
    DemonAttack,
    DoubleDunk,
    ElevatorAction,
    Enduro,
    FishingDerby,
    Freeway,
    Frostbite,
    Gopher,
    Gravitar,
    Hero,
    IceHockey,
    JamesBond,
    JourneyEscape,
    Kaboom,
    Kangaroo,
    Krull,
    KungFuMaster,
    MontezumaRevenge,
    MsPacman,
    NameThisGame,
    Phoenix,
    Pitfall,
    Pong,
    Pooyan,
    PrivateEye,
    QBert,
    RiverRaid,
    RoadRunner,
    RoboTank,
    Seaquest,
    Skiing,
    SpaceInvaders,
    StarGunner,
    Tennis,
    TimePilot,
    Tutankham,
    UpNDown,
    Venture,
    VideoPinball,
    WizardOfWor,
    YarsRevenge,
    Zaxxon,
}

/// How many titles there are.
pub const BUNDLED_ROMS: usize = 62;

impl BundledRom {
    /// The name of the file that the title's ROM must be loaded from.
    pub open spec fn spec_filename(self) -> Seq<char> {
        match self {
            BundledRom::Adventure => "adventure.bin"@,
            BundledRom::AirRaid => "air_raid.bin"@,
            BundledRom::Alien => "alien.bin"@,
            BundledRom::Amidar => "amidar.bin"@,
            BundledRom::Assault => "assault.bin"@,
            BundledRom::Asterix => "asterix.bin"@,
            BundledRom::Asteroids => "asteroids.bin"@,
            BundledRom::Atlantis => "atlantis.bin"@,
            BundledRom::BankHeist => "bank_heist.bin"@,
            BundledRom::BattleZone => "battle_zone.bin"@,
            BundledRom::BeamRider => "beam_rider.bin"@,
            BundledRom::Berzerk => "berzerk.bin"@,
            BundledRom::Bowling => "bowling.bin"@,
            BundledRom::Boxing => "boxing.bin"@,
            BundledRom::Breakout => "breakout.bin"@,
            BundledRom::Carnival => "carnival.bin"@,
            BundledRom::Centipede => "centipede.bin"@,
            BundledRom::ChopperCommand => "chopper_command.bin"@,
            BundledRom::CrazyClimber => "crazy_climber.bin"@,
            BundledRom::Defender => "defender.bin"@,
            BundledRom::DemonAttack => "demon_attack.bin"@,
            BundledRom::DoubleDunk => "double_dunk.bin"@,
            BundledRom::ElevatorAction => "elevator_action.bin"@,
            BundledRom::Enduro => "enduro.bin"@,
            BundledRom::FishingDerby => "fishing_derby.bin"@,
            BundledRom::Freeway => "freeway.bin"@,
            BundledRom::Frostbite => "frostbite.bin"@,
            BundledRom::Gopher => "gopher.bin"@,
            BundledRom::Gravitar => "gravitar.bin"@,
            BundledRom::Hero => "hero.bin"@,
            BundledRom::IceHockey => "ice_hockey.bin"@,
            BundledRom::JamesBond => "jamesbond.bin"@,
            BundledRom::JourneyEscape => "journey_escape.bin"@,
            BundledRom::Kaboom => "kaboom.bin"@,
            BundledRom::Kangaroo => "kangaroo.bin"@,
            BundledRom::Krull => "krull.bin"@,
            BundledRom::KungFuMaster => "kung_fu_master.bin"@,
            BundledRom::MontezumaRevenge => "montezuma_revenge.bin"@,
            BundledRom::MsPacman => "ms_pacman.bin"@,
            BundledRom::NameThisGame => "name_this_game.bin"@,
            BundledRom::Phoenix => "phoenix.bin"@,
            BundledRom::Pitfall => "pitfall.bin"@,
            BundledRom::Pong => "pong.bin"@,
            BundledRom::Pooyan => "pooyan.bin"@,
            BundledRom::PrivateEye => "private_eye.bin"@,
            BundledRom::QBert => "qbert.bin"@,
            BundledRom::RiverRaid => "riverraid.bin"@,
            BundledRom::RoadRunner => "road_runner.bin"@,
            BundledRom::RoboTank => "robotank.bin"@,
            BundledRom::Seaquest => "seaquest.bin"@,
            BundledRom::Skiing => "skiing.bin"@,
            BundledRom::SpaceInvaders => "space_invaders.bin"@,
            BundledRom::StarGunner => "star_gunner.bin"@,
            BundledRom::Tennis => "tennis.bin"@,
            BundledRom::TimePilot => "time_pilot.bin"@,
            BundledRom::Tutankham => "tutankham.bin"@,
            BundledRom::UpNDown => "up_n_down.bin"@,
            BundledRom::Venture => "venture.bin"@,
            BundledRom::VideoPinball => "video_pinball.bin"@,
            BundledRom::WizardOfWor => "wizard_of_wor.bin"@,
            BundledRom::YarsRevenge => "yars_revenge.bin"@,
            BundledRom::Zaxxon => "zaxxon.bin"@,
        }
    }

    /// The name that the ROM's file should have, for the engine to know the
    /// game and use the right settings.
    pub fn filename(&self) -> (name: &'static str)
        ensures
            name@ == self.spec_filename(),
    {
        match self {
            BundledRom::Adventure => "adventure.bin",
            BundledRom::AirRaid => "air_raid.bin",
            BundledRom::Alien => "alien.bin",
            BundledRom::Amidar => "amidar.bin",
            BundledRom::Assault => "assault.bin",
            BundledRom::Asterix => "asterix.bin",
            BundledRom::Asteroids => "asteroids.bin",
            BundledRom::Atlantis => "atlantis.bin",
            BundledRom::BankHeist => "bank_heist.bin",
            BundledRom::BattleZone => "battle_zone.bin",
            BundledRom::BeamRider => "beam_rider.bin",
            BundledRom::Berzerk => "berzerk.bin",
            BundledRom::Bowling => "bowling.bin",
            BundledRom::Boxing => "boxing.bin",
            BundledRom::Breakout => "breakout.bin",
            BundledRom::Carnival => "carnival.bin",
            BundledRom::Centipede => "centipede.bin",
            BundledRom::ChopperCommand => "chopper_command.bin",
            BundledRom::CrazyClimber => "crazy_climber.bin",
            BundledRom::Defender => "defender.bin",
            BundledRom::DemonAttack => "demon_attack.bin",
            BundledRom::DoubleDunk => "double_dunk.bin",
            BundledRom::ElevatorAction => "elevator_action.bin",
            BundledRom::Enduro => "enduro.bin",
            BundledRom::FishingDerby => "fishing_derby.bin",
            BundledRom::Freeway => "freeway.bin",
            BundledRom::Frostbite => "frostbite.bin",
            BundledRom::Gopher => "gopher.bin",
            BundledRom::Gravitar => "gravitar.bin",
            BundledRom::Hero => "hero.bin",
            BundledRom::IceHockey => "ice_hockey.bin",
            BundledRom::JamesBond => "jamesbond.bin",
            BundledRom::JourneyEscape => "journey_escape.bin",
            BundledRom::Kaboom => "kaboom.bin",
            BundledRom::Kangaroo => "kangaroo.bin",
            BundledRom::Krull => "krull.bin",
            BundledRom::KungFuMaster => "kung_fu_master.bin",
            BundledRom::MontezumaRevenge => "montezuma_revenge.bin",
            BundledRom::MsPacman => "ms_pacman.bin",
            BundledRom::NameThisGame => "name_this_game.bin",
            BundledRom::Phoenix => "phoenix.bin",
            BundledRom::Pitfall => "pitfall.bin",
            BundledRom::Pong => "pong.bin",
            BundledRom::Pooyan => "pooyan.bin",
            BundledRom::PrivateEye => "private_eye.bin",
            BundledRom::QBert => "qbert.bin",
            BundledRom::RiverRaid => "riverraid.bin",
            BundledRom::RoadRunner => "road_runner.bin",
            BundledRom::RoboTank => "robotank.bin",
            BundledRom::Seaquest => "seaquest.bin",
            BundledRom::Skiing => "skiing.bin",
            BundledRom::SpaceInvaders => "space_invaders.bin",
            BundledRom::StarGunner => "star_gunner.bin",
            BundledRom::Tennis => "tennis.bin",
            BundledRom::TimePilot => "time_pilot.bin",
            BundledRom::Tutankham => "tutankham.bin",
            BundledRom::UpNDown => "up_n_down.bin",
            BundledRom::Venture => "venture.bin",
            BundledRom::VideoPinball => "video_pinball.bin",
            BundledRom::WizardOfWor => "wizard_of_wor.bin",
            BundledRom::YarsRevenge => "yars_revenge.bin",
            BundledRom::Zaxxon => "zaxxon.bin",
        }
    }

    /// The title's place in the order of declaration, from 0.
    pub open spec fn spec_index(&self) -> usize {
        match self {
            BundledRom::Adventure => 0,
            BundledRom::AirRaid => 1,
            BundledRom::Alien => 2,
            BundledRom::Amidar => 3,
            BundledRom::Assault => 4,
            BundledRom::Asterix => 5,
            BundledRom::Asteroids => 6,
            BundledRom::Atlantis => 7,
            BundledRom::BankHeist => 8,
            BundledRom::BattleZone => 9,
            BundledRom::BeamRider => 10,
            BundledRom::Berzerk => 11,
            BundledRom::Bowling => 12,
            BundledRom::Boxing => 13,
            BundledRom::Breakout => 14,
            BundledRom::Carnival => 15,
            BundledRom::Centipede => 16,
            BundledRom::ChopperCommand => 17,
            BundledRom::CrazyClimber => 18,
            BundledRom::Defender => 19,
            BundledRom::DemonAttack => 20,
            BundledRom::DoubleDunk => 21,
            BundledRom::ElevatorAction => 22,
            BundledRom::Enduro => 23,
            BundledRom::FishingDerby => 24,
            BundledRom::Freeway => 25,
            BundledRom::Frostbite => 26,
            BundledRom::Gopher => 27,
            BundledRom::Gravitar => 28,
            BundledRom::Hero => 29,
            BundledRom::IceHockey => 30,
            BundledRom::JamesBond => 31,
            BundledRom::JourneyEscape => 32,
            BundledRom::Kaboom => 33,
            BundledRom::Kangaroo => 34,
            BundledRom::Krull => 35,
            BundledRom::KungFuMaster => 36,
            BundledRom::MontezumaRevenge => 37,
            BundledRom::MsPacman => 38,
            BundledRom::NameThisGame => 39,
            BundledRom::Phoenix => 40,
            BundledRom::Pitfall => 41,
            BundledRom::Pong => 42,
            BundledRom::Pooyan => 43,
            BundledRom::PrivateEye => 44,
            BundledRom::QBert => 45,
            BundledRom::RiverRaid => 46,
            BundledRom::RoadRunner => 47,
            BundledRom::RoboTank => 48,
            BundledRom::Seaquest => 49,
            BundledRom::Skiing => 50,
            BundledRom::SpaceInvaders => 51,
            BundledRom::StarGunner => 52,
            BundledRom::Tennis => 53,
            BundledRom::TimePilot => 54,
            BundledRom::Tutankham => 55,
            BundledRom::UpNDown => 56,
            BundledRom::Venture => 57,
            BundledRom::VideoPinball => 58,
            BundledRom::WizardOfWor => 59,
            BundledRom::YarsRevenge => 60,
            BundledRom::Zaxxon => 61,
        }
    }

    /// The title's place in the order of declaration, from 0. A table of
    /// images holds the title's image at this place.
    #[verifier::when_used_as_spec(spec_index)]
    pub fn index(&self) -> (index: usize)
        ensures
            index == self.spec_index(),
            index < BUNDLED_ROMS,
    {
        match self {
            BundledRom::Adventure => 0,
            BundledRom::AirRaid => 1,
            BundledRom::Alien => 2,
            BundledRom::Amidar => 3,
            BundledRom::Assault => 4,
            BundledRom::Asterix => 5,
            BundledRom::Asteroids => 6,
            BundledRom::Atlantis => 7,
            BundledRom::BankHeist => 8,
            BundledRom::BattleZone => 9,
            BundledRom::BeamRider => 10,
            BundledRom::Berzerk => 11,
            BundledRom::Bowling => 12,
            BundledRom::Boxing => 13,
            BundledRom::Breakout => 14,
            BundledRom::Carnival => 15,
            BundledRom::Centipede => 16,
            BundledRom::ChopperCommand => 17,
            BundledRom::CrazyClimber => 18,
            BundledRom::Defender => 19,
            BundledRom::DemonAttack => 20,
            BundledRom::DoubleDunk => 21,
            BundledRom::ElevatorAction => 22,
            BundledRom::Enduro => 23,
            BundledRom::FishingDerby => 24,
            BundledRom::Freeway => 25,
            BundledRom::Frostbite => 26,
            BundledRom::Gopher => 27,
            BundledRom::Gravitar => 28,
            BundledRom::Hero => 29,
            BundledRom::IceHockey => 30,
            BundledRom::JamesBond => 31,
            BundledRom::JourneyEscape => 32,
            BundledRom::Kaboom => 33,
            BundledRom::Kangaroo => 34,
            BundledRom::Krull => 35,
            BundledRom::KungFuMaster => 36,
            BundledRom::MontezumaRevenge => 37,
            BundledRom::MsPacman => 38,
            BundledRom::NameThisGame => 39,
            BundledRom::Phoenix => 40,
            BundledRom::Pitfall => 41,
            BundledRom::Pong => 42,
            BundledRom::Pooyan => 43,
            BundledRom::PrivateEye => 44,
            BundledRom::QBert => 45,
            BundledRom::RiverRaid => 46,
            BundledRom::RoadRunner => 47,
            BundledRom::RoboTank => 48,
            BundledRom::Seaquest => 49,
            BundledRom::Skiing => 50,
            BundledRom::SpaceInvaders => 51,
            BundledRom::StarGunner => 52,
            BundledRom::Tennis => 53,
            BundledRom::TimePilot => 54,
            BundledRom::Tutankham => 55,
            BundledRom::UpNDown => 56,
            BundledRom::Venture => 57,
            BundledRom::VideoPinball => 58,
            BundledRom::WizardOfWor => 59,
            BundledRom::YarsRevenge => 60,
            BundledRom::Zaxxon => 61,
        }
    }

    /// Every title, in the order of declaration: each stands at its own
    /// place.
    pub fn all() -> (titles: Vec<BundledRom>)
        ensures
            titles@.len() == BUNDLED_ROMS,
            forall|i: int| 0 <= i < titles@.len() ==> (#[trigger] titles@[i]).spec_index() == i,
    {
        vec![
            BundledRom::Adventure,
            BundledRom::AirRaid,
            BundledRom::Alien,
            BundledRom::Amidar,
            BundledRom::Assault,
            BundledRom::Asterix,
            BundledRom::Asteroids,
            BundledRom::Atlantis,
            BundledRom::BankHeist,
            BundledRom::BattleZone,
            BundledRom::BeamRider,
            BundledRom::Berzerk,
            BundledRom::Bowling,
            BundledRom::Boxing,
            BundledRom::Breakout,
            BundledRom::Carnival,
            BundledRom::Centipede,
            BundledRom::ChopperCommand,
            BundledRom::CrazyClimber,
            BundledRom::Defender,
            BundledRom::DemonAttack,
            BundledRom::DoubleDunk,
            BundledRom::ElevatorAction,
            BundledRom::Enduro,
            BundledRom::FishingDerby,
            BundledRom::Freeway,
            BundledRom::Frostbite,
            BundledRom::Gopher,
            BundledRom::Gravitar,
            BundledRom::Hero,
            BundledRom::IceHockey,
            BundledRom::JamesBond,
            BundledRom::JourneyEscape,
            BundledRom::Kaboom,
            BundledRom::Kangaroo,
            BundledRom::Krull,
            BundledRom::KungFuMaster,
            BundledRom::MontezumaRevenge,
            BundledRom::MsPacman,
            BundledRom::NameThisGame,
            BundledRom::Phoenix,
            BundledRom::Pitfall,
            BundledRom::Pong,
            BundledRom::Pooyan,
            BundledRom::PrivateEye,
            BundledRom::QBert,
            BundledRom::RiverRaid,
            BundledRom::RoadRunner,
            BundledRom::RoboTank,
            BundledRom::Seaquest,
            BundledRom::Skiing,
            BundledRom::SpaceInvaders,
            BundledRom::StarGunner,
            BundledRom::Tennis,
            BundledRom::TimePilot,
            BundledRom::Tutankham,
            BundledRom::UpNDown,
            BundledRom::Venture,
            BundledRom::VideoPinball,
            BundledRom::WizardOfWor,
            BundledRom::YarsRevenge,
            BundledRom::Zaxxon,
        ]
    }

    /// The raw image of the title's ROM, out of `table`.
    pub fn data<'a>(&self, table: &'a RomTable) -> (image: &'a [u8])
        ensures
            table@.len() == BUNDLED_ROMS,
            image@ == table@[self.spec_index() as int],
    {
        proof {
            use_type_invariant(table);
        }
        table.images[self.index()].as_slice()
    }
}

/// The images of all titles, in the order of declaration.
pub struct RomTable {
    images: Vec<Vec<u8>>,
}

impl View for RomTable {
    type V = Seq<Seq<u8>>;

    closed spec fn view(&self) -> Seq<Seq<u8>> {
        Seq::new(self.images@.len(), |i: int| self.images@[i]@)
    }
}

impl RomTable {
    #[verifier::type_invariant]
    spec fn complete(&self) -> bool {
        self.images@.len() == BUNDLED_ROMS
    }

    /// Makes a table of `images`, which must hold one image for each title,
    /// in the order of declaration. Any other number of images makes none.
    pub fn new(images: Vec<Vec<u8>>) -> (table: Option<RomTable>)
        ensures
            table is Some <==> images@.len() == BUNDLED_ROMS,
            table matches Some(t) ==> t@ == Seq::new(images@.len(), |i: int| images@[i]@),
    {
        if images.len() == BUNDLED_ROMS {
            Some(RomTable { images })
        } else {
            None
        }
    }
}

} // verus!
