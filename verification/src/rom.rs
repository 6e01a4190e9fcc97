use vstd::prelude::*;

verus! {

/// How much the emulator writes to its log.
#[derive(Clone, Copy, Debug, PartialEq, Eq, Structural)]
pub enum LoggerMode {
    Info,
    Warning,
    Error,
}

impl LoggerMode {
    /// The integer the emulator's logger takes for this mode.
    pub open spec fn spec_code(self) -> int {
        match self {
            LoggerMode::Info => 0,
            LoggerMode::Warning => 1,
            LoggerMode::Error => 2,
        }
    }

    pub fn code(&self) -> (c: i32)
        ensures
            c == self.spec_code(),
    {
        match self {
            LoggerMode::Info => 0,
            LoggerMode::Warning => 1,
            LoggerMode::Error => 2,
        }
    }
}

/// The games whose cartridge images ship with the emulator.
#[derive(Clone, Copy, Debug, PartialEq, Eq, Structural)]
pub enum BundledRom {
    Adventure,
    AirRaid,
    Alien,
    Amidar,
    Assault,
    Asterix,
    Asteroids,
    Atlantis,
    Atlantis2,
    Backgammon,
    BankHeist,
    BasicMath,
    BattleZone,
    BeamRider,
    Berzerk,
    Blackjack,
    Bowling,
    Boxing,
    Breakout,
    Carnival,
    Casino,
    Centipede,
    ChopperCommand,
    Combat,
    CrazyClimber,
    Crossbow,
    Darkchambers,
    Defender,
    DemonAttack,
    DonkeyKong,
    DoubleDunk,
    Earthworld,
    ElevatorAction,
    Enduro,
    Entombed,
    Et,
    FishingDerby,
    FlagCapture,
    Freeway,
    Frogger,
    Frostbite,
    Galaxian,
    Gopher,
    Gravitar,
    Hangman,
    HauntedHouse,
    Hero,
    HumanCannonball,
    IceHockey,
    Jamesbond,
    JourneyEscape,
    Joust,
    Kaboom,
    Kangaroo,
    KeystoneKapers,
    KingKong,
    Klax,
    Koolaid,
    Krull,
    KungFuMaster,
    LaserGates,
    LostLuggage,
    MarioBros,
    MazeCraze,
    MiniatureGolf,
    MontezumaRevenge,
    MrDo,
    MsPacman,
    NameThisGame,
    Othello,
    Pacman,
    Phoenix,
    Pitfall,
    Pitfall2,
    Pong,
    Pooyan,
    PrivateEye,
    Qbert,
    Riverraid,
    RoadRunner,
    Robotank,
    Seaquest,
    SirLancelot,
    Skiing,
    Solaris,
    SpaceInvaders,
    SpaceWar,
    StarGunner,
    Superman,
    Surround,
    Tennis,
    Tetris,
    TicTacToe3d,
    TimePilot,
    Trondead,
    Turmoil,
    Tutankham,
    UpNDown,
    Venture,
    VideoCheckers,
    VideoChess,
    VideoCube,
    VideoPinball,
    Warlords,
    WizardOfWor,
    WordZapper,
    YarsRevenge,
    Zaxxon,
}

/// `==` on `str`: true exactly when both hold the same characters.
#[verifier::external_body]
fn same_text(a: &str, b: &str) -> (r: bool)
    ensures
        r == (a@ == b@),
{
    a == b
}

/// The game that a lower-case, underscore-separated name stands for, if any.
pub open spec fn rom_of_name(name: Seq<char>) -> Option<BundledRom> {
    if name == "adventure"@ {
        Some(BundledRom::Adventure)
    } else if name == "air_raid"@ {
        Some(BundledRom::AirRaid)
    } else if name == "alien"@ {
        Some(BundledRom::Alien)
    } else if name == "amidar"@ {
        Some(BundledRom::Amidar)
    } else if name == "assault"@ {
        Some(BundledRom::Assault)
    } else if name == "asterix"@ {
        Some(BundledRom::Asterix)
    } else if name == "asteroids"@ {
        Some(BundledRom::Asteroids)
    } else if name == "atlantis"@ {
        Some(BundledRom::Atlantis)
    } else if name == "atlantis2"@ {
        Some(BundledRom::Atlantis2)
    } else if name == "backgammon"@ {
        Some(BundledRom::Backgammon)
    } else if name == "bank_heist"@ {
        Some(BundledRom::BankHeist)
    } else if name == "basic_math"@ {
        Some(BundledRom::BasicMath)
    } else if name == "battle_zone"@ {
        Some(BundledRom::BattleZone)
    } else if name == "beam_rider"@ {
        Some(BundledRom::BeamRider)
    } else if name == "berzerk"@ {
        Some(BundledRom::Berzerk)
    } else if name == "blackjack"@ {
        Some(BundledRom::Blackjack)
    } else if name == "bowling"@ {
        Some(BundledRom::Bowling)
    } else if name == "boxing"@ {
        Some(BundledRom::Boxing)
    } else if name == "breakout"@ {
        Some(BundledRom::Breakout)
    } else if name == "carnival"@ {
        Some(BundledRom::Carnival)
    } else if name == "casino"@ {
        Some(BundledRom::Casino)
    } else if name == "centipede"@ {
        Some(BundledRom::Centipede)
    } else if name == "chopper_command"@ {
        Some(BundledRom::ChopperCommand)
    } else if name == "combat"@ {
        Some(BundledRom::Combat)
    } else if name == "crazy_climber"@ {
        Some(BundledRom::CrazyClimber)
    } else if name == "crossbow"@ {
        Some(BundledRom::Crossbow)
    } else if name == "darkchambers"@ {
        Some(BundledRom::Darkchambers)
    } else if name == "defender"@ {
        Some(BundledRom::Defender)
    } else if name == "demon_attack"@ {
        Some(BundledRom::DemonAttack)
    } else if name == "donkey_kong"@ {
        Some(BundledRom::DonkeyKong)
    } else if name == "double_dunk"@ {
        Some(BundledRom::DoubleDunk)
    } else if name == "earthworld"@ {
        Some(BundledRom::Earthworld)
    } else if name == "elevator_action"@ {
        Some(BundledRom::ElevatorAction)
    } else if name == "enduro"@ {
        Some(BundledRom::Enduro)
    } else if name == "entombed"@ {
        Some(BundledRom::Entombed)
    } else if name == "et"@ {
        Some(BundledRom::Et)
    } else if name == "fishing_derby"@ {
        Some(BundledRom::FishingDerby)
    } else if name == "flag_capture"@ {
        Some(BundledRom::FlagCapture)
    } else if name == "freeway"@ {
        Some(BundledRom::Freeway)
    } else if name == "frogger"@ {
        Some(BundledRom::Frogger)
    } else if name == "frostbite"@ {
        Some(BundledRom::Frostbite)
    } else if name == "galaxian"@ {
        Some(BundledRom::Galaxian)
    } else if name == "gopher"@ {
        Some(BundledRom::Gopher)
    } else if name == "gravitar"@ {
        Some(BundledRom::Gravitar)
    } else if name == "hangman"@ {
        Some(BundledRom::Hangman)
    } else if name == "haunted_house"@ {
        Some(BundledRom::HauntedHouse)
    } else if name == "hero"@ {
        Some(BundledRom::Hero)
    } else if name == "human_cannonball"@ {
        Some(BundledRom::HumanCannonball)
    } else if name == "ice_hockey"@ {
        Some(BundledRom::IceHockey)
    } else if name == "jamesbond"@ {
        Some(BundledRom::Jamesbond)
    } else if name == "journey_escape"@ {
        Some(BundledRom::JourneyEscape)
    } else if name == "joust"@ {
        Some(BundledRom::Joust)
    } else if name == "kaboom"@ {
        Some(BundledRom::Kaboom)
    } else if name == "kangaroo"@ {
        Some(BundledRom::Kangaroo)
    } else if name == "keystone_kapers"@ {
        Some(BundledRom::KeystoneKapers)
    } else if name == "king_kong"@ {
        Some(BundledRom::KingKong)
    } else if name == "klax"@ {
        Some(BundledRom::Klax)
    } else if name == "koolaid"@ {
        Some(BundledRom::Koolaid)
    } else if name == "krull"@ {
        Some(BundledRom::Krull)
    } else if name == "kung_fu_master"@ {
        Some(BundledRom::KungFuMaster)
    } else if name == "laser_gates"@ {
        Some(BundledRom::LaserGates)
    } else if name == "lost_luggage"@ {
        Some(BundledRom::LostLuggage)
    } else if name == "mario_bros"@ {
        Some(BundledRom::MarioBros)
    } else if name == "maze_craze"@ {
        Some(BundledRom::MazeCraze)
    } else if name == "miniature_golf"@ {
        Some(BundledRom::MiniatureGolf)
    } else if name == "montezuma_revenge"@ {
        Some(BundledRom::MontezumaRevenge)
    } else if name == "mr_do"@ {
        Some(BundledRom::MrDo)
    } else if name == "ms_pacman"@ {
        Some(BundledRom::MsPacman)
    } else if name == "name_this_game"@ {
        Some(BundledRom::NameThisGame)
    } else if name == "othello"@ {
        Some(BundledRom::Othello)
    } else if name == "pacman"@ {
        Some(BundledRom::Pacman)
    } else if name == "phoenix"@ {
        Some(BundledRom::Phoenix)
    } else if name == "pitfall"@ {
        Some(BundledRom::Pitfall)
    } else if name == "pitfall2"@ {
        Some(BundledRom::Pitfall2)
    } else if name == "pong"@ {
        Some(BundledRom::Pong)
    } else if name == "pooyan"@ {
        Some(BundledRom::Pooyan)
    } else if name == "private_eye"@ {
        Some(BundledRom::PrivateEye)
    } else if name == "qbert"@ {
        Some(BundledRom::Qbert)
    } else if name == "riverraid"@ {
        Some(BundledRom::Riverraid)
    } else if name == "road_runner"@ {
        Some(BundledRom::RoadRunner)
    } else if name == "robotank"@ {
        Some(BundledRom::Robotank)
    } else if name == "seaquest"@ {
        Some(BundledRom::Seaquest)
    } else if name == "sir_lancelot"@ {
        Some(BundledRom::SirLancelot)
    } else if name == "skiing"@ {
        Some(BundledRom::Skiing)
    } else if name == "solaris"@ {
        Some(BundledRom::Solaris)
    } else if name == "space_invaders"@ {
        Some(BundledRom::SpaceInvaders)
    } else if name == "space_war"@ {
        Some(BundledRom::SpaceWar)
    } else if name == "star_gunner"@ {
        Some(BundledRom::StarGunner)
    } else if name == "superman"@ {
        Some(BundledRom::Superman)
    } else if name == "surround"@ {
        Some(BundledRom::Surround)
    } else if name == "tennis"@ {
        Some(BundledRom::Tennis)
    } else if name == "tetris"@ {
        Some(BundledRom::Tetris)
    } else if name == "tic_tac_toe_3d"@ {
        Some(BundledRom::TicTacToe3d)
    } else if name == "time_pilot"@ {
        Some(BundledRom::TimePilot)
    } else if name == "trondead"@ {
        Some(BundledRom::Trondead)
    } else if name == "turmoil"@ {
        Some(BundledRom::Turmoil)
    } else if name == "tutankham"@ {
        Some(BundledRom::Tutankham)
    } else if name == "up_n_down"@ {
        Some(BundledRom::UpNDown)
    } else if name == "venture"@ {
        Some(BundledRom::Venture)
    } else if name == "video_checkers"@ {
        Some(BundledRom::VideoCheckers)
    } else if name == "video_chess"@ {
        Some(BundledRom::VideoChess)
    } else if name == "video_cube"@ {
        Some(BundledRom::VideoCube)
    } else if name == "video_pinball"@ {
        Some(BundledRom::VideoPinball)
    } else if name == "warlords"@ {
        Some(BundledRom::Warlords)
    } else if name == "wizard_of_wor"@ {
        Some(BundledRom::WizardOfWor)
    } else if name == "word_zapper"@ {
        Some(BundledRom::WordZapper)
    } else if name == "yars_revenge"@ {
        Some(BundledRom::YarsRevenge)
    } else if name == "zaxxon"@ {
        Some(BundledRom::Zaxxon)
    } else {
        None
    }
}

impl BundledRom {
    /// The name under which `name2rom` finds this game.
    pub open spec fn spec_name(self) -> Seq<char> {
        match self {
            BundledRom::Adventure => "adventure"@,
            BundledRom::AirRaid => "air_raid"@,
            BundledRom::Alien => "alien"@,
            BundledRom::Amidar => "amidar"@,
            BundledRom::Assault => "assault"@,
            BundledRom::Asterix => "asterix"@,
            BundledRom::Asteroids => "asteroids"@,
            BundledRom::Atlantis => "atlantis"@,
            BundledRom::Atlantis2 => "atlantis2"@,
            BundledRom::Backgammon => "backgammon"@,
            BundledRom::BankHeist => "bank_heist"@,
            BundledRom::BasicMath => "basic_math"@,
            BundledRom::BattleZone => "battle_zone"@,
            BundledRom::BeamRider => "beam_rider"@,
            BundledRom::Berzerk => "berzerk"@,
            BundledRom::Blackjack => "blackjack"@,
            BundledRom::Bowling => "bowling"@,
            BundledRom::Boxing => "boxing"@,
            BundledRom::Breakout => "breakout"@,
            BundledRom::Carnival => "carnival"@,
            BundledRom::Casino => "casino"@,
            BundledRom::Centipede => "centipede"@,
            BundledRom::ChopperCommand => "chopper_command"@,
            BundledRom::Combat => "combat"@,
            BundledRom::CrazyClimber => "crazy_climber"@,
            BundledRom::Crossbow => "crossbow"@,
            BundledRom::Darkchambers => "darkchambers"@,
            BundledRom::Defender => "defender"@,
            BundledRom::DemonAttack => "demon_attack"@,
            BundledRom::DonkeyKong => "donkey_kong"@,
            BundledRom::DoubleDunk => "double_dunk"@,
            BundledRom::Earthworld => "earthworld"@,
            BundledRom::ElevatorAction => "elevator_action"@,
            BundledRom::Enduro => "enduro"@,
            BundledRom::Entombed => "entombed"@,
            BundledRom::Et => "et"@,
            BundledRom::FishingDerby => "fishing_derby"@,
            BundledRom::FlagCapture => "flag_capture"@,
            BundledRom::Freeway => "freeway"@,
            BundledRom::Frogger => "frogger"@,
            BundledRom::Frostbite => "frostbite"@,
            BundledRom::Galaxian => "galaxian"@,
            BundledRom::Gopher => "gopher"@,
            BundledRom::Gravitar => "gravitar"@,
            BundledRom::Hangman => "hangman"@,
            BundledRom::HauntedHouse => "haunted_house"@,
            BundledRom::Hero => "hero"@,
            BundledRom::HumanCannonball => "human_cannonball"@,
            BundledRom::IceHockey => "ice_hockey"@,
            BundledRom::Jamesbond => "jamesbond"@,
            BundledRom::JourneyEscape => "journey_escape"@,
            BundledRom::Joust => "joust"@,
            BundledRom::Kaboom => "kaboom"@,
            BundledRom::Kangaroo => "kangaroo"@,
            BundledRom::KeystoneKapers => "keystone_kapers"@,
            BundledRom::KingKong => "king_kong"@,
            BundledRom::Klax => "klax"@,
            BundledRom::Koolaid => "koolaid"@,
            BundledRom::Krull => "krull"@,
            BundledRom::KungFuMaster => "kung_fu_master"@,
            BundledRom::LaserGates => "laser_gates"@,
            BundledRom::LostLuggage => "lost_luggage"@,
            BundledRom::MarioBros => "mario_bros"@,
            BundledRom::MazeCraze => "maze_craze"@,
            BundledRom::MiniatureGolf => "miniature_golf"@,
            BundledRom::MontezumaRevenge => "montezuma_revenge"@,
            BundledRom::MrDo => "mr_do"@,
            BundledRom::MsPacman => "ms_pacman"@,
            BundledRom::NameThisGame => "name_this_game"@,
            BundledRom::Othello => "othello"@,
            BundledRom::Pacman => "pacman"@,
            BundledRom::Phoenix => "phoenix"@,
            BundledRom::Pitfall => "pitfall"@,
            BundledRom::Pitfall2 => "pitfall2"@,
            BundledRom::Pong => "pong"@,
            BundledRom::Pooyan => "pooyan"@,
            BundledRom::PrivateEye => "private_eye"@,
            BundledRom::Qbert => "qbert"@,
            BundledRom::Riverraid => "riverraid"@,
            BundledRom::RoadRunner => "road_runner"@,
            BundledRom::Robotank => "robotank"@,
            BundledRom::Seaquest => "seaquest"@,
            BundledRom::SirLancelot => "sir_lancelot"@,
            BundledRom::Skiing => "skiing"@,
            BundledRom::Solaris => "solaris"@,
            BundledRom::SpaceInvaders => "space_invaders"@,
            BundledRom::SpaceWar => "space_war"@,
            BundledRom::StarGunner => "star_gunner"@,
            BundledRom::Superman => "superman"@,
            BundledRom::Surround => "surround"@,
            BundledRom::Tennis => "tennis"@,
            BundledRom::Tetris => "tetris"@,
            BundledRom::TicTacToe3d => "tic_tac_toe_3d"@,
            BundledRom::TimePilot => "time_pilot"@,
            BundledRom::Trondead => "trondead"@,
            BundledRom::Turmoil => "turmoil"@,
            BundledRom::Tutankham => "tutankham"@,
            BundledRom::UpNDown => "up_n_down"@,
            BundledRom::Venture => "venture"@,
            BundledRom::VideoCheckers => "video_checkers"@,
            BundledRom::VideoChess => "video_chess"@,
            BundledRom::VideoCube => "video_cube"@,
            BundledRom::VideoPinball => "video_pinball"@,
            BundledRom::Warlords => "warlords"@,
            BundledRom::WizardOfWor => "wizard_of_wor"@,
            BundledRom::WordZapper => "word_zapper"@,
            BundledRom::YarsRevenge => "yars_revenge"@,
            BundledRom::Zaxxon => "zaxxon"@,
        }
    }

    /// The file name the emulator expects for this game's cartridge image.
    pub open spec fn spec_filename(self) -> Seq<char> {
        match self {
            BundledRom::Adventure => "adventure.bin"@,
            BundledRom::AirRaid => "air_raid.bin"@,
            BundledRom::Alien => "alien.bin"@,
            BundledRom::Amidar => "amidar.bin"@,
            BundledRom::Assault => "assault.bin"@,
            BundledRom::Asterix => "asterix.bin"@,
            BundledRom::Asteroids => "asteroids.bin"@,
            BundledRom::Atlantis => "atlantis.bin"@,
            BundledRom::Atlantis2 => "atlantis2.bin"@,
            BundledRom::Backgammon => "backgammon.bin"@,
            BundledRom::BankHeist => "bank_heist.bin"@,
            BundledRom::BasicMath => "basic_math.bin"@,
            BundledRom::BattleZone => "battle_zone.bin"@,
            BundledRom::BeamRider => "beam_rider.bin"@,
            BundledRom::Berzerk => "berzerk.bin"@,
            BundledRom::Blackjack => "blackjack.bin"@,
            BundledRom::Bowling => "bowling.bin"@,
            BundledRom::Boxing => "boxing.bin"@,
            BundledRom::Breakout => "breakout.bin"@,
            BundledRom::Carnival => "carnival.bin"@,
            BundledRom::Casino => "casino.bin"@,
            BundledRom::Centipede => "centipede.bin"@,
            BundledRom::ChopperCommand => "chopper_command.bin"@,
            BundledRom::Combat => "combat.bin"@,
            BundledRom::CrazyClimber => "crazy_climber.bin"@,
            BundledRom::Crossbow => "crossbow.bin"@,
            BundledRom::Darkchambers => "darkchambers.bin"@,
            BundledRom::Defender => "defender.bin"@,
            BundledRom::DemonAttack => "demon_attack.bin"@,
            BundledRom::DonkeyKong => "donkey_kong.bin"@,
            BundledRom::DoubleDunk => "double_dunk.bin"@,
            BundledRom::Earthworld => "earthworld.bin"@,
            BundledRom::ElevatorAction => "elevator_action.bin"@,
            BundledRom::Enduro => "enduro.bin"@,
            BundledRom::Entombed => "entombed.bin"@,
            BundledRom::Et => "et.bin"@,
            BundledRom::FishingDerby => "fishing_derby.bin"@,
            BundledRom::FlagCapture => "flag_capture.bin"@,
            BundledRom::Freeway => "freeway.bin"@,
            BundledRom::Frogger => "frogger.bin"@,
            BundledRom::Frostbite => "frostbite.bin"@,
            BundledRom::Galaxian => "galaxian.bin"@,
            BundledRom::Gopher => "gopher.bin"@,
            BundledRom::Gravitar => "gravitar.bin"@,
            BundledRom::Hangman => "hangman.bin"@,
            BundledRom::HauntedHouse => "haunted_house.bin"@,
            BundledRom::Hero => "hero.bin"@,
            BundledRom::HumanCannonball => "human_cannonball.bin"@,
            BundledRom::IceHockey => "ice_hockey.bin"@,
            BundledRom::Jamesbond => "jamesbond.bin"@,
            BundledRom::JourneyEscape => "journey_escape.bin"@,
            BundledRom::Joust => "joust.bin"@,
            BundledRom::Kaboom => "kaboom.bin"@,
            BundledRom::Kangaroo => "kangaroo.bin"@,
            BundledRom::KeystoneKapers => "keystone_kapers.bin"@,
            BundledRom::KingKong => "king_kong.bin"@,
            BundledRom::Klax => "klax.bin"@,
            BundledRom::Koolaid => "koolaid.bin"@,
            BundledRom::Krull => "krull.bin"@,
            BundledRom::KungFuMaster => "kung_fu_master.bin"@,
            BundledRom::LaserGates => "laser_gates.bin"@,
            BundledRom::LostLuggage => "lost_luggage.bin"@,
            BundledRom::MarioBros => "mario_bros.bin"@,
            BundledRom::MazeCraze => "maze_craze.bin"@,
            BundledRom::MiniatureGolf => "miniature_golf.bin"@,
            BundledRom::MontezumaRevenge => "montezuma_revenge.bin"@,
            BundledRom::MrDo => "mr_do.bin"@,
            BundledRom::MsPacman => "ms_pacman.bin"@,
            BundledRom::NameThisGame => "name_this_game.bin"@,
            BundledRom::Othello => "othello.bin"@,
            BundledRom::Pacman => "pacman.bin"@,
            BundledRom::Phoenix => "phoenix.bin"@,
            BundledRom::Pitfall => "pitfall.bin"@,
            BundledRom::Pitfall2 => "pitfall2.bin"@,
            BundledRom::Pong => "pong.bin"@,
            BundledRom::Pooyan => "pooyan.bin"@,
            BundledRom::PrivateEye => "private_eye.bin"@,
            BundledRom::Qbert => "qbert.bin"@,
            BundledRom::Riverraid => "riverraid.bin"@,
            BundledRom::RoadRunner => "road_runner.bin"@,
            BundledRom::Robotank => "robotank.bin"@,
            BundledRom::Seaquest => "seaquest.bin"@,
            BundledRom::SirLancelot => "sir_lancelot.bin"@,
            BundledRom::Skiing => "skiing.bin"@,
            BundledRom::Solaris => "solaris.bin"@,
            BundledRom::SpaceInvaders => "space_invaders.bin"@,
            BundledRom::SpaceWar => "space_war.bin"@,
            BundledRom::StarGunner => "star_gunner.bin"@,
            BundledRom::Superman => "superman.bin"@,
            BundledRom::Surround => "surround.bin"@,
            BundledRom::Tennis => "tennis.bin"@,
            BundledRom::Tetris => "tetris.bin"@,
            BundledRom::TicTacToe3d => "tic_tac_toe_3d.bin"@,
            BundledRom::TimePilot => "time_pilot.bin"@,
            BundledRom::Trondead => "trondead.bin"@,
            BundledRom::Turmoil => "turmoil.bin"@,
            BundledRom::Tutankham => "tutankham.bin"@,
            BundledRom::UpNDown => "up_n_down.bin"@,
            BundledRom::Venture => "venture.bin"@,
            BundledRom::VideoCheckers => "video_checkers.bin"@,
            BundledRom::VideoChess => "video_chess.bin"@,
            BundledRom::VideoCube => "video_cube.bin"@,
            BundledRom::VideoPinball => "video_pinball.bin"@,
            BundledRom::Warlords => "warlords.bin"@,
            BundledRom::WizardOfWor => "wizard_of_wor.bin"@,
            BundledRom::WordZapper => "word_zapper.bin"@,
            BundledRom::YarsRevenge => "yars_revenge.bin"@,
            BundledRom::Zaxxon => "zaxxon.bin"@,
        }
    }

    /// Looks a game up by name; `None` for a name that no bundled game has.
    pub fn lookup(name: &str) -> (found: Option<BundledRom>)
        ensures
            found == rom_of_name(name@),
            found matches Some(rom) ==> rom.spec_name() == name@,
    {
        if same_text(name, "adventure") {
            Some(BundledRom::Adventure)
        } else if same_text(name, "air_raid") {
            Some(BundledRom::AirRaid)
        } else if same_text(name, "alien") {
            Some(BundledRom::Alien)
        } else if same_text(name, "amidar") {
            Some(BundledRom::Amidar)
        } else if same_text(name, "assault") {
            Some(BundledRom::Assault)
        } else if same_text(name, "asterix") {
            Some(BundledRom::Asterix)
        } else if same_text(name, "asteroids") {
            Some(BundledRom::Asteroids)
        } else if same_text(name, "atlantis") {
            Some(BundledRom::Atlantis)
        } else if same_text(name, "atlantis2") {
            Some(BundledRom::Atlantis2)
        } else if same_text(name, "backgammon") {
            Some(BundledRom::Backgammon)
        } else if same_text(name, "bank_heist") {
            Some(BundledRom::BankHeist)
        } else if same_text(name, "basic_math") {
            Some(BundledRom::BasicMath)
        } else if same_text(name, "battle_zone") {
            Some(BundledRom::BattleZone)
        } else if same_text(name, "beam_rider") {
            Some(BundledRom::BeamRider)
        } else if same_text(name, "berzerk") {
            Some(BundledRom::Berzerk)
        } else if same_text(name, "blackjack") {
            Some(BundledRom::Blackjack)
        } else if same_text(name, "bowling") {
            Some(BundledRom::Bowling)
        } else if same_text(name, "boxing") {
            Some(BundledRom::Boxing)
        } else if same_text(name, "breakout") {
            Some(BundledRom::Breakout)
        } else if same_text(name, "carnival") {
            Some(BundledRom::Carnival)
        } else if same_text(name, "casino") {
            Some(BundledRom::Casino)
        } else if same_text(name, "centipede") {
            Some(BundledRom::Centipede)
        } else if same_text(name, "chopper_command") {
            Some(BundledRom::ChopperCommand)
        } else if same_text(name, "combat") {
            Some(BundledRom::Combat)
        } else if same_text(name, "crazy_climber") {
            Some(BundledRom::CrazyClimber)
        } else if same_text(name, "crossbow") {
            Some(BundledRom::Crossbow)
        } else if same_text(name, "darkchambers") {
            Some(BundledRom::Darkchambers)
        } else if same_text(name, "defender") {
            Some(BundledRom::Defender)
        } else if same_text(name, "demon_attack") {
            Some(BundledRom::DemonAttack)
        } else if same_text(name, "donkey_kong") {
            Some(BundledRom::DonkeyKong)
        } else if same_text(name, "double_dunk") {
            Some(BundledRom::DoubleDunk)
        } else if same_text(name, "earthworld") {
            Some(BundledRom::Earthworld)
        } else if same_text(name, "elevator_action") {
            Some(BundledRom::ElevatorAction)
        } else if same_text(name, "enduro") {
            Some(BundledRom::Enduro)
        } else if same_text(name, "entombed") {
            Some(BundledRom::Entombed)
        } else if same_text(name, "et") {
            Some(BundledRom::Et)
        } else if same_text(name, "fishing_derby") {
            Some(BundledRom::FishingDerby)
        } else if same_text(name, "flag_capture") {
            Some(BundledRom::FlagCapture)
        } else if same_text(name, "freeway") {
            Some(BundledRom::Freeway)
        } else if same_text(name, "frogger") {
            Some(BundledRom::Frogger)
        } else if same_text(name, "frostbite") {
            Some(BundledRom::Frostbite)
        } else if same_text(name, "galaxian") {
            Some(BundledRom::Galaxian)
        } else if same_text(name, "gopher") {
            Some(BundledRom::Gopher)
        } else if same_text(name, "gravitar") {
            Some(BundledRom::Gravitar)
        } else if same_text(name, "hangman") {
            Some(BundledRom::Hangman)
        } else if same_text(name, "haunted_house") {
            Some(BundledRom::HauntedHouse)
        } else if same_text(name, "hero") {
            Some(BundledRom::Hero)
        } else if same_text(name, "human_cannonball") {
            Some(BundledRom::HumanCannonball)
        } else if same_text(name, "ice_hockey") {
            Some(BundledRom::IceHockey)
        } else if same_text(name, "jamesbond") {
            Some(BundledRom::Jamesbond)
        } else if same_text(name, "journey_escape") {
            Some(BundledRom::JourneyEscape)
        } else if same_text(name, "joust") {
            Some(BundledRom::Joust)
        } else if same_text(name, "kaboom") {
            Some(BundledRom::Kaboom)
        } else if same_text(name, "kangaroo") {
            Some(BundledRom::Kangaroo)
        } else if same_text(name, "keystone_kapers") {
            Some(BundledRom::KeystoneKapers)
        } else if same_text(name, "king_kong") {
            Some(BundledRom::KingKong)
        } else if same_text(name, "klax") {
            Some(BundledRom::Klax)
        } else if same_text(name, "koolaid") {
            Some(BundledRom::Koolaid)
        } else if same_text(name, "krull") {
            Some(BundledRom::Krull)
        } else if same_text(name, "kung_fu_master") {
            Some(BundledRom::KungFuMaster)
        } else if same_text(name, "laser_gates") {
            Some(BundledRom::LaserGates)
        } else if same_text(name, "lost_luggage") {
            Some(BundledRom::LostLuggage)
        } else if same_text(name, "mario_bros") {
            Some(BundledRom::MarioBros)
        } else if same_text(name, "maze_craze") {
            Some(BundledRom::MazeCraze)
        } else if same_text(name, "miniature_golf") {
            Some(BundledRom::MiniatureGolf)
        } else if same_text(name, "montezuma_revenge") {
            Some(BundledRom::MontezumaRevenge)
        } else if same_text(name, "mr_do") {
            Some(BundledRom::MrDo)
        } else if same_text(name, "ms_pacman") {
            Some(BundledRom::MsPacman)
        } else if same_text(name, "name_this_game") {
            Some(BundledRom::NameThisGame)
        } else if same_text(name, "othello") {
            Some(BundledRom::Othello)
        } else if same_text(name, "pacman") {
            Some(BundledRom::Pacman)
        } else if same_text(name, "phoenix") {
            Some(BundledRom::Phoenix)
        } else if same_text(name, "pitfall") {
            Some(BundledRom::Pitfall)
        } else if same_text(name, "pitfall2") {
            Some(BundledRom::Pitfall2)
        } else if same_text(name, "pong") {
            Some(BundledRom::Pong)
        } else if same_text(name, "pooyan") {
            Some(BundledRom::Pooyan)
        } else if same_text(name, "private_eye") {
            Some(BundledRom::PrivateEye)
        } else if same_text(name, "qbert") {
            Some(BundledRom::Qbert)
        } else if same_text(name, "riverraid") {
            Some(BundledRom::Riverraid)
        } else if same_text(name, "road_runner") {
            Some(BundledRom::RoadRunner)
        } else if same_text(name, "robotank") {
            Some(BundledRom::Robotank)
        } else if same_text(name, "seaquest") {
            Some(BundledRom::Seaquest)
        } else if same_text(name, "sir_lancelot") {
            Some(BundledRom::SirLancelot)
        } else if same_text(name, "skiing") {
            Some(BundledRom::Skiing)
        } else if same_text(name, "solaris") {
            Some(BundledRom::Solaris)
        } else if same_text(name, "space_invaders") {
            Some(BundledRom::SpaceInvaders)
        } else if same_text(name, "space_war") {
            Some(BundledRom::SpaceWar)
        } else if same_text(name, "star_gunner") {
            Some(BundledRom::StarGunner)
        } else if same_text(name, "superman") {
            Some(BundledRom::Superman)
        } else if same_text(name, "surround") {
            Some(BundledRom::Surround)
        } else if same_text(name, "tennis") {
            Some(BundledRom::Tennis)
        } else if same_text(name, "tetris") {
            Some(BundledRom::Tetris)
        } else if same_text(name, "tic_tac_toe_3d") {
            Some(BundledRom::TicTacToe3d)
        } else if same_text(name, "time_pilot") {
            Some(BundledRom::TimePilot)
        } else if same_text(name, "trondead") {
            Some(BundledRom::Trondead)
        } else if same_text(name, "turmoil") {
            Some(BundledRom::Turmoil)
        } else if same_text(name, "tutankham") {
            Some(BundledRom::Tutankham)
        } else if same_text(name, "up_n_down") {
            Some(BundledRom::UpNDown)
        } else if same_text(name, "venture") {
            Some(BundledRom::Venture)
        } else if same_text(name, "video_checkers") {
            Some(BundledRom::VideoCheckers)
        } else if same_text(name, "video_chess") {
            Some(BundledRom::VideoChess)
        } else if same_text(name, "video_cube") {
            Some(BundledRom::VideoCube)
        } else if same_text(name, "video_pinball") {
            Some(BundledRom::VideoPinball)
        } else if same_text(name, "warlords") {
            Some(BundledRom::Warlords)
        } else if same_text(name, "wizard_of_wor") {
            Some(BundledRom::WizardOfWor)
        } else if same_text(name, "word_zapper") {
            Some(BundledRom::WordZapper)
        } else if same_text(name, "yars_revenge") {
            Some(BundledRom::YarsRevenge)
        } else if same_text(name, "zaxxon") {
            Some(BundledRom::Zaxxon)
        } else {
            None
        }
    }

    /// The game called `name`. The name must be one of the bundled games'.
    pub fn name2rom(name: &str) -> (rom: BundledRom)
        requires
            rom_of_name(name@).is_some(),
        ensures
            Some(rom) == rom_of_name(name@),
            rom.spec_name() == name@,
    {
        match BundledRom::lookup(name) {
            Some(rom) => rom,
            None => vstd::pervasive::unreached(),
        }
    }

    /// Returns the file name that the cartridge image should carry for the
    /// emulator to pick the right settings for it.
    pub fn filename(&self) -> (file: &'static str)
        ensures
            file@ == self.spec_filename(),
    {
        match self {
            BundledRom::Adventure => "adventure.bin",
            BundledRom::AirRaid => "air_raid.bin",
            BundledRom::Alien => "alien.bin",
            BundledRom::Amidar => "amidar.bin",
            BundledRom::Assault => "assault.bin",
            BundledRom::Asterix => "asterix.bin",
            BundledRom::Asteroids => "asteroids.bin",
            BundledRom::Atlantis => "atlantis.bin",
            BundledRom::Atlantis2 => "atlantis2.bin",
            BundledRom::Backgammon => "backgammon.bin",
            BundledRom::BankHeist => "bank_heist.bin",
            BundledRom::BasicMath => "basic_math.bin",
            BundledRom::BattleZone => "battle_zone.bin",
            BundledRom::BeamRider => "beam_rider.bin",
            BundledRom::Berzerk => "berzerk.bin",
            BundledRom::Blackjack => "blackjack.bin",
            BundledRom::Bowling => "bowling.bin",
            BundledRom::Boxing => "boxing.bin",
            BundledRom::Breakout => "breakout.bin",
            BundledRom::Carnival => "carnival.bin",
            BundledRom::Casino => "casino.bin",
            BundledRom::Centipede => "centipede.bin",
            BundledRom::ChopperCommand => "chopper_command.bin",
            BundledRom::Combat => "combat.bin",
            BundledRom::CrazyClimber => "crazy_climber.bin",
            BundledRom::Crossbow => "crossbow.bin",
            BundledRom::Darkchambers => "darkchambers.bin",
            BundledRom::Defender => "defender.bin",
            BundledRom::DemonAttack => "demon_attack.bin",
            BundledRom::DonkeyKong => "donkey_kong.bin",
            BundledRom::DoubleDunk => "double_dunk.bin",
            BundledRom::Earthworld => "earthworld.bin",
            BundledRom::ElevatorAction => "elevator_action.bin",
            BundledRom::Enduro => "enduro.bin",
            BundledRom::Entombed => "entombed.bin",
            BundledRom::Et => "et.bin",
            BundledRom::FishingDerby => "fishing_derby.bin",
            BundledRom::FlagCapture => "flag_capture.bin",
            BundledRom::Freeway => "freeway.bin",
            BundledRom::Frogger => "frogger.bin",
            BundledRom::Frostbite => "frostbite.bin",
            BundledRom::Galaxian => "galaxian.bin",
            BundledRom::Gopher => "gopher.bin",
            BundledRom::Gravitar => "gravitar.bin",
            BundledRom::Hangman => "hangman.bin",
            BundledRom::HauntedHouse => "haunted_house.bin",
            BundledRom::Hero => "hero.bin",
            BundledRom::HumanCannonball => "human_cannonball.bin",
            BundledRom::IceHockey => "ice_hockey.bin",
            BundledRom::Jamesbond => "jamesbond.bin",
            BundledRom::JourneyEscape => "journey_escape.bin",
            BundledRom::Joust => "joust.bin",
            BundledRom::Kaboom => "kaboom.bin",
            BundledRom::Kangaroo => "kangaroo.bin",
            BundledRom::KeystoneKapers => "keystone_kapers.bin",
            BundledRom::KingKong => "king_kong.bin",
            BundledRom::Klax => "klax.bin",
            BundledRom::Koolaid => "koolaid.bin",
            BundledRom::Krull => "krull.bin",
            BundledRom::KungFuMaster => "kung_fu_master.bin",
            BundledRom::LaserGates => "laser_gates.bin",
            BundledRom::LostLuggage => "lost_luggage.bin",
            BundledRom::MarioBros => "mario_bros.bin",
            BundledRom::MazeCraze => "maze_craze.bin",
            BundledRom::MiniatureGolf => "miniature_golf.bin",
            BundledRom::MontezumaRevenge => "montezuma_revenge.bin",
            BundledRom::MrDo => "mr_do.bin",
            BundledRom::MsPacman => "ms_pacman.bin",
            BundledRom::NameThisGame => "name_this_game.bin",
            BundledRom::Othello => "othello.bin",
            BundledRom::Pacman => "pacman.bin",
            BundledRom::Phoenix => "phoenix.bin",
            BundledRom::Pitfall => "pitfall.bin",
            BundledRom::Pitfall2 => "pitfall2.bin",
            BundledRom::Pong => "pong.bin",
            BundledRom::Pooyan => "pooyan.bin",
            BundledRom::PrivateEye => "private_eye.bin",
            BundledRom::Qbert => "qbert.bin",
            BundledRom::Riverraid => "riverraid.bin",
            BundledRom::RoadRunner => "road_runner.bin",
            BundledRom::Robotank => "robotank.bin",
            BundledRom::Seaquest => "seaquest.bin",
            BundledRom::SirLancelot => "sir_lancelot.bin",
            BundledRom::Skiing => "skiing.bin",
            BundledRom::Solaris => "solaris.bin",
            BundledRom::SpaceInvaders => "space_invaders.bin",
            BundledRom::SpaceWar => "space_war.bin",
            BundledRom::StarGunner => "star_gunner.bin",
            BundledRom::Superman => "superman.bin",
            BundledRom::Surround => "surround.bin",
            BundledRom::Tennis => "tennis.bin",
            BundledRom::Tetris => "tetris.bin",
            BundledRom::TicTacToe3d => "tic_tac_toe_3d.bin",
            BundledRom::TimePilot => "time_pilot.bin",
            BundledRom::Trondead => "trondead.bin",
            BundledRom::Turmoil => "turmoil.bin",
            BundledRom::Tutankham => "tutankham.bin",
            BundledRom::UpNDown => "up_n_down.bin",
            BundledRom::Venture => "venture.bin",
            BundledRom::VideoCheckers => "video_checkers.bin",
            BundledRom::VideoChess => "video_chess.bin",
            BundledRom::VideoCube => "video_cube.bin",
            BundledRom::VideoPinball => "video_pinball.bin",
            BundledRom::Warlords => "warlords.bin",
            BundledRom::WizardOfWor => "wizard_of_wor.bin",
            BundledRom::WordZapper => "word_zapper.bin",
            BundledRom::YarsRevenge => "yars_revenge.bin",
            BundledRom::Zaxxon => "zaxxon.bin",
        }
    }
}

} // verus!
