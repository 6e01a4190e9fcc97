use crate::rom::rom_of_name;
use crate::rom::BundledRom;
use vstd::prelude::*;

verus! {

/// The characters of ".bin", the ending of every cartridge image's name.
pub open spec fn bin_suffix() -> Seq<char> {
    seq!['.', 'b', 'i', 'n']
}

/// The first, the middle and the last letter of a name. No two games' names
/// have all three in common.
#[verifier::opaque]
spec fn mark(name: Seq<char>) -> (char, char, char) {
    (name[0], name[name.len() as int / 2], name[name.len() - 1])
}

impl BundledRom {
    /// The game's name, letter by letter.
    pub open spec fn spelling(self) -> Seq<char> {
        match self {
            BundledRom::Adventure => seq!['a', 'd', 'v', 'e', 'n', 't', 'u', 'r', 'e'],
            BundledRom::AirRaid => seq!['a', 'i', 'r', '_', 'r', 'a', 'i', 'd'],
            BundledRom::Alien => seq!['a', 'l', 'i', 'e', 'n'],
            BundledRom::Amidar => seq!['a', 'm', 'i', 'd', 'a', 'r'],
            BundledRom::Assault => seq!['a', 's', 's', 'a', 'u', 'l', 't'],
            BundledRom::Asterix => seq!['a', 's', 't', 'e', 'r', 'i', 'x'],
            BundledRom::Asteroids => seq!['a', 's', 't', 'e', 'r', 'o', 'i', 'd', 's'],
            BundledRom::Atlantis => seq!['a', 't', 'l', 'a', 'n', 't', 'i', 's'],
            BundledRom::Atlantis2 => seq!['a', 't', 'l', 'a', 'n', 't', 'i', 's', '2'],
            BundledRom::Backgammon => seq!['b', 'a', 'c', 'k', 'g', 'a', 'm', 'm', 'o', 'n'],
            BundledRom::BankHeist => seq!['b', 'a', 'n', 'k', '_', 'h', 'e', 'i', 's', 't'],
            BundledRom::BasicMath => seq!['b', 'a', 's', 'i', 'c', '_', 'm', 'a', 't', 'h'],
            BundledRom::BattleZone => seq!['b', 'a', 't', 't', 'l', 'e', '_', 'z', 'o', 'n', 'e'],
            BundledRom::BeamRider => seq!['b', 'e', 'a', 'm', '_', 'r', 'i', 'd', 'e', 'r'],
            BundledRom::Berzerk => seq!['b', 'e', 'r', 'z', 'e', 'r', 'k'],
            BundledRom::Blackjack => seq!['b', 'l', 'a', 'c', 'k', 'j', 'a', 'c', 'k'],
            BundledRom::Bowling => seq!['b', 'o', 'w', 'l', 'i', 'n', 'g'],
            BundledRom::Boxing => seq!['b', 'o', 'x', 'i', 'n', 'g'],
            BundledRom::Breakout => seq!['b', 'r', 'e', 'a', 'k', 'o', 'u', 't'],
            BundledRom::Carnival => seq!['c', 'a', 'r', 'n', 'i', 'v', 'a', 'l'],
            BundledRom::Casino => seq!['c', 'a', 's', 'i', 'n', 'o'],
            BundledRom::Centipede => seq!['c', 'e', 'n', 't', 'i', 'p', 'e', 'd', 'e'],
            BundledRom::ChopperCommand => seq!['c', 'h', 'o', 'p', 'p', 'e', 'r', '_', 'c', 'o', 'm', 'm', 'a', 'n', 'd'],
            BundledRom::Combat => seq!['c', 'o', 'm', 'b', 'a', 't'],
            BundledRom::CrazyClimber => seq!['c', 'r', 'a', 'z', 'y', '_', 'c', 'l', 'i', 'm', 'b', 'e', 'r'],
            BundledRom::Crossbow => seq!['c', 'r', 'o', 's', 's', 'b', 'o', 'w'],
            BundledRom::Darkchambers => seq!['d', 'a', 'r', 'k', 'c', 'h', 'a', 'm', 'b', 'e', 'r', 's'],
            BundledRom::Defender => seq!['d', 'e', 'f', 'e', 'n', 'd', 'e', 'r'],
            BundledRom::DemonAttack => seq!['d', 'e', 'm', 'o', 'n', '_', 'a', 't', 't', 'a', 'c', 'k'],
            BundledRom::DonkeyKong => seq!['d', 'o', 'n', 'k', 'e', 'y', '_', 'k', 'o', 'n', 'g'],
            BundledRom::DoubleDunk => seq!['d', 'o', 'u', 'b', 'l', 'e', '_', 'd', 'u', 'n', 'k'],
            BundledRom::Earthworld => seq!['e', 'a', 'r', 't', 'h', 'w', 'o', 'r', 'l', 'd'],
            BundledRom::ElevatorAction => seq!['e', 'l', 'e', 'v', 'a', 't', 'o', 'r', '_', 'a', 'c', 't', 'i', 'o', 'n'],
            BundledRom::Enduro => seq!['e', 'n', 'd', 'u', 'r', 'o'],
            BundledRom::Entombed => seq!['e', 'n', 't', 'o', 'm', 'b', 'e', 'd'],
            BundledRom::Et => seq!['e', 't'],
            BundledRom::FishingDerby => seq!['f', 'i', 's', 'h', 'i', 'n', 'g', '_', 'd', 'e', 'r', 'b', 'y'],
            BundledRom::FlagCapture => seq!['f', 'l', 'a', 'g', '_', 'c', 'a', 'p', 't', 'u', 'r', 'e'],
            BundledRom::Freeway => seq!['f', 'r', 'e', 'e', 'w', 'a', 'y'],
            BundledRom::Frogger => seq!['f', 'r', 'o', 'g', 'g', 'e', 'r'],
            BundledRom::Frostbite => seq!['f', 'r', 'o', 's', 't', 'b', 'i', 't', 'e'],
            BundledRom::Galaxian => seq!['g', 'a', 'l', 'a', 'x', 'i', 'a', 'n'],
            BundledRom::Gopher => seq!['g', 'o', 'p', 'h', 'e', 'r'],
            BundledRom::Gravitar => seq!['g', 'r', 'a', 'v', 'i', 't', 'a', 'r'],
            BundledRom::Hangman => seq!['h', 'a', 'n', 'g', 'm', 'a', 'n'],
            BundledRom::HauntedHouse => seq!['h', 'a', 'u', 'n', 't', 'e', 'd', '_', 'h', 'o', 'u', 's', 'e'],
            BundledRom::Hero => seq!['h', 'e', 'r', 'o'],
            BundledRom::HumanCannonball => seq!['h', 'u', 'm', 'a', 'n', '_', 'c', 'a', 'n', 'n', 'o', 'n', 'b', 'a', 'l', 'l'],
            BundledRom::IceHockey => seq!['i', 'c', 'e', '_', 'h', 'o', 'c', 'k', 'e', 'y'],
            BundledRom::Jamesbond => seq!['j', 'a', 'm', 'e', 's', 'b', 'o', 'n', 'd'],
            BundledRom::JourneyEscape => seq!['j', 'o', 'u', 'r', 'n', 'e', 'y', '_', 'e', 's', 'c', 'a', 'p', 'e'],
            BundledRom::Joust => seq!['j', 'o', 'u', 's', 't'],
            BundledRom::Kaboom => seq!['k', 'a', 'b', 'o', 'o', 'm'],
            BundledRom::Kangaroo => seq!['k', 'a', 'n', 'g', 'a', 'r', 'o', 'o'],
            BundledRom::KeystoneKapers => seq!['k', 'e', 'y', 's', 't', 'o', 'n', 'e', '_', 'k', 'a', 'p', 'e', 'r', 's'],
            BundledRom::KingKong => seq!['k', 'i', 'n', 'g', '_', 'k', 'o', 'n', 'g'],
            BundledRom::Klax => seq!['k', 'l', 'a', 'x'],
            BundledRom::Koolaid => seq!['k', 'o', 'o', 'l', 'a', 'i', 'd'],
            BundledRom::Krull => seq!['k', 'r', 'u', 'l', 'l'],
            BundledRom::KungFuMaster => seq!['k', 'u', 'n', 'g', '_', 'f', 'u', '_', 'm', 'a', 's', 't', 'e', 'r'],
            BundledRom::LaserGates => seq!['l', 'a', 's', 'e', 'r', '_', 'g', 'a', 't', 'e', 's'],
            BundledRom::LostLuggage => seq!['l', 'o', 's', 't', '_', 'l', 'u', 'g', 'g', 'a', 'g', 'e'],
            BundledRom::MarioBros => seq!['m', 'a', 'r', 'i', 'o', '_', 'b', 'r', 'o', 's'],
            BundledRom::MazeCraze => seq!['m', 'a', 'z', 'e', '_', 'c', 'r', 'a', 'z', 'e'],
            BundledRom::MiniatureGolf => seq!['m', 'i', 'n', 'i', 'a', 't', 'u', 'r', 'e', '_', 'g', 'o', 'l', 'f'],
            BundledRom::MontezumaRevenge => seq!['m', 'o', 'n', 't', 'e', 'z', 'u', 'm', 'a', '_', 'r', 'e', 'v', 'e', 'n', 'g', 'e'],
            BundledRom::MrDo => seq!['m', 'r', '_', 'd', 'o'],
            BundledRom::MsPacman => seq!['m', 's', '_', 'p', 'a', 'c', 'm', 'a', 'n'],
            BundledRom::NameThisGame => seq!['n', 'a', 'm', 'e', '_', 't', 'h', 'i', 's', '_', 'g', 'a', 'm', 'e'],
            BundledRom::Othello => seq!['o', 't', 'h', 'e', 'l', 'l', 'o'],
            BundledRom::Pacman => seq!['p', 'a', 'c', 'm', 'a', 'n'],
            BundledRom::Phoenix => seq!['p', 'h', 'o', 'e', 'n', 'i', 'x'],
            BundledRom::Pitfall => seq!['p', 'i', 't', 'f', 'a', 'l', 'l'],
            BundledRom::Pitfall2 => seq!['p', 'i', 't', 'f', 'a', 'l', 'l', '2'],
            BundledRom::Pong => seq!['p', 'o', 'n', 'g'],
            BundledRom::Pooyan => seq!['p', 'o', 'o', 'y', 'a', 'n'],
            BundledRom::PrivateEye => seq!['p', 'r', 'i', 'v', 'a', 't', 'e', '_', 'e', 'y', 'e'],
            BundledRom::Qbert => seq!['q', 'b', 'e', 'r', 't'],
            BundledRom::Riverraid => seq!['r', 'i', 'v', 'e', 'r', 'r', 'a', 'i', 'd'],
            BundledRom::RoadRunner => seq!['r', 'o', 'a', 'd', '_', 'r', 'u', 'n', 'n', 'e', 'r'],
            BundledRom::Robotank => seq!['r', 'o', 'b', 'o', 't', 'a', 'n', 'k'],
            BundledRom::Seaquest => seq!['s', 'e', 'a', 'q', 'u', 'e', 's', 't'],
            BundledRom::SirLancelot => seq!['s', 'i', 'r', '_', 'l', 'a', 'n', 'c', 'e', 'l', 'o', 't'],
            BundledRom::Skiing => seq!['s', 'k', 'i', 'i', 'n', 'g'],
            BundledRom::Solaris => seq!['s', 'o', 'l', 'a', 'r', 'i', 's'],
            BundledRom::SpaceInvaders => seq!['s', 'p', 'a', 'c', 'e', '_', 'i', 'n', 'v', 'a', 'd', 'e', 'r', 's'],
            BundledRom::SpaceWar => seq!['s', 'p', 'a', 'c', 'e', '_', 'w', 'a', 'r'],
            BundledRom::StarGunner => seq!['s', 't', 'a', 'r', '_', 'g', 'u', 'n', 'n', 'e', 'r'],
            BundledRom::Superman => seq!['s', 'u', 'p', 'e', 'r', 'm', 'a', 'n'],
            BundledRom::Surround => seq!['s', 'u', 'r', 'r', 'o', 'u', 'n', 'd'],
            BundledRom::Tennis => seq!['t', 'e', 'n', 'n', 'i', 's'],
            BundledRom::Tetris => seq!['t', 'e', 't', 'r', 'i', 's'],
            BundledRom::TicTacToe3d => seq!['t', 'i', 'c', '_', 't', 'a', 'c', '_', 't', 'o', 'e', '_', '3', 'd'],
            BundledRom::TimePilot => seq!['t', 'i', 'm', 'e', '_', 'p', 'i', 'l', 'o', 't'],
            BundledRom::Trondead => seq!['t', 'r', 'o', 'n', 'd', 'e', 'a', 'd'],
            BundledRom::Turmoil => seq!['t', 'u', 'r', 'm', 'o', 'i', 'l'],
            BundledRom::Tutankham => seq!['t', 'u', 't', 'a', 'n', 'k', 'h', 'a', 'm'],
            BundledRom::UpNDown => seq!['u', 'p', '_', 'n', '_', 'd', 'o', 'w', 'n'],
            BundledRom::Venture => seq!['v', 'e', 'n', 't', 'u', 'r', 'e'],
            BundledRom::VideoCheckers => seq!['v', 'i', 'd', 'e', 'o', '_', 'c', 'h', 'e', 'c', 'k', 'e', 'r', 's'],
            BundledRom::VideoChess => seq!['v', 'i', 'd', 'e', 'o', '_', 'c', 'h', 'e', 's', 's'],
            BundledRom::VideoCube => seq!['v', 'i', 'd', 'e', 'o', '_', 'c', 'u', 'b', 'e'],
            BundledRom::VideoPinball => seq!['v', 'i', 'd', 'e', 'o', '_', 'p', 'i', 'n', 'b', 'a', 'l', 'l'],
            BundledRom::Warlords => seq!['w', 'a', 'r', 'l', 'o', 'r', 'd', 's'],
            BundledRom::WizardOfWor => seq!['w', 'i', 'z', 'a', 'r', 'd', '_', 'o', 'f', '_', 'w', 'o', 'r'],
            BundledRom::WordZapper => seq!['w', 'o', 'r', 'd', '_', 'z', 'a', 'p', 'p', 'e', 'r'],
            BundledRom::YarsRevenge => seq!['y', 'a', 'r', 's', '_', 'r', 'e', 'v', 'e', 'n', 'g', 'e'],
            BundledRom::Zaxxon => seq!['z', 'a', 'x', 'x', 'o', 'n'],
        }
    }
}

/// What the game's name is made of, letter by letter.
pub proof fn lemma_name_spelled(rom: BundledRom)
    ensures
        rom.spec_name() == rom.spelling(),
{
    match rom {
        BundledRom::Adventure => {
            reveal_strlit("adventure");
            assert("adventure"@ =~= rom.spelling());
        },
        BundledRom::AirRaid => {
            reveal_strlit("air_raid");
            assert("air_raid"@ =~= rom.spelling());
        },
        BundledRom::Alien => {
            reveal_strlit("alien");
            assert("alien"@ =~= rom.spelling());
        },
        BundledRom::Amidar => {
            reveal_strlit("amidar");
            assert("amidar"@ =~= rom.spelling());
        },
        BundledRom::Assault => {
            reveal_strlit("assault");
            assert("assault"@ =~= rom.spelling());
        },
        BundledRom::Asterix => {
            reveal_strlit("asterix");
            assert("asterix"@ =~= rom.spelling());
        },
        BundledRom::Asteroids => {
            reveal_strlit("asteroids");
            assert("asteroids"@ =~= rom.spelling());
        },
        BundledRom::Atlantis => {
            reveal_strlit("atlantis");
            assert("atlantis"@ =~= rom.spelling());
        },
        BundledRom::Atlantis2 => {
            reveal_strlit("atlantis2");
            assert("atlantis2"@ =~= rom.spelling());
        },
        BundledRom::Backgammon => {
            reveal_strlit("backgammon");
            assert("backgammon"@ =~= rom.spelling());
        },
        BundledRom::BankHeist => {
            reveal_strlit("bank_heist");
            assert("bank_heist"@ =~= rom.spelling());
        },
        BundledRom::BasicMath => {
            reveal_strlit("basic_math");
            assert("basic_math"@ =~= rom.spelling());
        },
        BundledRom::BattleZone => {
            reveal_strlit("battle_zone");
            assert("battle_zone"@ =~= rom.spelling());
        },
        BundledRom::BeamRider => {
            reveal_strlit("beam_rider");
            assert("beam_rider"@ =~= rom.spelling());
        },
        BundledRom::Berzerk => {
            reveal_strlit("berzerk");
            assert("berzerk"@ =~= rom.spelling());
        },
        BundledRom::Blackjack => {
            reveal_strlit("blackjack");
            assert("blackjack"@ =~= rom.spelling());
        },
        BundledRom::Bowling => {
            reveal_strlit("bowling");
            assert("bowling"@ =~= rom.spelling());
        },
        BundledRom::Boxing => {
            reveal_strlit("boxing");
            assert("boxing"@ =~= rom.spelling());
        },
        BundledRom::Breakout => {
            reveal_strlit("breakout");
            assert("breakout"@ =~= rom.spelling());
        },
        BundledRom::Carnival => {
            reveal_strlit("carnival");
            assert("carnival"@ =~= rom.spelling());
        },
        BundledRom::Casino => {
            reveal_strlit("casino");
            assert("casino"@ =~= rom.spelling());
        },
        BundledRom::Centipede => {
            reveal_strlit("centipede");
            assert("centipede"@ =~= rom.spelling());
        },
        BundledRom::ChopperCommand => {
            reveal_strlit("chopper_command");
            assert("chopper_command"@ =~= rom.spelling());
        },
        BundledRom::Combat => {
            reveal_strlit("combat");
            assert("combat"@ =~= rom.spelling());
        },
        BundledRom::CrazyClimber => {
            reveal_strlit("crazy_climber");
            assert("crazy_climber"@ =~= rom.spelling());
        },
        BundledRom::Crossbow => {
            reveal_strlit("crossbow");
            assert("crossbow"@ =~= rom.spelling());
        },
        BundledRom::Darkchambers => {
            reveal_strlit("darkchambers");
            assert("darkchambers"@ =~= rom.spelling());
        },
        BundledRom::Defender => {
            reveal_strlit("defender");
            assert("defender"@ =~= rom.spelling());
        },
        BundledRom::DemonAttack => {
            reveal_strlit("demon_attack");
            assert("demon_attack"@ =~= rom.spelling());
        },
        BundledRom::DonkeyKong => {
            reveal_strlit("donkey_kong");
            assert("donkey_kong"@ =~= rom.spelling());
        },
        BundledRom::DoubleDunk => {
            reveal_strlit("double_dunk");
            assert("double_dunk"@ =~= rom.spelling());
        },
        BundledRom::Earthworld => {
            reveal_strlit("earthworld");
            assert("earthworld"@ =~= rom.spelling());
        },
        BundledRom::ElevatorAction => {
            reveal_strlit("elevator_action");
            assert("elevator_action"@ =~= rom.spelling());
        },
        BundledRom::Enduro => {
            reveal_strlit("enduro");
            assert("enduro"@ =~= rom.spelling());
        },
        BundledRom::Entombed => {
            reveal_strlit("entombed");
            assert("entombed"@ =~= rom.spelling());
        },
        BundledRom::Et => {
            reveal_strlit("et");
            assert("et"@ =~= rom.spelling());
        },
        BundledRom::FishingDerby => {
            reveal_strlit("fishing_derby");
            assert("fishing_derby"@ =~= rom.spelling());
        },
        BundledRom::FlagCapture => {
            reveal_strlit("flag_capture");
            assert("flag_capture"@ =~= rom.spelling());
        },
        BundledRom::Freeway => {
            reveal_strlit("freeway");
            assert("freeway"@ =~= rom.spelling());
        },
        BundledRom::Frogger => {
            reveal_strlit("frogger");
            assert("frogger"@ =~= rom.spelling());
        },
        BundledRom::Frostbite => {
            reveal_strlit("frostbite");
            assert("frostbite"@ =~= rom.spelling());
        },
        BundledRom::Galaxian => {
            reveal_strlit("galaxian");
            assert("galaxian"@ =~= rom.spelling());
        },
        BundledRom::Gopher => {
            reveal_strlit("gopher");
            assert("gopher"@ =~= rom.spelling());
        },
        BundledRom::Gravitar => {
            reveal_strlit("gravitar");
            assert("gravitar"@ =~= rom.spelling());
        },
        BundledRom::Hangman => {
            reveal_strlit("hangman");
            assert("hangman"@ =~= rom.spelling());
        },
        BundledRom::HauntedHouse => {
            reveal_strlit("haunted_house");
            assert("haunted_house"@ =~= rom.spelling());
        },
        BundledRom::Hero => {
            reveal_strlit("hero");
            assert("hero"@ =~= rom.spelling());
        },
        BundledRom::HumanCannonball => {
            reveal_strlit("human_cannonball");
            assert("human_cannonball"@ =~= rom.spelling());
        },
        BundledRom::IceHockey => {
            reveal_strlit("ice_hockey");
            assert("ice_hockey"@ =~= rom.spelling());
        },
        BundledRom::Jamesbond => {
            reveal_strlit("jamesbond");
            assert("jamesbond"@ =~= rom.spelling());
        },
        BundledRom::JourneyEscape => {
            reveal_strlit("journey_escape");
            assert("journey_escape"@ =~= rom.spelling());
        },
        BundledRom::Joust => {
            reveal_strlit("joust");
            assert("joust"@ =~= rom.spelling());
        },
        BundledRom::Kaboom => {
            reveal_strlit("kaboom");
            assert("kaboom"@ =~= rom.spelling());
        },
        BundledRom::Kangaroo => {
            reveal_strlit("kangaroo");
            assert("kangaroo"@ =~= rom.spelling());
        },
        BundledRom::KeystoneKapers => {
            reveal_strlit("keystone_kapers");
            assert("keystone_kapers"@ =~= rom.spelling());
        },
        BundledRom::KingKong => {
            reveal_strlit("king_kong");
            assert("king_kong"@ =~= rom.spelling());
        },
        BundledRom::Klax => {
            reveal_strlit("klax");
            assert("klax"@ =~= rom.spelling());
        },
        BundledRom::Koolaid => {
            reveal_strlit("koolaid");
            assert("koolaid"@ =~= rom.spelling());
        },
        BundledRom::Krull => {
            reveal_strlit("krull");
            assert("krull"@ =~= rom.spelling());
        },
        BundledRom::KungFuMaster => {
            reveal_strlit("kung_fu_master");
            assert("kung_fu_master"@ =~= rom.spelling());
        },
        BundledRom::LaserGates => {
            reveal_strlit("laser_gates");
            assert("laser_gates"@ =~= rom.spelling());
        },
        BundledRom::LostLuggage => {
            reveal_strlit("lost_luggage");
            assert("lost_luggage"@ =~= rom.spelling());
        },
        BundledRom::MarioBros => {
            reveal_strlit("mario_bros");
            assert("mario_bros"@ =~= rom.spelling());
        },
        BundledRom::MazeCraze => {
            reveal_strlit("maze_craze");
            assert("maze_craze"@ =~= rom.spelling());
        },
        BundledRom::MiniatureGolf => {
            reveal_strlit("miniature_golf");
            assert("miniature_golf"@ =~= rom.spelling());
        },
        BundledRom::MontezumaRevenge => {
            reveal_strlit("montezuma_revenge");
            assert("montezuma_revenge"@ =~= rom.spelling());
        },
        BundledRom::MrDo => {
            reveal_strlit("mr_do");
            assert("mr_do"@ =~= rom.spelling());
        },
        BundledRom::MsPacman => {
            reveal_strlit("ms_pacman");
            assert("ms_pacman"@ =~= rom.spelling());
        },
        BundledRom::NameThisGame => {
            reveal_strlit("name_this_game");
            assert("name_this_game"@ =~= rom.spelling());
        },
        BundledRom::Othello => {
            reveal_strlit("othello");
            assert("othello"@ =~= rom.spelling());
        },
        BundledRom::Pacman => {
            reveal_strlit("pacman");
            assert("pacman"@ =~= rom.spelling());
        },
        BundledRom::Phoenix => {
            reveal_strlit("phoenix");
            assert("phoenix"@ =~= rom.spelling());
        },
        BundledRom::Pitfall => {
            reveal_strlit("pitfall");
            assert("pitfall"@ =~= rom.spelling());
        },
        BundledRom::Pitfall2 => {
            reveal_strlit("pitfall2");
            assert("pitfall2"@ =~= rom.spelling());
        },
        BundledRom::Pong => {
            reveal_strlit("pong");
            assert("pong"@ =~= rom.spelling());
        },
        BundledRom::Pooyan => {
            reveal_strlit("pooyan");
            assert("pooyan"@ =~= rom.spelling());
        },
        BundledRom::PrivateEye => {
            reveal_strlit("private_eye");
            assert("private_eye"@ =~= rom.spelling());
        },
        BundledRom::Qbert => {
            reveal_strlit("qbert");
            assert("qbert"@ =~= rom.spelling());
        },
        BundledRom::Riverraid => {
            reveal_strlit("riverraid");
            assert("riverraid"@ =~= rom.spelling());
        },
        BundledRom::RoadRunner => {
            reveal_strlit("road_runner");
            assert("road_runner"@ =~= rom.spelling());
        },
        BundledRom::Robotank => {
            reveal_strlit("robotank");
            assert("robotank"@ =~= rom.spelling());
        },
        BundledRom::Seaquest => {
            reveal_strlit("seaquest");
            assert("seaquest"@ =~= rom.spelling());
        },
        BundledRom::SirLancelot => {
            reveal_strlit("sir_lancelot");
            assert("sir_lancelot"@ =~= rom.spelling());
        },
        BundledRom::Skiing => {
            reveal_strlit("skiing");
            assert("skiing"@ =~= rom.spelling());
        },
        BundledRom::Solaris => {
            reveal_strlit("solaris");
            assert("solaris"@ =~= rom.spelling());
        },
        BundledRom::SpaceInvaders => {
            reveal_strlit("space_invaders");
            assert("space_invaders"@ =~= rom.spelling());
        },
        BundledRom::SpaceWar => {
            reveal_strlit("space_war");
            assert("space_war"@ =~= rom.spelling());
        },
        BundledRom::StarGunner => {
            reveal_strlit("star_gunner");
            assert("star_gunner"@ =~= rom.spelling());
        },
        BundledRom::Superman => {
            reveal_strlit("superman");
            assert("superman"@ =~= rom.spelling());
        },
        BundledRom::Surround => {
            reveal_strlit("surround");
            assert("surround"@ =~= rom.spelling());
        },
        BundledRom::Tennis => {
            reveal_strlit("tennis");
            assert("tennis"@ =~= rom.spelling());
        },
        BundledRom::Tetris => {
            reveal_strlit("tetris");
            assert("tetris"@ =~= rom.spelling());
        },
        BundledRom::TicTacToe3d => {
            reveal_strlit("tic_tac_toe_3d");
            assert("tic_tac_toe_3d"@ =~= rom.spelling());
        },
        BundledRom::TimePilot => {
            reveal_strlit("time_pilot");
            assert("time_pilot"@ =~= rom.spelling());
        },
        BundledRom::Trondead => {
            reveal_strlit("trondead");
            assert("trondead"@ =~= rom.spelling());
        },
        BundledRom::Turmoil => {
            reveal_strlit("turmoil");
            assert("turmoil"@ =~= rom.spelling());
        },
        BundledRom::Tutankham => {
            reveal_strlit("tutankham");
            assert("tutankham"@ =~= rom.spelling());
        },
        BundledRom::UpNDown => {
            reveal_strlit("up_n_down");
            assert("up_n_down"@ =~= rom.spelling());
        },
        BundledRom::Venture => {
            reveal_strlit("venture");
            assert("venture"@ =~= rom.spelling());
        },
        BundledRom::VideoCheckers => {
            reveal_strlit("video_checkers");
            assert("video_checkers"@ =~= rom.spelling());
        },
        BundledRom::VideoChess => {
            reveal_strlit("video_chess");
            assert("video_chess"@ =~= rom.spelling());
        },
        BundledRom::VideoCube => {
            reveal_strlit("video_cube");
            assert("video_cube"@ =~= rom.spelling());
        },
        BundledRom::VideoPinball => {
            reveal_strlit("video_pinball");
            assert("video_pinball"@ =~= rom.spelling());
        },
        BundledRom::Warlords => {
            reveal_strlit("warlords");
            assert("warlords"@ =~= rom.spelling());
        },
        BundledRom::WizardOfWor => {
            reveal_strlit("wizard_of_wor");
            assert("wizard_of_wor"@ =~= rom.spelling());
        },
        BundledRom::WordZapper => {
            reveal_strlit("word_zapper");
            assert("word_zapper"@ =~= rom.spelling());
        },
        BundledRom::YarsRevenge => {
            reveal_strlit("yars_revenge");
            assert("yars_revenge"@ =~= rom.spelling());
        },
        BundledRom::Zaxxon => {
            reveal_strlit("zaxxon");
            assert("zaxxon"@ =~= rom.spelling());
        },
    }
}

/// What the file name is made of, letter by letter.
proof fn lemma_filename_spelled(rom: BundledRom)
    ensures
        rom.spec_filename() == rom.spelling() + bin_suffix(),
{
    match rom {
        BundledRom::Adventure => {
            reveal_strlit("adventure.bin");
            assert("adventure.bin"@ =~= rom.spelling() + bin_suffix());
        },
        BundledRom::AirRaid => {
            reveal_strlit("air_raid.bin");
            assert("air_raid.bin"@ =~= rom.spelling() + bin_suffix());
        },
        BundledRom::Alien => {
            reveal_strlit("alien.bin");
            assert("alien.bin"@ =~= rom.spelling() + bin_suffix());
        },
        BundledRom::Amidar => {
            reveal_strlit("amidar.bin");
            assert("amidar.bin"@ =~= rom.spelling() + bin_suffix());
        },
        BundledRom::Assault => {
            reveal_strlit("assault.bin");
            assert("assault.bin"@ =~= rom.spelling() + bin_suffix());
        },
        BundledRom::Asterix => {
            reveal_strlit("asterix.bin");
            assert("asterix.bin"@ =~= rom.spelling() + bin_suffix());
        },
        BundledRom::Asteroids => {
            reveal_strlit("asteroids.bin");
            assert("asteroids.bin"@ =~= rom.spelling() + bin_suffix());
        },
        BundledRom::Atlantis => {
            reveal_strlit("atlantis.bin");
            assert("atlantis.bin"@ =~= rom.spelling() + bin_suffix());
        },
        BundledRom::Atlantis2 => {
            reveal_strlit("atlantis2.bin");
            assert("atlantis2.bin"@ =~= rom.spelling() + bin_suffix());
        },
        BundledRom::Backgammon => {
            reveal_strlit("backgammon.bin");
            assert("backgammon.bin"@ =~= rom.spelling() + bin_suffix());
        },
        BundledRom::BankHeist => {
            reveal_strlit("bank_heist.bin");
            assert("bank_heist.bin"@ =~= rom.spelling() + bin_suffix());
        },
        BundledRom::BasicMath => {
            reveal_strlit("basic_math.bin");
            assert("basic_math.bin"@ =~= rom.spelling() + bin_suffix());
        },
        BundledRom::BattleZone => {
            reveal_strlit("battle_zone.bin");
            assert("battle_zone.bin"@ =~= rom.spelling() + bin_suffix());
        },
        BundledRom::BeamRider => {
            reveal_strlit("beam_rider.bin");
            assert("beam_rider.bin"@ =~= rom.spelling() + bin_suffix());
        },
        BundledRom::Berzerk => {
            reveal_strlit("berzerk.bin");
            assert("berzerk.bin"@ =~= rom.spelling() + bin_suffix());
        },
        BundledRom::Blackjack => {
            reveal_strlit("blackjack.bin");
            assert("blackjack.bin"@ =~= rom.spelling() + bin_suffix());
        },
        BundledRom::Bowling => {
            reveal_strlit("bowling.bin");
            assert("bowling.bin"@ =~= rom.spelling() + bin_suffix());
        },
        BundledRom::Boxing => {
            reveal_strlit("boxing.bin");
            assert("boxing.bin"@ =~= rom.spelling() + bin_suffix());
        },
        BundledRom::Breakout => {
            reveal_strlit("breakout.bin");
            assert("breakout.bin"@ =~= rom.spelling() + bin_suffix());
        },
        BundledRom::Carnival => {
            reveal_strlit("carnival.bin");
            assert("carnival.bin"@ =~= rom.spelling() + bin_suffix());
        },
        BundledRom::Casino => {
            reveal_strlit("casino.bin");
            assert("casino.bin"@ =~= rom.spelling() + bin_suffix());
        },
        BundledRom::Centipede => {
            reveal_strlit("centipede.bin");
            assert("centipede.bin"@ =~= rom.spelling() + bin_suffix());
        },
        BundledRom::ChopperCommand => {
            reveal_strlit("chopper_command.bin");
            assert("chopper_command.bin"@ =~= rom.spelling() + bin_suffix());
        },
        BundledRom::Combat => {
            reveal_strlit("combat.bin");
            assert("combat.bin"@ =~= rom.spelling() + bin_suffix());
        },
        BundledRom::CrazyClimber => {
            reveal_strlit("crazy_climber.bin");
            assert("crazy_climber.bin"@ =~= rom.spelling() + bin_suffix());
        },
        BundledRom::Crossbow => {
            reveal_strlit("crossbow.bin");
            assert("crossbow.bin"@ =~= rom.spelling() + bin_suffix());
        },
        BundledRom::Darkchambers => {
            reveal_strlit("darkchambers.bin");
            assert("darkchambers.bin"@ =~= rom.spelling() + bin_suffix());
        },
        BundledRom::Defender => {
            reveal_strlit("defender.bin");
            assert("defender.bin"@ =~= rom.spelling() + bin_suffix());
        },
        BundledRom::DemonAttack => {
            reveal_strlit("demon_attack.bin");
            assert("demon_attack.bin"@ =~= rom.spelling() + bin_suffix());
        },
        BundledRom::DonkeyKong => {
            reveal_strlit("donkey_kong.bin");
            assert("donkey_kong.bin"@ =~= rom.spelling() + bin_suffix());
        },
        BundledRom::DoubleDunk => {
            reveal_strlit("double_dunk.bin");
            assert("double_dunk.bin"@ =~= rom.spelling() + bin_suffix());
        },
        BundledRom::Earthworld => {
            reveal_strlit("earthworld.bin");
            assert("earthworld.bin"@ =~= rom.spelling() + bin_suffix());
        },
        BundledRom::ElevatorAction => {
            reveal_strlit("elevator_action.bin");
            assert("elevator_action.bin"@ =~= rom.spelling() + bin_suffix());
        },
        BundledRom::Enduro => {
            reveal_strlit("enduro.bin");
            assert("enduro.bin"@ =~= rom.spelling() + bin_suffix());
        },
        BundledRom::Entombed => {
            reveal_strlit("entombed.bin");
            assert("entombed.bin"@ =~= rom.spelling() + bin_suffix());
        },
        BundledRom::Et => {
            reveal_strlit("et.bin");
            assert("et.bin"@ =~= rom.spelling() + bin_suffix());
        },
        BundledRom::FishingDerby => {
            reveal_strlit("fishing_derby.bin");
            assert("fishing_derby.bin"@ =~= rom.spelling() + bin_suffix());
        },
        BundledRom::FlagCapture => {
            reveal_strlit("flag_capture.bin");
            assert("flag_capture.bin"@ =~= rom.spelling() + bin_suffix());
        },
        BundledRom::Freeway => {
            reveal_strlit("freeway.bin");
            assert("freeway.bin"@ =~= rom.spelling() + bin_suffix());
        },
        BundledRom::Frogger => {
            reveal_strlit("frogger.bin");
            assert("frogger.bin"@ =~= rom.spelling() + bin_suffix());
        },
        BundledRom::Frostbite => {
            reveal_strlit("frostbite.bin");
            assert("frostbite.bin"@ =~= rom.spelling() + bin_suffix());
        },
        BundledRom::Galaxian => {
            reveal_strlit("galaxian.bin");
            assert("galaxian.bin"@ =~= rom.spelling() + bin_suffix());
        },
        BundledRom::Gopher => {
            reveal_strlit("gopher.bin");
            assert("gopher.bin"@ =~= rom.spelling() + bin_suffix());
        },
        BundledRom::Gravitar => {
            reveal_strlit("gravitar.bin");
            assert("gravitar.bin"@ =~= rom.spelling() + bin_suffix());
        },
        BundledRom::Hangman => {
            reveal_strlit("hangman.bin");
            assert("hangman.bin"@ =~= rom.spelling() + bin_suffix());
        },
        BundledRom::HauntedHouse => {
            reveal_strlit("haunted_house.bin");
            assert("haunted_house.bin"@ =~= rom.spelling() + bin_suffix());
        },
        BundledRom::Hero => {
            reveal_strlit("hero.bin");
            assert("hero.bin"@ =~= rom.spelling() + bin_suffix());
        },
        BundledRom::HumanCannonball => {
            reveal_strlit("human_cannonball.bin");
            assert("human_cannonball.bin"@ =~= rom.spelling() + bin_suffix());
        },
        BundledRom::IceHockey => {
            reveal_strlit("ice_hockey.bin");
            assert("ice_hockey.bin"@ =~= rom.spelling() + bin_suffix());
        },
        BundledRom::Jamesbond => {
            reveal_strlit("jamesbond.bin");
            assert("jamesbond.bin"@ =~= rom.spelling() + bin_suffix());
        },
        BundledRom::JourneyEscape => {
            reveal_strlit("journey_escape.bin");
            assert("journey_escape.bin"@ =~= rom.spelling() + bin_suffix());
        },
        BundledRom::Joust => {
            reveal_strlit("joust.bin");
            assert("joust.bin"@ =~= rom.spelling() + bin_suffix());
        },
        BundledRom::Kaboom => {
            reveal_strlit("kaboom.bin");
            assert("kaboom.bin"@ =~= rom.spelling() + bin_suffix());
        },
        BundledRom::Kangaroo => {
            reveal_strlit("kangaroo.bin");
            assert("kangaroo.bin"@ =~= rom.spelling() + bin_suffix());
        },
        BundledRom::KeystoneKapers => {
            reveal_strlit("keystone_kapers.bin");
            assert("keystone_kapers.bin"@ =~= rom.spelling() + bin_suffix());
        },
        BundledRom::KingKong => {
            reveal_strlit("king_kong.bin");
            assert("king_kong.bin"@ =~= rom.spelling() + bin_suffix());
        },
        BundledRom::Klax => {
            reveal_strlit("klax.bin");
            assert("klax.bin"@ =~= rom.spelling() + bin_suffix());
        },
        BundledRom::Koolaid => {
            reveal_strlit("koolaid.bin");
            assert("koolaid.bin"@ =~= rom.spelling() + bin_suffix());
        },
        BundledRom::Krull => {
            reveal_strlit("krull.bin");
            assert("krull.bin"@ =~= rom.spelling() + bin_suffix());
        },
        BundledRom::KungFuMaster => {
            reveal_strlit("kung_fu_master.bin");
            assert("kung_fu_master.bin"@ =~= rom.spelling() + bin_suffix());
        },
        BundledRom::LaserGates => {
            reveal_strlit("laser_gates.bin");
            assert("laser_gates.bin"@ =~= rom.spelling() + bin_suffix());
        },
        BundledRom::LostLuggage => {
            reveal_strlit("lost_luggage.bin");
            assert("lost_luggage.bin"@ =~= rom.spelling() + bin_suffix());
        },
        BundledRom::MarioBros => {
            reveal_strlit("mario_bros.bin");
            assert("mario_bros.bin"@ =~= rom.spelling() + bin_suffix());
        },
        BundledRom::MazeCraze => {
            reveal_strlit("maze_craze.bin");
            assert("maze_craze.bin"@ =~= rom.spelling() + bin_suffix());
        },
        BundledRom::MiniatureGolf => {
            reveal_strlit("miniature_golf.bin");
            assert("miniature_golf.bin"@ =~= rom.spelling() + bin_suffix());
        },
        BundledRom::MontezumaRevenge => {
            reveal_strlit("montezuma_revenge.bin");
            assert("montezuma_revenge.bin"@ =~= rom.spelling() + bin_suffix());
        },
        BundledRom::MrDo => {
            reveal_strlit("mr_do.bin");
            assert("mr_do.bin"@ =~= rom.spelling() + bin_suffix());
        },
        BundledRom::MsPacman => {
            reveal_strlit("ms_pacman.bin");
            assert("ms_pacman.bin"@ =~= rom.spelling() + bin_suffix());
        },
        BundledRom::NameThisGame => {
            reveal_strlit("name_this_game.bin");
            assert("name_this_game.bin"@ =~= rom.spelling() + bin_suffix());
        },
        BundledRom::Othello => {
            reveal_strlit("othello.bin");
            assert("othello.bin"@ =~= rom.spelling() + bin_suffix());
        },
        BundledRom::Pacman => {
            reveal_strlit("pacman.bin");
            assert("pacman.bin"@ =~= rom.spelling() + bin_suffix());
        },
        BundledRom::Phoenix => {
            reveal_strlit("phoenix.bin");
            assert("phoenix.bin"@ =~= rom.spelling() + bin_suffix());
        },
        BundledRom::Pitfall => {
            reveal_strlit("pitfall.bin");
            assert("pitfall.bin"@ =~= rom.spelling() + bin_suffix());
        },
        BundledRom::Pitfall2 => {
            reveal_strlit("pitfall2.bin");
            assert("pitfall2.bin"@ =~= rom.spelling() + bin_suffix());
        },
        BundledRom::Pong => {
            reveal_strlit("pong.bin");
            assert("pong.bin"@ =~= rom.spelling() + bin_suffix());
        },
        BundledRom::Pooyan => {
            reveal_strlit("pooyan.bin");
            assert("pooyan.bin"@ =~= rom.spelling() + bin_suffix());
        },
        BundledRom::PrivateEye => {
            reveal_strlit("private_eye.bin");
            assert("private_eye.bin"@ =~= rom.spelling() + bin_suffix());
        },
        BundledRom::Qbert => {
            reveal_strlit("qbert.bin");
            assert("qbert.bin"@ =~= rom.spelling() + bin_suffix());
        },
        BundledRom::Riverraid => {
            reveal_strlit("riverraid.bin");
            assert("riverraid.bin"@ =~= rom.spelling() + bin_suffix());
        },
        BundledRom::RoadRunner => {
            reveal_strlit("road_runner.bin");
            assert("road_runner.bin"@ =~= rom.spelling() + bin_suffix());
        },
        BundledRom::Robotank => {
            reveal_strlit("robotank.bin");
            assert("robotank.bin"@ =~= rom.spelling() + bin_suffix());
        },
        BundledRom::Seaquest => {
            reveal_strlit("seaquest.bin");
            assert("seaquest.bin"@ =~= rom.spelling() + bin_suffix());
        },
        BundledRom::SirLancelot => {
            reveal_strlit("sir_lancelot.bin");
            assert("sir_lancelot.bin"@ =~= rom.spelling() + bin_suffix());
        },
        BundledRom::Skiing => {
            reveal_strlit("skiing.bin");
            assert("skiing.bin"@ =~= rom.spelling() + bin_suffix());
        },
        BundledRom::Solaris => {
            reveal_strlit("solaris.bin");
            assert("solaris.bin"@ =~= rom.spelling() + bin_suffix());
        },
        BundledRom::SpaceInvaders => {
            reveal_strlit("space_invaders.bin");
            assert("space_invaders.bin"@ =~= rom.spelling() + bin_suffix());
        },
        BundledRom::SpaceWar => {
            reveal_strlit("space_war.bin");
            assert("space_war.bin"@ =~= rom.spelling() + bin_suffix());
        },
        BundledRom::StarGunner => {
            reveal_strlit("star_gunner.bin");
            assert("star_gunner.bin"@ =~= rom.spelling() + bin_suffix());
        },
        BundledRom::Superman => {
            reveal_strlit("superman.bin");
            assert("superman.bin"@ =~= rom.spelling() + bin_suffix());
        },
        BundledRom::Surround => {
            reveal_strlit("surround.bin");
            assert("surround.bin"@ =~= rom.spelling() + bin_suffix());
        },
        BundledRom::Tennis => {
            reveal_strlit("tennis.bin");
            assert("tennis.bin"@ =~= rom.spelling() + bin_suffix());
        },
        BundledRom::Tetris => {
            reveal_strlit("tetris.bin");
            assert("tetris.bin"@ =~= rom.spelling() + bin_suffix());
        },
        BundledRom::TicTacToe3d => {
            reveal_strlit("tic_tac_toe_3d.bin");
            assert("tic_tac_toe_3d.bin"@ =~= rom.spelling() + bin_suffix());
        },
        BundledRom::TimePilot => {
            reveal_strlit("time_pilot.bin");
            assert("time_pilot.bin"@ =~= rom.spelling() + bin_suffix());
        },
        BundledRom::Trondead => {
            reveal_strlit("trondead.bin");
            assert("trondead.bin"@ =~= rom.spelling() + bin_suffix());
        },
        BundledRom::Turmoil => {
            reveal_strlit("turmoil.bin");
            assert("turmoil.bin"@ =~= rom.spelling() + bin_suffix());
        },
        BundledRom::Tutankham => {
            reveal_strlit("tutankham.bin");
            assert("tutankham.bin"@ =~= rom.spelling() + bin_suffix());
        },
        BundledRom::UpNDown => {
            reveal_strlit("up_n_down.bin");
            assert("up_n_down.bin"@ =~= rom.spelling() + bin_suffix());
        },
        BundledRom::Venture => {
            reveal_strlit("venture.bin");
            assert("venture.bin"@ =~= rom.spelling() + bin_suffix());
        },
        BundledRom::VideoCheckers => {
            reveal_strlit("video_checkers.bin");
            assert("video_checkers.bin"@ =~= rom.spelling() + bin_suffix());
        },
        BundledRom::VideoChess => {
            reveal_strlit("video_chess.bin");
            assert("video_chess.bin"@ =~= rom.spelling() + bin_suffix());
        },
        BundledRom::VideoCube => {
            reveal_strlit("video_cube.bin");
            assert("video_cube.bin"@ =~= rom.spelling() + bin_suffix());
        },
        BundledRom::VideoPinball => {
            reveal_strlit("video_pinball.bin");
            assert("video_pinball.bin"@ =~= rom.spelling() + bin_suffix());
        },
        BundledRom::Warlords => {
            reveal_strlit("warlords.bin");
            assert("warlords.bin"@ =~= rom.spelling() + bin_suffix());
        },
        BundledRom::WizardOfWor => {
            reveal_strlit("wizard_of_wor.bin");
            assert("wizard_of_wor.bin"@ =~= rom.spelling() + bin_suffix());
        },
        BundledRom::WordZapper => {
            reveal_strlit("word_zapper.bin");
            assert("word_zapper.bin"@ =~= rom.spelling() + bin_suffix());
        },
        BundledRom::YarsRevenge => {
            reveal_strlit("yars_revenge.bin");
            assert("yars_revenge.bin"@ =~= rom.spelling() + bin_suffix());
        },
        BundledRom::Zaxxon => {
            reveal_strlit("zaxxon.bin");
            assert("zaxxon.bin"@ =~= rom.spelling() + bin_suffix());
        },
    }
}

/// The mark of each game's name.
proof fn lemma_marks()
    ensures
        mark("adventure"@) == ('a', 'n', 'e'),
        mark("air_raid"@) == ('a', 'r', 'd'),
        mark("alien"@) == ('a', 'i', 'n'),
        mark("amidar"@) == ('a', 'd', 'r'),
        mark("assault"@) == ('a', 'a', 't'),
        mark("asterix"@) == ('a', 'e', 'x'),
        mark("asteroids"@) == ('a', 'r', 's'),
        mark("atlantis"@) == ('a', 'n', 's'),
        mark("atlantis2"@) == ('a', 'n', '2'),
        mark("backgammon"@) == ('b', 'a', 'n'),
        mark("bank_heist"@) == ('b', 'h', 't'),
        mark("basic_math"@) == ('b', '_', 'h'),
        mark("battle_zone"@) == ('b', 'e', 'e'),
        mark("beam_rider"@) == ('b', 'r', 'r'),
        mark("berzerk"@) == ('b', 'z', 'k'),
        mark("blackjack"@) == ('b', 'k', 'k'),
        mark("bowling"@) == ('b', 'l', 'g'),
        mark("boxing"@) == ('b', 'i', 'g'),
        mark("breakout"@) == ('b', 'k', 't'),
        mark("carnival"@) == ('c', 'i', 'l'),
        mark("casino"@) == ('c', 'i', 'o'),
        mark("centipede"@) == ('c', 'i', 'e'),
        mark("chopper_command"@) == ('c', '_', 'd'),
        mark("combat"@) == ('c', 'b', 't'),
        mark("crazy_climber"@) == ('c', 'c', 'r'),
        mark("crossbow"@) == ('c', 's', 'w'),
        mark("darkchambers"@) == ('d', 'a', 's'),
        mark("defender"@) == ('d', 'n', 'r'),
        mark("demon_attack"@) == ('d', 'a', 'k'),
        mark("donkey_kong"@) == ('d', 'y', 'g'),
        mark("double_dunk"@) == ('d', 'e', 'k'),
        mark("earthworld"@) == ('e', 'w', 'd'),
        mark("elevator_action"@) == ('e', 'r', 'n'),
        mark("enduro"@) == ('e', 'u', 'o'),
        mark("entombed"@) == ('e', 'm', 'd'),
        mark("et"@) == ('e', 't', 't'),
        mark("fishing_derby"@) == ('f', 'g', 'y'),
        mark("flag_capture"@) == ('f', 'a', 'e'),
        mark("freeway"@) == ('f', 'e', 'y'),
        mark("frogger"@) == ('f', 'g', 'r'),
        mark("frostbite"@) == ('f', 't', 'e'),
        mark("galaxian"@) == ('g', 'x', 'n'),
        mark("gopher"@) == ('g', 'h', 'r'),
        mark("gravitar"@) == ('g', 'i', 'r'),
        mark("hangman"@) == ('h', 'g', 'n'),
        mark("haunted_house"@) == ('h', 'd', 'e'),
        mark("hero"@) == ('h', 'r', 'o'),
        mark("human_cannonball"@) == ('h', 'n', 'l'),
        mark("ice_hockey"@) == ('i', 'o', 'y'),
        mark("jamesbond"@) == ('j', 's', 'd'),
        mark("journey_escape"@) == ('j', '_', 'e'),
        mark("joust"@) == ('j', 'u', 't'),
        mark("kaboom"@) == ('k', 'o', 'm'),
        mark("kangaroo"@) == ('k', 'a', 'o'),
        mark("keystone_kapers"@) == ('k', 'e', 's'),
        mark("king_kong"@) == ('k', '_', 'g'),
        mark("klax"@) == ('k', 'a', 'x'),
        mark("koolaid"@) == ('k', 'l', 'd'),
        mark("krull"@) == ('k', 'u', 'l'),
        mark("kung_fu_master"@) == ('k', '_', 'r'),
        mark("laser_gates"@) == ('l', '_', 's'),
        mark("lost_luggage"@) == ('l', 'u', 'e'),
        mark("mario_bros"@) == ('m', '_', 's'),
        mark("maze_craze"@) == ('m', 'c', 'e'),
        mark("miniature_golf"@) == ('m', 'r', 'f'),
        mark("montezuma_revenge"@) == ('m', 'a', 'e'),
        mark("mr_do"@) == ('m', '_', 'o'),
        mark("ms_pacman"@) == ('m', 'a', 'n'),
        mark("name_this_game"@) == ('n', 'i', 'e'),
        mark("othello"@) == ('o', 'e', 'o'),
        mark("pacman"@) == ('p', 'm', 'n'),
        mark("phoenix"@) == ('p', 'e', 'x'),
        mark("pitfall"@) == ('p', 'f', 'l'),
        mark("pitfall2"@) == ('p', 'a', '2'),
        mark("pong"@) == ('p', 'n', 'g'),
        mark("pooyan"@) == ('p', 'y', 'n'),
        mark("private_eye"@) == ('p', 't', 'e'),
        mark("qbert"@) == ('q', 'e', 't'),
        mark("riverraid"@) == ('r', 'r', 'd'),
        mark("road_runner"@) == ('r', 'r', 'r'),
        mark("robotank"@) == ('r', 't', 'k'),
        mark("seaquest"@) == ('s', 'u', 't'),
        mark("sir_lancelot"@) == ('s', 'n', 't'),
        mark("skiing"@) == ('s', 'i', 'g'),
        mark("solaris"@) == ('s', 'a', 's'),
        mark("space_invaders"@) == ('s', 'n', 's'),
        mark("space_war"@) == ('s', 'e', 'r'),
        mark("star_gunner"@) == ('s', 'g', 'r'),
        mark("superman"@) == ('s', 'r', 'n'),
        mark("surround"@) == ('s', 'o', 'd'),
        mark("tennis"@) == ('t', 'n', 's'),
        mark("tetris"@) == ('t', 'r', 's'),
        mark("tic_tac_toe_3d"@) == ('t', '_', 'd'),
        mark("time_pilot"@) == ('t', 'p', 't'),
        mark("trondead"@) == ('t', 'd', 'd'),
        mark("turmoil"@) == ('t', 'm', 'l'),
        mark("tutankham"@) == ('t', 'n', 'm'),
        mark("up_n_down"@) == ('u', '_', 'n'),
        mark("venture"@) == ('v', 't', 'e'),
        mark("video_checkers"@) == ('v', 'h', 's'),
        mark("video_chess"@) == ('v', '_', 's'),
        mark("video_cube"@) == ('v', '_', 'e'),
        mark("video_pinball"@) == ('v', 'p', 'l'),
        mark("warlords"@) == ('w', 'o', 's'),
        mark("wizard_of_wor"@) == ('w', '_', 'r'),
        mark("word_zapper"@) == ('w', 'z', 'r'),
        mark("yars_revenge"@) == ('y', 'e', 'e'),
        mark("zaxxon"@) == ('z', 'x', 'n'),
{
    reveal(mark);
    reveal_strlit("adventure");
    assert("adventure"@.len() == 9);
    reveal_strlit("air_raid");
    assert("air_raid"@.len() == 8);
    reveal_strlit("alien");
    assert("alien"@.len() == 5);
    reveal_strlit("amidar");
    assert("amidar"@.len() == 6);
    reveal_strlit("assault");
    assert("assault"@.len() == 7);
    reveal_strlit("asterix");
    assert("asterix"@.len() == 7);
    reveal_strlit("asteroids");
    assert("asteroids"@.len() == 9);
    reveal_strlit("atlantis");
    assert("atlantis"@.len() == 8);
    reveal_strlit("atlantis2");
    assert("atlantis2"@.len() == 9);
    reveal_strlit("backgammon");
    assert("backgammon"@.len() == 10);
    reveal_strlit("bank_heist");
    assert("bank_heist"@.len() == 10);
    reveal_strlit("basic_math");
    assert("basic_math"@.len() == 10);
    reveal_strlit("battle_zone");
    assert("battle_zone"@.len() == 11);
    reveal_strlit("beam_rider");
    assert("beam_rider"@.len() == 10);
    reveal_strlit("berzerk");
    assert("berzerk"@.len() == 7);
    reveal_strlit("blackjack");
    assert("blackjack"@.len() == 9);
    reveal_strlit("bowling");
    assert("bowling"@.len() == 7);
    reveal_strlit("boxing");
    assert("boxing"@.len() == 6);
    reveal_strlit("breakout");
    assert("breakout"@.len() == 8);
    reveal_strlit("carnival");
    assert("carnival"@.len() == 8);
    reveal_strlit("casino");
    assert("casino"@.len() == 6);
    reveal_strlit("centipede");
    assert("centipede"@.len() == 9);
    reveal_strlit("chopper_command");
    assert("chopper_command"@.len() == 15);
    reveal_strlit("combat");
    assert("combat"@.len() == 6);
    reveal_strlit("crazy_climber");
    assert("crazy_climber"@.len() == 13);
    reveal_strlit("crossbow");
    assert("crossbow"@.len() == 8);
    reveal_strlit("darkchambers");
    assert("darkchambers"@.len() == 12);
    reveal_strlit("defender");
    assert("defender"@.len() == 8);
    reveal_strlit("demon_attack");
    assert("demon_attack"@.len() == 12);
    reveal_strlit("donkey_kong");
    assert("donkey_kong"@.len() == 11);
    reveal_strlit("double_dunk");
    assert("double_dunk"@.len() == 11);
    reveal_strlit("earthworld");
    assert("earthworld"@.len() == 10);
    reveal_strlit("elevator_action");
    assert("elevator_action"@.len() == 15);
    reveal_strlit("enduro");
    assert("enduro"@.len() == 6);
    reveal_strlit("entombed");
    assert("entombed"@.len() == 8);
    reveal_strlit("et");
    assert("et"@.len() == 2);
    reveal_strlit("fishing_derby");
    assert("fishing_derby"@.len() == 13);
    reveal_strlit("flag_capture");
    assert("flag_capture"@.len() == 12);
    reveal_strlit("freeway");
    assert("freeway"@.len() == 7);
    reveal_strlit("frogger");
    assert("frogger"@.len() == 7);
    reveal_strlit("frostbite");
    assert("frostbite"@.len() == 9);
    reveal_strlit("galaxian");
    assert("galaxian"@.len() == 8);
    reveal_strlit("gopher");
    assert("gopher"@.len() == 6);
    reveal_strlit("gravitar");
    assert("gravitar"@.len() == 8);
    reveal_strlit("hangman");
    assert("hangman"@.len() == 7);
    reveal_strlit("haunted_house");
    assert("haunted_house"@.len() == 13);
    reveal_strlit("hero");
    assert("hero"@.len() == 4);
    reveal_strlit("human_cannonball");
    assert("human_cannonball"@.len() == 16);
    reveal_strlit("ice_hockey");
    assert("ice_hockey"@.len() == 10);
    reveal_strlit("jamesbond");
    assert("jamesbond"@.len() == 9);
    reveal_strlit("journey_escape");
    assert("journey_escape"@.len() == 14);
    reveal_strlit("joust");
    assert("joust"@.len() == 5);
    reveal_strlit("kaboom");
    assert("kaboom"@.len() == 6);
    reveal_strlit("kangaroo");
    assert("kangaroo"@.len() == 8);
    reveal_strlit("keystone_kapers");
    assert("keystone_kapers"@.len() == 15);
    reveal_strlit("king_kong");
    assert("king_kong"@.len() == 9);
    reveal_strlit("klax");
    assert("klax"@.len() == 4);
    reveal_strlit("koolaid");
    assert("koolaid"@.len() == 7);
    reveal_strlit("krull");
    assert("krull"@.len() == 5);
    reveal_strlit("kung_fu_master");
    assert("kung_fu_master"@.len() == 14);
    reveal_strlit("laser_gates");
    assert("laser_gates"@.len() == 11);
    reveal_strlit("lost_luggage");
    assert("lost_luggage"@.len() == 12);
    reveal_strlit("mario_bros");
    assert("mario_bros"@.len() == 10);
    reveal_strlit("maze_craze");
    assert("maze_craze"@.len() == 10);
    reveal_strlit("miniature_golf");
    assert("miniature_golf"@.len() == 14);
    reveal_strlit("montezuma_revenge");
    assert("montezuma_revenge"@.len() == 17);
    reveal_strlit("mr_do");
    assert("mr_do"@.len() == 5);
    reveal_strlit("ms_pacman");
    assert("ms_pacman"@.len() == 9);
    reveal_strlit("name_this_game");
    assert("name_this_game"@.len() == 14);
    reveal_strlit("othello");
    assert("othello"@.len() == 7);
    reveal_strlit("pacman");
    assert("pacman"@.len() == 6);
    reveal_strlit("phoenix");
    assert("phoenix"@.len() == 7);
    reveal_strlit("pitfall");
    assert("pitfall"@.len() == 7);
    reveal_strlit("pitfall2");
    assert("pitfall2"@.len() == 8);
    reveal_strlit("pong");
    assert("pong"@.len() == 4);
    reveal_strlit("pooyan");
    assert("pooyan"@.len() == 6);
    reveal_strlit("private_eye");
    assert("private_eye"@.len() == 11);
    reveal_strlit("qbert");
    assert("qbert"@.len() == 5);
    reveal_strlit("riverraid");
    assert("riverraid"@.len() == 9);
    reveal_strlit("road_runner");
    assert("road_runner"@.len() == 11);
    reveal_strlit("robotank");
    assert("robotank"@.len() == 8);
    reveal_strlit("seaquest");
    assert("seaquest"@.len() == 8);
    reveal_strlit("sir_lancelot");
    assert("sir_lancelot"@.len() == 12);
    reveal_strlit("skiing");
    assert("skiing"@.len() == 6);
    reveal_strlit("solaris");
    assert("solaris"@.len() == 7);
    reveal_strlit("space_invaders");
    assert("space_invaders"@.len() == 14);
    reveal_strlit("space_war");
    assert("space_war"@.len() == 9);
    reveal_strlit("star_gunner");
    assert("star_gunner"@.len() == 11);
    reveal_strlit("superman");
    assert("superman"@.len() == 8);
    reveal_strlit("surround");
    assert("surround"@.len() == 8);
    reveal_strlit("tennis");
    assert("tennis"@.len() == 6);
    reveal_strlit("tetris");
    assert("tetris"@.len() == 6);
    reveal_strlit("tic_tac_toe_3d");
    assert("tic_tac_toe_3d"@.len() == 14);
    reveal_strlit("time_pilot");
    assert("time_pilot"@.len() == 10);
    reveal_strlit("trondead");
    assert("trondead"@.len() == 8);
    reveal_strlit("turmoil");
    assert("turmoil"@.len() == 7);
    reveal_strlit("tutankham");
    assert("tutankham"@.len() == 9);
    reveal_strlit("up_n_down");
    assert("up_n_down"@.len() == 9);
    reveal_strlit("venture");
    assert("venture"@.len() == 7);
    reveal_strlit("video_checkers");
    assert("video_checkers"@.len() == 14);
    reveal_strlit("video_chess");
    assert("video_chess"@.len() == 11);
    reveal_strlit("video_cube");
    assert("video_cube"@.len() == 10);
    reveal_strlit("video_pinball");
    assert("video_pinball"@.len() == 13);
    reveal_strlit("warlords");
    assert("warlords"@.len() == 8);
    reveal_strlit("wizard_of_wor");
    assert("wizard_of_wor"@.len() == 13);
    reveal_strlit("word_zapper");
    assert("word_zapper"@.len() == 11);
    reveal_strlit("yars_revenge");
    assert("yars_revenge"@.len() == 12);
    reveal_strlit("zaxxon");
    assert("zaxxon"@.len() == 6);
}

/// The file name of a game is its name with ".bin" behind it.
pub proof fn lemma_filename_is_name_and_suffix(rom: BundledRom)
    ensures
        rom.spec_filename() == rom.spec_name() + bin_suffix(),
{
    lemma_name_spelled(rom);
    lemma_filename_spelled(rom);
}

/// Every game is found under its own name.
pub proof fn lemma_name_resolves(rom: BundledRom)
    ensures
        rom_of_name(rom.spec_name()) == Some(rom),
{
    lemma_marks();
}

/// No two games share a name.
pub proof fn lemma_names_differ(rom: BundledRom, other: BundledRom)
    requires
        rom.spec_name() == other.spec_name(),
    ensures
        rom == other,
{
    lemma_name_resolves(rom);
    lemma_name_resolves(other);
}

/// A name stands for a game exactly if it is that game's name.
pub proof fn lemma_lookup_is_by_name(name: Seq<char>, rom: BundledRom)
    ensures
        rom_of_name(name) == Some(rom) <==> name == rom.spec_name(),
{
    if name == rom.spec_name() {
        lemma_name_resolves(rom);
    }
}

} // verus!
