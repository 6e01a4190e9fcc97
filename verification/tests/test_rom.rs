use ale_env::rom::BundledRom;
use ale_env::rom::LoggerMode;

#[test]
fn name2rom_finds_breakout() {
    let rom = BundledRom::name2rom("breakout");
    assert_eq!(rom, BundledRom::Breakout);
    assert_eq!(rom.filename(), "breakout.bin");
}

#[test]
fn lookup_refuses_unknown_names() {
    assert_eq!(BundledRom::lookup("no_such_game"), None);
    assert_eq!(BundledRom::lookup(""), None);
    assert_eq!(BundledRom::lookup("Breakout"), None);
    assert_eq!(BundledRom::lookup("breakout.bin"), None);
}

#[test]
fn first_and_last_games_resolve() {
    assert_eq!(BundledRom::lookup("adventure"), Some(BundledRom::Adventure));
    assert_eq!(BundledRom::lookup("zaxxon"), Some(BundledRom::Zaxxon));
    assert_eq!(BundledRom::Adventure.filename(), "adventure.bin");
    assert_eq!(BundledRom::Zaxxon.filename(), "zaxxon.bin");
    assert_eq!(BundledRom::TicTacToe3d.filename(), "tic_tac_toe_3d.bin");
    assert_eq!(BundledRom::lookup("tic_tac_toe_3d"), Some(BundledRom::TicTacToe3d));
}

#[test]
fn logger_mode_codes() {
    assert_eq!(LoggerMode::Info.code(), 0);
    assert_eq!(LoggerMode::Warning.code(), 1);
    assert_eq!(LoggerMode::Error.code(), 2);
}

const NAMES: [&str; 108] = [
    "adventure", "air_raid", "alien", "amidar", "assault", "asterix",
    "asteroids", "atlantis", "atlantis2", "backgammon", "bank_heist", "basic_math",
    "battle_zone", "beam_rider", "berzerk", "blackjack", "bowling", "boxing",
    "breakout", "carnival", "casino", "centipede", "chopper_command", "combat",
    "crazy_climber", "crossbow", "darkchambers", "defender", "demon_attack", "donkey_kong",
    "double_dunk", "earthworld", "elevator_action", "enduro", "entombed", "et",
    "fishing_derby", "flag_capture", "freeway", "frogger", "frostbite", "galaxian",
    "gopher", "gravitar", "hangman", "haunted_house", "hero", "human_cannonball",
    "ice_hockey", "jamesbond", "journey_escape", "joust", "kaboom", "kangaroo",
    "keystone_kapers", "king_kong", "klax", "koolaid", "krull", "kung_fu_master",
    "laser_gates", "lost_luggage", "mario_bros", "maze_craze", "miniature_golf", "montezuma_revenge",
    "mr_do", "ms_pacman", "name_this_game", "othello", "pacman", "phoenix",
    "pitfall", "pitfall2", "pong", "pooyan", "private_eye", "qbert",
    "riverraid", "road_runner", "robotank", "seaquest", "sir_lancelot", "skiing",
    "solaris", "space_invaders", "space_war", "star_gunner", "superman", "surround",
    "tennis", "tetris", "tic_tac_toe_3d", "time_pilot", "trondead", "turmoil",
    "tutankham", "up_n_down", "venture", "video_checkers", "video_chess", "video_cube",
    "video_pinball", "warlords", "wizard_of_wor", "word_zapper", "yars_revenge", "zaxxon",
];

#[test]
fn every_game_is_found_under_its_name() {
    let mut found = Vec::new();
    for name in NAMES.iter() {
        let rom = BundledRom::lookup(name).unwrap();
        assert_eq!(BundledRom::name2rom(name), rom);
        assert_eq!(rom.filename(), format!("{}.bin", name));
        assert!(!found.contains(&rom));
        found.push(rom);
    }
    assert_eq!(found.len(), 108);
    assert_eq!(found[0], BundledRom::Adventure);
    assert_eq!(found[107], BundledRom::Zaxxon);
}

#[test]
fn file_names_are_no_game_names() {
    for name in NAMES.iter() {
        assert_eq!(BundledRom::lookup(&format!("{}.bin", name)), None);
        assert_eq!(BundledRom::lookup(&format!(" {}", name)), None);
        assert_eq!(BundledRom::lookup(&name[1..]), None);
    }
}
