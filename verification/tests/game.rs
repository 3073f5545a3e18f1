use backend::game::{Game, GameConfig, LoadError, SetTileError, MAX_COLOR};
use backend::rate_limiter::IpKey;

const WIDTH: u32 = 10;
const HEIGHT: u32 = 10;
const TEST_IP: IpKey = IpKey::V4(0x7f00_0001); // 127.0.0.1
const OTHER_IP: IpKey = IpKey::V4(0x7f00_0002); // 127.0.0.2
const RATE_LIMIT_TIME: u64 = 100;
const NOW: u64 = 1_000_000;

fn config() -> GameConfig {
    GameConfig { width: WIDTH, height: HEIGHT, tile_wait_time: RATE_LIMIT_TIME }
}

fn game() -> Game {
    Game::new(config())
}

#[test]
fn width_and_height_of_the_game_must_match_inputs() {
    let game = game();
    assert_eq!(game.get_width(), WIDTH);
    assert_eq!(game.get_height(), HEIGHT);
}

#[test]
fn initial_game_snapshot_must_be_all_white() {
    let board = game().snapshot();
    assert_eq!(board.len(), (WIDTH * HEIGHT) as usize);
    for cell in board.into_iter() {
        assert_eq!(cell, 31);
    }
}

#[test]
fn initially_loaded_board_must_exists_as_is() {
    let loaded_board = vec![24; HEIGHT as usize * WIDTH as usize];
    let game = Game::load(loaded_board.clone(), config()).unwrap();
    let snapshot = game.snapshot();
    assert_eq!(snapshot, loaded_board);
}

#[test]
fn it_must_return_error_if_width_and_height_do_not_match() {
    let loaded_board = vec![24; HEIGHT as usize * WIDTH as usize + 1];
    let err = Game::load(loaded_board, config()).expect_err("expected load to return error");
    assert_eq!(err, LoadError::InvalidBoardSize);
}

#[test]
fn it_must_return_error_if_loaded_board_is_invalid() {
    let loaded_board = vec![45; HEIGHT as usize * WIDTH as usize];
    let err = Game::load(loaded_board, config()).expect_err("expected load to return error");
    assert_eq!(err, LoadError::InvalidBoardData);
}

#[test]
fn load_checks_the_size_before_the_colours() {
    let err = Game::load(vec![45; 3], config()).unwrap_err();
    assert_eq!(err, LoadError::InvalidBoardSize);
}

#[test]
fn load_accepts_the_largest_colour() {
    let board = vec![MAX_COLOR; (WIDTH * HEIGHT) as usize];
    assert!(Game::load(board, config()).is_ok());
    let mut board = vec![0; (WIDTH * HEIGHT) as usize];
    board[99] = MAX_COLOR + 1;
    assert_eq!(Game::load(board, config()).unwrap_err(), LoadError::InvalidBoardData);
}

#[test]
fn it_must_return_error_if_index_is_out_of_range() {
    let mut game = game();
    let err = game
        .set_tile(TEST_IP, WIDTH * HEIGHT, 0, NOW)
        .expect_err("expected set_tile to return error");
    assert_eq!(err, SetTileError::OutOfBounds);
}

#[test]
fn it_must_return_error_if_color_is_not_valid() {
    let mut game = game();
    let err = game
        .set_tile(TEST_IP, 0, MAX_COLOR + 1, NOW)
        .expect_err("expected set_tile to return error");
    assert_eq!(err, SetTileError::InvalidColor);
}

#[test]
fn it_must_not_be_rate_limited_for_first_time() {
    let mut game = game();
    assert!(game.set_tile(TEST_IP, 0, 0, NOW).is_ok());
}

#[test]
fn it_must_return_error_if_ip_is_marked_as_rate_limited() {
    let mut game = game();
    game.set_tile(TEST_IP, 0, 0, NOW).unwrap();
    let err = game
        .set_tile(TEST_IP, 3, 1, NOW + 1)
        .expect_err("expected set_tile to return error");
    assert_eq!(err, SetTileError::RateLimited);
}

#[test]
fn multiple_set_tiles_with_different_ips_should_not_rate_limit_each_other() {
    let mut game = game();
    game.set_tile(TEST_IP, 0, 0, NOW).unwrap();
    assert!(game.set_tile(OTHER_IP, 0, 0, NOW).is_ok());
}

#[test]
fn set_tile_should_effect_snapshot() {
    let mut game = game();
    game.set_tile(TEST_IP, 55, 30, NOW).unwrap();
    let new_snapshot = game.snapshot();
    assert_eq!(new_snapshot[55], 30);
}

#[test]
fn set_tile_changes_only_its_tile() {
    let mut game = game();
    game.set_tile(TEST_IP, 55, 30, NOW).unwrap();
    assert_eq!(game.get_tile_color(55), Some(30));
    for i in 0..WIDTH * HEIGHT {
        if i != 55 {
            assert_eq!(game.get_tile_color(i), Some(31));
        }
    }
    assert_eq!(game.get_tile_color(WIDTH * HEIGHT), None);
}

#[test]
fn address_is_free_again_after_the_wait() {
    let mut game = game();
    game.set_tile(TEST_IP, 0, 0, NOW).unwrap();
    assert_eq!(game.set_tile(TEST_IP, 1, 1, NOW + RATE_LIMIT_TIME - 1), Err(SetTileError::RateLimited));
    assert_eq!(game.set_tile(TEST_IP, 1, 1, NOW + RATE_LIMIT_TIME), Ok(()));
}

#[test]
fn a_clock_that_went_back_keeps_the_limit() {
    let mut game = game();
    game.set_tile(TEST_IP, 0, 0, NOW).unwrap();
    assert_eq!(game.set_tile(TEST_IP, 1, 1, NOW - 1), Err(SetTileError::RateLimited));
}

#[test]
fn rate_limit_is_checked_before_colour_and_index() {
    let mut game = game();
    game.set_tile(TEST_IP, 0, 0, NOW).unwrap();
    assert_eq!(game.set_tile(TEST_IP, WIDTH * HEIGHT, MAX_COLOR + 1, NOW), Err(SetTileError::RateLimited));
    let mut fresh = self::game();
    assert_eq!(fresh.set_tile(TEST_IP, WIDTH * HEIGHT, MAX_COLOR + 1, NOW), Err(SetTileError::InvalidColor));
}

#[test]
fn refused_tile_does_not_mark_the_address() {
    let mut game = game();
    assert_eq!(game.set_tile(TEST_IP, WIDTH * HEIGHT, 0, NOW), Err(SetTileError::OutOfBounds));
    assert_eq!(game.set_tile(TEST_IP, 0, 5, NOW), Ok(()));
    assert_eq!(game.snapshot()[0], 5);
}

#[test]
fn garbage_collection_keeps_answers() {
    let mut game = game();
    game.set_tile(TEST_IP, 0, 0, NOW).unwrap();
    game.set_tile(OTHER_IP, 1, 0, NOW + 50).unwrap();
    game.collect_garbage(NOW + RATE_LIMIT_TIME);
    assert_eq!(game.set_tile(OTHER_IP, 2, 0, NOW + RATE_LIMIT_TIME), Err(SetTileError::RateLimited));
    assert_eq!(game.set_tile(TEST_IP, 2, 0, NOW + RATE_LIMIT_TIME), Ok(()));
}

#[test]
fn error_messages() {
    assert_eq!(LoadError::InvalidBoardSize.to_string(), "Invalid board size");
    assert_eq!(LoadError::InvalidBoardData.to_string(), "Invalid board data");
    assert_eq!(SetTileError::OutOfBounds.to_string(), "Out of bounds");
    assert_eq!(SetTileError::InvalidColor.to_string(), "Invalid color");
    assert_eq!(SetTileError::RateLimited.to_string(), "Rate limited");
}
