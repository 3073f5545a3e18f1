pub mod dtos;
pub mod filters;
pub mod game;
pub mod message_censor_impl;
pub mod messages;
pub mod rate_limiter;
pub mod rpc;
pub mod text;
pub mod users_handler;

pub use game::DEFAULT_COLOR;

use game::{blank_tiles, load_outcome, Game, GameConfig, LoadError};
use rpc::rpc_types::RPCServerMessage;
use vstd::prelude::*;

verus! {

/// The game the server starts with: the saved board when there is one, a
/// blank board otherwise.
pub fn create_game(game_file: Option<Vec<u8>>, config: GameConfig) -> (r: Result<Game, LoadError>)
    requires
        config.width * config.height <= u32::MAX,
    ensures
        match game_file {
            None => r matches Ok(g) && g.started_with(config, blank_tiles(config)),
            Some(board) => match r {
                Ok(g) => load_outcome(board@, config) == Ok::<(), LoadError>(()) && g.started_with(
                    config,
                    board@,
                ),
                Err(e) => load_outcome(board@, config) == Err::<(), LoadError>(e),
            },
        },
{
    match game_file {
        Some(board) => Game::load(board, config),
        None => Ok(Game::new(config)),
    }
}

/// The message that tells everyone how many players are connected; the
/// count is cut to 32 bits.
pub fn user_count_message(connected: usize) -> (m: RPCServerMessage)
    ensures
        m == RPCServerMessage::UpdateUserCount(connected as u32),
{
    RPCServerMessage::UpdateUserCount(#[verifier::truncate] (connected as u32))
}

/// The red, green and blue parts of a colour written as `0xRRGGBB`.
pub open spec fn rgb_parts(color: u32) -> (u8, u8, u8) {
    (((color / 0x1_0000) % 0x100) as u8, ((color / 0x100) % 0x100) as u8, (color % 0x100) as u8)
}

/// The red, green and blue parts of a colour, put back together, give the
/// colour's low 24 bits: red is the top byte of them, blue the bottom one.
pub proof fn lemma_rgb_parts(color: u32)
    ensures
        rgb_parts(color).0 * 0x1_0000 + rgb_parts(color).1 * 0x100 + rgb_parts(color).2 == color
            % 0x100_0000,
{
    let c = color as int;
    assert(((c / 0x1_0000) % 0x100) * 0x1_0000 + ((c / 0x100) % 0x100) * 0x100 + c % 0x100 == c
        % 0x100_0000) by (nonlinear_arith);
}

pub fn decode_rgb(color: u32) -> (rgb: (u8, u8, u8))
    ensures
        rgb == rgb_parts(color),
{
    let r = ((color >> 16) & 0xff) as u8;
    let g = ((color >> 8) & 0xff) as u8;
    let b = (color & 0xff) as u8;
    assert(((color >> 16) & 0xff) == (color / 0x1_0000) % 0x100) by (bit_vector);
    assert(((color >> 8) & 0xff) == (color / 0x100) % 0x100) by (bit_vector);
    assert((color & 0xff) == color % 0x100) by (bit_vector);
    (r, g, b)
}

/// The palette as the server publishes it: each colour under its position,
/// the position cut to 8 bits.
pub fn palette_entries(colors: &Vec<u32>) -> (entries: Vec<(u8, (u8, u8, u8))>)
    ensures
        entries@.len() == colors@.len(),
        forall|i: int|
            0 <= i < colors@.len() ==> #[trigger] entries@[i] == (i as u8, rgb_parts(colors@[i])),
{
    let mut entries: Vec<(u8, (u8, u8, u8))> = Vec::new();
    let n = colors.len();
    for i in 0..n
        invariant
            n == colors@.len(),
            entries@.len() == i,
            forall|j: int|
                0 <= j < i ==> #[trigger] entries@[j] == (j as u8, rgb_parts(colors@[j])),
    {
        entries.push((#[verifier::truncate] (i as u8), decode_rgb(colors[i])));
    }
    entries
}

} // verus!
