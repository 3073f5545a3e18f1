//! The shared board: a `width * height` grid of colour indices that players
//! paint one tile at a time, each address at most once per waiting window.
use crate::rate_limiter::{free_at, without_expired, IpKey, RateLimiter, RateLimiterImpl};
use vstd::prelude::*;

verus! {

/// The largest colour index a tile can hold.
pub const MAX_COLOR: u8 = 31;

/// The colour of a tile that nobody has painted yet.
pub const DEFAULT_COLOR: u8 = 31;

/// The shape of a board and how long an address waits between two tiles.
#[derive(Debug, Clone, Copy)]
pub struct GameConfig {
    pub width: u32,
    pub height: u32,
    /// In milliseconds.
    pub tile_wait_time: u64,
}

/// Why a board could not be loaded.
#[derive(Debug, PartialEq, Eq, Structural, Clone, Copy)]
pub enum LoadError {
    InvalidBoardSize,
    InvalidBoardData,
}

/// Why a tile could not be set.
#[derive(Debug, PartialEq, Eq, Structural, Clone, Copy)]
pub enum SetTileError {
    OutOfBounds,
    InvalidColor,
    RateLimited,
}

impl LoadError {
    /// The message that describes the error.
    pub fn to_string(&self) -> (s: String)
        ensures
            s@ == self.message(),
    {
        match self {
            LoadError::InvalidBoardSize => "Invalid board size".to_string(),
            LoadError::InvalidBoardData => "Invalid board data".to_string(),
        }
    }

    pub open spec fn message(&self) -> Seq<char> {
        match self {
            LoadError::InvalidBoardSize => "Invalid board size"@,
            LoadError::InvalidBoardData => "Invalid board data"@,
        }
    }
}

impl SetTileError {
    /// The message that describes the error.
    pub fn to_string(&self) -> (s: String)
        ensures
            s@ == self.message(),
    {
        match self {
            SetTileError::OutOfBounds => "Out of bounds".to_string(),
            SetTileError::InvalidColor => "Invalid color".to_string(),
            SetTileError::RateLimited => "Rate limited".to_string(),
        }
    }

    pub open spec fn message(&self) -> Seq<char> {
        match self {
            SetTileError::OutOfBounds => "Out of bounds"@,
            SetTileError::InvalidColor => "Invalid color"@,
            SetTileError::RateLimited => "Rate limited"@,
        }
    }
}

/// Every tile holds a colour index no larger than `MAX_COLOR`.
pub open spec fn valid_tiles(tiles: Seq<u8>) -> bool {
    forall|i: int| 0 <= i < tiles.len() ==> #[trigger] tiles[i] <= MAX_COLOR
}

/// A board of the configured shape with every tile of `DEFAULT_COLOR`.
pub open spec fn blank_tiles(config: GameConfig) -> Seq<u8> {
    Seq::new((config.width * config.height) as nat, |i: int| DEFAULT_COLOR)
}

/// What `load` answers for a saved board: its size is checked first, then
/// its colours.
pub open spec fn load_outcome(board: Seq<u8>, config: GameConfig) -> Result<(), LoadError> {
    if board.len() != config.width * config.height {
        Err(LoadError::InvalidBoardSize)
    } else if !valid_tiles(board) {
        Err(LoadError::InvalidBoardData)
    } else {
        Ok(())
    }
}

#[derive(Debug)]
pub struct Game {
    width: u32,
    height: u32,
    board: Vec<u8>,
    rate_limiter: RateLimiterImpl,
}

impl Game {
    pub closed spec fn board_width(&self) -> u32 {
        self.width
    }

    pub closed spec fn board_height(&self) -> u32 {
        self.height
    }

    /// The tiles, row after row.
    pub closed spec fn tiles(&self) -> Seq<u8> {
        self.board@
    }

    /// For each address, when it last set a tile.
    pub closed spec fn limited(&self) -> Map<IpKey, u64> {
        self.rate_limiter@
    }

    /// How long an address waits between two tiles, in milliseconds.
    pub closed spec fn wait(&self) -> u64 {
        self.rate_limiter.wait()
    }

    /// The number of tiles.
    pub open spec fn size(&self) -> int {
        self.board_width() * self.board_height()
    }

    pub open spec fn wf(&self) -> bool {
        &&& self.size() <= u32::MAX
        &&& self.tiles().len() == self.size()
        &&& valid_tiles(self.tiles())
    }

    /// Whether `ip` may set a tile at `now`.
    pub open spec fn ip_is_free(&self, ip: IpKey, now: u64) -> bool {
        free_at(self.limited(), self.wait(), ip, now)
    }

    /// The colour of tile `idx`, if there is such a tile.
    pub open spec fn tile_color(&self, idx: u32) -> Option<u8> {
        if idx < self.tiles().len() {
            Some(self.tiles()[idx as int])
        } else {
            None
        }
    }

    /// What `set_tile` answers: the address's window is checked first, then
    /// the colour, then the index.
    pub open spec fn set_tile_outcome(&self, ip: IpKey, index: u32, color: u8, now: u64) -> Result<
        (),
        SetTileError,
    > {
        if !self.ip_is_free(ip, now) {
            Err(SetTileError::RateLimited)
        } else if color > MAX_COLOR {
            Err(SetTileError::InvalidColor)
        } else if index >= self.size() {
            Err(SetTileError::OutOfBounds)
        } else {
            Ok(())
        }
    }

    /// How `set_tile` changes the game: on success the tile takes the colour
    /// and the address is marked at `now`; on failure nothing changes.
    pub open spec fn set_tile_step(
        &self,
        next: &Self,
        ip: IpKey,
        index: u32,
        color: u8,
        now: u64,
    ) -> bool {
        match self.set_tile_outcome(ip, index, color, now) {
            Ok(()) => {
                &&& next.board_width() == self.board_width()
                &&& next.board_height() == self.board_height()
                &&& next.tiles() == self.tiles().update(index as int, color)
                &&& next.limited() == self.limited().insert(ip, now)
                &&& next.wait() == self.wait()
            },
            Err(_) => *next == *self,
        }
    }

    /// A game on a board of the configured shape holding `tiles`, on which
    /// every address is free.
    pub open spec fn started_with(&self, config: GameConfig, tiles: Seq<u8>) -> bool {
        &&& self.wf()
        &&& self.board_width() == config.width
        &&& self.board_height() == config.height
        &&& self.tiles() == tiles
        &&& self.limited() == Map::<IpKey, u64>::empty()
        &&& self.wait() == config.tile_wait_time
    }

    /// A board of `width * height` tiles, all of `DEFAULT_COLOR`, on which
    /// every address is free.
    pub fn new(config: GameConfig) -> (g: Self)
        requires
            config.width * config.height <= u32::MAX,
        ensures
            g.started_with(config, blank_tiles(config)),
    {
        let n = config.width * config.height;
        let mut board: Vec<u8> = Vec::new();
        for i in 0..n
            invariant
                board@ == Seq::new(i as nat, |j: int| DEFAULT_COLOR),
        {
            board.push(DEFAULT_COLOR);
        }
        Game {
            width: config.width,
            height: config.height,
            board,
            rate_limiter: RateLimiterImpl::new(config.tile_wait_time),
        }
    }

    /// A game on a board saved earlier. The board must hold exactly
    /// `width * height` tiles, each a colour index no larger than
    /// `MAX_COLOR`.
    pub fn load(board: Vec<u8>, config: GameConfig) -> (r: Result<Game, LoadError>)
        requires
            config.width * config.height <= u32::MAX,
        ensures
            match r {
                Ok(g) => load_outcome(board@, config) == Ok::<(), LoadError>(()) && g.started_with(
                    config,
                    board@,
                ),
                Err(e) => load_outcome(board@, config) == Err::<(), LoadError>(e),
            },
    {
        let n = config.width * config.height;
        if board.len() != n as usize {
            return Err(LoadError::InvalidBoardSize);
        }
        let len = board.len();
        for i in 0..len
            invariant
                len == board@.len(),
                len == config.width * config.height,
                forall|j: int| 0 <= j < i ==> #[trigger] board@[j] <= MAX_COLOR,
        {
            if board[i] > MAX_COLOR {
                return Err(LoadError::InvalidBoardData);
            }
        }
        Ok(
            Game {
                width: config.width,
                height: config.height,
                board,
                rate_limiter: RateLimiterImpl::new(config.tile_wait_time),
            },
        )
    }

    pub fn get_width(&self) -> (w: u32)
        ensures
            w == self.board_width(),
    {
        self.width
    }

    pub fn get_height(&self) -> (h: u32)
        ensures
            h == self.board_height(),
    {
        self.height
    }

    /// A copy of the tiles, row after row.
    pub fn snapshot(&self) -> (s: Vec<u8>)
        ensures
            s@ == self.tiles(),
    {
        let n = self.board.len();
        let mut s: Vec<u8> = Vec::new();
        for i in 0..n
            invariant
                n == self.board@.len(),
                s@ == self.board@.take(i as int),
        {
            s.push(self.board[i]);
            assert(self.board@.take(i + 1) == self.board@.take(i as int).push(self.board@[i as int]));
        }
        assert(self.board@.take(n as int) == self.board@);
        s
    }

    /// The colour of tile `idx`, or `None` where the board has no such tile.
    pub fn get_tile_color(&self, idx: u32) -> (c: Option<u8>)
        ensures
            c == self.tile_color(idx),
    {
        if (idx as usize) < self.board.len() {
            Some(self.board[idx as usize])
        } else {
            None
        }
    }

    /// Paints tile `index` with `color` on behalf of `ip` at time `now`
    /// (milliseconds), and marks `ip` so that it waits before its next tile.
    pub fn set_tile(&mut self, ip: IpKey, index: u32, color: u8, now: u64) -> (r: Result<
        (),
        SetTileError,
    >)
        requires
            old(self).wf(),
        ensures
            final(self).wf(),
            r == old(self).set_tile_outcome(ip, index, color, now),
            old(self).set_tile_step(&*final(self), ip, index, color, now),
    {
        if !self.rate_limiter.is_free(&ip, now) {
            return Err(SetTileError::RateLimited);
        }
        if color > MAX_COLOR {
            return Err(SetTileError::InvalidColor);
        }
        if index >= self.width * self.height {
            return Err(SetTileError::OutOfBounds);
        }
        self.board.set(index as usize, color);
        self.rate_limiter.mark_as_limited(ip, now);
        Ok(())
    }

    /// Forgets the addresses whose waiting window has run out at `now`.
    pub fn collect_garbage(&mut self, now: u64)
        requires
            old(self).wf(),
        ensures
            final(self).wf(),
            final(self).board_width() == old(self).board_width(),
            final(self).board_height() == old(self).board_height(),
            final(self).tiles() == old(self).tiles(),
            final(self).wait() == old(self).wait(),
            final(self).limited() == without_expired(old(self).limited(), old(self).wait(), now),
            forall|ip: IpKey, t: u64|
                t >= now ==> #[trigger] final(self).ip_is_free(ip, t) == old(self).ip_is_free(
                    ip,
                    t,
                ),
    {
        self.rate_limiter.collect_garbage(now);
    }
}

/// After a tile is set, reading it gives the new colour, and every other
/// tile reads as it did before.
pub proof fn lemma_set_tile_then_read(
    before: Game,
    after: Game,
    ip: IpKey,
    index: u32,
    color: u8,
    now: u64,
    other: u32,
)
    requires
        before.wf(),
        before.set_tile_outcome(ip, index, color, now) is Ok,
        before.set_tile_step(&after, ip, index, color, now),
    ensures
        after.tile_color(index) == Some(color),
        other != index ==> after.tile_color(other) == before.tile_color(other),
{
}

/// After an address sets a tile at `now`, every further attempt of that
/// address before `now + wait` is refused as rate limited, attempts from
/// `now + wait` on are not, and no other address is affected.
pub proof fn lemma_set_tile_limits_address(
    before: Game,
    after: Game,
    ip: IpKey,
    index: u32,
    color: u8,
    now: u64,
    later: u64,
    next_index: u32,
    next_color: u8,
    other: IpKey,
)
    requires
        before.wf(),
        before.set_tile_outcome(ip, index, color, now) is Ok,
        before.set_tile_step(&after, ip, index, color, now),
    ensures
        now <= later < now + before.wait() ==> after.set_tile_outcome(
            ip,
            next_index,
            next_color,
            later,
        ) == Err::<(), SetTileError>(SetTileError::RateLimited),
        later >= now + before.wait() ==> after.ip_is_free(ip, later),
        other != ip ==> after.ip_is_free(other, later) == before.ip_is_free(other, later),
{
}

/// A refused tile leaves the game exactly as it was.
pub proof fn lemma_refused_set_tile_changes_nothing(
    before: Game,
    after: Game,
    ip: IpKey,
    index: u32,
    color: u8,
    now: u64,
)
    requires
        before.set_tile_outcome(ip, index, color, now) is Err,
        before.set_tile_step(&after, ip, index, color, now),
    ensures
        after == before,
{
}

/// A tile is accepted exactly when the address has no mark whose window
/// is still running, the colour is one of the 32 palette indices `0..=31`,
/// and the index lies on the board; a refusal names the first of these that
/// fails.
pub proof fn lemma_set_tile_accepts_exactly(
    game: Game,
    ip: IpKey,
    index: u32,
    color: u8,
    now: u64,
)
    ensures
        ({
            let free = !game.limited().contains_key(ip) || game.limited()[ip] + game.wait() <= now;
            &&& game.set_tile_outcome(ip, index, color, now) is Ok <==> (free && color <= 31
                && index < game.board_width() * game.board_height())
            &&& !free ==> game.set_tile_outcome(ip, index, color, now) == Err::<(), SetTileError>(
                SetTileError::RateLimited,
            )
            &&& free && color > 31 ==> game.set_tile_outcome(ip, index, color, now) == Err::<
                (),
                SetTileError,
            >(SetTileError::InvalidColor)
            &&& free && color <= 31 && index >= game.board_width() * game.board_height()
                ==> game.set_tile_outcome(ip, index, color, now) == Err::<(), SetTileError>(
                SetTileError::OutOfBounds,
            )
        }),
{
}

/// An accepted tile paints exactly that tile with the requested colour,
/// marks the address at `now`, and keeps the board's shape and the wait.
pub proof fn lemma_set_tile_paints(
    before: Game,
    after: Game,
    ip: IpKey,
    index: u32,
    color: u8,
    now: u64,
)
    requires
        before.wf(),
        before.set_tile_outcome(ip, index, color, now) is Ok,
        before.set_tile_step(&after, ip, index, color, now),
    ensures
        after.tiles().len() == before.tiles().len(),
        after.tiles()[index as int] == color,
        forall|i: int|
            0 <= i < before.tiles().len() && i != index ==> after.tiles()[i] == before.tiles()[i],
        after.limited().contains_key(ip) && after.limited()[ip] == now,
        forall|k: IpKey|
            k != ip ==> (after.limited().contains_key(k) == before.limited().contains_key(k)) && (
            after.limited().contains_key(k) ==> after.limited()[k] == before.limited()[k]),
        after.board_width() == before.board_width(),
        after.board_height() == before.board_height(),
        after.wait() == before.wait(),
{
}

/// A saved board is loaded exactly when it holds `width * height` tiles,
/// each a palette index `0..=31`; the size is checked first.
pub proof fn lemma_load_accepts_exactly(board: Seq<u8>, config: GameConfig)
    ensures
        load_outcome(board, config) is Ok <==> (board.len() == config.width * config.height
            && forall|i: int| 0 <= i < board.len() ==> board[i] <= 31),
        board.len() != config.width * config.height ==> load_outcome(board, config) == Err::<
            (),
            LoadError,
        >(LoadError::InvalidBoardSize),
        board.len() == config.width * config.height && (exists|i: int|
            0 <= i < board.len() && board[i] > 31) ==> load_outcome(board, config) == Err::<
            (),
            LoadError,
        >(LoadError::InvalidBoardData),
{
}

/// A game started with `tiles` holds exactly those tiles, on the configured
/// shape, with every address free and the configured wait; a blank board is
/// `width * height` tiles of colour 31.
pub proof fn lemma_started_with(game: Game, config: GameConfig, tiles: Seq<u8>)
    requires
        game.started_with(config, tiles),
    ensures
        game.tiles() == tiles,
        game.board_width() == config.width,
        game.board_height() == config.height,
        forall|ip: IpKey| !#[trigger] game.limited().contains_key(ip),
        game.wait() == config.tile_wait_time,
        forall|i: int| 0 <= i < game.tiles().len() ==> game.tiles()[i] <= 31,
        tiles == blank_tiles(config) ==> game.tiles().len() == config.width * config.height
            && forall|i: int| 0 <= i < game.tiles().len() ==> game.tiles()[i] == 31,
{
}

/// Reading a tile gives its colour when the tile lies on the board, and
/// nothing otherwise.
pub proof fn lemma_tile_color(game: Game, idx: u32)
    ensures
        idx < game.tiles().len() ==> game.tile_color(idx) == Some(game.tiles()[idx as int]),
        idx >= game.tiles().len() ==> game.tile_color(idx) is None,
{
}

} // verus!
