//! What the server does with each message of a connected player: it changes
//! the game or the chat, and says what is to be sent to all players and what
//! back to the sender alone. The sending itself is left to the caller.
use crate::game::{Game, SetTileError};
use crate::messages::chat_manager::{ChatError, ChatManager, SendMessageInput};
use crate::messages::message_censor::MessageCensorer;
use crate::text::trimmed;
use crate::rpc::rpc_types::{
    PlaceTileInput, RPCClientMessage, RPCSendMessageError, RPCSendMessageInput, RPCServerMessage,
    RPCSetTileError,
};
use crate::rate_limiter::IpKey;
use vstd::prelude::*;

verus! {

/// What is to be sent after a player's message: to every player, and back
/// to that player alone.
#[derive(Debug, Clone, PartialEq, Eq)]
pub struct HandlerOutput {
    pub broadcast: Option<RPCServerMessage>,
    pub reply: Option<RPCServerMessage>,
}

/// What a chat message of `input`, whose censored text is `c`, gives: the
/// announcement of the accepted message, or the chat's reason for refusing
/// it, with the chat changed as `ChatManager::answers` says.
pub open spec fn chat_answer<C: MessageCensorer>(
    before: ChatManager<C>,
    after: ChatManager<C>,
    c: Seq<char>,
    input: RPCSendMessageInput,
    ip: IpKey,
    now: u64,
    r: Result<RPCServerMessage, RPCSendMessageError>,
) -> bool {
    match r {
        Ok(RPCServerMessage::NewMessage { id, reply_to, text, channel, sender_name }) => {
            &&& before.message_outcome(c, ip, now) == Ok::<(), ChatError>(())
            &&& text@ == c
            &&& id == before.next_id()
            &&& reply_to == None::<u64>
            &&& channel@ == input.channel@
            &&& sender_name@ == input.sender_name@
            &&& before.accept_step(&after, ip, now)
            &&& after.censorer() == before.censorer()
        },
        Ok(_) => false,
        Err(RPCSendMessageError(e)) => {
            &&& before.message_outcome(c, ip, now) == Err::<(), ChatError>(e)
            &&& after == before
        },
    }
}

/// What `handle_set_tile` answers for a tile of `input` from `ip` at `now`.
pub open spec fn set_tile_answer(game: Game, ip: IpKey, input: PlaceTileInput, now: u64) -> Result<
    Option<RPCServerMessage>,
    RPCSetTileError,
> {
    if game.tile_color(input.idx) == Some(input.tile) {
        Ok(None)
    } else {
        match game.set_tile_outcome(ip, input.idx, input.tile, now) {
            Ok(()) => Ok(Some(RPCServerMessage::TilePlaced(input.idx, input.tile))),
            Err(e) => Err(RPCSetTileError(e)),
        }
    }
}

/// What `handle_client_message` sends for a tile of `input` from `ip` at
/// `now`.
pub open spec fn place_tile_output(game: Game, ip: IpKey, input: PlaceTileInput, now: u64) -> HandlerOutput {
    match set_tile_answer(game, ip, input, now) {
        Ok(broadcast) => HandlerOutput { broadcast, reply: None },
        Err(_) => HandlerOutput {
            broadcast: None,
            reply: match game.tile_color(input.idx) {
                Some(c) => Some(RPCServerMessage::TilePlaced(input.idx, c)),
                None => None,
            },
        },
    }
}

/// Handles the messages of one connected player, known by its address.
pub struct RPCHandler {
    ip: IpKey,
}

impl RPCHandler {
    /// The address of the player.
    pub closed spec fn ip(&self) -> IpKey {
        self.ip
    }

    pub fn new(ip: IpKey) -> (h: Self)
        ensures
            h.ip() == ip,
    {
        RPCHandler { ip }
    }

    /// A tile that already has the requested colour is left alone and
    /// nothing is announced; otherwise the tile is set, and on success the
    /// new tile is to be announced to everyone.
    pub fn handle_set_tile(&self, game: &mut Game, input: &PlaceTileInput, now: u64) -> (r: Result<
        Option<RPCServerMessage>,
        RPCSetTileError,
    >)
        requires
            old(game).wf(),
        ensures
            final(game).wf(),
            old(game).tile_color(input.idx) == Some(input.tile) ==> {
                &&& r == Ok::<Option<RPCServerMessage>, RPCSetTileError>(None)
                &&& *final(game) == *old(game)
            },
            old(game).tile_color(input.idx) != Some(input.tile) ==> {
                &&& old(game).set_tile_step(&*final(game), self.ip(), input.idx, input.tile, now)
                &&& match old(game).set_tile_outcome(self.ip(), input.idx, input.tile, now) {
                    Ok(()) => r == Ok::<Option<RPCServerMessage>, RPCSetTileError>(
                        Some(RPCServerMessage::TilePlaced(input.idx, input.tile)),
                    ),
                    Err(e) => r == Err::<Option<RPCServerMessage>, RPCSetTileError>(
                        RPCSetTileError(e),
                    ),
                }
            },
            r == set_tile_answer(*old(game), self.ip(), *input, now),
    {
        let current_color = game.get_tile_color(input.idx);
        if let Some(current_color) = current_color {
            if current_color == input.tile {
                return Ok(None);
            }
        }
        match game.set_tile(self.ip, input.idx, input.tile, now) {
            Ok(()) => Ok(Some(RPCServerMessage::TilePlaced(input.idx, input.tile))),
            Err(e) => Err(RPCSetTileError(e)),
        }
    }

    /// Passes a chat message to the chat under the player's address and
    /// `sender_name`; an accepted message is to be announced to everyone in
    /// `channel`.
    pub fn handle_send_message<C: MessageCensorer>(
        &self,
        chat: &mut ChatManager<C>,
        input: RPCSendMessageInput,
        now: u64,
    ) -> (r: Result<RPCServerMessage, RPCSendMessageError>)
        ensures
            r matches Ok(RPCServerMessage::NewMessage { channel, sender_name, .. }) ==> channel@
                == input.channel@ && sender_name@ == input.sender_name@,
            exists|c: Seq<char>|
                #[trigger] old(chat).censorer().censors(trimmed(input.text@), c) && chat_answer(
                    *old(chat),
                    *final(chat),
                    c,
                    input,
                    self.ip(),
                    now,
                    r,
                ),
    {
        let ghost input0 = input;
        let message = SendMessageInput {
            reply_to: input.reply_to,
            text: input.text,
            sender_ip: self.ip,
            sender_id: input.sender_name,
        };
        let answer = chat.handle_message(message, now);
        let ghost c = choose|c: Seq<char>|
            #[trigger] old(chat).censorer().censors(trimmed(input0.text@), c) && old(chat).answers(
                &*chat,
                c,
                input0.sender_name@,
                self.ip,
                now,
                answer,
            );
        let r = match answer {
            Ok(sent) => Ok(
                RPCServerMessage::NewMessage {
                    channel: input.channel,
                    text: sent.text,
                    sender_name: sent.sender_id,
                    reply_to: sent.reply_to,
                    id: sent.id,
                },
            ),
            Err(e) => Err(RPCSendMessageError(e)),
        };
        assert(chat_answer(*old(chat), *chat, c, input0, self.ip, now, r));
        r
    }

    /// One message of the player: a chat message is announced to everyone if
    /// the chat accepts it and dropped otherwise; a tile is set as
    /// `handle_set_tile` does, and when it is refused the player is told the
    /// tile's current colour, where the board has such a tile.
    pub fn handle_client_message<C: MessageCensorer>(
        &self,
        game: &mut Game,
        chat: &mut ChatManager<C>,
        message: RPCClientMessage,
        now: u64,
    ) -> (out: HandlerOutput)
        requires
            old(game).wf(),
        ensures
            final(game).wf(),
            match message {
                RPCClientMessage::SendMessage(input) => {
                    &&& *final(game) == *old(game)
                    &&& out.reply == None::<RPCServerMessage>
                    &&& out.broadcast matches Some(RPCServerMessage::NewMessage { channel, sender_name, .. })
                        ==> channel@ == input.channel@ && sender_name@ == input.sender_name@
                    &&& exists|c: Seq<char>|
                        #[trigger] old(chat).censorer().censors(trimmed(input.text@), c) && match out.broadcast {
                            Some(m) => chat_answer(
                                *old(chat),
                                *final(chat),
                                c,
                                input,
                                self.ip(),
                                now,
                                Ok(m),
                            ),
                            None => {
                                &&& old(chat).message_outcome(c, self.ip(), now) is Err
                                &&& *final(chat) == *old(chat)
                            },
                        }
                },
                RPCClientMessage::PlaceTile(input) => {
                    &&& *final(chat) == *old(chat)
                    &&& out == place_tile_output(*old(game), self.ip(), input, now)
                    &&& if old(game).tile_color(input.idx) == Some(input.tile) {
                        &&& *final(game) == *old(game)
                        &&& out == HandlerOutput { broadcast: None, reply: None }
                    } else {
                        &&& old(game).set_tile_step(
                            &*final(game),
                            self.ip(),
                            input.idx,
                            input.tile,
                            now,
                        )
                        &&& match old(game).set_tile_outcome(
                            self.ip(),
                            input.idx,
                            input.tile,
                            now,
                        ) {
                            Ok(()) => out == HandlerOutput {
                                broadcast: Some(RPCServerMessage::TilePlaced(input.idx, input.tile)),
                                reply: None,
                            },
                            Err(_) => out == HandlerOutput {
                                broadcast: None,
                                reply: match old(game).tile_color(input.idx) {
                                    Some(c) => Some(RPCServerMessage::TilePlaced(input.idx, c)),
                                    None => None,
                                },
                            },
                        }
                    }
                },
            },
    {
        match message {
            RPCClientMessage::SendMessage(input) => {
                match self.handle_send_message(chat, input, now) {
                    Ok(m) => HandlerOutput { broadcast: Some(m), reply: None },
                    Err(_) => HandlerOutput { broadcast: None, reply: None },
                }
            },
            RPCClientMessage::PlaceTile(input) => {
                match self.handle_set_tile(game, &input, now) {
                    Ok(broadcast) => HandlerOutput { broadcast, reply: None },
                    Err(_) => {
                        let reply = match game.get_tile_color(input.idx) {
                            Some(c) => Some(RPCServerMessage::TilePlaced(input.idx, c)),
                            None => None,
                        };
                        HandlerOutput { broadcast: None, reply }
                    },
                }
            },
        }
    }
}

/// A tile that already has the requested colour is a no-op; otherwise a tile
/// from a free address with a colour `0..=31` and an index on the board is
/// announced to everyone; any other tile is refused with the reason, and the
/// player is told the tile's current colour, whatever it is, when the tile
/// lies on the board.
pub proof fn lemma_place_tile(game: Game, ip: IpKey, input: PlaceTileInput, now: u64)
    requires
        game.wf(),
    ensures
        ({
            let free = !game.limited().contains_key(ip) || game.limited()[ip] + game.wait() <= now;
            let on_board = (input.idx as int) < game.board_width() * game.board_height();
            let same = on_board && game.tiles()[input.idx as int] == input.tile;
            &&& same ==> set_tile_answer(game, ip, input, now) == Ok::<
                Option<RPCServerMessage>,
                RPCSetTileError,
            >(None) && place_tile_output(game, ip, input, now) == HandlerOutput {
                broadcast: None,
                reply: None,
            }
            &&& !same && free && input.tile <= 31 && on_board ==> set_tile_answer(
                game,
                ip,
                input,
                now,
            ) == Ok::<Option<RPCServerMessage>, RPCSetTileError>(
                Some(RPCServerMessage::TilePlaced(input.idx, input.tile)),
            ) && place_tile_output(game, ip, input, now) == HandlerOutput {
                broadcast: Some(RPCServerMessage::TilePlaced(input.idx, input.tile)),
                reply: None,
            }
            &&& !same && !free ==> set_tile_answer(game, ip, input, now) == Err::<
                Option<RPCServerMessage>,
                RPCSetTileError,
            >(RPCSetTileError(SetTileError::RateLimited))
            &&& !same && free && input.tile > 31 ==> set_tile_answer(game, ip, input, now) == Err::<
                Option<RPCServerMessage>,
                RPCSetTileError,
            >(RPCSetTileError(SetTileError::InvalidColor))
            &&& free && input.tile <= 31 && !on_board ==> set_tile_answer(game, ip, input, now)
                == Err::<Option<RPCServerMessage>, RPCSetTileError>(
                RPCSetTileError(SetTileError::OutOfBounds),
            )
            &&& !same && !(free && input.tile <= 31 && on_board) ==> place_tile_output(
                game,
                ip,
                input,
                now,
            ) == HandlerOutput {
                broadcast: None,
                reply: if on_board {
                    Some(RPCServerMessage::TilePlaced(input.idx, game.tiles()[input.idx as int]))
                } else {
                    None
                },
            }
        }),
{
}

/// An accepted chat message is announced with the censored text, the
/// channel and sender name the player gave, the chat's next number and no
/// reply-to, and the chat moves on; a refused one hands back the chat's
/// reason and leaves the chat as it was.
pub proof fn lemma_chat_answer<C: MessageCensorer>(
    before: ChatManager<C>,
    after: ChatManager<C>,
    c: Seq<char>,
    input: RPCSendMessageInput,
    ip: IpKey,
    now: u64,
    r: Result<RPCServerMessage, RPCSendMessageError>,
)
    requires
        chat_answer(before, after, c, input, ip, now, r),
    ensures
        r matches Ok(m) ==> {
            &&& m matches RPCServerMessage::NewMessage { id, reply_to, text, channel, sender_name }
            &&& text@ == c
            &&& channel@ == input.channel@
            &&& sender_name@ == input.sender_name@
            &&& id == before.next_id()
            &&& reply_to is None
            &&& after.next_id() == (if before.next_id() == u64::MAX {
                0
            } else {
                (before.next_id() + 1) as u64
            })
            &&& after.limited() == before.limited().insert(ip, now)
        },
        r is Err ==> after == before,
        r matches Err(RPCSendMessageError(ChatError::RateLimited)) ==> before.limited().contains_key(ip)
            && before.limited()[ip] + before.wait() > now,
{
}

} // verus!
