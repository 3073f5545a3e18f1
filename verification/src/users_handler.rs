//! A second way of handling a player's messages, over the `dtos` protocol:
//! errors other than a rate limit are handed back to the caller.
use crate::dtos;
use crate::game::{Game, SetTileError};
use crate::messages::chat_manager::{ChatError, ChatManager, SendMessageInput};
use crate::messages::message_censor::MessageCensorer;
use crate::text::trimmed;
use crate::rate_limiter::IpKey;
use vstd::prelude::*;

verus! {

/// Why a player's message was not carried out.
#[derive(Debug, Clone, Copy, PartialEq, Eq, Structural)]
pub enum UserHandlerError {
    Chat(ChatError),
    SetTile(SetTileError),
}

/// What is to be sent after a player's message: to every player, and back
/// to that player alone.
#[derive(Debug, Clone, PartialEq, Eq)]
pub struct UserHandlerOutput {
    pub broadcast: Option<dtos::ServerMessage>,
    pub reply: Option<dtos::ServerMessage>,
}

/// What `handle_set_tile` answers for a tile of `input` from `ip` at `now`.
pub open spec fn set_tile_response(game: Game, ip: IpKey, input: dtos::PlaceTileInput, now: u64) -> Result<
    UserHandlerOutput,
    UserHandlerError,
> {
    match game.set_tile_outcome(ip, input.idx, input.tile, now) {
        Ok(()) => Ok(
            UserHandlerOutput {
                broadcast: Some(dtos::ServerMessage::TilePlaced(input.idx, input.tile)),
                reply: None,
            },
        ),
        Err(SetTileError::RateLimited) => Ok(
            UserHandlerOutput {
                broadcast: None,
                reply: match game.tile_color(input.idx) {
                    Some(c) => Some(dtos::ServerMessage::TilePlaced(input.idx, c)),
                    None => None,
                },
            },
        ),
        Err(e) => Err(UserHandlerError::SetTile(e)),
    }
}

/// What a chat message of `input`, whose censored text is `c`, gives: the
/// announcement of the accepted message, or the chat's reason for refusing
/// it, with the chat changed as `ChatManager::answers` says.
pub open spec fn chat_response<C: MessageCensorer>(
    before: ChatManager<C>,
    after: ChatManager<C>,
    c: Seq<char>,
    input: dtos::RPCSendMessageInput,
    ip: IpKey,
    now: u64,
    r: Result<UserHandlerOutput, UserHandlerError>,
) -> bool {
    match r {
        Ok(out) => {
            &&& out.reply == None::<dtos::ServerMessage>
            &&& out.broadcast matches Some(
                dtos::ServerMessage::NewMessage { id, reply_to, text, channel, sender_name },
            )
            &&& before.message_outcome(c, ip, now) == Ok::<(), ChatError>(())
            &&& text@ == c
            &&& id == before.next_id()
            &&& reply_to == None::<u64>
            &&& channel@ == input.channel@
            &&& sender_name@ == input.sender_name@
            &&& before.accept_step(&after, ip, now)
            &&& after.censorer() == before.censorer()
        },
        Err(UserHandlerError::Chat(e)) => {
            &&& before.message_outcome(c, ip, now) == Err::<(), ChatError>(e)
            &&& after == before
        },
        Err(UserHandlerError::SetTile(_)) => false,
    }
}

/// Handles the messages of one connected player, known by its address.
pub struct UserHandler {
    ip: IpKey,
}

impl UserHandler {
    /// The address of the player.
    pub closed spec fn ip(&self) -> IpKey {
        self.ip
    }

    pub fn new(ip: IpKey) -> (h: Self)
        ensures
            h.ip() == ip,
    {
        UserHandler { ip }
    }

    /// Passes a chat message to the chat under the player's address and
    /// `sender_name`; an accepted message is to be announced to everyone.
    pub fn handle_send_message<C: MessageCensorer>(
        &self,
        chat: &mut ChatManager<C>,
        input: dtos::RPCSendMessageInput,
        now: u64,
    ) -> (r: Result<UserHandlerOutput, UserHandlerError>)
        ensures
            r matches Ok(out) ==> (out.broadcast matches Some(
                dtos::ServerMessage::NewMessage { channel, sender_name, .. },
            ) && channel@ == input.channel@ && sender_name@ == input.sender_name@),
            exists|c: Seq<char>|
                #[trigger] old(chat).censorer().censors(trimmed(input.text@), c) && chat_response(
                    *old(chat),
                    *final(chat),
                    c,
                    input,
                    self.ip(),
                    now,
                    r,
                ),
    {
        let ghost input0 = input;
        let message = SendMessageInput {
            reply_to: input.reply_to,
            text: input.text,
            sender_ip: self.ip,
            sender_id: input.sender_name,
        };
        let answer = chat.handle_message(message, now);
        let ghost c = choose|c: Seq<char>|
            #[trigger] old(chat).censorer().censors(trimmed(input0.text@), c) && old(chat).answers(
                &*chat,
                c,
                input0.sender_name@,
                self.ip,
                now,
                answer,
            );
        let r = match answer {
            Ok(sent) => {
                let message = dtos::ServerMessage::NewMessage {
                    channel: input.channel,
                    text: sent.text,
                    sender_name: sent.sender_id,
                    reply_to: sent.reply_to,
                    id: sent.id,
                };
                Ok(UserHandlerOutput { broadcast: Some(message), reply: None })
            },
            Err(e) => Err(UserHandlerError::Chat(e)),
        };
        assert(chat_response(*old(chat), *chat, c, input0, self.ip, now, r));
        r
    }

    /// Sets a tile. A placed tile is to be announced to everyone; a tile
    /// refused for the rate limit is answered, to the player alone, with the
    /// tile's current colour, where the board has such a tile; any other
    /// refusal is handed back.
    pub fn handle_set_tile(&self, game: &mut Game, input: dtos::PlaceTileInput, now: u64) -> (r:
        Result<UserHandlerOutput, UserHandlerError>)
        requires
            old(game).wf(),
        ensures
            final(game).wf(),
            old(game).set_tile_step(&*final(game), self.ip(), input.idx, input.tile, now),
            r == set_tile_response(*old(game), self.ip(), input, now),
    {
        match game.set_tile(self.ip, input.idx, input.tile, now) {
            Ok(()) => Ok(
                UserHandlerOutput {
                    broadcast: Some(dtos::ServerMessage::TilePlaced(input.idx, input.tile)),
                    reply: None,
                },
            ),
            Err(SetTileError::RateLimited) => {
                let reply = match game.get_tile_color(input.idx) {
                    Some(c) => Some(dtos::ServerMessage::TilePlaced(input.idx, c)),
                    None => None,
                };
                Ok(UserHandlerOutput { broadcast: None, reply })
            },
            Err(e) => Err(UserHandlerError::SetTile(e)),
        }
    }

    /// Dispatches one message of the player to `handle_send_message` or
    /// `handle_set_tile`.
    pub fn handle_incoming<C: MessageCensorer>(
        &self,
        game: &mut Game,
        chat: &mut ChatManager<C>,
        msg: dtos::RPCClientMessage,
        now: u64,
    ) -> (r: Result<UserHandlerOutput, UserHandlerError>)
        requires
            old(game).wf(),
        ensures
            final(game).wf(),
            match msg {
                dtos::RPCClientMessage::SendMessage(input) => {
                    &&& *final(game) == *old(game)
                    &&& exists|c: Seq<char>|
                        #[trigger] old(chat).censorer().censors(trimmed(input.text@), c)
                            && chat_response(*old(chat), *final(chat), c, input, self.ip(), now, r)
                },
                dtos::RPCClientMessage::PlaceTile(input) => {
                    &&& *final(chat) == *old(chat)
                    &&& old(game).set_tile_step(&*final(game), self.ip(), input.idx, input.tile, now)
                    &&& r == set_tile_response(*old(game), self.ip(), input, now)
                },
            },
    {
        match msg {
            dtos::RPCClientMessage::SendMessage(input) => self.handle_send_message(chat, input, now),
            dtos::RPCClientMessage::PlaceTile(input) => self.handle_set_tile(game, input, now),
        }
    }
}

/// A tile from a free address with a valid colour and index is announced to
/// everyone; a tile refused for the rate limit is answered, to the player
/// alone, with the current colour of that tile, whatever the colour, when
/// the tile lies on the board, and with nothing when it does not; a tile
/// refused for its colour or index is handed back as that error.
pub proof fn lemma_set_tile_response(game: Game, ip: IpKey, input: dtos::PlaceTileInput, now: u64)
    requires
        game.wf(),
    ensures
        ({
            let free = !game.limited().contains_key(ip) || game.limited()[ip] + game.wait() <= now;
            let on_board = (input.idx as int) < game.board_width() * game.board_height();
            &&& free && input.tile <= 31 && on_board ==> set_tile_response(game, ip, input, now)
                == Ok::<UserHandlerOutput, UserHandlerError>(
                UserHandlerOutput {
                    broadcast: Some(dtos::ServerMessage::TilePlaced(input.idx, input.tile)),
                    reply: None,
                },
            )
            &&& !free && on_board ==> set_tile_response(game, ip, input, now) == Ok::<
                UserHandlerOutput,
                UserHandlerError,
            >(
                UserHandlerOutput {
                    broadcast: None,
                    reply: Some(
                        dtos::ServerMessage::TilePlaced(input.idx, game.tiles()[input.idx as int]),
                    ),
                },
            )
            &&& !free && !on_board ==> set_tile_response(game, ip, input, now) == Ok::<
                UserHandlerOutput,
                UserHandlerError,
            >(UserHandlerOutput { broadcast: None, reply: None })
            &&& free && input.tile > 31 ==> set_tile_response(game, ip, input, now) == Err::<
                UserHandlerOutput,
                UserHandlerError,
            >(UserHandlerError::SetTile(SetTileError::InvalidColor))
            &&& free && input.tile <= 31 && !on_board ==> set_tile_response(game, ip, input, now)
                == Err::<UserHandlerOutput, UserHandlerError>(
                UserHandlerError::SetTile(SetTileError::OutOfBounds),
            )
        }),
{
}

/// An accepted chat message is announced to everyone, carrying the censored
/// text, the channel and sender name the player gave, the chat's next number
/// and no reply-to, and the chat moves on; a refused one hands back the
/// chat's reason and leaves the chat as it was.
pub proof fn lemma_chat_response<C: MessageCensorer>(
    before: ChatManager<C>,
    after: ChatManager<C>,
    c: Seq<char>,
    input: dtos::RPCSendMessageInput,
    ip: IpKey,
    now: u64,
    r: Result<UserHandlerOutput, UserHandlerError>,
)
    requires
        chat_response(before, after, c, input, ip, now, r),
    ensures
        r matches Ok(out) ==> {
            &&& out.reply is None
            &&& out.broadcast matches Some(
                dtos::ServerMessage::NewMessage { id, reply_to, text, channel, sender_name },
            )
            &&& text@ == c
            &&& channel@ == input.channel@
            &&& sender_name@ == input.sender_name@
            &&& id == before.next_id()
            &&& reply_to is None
            &&& after.next_id() == (if before.next_id() == u64::MAX {
                0
            } else {
                (before.next_id() + 1) as u64
            })
            &&& after.limited() == before.limited().insert(ip, now)
        },
        r matches Err(e) ==> e is Chat && after == before,
        r matches Err(UserHandlerError::Chat(ChatError::RateLimited)) ==> before.limited().contains_key(ip)
            && before.limited()[ip] + before.wait() > now,
{
}

} // verus!
