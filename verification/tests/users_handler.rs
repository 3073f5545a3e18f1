use backend::dtos::{PlaceTileInput, RPCClientMessage, RPCSendMessageInput, ServerMessage};
use backend::game::{Game, GameConfig, SetTileError};
use backend::messages::chat_manager::{ChatError, ChatManager, ChatManagerConfig};
use backend::messages::message_censor_impl::MessageCensorerImpl;
use backend::rate_limiter::IpKey;
use backend::users_handler::{UserHandler, UserHandlerError, UserHandlerOutput};

const IP: IpKey = IpKey::V4(42);
const IP2: IpKey = IpKey::V4(43);
const NOW: u64 = 10_000;

fn game() -> Game {
    Game::new(GameConfig { width: 4, height: 4, tile_wait_time: 500 })
}

fn chat() -> ChatManager<MessageCensorerImpl> {
    ChatManager::new(ChatManagerConfig { max_message_length: 8, rate_limit_timeout_ms: 500 }, MessageCensorerImpl {})
}

#[test]
fn user_handler_places_tiles() {
    let (mut g, mut c) = (game(), chat());
    let h = UserHandler::new(IP);
    let r = h.handle_incoming(&mut g, &mut c, RPCClientMessage::PlaceTile(PlaceTileInput { idx: 3, tile: 9 }), NOW);
    assert_eq!(r, Ok(UserHandlerOutput { broadcast: Some(ServerMessage::TilePlaced(3, 9)), reply: None }));
    let r = h.handle_incoming(&mut g, &mut c, RPCClientMessage::PlaceTile(PlaceTileInput { idx: 3, tile: 1 }), NOW + 1);
    assert_eq!(r, Ok(UserHandlerOutput { broadcast: None, reply: Some(ServerMessage::TilePlaced(3, 9)) }));
    let r = UserHandler::new(IP2).handle_incoming(&mut g, &mut c, RPCClientMessage::PlaceTile(PlaceTileInput { idx: 16, tile: 1 }), NOW);
    assert_eq!(r, Err(UserHandlerError::SetTile(SetTileError::OutOfBounds)));
    let r = UserHandler::new(IP2).handle_set_tile(&mut g, PlaceTileInput { idx: 0, tile: 40 }, NOW);
    assert_eq!(r, Err(UserHandlerError::SetTile(SetTileError::InvalidColor)));
}

#[test]
fn user_handler_sends_messages() {
    let (mut g, mut c) = (game(), chat());
    let h = UserHandler::new(IP);
    let input = RPCSendMessageInput { text: " yo ".to_string(), reply_to: None, channel: "c".to_string(), sender_name: "bob".to_string() };
    let r = h.handle_incoming(&mut g, &mut c, RPCClientMessage::SendMessage(input.clone()), NOW);
    assert_eq!(
        r,
        Ok(UserHandlerOutput {
            broadcast: Some(ServerMessage::NewMessage { id: 0, reply_to: None, text: "yo".to_string(), channel: "c".to_string(), sender_name: "bob".to_string() }),
            reply: None,
        })
    );
    let r = h.handle_send_message(&mut c, input, NOW + 1);
    assert_eq!(r, Err(UserHandlerError::Chat(ChatError::RateLimited)));
    let long = RPCSendMessageInput { text: "123456789".to_string(), reply_to: None, channel: "c".to_string(), sender_name: "bob".to_string() };
    let r = UserHandler::new(IpKey::V6(7)).handle_send_message(&mut c, long, NOW);
    assert_eq!(r, Err(UserHandlerError::Chat(ChatError::InvalidMessageLength)));
}
