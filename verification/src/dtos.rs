//! The messages of the websocket protocol, in the form that `UserHandler`
//! speaks.
use vstd::prelude::*;

verus! {

/// What the server sends to players.
#[derive(Debug, Clone, PartialEq, Eq)]
pub enum ServerMessage {
    NewMessage {
        id: u64,
        reply_to: Option<u64>,
        text: String,
        channel: String,
        sender_name: String,
    },
    UpdateUserCount(u32),
    TilePlaced(u32, u8),
    TilesPlaced(Vec<(u32, u8)>),
}

#[derive(Debug, Clone, PartialEq, Eq)]
pub struct RPCSendMessageInput {
    pub text: String,
    pub reply_to: Option<u64>,
    pub channel: String,
    pub sender_name: String,
}

/// What a player sends to the server.
#[derive(Debug, Clone, PartialEq, Eq)]
pub enum RPCClientMessage {
    SendMessage(RPCSendMessageInput),
    PlaceTile(PlaceTileInput),
}

#[derive(Debug, Clone, Copy, PartialEq, Eq, Structural)]
pub struct PlaceTileInput {
    pub idx: u32,
    pub tile: u8,
}

} // verus!
