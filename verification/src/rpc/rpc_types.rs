//! The messages exchanged with a connected player.
use crate::game::SetTileError;
use crate::messages::chat_manager::ChatError;
use vstd::prelude::*;

verus! {

/// What the server sends to players.
#[derive(Debug, Clone, PartialEq, Eq)]
pub enum RPCServerMessage {
    NewMessage {
        id: u64,
        reply_to: Option<u64>,
        text: String,
        channel: String,
        sender_name: String,
    },
    UpdateUserCount(u32),
    TilePlaced(u32, u8),
}

#[derive(Debug, Clone, PartialEq, Eq)]
pub struct RPCSendMessageInput {
    pub text: String,
    pub reply_to: Option<u64>,
    pub channel: String,
    pub sender_name: String,
}

/// What a player sends to the server.
#[derive(Debug, Clone, PartialEq, Eq)]
pub enum RPCClientMessage {
    SendMessage(RPCSendMessageInput),
    PlaceTile(PlaceTileInput),
}

#[derive(Debug, Clone, Copy, PartialEq, Eq, Structural)]
pub struct PlaceTileInput {
    pub idx: u32,
    pub tile: u8,
}

/// A refused tile, as it is reported to the player.
#[derive(Debug, Clone, Copy, PartialEq, Eq, Structural)]
pub struct RPCSetTileError(pub SetTileError);

impl From<SetTileError> for RPCSetTileError {
    fn from(e: SetTileError) -> (r: Self) {
        RPCSetTileError(e)
    }
}

impl vstd::std_specs::convert::FromSpecImpl<SetTileError> for RPCSetTileError {
    open spec fn obeys_from_spec() -> bool {
        true
    }

    open spec fn from_spec(e: SetTileError) -> Self {
        RPCSetTileError(e)
    }
}

/// The name under which a refused tile is reported.
pub open spec fn set_tile_error_name(e: SetTileError) -> Seq<char> {
    match e {
        SetTileError::OutOfBounds => "OutOfBounds"@,
        SetTileError::InvalidColor => "InvalidColor"@,
        SetTileError::RateLimited => "RateLimited"@,
    }
}

impl RPCSetTileError {
    /// The error inside.
    pub fn error(&self) -> (e: SetTileError)
        ensures
            e == self.0,
    {
        self.0
    }

    /// The name under which the error is shown and serialised.
    pub fn to_string(&self) -> (s: String)
        ensures
            s@ == set_tile_error_name(self.0),
    {
        match self.0 {
            SetTileError::OutOfBounds => "OutOfBounds".to_string(),
            SetTileError::InvalidColor => "InvalidColor".to_string(),
            SetTileError::RateLimited => "RateLimited".to_string(),
        }
    }
}

/// A refused chat message, as it is reported to the player.
#[derive(Debug, Clone, Copy, PartialEq, Eq, Structural)]
pub struct RPCSendMessageError(pub ChatError);

impl From<ChatError> for RPCSendMessageError {
    fn from(e: ChatError) -> (r: Self) {
        RPCSendMessageError(e)
    }
}

impl vstd::std_specs::convert::FromSpecImpl<ChatError> for RPCSendMessageError {
    open spec fn obeys_from_spec() -> bool {
        true
    }

    open spec fn from_spec(e: ChatError) -> Self {
        RPCSendMessageError(e)
    }
}

/// The name under which a refused chat message is reported.
pub open spec fn chat_error_name(e: ChatError) -> Seq<char> {
    match e {
        ChatError::RateLimited => "RateLimited"@,
        ChatError::InvalidMessageLength => "InvalidMessageLength"@,
    }
}

impl RPCSendMessageError {
    /// The error inside.
    pub fn error(&self) -> (e: ChatError)
        ensures
            e == self.0,
    {
        self.0
    }

    /// The name under which the error is shown and serialised.
    pub fn to_string(&self) -> (s: String)
        ensures
            s@ == chat_error_name(self.0),
    {
        match self.0 {
            ChatError::RateLimited => "RateLimited".to_string(),
            ChatError::InvalidMessageLength => "InvalidMessageLength".to_string(),
        }
    }
}

} // verus!
