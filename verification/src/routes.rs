//! The decisions of the REST surface that bootstraps a realtime session: create
//! a room, validate a join code.

use vstd::prelude::*;

use crate::error::{AppError, AppErrorView};
use crate::registry::{NewRoom, Registry};
use crate::state::PromptSet;

verus! {

/// What the creator of a room is told.
#[derive(Clone, Debug, PartialEq, Eq)]
pub struct CreateRoomResponse {
    pub code: String,
    /// Secret: the host presents this in `JoinRoom` to gain host authority.
    pub host_token: String,
}

/// Whether a join code leads to a live room.
#[derive(Clone, Copy, Debug, PartialEq, Eq)]
pub struct RoomInfoResponse {
    pub exists: bool,
}

/// May a room be created from this prompt catalog? An empty one has nothing to
/// assign to the players.
pub fn check_catalog(prompts: &Vec<PromptSet>) -> (outcome: Result<(), AppError>)
    ensures
        outcome is Ok <==> prompts@.len() > 0,
        outcome is Err ==> outcome->Err_0@ == AppErrorView::Internal(
            "no prompt sets configured; cannot create a room"@,
        ),
{
    if prompts.is_empty() {
        Err(AppError::Internal("no prompt sets configured; cannot create a room".to_owned()))
    } else {
        Ok(())
    }
}

/// Create a room from the current prompt catalog: an error without a catalog, no room
/// where every join code is in use.
pub fn create_room<H, F: Fn(String, String) -> H>(
    prompts: &Vec<PromptSet>,
    rooms: &mut Registry<H>,
    start: F,
) -> (outcome: Result<Option<CreateRoomResponse>, AppError>)
    requires
        forall|code: String, token: String| call_requires(start, (code, token)),
    ensures
        outcome is Err <==> prompts@.len() == 0,
        outcome is Err ==> {
            &&& outcome->Err_0@ == AppErrorView::Internal(
                "no prompt sets configured; cannot create a room"@,
            )
            &&& final(rooms)@ == old(rooms)@
        },
        outcome is Ok ==> {
            &&& outcome->Ok_0 is None <==> crate::registry::all_in_use(old(rooms)@)
            &&& outcome->Ok_0 is None ==> final(rooms)@ == old(rooms)@
        },
        outcome matches Ok(Some(created)) ==> {
            let code = created.code;
            let token = created.host_token;
            &&& crate::registry::is_code(code@)
            &&& crate::registry::is_hex_of(token@, crate::registry::TOKEN_BYTES as nat)
            &&& crate::registry::opened(old(rooms)@, final(rooms)@, code@)
            &&& call_ensures(start, (code, token), final(rooms)@[code@])
        },
{
    check_catalog(prompts)?;
    match rooms.create_room(start) {
        Some(room) => Ok(Some(created_response(room))),
        None => Ok(None),
    }
}

/// What the creator of a room is told of it.
pub fn created_response(room: NewRoom) -> (response: CreateRoomResponse)
    ensures
        response.code == room.code,
        response.host_token == room.host_token,
{
    CreateRoomResponse { code: room.code, host_token: room.host_token }
}

/// Join validation: confirm that a code maps to a live room before opening a socket.
pub fn room_info<H>(rooms: &Registry<H>, code: &str) -> (response: RoomInfoResponse)
    ensures
        response.exists == rooms@.contains_key(code@),
{
    RoomInfoResponse { exists: rooms.get(code).is_some() }
}

} // verus!
