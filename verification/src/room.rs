//! The room reducer: what one intent does to a room, and who hears of it.
//!
//! A room's state has one owner, which reduces every command with [`apply`] and
//! then fans the resulting **broadcast** events out to every subscriber, sends
//! the **direct** events back to the requester alone, and runs the durable
//! **effects**. [`react`] is the reducer as a mathematical function; `apply`
//! computes exactly that.

use vstd::prelude::*;

use crate::protocol::{
    ClientMsg, ClientMsgView, ErrorCode, PlayerStatus, PlayerStatusView, Role, RoomSnapshot,
    RoomSnapshotView, ServerMsg, ServerMsgView,
};
use crate::state::{
    ArchivedEntry, ArchivedEntryView, GameState, GameView, Phase, ResponsesView, Slide, SlideView,
    TransitionError, TransitionErrorView,
};
use crate::text::{copy_opt, same_text};

verus! {

/// A validated intent handed to a room. `role`/`name` are established once at
/// join time and held server-side by the connection, so the client cannot forge
/// them on later messages.
#[derive(Clone, Debug, PartialEq, Eq)]
pub struct Command {
    pub intent: ClientMsg,
    pub role: Role,
    pub name: Option<String>,
}

/// A durable side effect, produced by the reducer and run by the room's owner
/// (best-effort: a storage failure never corrupts the in-memory game).
#[derive(Debug, PartialEq, Eq)]
pub enum Effect {
    /// Persist the round's finalized responses (on game start).
    SaveFinalResponses(Vec<ArchivedEntry>),
    /// Archive the round's responses (on archive).
    ArchiveRound(Vec<ArchivedEntry>),
}

/// The set of messages and effects a single command produces.
#[derive(Debug, PartialEq, Eq)]
pub struct Reaction {
    /// Fanned out to every subscriber of the room.
    pub broadcasts: Vec<ServerMsg>,
    /// Sent only to the originating connection.
    pub direct: Vec<ServerMsg>,
    /// Durable side effects to run against the database.
    pub effects: Vec<Effect>,
}

/// Returned when a room has stopped.
#[derive(Clone, Copy, Debug)]
pub struct RoomClosed;

// ----- views --------------------------------------------------------------------

/// The view of a [`Command`].
#[verifier::ext_equal]
pub struct CommandView {
    pub intent: ClientMsgView,
    pub role: Role,
    pub name: Option<Seq<char>>,
}

impl View for Command {
    type V = CommandView;

    open spec fn view(&self) -> CommandView {
        CommandView {
            intent: self.intent@,
            role: self.role,
            name: crate::text::opt_view(self.name),
        }
    }
}

/// The view of an [`Effect`].
#[verifier::ext_equal]
pub enum EffectView {
    SaveFinalResponses(Seq<ArchivedEntryView>),
    ArchiveRound(Seq<ArchivedEntryView>),
}

impl View for Effect {
    type V = EffectView;

    open spec fn view(&self) -> EffectView {
        match self {
            Effect::SaveFinalResponses(entries) => EffectView::SaveFinalResponses(
                crate::state::entry_views(entries@),
            ),
            Effect::ArchiveRound(entries) => EffectView::ArchiveRound(
                crate::state::entry_views(entries@),
            ),
        }
    }
}

/// The views of a list of effects.
pub open spec fn effect_views(effects: Seq<Effect>) -> Seq<EffectView> {
    effects.map_values(|e: Effect| e@)
}

/// The view of a [`Reaction`].
#[verifier::ext_equal]
pub struct ReactionView {
    pub broadcasts: Seq<ServerMsgView>,
    pub direct: Seq<ServerMsgView>,
    pub effects: Seq<EffectView>,
}

impl View for Reaction {
    type V = ReactionView;

    open spec fn view(&self) -> ReactionView {
        ReactionView {
            broadcasts: crate::protocol::msg_views(self.broadcasts@),
            direct: crate::protocol::msg_views(self.direct@),
            effects: effect_views(self.effects@),
        }
    }
}

impl ReactionView {
    /// One reply to the requester, and nothing else.
    pub open spec fn direct_only(msg: ServerMsgView) -> ReactionView {
        ReactionView { broadcasts: Seq::empty(), direct: seq![msg], effects: Seq::empty() }
    }

    /// Events for everyone, and nothing else.
    pub open spec fn broadcast_only(msgs: Seq<ServerMsgView>) -> ReactionView {
        ReactionView { broadcasts: msgs, direct: Seq::empty(), effects: Seq::empty() }
    }
}

// ----- messages -----------------------------------------------------------------

/// What everyone may know of each player.
pub open spec fn statuses_of(game: GameView) -> Seq<PlayerStatusView> {
    Seq::new(
        game.players.len(),
        |i: int| PlayerStatusView {
            name: game.players[i].name,
            submitted: game.players[i].submitted(),
        },
    )
}

/// The full room snapshot.
pub open spec fn room_state_of(game: GameView) -> ServerMsgView {
    ServerMsgView::RoomState {
        room: RoomSnapshotView {
            code: game.code,
            phase: game.phase,
            players: statuses_of(game),
            current_slide: game.current_slide,
            total_slides: game.deck().len(),
        },
    }
}

/// The submission progress.
pub open spec fn progress_of(game: GameView) -> ServerMsgView {
    ServerMsgView::SubmissionProgress {
        submitted: game.submitted_count(),
        total: game.players.len(),
        players: statuses_of(game),
    }
}

/// The current slide; a blank one where the index is past the deck.
pub open spec fn slide_changed_of(game: GameView) -> ServerMsgView {
    ServerMsgView::SlideChanged {
        index: game.current_slide,
        total_slides: game.deck().len(),
        slide: match game.slide_at(game.current_slide) {
            Some(slide) => slide,
            None => SlideView::Blank,
        },
    }
}

/// A player's targeted assignment, if they have one.
pub open spec fn assignment_of(game: GameView, name: Seq<char>) -> Option<ServerMsgView> {
    if game.has_player(name) {
        let player = game.players[game.place(name)];
        match player.partner {
            Some(partner) => Some(
                ServerMsgView::Assignment { partner, prompts: game.prompts_of(player) },
            ),
            None => None,
        }
    } else {
        None
    }
}

/// The refusal of an intent that the sender has no right to.
pub open spec fn forbidden(message: Seq<char>) -> ReactionView {
    ReactionView::direct_only(ServerMsgView::Error { code: ErrorCode::Forbidden, message })
}

/// The refusal of an intent that the room's state does not allow.
pub open spec fn invalid(reason: TransitionErrorView) -> ReactionView {
    ReactionView::direct_only(
        ServerMsgView::Error { code: ErrorCode::InvalidTransition, message: reason.message() },
    )
}

/// The refusal of a host-only intent.
pub open spec fn host_only() -> ReactionView {
    forbidden("this action is host-only"@)
}

// ----- the reducer, mathematically ------------------------------------------------

/// A room's next state and its reaction.
pub type Step = (GameView, ReactionView);

/// The outcome of a transition: `told` of the next state where it succeeds, the
/// reason to the requester alone where it is refused.
pub open spec fn settle(
    game: GameView,
    step: Result<GameView, TransitionErrorView>,
    told: spec_fn(GameView) -> ReactionView,
) -> Step {
    match step {
        Ok(next) => (next, told(next)),
        Err(reason) => (game, invalid(reason)),
    }
}

/// A host-only roster or round change: everyone sees the room and the progress.
pub open spec fn host_step(
    game: GameView,
    role: Role,
    step: Result<GameView, TransitionErrorView>,
) -> Step {
    if role == Role::Host {
        settle(
            game,
            step,
            |next: GameView| ReactionView::broadcast_only(
                seq![room_state_of(next), progress_of(next)],
            ),
        )
    } else {
        (game, host_only())
    }
}

/// May this connection move the carousel? The host always may; a player may while
/// they are the controller of the current slide.
pub open spec fn may_move(game: GameView, role: Role, name: Option<Seq<char>>) -> bool {
    ||| role == Role::Host
    ||| role == Role::Player && name is Some && name == game.current_controller()
}

/// A move of the carousel: everyone sees the slide and the room.
pub open spec fn slide_step(
    game: GameView,
    role: Role,
    name: Option<Seq<char>>,
    step: Result<GameView, TransitionErrorView>,
) -> Step {
    if may_move(game, role, name) {
        settle(
            game,
            step,
            |next: GameView| ReactionView::broadcast_only(
                seq![slide_changed_of(next), room_state_of(next)],
            ),
        )
    } else {
        (game, forbidden("only the host or the current reader can move the carousel"@))
    }
}

/// A submission, which a joined player makes under their own name: everyone sees
/// the progress and the room.
pub open spec fn submit_step(
    game: GameView,
    role: Role,
    name: Option<Seq<char>>,
    answers: ResponsesView,
) -> Step {
    if role == Role::Player && name is Some {
        settle(
            game,
            game.submit_responses(name->0, answers),
            |next: GameView| ReactionView::broadcast_only(
                seq![progress_of(next), room_state_of(next)],
            ),
        )
    } else {
        (game, forbidden("only a joined player may submit responses"@))
    }
}

/// The start of the performance: everyone sees it begin, and the round's answers
/// are final, so they are kept.
pub open spec fn start_step(game: GameView, role: Role) -> Step {
    if role == Role::Host {
        settle(
            game,
            game.start_game(),
            |next: GameView| ReactionView {
                broadcasts: seq![
                    ServerMsgView::GameStarted { total_slides: next.deck().len() },
                    slide_changed_of(next),
                    room_state_of(next),
                ],
                direct: Seq::empty(),
                effects: seq![EffectView::SaveFinalResponses(next.round_entries())],
            },
        )
    } else {
        (game, host_only())
    }
}

/// The end of the performance: everyone sees it, and the round is archived.
pub open spec fn archive_step(game: GameView, role: Role) -> Step {
    if role == Role::Host {
        settle(
            game,
            game.archive_round(),
            |next: GameView| ReactionView {
                broadcasts: seq![room_state_of(next)],
                direct: Seq::empty(),
                effects: seq![EffectView::ArchiveRound(next.round_entries())],
            },
        )
    } else {
        (game, host_only())
    }
}

/// Does this join put a new name on the roster? A player may join with any name:
/// in the lobby an unknown one registers itself.
pub open spec fn registers(game: GameView, requested: Role, name: Option<Seq<char>>) -> bool {
    requested == Role::Player && name is Some && game.add_player(name->0) is Ok
}

/// A join. A host must present the room's token. The joiner is told of the room
/// and, as a player, of their assignment; everyone sees a newly registered player.
pub open spec fn join_step(
    game: GameView,
    host_token: Seq<char>,
    requested: Role,
    name: Option<Seq<char>>,
    token: Option<Seq<char>>,
) -> Step {
    if requested == Role::Host && token != Some(host_token) {
        (game, forbidden("invalid or missing host token"@))
    } else {
        let next = if registers(game, requested, name) {
            game.add_player(name->0)->Ok_0
        } else {
            game
        };
        let greeting = seq![
            ServerMsgView::Joined { role: requested, name },
            room_state_of(next),
            progress_of(next),
        ];
        let assignment = if requested == Role::Player && name is Some {
            assignment_of(next, name->0)
        } else {
            None
        };
        let reaction = ReactionView {
            broadcasts: if registers(game, requested, name) {
                seq![room_state_of(next), progress_of(next)]
            } else {
                Seq::empty()
            },
            direct: match assignment {
                Some(msg) => greeting.push(msg),
                None => greeting,
            },
            effects: Seq::empty(),
        };
        (next, reaction)
    }
}

/// The reducer: the next state of a room and its reaction to one intent, sent by a
/// connection of the given role and name.
pub open spec fn react(
    game: GameView,
    host_token: Seq<char>,
    role: Role,
    name: Option<Seq<char>>,
    intent: ClientMsgView,
) -> Step {
    match intent {
        ClientMsgView::Ping => (game, ReactionView::direct_only(ServerMsgView::Pong)),
        ClientMsgView::JoinRoom { code: _, role: requested, name: join_name, token } => join_step(
            game,
            host_token,
            requested,
            join_name,
            token,
        ),
        ClientMsgView::AddPlayer { name: added } => host_step(game, role, game.add_player(added)),
        ClientMsgView::RemovePlayer { name: removed } => host_step(
            game,
            role,
            game.remove_player(removed),
        ),
        ClientMsgView::StartCollecting => host_step(game, role, game.start_collecting()),
        ClientMsgView::SubmitResponses { responses, signoff } => submit_step(
            game,
            role,
            name,
            ResponsesView { items: responses, signoff },
        ),
        ClientMsgView::StartGame => start_step(game, role),
        ClientMsgView::AdvanceSlide => slide_step(game, role, name, game.advance_slide()),
        ClientMsgView::PrevSlide => slide_step(game, role, name, game.prev_slide()),
        ClientMsgView::GotoSlide { index } => slide_step(game, role, name, game.goto_slide(index)),
        ClientMsgView::ArchiveRound => archive_step(game, role),
        ClientMsgView::NewRound => host_step(game, role, game.new_round()),
    }
}

// ----- the reducer, executable ----------------------------------------------------

impl Default for Reaction {
    /// No messages and no effects.
    fn default() -> (reaction: Reaction)
        ensures
            reaction.broadcasts@ == Seq::<ServerMsg>::empty(),
            reaction.direct@ == Seq::<ServerMsg>::empty(),
            reaction.effects@ == Seq::<Effect>::empty(),
            reaction@ == (ReactionView {
                broadcasts: Seq::empty(),
                direct: Seq::empty(),
                effects: Seq::empty(),
            }),
    {
        let reaction = Reaction {
            broadcasts: Vec::new(),
            direct: Vec::new(),
            effects: Vec::new(),
        };
        assert(reaction@.broadcasts =~= Seq::empty());
        assert(reaction@.direct =~= Seq::empty());
        assert(reaction@.effects =~= Seq::empty());
        reaction
    }
}

impl Reaction {
    /// One reply to the requester, and nothing else.
    pub fn direct_only(msg: ServerMsg) -> (reaction: Reaction)
        ensures
            reaction@ == ReactionView::direct_only(msg@),
    {
        let ghost view = msg@;
        let mut reaction = Reaction::default();
        reaction.direct.push(msg);
        assert(reaction@.direct =~= seq![view]);
        reaction
    }

    /// Two events for everyone, and nothing else.
    fn broadcast_pair(first: ServerMsg, second: ServerMsg) -> (reaction: Reaction)
        ensures
            reaction@ == ReactionView::broadcast_only(seq![first@, second@]),
    {
        let ghost views = seq![first@, second@];
        let mut reaction = Reaction::default();
        reaction.broadcasts.push(first);
        reaction.broadcasts.push(second);
        assert(reaction@.broadcasts =~= views);
        reaction
    }
}

/// What everyone may know of each player.
fn statuses(state: &GameState) -> (statuses: Vec<PlayerStatus>)
    ensures
        crate::protocol::status_views(statuses@) == statuses_of(state@),
{
    let mut statuses: Vec<PlayerStatus> = Vec::new();
    let mut i: usize = 0;
    while i < state.players.len()
        invariant
            i <= state.players.len(),
            statuses.len() == i,
            crate::protocol::status_views(statuses@) =~= statuses_of(state@).take(i as int),
        decreases state.players.len() - i,
    {
        let player = &state.players[i];
        let ghost before = statuses@;
        statuses.push(
            PlayerStatus { name: player.name.clone(), submitted: player.submitted() },
        );
        assert(crate::protocol::status_views(statuses@) =~= crate::protocol::status_views(
            before,
        ).push(statuses_of(state@)[i as int]));
        i = i + 1;
    }
    assert(statuses_of(state@).take(i as int) =~= statuses_of(state@));
    statuses
}

/// The room as everyone may see it.
fn snapshot(state: &GameState) -> (room: RoomSnapshot)
    ensures
        room_state_of(state@) == (ServerMsgView::RoomState { room: room@ }),
{
    RoomSnapshot {
        code: state.code.clone(),
        phase: state.phase,
        players: statuses(state),
        current_slide: state.current_slide,
        total_slides: state.total_slides(),
    }
}

/// The full room snapshot.
fn room_state(state: &GameState) -> (msg: ServerMsg)
    ensures
        msg@ == room_state_of(state@),
{
    ServerMsg::RoomState { room: snapshot(state) }
}

/// The submission progress.
fn progress(state: &GameState) -> (msg: ServerMsg)
    ensures
        msg@ == progress_of(state@),
{
    ServerMsg::SubmissionProgress {
        submitted: state.submitted_count(),
        total: state.players.len(),
        players: statuses(state),
    }
}

/// The current slide.
fn slide_changed(state: &GameState) -> (msg: ServerMsg)
    ensures
        msg@ == slide_changed_of(state@),
{
    ServerMsg::SlideChanged {
        index: state.current_slide,
        total_slides: state.total_slides(),
        slide: match state.slide_at(state.current_slide) {
            Some(slide) => slide,
            None => Slide::Blank,
        },
    }
}

/// Build a player's targeted assignment message, if they have one.
fn assignment(state: &GameState, name: &str) -> (msg: Option<ServerMsg>)
    ensures
        msg is Some <==> assignment_of(state@, name@) is Some,
        msg is Some ==> assignment_of(state@, name@) == Some(msg->0@),
{
    let idx: usize = match state.player_index(name) {
        Some(idx) => idx,
        None => return None,
    };
    let player = &state.players[idx];
    assert(state@.players[idx as int] == player@);
    match &player.partner {
        None => None,
        Some(partner) => Some(
            ServerMsg::Assignment {
                partner: partner.clone(),
                prompts: state.prompts_of(player),
            },
        ),
    }
}

/// The refusal of an intent that the room's state does not allow.
fn transition_error(e: TransitionError) -> (msg: ServerMsg)
    ensures
        msg@ == (ServerMsgView::Error {
            code: ErrorCode::InvalidTransition,
            message: e@.message(),
        }),
{
    ServerMsg::Error { code: ErrorCode::InvalidTransition, message: e.to_string() }
}

/// The refusal of an intent that the sender has no right to.
fn forbid(message: &str) -> (reaction: Reaction)
    ensures
        reaction@ == forbidden(message@),
{
    Reaction::direct_only(
        ServerMsg::Error { code: ErrorCode::Forbidden, message: message.to_owned() },
    )
}

/// Let a host pass; answer anyone else.
fn require_host(role: Role) -> (gate: Result<(), Reaction>)
    ensures
        gate is Ok <==> role == Role::Host,
        gate is Err ==> gate->Err_0@ == host_only(),
{
    if role.is_host() {
        Ok(())
    } else {
        Err(forbid("this action is host-only"))
    }
}

/// The host-only mutations that, on success, broadcast room state + progress.
enum HostAction {
    AddPlayer(String),
    RemovePlayer(String),
    StartCollecting,
    NewRound,
}

/// The transition behind a host-only mutation.
spec fn host_transition(game: GameView, action: HostAction) -> Result<
    GameView,
    TransitionErrorView,
> {
    match action {
        HostAction::AddPlayer(name) => game.add_player(name@),
        HostAction::RemovePlayer(name) => game.remove_player(name@),
        HostAction::StartCollecting => game.start_collecting(),
        HostAction::NewRound => game.new_round(),
    }
}

/// Run a host-only mutation that, on success, broadcasts room state + progress.
fn host_action(role: Role, action: HostAction, state: &mut GameState) -> (reaction: Reaction)
    ensures
        (final(state)@, reaction@) == host_step(
            old(state)@,
            role,
            host_transition(old(state)@, action),
        ),
{
    if let Err(refusal) = require_host(role) {
        return refusal;
    }
    let outcome = match action {
        HostAction::AddPlayer(name) => state.add_player(name.as_str()),
        HostAction::RemovePlayer(name) => state.remove_player(name.as_str()),
        HostAction::StartCollecting => state.start_collecting(),
        HostAction::NewRound => state.new_round(),
    };
    match outcome {
        Ok(()) => Reaction::broadcast_pair(room_state(state), progress(state)),
        Err(e) => Reaction::direct_only(transition_error(e)),
    }
}

/// May this connection move the carousel right now? The host always can; a
/// player may move only while they are the controller of the current slide.
fn may_control(state: &GameState, role: Role, name: Option<&str>) -> (may: bool)
    ensures
        may == may_move(state@, role, crate::text::opt_str_view(name)),
{
    if role.is_host() {
        return true;
    }
    if role == Role::Player {
        if let Some(n) = name {
            if let Some(controller) = state.current_controller() {
                return same_text(n, controller.as_str());
            }
        }
    }
    false
}

/// The moves of the carousel.
enum Move {
    Advance,
    Back,
    Goto(usize),
}

/// The transition behind a move of the carousel.
spec fn move_transition(game: GameView, mv: Move) -> Result<GameView, TransitionErrorView> {
    match mv {
        Move::Advance => game.advance_slide(),
        Move::Back => game.prev_slide(),
        Move::Goto(index) => game.goto_slide(index as nat),
    }
}

/// Run a carousel move (host or the current reader), broadcasting the change.
fn control_slide(state: &mut GameState, role: Role, name: Option<&str>, mv: Move) -> (reaction:
    Reaction)
    ensures
        (final(state)@, reaction@) == slide_step(
            old(state)@,
            role,
            crate::text::opt_str_view(name),
            move_transition(old(state)@, mv),
        ),
{
    if !may_control(state, role, name) {
        return forbid("only the host or the current reader can move the carousel");
    }
    let outcome = match mv {
        Move::Advance => state.advance_slide(),
        Move::Back => state.prev_slide(),
        Move::Goto(index) => state.goto_slide(index),
    };
    match outcome {
        Ok(_) => Reaction::broadcast_pair(slide_changed(state), room_state(state)),
        Err(e) => Reaction::direct_only(transition_error(e)),
    }
}

/// Handle a player's submission: only a joined player may submit, and only under
/// their own name.
fn submit(
    state: &mut GameState,
    role: Role,
    name: Option<&str>,
    responses: Vec<String>,
    signoff: String,
) -> (reaction: Reaction)
    ensures
        (final(state)@, reaction@) == submit_step(
            old(state)@,
            role,
            crate::text::opt_str_view(name),
            (ResponsesView { items: crate::text::views_of(responses@), signoff: signoff@ }),
        ),
{
    let player_name = match (role, name) {
        (Role::Player, Some(n)) => n,
        _ => return forbid("only a joined player may submit responses"),
    };
    match state.submit_responses(player_name, responses, signoff) {
        Ok(()) => Reaction::broadcast_pair(progress(state), room_state(state)),
        Err(e) => Reaction::direct_only(transition_error(e)),
    }
}

/// Begin the performance; the round's responses are now final, so they are kept.
fn start_performance(state: &mut GameState, role: Role) -> (reaction: Reaction)
    ensures
        (final(state)@, reaction@) == start_step(old(state)@, role),
{
    if let Err(refusal) = require_host(role) {
        return refusal;
    }
    match state.start_game() {
        Ok(()) => {
            let mut reaction = Reaction::default();
            reaction.broadcasts.push(
                ServerMsg::GameStarted { total_slides: state.total_slides() },
            );
            reaction.broadcasts.push(slide_changed(state));
            reaction.broadcasts.push(room_state(state));
            reaction.effects.push(Effect::SaveFinalResponses(state.round_entries()));
            assert(reaction@.broadcasts =~= seq![
                ServerMsgView::GameStarted { total_slides: state@.deck().len() },
                slide_changed_of(state@),
                room_state_of(state@),
            ]);
            assert(reaction@.effects =~= seq![
                EffectView::SaveFinalResponses(state@.round_entries()),
            ]);
            reaction
        },
        Err(e) => Reaction::direct_only(transition_error(e)),
    }
}

/// End the performance and hand the round over to the archive.
fn archive(state: &mut GameState, role: Role) -> (reaction: Reaction)
    ensures
        (final(state)@, reaction@) == archive_step(old(state)@, role),
{
    if let Err(refusal) = require_host(role) {
        return refusal;
    }
    match state.archive_round() {
        Ok(entries) => {
            let mut reaction = Reaction::default();
            reaction.broadcasts.push(room_state(state));
            reaction.effects.push(Effect::ArchiveRound(entries));
            assert(reaction@.broadcasts =~= seq![room_state_of(state@)]);
            assert(reaction@.effects =~= seq![EffectView::ArchiveRound(state@.round_entries())]);
            reaction
        },
        Err(e) => Reaction::direct_only(transition_error(e)),
    }
}

/// Does an optional token hold the secret?
fn token_matches(token: &Option<String>, host_token: &str) -> (matches: bool)
    ensures
        matches == (crate::text::opt_view(*token) == Some(host_token@)),
{
    match token {
        Some(t) => same_text(t.as_str(), host_token),
        None => false,
    }
}

/// Handle a join: validate the host token, self-register an unknown player, and
/// send the new connection its initial state (and, for a player, their
/// assignment) directly.
fn join(
    state: &mut GameState,
    host_token: &str,
    requested: Role,
    join_name: Option<String>,
    token: Option<String>,
) -> (reaction: Reaction)
    ensures
        (final(state)@, reaction@) == join_step(
            old(state)@,
            host_token@,
            requested,
            crate::text::opt_view(join_name),
            crate::text::opt_view(token),
        ),
{
    if requested.is_host() && !token_matches(&token, host_token) {
        return forbid("invalid or missing host token");
    }
    // Self-registration: a player may join with any name. One that is not on the
    // roster yet is added while the room is still in the lobby. (Once submissions
    // are open the roster is locked so the partner ring stays consistent.)

    let mut self_added: bool = false;
    if requested == Role::Player {
        if let Some(n) = &join_name {
            if state.phase == Phase::Lobby && state.player_index(n.as_str()).is_none() {
                self_added = state.add_player(n.as_str()).is_ok();
            }
        }
    }
    let mut reaction = Reaction::default();
    reaction.direct.push(ServerMsg::Joined { role: requested, name: copy_opt(&join_name) });
    reaction.direct.push(room_state(state));
    reaction.direct.push(progress(state));
    let ghost greeting = seq![
        ServerMsgView::Joined { role: requested, name: crate::text::opt_view(join_name) },
        room_state_of(state@),
        progress_of(state@),
    ];
    assert(reaction@.direct =~= greeting);
    if requested == Role::Player {
        if let Some(n) = &join_name {
            if let Some(msg) = assignment(state, n.as_str()) {
                let ghost view = msg@;
                reaction.direct.push(msg);
                assert(reaction@.direct =~= greeting.push(view));
            }
        }
    }
    // If a new player just appeared on the roster, let everyone (host/display) see it.
    if self_added {
        reaction.broadcasts.push(room_state(state));
        reaction.broadcasts.push(progress(state));
        assert(reaction@.broadcasts =~= seq![room_state_of(state@), progress_of(state@)]);
    }
    reaction
}

/// Reduce a single command against the room state: it changes the state in place
/// and returns the messages to emit and the effects to run. This is the single
/// place every protocol variant is handled, exhaustively and without a catch-all.
pub fn apply(
    state: &mut GameState,
    host_token: &str,
    role: Role,
    name: Option<&str>,
    intent: ClientMsg,
) -> (reaction: Reaction)
    ensures
        (final(state)@, reaction@) == react(
            old(state)@,
            host_token@,
            role,
            crate::text::opt_str_view(name),
            intent@,
        ),
{
    match intent {
        ClientMsg::Ping => Reaction::direct_only(ServerMsg::Pong),
        ClientMsg::JoinRoom { code: _, role: requested, name: join_name, token } => join(
            state,
            host_token,
            requested,
            join_name,
            token,
        ),
        ClientMsg::AddPlayer { name } => host_action(role, HostAction::AddPlayer(name), state),
        ClientMsg::RemovePlayer { name } => host_action(
            role,
            HostAction::RemovePlayer(name),
            state,
        ),
        ClientMsg::StartCollecting => host_action(role, HostAction::StartCollecting, state),
        ClientMsg::SubmitResponses { responses, signoff } => submit(
            state,
            role,
            name,
            responses,
            signoff,
        ),
        ClientMsg::StartGame => start_performance(state, role),
        ClientMsg::AdvanceSlide => control_slide(state, role, name, Move::Advance),
        ClientMsg::PrevSlide => control_slide(state, role, name, Move::Back),
        ClientMsg::GotoSlide { index } => control_slide(state, role, name, Move::Goto(index)),
        ClientMsg::ArchiveRound => archive(state, role),
        ClientMsg::NewRound => host_action(role, HostAction::NewRound, state),
    }
}

} // verus!
