//! Authoritative per-room game state and its transition machine.
//!
//! One [`GameState`] is the single source of truth for one game. Its view,
//! [`GameView`], is the mathematical state that the contracts speak of: each
//! transition of a `GameState` carries out the transition of the same name of
//! its view (see `game.rs`), and every refusal leaves the state untouched.
//!
//! Phase machine:
//! ```text
//!   Lobby --start_collecting--> Collecting --start_game--> Performing --archive_round--> Archived
//!     ^                                                                                      |
//!     +------------------------------------ new_round / reset -------------------------------+
//! ```

use vstd::prelude::*;

use crate::text::{copy_opt, copy_strings, join_text, same_text, to_decimal};

verus! {

/// Maximum number of prompts in a prompt set.
pub const MAX_PROMPTS: usize = 7;

/// A prompt set: a themed list of up to [`MAX_PROMPTS`] prompt lines, plus a
/// fixed sign-off prompt that always closes a player's segment.
#[derive(Clone, Debug, PartialEq, Eq)]
pub struct PromptSet {
    pub id: i64,
    pub name: String,
    pub author: String,
    /// Ordered prompt lines; `responses[i]` pairs with `prompts[i]`.
    pub prompts: Vec<String>,
}

/// A player's submitted answers, aligned to their assigned prompt set.
#[derive(Clone, Debug, PartialEq, Eq)]
pub struct Responses {
    /// One response per prompt in the assigned set (same length, same order).
    pub items: Vec<String>,
    /// The closing "...and remember:" line.
    pub signoff: String,
}

/// A roster entry: a player with their assignment and (once submitted) answers.
#[derive(Clone, Debug, PartialEq, Eq)]
pub struct Player {
    pub name: String,
    /// Assigned when the room moves to `Collecting`.
    pub prompt_set_id: Option<i64>,
    /// The teammate this player writes *for* (ring assignment). Set on collect.
    pub partner: Option<String>,
    /// `Some` once the player has submitted.
    pub responses: Option<Responses>,
}

/// The four lifecycle phases of a room.
#[derive(Clone, Copy, Debug, PartialEq, Eq, Structural)]
pub enum Phase {
    Lobby,
    Collecting,
    Performing,
    Archived,
}

/// A single carousel slide. The `reader` is the person performing the line
/// (the partner/presenter).
#[derive(Clone, Debug, PartialEq, Eq)]
pub enum Slide {
    Rules,
    PresenterIntro { presenter: String, teleprompter: String, first: bool },
    Greeting { presenter: String },
    /// A prompt+response line read aloud by the presenter.
    Script { reader: String, text: String },
    Signoff { presenter: String, text: String },
    Credits,
    Blank,
}

/// One player's responses captured at archive time, paired with the prompts
/// they answered: the durable artifact persisted to the archive table.
#[derive(Clone, Debug, PartialEq, Eq)]
pub struct ArchivedEntry {
    pub name: String,
    pub partner: Option<String>,
    pub prompt_set_id: Option<i64>,
    pub prompts: Vec<String>,
    pub responses: Vec<String>,
    pub signoff: String,
}

/// Errors a transition can reject with.
#[derive(Clone, Debug, PartialEq, Eq)]
pub enum TransitionError {
    WrongPhase { phase: Phase },
    NoPlayers,
    NoPromptSets,
    UnknownPlayer(String),
    DuplicatePlayer(String),
    NotAllSubmitted,
    SlideOutOfRange(usize),
    ResponseCountMismatch { expected: usize, got: usize },
    NoAssignment(String),
}

/// The authoritative state of one room.
#[derive(Clone, Debug)]
pub struct GameState {
    pub code: String,
    pub phase: Phase,
    pub players: Vec<Player>,
    /// Prompt sets available to this room, fixed at room creation.
    pub prompt_sets: Vec<PromptSet>,
    /// Current carousel index while `Performing`.
    pub current_slide: usize,
}

// ----- views --------------------------------------------------------------------

/// The view of a [`PromptSet`].
#[verifier::ext_equal]
pub struct PromptSetView {
    pub id: i64,
    pub name: Seq<char>,
    pub author: Seq<char>,
    pub prompts: Seq<Seq<char>>,
}

impl View for PromptSet {
    type V = PromptSetView;

    open spec fn view(&self) -> PromptSetView {
        PromptSetView {
            id: self.id,
            name: self.name@,
            author: self.author@,
            prompts: crate::text::views_of(self.prompts@),
        }
    }
}

/// The view of [`Responses`].
#[verifier::ext_equal]
pub struct ResponsesView {
    pub items: Seq<Seq<char>>,
    pub signoff: Seq<char>,
}

impl ResponsesView {
    /// What stands for the answers of a player who gave none.
    pub open spec fn none() -> ResponsesView {
        ResponsesView { items: Seq::empty(), signoff: Seq::empty() }
    }
}

impl View for Responses {
    type V = ResponsesView;

    open spec fn view(&self) -> ResponsesView {
        ResponsesView { items: crate::text::views_of(self.items@), signoff: self.signoff@ }
    }
}

/// The view of a [`Player`].
#[verifier::ext_equal]
pub struct PlayerView {
    pub name: Seq<char>,
    pub prompt_set_id: Option<i64>,
    pub partner: Option<Seq<char>>,
    pub responses: Option<ResponsesView>,
}

impl PlayerView {
    /// A player as they enter the roster.
    pub open spec fn new(name: Seq<char>) -> PlayerView {
        PlayerView { name, prompt_set_id: None, partner: None, responses: None }
    }

    /// Has this player handed in their answers?
    pub open spec fn submitted(self) -> bool {
        self.responses is Some
    }

    /// The answers given, or the empty ones.
    pub open spec fn answers(self) -> ResponsesView {
        match self.responses {
            Some(r) => r,
            None => ResponsesView::none(),
        }
    }

    /// Who reads this player's script aloud.
    pub open spec fn presenter(self) -> Seq<char> {
        match self.partner {
            Some(p) => p,
            None => Seq::empty(),
        }
    }
}

impl View for Player {
    type V = PlayerView;

    open spec fn view(&self) -> PlayerView {
        PlayerView {
            name: self.name@,
            prompt_set_id: self.prompt_set_id,
            partner: crate::text::opt_view(self.partner),
            responses: match self.responses {
                Some(r) => Some(r@),
                None => None,
            },
        }
    }
}

/// The view of a [`Slide`].
#[verifier::ext_equal]
pub enum SlideView {
    Rules,
    PresenterIntro { presenter: Seq<char>, teleprompter: Seq<char>, first: bool },
    Greeting { presenter: Seq<char> },
    Script { reader: Seq<char>, text: Seq<char> },
    Signoff { presenter: Seq<char>, text: Seq<char> },
    Credits,
    Blank,
}

impl SlideView {
    /// Who performs this slide; nobody performs the rules, the credits and the
    /// closing blank.
    pub open spec fn performer(self) -> Option<Seq<char>> {
        match self {
            SlideView::PresenterIntro { presenter, .. } => Some(presenter),
            SlideView::Greeting { presenter } => Some(presenter),
            SlideView::Script { reader, .. } => Some(reader),
            SlideView::Signoff { presenter, .. } => Some(presenter),
            SlideView::Rules | SlideView::Credits | SlideView::Blank => None,
        }
    }
}

impl View for Slide {
    type V = SlideView;

    open spec fn view(&self) -> SlideView {
        match self {
            Slide::Rules => SlideView::Rules,
            Slide::PresenterIntro { presenter, teleprompter, first } => SlideView::PresenterIntro {
                presenter: presenter@,
                teleprompter: teleprompter@,
                first: *first,
            },
            Slide::Greeting { presenter } => SlideView::Greeting { presenter: presenter@ },
            Slide::Script { reader, text } => SlideView::Script { reader: reader@, text: text@ },
            Slide::Signoff { presenter, text } => SlideView::Signoff {
                presenter: presenter@,
                text: text@,
            },
            Slide::Credits => SlideView::Credits,
            Slide::Blank => SlideView::Blank,
        }
    }
}

/// The view of an [`ArchivedEntry`].
#[verifier::ext_equal]
pub struct ArchivedEntryView {
    pub name: Seq<char>,
    pub partner: Option<Seq<char>>,
    pub prompt_set_id: Option<i64>,
    pub prompts: Seq<Seq<char>>,
    pub responses: Seq<Seq<char>>,
    pub signoff: Seq<char>,
}

impl View for ArchivedEntry {
    type V = ArchivedEntryView;

    open spec fn view(&self) -> ArchivedEntryView {
        ArchivedEntryView {
            name: self.name@,
            partner: crate::text::opt_view(self.partner),
            prompt_set_id: self.prompt_set_id,
            prompts: crate::text::views_of(self.prompts@),
            responses: crate::text::views_of(self.responses@),
            signoff: self.signoff@,
        }
    }
}

/// The view of a [`TransitionError`].
#[verifier::ext_equal]
pub enum TransitionErrorView {
    WrongPhase { phase: Phase },
    NoPlayers,
    NoPromptSets,
    UnknownPlayer(Seq<char>),
    DuplicatePlayer(Seq<char>),
    NotAllSubmitted,
    SlideOutOfRange(nat),
    ResponseCountMismatch { expected: nat, got: nat },
    NoAssignment(Seq<char>),
}

/// The name of a phase.
pub open spec fn phase_name(phase: Phase) -> Seq<char> {
    match phase {
        Phase::Lobby => "Lobby"@,
        Phase::Collecting => "Collecting"@,
        Phase::Performing => "Performing"@,
        Phase::Archived => "Archived"@,
    }
}

impl TransitionErrorView {
    /// The sentence that tells a client why an action was refused.
    pub open spec fn message(self) -> Seq<char> {
        match self {
            TransitionErrorView::WrongPhase { phase } => "action not allowed in the "@ + phase_name(
                phase,
            ) + " phase"@,
            TransitionErrorView::NoPlayers => "the room has no players"@,
            TransitionErrorView::NoPromptSets => "no prompt sets are available to assign"@,
            TransitionErrorView::UnknownPlayer(name) => "player '"@ + name
                + "' was not found in this room"@,
            TransitionErrorView::DuplicatePlayer(name) => "a player named '"@ + name
                + "' is already in this room"@,
            TransitionErrorView::NotAllSubmitted => "not every player has submitted yet"@,
            TransitionErrorView::SlideOutOfRange(index) => "slide index "@ + crate::text::decimal(
                index,
            ) + " is out of range"@,
            TransitionErrorView::ResponseCountMismatch { expected, got } => "expected "@
                + crate::text::decimal(expected) + " responses but got "@ + crate::text::decimal(
                got,
            ),
            TransitionErrorView::NoAssignment(name) => "player '"@ + name
                + "' has no assigned prompt set"@,
        }
    }
}

impl View for TransitionError {
    type V = TransitionErrorView;

    open spec fn view(&self) -> TransitionErrorView {
        match self {
            TransitionError::WrongPhase { phase } => TransitionErrorView::WrongPhase {
                phase: *phase,
            },
            TransitionError::NoPlayers => TransitionErrorView::NoPlayers,
            TransitionError::NoPromptSets => TransitionErrorView::NoPromptSets,
            TransitionError::UnknownPlayer(name) => TransitionErrorView::UnknownPlayer(name@),
            TransitionError::DuplicatePlayer(name) => TransitionErrorView::DuplicatePlayer(name@),
            TransitionError::NotAllSubmitted => TransitionErrorView::NotAllSubmitted,
            TransitionError::SlideOutOfRange(index) => TransitionErrorView::SlideOutOfRange(
                *index as nat,
            ),
            TransitionError::ResponseCountMismatch {
                expected,
                got,
            } => TransitionErrorView::ResponseCountMismatch {
                expected: *expected as nat,
                got: *got as nat,
            },
            TransitionError::NoAssignment(name) => TransitionErrorView::NoAssignment(name@),
        }
    }
}

/// The view of a [`GameState`].
#[verifier::ext_equal]
pub struct GameView {
    pub code: Seq<char>,
    pub phase: Phase,
    pub players: Seq<PlayerView>,
    pub prompt_sets: Seq<PromptSetView>,
    pub current_slide: nat,
}

/// The views of a roster.
pub open spec fn player_views(players: Seq<Player>) -> Seq<PlayerView> {
    players.map_values(|p: Player| p@)
}

/// The views of a prompt-set catalog.
pub open spec fn prompt_set_views(sets: Seq<PromptSet>) -> Seq<PromptSetView> {
    sets.map_values(|s: PromptSet| s@)
}

/// The views of a slide deck.
pub open spec fn slide_views(slides: Seq<Slide>) -> Seq<SlideView> {
    slides.map_values(|s: Slide| s@)
}

/// The views of a round's entries.
pub open spec fn entry_views(entries: Seq<ArchivedEntry>) -> Seq<ArchivedEntryView> {
    entries.map_values(|e: ArchivedEntry| e@)
}

impl View for GameState {
    type V = GameView;

    open spec fn view(&self) -> GameView {
        GameView {
            code: self.code@,
            phase: self.phase,
            players: player_views(self.players@),
            prompt_sets: prompt_set_views(self.prompt_sets@),
            current_slide: self.current_slide as nat,
        }
    }
}

// ----- executable state -----------------------------------------------------------

impl Default for Responses {
    /// The answers of a player who gave none.
    fn default() -> (responses: Responses)
        ensures
            responses@ == ResponsesView::none(),
    {
        let responses = Responses { items: Vec::new(), signoff: String::new() };
        assert(responses@ =~= ResponsesView::none());
        responses
    }
}

impl Phase {
    /// The name of the phase.
    pub fn name(self) -> (name: &'static str)
        ensures
            name@ == phase_name(self),
    {
        match self {
            Phase::Lobby => "Lobby",
            Phase::Collecting => "Collecting",
            Phase::Performing => "Performing",
            Phase::Archived => "Archived",
        }
    }
}

/// The three strings in one.
fn sandwich(a: &str, b: &str, c: &str) -> (s: String)
    ensures
        s@ == a@ + b@ + c@,
{
    join_text(join_text(a, b).as_str(), c)
}

impl TransitionError {
    /// The sentence that tells a client why an action was refused.
    pub fn to_string(&self) -> (message: String)
        ensures
            message@ == self@.message(),
    {
        match self {
            TransitionError::WrongPhase { phase } => sandwich(
                "action not allowed in the ",
                phase.name(),
                " phase",
            ),
            TransitionError::NoPlayers => "the room has no players".to_owned(),
            TransitionError::NoPromptSets => "no prompt sets are available to assign".to_owned(),
            TransitionError::UnknownPlayer(name) => sandwich(
                "player '",
                name.as_str(),
                "' was not found in this room",
            ),
            TransitionError::DuplicatePlayer(name) => sandwich(
                "a player named '",
                name.as_str(),
                "' is already in this room",
            ),
            TransitionError::NotAllSubmitted => "not every player has submitted yet".to_owned(),
            TransitionError::SlideOutOfRange(index) => sandwich(
                "slide index ",
                to_decimal(*index).as_str(),
                " is out of range",
            ),
            TransitionError::ResponseCountMismatch { expected, got } => {
                let head = sandwich(
                    "expected ",
                    to_decimal(*expected).as_str(),
                    " responses but got ",
                );
                join_text(head.as_str(), to_decimal(*got).as_str())
            },
            TransitionError::NoAssignment(name) => sandwich(
                "player '",
                name.as_str(),
                "' has no assigned prompt set",
            ),
        }
    }
}

impl Player {
    /// A player as they enter the roster.
    pub fn new(name: &str) -> (player: Player)
        ensures
            player@ == PlayerView::new(name@),
    {
        Player { name: name.to_owned(), prompt_set_id: None, partner: None, responses: None }
    }

    /// Has this player handed in their answers?
    pub fn submitted(&self) -> (submitted: bool)
        ensures
            submitted == self@.submitted(),
    {
        self.responses.is_some()
    }

    /// A copy of the answers given, or the empty ones.
    fn answers(&self) -> (answers: Responses)
        ensures
            answers@ == self@.answers(),
    {
        match &self.responses {
            Some(r) => Responses { items: copy_strings(&r.items), signoff: r.signoff.clone() },
            None => Responses::default(),
        }
    }

    /// Who reads this player's script aloud.
    fn presenter(&self) -> (presenter: String)
        ensures
            presenter@ == self@.presenter(),
    {
        match &self.partner {
            Some(p) => p.clone(),
            None => String::new(),
        }
    }
}

impl GameState {
    /// An empty lobby with the given prompt sets.
    pub fn new(code: &str, prompt_sets: Vec<PromptSet>) -> (game: GameState)
        ensures
            game@ == GameView::new(code@, prompt_set_views(prompt_sets@)),
            game.prompt_sets == prompt_sets,
    {
        let game = GameState {
            code: code.to_owned(),
            phase: Phase::Lobby,
            players: Vec::new(),
            prompt_sets,
            current_slide: 0,
        };
        assert(game@ =~= GameView::new(code@, prompt_set_views(prompt_sets@)));
        game
    }

    /// Refuse an action outside the phase it belongs to.
    fn require_phase(&self, phase: Phase) -> (outcome: Result<(), TransitionError>)
        ensures
            outcome is Ok <==> self.phase == phase,
            outcome is Err ==> outcome->Err_0@ == self@.wrong_phase(),
    {
        if self.phase == phase {
            Ok(())
        } else {
            Err(TransitionError::WrongPhase { phase: self.phase })
        }
    }

    /// The place of a name on the roster.
    pub fn player_index(&self, name: &str) -> (index: Option<usize>)
        ensures
            index is Some <==> self@.has_player(name@),
            index is Some ==> index->0 == self@.place(name@) && self@.is_place(
                name@,
                index->0 as int,
            ),
    {
        let mut i: usize = 0;
        while i < self.players.len()
            invariant
                i <= self.players.len(),
                forall|j: int| 0 <= j < i ==> (#[trigger] self@.players[j]).name != name@,
            decreases self.players.len() - i,
        {
            if same_text(self.players[i].name.as_str(), name) {
                assert(self@.is_place(name@, i as int));
                proof {
                    crate::game::lemma_place(self@, name@, i as int);
                }
                return Some(i);
            }
            assert(self@.players[i as int].name != name@);
            i = i + 1;
        }
        None
    }

    /// The first prompt set with the given id.
    pub fn prompt_set(&self, id: i64) -> (set: Option<&PromptSet>)
        ensures
            set is Some <==> self@.prompt_set(id) is Some,
            set is Some ==> self@.prompt_set(id) == Some(set->0@),
    {
        let mut i: usize = 0;
        while i < self.prompt_sets.len()
            invariant
                i <= self.prompt_sets.len(),
                forall|j: int| 0 <= j < i ==> (#[trigger] self@.prompt_sets[j]).id != id,
            decreases self.prompt_sets.len() - i,
        {
            if self.prompt_sets[i].id == id {
                proof {
                    crate::game::lemma_set_place(self@.prompt_sets, id, i as int);
                }
                return Some(&self.prompt_sets[i]);
            }
            assert(self@.prompt_sets[i as int].id != id);
            i = i + 1;
        }
        None
    }

    /// A copy of the prompts that a player was given to answer.
    pub(crate) fn prompts_of(&self, player: &Player) -> (prompts: Vec<String>)
        ensures
            crate::text::views_of(prompts@) == self@.prompts_of(player@),
    {
        if let Some(id) = player.prompt_set_id {
            if let Some(set) = self.prompt_set(id) {
                return copy_strings(&set.prompts);
            }
        }
        let none: Vec<String> = Vec::new();
        assert(crate::text::views_of(none@) =~= Seq::empty());
        none
    }

    // ----- roster management (Lobby only) -------------------------------------

    /// Add a player to the roster. Allowed only while in the Lobby so that the
    /// roster, and therefore the partner ring and assignments, is fixed once
    /// submissions open.
    pub fn add_player(&mut self, name: &str) -> (outcome: Result<(), TransitionError>)
        ensures
            crate::game::carries_out(
                old(self)@.add_player(name@),
                old(self)@,
                final(self)@,
                outcome,
            ),
    {
        self.require_phase(Phase::Lobby)?;
        if self.player_index(name).is_some() {
            return Err(TransitionError::DuplicatePlayer(name.to_owned()));
        }
        self.players.push(Player::new(name));
        assert(self@.players =~= old(self)@.players.push(PlayerView::new(name@)));
        Ok(())
    }

    /// Take a player off the roster. Allowed only while in the Lobby.
    pub fn remove_player(&mut self, name: &str) -> (outcome: Result<(), TransitionError>)
        ensures
            crate::game::carries_out(
                old(self)@.remove_player(name@),
                old(self)@,
                final(self)@,
                outcome,
            ),
    {
        self.require_phase(Phase::Lobby)?;
        match self.player_index(name) {
            None => Err(TransitionError::UnknownPlayer(name.to_owned())),
            Some(idx) => {
                self.players.remove(idx);
                assert(self@.players =~= old(self)@.players.remove(idx as int));
                Ok(())
            },
        }
    }

    // ----- Lobby -> Collecting ------------------------------------------------

    /// Lock the roster, assign each player a prompt set (round-robin over the
    /// available sets) and their partner (the next player in the ring), and
    /// open submissions.
    pub fn start_collecting(&mut self) -> (outcome: Result<(), TransitionError>)
        ensures
            crate::game::carries_out(
                old(self)@.start_collecting(),
                old(self)@,
                final(self)@,
                outcome,
            ),
    {
        self.require_phase(Phase::Lobby)?;
        if self.players.is_empty() {
            return Err(TransitionError::NoPlayers);
        }
        if self.prompt_sets.is_empty() {
            return Err(TransitionError::NoPromptSets);
        }
        let n: usize = self.players.len();
        let sets: usize = self.prompt_sets.len();
        let mut assigned: Vec<Player> = Vec::new();
        let mut i: usize = 0;
        while i < n
            invariant
                i <= n,
                0 < n == self.players.len(),
                0 < sets == self.prompt_sets.len(),
                assigned.len() == i,
                self@ == old(self)@,
                forall|j: int| 0 <= j < i ==> (#[trigger] assigned@[j])@ == self@.assigned(j),
            decreases n - i,
        {
            let set_id: i64 = self.prompt_sets[i % sets].id;
            // Ring: each player writes for the next; the last writes for the first.
            let partner = self.players[(i + 1) % n].name.clone();
            assigned.push(
                Player {
                    name: self.players[i].name.clone(),
                    prompt_set_id: Some(set_id),
                    partner: Some(partner),
                    responses: None,
                },
            );
            assert(assigned@[i as int]@ =~= self@.assigned(i as int));
            i = i + 1;
        }
        self.players = assigned;
        self.phase = Phase::Collecting;
        assert(self@.players =~= Seq::new(
            old(self)@.players.len(),
            |i: int| old(self)@.assigned(i),
        ));
        Ok(())
    }

    // ----- submissions (Collecting) -------------------------------------------

    /// Record a player's responses. The number of response items must match the
    /// number of prompts in their assigned set.
    pub fn submit_responses(&mut self, name: &str, items: Vec<String>, signoff: String) -> (outcome:
        Result<(), TransitionError>)
        ensures
            crate::game::carries_out(
                old(self)@.submit_responses(
                    name@,
                    (ResponsesView { items: crate::text::views_of(items@), signoff: signoff@ }),
                ),
                old(self)@,
                final(self)@,
                outcome,
            ),
    {
        self.require_phase(Phase::Collecting)?;
        let idx: usize = match self.player_index(name) {
            Some(idx) => idx,
            None => return Err(TransitionError::UnknownPlayer(name.to_owned())),
        };
        let set_id: i64 = match self.players[idx].prompt_set_id {
            Some(id) => id,
            None => return Err(TransitionError::NoAssignment(name.to_owned())),
        };
        let expected: usize = match self.prompt_set(set_id) {
            Some(set) => set.prompts.len(),
            None => 0,
        };
        if items.len() != expected {
            return Err(TransitionError::ResponseCountMismatch { expected, got: items.len() });
        }
        let ghost answers = ResponsesView {
            items: crate::text::views_of(items@),
            signoff: signoff@,
        };
        self.players[idx].responses = Some(Responses { items, signoff });
        assert(self@.players =~= old(self)@.players.update(
            idx as int,
            PlayerView { responses: Some(answers), ..old(self)@.players[idx as int] },
        ));
        Ok(())
    }

    /// How many players have handed in their answers.
    pub fn submitted_count(&self) -> (count: usize)
        ensures
            count == self@.submitted_count(),
    {
        let ghost submitted = |p: PlayerView| p.submitted();
        let mut count: usize = 0;
        let mut i: usize = 0;
        while i < self.players.len()
            invariant
                i <= self.players.len(),
                count <= i,
                submitted == (|p: PlayerView| p.submitted()),
                count == self@.players.take(i as int).filter(submitted).len(),
            decreases self.players.len() - i,
        {
            proof {
                let seen = self@.players.take(i as int);
                let now = self@.players.take(i + 1);
                assert(now.drop_last() =~= seen);
                reveal(Seq::filter);
            }
            if self.players[i].submitted() {
                count = count + 1;
            }
            i = i + 1;
        }
        assert(self@.players.take(i as int) =~= self@.players);
        count
    }

    /// Has everyone (and at least one player) handed in their answers?
    pub fn all_submitted(&self) -> (all: bool)
        ensures
            all == self@.all_submitted(),
    {
        if self.players.is_empty() {
            return false;
        }
        let mut i: usize = 0;
        while i < self.players.len()
            invariant
                i <= self.players.len(),
                forall|j: int| 0 <= j < i ==> (#[trigger] self@.players[j]).submitted(),
            decreases self.players.len() - i,
        {
            if !self.players[i].submitted() {
                assert(!self@.players[i as int].submitted());
                return false;
            }
            assert(self@.players[i as int].submitted());
            i = i + 1;
        }
        true
    }

    // ----- Collecting -> Performing -------------------------------------------

    /// Begin the performance at the first slide, once everyone has submitted.
    pub fn start_game(&mut self) -> (outcome: Result<(), TransitionError>)
        ensures
            crate::game::carries_out(
                old(self)@.start_game(),
                old(self)@,
                final(self)@,
                outcome,
            ),
    {
        self.require_phase(Phase::Collecting)?;
        if !self.all_submitted() {
            return Err(TransitionError::NotAllSubmitted);
        }
        self.phase = Phase::Performing;
        self.current_slide = 0;
        Ok(())
    }

    // ----- carousel control (Performing) --------------------------------------

    /// The length of the carousel.
    pub fn total_slides(&self) -> (total: usize)
        ensures
            total == self@.deck().len(),
    {
        self.build_slides().len()
    }

    /// Move one slide on, but never past the last one; returns the new index.
    pub fn advance_slide(&mut self) -> (outcome: Result<usize, TransitionError>)
        ensures
            crate::game::carries_out(
                old(self)@.advance_slide(),
                old(self)@,
                final(self)@,
                outcome,
            ),
            outcome is Ok ==> outcome->Ok_0 == final(self)@.current_slide,
    {
        self.require_phase(Phase::Performing)?;
        let last: usize = self.total_slides().saturating_sub(1);
        if self.current_slide < last {
            self.current_slide = self.current_slide + 1;
        }
        Ok(self.current_slide)
    }

    /// Move one slide back, but never before the first one; returns the new index.
    pub fn prev_slide(&mut self) -> (outcome: Result<usize, TransitionError>)
        ensures
            crate::game::carries_out(
                old(self)@.prev_slide(),
                old(self)@,
                final(self)@,
                outcome,
            ),
            outcome is Ok ==> outcome->Ok_0 == final(self)@.current_slide,
    {
        self.require_phase(Phase::Performing)?;
        self.current_slide = self.current_slide.saturating_sub(1);
        Ok(self.current_slide)
    }

    /// Jump to a slide of the deck; returns the new index.
    pub fn goto_slide(&mut self, index: usize) -> (outcome: Result<usize, TransitionError>)
        ensures
            crate::game::carries_out(
                old(self)@.goto_slide(index as nat),
                old(self)@,
                final(self)@,
                outcome,
            ),
            outcome is Ok ==> outcome->Ok_0 == final(self)@.current_slide,
    {
        self.require_phase(Phase::Performing)?;
        if index >= self.total_slides() {
            return Err(TransitionError::SlideOutOfRange(index));
        }
        self.current_slide = index;
        Ok(self.current_slide)
    }

    /// Append the slides of one player to a deck.
    fn push_segment(&self, slides: &mut Vec<Slide>, i: usize)
        requires
            i < self.players.len(),
        ensures
            slide_views(final(slides)@) == slide_views(old(slides)@) + self@.segment(i as int),
    {
        let player = &self.players[i];
        let presenter = player.presenter();
        slides.push(
            Slide::PresenterIntro {
                presenter: presenter.clone(),
                teleprompter: player.name.clone(),
                first: i == 0,
            },
        );
        slides.push(Slide::Greeting { presenter: presenter.clone() });
        let prompts = self.prompts_of(player);
        let answers = player.answers();
        let ghost head = slide_views(slides@);
        let ghost lines = crate::game::script(self@.prompt_sets, player@);
        assert(head =~= slide_views(old(slides)@) + seq![
            SlideView::PresenterIntro {
                presenter: presenter@,
                teleprompter: player@.name,
                first: i == 0,
            },
            SlideView::Greeting { presenter: presenter@ },
        ]);
        let mut j: usize = 0;
        while j < prompts.len()
            invariant
                j <= prompts.len(),
                crate::text::views_of(prompts@) == self@.prompts_of(player@),
                answers@ == player@.answers(),
                presenter@ == player@.presenter(),
                lines == crate::game::script(self@.prompt_sets, player@),
                slide_views(slides@) == head + lines.take(j as int),
            decreases prompts.len() - j,
        {
            let text = if j < answers.items.len() {
                join_text(prompts[j].as_str(), answers.items[j].as_str())
            } else {
                prompts[j].clone()
            };
            assert(prompts@[j as int]@ == self@.prompts_of(player@)[j as int]);
            assert(j < answers.items.len() ==> answers.items@[j as int]@
                == player@.answers().items[j as int]);
            assert(text@ =~= crate::game::script_line(self@.prompt_sets, player@, j as int));
            let ghost before = slides@;
            slides.push(Slide::Script { reader: presenter.clone(), text });
            assert(slide_views(slides@) =~= slide_views(before).push(lines[j as int]));
            assert(lines.take(j + 1) =~= lines.take(j as int).push(lines[j as int]));
            j = j + 1;
        }
        assert(lines.take(j as int) =~= lines);
        let ghost body = slides@;
        slides.push(Slide::Signoff { presenter, text: answers.signoff });
        assert(slide_views(slides@) =~= slide_views(body).push(
            SlideView::Signoff { presenter: presenter@, text: player@.answers().signoff },
        ));
        assert(self@.players[i as int] == player@);
        assert(slide_views(slides@) =~= slide_views(old(slides)@) + self@.segment(i as int));
    }

    /// Generate the full ordered slide deck from the current roster and answers:
    /// a rules slide, then per player a presenter intro, greeting, one slide per
    /// prompt, and a sign-off; then a credits slide and a trailing blank.
    pub fn build_slides(&self) -> (slides: Vec<Slide>)
        ensures
            slide_views(slides@) == self@.deck(),
    {
        let mut slides: Vec<Slide> = Vec::new();
        slides.push(Slide::Rules);
        assert(slide_views(slides@) =~= seq![SlideView::Rules] + self@.segments(0));
        let mut i: usize = 0;
        while i < self.players.len()
            invariant
                i <= self.players.len(),
                slide_views(slides@) == seq![SlideView::Rules] + self@.segments(i as nat),
            decreases self.players.len() - i,
        {
            self.push_segment(&mut slides, i);
            assert(slide_views(slides@) =~= seq![SlideView::Rules] + self@.segments(
                (i + 1) as nat,
            ));
            i = i + 1;
        }
        slides.push(Slide::Credits);
        slides.push(Slide::Blank);
        assert(slide_views(slides@) =~= self@.deck());
        slides
    }

    /// The slide at an index of the carousel.
    pub fn slide_at(&self, index: usize) -> (slide: Option<Slide>)
        ensures
            slide is Some <==> self@.slide_at(index as nat) is Some,
            slide is Some ==> self@.slide_at(index as nat) == Some(slide->0@),
    {
        let mut slides = self.build_slides();
        if index < slides.len() {
            assert(self@.deck()[index as int] == slides@[index as int]@);
            Some(slides.swap_remove(index))
        } else {
            None
        }
    }

    /// Who may move the carousel beside the host: the performer of the current
    /// slide, while the performance lasts.
    pub fn current_controller(&self) -> (controller: Option<String>)
        ensures
            crate::text::opt_view(controller) == self@.current_controller(),
    {
        if self.phase != Phase::Performing {
            return None;
        }
        match self.slide_at(self.current_slide) {
            Some(Slide::PresenterIntro { presenter, .. }) => Some(presenter),
            Some(Slide::Greeting { presenter }) => Some(presenter),
            Some(Slide::Script { reader, .. }) => Some(reader),
            Some(Slide::Signoff { presenter, .. }) => Some(presenter),
            Some(Slide::Rules) | Some(Slide::Credits) | Some(Slide::Blank) | None => None,
        }
    }

    // ----- archive + reset ----------------------------------------------------

    /// Every player's answers with the prompts they answered: what the
    /// persistence layer keeps of a round.
    pub fn round_entries(&self) -> (entries: Vec<ArchivedEntry>)
        ensures
            entry_views(entries@) == self@.round_entries(),
    {
        let mut entries: Vec<ArchivedEntry> = Vec::new();
        let mut i: usize = 0;
        while i < self.players.len()
            invariant
                i <= self.players.len(),
                entries.len() == i,
                entry_views(entries@) =~= self@.round_entries().take(i as int),
            decreases self.players.len() - i,
        {
            let player = &self.players[i];
            let answers = player.answers();
            let ghost before = entries@;
            entries.push(
                ArchivedEntry {
                    name: player.name.clone(),
                    partner: copy_opt(&player.partner),
                    prompt_set_id: player.prompt_set_id,
                    prompts: self.prompts_of(player),
                    responses: answers.items,
                    signoff: answers.signoff,
                },
            );
            assert(entries@[i as int]@ =~= crate::game::entry(
                self@.prompt_sets,
                self@.players[i as int],
            ));
            assert(entry_views(entries@) =~= entry_views(before).push(
                self@.round_entries()[i as int],
            ));
            i = i + 1;
        }
        assert(self@.round_entries().take(i as int) =~= self@.round_entries());
        entries
    }

    /// Snapshot every player's answers (with the prompts they answered) and move
    /// the room to `Archived`. The returned entries are what the persistence
    /// layer writes to the durable archive table.
    pub fn archive_round(&mut self) -> (outcome: Result<Vec<ArchivedEntry>, TransitionError>)
        ensures
            crate::game::carries_out(
                old(self)@.archive_round(),
                old(self)@,
                final(self)@,
                outcome,
            ),
            outcome is Ok ==> entry_views(outcome->Ok_0@) == old(self)@.round_entries(),
    {
        self.require_phase(Phase::Performing)?;
        let entries = self.round_entries();
        self.phase = Phase::Archived;
        Ok(entries)
    }

    /// Start a fresh round: clear the roster and return to the Lobby. Allowed
    /// only after a round has been archived.
    pub fn new_round(&mut self) -> (outcome: Result<(), TransitionError>)
        ensures
            crate::game::carries_out(
                old(self)@.new_round(),
                old(self)@,
                final(self)@,
                outcome,
            ),
    {
        self.require_phase(Phase::Archived)?;
        self.reset();
        Ok(())
    }

    /// Wipe the slate from any phase back to an empty Lobby (the host's
    /// "delete all" control).
    pub fn reset(&mut self)
        ensures
            final(self)@ == old(self)@.reset(),
    {
        self.players.clear();
        self.current_slide = 0;
        self.phase = Phase::Lobby;
        assert(self@ =~= old(self)@.reset());
    }
}

} // verus!
