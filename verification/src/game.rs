//! The mathematical game: what a room's state is worth and how it changes.
//!
//! Every question about a [`GameView`] is a spec function here, and every
//! transition yields either the next state or the reason of the refusal.

use vstd::prelude::*;

use crate::state::{
    ArchivedEntryView, GameView, Phase, PlayerView, PromptSetView, ResponsesView, SlideView,
    TransitionError, TransitionErrorView,
};

verus! {

/// Is `i` the first place on a roster that holds `name`?
pub open spec fn is_place(players: Seq<PlayerView>, name: Seq<char>, i: int) -> bool {
    &&& 0 <= i < players.len()
    &&& players[i].name == name
    &&& forall|j: int| 0 <= j < i ==> (#[trigger] players[j]).name != name
}

/// Is `i` the first place in a catalog that holds the prompt set `id`?
pub open spec fn is_set_place(sets: Seq<PromptSetView>, id: i64, i: int) -> bool {
    &&& 0 <= i < sets.len()
    &&& sets[i].id == id
    &&& forall|j: int| 0 <= j < i ==> (#[trigger] sets[j]).id != id
}

/// The first prompt set of a catalog with the given id.
pub open spec fn find_set(sets: Seq<PromptSetView>, id: i64) -> Option<PromptSetView> {
    if exists|i: int| is_set_place(sets, id, i) {
        Some(sets[choose|i: int| is_set_place(sets, id, i)])
    } else {
        None
    }
}

/// The prompts that a player was given to answer; none without an assignment.
pub open spec fn prompts_of(sets: Seq<PromptSetView>, player: PlayerView) -> Seq<Seq<char>> {
    match player.prompt_set_id {
        Some(id) => match find_set(sets, id) {
            Some(set) => set.prompts,
            None => Seq::empty(),
        },
        None => Seq::empty(),
    }
}

/// The line that a player wrote for prompt `j`: the prompt, then the answer.
pub open spec fn script_line(sets: Seq<PromptSetView>, player: PlayerView, j: int) -> Seq<char> {
    let items = player.answers().items;
    prompts_of(sets, player)[j] + (if j < items.len() {
        items[j]
    } else {
        Seq::empty()
    })
}

/// One slide per prompt.
pub open spec fn script(sets: Seq<PromptSetView>, player: PlayerView) -> Seq<SlideView> {
    Seq::new(
        prompts_of(sets, player).len(),
        |j: int| SlideView::Script {
            reader: player.presenter(),
            text: script_line(sets, player, j),
        },
    )
}

/// The slides of one player: an intro, a greeting, one slide per prompt and a
/// sign-off, all performed by the player's partner.
pub open spec fn segment(sets: Seq<PromptSetView>, player: PlayerView, first: bool) -> Seq<
    SlideView,
> {
    let presenter = player.presenter();
    seq![
        SlideView::PresenterIntro { presenter, teleprompter: player.name, first },
        SlideView::Greeting { presenter },
    ] + script(sets, player) + seq![
        SlideView::Signoff { presenter, text: player.answers().signoff },
    ]
}

/// The slides of the first `n` players, one after the other.
pub open spec fn segments(sets: Seq<PromptSetView>, players: Seq<PlayerView>, n: nat) -> Seq<
    SlideView,
>
    decreases n,
{
    if n == 0 {
        Seq::empty()
    } else {
        segments(sets, players, (n - 1) as nat) + segment(sets, players[n - 1], n == 1)
    }
}

/// What is kept of one player's round.
pub open spec fn entry(sets: Seq<PromptSetView>, player: PlayerView) -> ArchivedEntryView {
    ArchivedEntryView {
        name: player.name,
        partner: player.partner,
        prompt_set_id: player.prompt_set_id,
        prompts: prompts_of(sets, player),
        responses: player.answers().items,
        signoff: player.answers().signoff,
    }
}

impl GameView {
    /// An empty lobby with the given prompt sets.
    pub open spec fn new(code: Seq<char>, prompt_sets: Seq<PromptSetView>) -> GameView {
        GameView {
            code,
            phase: Phase::Lobby,
            players: Seq::empty(),
            prompt_sets,
            current_slide: 0,
        }
    }

    /// Is `i` the first place on the roster that holds `name`?
    pub open spec fn is_place(self, name: Seq<char>, i: int) -> bool {
        is_place(self.players, name, i)
    }

    /// Is `name` on the roster?
    pub open spec fn has_player(self, name: Seq<char>) -> bool {
        exists|i: int| 0 <= i < self.players.len() && (#[trigger] self.players[i]).name == name
    }

    /// The place of `name` on the roster.
    pub open spec fn place(self, name: Seq<char>) -> int
        recommends
            self.has_player(name),
    {
        choose|i: int| is_place(self.players, name, i)
    }

    /// The first prompt set with the given id.
    pub open spec fn prompt_set(self, id: i64) -> Option<PromptSetView> {
        find_set(self.prompt_sets, id)
    }

    /// The prompts that a player was given to answer; none without an assignment.
    pub open spec fn prompts_of(self, player: PlayerView) -> Seq<Seq<char>> {
        prompts_of(self.prompt_sets, player)
    }

    /// How many players have handed in their answers.
    pub open spec fn submitted_count(self) -> nat {
        self.players.filter(|p: PlayerView| p.submitted()).len()
    }

    /// Has everyone (and at least one player) handed in their answers?
    pub open spec fn all_submitted(self) -> bool {
        &&& self.players.len() > 0
        &&& forall|i: int| 0 <= i < self.players.len() ==> (#[trigger] self.players[i]).submitted()
    }

    // ----- the slide deck -----------------------------------------------------------

    /// The slides of player `i`.
    pub open spec fn segment(self, i: int) -> Seq<SlideView> {
        segment(self.prompt_sets, self.players[i], i == 0)
    }

    /// The slides of the first `n` players, one after the other.
    pub open spec fn segments(self, n: nat) -> Seq<SlideView> {
        segments(self.prompt_sets, self.players, n)
    }

    /// The whole carousel: the rules, every player's segment, the credits, and a
    /// trailing blank.
    pub open spec fn deck(self) -> Seq<SlideView> {
        seq![SlideView::Rules] + self.segments(self.players.len()) + seq![
            SlideView::Credits,
            SlideView::Blank,
        ]
    }

    /// The slide at an index of the carousel.
    pub open spec fn slide_at(self, index: nat) -> Option<SlideView> {
        if index < self.deck().len() {
            Some(self.deck()[index as int])
        } else {
            None
        }
    }

    /// Who may move the carousel beside the host: the performer of the current
    /// slide, while the performance lasts.
    pub open spec fn current_controller(self) -> Option<Seq<char>> {
        if self.phase == Phase::Performing {
            match self.slide_at(self.current_slide) {
                Some(slide) => slide.performer(),
                None => None,
            }
        } else {
            None
        }
    }

    // ----- the round's artifact -------------------------------------------------------

    /// What is kept of the round, one entry per player in roster order.
    pub open spec fn round_entries(self) -> Seq<ArchivedEntryView> {
        let sets = self.prompt_sets;
        self.players.map_values(|p: PlayerView| entry(sets, p))
    }

    // ----- transitions ----------------------------------------------------------------

    /// The refusal of an action outside its phase.
    pub open spec fn wrong_phase(self) -> TransitionErrorView {
        TransitionErrorView::WrongPhase { phase: self.phase }
    }

    /// Add a fresh player at the end of the roster; the lobby only, and every name
    /// only once.
    pub open spec fn add_player(self, name: Seq<char>) -> Result<GameView, TransitionErrorView> {
        if self.phase != Phase::Lobby {
            Err(self.wrong_phase())
        } else if self.has_player(name) {
            Err(TransitionErrorView::DuplicatePlayer(name))
        } else {
            Ok(GameView { players: self.players.push(PlayerView::new(name)), ..self })
        }
    }

    /// Take a player off the roster; the lobby only.
    pub open spec fn remove_player(self, name: Seq<char>) -> Result<GameView, TransitionErrorView> {
        if self.phase != Phase::Lobby {
            Err(self.wrong_phase())
        } else if !self.has_player(name) {
            Err(TransitionErrorView::UnknownPlayer(name))
        } else {
            Ok(GameView { players: self.players.remove(self.place(name)), ..self })
        }
    }

    /// Player `i` with their assignment: the prompt sets go round robin, and each
    /// player writes for the next one in the ring.
    pub open spec fn assigned(self, i: int) -> PlayerView {
        PlayerView {
            name: self.players[i].name,
            prompt_set_id: Some(self.prompt_sets[i % self.prompt_sets.len() as int].id),
            partner: Some(self.players[(i + 1) % self.players.len() as int].name),
            responses: None,
        }
    }

    /// Lock the roster, hand out the assignments, and open submissions.
    pub open spec fn start_collecting(self) -> Result<GameView, TransitionErrorView> {
        if self.phase != Phase::Lobby {
            Err(self.wrong_phase())
        } else if self.players.len() == 0 {
            Err(TransitionErrorView::NoPlayers)
        } else if self.prompt_sets.len() == 0 {
            Err(TransitionErrorView::NoPromptSets)
        } else {
            Ok(
                GameView {
                    phase: Phase::Collecting,
                    players: Seq::new(self.players.len(), |i: int| self.assigned(i)),
                    ..self
                },
            )
        }
    }

    /// Record a player's answers, in place of any that they gave before.
    pub open spec fn submit_responses(
        self,
        name: Seq<char>,
        answers: ResponsesView,
    ) -> Result<GameView, TransitionErrorView> {
        if self.phase != Phase::Collecting {
            Err(self.wrong_phase())
        } else if !self.has_player(name) {
            Err(TransitionErrorView::UnknownPlayer(name))
        } else {
            let i = self.place(name);
            let player = self.players[i];
            let expected = self.prompts_of(player).len();
            if player.prompt_set_id is None {
                Err(TransitionErrorView::NoAssignment(name))
            } else if answers.items.len() != expected {
                Err(
                    TransitionErrorView::ResponseCountMismatch {
                        expected,
                        got: answers.items.len(),
                    },
                )
            } else {
                Ok(
                    GameView {
                        players: self.players.update(
                            i,
                            PlayerView { responses: Some(answers), ..player },
                        ),
                        ..self
                    },
                )
            }
        }
    }

    /// Begin the performance at the first slide, once everyone has submitted.
    pub open spec fn start_game(self) -> Result<GameView, TransitionErrorView> {
        if self.phase != Phase::Collecting {
            Err(self.wrong_phase())
        } else if !self.all_submitted() {
            Err(TransitionErrorView::NotAllSubmitted)
        } else {
            Ok(GameView { phase: Phase::Performing, current_slide: 0, ..self })
        }
    }

    /// Move one slide on, but never past the last one.
    pub open spec fn advance_slide(self) -> Result<GameView, TransitionErrorView> {
        if self.phase != Phase::Performing {
            Err(self.wrong_phase())
        } else if self.current_slide + 1 < self.deck().len() {
            Ok(GameView { current_slide: self.current_slide + 1, ..self })
        } else {
            Ok(self)
        }
    }

    /// Move one slide back, but never before the first one.
    pub open spec fn prev_slide(self) -> Result<GameView, TransitionErrorView> {
        if self.phase != Phase::Performing {
            Err(self.wrong_phase())
        } else if self.current_slide > 0 {
            Ok(GameView { current_slide: (self.current_slide - 1) as nat, ..self })
        } else {
            Ok(self)
        }
    }

    /// Jump to a slide of the deck.
    pub open spec fn goto_slide(self, index: nat) -> Result<GameView, TransitionErrorView> {
        if self.phase != Phase::Performing {
            Err(self.wrong_phase())
        } else if index >= self.deck().len() {
            Err(TransitionErrorView::SlideOutOfRange(index))
        } else {
            Ok(GameView { current_slide: index, ..self })
        }
    }

    /// End the performance. What is kept of the round is its `round_entries`.
    pub open spec fn archive_round(self) -> Result<GameView, TransitionErrorView> {
        if self.phase != Phase::Performing {
            Err(self.wrong_phase())
        } else {
            Ok(GameView { phase: Phase::Archived, ..self })
        }
    }

    /// Back to an empty lobby, from any phase.
    pub open spec fn reset(self) -> GameView {
        GameView::new(self.code, self.prompt_sets)
    }

    /// Back to an empty lobby, once the round has been archived.
    pub open spec fn new_round(self) -> Result<GameView, TransitionErrorView> {
        if self.phase != Phase::Archived {
            Err(self.wrong_phase())
        } else {
            Ok(self.reset())
        }
    }
}

/// What every executable transition does: where the mathematical transition
/// succeeds, it succeeds and the state is the next one; where that refuses, it
/// returns the same reason and leaves the state as it was.
pub open spec fn carries_out<T>(
    step: Result<GameView, TransitionErrorView>,
    before: GameView,
    after: GameView,
    outcome: Result<T, TransitionError>,
) -> bool {
    match step {
        Ok(next) => outcome is Ok && after == next,
        Err(reason) => outcome is Err && outcome->Err_0@ == reason && after == before,
    }
}

/// A place on the roster is the only one.
pub proof fn lemma_place(game: GameView, name: Seq<char>, i: int)
    requires
        game.is_place(name, i),
    ensures
        game.has_player(name),
        game.place(name) == i,
{
    let k = game.place(name);
    assert(is_place(game.players, name, i));
    assert(is_place(game.players, name, k));
    assert(game.players[i].name == name);
    assert(game.players[k].name == name);
}

/// A place in the catalog is the only one.
pub proof fn lemma_set_place(sets: Seq<PromptSetView>, id: i64, i: int)
    requires
        is_set_place(sets, id, i),
    ensures
        find_set(sets, id) == Some(sets[i]),
{
    let k = choose|k: int| is_set_place(sets, id, k);
    assert(is_set_place(sets, id, k));
    assert(sets[i].id == id);
    assert(sets[k].id == id);
}

} // verus!
