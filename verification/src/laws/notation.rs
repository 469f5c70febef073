//! What the words of the library spell: numbers, bytes, join codes, phases and errors.

use vstd::prelude::*;

use crate::error::AppErrorView;
use crate::registry;
use crate::state;
use crate::state::{Phase, ResponsesView, SlideView, TransitionErrorView};
use crate::text;

verus! {

/// The digit of a number below sixteen: `0` to `9`, then `a` to `f`.
pub proof fn law_digits_are_hexadecimal(d: int)
    requires
        0 <= d < 16,
    ensures
        d < 10 ==> text::digit(d) as int == '0' as int + d,
        d >= 10 ==> text::digit(d) as int == 'a' as int + (d - 10),
{
    reveal_strlit("0123456789abcdef");
}

/// Decimal notation writes the digit of the remainder by ten behind the notation of the
/// quotient; a number below ten is its digit.
pub proof fn law_decimal_notation(n: nat, d: nat)
    requires
        d < 10,
    ensures
        text::decimal(d).len() == 1,
        text::decimal(d)[0] as int == '0' as int + d,
        n > 0 ==> text::decimal(10 * n + d) == text::decimal(n) + text::decimal(d),
{
    law_digits_are_hexadecimal(d as int);
    if n > 0 {
        assert((10 * n + d) / 10 == n && (10 * n + d) % 10 == d);
        assert(text::decimal(10 * n + d) =~= text::decimal(n) + text::decimal(d));
    }
}

/// Hexadecimal notation writes each byte in its place, the higher digit first.
pub proof fn law_hexadecimal_notation(bytes: Seq<u8>, i: int)
    requires
        0 <= i < bytes.len(),
    ensures
        text::hex_view(bytes).len() == 2 * bytes.len(),
        text::hex_view(bytes)[2 * i] == text::digit(bytes[i] as int / 16),
        text::hex_view(bytes)[2 * i + 1] == text::digit(bytes[i] as int % 16),
{
    assert((2 * i) / 2 == i && (2 * i) % 2 == 0);
    assert((2 * i + 1) / 2 == i && (2 * i + 1) % 2 == 1);
}

/// A word is of so many bytes just when it is their notation.
pub proof fn law_random_words_are_notations(word: Seq<char>, bytes: Seq<u8>)
    ensures
        word == text::hex_view(bytes) ==> registry::is_hex_of(word, bytes.len()),
        registry::is_hex_of(word, bytes.len()) ==> word.len() == 2 * bytes.len() && forall|i: int|
            0 <= i < word.len() ==> '0' <= #[trigger] word[i] <= '9' || 'a' <= word[i] <= 'f',
{
    if registry::is_hex_of(word, bytes.len()) {
        let b = choose|b: Seq<u8>| b.len() == bytes.len() && word == #[trigger] text::hex_view(b);
        assert forall|i: int| 0 <= i < word.len() implies '0' <= #[trigger] word[i] <= '9' || 'a'
            <= word[i] <= 'f' by {
            let k = i / 2;
            law_hexadecimal_notation(b, k);
            law_digits_are_hexadecimal(b[k] as int / 16);
            law_digits_are_hexadecimal(b[k] as int % 16);
            assert(i == 2 * k || i == 2 * k + 1);
        }
    }
}

/// A join code is any word of four characters of the alphabet, which has 31 of them.
pub proof fn law_join_codes_are_words_of_the_alphabet(word: Seq<char>)
    ensures
        registry::CODE_ALPHABET@ == "ABCDEFGHJKMNPQRSTUVWXYZ23456789"@,
        registry::CODE_ALPHABET@.len() == 31,
        registry::is_code(word) <==> word.len() == 4 && forall|i: int|
            0 <= i < word.len() ==> registry::CODE_ALPHABET@.contains(#[trigger] word[i]),
{
    reveal_strlit("ABCDEFGHJKMNPQRSTUVWXYZ23456789");
}

/// A code spells each draw by the character of the alphabet at that place.
pub proof fn law_codes_spell_their_draws(draws: Seq<usize>, i: int)
    requires
        0 <= i < draws.len(),
    ensures
        registry::code_of(draws).len() == draws.len(),
        registry::code_of(draws)[i] == "ABCDEFGHJKMNPQRSTUVWXYZ23456789"@[draws[i] as int],
{
}

/// The numbers of the join codes count them through: 31 to the fourth of them, the last
/// character first, and every code has one number only.
pub proof fn law_join_codes_are_numbered(a: int, b: int, c: int, d: int)
    requires
        0 <= a < 31,
        0 <= b < 31,
        0 <= c < 31,
        0 <= d < 31,
    ensures
        registry::CODES == 31 * 31 * 31 * 31,
        ({
            let alphabet = "ABCDEFGHJKMNPQRSTUVWXYZ23456789"@;
            registry::code_at(29791 * a + 961 * b + 31 * c + d) == seq![
                alphabet[a],
                alphabet[b],
                alphabet[c],
                alphabet[d],
            ]
        }),
{
    let n = 29791 * a + 961 * b + 31 * c + d;
    assert(n / 29791 == a);
    assert(n / 961 == 31 * a + b);
    assert(n / 31 == 961 * a + 31 * b + c);
}

/// The phases have their names.
pub proof fn law_phases_have_their_names()
    ensures
        state::phase_name(Phase::Lobby) == "Lobby"@,
        state::phase_name(Phase::Collecting) == "Collecting"@,
        state::phase_name(Phase::Performing) == "Performing"@,
        state::phase_name(Phase::Archived) == "Archived"@,
{
}

/// Every refusal has its sentence, with the phase, the name or the numbers it is about.
pub proof fn law_refusals_have_their_sentences(
    phase: Phase,
    name: Seq<char>,
    index: nat,
    expected: nat,
    got: nat,
)
    ensures
        (TransitionErrorView::WrongPhase { phase }).message() == "action not allowed in the "@
            + state::phase_name(phase) + " phase"@,
        TransitionErrorView::NoPlayers.message() == "the room has no players"@,
        TransitionErrorView::NoPromptSets.message() == "no prompt sets are available to assign"@,
        TransitionErrorView::UnknownPlayer(name).message() == "player '"@ + name
            + "' was not found in this room"@,
        TransitionErrorView::DuplicatePlayer(name).message() == "a player named '"@ + name
            + "' is already in this room"@,
        TransitionErrorView::NotAllSubmitted.message() == "not every player has submitted yet"@,
        TransitionErrorView::SlideOutOfRange(index).message() == "slide index "@ + text::decimal(
            index,
        ) + " is out of range"@,
        (TransitionErrorView::ResponseCountMismatch { expected, got }).message() == "expected "@
            + text::decimal(expected) + " responses but got "@ + text::decimal(got),
        TransitionErrorView::NoAssignment(name).message() == "player '"@ + name
            + "' has no assigned prompt set"@,
{
}

/// Every application error has its status, its code and the sentence it was made with.
pub proof fn law_application_errors_have_their_parts(message: Seq<char>)
    ensures
        AppErrorView::NotFound(message).status() == 404,
        AppErrorView::NotFound(message).code() == "not_found"@,
        AppErrorView::NotFound(message).message() == message,
        AppErrorView::BadRequest(message).status() == 400,
        AppErrorView::BadRequest(message).code() == "bad_request"@,
        AppErrorView::BadRequest(message).message() == message,
        AppErrorView::Internal(message).status() == 500,
        AppErrorView::Internal(message).code() == "internal"@,
        AppErrorView::Internal(message).message() == message,
{
}

/// No answers are no items and an empty sign-off.
pub proof fn law_no_answers_are_empty()
    ensures
        ResponsesView::none().items.len() == 0,
        ResponsesView::none().signoff.len() == 0,
{
}

/// A slide is performed by whom it names.
pub proof fn law_slides_are_performed_by_whom_they_name(
    who: Seq<char>,
    other: Seq<char>,
    first: bool,
)
    ensures
        (SlideView::PresenterIntro { presenter: who, teleprompter: other, first }).performer()
            == Some(who),
        (SlideView::Greeting { presenter: who }).performer() == Some(who),
        (SlideView::Script { reader: who, text: other }).performer() == Some(who),
        (SlideView::Signoff { presenter: who, text: other }).performer() == Some(who),
        SlideView::Rules.performer() is None,
        SlideView::Credits.performer() is None,
        SlideView::Blank.performer() is None,
{
}

} // verus!
