//! What the registry keeps of the rooms opened and removed.

use vstd::prelude::*;

use crate::registry;

verus! {

/// An opened room is found under its code, every other code leads where it led before,
/// and there is one live room more.
pub proof fn law_an_opened_room_is_found<H>(
    before: Map<Seq<char>, H>,
    after: Map<Seq<char>, H>,
    code: Seq<char>,
    other: Seq<char>,
)
    requires
        registry::opened(before, after, code),
        other != code,
    ensures
        after.contains_key(code),
        after.contains_key(other) == before.contains_key(other),
        before.contains_key(other) ==> after[other] == before[other],
        after.len() == before.len() + 1,
{
}

/// The first free code of a list is one that no live room has, behind codes in use alone.
pub proof fn law_the_first_free_code_comes_first<H>(
    rooms: Map<Seq<char>, H>,
    codes: Seq<String>,
    i: int,
)
    ensures
        registry::is_first_free(rooms, codes, i) <==> 0 <= i < codes.len() && !rooms.contains_key(
            codes[i]@,
        ) && forall|j: int| 0 <= j < i ==> rooms.contains_key((#[trigger] codes[j])@),
{
}

/// The next free code is one that no live room has, behind codes in use alone; the numbers
/// go round.
pub proof fn law_the_next_free_code_comes_next<H>(
    rooms: Map<Seq<char>, H>,
    first: int,
    k: int,
)
    ensures
        registry::is_next_free(rooms, first, k) <==> 0 <= k < registry::CODES
            && !rooms.contains_key(registry::code_at((first + k) % registry::CODES as int))
            && forall|j: int|
            0 <= j < k ==> rooms.contains_key(
                #[trigger] registry::code_at((first + j) % registry::CODES as int),
            ),
{
}

/// All codes are in use just when every word of four characters of the alphabet is one.
pub proof fn law_a_free_code_is_a_word_not_in_use<H>(rooms: Map<Seq<char>, H>)
    ensures
        registry::all_in_use(rooms) <==> forall|word: Seq<char>|
            word.len() == 4 && (forall|i: int|
                0 <= i < 4 ==> registry::CODE_ALPHABET@.contains(#[trigger] word[i]))
                ==> #[trigger] rooms.contains_key(word),
{
    if registry::all_in_use(rooms) {
        assert forall|word: Seq<char>|
            word.len() == 4 && (forall|i: int|
                0 <= i < 4 ==> registry::CODE_ALPHABET@.contains(
                    #[trigger] word[i],
                )) implies #[trigger] rooms.contains_key(word) by {
            assert(registry::is_code(word));
        }
    }
    if forall|word: Seq<char>|
        word.len() == 4 && (forall|i: int|
            0 <= i < 4 ==> registry::CODE_ALPHABET@.contains(#[trigger] word[i]))
            ==> #[trigger] rooms.contains_key(word) {
        assert forall|code: Seq<char>| #[trigger]
            registry::is_code(code) implies rooms.contains_key(code) by {}
    }
}

/// To remove a room undoes its opening.
pub proof fn law_removal_undoes_an_opening<H>(
    before: Map<Seq<char>, H>,
    after: Map<Seq<char>, H>,
    code: Seq<char>,
)
    requires
        registry::opened(before, after, code),
    ensures
        after.remove(code) == before,
        after.remove(code).len() == after.len() - 1,
        !after.remove(code).contains_key(code),
{
    assert(after.remove(code) =~= before);
}

} // verus!
