//! In-memory registry of live rooms, keyed by join code.
//!
//! A [`Registry`] maps each join code to the handle of its room, whatever kind of
//! handle the server uses. Join codes and host tokens are drawn at random here;
//! what is made of the draws is verified for every outcome.

use rand::Rng;
use vstd::hash_map::StringHashMap;
use vstd::prelude::*;

use crate::text::to_hex;

verus! {

/// Characters used for join codes: unambiguous uppercase letters/digits.
pub const CODE_ALPHABET: &'static str = "ABCDEFGHJKMNPQRSTUVWXYZ23456789";

/// How many characters the alphabet has.
pub const ALPHABET_LEN: usize = 31;

/// How many characters a join code has.
pub const CODE_LEN: usize = 4;

/// How many join codes there are.
pub const CODES: usize = 923521;

/// How many join codes are drawn for a room before the codes are tried in order.
pub const CODE_DRAWS: usize = 64;

/// How many random bytes a host token is made of.
pub const TOKEN_BYTES: usize = 24;

/// What a freshly created room hands back to the host: the public join code and
/// the secret host token.
#[derive(Clone, Debug)]
pub struct NewRoom {
    pub code: String,
    pub host_token: String,
}

// ----- random codes and tokens ------------------------------------------------------

/// The code that a list of draws from the alphabet spells.
pub open spec fn code_of(draws: Seq<usize>) -> Seq<char> {
    draws.map_values(|d: usize| CODE_ALPHABET@[d as int])
}

/// Is this a join code: as many characters as a code has, each of the alphabet?
pub open spec fn is_code(code: Seq<char>) -> bool {
    &&& code.len() == CODE_LEN
    &&& forall|i: int| 0 <= i < code.len() ==> CODE_ALPHABET@.contains(#[trigger] code[i])
}

/// The join code of a number below [`CODES`], with the alphabet for digits.
pub open spec fn code_at(n: int) -> Seq<char> {
    seq![
        CODE_ALPHABET@[n / 29791],
        CODE_ALPHABET@[n / 961 % 31],
        CODE_ALPHABET@[n / 31 % 31],
        CODE_ALPHABET@[n % 31],
    ]
}

/// The numbers lead to join codes.
pub proof fn lemma_code_at_is_a_code(n: int)
    requires
        0 <= n < CODES,
    ensures
        is_code(code_at(n)),
{
    reveal_strlit("ABCDEFGHJKMNPQRSTUVWXYZ23456789");
    let code = code_at(n);
    assert(0 <= n / 29791 < 31);
    assert(code[0] == CODE_ALPHABET@[n / 29791]);
    assert(code[1] == CODE_ALPHABET@[n / 961 % 31]);
    assert(code[2] == CODE_ALPHABET@[n / 31 % 31]);
    assert(code[3] == CODE_ALPHABET@[n % 31]);
}

/// Every join code has its number.
#[verifier::rlimit(40)]
pub proof fn lemma_every_code_has_its_number(code: Seq<char>) -> (n: int)
    requires
        is_code(code),
    ensures
        0 <= n < CODES,
        code == code_at(n),
{
    reveal_strlit("ABCDEFGHJKMNPQRSTUVWXYZ23456789");
    assert(CODE_ALPHABET@.contains(code[0]));
    assert(CODE_ALPHABET@.contains(code[1]));
    assert(CODE_ALPHABET@.contains(code[2]));
    assert(CODE_ALPHABET@.contains(code[3]));
    let a = CODE_ALPHABET@.index_of(code[0]);
    let b = CODE_ALPHABET@.index_of(code[1]);
    let c = CODE_ALPHABET@.index_of(code[2]);
    let d = CODE_ALPHABET@.index_of(code[3]);
    let n = 29791 * a + 961 * b + 31 * c + d;
    assert(n / 29791 == a);
    assert(n / 961 == 31 * a + b);
    assert(n / 31 == 961 * a + 31 * b + c);
    assert(code =~= code_at(n));
    n
}

/// Is this the hexadecimal notation of that many bytes?
pub open spec fn is_hex_of(s: Seq<char>, bytes: nat) -> bool {
    exists|b: Seq<u8>| b.len() == bytes && s == #[trigger] crate::text::hex_view(b)
}

/// Draws an index below `n` with `rand::Rng::gen_range` on `rand::thread_rng`. Of
/// the outcome it claims only that it lies in the range; the range must not be
/// empty, as the draw panics then.
#[verifier::external_body]
fn draw_below(n: usize) -> (d: usize)
    requires
        0 < n,
    ensures
        d < n,
{
    rand::thread_rng().gen_range(0..n)
}

/// Draws a byte with `rand::Rng::gen` on `rand::thread_rng`. It claims nothing of
/// the outcome.
#[verifier::external_body]
fn draw_byte() -> (b: u8) {
    rand::thread_rng().gen::<u8>()
}

/// Spell the code that a list of draws from the alphabet stands for.
pub fn code_from(draws: &Vec<usize>) -> (code: String)
    requires
        forall|i: int| 0 <= i < draws.len() ==> #[trigger] draws[i] < ALPHABET_LEN,
    ensures
        code@ == code_of(draws@),
{
    proof {
        reveal_strlit("ABCDEFGHJKMNPQRSTUVWXYZ23456789");
    }
    let mut code = String::new();
    let mut i: usize = 0;
    while i < draws.len()
        invariant
            i <= draws.len(),
            forall|i: int| 0 <= i < draws.len() ==> #[trigger] draws[i] < ALPHABET_LEN,
            CODE_ALPHABET.is_ascii(),
            CODE_ALPHABET@.len() == ALPHABET_LEN,
            code@ == code_of(draws@.take(i as int)),
        decreases draws.len() - i,
    {
        let d: usize = draws[i];
        code.append(CODE_ALPHABET.substring_ascii(d, d + 1));
        assert(code@ =~= code_of(draws@.take(i + 1)));
        i = i + 1;
    }
    assert(draws@.take(i as int) =~= draws@);
    code
}

/// Draw a join code, each character from the whole alphabet. Which one comes out is up
/// to chance, and nothing is said of it.
pub fn random_code() -> (code: String)
    ensures
        is_code(code@),
{
    let mut draws: Vec<usize> = Vec::new();
    while draws.len() < CODE_LEN
        invariant
            draws.len() <= CODE_LEN,
            forall|i: int| 0 <= i < draws.len() ==> #[trigger] draws[i] < ALPHABET_LEN,
        decreases CODE_LEN - draws.len(),
    {
        draws.push(draw_below(ALPHABET_LEN));
    }
    let code = code_from(&draws);
    proof {
        reveal_strlit("ABCDEFGHJKMNPQRSTUVWXYZ23456789");
        assert forall|i: int| 0 <= i < code@.len() implies CODE_ALPHABET@.contains(
            #[trigger] code@[i],
        ) by {
            assert(code@[i] == CODE_ALPHABET@[draws[i] as int]);
        }
    }
    code
}

/// Draw a list of join codes. Which ones come out is up to chance, and nothing is said
/// of them; a code may come twice.
pub fn random_codes(n: usize) -> (codes: Vec<String>)
    ensures
        codes@.len() == n,
        forall|i: int| 0 <= i < codes@.len() ==> is_code((#[trigger] codes@[i])@),
{
    let mut codes: Vec<String> = Vec::new();
    while codes.len() < n
        invariant
            codes.len() <= n,
            forall|i: int| 0 <= i < codes@.len() ==> is_code((#[trigger] codes@[i])@),
        decreases n - codes.len(),
    {
        codes.push(random_code());
    }
    codes
}

/// The join code of a number.
pub fn nth_code(n: usize) -> (code: String)
    requires
        n < CODES,
    ensures
        code@ == code_at(n as int),
{
    let mut draws: Vec<usize> = Vec::new();
    draws.push(n / 29791);
    draws.push(n / 961 % 31);
    draws.push(n / 31 % 31);
    draws.push(n % 31);
    let code = code_from(&draws);
    assert(code@ =~= code_at(n as int));
    code
}

/// Draw bytes and write them in hexadecimal notation. Which bytes come out is up to
/// chance, and nothing is said of them.
pub fn random_hex(n: usize) -> (s: String)
    ensures
        is_hex_of(s@, n as nat),
{
    let mut bytes: Vec<u8> = Vec::new();
    while bytes.len() < n
        invariant
            bytes.len() <= n,
        decreases n - bytes.len(),
    {
        bytes.push(draw_byte());
    }
    to_hex(&bytes)
}

/// Draw a secret host token.
pub fn random_token() -> (token: String)
    ensures
        is_hex_of(token@, TOKEN_BYTES as nat),
{
    random_hex(TOKEN_BYTES)
}

// ----- the registry -------------------------------------------------------------------

/// Was exactly one room opened, under a code that no live room had? There is then one
/// live room more.
pub open spec fn opened<H>(
    before: Map<Seq<char>, H>,
    after: Map<Seq<char>, H>,
    code: Seq<char>,
) -> bool {
    &&& !before.contains_key(code)
    &&& after.contains_key(code)
    &&& after == before.insert(code, after[code])
    &&& after.len() == before.len() + 1
}

/// Are all join codes in use?
pub open spec fn all_in_use<H>(rooms: Map<Seq<char>, H>) -> bool {
    forall|code: Seq<char>| #[trigger] is_code(code) ==> rooms.contains_key(code)
}

/// Is place `i` the first of a list whose code no live room has?
pub open spec fn is_first_free<H>(rooms: Map<Seq<char>, H>, codes: Seq<String>, i: int) -> bool {
    &&& 0 <= i < codes.len()
    &&& !rooms.contains_key(codes[i]@)
    &&& forall|j: int| 0 <= j < i ==> rooms.contains_key((#[trigger] codes[j])@)
}

/// Is code `k` places after code number `first` the next one that no live room has? The
/// last code is followed by the first.
pub open spec fn is_next_free<H>(rooms: Map<Seq<char>, H>, first: int, k: int) -> bool {
    &&& 0 <= k < CODES
    &&& !rooms.contains_key(code_at((first + k) % CODES as int))
    &&& forall|j: int|
        0 <= j < k ==> rooms.contains_key(#[trigger] code_at((first + j) % CODES as int))
}

/// A walk through all numbers from `first` on meets every join code.
proof fn lemma_walk_meets_every_code<H>(rooms: Map<Seq<char>, H>, first: int)
    requires
        0 <= first < CODES,
        forall|k: int|
            0 <= k < CODES ==> rooms.contains_key(#[trigger] code_at((first + k) % CODES as int)),
    ensures
        all_in_use(rooms),
{
    assert forall|code: Seq<char>| #[trigger] is_code(code) implies rooms.contains_key(code) by {
        let n = lemma_every_code_has_its_number(code);
        let k = if n >= first {
            n - first
        } else {
            n - first + CODES
        };
        assert((first + k) % CODES as int == n);
        assert(rooms.contains_key(code_at((first + k) % CODES as int)));
    }
}

/// The live rooms, by join code.
#[verifier::reject_recursive_types(H)]
pub struct Registry<H> {
    rooms: StringHashMap<H>,
}

impl<H> View for Registry<H> {
    type V = Map<Seq<char>, H>;

    closed spec fn view(&self) -> Map<Seq<char>, H> {
        self.rooms@
    }
}

impl<H> Registry<H> {
    /// There are only finitely many live rooms.
    #[verifier::type_invariant]
    spec fn is_finite(self) -> bool {
        self.rooms@.dom().finite()
    }

    /// A registry without rooms.
    pub fn new() -> (registry: Registry<H>)
        ensures
            registry@ == Map::<Seq<char>, H>::empty(),
    {
        Registry { rooms: StringHashMap::new() }
    }

    /// Look up a live room by join code.
    pub fn get(&self, code: &str) -> (handle: Option<&H>)
        ensures
            handle is Some <==> self@.contains_key(code@),
            handle is Some ==> *handle->0 == self@[code@],
    {
        self.rooms.get(code)
    }

    /// Remove a room from the registry; says whether there was one.
    pub fn remove(&mut self, code: &str) -> (removed: bool)
        ensures
            removed == old(self)@.contains_key(code@),
            final(self)@ == old(self)@.remove(code@),
            final(self)@.len() == old(self)@.len() - (if removed {
                1int
            } else {
                0int
            }),
    {
        proof {
            use_type_invariant(&*self);
        }
        let removed = self.rooms.contains_key(code);
        let mut rooms = StringHashMap::new();
        std::mem::swap(&mut rooms, &mut self.rooms);
        rooms.remove(code);
        self.rooms = rooms;
        removed
    }

    /// How many rooms are live.
    pub fn count(&self) -> (count: usize)
        ensures
            self@.dom().finite(),
            count == self@.len(),
    {
        proof {
            use_type_invariant(self);
        }
        self.rooms.len()
    }

    /// Open a room under a candidate code, unless a live room has that code. The
    /// room is started with its code and host token.
    pub fn open_room<F: Fn(String, String) -> H>(
        &mut self,
        code: String,
        host_token: String,
        start: F,
    ) -> (room: Option<NewRoom>)
        requires
            call_requires(start, (code, host_token)),
        ensures
            room is None <==> old(self)@.contains_key(code@),
            room is None ==> final(self)@ == old(self)@,
            room is Some ==> {
                &&& room->0.code == code
                &&& room->0.host_token == host_token
                &&& opened(old(self)@, final(self)@, code@)
                &&& call_ensures(start, (code, host_token), final(self)@[code@])
            },
    {
        if self.rooms.contains_key(code.as_str()) {
            return None;
        }
        proof {
            use_type_invariant(&*self);
        }
        let handle = start(code.clone(), host_token.clone());
        let mut rooms = StringHashMap::new();
        std::mem::swap(&mut rooms, &mut self.rooms);
        rooms.insert(code.clone(), handle);
        self.rooms = rooms;
        Some(NewRoom { code, host_token })
    }

    /// Open a room under the first code of a list that no live room has; none where
    /// every code of the list is in use.
    pub fn open_first<F: Fn(String, String) -> H>(
        &mut self,
        codes: &Vec<String>,
        host_token: String,
        start: F,
    ) -> (room: Option<NewRoom>)
        requires
            forall|code: String| call_requires(start, (code, host_token)),
        ensures
            room is None <==> forall|i: int|
                0 <= i < codes@.len() ==> old(self)@.contains_key((#[trigger] codes@[i])@),
            room is None ==> final(self)@ == old(self)@,
            room is Some ==> {
                &&& exists|i: int|
                    #[trigger] is_first_free(old(self)@, codes@, i) && room->0.code == codes@[i]
                &&& room->0.host_token == host_token
                &&& opened(old(self)@, final(self)@, room->0.code@)
                &&& call_ensures(
                    start,
                    (room->0.code, host_token),
                    final(self)@[room->0.code@],
                )
            },
    {
        let mut i: usize = 0;
        while i < codes.len()
            invariant
                i <= codes.len(),
                self@ == old(self)@,
                forall|code: String| call_requires(start, (code, host_token)),
                forall|j: int|
                    0 <= j < i ==> old(self)@.contains_key((#[trigger] codes@[j])@),
            decreases codes.len() - i,
        {
            let room = self.open_room(codes[i].clone(), host_token.clone(), &start);
            if room.is_some() {
                assert(is_first_free(old(self)@, codes@, i as int));
                return room;
            }
            i = i + 1;
        }
        None
    }

    /// Open a room under the next free code from code number `first` on, the last code
    /// being followed by the first; none where every join code is in use.
    pub fn open_from<F: Fn(String, String) -> H>(
        &mut self,
        first: usize,
        host_token: String,
        start: F,
    ) -> (room: Option<NewRoom>)
        requires
            first < CODES,
            forall|code: String| call_requires(start, (code, host_token)),
        ensures
            room is None <==> all_in_use(old(self)@),
            room is None ==> final(self)@ == old(self)@,
            room is Some ==> {
                &&& exists|k: int|
                    #[trigger] is_next_free(old(self)@, first as int, k) && room->0.code@
                        == code_at((first + k) % CODES as int)
                &&& room->0.host_token == host_token
                &&& opened(old(self)@, final(self)@, room->0.code@)
                &&& call_ensures(
                    start,
                    (room->0.code, host_token),
                    final(self)@[room->0.code@],
                )
            },
    {
        let mut k: usize = 0;
        while k < CODES
            invariant
                k <= CODES,
                first < CODES,
                self@ == old(self)@,
                forall|code: String| call_requires(start, (code, host_token)),
                forall|j: int|
                    0 <= j < k ==> old(self)@.contains_key(
                        #[trigger] code_at((first + j) % CODES as int),
                    ),
            decreases CODES - k,
        {
            let code = nth_code((first + k) % CODES);
            let ghost candidate = code@;
            let room = self.open_room(code, host_token.clone(), &start);
            if room.is_some() {
                proof {
                    lemma_code_at_is_a_code((first + k) % CODES as int);
                    assert(is_code(candidate) && !old(self)@.contains_key(candidate));
                    assert(is_next_free(old(self)@, first as int, k as int));
                }
                return room;
            }
            k = k + 1;
        }
        proof {
            lemma_walk_meets_every_code(old(self)@, first as int);
        }
        None
    }

    /// Create a room: draw a secret host token, then join codes until one is not in use,
    /// and start the room. Which free code it gets is up to chance. After [`CODE_DRAWS`]
    /// codes in use, the codes are tried in order from a random one on, so that a room is
    /// created whenever there is a free code at all.
    pub fn create_room<F: Fn(String, String) -> H>(&mut self, start: F) -> (room: Option<NewRoom>)
        requires
            forall|code: String, token: String| call_requires(start, (code, token)),
        ensures
            room is None <==> all_in_use(old(self)@),
            room is None ==> final(self)@ == old(self)@,
            room is Some ==> {
                let code = room->0.code;
                let token = room->0.host_token;
                &&& is_code(code@)
                &&& is_hex_of(token@, TOKEN_BYTES as nat)
                &&& opened(old(self)@, final(self)@, code@)
                &&& call_ensures(start, (code, token), final(self)@[code@])
            },
    {
        let host_token = random_token();
        let codes = random_codes(CODE_DRAWS);
        let room = self.open_first(&codes, host_token.clone(), &start);
        if room.is_some() {
            proof {
                assert(is_code(room->0.code@) && !old(self)@.contains_key(room->0.code@));
            }
            return room;
        }
        let room = self.open_from(draw_below(CODES), host_token, &start);
        proof {
            if room is Some {
                let code = room->0.code@;
                assert(exists|n: int| 0 <= n < CODES && code == #[trigger] code_at(n));
                let n = choose|n: int| 0 <= n < CODES && code == #[trigger] code_at(n);
                lemma_code_at_is_a_code(n);
            }
        }
        room
    }
}

} // verus!
