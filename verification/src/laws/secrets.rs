//! Join codes, tokens and batch ids.

use vstd::prelude::*;

use crate::db;
use crate::registry;
use crate::text;

verus! {

/// Every join code is made of upper-case letters and digits that cannot be taken for one
/// another: it has no `I`, `L`, `O`, `0` or `1`.
pub proof fn law_join_codes_are_unambiguous(code: Seq<char>, i: int)
    requires
        registry::is_code(code),
        0 <= i < code.len(),
    ensures
        'A' <= code[i] <= 'Z' || '0' <= code[i] <= '9',
        code[i] != 'I' && code[i] != 'L' && code[i] != 'O' && code[i] != '0' && code[i] != '1',
{
    reveal_strlit("ABCDEFGHJKMNPQRSTUVWXYZ23456789");
    assert(registry::CODE_ALPHABET@.contains(code[i]));
}

/// The two digits of one byte.
proof fn lemma_digits_of(bytes: Seq<u8>, i: int)
    requires
        0 <= i < bytes.len(),
    ensures
        text::hex_view(bytes)[2 * i] == text::digit(bytes[i] as int / 16),
        text::hex_view(bytes)[2 * i + 1] == text::digit(bytes[i] as int % 16),
{
    assert((2 * i) / 2 == i && (2 * i) % 2 == 0);
    assert((2 * i + 1) / 2 == i && (2 * i + 1) % 2 == 1);
}

/// Different digits look different.
proof fn lemma_digits_differ(c: int, d: int)
    requires
        0 <= c < 16,
        0 <= d < 16,
        text::digit(c) == text::digit(d),
    ensures
        c == d,
{
    reveal_strlit("0123456789abcdef");
}

/// Different bytes are written differently: tokens and batch ids differ where the bytes
/// drawn for them do.
pub proof fn law_hex_tells_bytes_apart(a: Seq<u8>, b: Seq<u8>)
    requires
        text::hex_view(a) == text::hex_view(b),
    ensures
        a == b,
{
    assert(text::hex_view(a).len() == 2 * a.len());
    assert(text::hex_view(b).len() == 2 * b.len());
    assert forall|i: int| 0 <= i < a.len() implies a[i] == b[i] by {
        lemma_digits_of(a, i);
        lemma_digits_of(b, i);
        lemma_digits_differ(a[i] as int / 16, b[i] as int / 16);
        lemma_digits_differ(a[i] as int % 16, b[i] as int % 16);
    }
    assert(a =~= b);
}

/// A host token is 48 hexadecimal digits long, an archive batch id 32.
pub proof fn law_random_names_have_their_length(token: Seq<char>, batch_id: Seq<char>)
    requires
        registry::is_hex_of(token, registry::TOKEN_BYTES as nat),
        registry::is_hex_of(batch_id, db::BATCH_BYTES as nat),
    ensures
        token.len() == 48,
        batch_id.len() == 32,
{
}

} // verus!
