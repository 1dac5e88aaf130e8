//! The random token that makes an object key unique.

use crate::text::{
    is_digit,
    lemma_decimal_length,
    lemma_zero_padded,
    power_of_ten,
    zero_padded,
};
use vstd::prelude::*;

verus! {

/// Number of characters in a token.
pub const TOKEN_LENGTH: usize = 21;

/// Whether `c` belongs to the alphabet tokens are drawn from: the letters,
/// the digits, the underscore and the hyphen. Each of them can stand in an
/// address unescaped.
pub open spec fn is_url_safe(c: char) -> bool {
    ||| 'a' <= c <= 'z'
    ||| 'A' <= c <= 'Z'
    ||| '0' <= c <= '9'
    ||| c == '_'
    ||| c == '-'
}

/// Whether `text` has the shape of a token: `TOKEN_LENGTH` characters, each
/// of them safe in an address.
pub open spec fn is_token(text: Seq<char>) -> bool {
    &&& text.len() == TOKEN_LENGTH
    &&& forall|i: int| 0 <= i < text.len() ==> is_url_safe(#[trigger] text[i])
}

/// Tokens are plenty: every number below ten to the fifteenth has a token of
/// its own, its digits filled with zeros to the length of a token. So there
/// are at least that many tokens.
pub proof fn law_tokens_are_plenty(n: nat, m: nat)
    requires
        n < 1_000_000_000_000_000,
        m < 1_000_000_000_000_000,
    ensures
        is_token(zero_padded(n, TOKEN_LENGTH as nat)),
        zero_padded(n, TOKEN_LENGTH as nat) == zero_padded(m, TOKEN_LENGTH as nat) ==> n == m,
{
    assert(power_of_ten(15) == 1_000_000_000_000_000) by {
        reveal_with_fuel(power_of_ten, 16);
    }
    lemma_decimal_length(n, 15);
    lemma_zero_padded(n, TOKEN_LENGTH as nat);
    lemma_zero_padded(m, TOKEN_LENGTH as nat);
    let token = zero_padded(n, TOKEN_LENGTH as nat);
    assert forall|i: int| 0 <= i < token.len() implies is_url_safe(#[trigger] token[i]) by {
        assert(is_digit(token[i]));
    }
}

/// Draws a token with `nanoid::format`, fed by `nanoid::rngs::default` and
/// the alphabet `nanoid::alphabet::SAFE`, at the length 21 that the crate's
/// `nanoid!()` uses. Taken on trust: the result has exactly that many
/// characters and each comes from the alphabet, which holds the 64
/// characters that `is_url_safe` accepts. Which ones come back is left to
/// chance, so nothing more is claimed.
#[verifier::external_body]
pub(crate) fn random_token() -> (token: String)
    ensures
        is_token(token@),
{
    nanoid::format(nanoid::rngs::default, &nanoid::alphabet::SAFE, 21)
}

} // verus!
