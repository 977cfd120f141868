//! Challenge tokens.

use vstd::prelude::*;

verus! {

/// The longest token that is accepted, in characters.
pub const MAX_TOKEN_LEN: usize = 128;

/// Whether `c` belongs to the URL-safe base64 alphabet.
pub open spec fn is_token_char(c: char) -> bool {
    ('a' <= c && c <= 'z') || ('A' <= c && c <= 'Z') || ('0' <= c && c <= '9') || c == '-' || c
        == '_'
}

/// Whether `token` has the syntax of a challenge token: at least one and at
/// most [`MAX_TOKEN_LEN`] characters, each of the URL-safe base64 alphabet.
pub open spec fn is_valid_token(token: Seq<char>) -> bool {
    0 < token.len() <= MAX_TOKEN_LEN && forall|i: int|
        0 <= i < token.len() ==> is_token_char(#[trigger] token[i])
}

fn token_char(c: char) -> (r: bool)
    ensures
        r == is_token_char(c),
{
    ('a' <= c && c <= 'z') || ('A' <= c && c <= 'Z') || ('0' <= c && c <= '9') || c == '-' || c
        == '_'
}

/// Whether `token` has the syntax of a challenge token.
pub fn valid_token(token: &str) -> (r: bool)
    ensures
        r == is_valid_token(token@),
{
    let mut count: usize = 0;
    for c in it: token.chars()
        invariant
            it.seq() == token@,
            count == it.index(),
            count <= MAX_TOKEN_LEN,
            forall|j: int| 0 <= j < it.index() ==> is_token_char(#[trigger] token@[j]),
    {
        if count >= MAX_TOKEN_LEN || !token_char(c) {
            return false;
        }
        count += 1;
    }
    count > 0
}

/// An empty token and one of more than [`MAX_TOKEN_LEN`] characters are
/// not valid.
pub proof fn law_token_length(token: Seq<char>)
    requires
        token.len() == 0 || token.len() > MAX_TOKEN_LEN,
    ensures
        !is_valid_token(token),
{
}

/// A valid token is one plain file name: it holds no separator, no dot and
/// no character outside ASCII, so the path that it is joined to stays in
/// its directory.
pub proof fn law_token_is_a_file_name(token: Seq<char>, i: int)
    requires
        is_valid_token(token),
        0 <= i < token.len(),
    ensures
        token[i] != '/',
        token[i] != '\\',
        token[i] != '.',
        token[i] != '\0',
        token[i] <= '\u{7f}',
{
    assert(is_token_char(token[i]));
}

} // verus!
