//! Decoding the bytes of tokens: a code point may straddle two tokens, so the
//! bytes that do not decode yet wait for the tokens that complete them.

use vstd::prelude::*;
use vstd::seq_lib::lemma_flatten_concat;
use vstd::utf8::{
    decode_first_scalar, decode_utf8, is_char_boundary_iff_not_is_continuation_byte,
    is_continuation_byte, partial_valid_partial_invalid_utf8,
    pop_first_scalar, valid_first_scalar, valid_utf8, valid_utf8_concat, valid_utf8_split,
};

verus! {

/// Decodes bytes as UTF-8, by `std::str::from_utf8`.
///
/// Trusted: the call succeeds on the byte sequences that are valid UTF-8 and on
/// no others, and the text it gives is the decoding of the bytes. Nothing is
/// stated of the description of a failure.
#[verifier::external_body]
pub(crate) fn string_from_utf8(bytes: &[u8]) -> (r: Result<String, String>)
    ensures
        r is Ok <==> valid_utf8(bytes@),
        r matches Ok(text) ==> text@ == decode_utf8(bytes@),
{
    match std::str::from_utf8(bytes) {
        Ok(text) => Ok(text.to_owned()),
        Err(e) => Err(e.to_string()),
    }
}

/// The most bytes that may wait for their completion.
pub const MAX_RESIDUAL: usize = 4;

/// The bytes that wait after `token` arrived while `residual` waited.
///
/// A token that decodes by itself leaves them as they are. Any other token is
/// appended to them, and if they decode then, none is left.
pub open spec fn residual_after(residual: Seq<u8>, token: Seq<u8>) -> Seq<u8> {
    if valid_utf8(token) {
        residual
    } else if valid_utf8(residual + token) {
        seq![]
    } else {
        residual + token
    }
}

/// The text that `token` gives while `residual` waits, or `None` where more
/// than [`MAX_RESIDUAL`] bytes would wait without decoding.
///
/// A token that decodes by itself gives its decoding. Any other token is
/// appended to the waiting bytes: if they decode then, they give their
/// decoding, and the empty text if not.
pub open spec fn text_of(residual: Seq<u8>, token: Seq<u8>) -> Option<Seq<char>> {
    if valid_utf8(token) {
        Some(decode_utf8(token))
    } else if valid_utf8(residual + token) {
        Some(decode_utf8(residual + token))
    } else if (residual + token).len() > MAX_RESIDUAL {
        None
    } else {
        Some(seq![])
    }
}

/// Decodes `token` with the bytes that wait in `residual`, and updates them.
pub fn reassemble(residual: &mut Vec<u8>, token: &[u8]) -> (text: Option<String>)
    ensures
        final(residual)@ == residual_after(old(residual)@, token@),
        match text_of(old(residual)@, token@) {
            Some(decoded) => text matches Some(t) && t@ == decoded,
            None => text is None,
        },
{
    match string_from_utf8(token) {
        Ok(text) => Some(text),
        Err(_) => {
            residual.extend_from_slice(token);
            assert(residual@ =~= old(residual)@ + token@);
            match string_from_utf8(residual.as_slice()) {
                Ok(text) => {
                    residual.clear();
                    Some(text)
                },
                Err(_) => {
                    if residual.len() > MAX_RESIDUAL {
                        None
                    } else {
                        Some(String::new())
                    }
                },
            }
        },
    }
}

/// The bytes that wait after `tokens` arrived in turn, none waiting before.
pub open spec fn residual_of(tokens: Seq<Seq<u8>>) -> Seq<u8>
    decreases tokens.len(),
{
    if tokens.len() == 0 {
        seq![]
    } else {
        residual_after(residual_of(tokens.drop_last()), tokens.last())
    }
}

/// The texts that `tokens` give in turn, joined, none waiting before; `None`
/// where one of them fails.
pub open spec fn texts_of(tokens: Seq<Seq<u8>>) -> Option<Seq<char>>
    decreases tokens.len(),
{
    if tokens.len() == 0 {
        Some(seq![])
    } else {
        match (
            texts_of(tokens.drop_last()),
            text_of(residual_of(tokens.drop_last()), tokens.last()),
        ) {
            (Some(before), Some(last)) => Some(before + last),
            _ => None,
        }
    }
}

/// The decoding of two valid byte sequences in a row is their decodings in a
/// row.
pub proof fn lemma_decode_concat(a: Seq<u8>, b: Seq<u8>)
    requires
        valid_utf8(a),
        valid_utf8(b),
    ensures
        valid_utf8(a + b),
        decode_utf8(a + b) == decode_utf8(a) + decode_utf8(b),
    decreases a.len(),
{
    valid_utf8_concat(a, b);
    if a.len() == 0 {
        assert(a + b =~= b);
        assert(decode_utf8(a) + decode_utf8(b) =~= decode_utf8(b));
    } else {
        let rest = pop_first_scalar(a);
        assert(valid_first_scalar(a));
        assert(valid_utf8(rest));
        assert(rest.len() < a.len());
        assert(pop_first_scalar(a + b) =~= rest + b);
        assert(decode_first_scalar(a + b) == decode_first_scalar(a));
        lemma_decode_concat(rest, b);
        assert(decode_utf8(a + b) =~= seq![decode_first_scalar(a) as char] + decode_utf8(
            rest + b,
        ));
        assert(decode_utf8(a) =~= seq![decode_first_scalar(a) as char] + decode_utf8(rest));
        assert(decode_utf8(a + b) =~= decode_utf8(a) + decode_utf8(b));
    }
}

/// What follows a valid prefix of a valid byte sequence is valid.
pub proof fn lemma_valid_suffix(a: Seq<u8>, b: Seq<u8>)
    requires
        valid_utf8(a + b),
        valid_utf8(a),
    ensures
        valid_utf8(b),
{
    let all = a + b;
    assert(all.subrange(0, a.len() as int) =~= a);
    assert(all.subrange(a.len() as int, all.len() as int) =~= b);
    if !valid_utf8(b) {
        partial_valid_partial_invalid_utf8(all, a.len() as int);
    }
}

/// A valid byte sequence is valid up to each byte that continues no code
/// point.
proof fn lemma_valid_prefix(a: Seq<u8>, b: Seq<u8>)
    requires
        valid_utf8(a + b),
        b.len() > 0,
        !is_continuation_byte(b[0]),
    ensures
        valid_utf8(a),
{
    let all = a + b;
    assert(all[a.len() as int] == b[0]);
    is_char_boundary_iff_not_is_continuation_byte(all, a.len() as int);
    valid_utf8_split(all, a.len() as int);
    assert(all.subrange(0, a.len() as int) =~= a);
}

/// What holds after the first `k` of `tokens`, where all of them together are
/// valid: the bytes so far are those that gave the texts so far, which are
/// valid, and those that wait, which are not.
proof fn lemma_reassembly_prefix(tokens: Seq<Seq<u8>>, k: int)
    requires
        valid_utf8(tokens.flatten()),
        0 <= k <= tokens.len(),
        texts_of(tokens.take(k)) is Some,
    ensures
        ({
            let flat = tokens.take(k).flatten();
            let waiting = residual_of(tokens.take(k));
            let given = flat.subrange(0, flat.len() - waiting.len());
            &&& waiting.len() <= flat.len()
            &&& flat == given + waiting
            &&& valid_utf8(given)
            &&& texts_of(tokens.take(k)) == Some(decode_utf8(given))
            &&& (waiting.len() == 0 || !valid_utf8(waiting))
        }),
    decreases k,
{
    let now = tokens.take(k);
    if k == 0 {
        assert(now.flatten() =~= seq![]);
        assert(now.flatten().subrange(0, 0) =~= seq![]);
    } else {
        let before = tokens.take(k - 1);
        let token = tokens[k - 1];
        assert(now.drop_last() =~= before);
        assert(now.last() == token);
        assert(now =~= before.push(token));
        lemma_reassembly_prefix(tokens, k - 1);
        before.lemma_flatten_push(token);
        let flat0 = before.flatten();
        let waiting0 = residual_of(before);
        let given0 = flat0.subrange(0, flat0.len() - waiting0.len());
        let flat = now.flatten();
        let waiting = residual_of(now);
        let given = flat.subrange(0, flat.len() - waiting.len());
        assert(flat =~= flat0 + token);
        let rest = tokens.skip(k).flatten();
        assert(tokens =~= now + tokens.skip(k));
        lemma_flatten_concat(now, tokens.skip(k));
        assert(tokens.flatten() =~= flat + rest);
        if valid_utf8(token) {
            if waiting0.len() == 0 {
                assert(flat0 =~= given0);
                lemma_decode_concat(given0, token);
                assert(given =~= given0 + token);
                assert(flat =~= given + waiting);
            } else {
                if token.len() > 0 {
                    assert(tokens.flatten() =~= given0 + (waiting0 + (token + rest)));
                    lemma_valid_suffix(given0, waiting0 + (token + rest));
                    assert((token + rest)[0] == token[0]);
                    assert(valid_first_scalar(token));
                    lemma_valid_prefix(waiting0, token + rest);
                    assert(false);
                }
                assert(token =~= seq![]);
                assert(decode_utf8(token) =~= seq![]);
                assert(flat =~= flat0);
                assert(given =~= given0);
                assert(texts_of(before)->0 + decode_utf8(token) =~= texts_of(before)->0);
            }
        } else {
            let joined = waiting0 + token;
            if valid_utf8(joined) {
                lemma_decode_concat(given0, joined);
                assert(given =~= given0 + joined);
                assert(flat =~= given + waiting);
            } else {
                assert(given =~= given0);
                assert(flat =~= given + waiting);
                assert(texts_of(before)->0 + Seq::<char>::empty() =~= texts_of(before)->0);
            }
        }
    }
}

/// Reassembly loses nothing: where the bytes of all tokens together are valid
/// UTF-8 and no token fails, the texts that the tokens give in turn are,
/// joined, the decoding of all the bytes, and no byte is left waiting.
pub proof fn lemma_reassembly(tokens: Seq<Seq<u8>>)
    requires
        valid_utf8(tokens.flatten()),
        texts_of(tokens) is Some,
    ensures
        texts_of(tokens) == Some(decode_utf8(tokens.flatten())),
        residual_of(tokens) == Seq::<u8>::empty(),
{
    assert(tokens.take(tokens.len() as int) =~= tokens);
    lemma_reassembly_prefix(tokens, tokens.len() as int);
    let flat = tokens.flatten();
    let waiting = residual_of(tokens);
    let given = flat.subrange(0, flat.len() - waiting.len());
    lemma_valid_suffix(given, waiting);
    assert(given =~= flat);
}

} // verus!
