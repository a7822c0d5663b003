//! The payload of a token notification: a mint request on the wire.
//!
//! A mint request is the JSON document `{"mint":{}}`. Between its tokens, and
//! before and after them, any run of JSON whitespace may stand; nothing else is
//! a mint request.

use crate::error::ContractError;
use vstd::prelude::*;

verus! {

/// The bytes that JSON treats as insignificant whitespace: space, horizontal
/// tab, line feed and carriage return.
pub open spec fn is_whitespace(b: u8) -> bool {
    b == 0x20 || b == 0x09 || b == 0x0a || b == 0x0d
}

/// Every byte of `s` is whitespace.
pub open spec fn all_whitespace(s: Seq<u8>) -> bool {
    forall|i: int| 0 <= i < s.len() ==> is_whitespace(#[trigger] s[i])
}

/// The tokens of a mint request, in order: `{`, `"mint"`, `:`, `{`, `}`, `}`.
pub open spec fn mint_request_tokens() -> Seq<Seq<u8>> {
    seq![
        seq![0x7bu8],
        seq![0x22u8, 0x6du8, 0x69u8, 0x6eu8, 0x74u8, 0x22u8],
        seq![0x3au8],
        seq![0x7bu8],
        seq![0x7du8],
        seq![0x7du8],
    ]
}

/// `gaps` can space out `count` tokens: it has one run of whitespace for each
/// place before, between and after them.
pub open spec fn is_spacing(gaps: Seq<Seq<u8>>, count: nat) -> bool {
    &&& gaps.len() == count + 1
    &&& forall|i: int| 0 <= i < gaps.len() ==> all_whitespace(#[trigger] gaps[i])
}

/// The tokens with the gaps around them:
/// `gaps[0] + tokens[0] + gaps[1] + ... + tokens[n - 1] + gaps[n]`.
pub open spec fn interleave(gaps: Seq<Seq<u8>>, tokens: Seq<Seq<u8>>) -> Seq<u8>
    recommends
        gaps.len() == tokens.len() + 1,
    decreases tokens.len(),
{
    if gaps.len() == 0 {
        Seq::empty()
    } else if tokens.len() == 0 {
        gaps[0]
    } else {
        gaps[0] + tokens[0] + interleave(gaps.drop_first(), tokens.drop_first())
    }
}

/// `payload` is a mint request: the tokens of one, spaced out by whitespace.
pub open spec fn is_mint_request(payload: Seq<u8>) -> bool {
    exists|gaps: Seq<Seq<u8>>|
        is_spacing(gaps, mint_request_tokens().len()) && payload == #[trigger] interleave(
            gaps,
            mint_request_tokens(),
        )
}

/// The mint request without any whitespace: `{"mint":{}}`.
pub open spec fn canonical_mint_request() -> Seq<u8> {
    seq![
        0x7bu8, 0x22u8, 0x6du8, 0x69u8, 0x6eu8, 0x74u8, 0x22u8, 0x3au8, 0x7bu8, 0x7du8, 0x7du8,
    ]
}

/// `s` without its leading whitespace.
pub open spec fn trim_start(s: Seq<u8>) -> Seq<u8>
    decreases s.len(),
{
    if s.len() > 0 && is_whitespace(s[0]) {
        trim_start(s.drop_first())
    } else {
        s
    }
}

/// The leading whitespace of `s`.
pub open spec fn leading_whitespace(s: Seq<u8>) -> Seq<u8>
    decreases s.len(),
{
    if s.len() > 0 && is_whitespace(s[0]) {
        seq![s[0]] + leading_whitespace(s.drop_first())
    } else {
        Seq::empty()
    }
}

/// Reading `s` from the left, skipping whitespace, finds exactly `tokens` and
/// then nothing but whitespace.
pub open spec fn scans(s: Seq<u8>, tokens: Seq<Seq<u8>>) -> bool
    decreases tokens.len(),
{
    let rest = trim_start(s);
    if tokens.len() == 0 {
        rest.len() == 0
    } else {
        tokens[0].is_prefix_of(rest) && scans(
            rest.skip(tokens[0].len() as int),
            tokens.drop_first(),
        )
    }
}

/// The gaps that a left-to-right reading of `s` finds around `tokens`.
pub open spec fn spacing_of(s: Seq<u8>, tokens: Seq<Seq<u8>>) -> Seq<Seq<u8>>
    decreases tokens.len(),
{
    if tokens.len() == 0 {
        seq![leading_whitespace(s)]
    } else {
        seq![leading_whitespace(s)] + spacing_of(
            trim_start(s).skip(tokens[0].len() as int),
            tokens.drop_first(),
        )
    }
}

/// No token is empty or begins with whitespace, so that where a gap ends and a
/// token begins is decided by the bytes alone.
pub open spec fn tokens_delimit(tokens: Seq<Seq<u8>>) -> bool {
    forall|i: int|
        0 <= i < tokens.len() ==> (#[trigger] tokens[i]).len() > 0 && !is_whitespace(tokens[i][0])
}

/// Whitespace in front of `rest` is trimmed together with that of `rest`.
pub proof fn lemma_trim_start_skips_gap(gap: Seq<u8>, rest: Seq<u8>)
    requires
        all_whitespace(gap),
    ensures
        trim_start(gap + rest) == trim_start(rest),
        leading_whitespace(gap + rest) == gap + leading_whitespace(rest),
    decreases gap.len(),
{
    if gap.len() == 0 {
        assert(gap + rest =~= rest);
        assert(gap + leading_whitespace(rest) =~= leading_whitespace(rest));
    } else {
        let whole = gap + rest;
        assert(whole[0] == gap[0]);
        assert(whole.drop_first() =~= gap.drop_first() + rest);
        lemma_trim_start_skips_gap(gap.drop_first(), rest);
        assert(seq![gap[0]] + (gap.drop_first() + leading_whitespace(rest)) =~= gap
            + leading_whitespace(rest));
    }
}

/// `s` is its leading whitespace followed by what trimming leaves.
pub proof fn lemma_leading_whitespace_splits(s: Seq<u8>)
    ensures
        all_whitespace(leading_whitespace(s)),
        leading_whitespace(s) + trim_start(s) == s,
        trim_start(s).len() > 0 ==> !is_whitespace(trim_start(s)[0]),
    decreases s.len(),
{
    if s.len() > 0 && is_whitespace(s[0]) {
        let tail = s.drop_first();
        lemma_leading_whitespace_splits(tail);
        assert(seq![s[0]] + tail =~= s);
        assert(leading_whitespace(s) + trim_start(s) =~= seq![s[0]] + (leading_whitespace(tail)
            + trim_start(tail)));
        assert forall|i: int| 0 <= i < leading_whitespace(s).len() implies is_whitespace(
            #[trigger] leading_whitespace(s)[i],
        ) by {
            if i > 0 {
                assert(leading_whitespace(s)[i] == leading_whitespace(tail)[i - 1]);
            }
        }
    } else {
        assert(leading_whitespace(s) + trim_start(s) =~= s);
    }
}

/// Tokens spaced out by whitespace are read back as those tokens.
pub proof fn lemma_interleave_scans(gaps: Seq<Seq<u8>>, tokens: Seq<Seq<u8>>)
    requires
        is_spacing(gaps, tokens.len()),
        tokens_delimit(tokens),
    ensures
        scans(interleave(gaps, tokens), tokens),
        spacing_of(interleave(gaps, tokens), tokens) == gaps,
    decreases tokens.len(),
{
    let s = interleave(gaps, tokens);
    assert(all_whitespace(gaps[0]));
    if tokens.len() == 0 {
        lemma_trim_start_skips_gap(gaps[0], Seq::empty());
        assert(gaps[0] + Seq::<u8>::empty() =~= gaps[0]);
        assert(spacing_of(s, tokens) =~= gaps);
    } else {
        let tail = interleave(gaps.drop_first(), tokens.drop_first());
        let rest = tokens[0] + tail;
        assert(s =~= gaps[0] + rest);
        lemma_trim_start_skips_gap(gaps[0], rest);
        assert(rest[0] == tokens[0][0]);
        assert(trim_start(rest) == rest);
        assert(leading_whitespace(rest) =~= Seq::<u8>::empty());
        assert(leading_whitespace(s) =~= gaps[0]);
        assert(rest.subrange(0, tokens[0].len() as int) =~= tokens[0]);
        assert(rest.skip(tokens[0].len() as int) =~= tail);
        assert forall|i: int| 0 <= i < gaps.drop_first().len() implies all_whitespace(
            #[trigger] gaps.drop_first()[i],
        ) by {
            assert(gaps.drop_first()[i] == gaps[i + 1]);
        }
        assert forall|i: int| 0 <= i < tokens.drop_first().len() implies (
        #[trigger] tokens.drop_first()[i]).len() > 0 && !is_whitespace(
            tokens.drop_first()[i][0],
        ) by {
            assert(tokens.drop_first()[i] == tokens[i + 1]);
        }
        lemma_interleave_scans(gaps.drop_first(), tokens.drop_first());
        assert(spacing_of(s, tokens) =~= gaps);
    }
}

/// What is read as `tokens` is those tokens spaced out by whitespace.
pub proof fn lemma_scans_interleave(s: Seq<u8>, tokens: Seq<Seq<u8>>)
    requires
        scans(s, tokens),
    ensures
        is_spacing(spacing_of(s, tokens), tokens.len()),
        interleave(spacing_of(s, tokens), tokens) == s,
    decreases tokens.len(),
{
    lemma_leading_whitespace_splits(s);
    let gaps = spacing_of(s, tokens);
    if tokens.len() == 0 {
        assert(leading_whitespace(s) + trim_start(s) =~= leading_whitespace(s));
    } else {
        let rest = trim_start(s);
        let tail = rest.skip(tokens[0].len() as int);
        lemma_scans_interleave(tail, tokens.drop_first());
        let tail_gaps = spacing_of(tail, tokens.drop_first());
        assert(gaps.drop_first() =~= tail_gaps);
        assert(gaps[0] == leading_whitespace(s));
        assert forall|i: int| 0 <= i < gaps.len() implies all_whitespace(#[trigger] gaps[i]) by {
            if i > 0 {
                assert(gaps[i] == tail_gaps[i - 1]);
            }
        }
        assert(rest =~= tokens[0] + tail);
        assert(leading_whitespace(s) + tokens[0] + tail =~= leading_whitespace(s) + rest);
    }
}

/// A payload is a mint request exactly if reading it from the left finds the
/// tokens of one.
pub proof fn lemma_mint_request_scans(payload: Seq<u8>)
    ensures
        is_mint_request(payload) <==> scans(payload, mint_request_tokens()),
{
    let tokens = mint_request_tokens();
    assert(tokens_delimit(tokens));
    if is_mint_request(payload) {
        let gaps = choose|gaps: Seq<Seq<u8>>|
            is_spacing(gaps, tokens.len()) && payload == #[trigger] interleave(gaps, tokens);
        lemma_interleave_scans(gaps, tokens);
    }
    if scans(payload, tokens) {
        lemma_scans_interleave(payload, tokens);
        assert(payload == interleave(spacing_of(payload, tokens), tokens));
    }
}

/// The mint request without whitespace is a mint request.
pub proof fn lemma_canonical_is_mint_request()
    ensures
        is_mint_request(canonical_mint_request()),
{
    let tokens = mint_request_tokens();
    let gaps = Seq::new(7, |i: int| Seq::<u8>::empty());
    reveal_with_fuel(interleave, 8);
    assert(is_spacing(gaps, tokens.len()));
    assert(interleave(gaps, tokens) =~= canonical_mint_request());
}

/// The byte vectors of a token table, as sequences.
pub open spec fn token_views(table: Seq<Vec<u8>>) -> Seq<Seq<u8>> {
    table.map_values(|token: Vec<u8>| token@)
}

fn is_whitespace_byte(b: u8) -> (r: bool)
    ensures
        r == is_whitespace(b),
{
    b == 0x20 || b == 0x09 || b == 0x0a || b == 0x0d
}

/// The first position from `start` on that holds no whitespace.
fn skip_whitespace(bytes: &[u8], start: usize) -> (end: usize)
    requires
        start <= bytes@.len(),
    ensures
        start <= end <= bytes@.len(),
        bytes@.skip(end as int) == trim_start(bytes@.skip(start as int)),
{
    let mut at: usize = start;
    while at < bytes.len() && is_whitespace_byte(bytes[at])
        invariant
            start <= at <= bytes@.len(),
            trim_start(bytes@.skip(at as int)) == trim_start(bytes@.skip(start as int)),
        decreases bytes@.len() - at,
    {
        proof {
            assert(bytes@.skip(at as int)[0] == bytes@[at as int]);
            assert(bytes@.skip(at as int).drop_first() =~= bytes@.skip(at + 1));
        }
        at += 1;
    }
    proof {
        if at < bytes@.len() {
            assert(bytes@.skip(at as int)[0] == bytes@[at as int]);
        }
    }
    at
}

/// Whether `token` stands in `bytes` at position `at`.
fn starts_with_at(bytes: &[u8], at: usize, token: &[u8]) -> (r: bool)
    requires
        at <= bytes@.len(),
    ensures
        r == token@.is_prefix_of(bytes@.skip(at as int)),
{
    if token.len() > bytes.len() - at {
        return false;
    }
    let ghost rest = bytes@.skip(at as int);
    let total: usize = bytes.len();
    let mut i: usize = 0;
    while i < token.len()
        invariant
            i <= token@.len(),
            total == bytes@.len(),
            at + token@.len() <= bytes@.len(),
            rest == bytes@.skip(at as int),
            forall|k: int| 0 <= k < i ==> token@[k] == bytes@[at + k],
        decreases token@.len() - i,
    {
        if token[i] != bytes[at + i] {
            proof {
                assert(rest.subrange(0, token@.len() as int)[i as int] == bytes@[at + i]);
            }
            return false;
        }
        i += 1;
    }
    proof {
        assert(token@ =~= rest.subrange(0, token@.len() as int));
    }
    true
}

/// Reads `bytes` from the left against a token table.
fn scan_tokens(bytes: &[u8], table: &Vec<Vec<u8>>) -> (r: bool)
    ensures
        r == scans(bytes@, token_views(table@)),
{
    let ghost tokens = token_views(table@);
    let total: usize = bytes.len();
    let mut at: usize = 0;
    let mut k: usize = 0;
    proof {
        assert(bytes@.skip(0) =~= bytes@);
        assert(tokens.skip(0) =~= tokens);
    }
    while k < table.len()
        invariant
            k <= table@.len(),
            at <= bytes@.len(),
            total == bytes@.len(),
            tokens == token_views(table@),
            scans(bytes@, tokens) == scans(bytes@.skip(at as int), tokens.skip(k as int)),
        decreases table@.len() - k,
    {
        let start = skip_whitespace(bytes, at);
        let token = table[k].as_slice();
        let ghost left = tokens.skip(k as int);
        proof {
            assert(left[0] == token@);
            assert(left.drop_first() =~= tokens.skip(k + 1));
        }
        if !starts_with_at(bytes, start, token) {
            return false;
        }
        proof {
            assert(bytes@.skip(start as int).skip(token@.len() as int) =~= bytes@.skip(
                start + token@.len(),
            ));
        }
        at = start + token.len();
        k += 1;
    }
    let end = skip_whitespace(bytes, at);
    end == bytes.len()
}

/// The tokens of a mint request as a table to read against.
fn mint_request_token_table() -> (table: Vec<Vec<u8>>)
    ensures
        token_views(table@) == mint_request_tokens(),
{
    let table: Vec<Vec<u8>> = vec![
        vec![0x7bu8],
        vec![0x22u8, 0x6du8, 0x69u8, 0x6eu8, 0x74u8, 0x22u8],
        vec![0x3au8],
        vec![0x7bu8],
        vec![0x7du8],
        vec![0x7du8],
    ];
    proof {
        assert(token_views(table@) =~~= mint_request_tokens());
    }
    table
}

/// Decides whether the payload of a token notification is a mint request.
pub fn decode_mint_request(payload: &[u8]) -> (r: Result<(), ContractError>)
    ensures
        r == if is_mint_request(payload@) {
            Ok::<(), ContractError>(())
        } else {
            Err::<(), ContractError>(ContractError::DecodeError)
        },
{
    let table = mint_request_token_table();
    proof {
        lemma_mint_request_scans(payload@);
    }
    if scan_tokens(payload, &table) {
        Ok(())
    } else {
        Err(ContractError::DecodeError)
    }
}

/// The payload that asks for a mint, without whitespace: `{"mint":{}}`.
pub fn mint_request_payload() -> (payload: Vec<u8>)
    ensures
        payload@ == canonical_mint_request(),
        is_mint_request(payload@),
{
    let payload: Vec<u8> = vec![
        0x7bu8, 0x22u8, 0x6du8, 0x69u8, 0x6eu8, 0x74u8, 0x22u8, 0x3au8, 0x7bu8, 0x7du8, 0x7du8,
    ];
    proof {
        assert(payload@ =~= canonical_mint_request());
        lemma_canonical_is_mint_request();
    }
    payload
}

} // verus!
