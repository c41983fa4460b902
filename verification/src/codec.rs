//! A byte encoding of requests, with a proved round trip.
//!
//! The format is deliberately plain: a one-byte variant tag, then the payload.
//! A string is its character count as eight little-endian bytes followed by
//! each character's code point as four little-endian bytes; lists are a count
//! followed by their elements back to back.  `spec_decode` is the partial
//! inverse of `spec_encode`: it answers `Some` exactly on exact encodings,
//! with nothing trailing.

use vstd::bytes::{
    lemma_auto_spec_u32_to_from_le_bytes, lemma_auto_spec_u64_to_from_le_bytes,
    spec_u32_from_le_bytes, spec_u32_to_le_bytes, spec_u64_from_le_bytes, spec_u64_to_le_bytes,
    u32_from_le_bytes, u32_to_le_bytes, u64_from_le_bytes, u64_to_le_bytes,
};
use vstd::prelude::*;
use vstd::slice::slice_subrange;
use vstd::string::StrSliceExecFns;
use vstd::string::StringExecFns;

use crate::model::{AdapterError, Request, RequestV, SubmissionEntry, pairs_view, strs_view};

verus! {

/// The tag byte of a `FetchResults` request.
pub const FETCH_TAG: u8 = 0;

/// The tag byte of a `RunAction` request.
pub const RUN_TAG: u8 = 1;

/// A Unicode scalar value: what a character's code point may be.
pub open spec fn valid_unit(v: u32) -> bool {
    v < 0xD800 || (0xE000 <= v && v <= 0x10FFFF)
}

/// The character with code point `v`.
pub open spec fn char_of(v: u32) -> char {
    choose|c: char| (#[trigger] (c as u32)) == v
}

/// Relies on char::from_u32: `Some` exactly for Unicode scalar values, and
/// the returned character carries the given code point.
#[verifier::external_body]
fn char_from_code(v: u32) -> (r: Option<char>)
    ensures
        r is Some <==> valid_unit(v),
        r matches Some(c) ==> c as u32 == v,
{
    char::from_u32(v)
}

/// Relies on String::push: appends one character at the end.
#[verifier::external_body]
fn push_char(s: &mut String, c: char)
    ensures
        final(s)@ == old(s)@.push(c),
{
    s.push(c);
}

/// Every character's code point is a valid scalar value, and `char_of`
/// recovers the character from it.
pub proof fn lemma_char_of(c: char)
    ensures
        valid_unit(c as u32),
        char_of(c as u32) == c,
{
    assert(c as u32 == c as u32);
    let c2 = char_of(c as u32);
    assert(c2 as u32 == c as u32);
}

/// Little-endian bytes of one character's code point.
pub open spec fn char_bytes(c: char) -> Seq<u8> {
    spec_u32_to_le_bytes(c as u32)
}

/// The characters of `s`, four bytes each.
pub open spec fn enc_chars(s: Seq<char>) -> Seq<u8>
    decreases s.len(),
{
    if s.len() == 0 {
        Seq::empty()
    } else {
        char_bytes(s[0]) + enc_chars(s.subrange(1, s.len() as int))
    }
}

/// A length-prefixed string: the character count, then the characters.
pub open spec fn enc_str(s: Seq<char>) -> Seq<u8> {
    spec_u64_to_le_bytes(s.len() as u64) + enc_chars(s)
}

/// Strings back to back.
pub open spec fn enc_str_seq(l: Seq<Seq<char>>) -> Seq<u8>
    decreases l.len(),
{
    if l.len() == 0 {
        Seq::empty()
    } else {
        enc_str(l[0]) + enc_str_seq(l.subrange(1, l.len() as int))
    }
}

/// Key/value pairs back to back.
pub open spec fn enc_pair_seq(l: Seq<(Seq<char>, Seq<char>)>) -> Seq<u8>
    decreases l.len(),
{
    if l.len() == 0 {
        Seq::empty()
    } else {
        enc_str(l[0].0) + enc_str(l[0].1) + enc_pair_seq(l.subrange(1, l.len() as int))
    }
}

/// The encoding of a request: a tag byte, then the payload.
pub open spec fn spec_encode(r: RequestV) -> Seq<u8> {
    match r {
        RequestV::FetchResults => seq![FETCH_TAG],
        RequestV::RunAction { action, args, submission } => seq![RUN_TAG] + enc_str(action)
            + spec_u64_to_le_bytes(args.len() as u64) + enc_str_seq(args) + spec_u64_to_le_bytes(
            submission.len() as u64,
        ) + enc_pair_seq(submission),
    }
}

/// Every count in `r` fits its eight-byte length prefix.  Values built from
/// in-memory strings and vectors always satisfy this.
pub open spec fn bounded_req(r: RequestV) -> bool {
    match r {
        RequestV::FetchResults => true,
        RequestV::RunAction { action, args, submission } => action.len() <= u64::MAX
            && args.len() <= u64::MAX && (forall|i: int|
            0 <= i < args.len() ==> #[trigger] args[i].len() <= u64::MAX) && submission.len()
            <= u64::MAX && (forall|i: int|
            0 <= i < submission.len() ==> #[trigger] submission[i].0.len() <= u64::MAX
                && submission[i].1.len() <= u64::MAX),
    }
}

/// Decodes `n` characters from position `i`.
pub open spec fn dec_chars(b: Seq<u8>, i: int, n: nat) -> Option<(Seq<char>, int)>
    decreases n,
{
    if n == 0 {
        Some((Seq::empty(), i))
    } else if i + 4 <= b.len() {
        let v = spec_u32_from_le_bytes(b.subrange(i, i + 4));
        if valid_unit(v) {
            match dec_chars(b, i + 4, (n - 1) as nat) {
                Some((s, j)) => Some((seq![char_of(v)] + s, j)),
                None => None,
            }
        } else {
            None
        }
    } else {
        None
    }
}

/// Decodes one length-prefixed string from position `i`.
pub open spec fn dec_str(b: Seq<u8>, i: int) -> Option<(Seq<char>, int)> {
    if i + 8 <= b.len() {
        dec_chars(b, i + 8, spec_u64_from_le_bytes(b.subrange(i, i + 8)) as nat)
    } else {
        None
    }
}

/// Decodes `n` strings back to back from position `i`.
pub open spec fn dec_str_seq(b: Seq<u8>, i: int, n: nat) -> Option<(Seq<Seq<char>>, int)>
    decreases n,
{
    if n == 0 {
        Some((Seq::empty(), i))
    } else {
        match dec_str(b, i) {
            Some((s, j)) => match dec_str_seq(b, j, (n - 1) as nat) {
                Some((l, k)) => Some((seq![s] + l, k)),
                None => None,
            },
            None => None,
        }
    }
}

/// Decodes `n` key/value pairs back to back from position `i`.
pub open spec fn dec_pair_seq(b: Seq<u8>, i: int, n: nat) -> Option<
    (Seq<(Seq<char>, Seq<char>)>, int),
>
    decreases n,
{
    if n == 0 {
        Some((Seq::empty(), i))
    } else {
        match dec_str(b, i) {
            Some((k0, j)) => match dec_str(b, j) {
                Some((v0, j2)) => match dec_pair_seq(b, j2, (n - 1) as nat) {
                    Some((l, k)) => Some((seq![(k0, v0)] + l, k)),
                    None => None,
                },
                None => None,
            },
            None => None,
        }
    }
}

/// The partial inverse of `spec_encode`: `Some` exactly on exact encodings,
/// refusing unknown tags, short payloads and trailing bytes.
pub open spec fn spec_decode(b: Seq<u8>) -> Option<RequestV> {
    if b.len() < 1 {
        None
    } else if b[0] == FETCH_TAG {
        if b.len() == 1 {
            Some(RequestV::FetchResults)
        } else {
            None
        }
    } else if b[0] == RUN_TAG {
        match dec_str(b, 1) {
            Some((action, i)) => if i + 8 <= b.len() {
                match dec_str_seq(b, i + 8, spec_u64_from_le_bytes(b.subrange(i, i + 8)) as nat) {
                    Some((args, j)) => if j + 8 <= b.len() {
                        match dec_pair_seq(
                            b,
                            j + 8,
                            spec_u64_from_le_bytes(b.subrange(j, j + 8)) as nat,
                        ) {
                            Some((submission, k)) => if k == b.len() {
                                Some(RequestV::RunAction { action, args, submission })
                            } else {
                                None
                            },
                            None => None,
                        }
                    } else {
                        None
                    },
                    None => None,
                }
            } else {
                None
            },
            None => None,
        }
    } else {
        None
    }
}

/// Four bytes per character.
pub proof fn lemma_enc_chars_len(s: Seq<char>)
    ensures
        enc_chars(s).len() == 4 * s.len(),
    decreases s.len(),
{
    lemma_auto_spec_u32_to_from_le_bytes();
    if s.len() > 0 {
        lemma_enc_chars_len(s.subrange(1, s.len() as int));
    }
}

/// Splitting a known concatenation out of `b`: if the bytes from `i` are
/// `a + c`, then `a` sits at `i` and `c` right after it.
proof fn lemma_concat_split(a: Seq<u8>, c: Seq<u8>, b: Seq<u8>, i: int)
    requires
        0 <= i,
        i + a.len() + c.len() <= b.len(),
        b.subrange(i, i + a.len() + c.len()) == a + c,
    ensures
        b.subrange(i, i + a.len() as int) == a,
        b.subrange(i + a.len() as int, i + a.len() + c.len()) == c,
{
    assert forall|k: int| 0 <= k < a.len() implies b.subrange(i, i + a.len() as int)[k]
        == a[k] by {
        assert(b.subrange(i, i + a.len() + c.len())[k] == (a + c)[k]);
    }
    assert(b.subrange(i, i + a.len() as int) =~= a);
    assert forall|k: int|
        0 <= k < c.len() implies b.subrange(i + a.len() as int, i + a.len() + c.len())[k]
        == c[k] by {
        assert(b.subrange(i, i + a.len() + c.len())[a.len() + k] == (a + c)[a.len() + k]);
        assert(b.subrange(i, i + a.len() + c.len())[a.len() + k] == b[i + a.len() + k]);
        assert((a + c)[a.len() + k] == c[k]);
        assert(b.subrange(i + a.len() as int, i + a.len() + c.len())[k] == b[i + a.len() + k]);
    }
    assert(b.subrange(i + a.len() as int, i + a.len() + c.len()) =~= c);
}

/// Decoding `s.len()` characters out of bytes that carry `enc_chars(s)` at
/// position `i` recovers `s` and stops right after it.
proof fn lemma_dec_chars_enc(s: Seq<char>, b: Seq<u8>, i: int)
    requires
        0 <= i,
        i + enc_chars(s).len() <= b.len(),
        b.subrange(i, i + enc_chars(s).len() as int) == enc_chars(s),
    ensures
        dec_chars(b, i, s.len()) == Some((s, i + enc_chars(s).len() as int)),
    decreases s.len(),
{
    lemma_enc_chars_len(s);
    lemma_auto_spec_u32_to_from_le_bytes();
    if s.len() == 0 {
        assert(s =~= Seq::<char>::empty());
    } else {
        let c = s[0];
        let rest = s.subrange(1, s.len() as int);
        lemma_enc_chars_len(rest);
        lemma_concat_split(char_bytes(c), enc_chars(rest), b, i);
        let v = spec_u32_from_le_bytes(b.subrange(i, i + 4));
        assert(v == c as u32);
        lemma_char_of(c);
        lemma_dec_chars_enc(rest, b, i + 4);
        assert(seq![char_of(v)] + rest =~= s);
    }
}

/// Decoding a length-prefixed string out of bytes that carry `enc_str(s)` at
/// position `i` recovers `s` and stops right after it.
proof fn lemma_dec_str_enc(s: Seq<char>, b: Seq<u8>, i: int)
    requires
        0 <= i,
        s.len() <= u64::MAX,
        i + enc_str(s).len() <= b.len(),
        b.subrange(i, i + enc_str(s).len() as int) == enc_str(s),
    ensures
        dec_str(b, i) == Some((s, i + enc_str(s).len() as int)),
{
    lemma_auto_spec_u64_to_from_le_bytes();
    lemma_enc_chars_len(s);
    lemma_concat_split(spec_u64_to_le_bytes(s.len() as u64), enc_chars(s), b, i);
    assert(spec_u64_from_le_bytes(b.subrange(i, i + 8)) == s.len() as u64);
    assert((s.len() as u64) as nat == s.len());
    lemma_dec_chars_enc(s, b, i + 8);
}

/// Decoding `l.len()` strings out of bytes that carry `enc_str_seq(l)` at
/// position `i` recovers `l` and stops right after it.
proof fn lemma_dec_str_seq_enc(l: Seq<Seq<char>>, b: Seq<u8>, i: int)
    requires
        0 <= i,
        forall|k: int| 0 <= k < l.len() ==> #[trigger] l[k].len() <= u64::MAX,
        i + enc_str_seq(l).len() <= b.len(),
        b.subrange(i, i + enc_str_seq(l).len() as int) == enc_str_seq(l),
    ensures
        dec_str_seq(b, i, l.len()) == Some((l, i + enc_str_seq(l).len() as int)),
    decreases l.len(),
{
    if l.len() == 0 {
        assert(l =~= Seq::<Seq<char>>::empty());
    } else {
        let s0 = l[0];
        let rest = l.subrange(1, l.len() as int);
        lemma_concat_split(enc_str(s0), enc_str_seq(rest), b, i);
        lemma_dec_str_enc(s0, b, i);
        let j = i + enc_str(s0).len() as int;
        lemma_dec_str_seq_enc(rest, b, j);
        assert(seq![s0] + rest =~= l);
    }
}

/// Decoding `l.len()` pairs out of bytes that carry `enc_pair_seq(l)` at
/// position `i` recovers `l` and stops right after it.
proof fn lemma_dec_pair_seq_enc(l: Seq<(Seq<char>, Seq<char>)>, b: Seq<u8>, i: int)
    requires
        0 <= i,
        forall|k: int|
            0 <= k < l.len() ==> (#[trigger] l[k]).0.len() <= u64::MAX && l[k].1.len()
                <= u64::MAX,
        i + enc_pair_seq(l).len() <= b.len(),
        b.subrange(i, i + enc_pair_seq(l).len() as int) == enc_pair_seq(l),
    ensures
        dec_pair_seq(b, i, l.len()) == Some((l, i + enc_pair_seq(l).len() as int)),
    decreases l.len(),
{
    if l.len() == 0 {
        assert(l =~= Seq::<(Seq<char>, Seq<char>)>::empty());
    } else {
        let k0 = l[0].0;
        let v0 = l[0].1;
        let rest = l.subrange(1, l.len() as int);
        let tail_bytes = enc_str(v0) + enc_pair_seq(rest);
        assert(enc_pair_seq(l) =~= enc_str(k0) + tail_bytes);
        lemma_concat_split(enc_str(k0), tail_bytes, b, i);
        lemma_dec_str_enc(k0, b, i);
        let j = i + enc_str(k0).len() as int;
        lemma_concat_split(enc_str(v0), enc_pair_seq(rest), b, j);
        lemma_dec_str_enc(v0, b, j);
        let j2 = j + enc_str(v0).len() as int;
        lemma_dec_pair_seq_enc(rest, b, j2);
        assert(seq![(k0, v0)] + rest =~= l);
    }
}

/// Round trip: decoding the encoding of any request yields the same request,
/// variant tag and payload preserved.
pub proof fn lemma_encode_decode(r: RequestV)
    requires
        bounded_req(r),
    ensures
        spec_decode(spec_encode(r)) == Some(r),
{
    match r {
        RequestV::FetchResults => {
            let b = spec_encode(r);
            assert(b.len() == 1);
            assert(b[0] == FETCH_TAG);
        },
        RequestV::RunAction { action, args, submission } => {
            let b = spec_encode(r);
            lemma_auto_spec_u64_to_from_le_bytes();
            lemma_enc_chars_len(action);
            let p1 = enc_str(action);
            let p2 = spec_u64_to_le_bytes(args.len() as u64);
            let p3 = enc_str_seq(args);
            let p4 = spec_u64_to_le_bytes(submission.len() as u64);
            let p5 = enc_pair_seq(submission);
            assert(b == seq![RUN_TAG] + p1 + p2 + p3 + p4 + p5);
            assert(b[0] == RUN_TAG);
            assert(b.subrange(0, b.len() as int) =~= b);
            assert(b =~= seq![RUN_TAG] + (p1 + (p2 + (p3 + (p4 + p5)))));
            lemma_concat_split(seq![RUN_TAG], p1 + (p2 + (p3 + (p4 + p5))), b, 0);
            lemma_concat_split(p1, p2 + (p3 + (p4 + p5)), b, 1);
            lemma_dec_str_enc(action, b, 1);
            let i1 = 1 + p1.len() as int;
            lemma_concat_split(p2, p3 + (p4 + p5), b, i1);
            assert(spec_u64_from_le_bytes(b.subrange(i1, i1 + 8)) == args.len() as u64);
            assert((args.len() as u64) as nat == args.len());
            lemma_concat_split(p3, p4 + p5, b, i1 + 8);
            lemma_dec_str_seq_enc(args, b, i1 + 8);
            let j = i1 + 8 + p3.len() as int;
            lemma_concat_split(p4, p5, b, j);
            assert(spec_u64_from_le_bytes(b.subrange(j, j + 8)) == submission.len() as u64);
            assert((submission.len() as u64) as nat == submission.len());
            lemma_dec_pair_seq_enc(submission, b, j + 8);
            assert(j + 8 + p5.len() as int == b.len());
        },
    }
}

/// Encodes the characters of `s` from position `from` onward.
fn encode_chars_from(s: &str, from: usize) -> (out: Vec<u8>)
    requires
        from as int <= s@.len(),
    ensures
        out@ == enc_chars(s@.subrange(from as int, s@.len() as int)),
    decreases s@.len() - from,
{
    let n = s.unicode_len();
    if from == n {
        let out: Vec<u8> = Vec::new();
        proof {
            assert(s@.subrange(n as int, n as int) =~= Seq::<char>::empty());
        }
        out
    } else {
        let c = s.get_char(from);
        let mut out = u32_to_le_bytes(c as u32);
        let mut rest = encode_chars_from(s, from + 1);
        out.append(&mut rest);
        proof {
            let sub = s@.subrange(from as int, s@.len() as int);
            assert(sub[0] == s@[from as int]);
            assert(sub.subrange(1, sub.len() as int) =~= s@.subrange(
                from as int + 1,
                s@.len() as int,
            ));
        }
        out
    }
}

/// Encodes one length-prefixed string.
fn encode_str_bytes(s: &str) -> (out: Vec<u8>)
    ensures
        out@ == enc_str(s@),
{
    let n = s.unicode_len();
    let mut out = u64_to_le_bytes(n as u64);
    let mut chars_part = encode_chars_from(s, 0);
    out.append(&mut chars_part);
    proof {
        assert(s@.subrange(0, s@.len() as int) =~= s@);
    }
    out
}

/// Encodes the strings of `l` from position `from` onward, back to back.
fn encode_strs_from(l: &Vec<String>, from: usize) -> (out: Vec<u8>)
    requires
        from as int <= l@.len(),
    ensures
        out@ == enc_str_seq(strs_view(l@).subrange(from as int, l@.len() as int)),
    decreases l@.len() - from,
{
    let n = l.len();
    if from == n {
        let out: Vec<u8> = Vec::new();
        proof {
            assert(strs_view(l@).subrange(n as int, n as int) =~= Seq::<Seq<char>>::empty());
        }
        out
    } else {
        let mut out = encode_str_bytes(l[from].as_str());
        let mut rest = encode_strs_from(l, from + 1);
        out.append(&mut rest);
        proof {
            let sub = strs_view(l@).subrange(from as int, l@.len() as int);
            assert(sub[0] == strs_view(l@)[from as int]);
            assert(sub.subrange(1, sub.len() as int) =~= strs_view(l@).subrange(
                from as int + 1,
                l@.len() as int,
            ));
        }
        out
    }
}

/// Encodes the pairs of `l` from position `from` onward, back to back.
fn encode_pairs_from(l: &Vec<SubmissionEntry>, from: usize) -> (out: Vec<u8>)
    requires
        from as int <= l@.len(),
    ensures
        out@ == enc_pair_seq(pairs_view(l@).subrange(from as int, l@.len() as int)),
    decreases l@.len() - from,
{
    let n = l.len();
    if from == n {
        let out: Vec<u8> = Vec::new();
        proof {
            assert(pairs_view(l@).subrange(n as int, n as int) =~= Seq::<
                (Seq<char>, Seq<char>),
            >::empty());
        }
        out
    } else {
        let mut out = encode_str_bytes(l[from].key.as_str());
        let mut value_part = encode_str_bytes(l[from].value.as_str());
        let mut rest = encode_pairs_from(l, from + 1);
        out.append(&mut value_part);
        out.append(&mut rest);
        proof {
            let sub = pairs_view(l@).subrange(from as int, l@.len() as int);
            assert(sub[0] == pairs_view(l@)[from as int]);
            assert(sub.subrange(1, sub.len() as int) =~= pairs_view(l@).subrange(
                from as int + 1,
                l@.len() as int,
            ));
        }
        out
    }
}

/// Encodes a request as `spec_encode` demands.
pub fn encode_request(req: &Request) -> (out: Vec<u8>)
    ensures
        out@ == spec_encode(req@),
{
    match req {
        Request::FetchResults => {
            let mut out: Vec<u8> = Vec::new();
            out.push(FETCH_TAG);
            proof {
                assert(out@ =~= seq![FETCH_TAG]);
            }
            out
        },
        Request::RunAction { action, args, submission } => {
            let mut out: Vec<u8> = Vec::new();
            out.push(RUN_TAG);
            let mut action_part = encode_str_bytes(action.as_str());
            let mut args_count = u64_to_le_bytes(args.len() as u64);
            let mut args_part = encode_strs_from(args, 0);
            let mut sub_count = u64_to_le_bytes(submission.len() as u64);
            let mut sub_part = encode_pairs_from(submission, 0);
            out.append(&mut action_part);
            out.append(&mut args_count);
            out.append(&mut args_part);
            out.append(&mut sub_count);
            out.append(&mut sub_part);
            proof {
                assert(strs_view(args@).subrange(0, args@.len() as int) =~= strs_view(args@));
                assert(pairs_view(submission@).subrange(0, submission@.len() as int) =~= pairs_view(
                    submission@,
                ));
                assert(out@ =~= spec_encode(req@));
            }
            out
        },
    }
}

/// Decodes `n` characters from position `i`, as `dec_chars` demands.
fn decode_chars(b: &Vec<u8>, i: usize, n: u64) -> (r: Option<(String, usize)>)
    requires
        i <= b@.len(),
    ensures
        match r {
            Some(p) => dec_chars(b@, i as int, n as nat) == Some((p.0@, p.1 as int)) && i <= p.1
                <= b@.len(),
            None => dec_chars(b@, i as int, n as nat) is None,
        },
    decreases n,
{
    if n == 0 {
        Some((String::new(), i))
    } else if b.len() - i >= 4 {
        let v = u32_from_le_bytes(slice_subrange(b.as_slice(), i, i + 4));
        match char_from_code(v) {
            Some(c) => {
                match decode_chars(b, i + 4, n - 1) {
                    Some(rest) => {
                        let mut s = String::new();
                        push_char(&mut s, c);
                        let s2 = s.concat(rest.0.as_str());
                        proof {
                            lemma_char_of(c);
                            assert(s2@ =~= seq![char_of(v)] + rest.0@);
                        }
                        Some((s2, rest.1))
                    },
                    None => None,
                }
            },
            None => None,
        }
    } else {
        None
    }
}

/// Decodes one length-prefixed string from position `i`, as `dec_str` demands.
fn decode_str_bytes(b: &Vec<u8>, i: usize) -> (r: Option<(String, usize)>)
    requires
        i <= b@.len(),
    ensures
        match r {
            Some(p) => dec_str(b@, i as int) == Some((p.0@, p.1 as int)) && i <= p.1 <= b@.len(),
            None => dec_str(b@, i as int) is None,
        },
{
    if b.len() - i >= 8 {
        let n = u64_from_le_bytes(slice_subrange(b.as_slice(), i, i + 8));
        decode_chars(b, i + 8, n)
    } else {
        None
    }
}

/// Decodes `n` strings from position `i`, as `dec_str_seq` demands.
fn decode_strs(b: &Vec<u8>, i: usize, n: u64) -> (r: Option<(Vec<String>, usize)>)
    requires
        i <= b@.len(),
    ensures
        match r {
            Some(p) => dec_str_seq(b@, i as int, n as nat) == Some((strs_view(p.0@), p.1 as int))
                && i <= p.1 <= b@.len(),
            None => dec_str_seq(b@, i as int, n as nat) is None,
        },
    decreases n,
{
    if n == 0 {
        let out: Vec<String> = Vec::new();
        proof {
            assert(strs_view(out@) =~= Seq::<Seq<char>>::empty());
        }
        Some((out, i))
    } else {
        match decode_str_bytes(b, i) {
            Some(head) => {
                match decode_strs(b, head.1, n - 1) {
                    Some(rest) => {
                        let mut out: Vec<String> = Vec::new();
                        out.push(head.0);
                        let mut rest_vec = rest.0;
                        let ghost rest_view = rest_vec@;
                        out.append(&mut rest_vec);
                        proof {
                            assert(strs_view(out@) =~= seq![out@[0]@] + strs_view(rest_view));
                        }
                        Some((out, rest.1))
                    },
                    None => None,
                }
            },
            None => None,
        }
    }
}

/// Decodes `n` key/value pairs from position `i`, as `dec_pair_seq` demands.
fn decode_pairs(b: &Vec<u8>, i: usize, n: u64) -> (r: Option<(Vec<SubmissionEntry>, usize)>)
    requires
        i <= b@.len(),
    ensures
        match r {
            Some(p) => dec_pair_seq(b@, i as int, n as nat) == Some((pairs_view(p.0@), p.1 as int))
                && i <= p.1 <= b@.len(),
            None => dec_pair_seq(b@, i as int, n as nat) is None,
        },
    decreases n,
{
    if n == 0 {
        let out: Vec<SubmissionEntry> = Vec::new();
        proof {
            assert(pairs_view(out@) =~= Seq::<(Seq<char>, Seq<char>)>::empty());
        }
        Some((out, i))
    } else {
        match decode_str_bytes(b, i) {
            Some(key_part) => {
                match decode_str_bytes(b, key_part.1) {
                    Some(value_part) => {
                        match decode_pairs(b, value_part.1, n - 1) {
                            Some(rest) => {
                                let mut out: Vec<SubmissionEntry> = Vec::new();
                                out.push(
                                    SubmissionEntry { key: key_part.0, value: value_part.0 },
                                );
                                let mut rest_vec = rest.0;
                                let ghost rest_view = rest_vec@;
                                out.append(&mut rest_vec);
                                proof {
                                    assert(pairs_view(out@) =~= seq![
                                        (out@[0].key@, out@[0].value@),
                                    ] + pairs_view(rest_view));
                                }
                                Some((out, rest.1))
                            },
                            None => None,
                        }
                    },
                    None => None,
                }
            },
            None => None,
        }
    }
}

/// Decodes a request, refusing with `MalformedRequest` exactly when the bytes
/// are not the exact encoding of one.
pub fn decode_request(b: &Vec<u8>) -> (r: Result<Request, AdapterError>)
    ensures
        match r {
            Ok(req) => spec_decode(b@) == Some(req@),
            Err(e) => e == AdapterError::MalformedRequest && spec_decode(b@) is None,
        },
{
    if b.len() < 1 {
        return Err(AdapterError::MalformedRequest);
    }
    let tag = b[0];
    if tag == FETCH_TAG {
        if b.len() == 1 {
            Ok(Request::FetchResults)
        } else {
            Err(AdapterError::MalformedRequest)
        }
    } else if tag == RUN_TAG {
        match decode_str_bytes(b, 1) {
            Some(action_part) => {
                let i = action_part.1;
                if b.len() - i >= 8 {
                    let na = u64_from_le_bytes(slice_subrange(b.as_slice(), i, i + 8));
                    match decode_strs(b, i + 8, na) {
                        Some(args_part) => {
                            let j = args_part.1;
                            if b.len() - j >= 8 {
                                let ns = u64_from_le_bytes(slice_subrange(b.as_slice(), j, j + 8));
                                match decode_pairs(b, j + 8, ns) {
                                    Some(sub_part) => {
                                        if sub_part.1 == b.len() {
                                            let req = Request::RunAction {
                                                action: action_part.0,
                                                args: args_part.0,
                                                submission: sub_part.0,
                                            };
                                            Ok(req)
                                        } else {
                                            Err(AdapterError::MalformedRequest)
                                        }
                                    },
                                    None => Err(AdapterError::MalformedRequest),
                                }
                            } else {
                                Err(AdapterError::MalformedRequest)
                            }
                        },
                        None => Err(AdapterError::MalformedRequest),
                    }
                } else {
                    Err(AdapterError::MalformedRequest)
                }
            },
            None => Err(AdapterError::MalformedRequest),
        }
    } else {
        Err(AdapterError::MalformedRequest)
    }
}

} // verus!
