//! Small verified text utilities shared by the admission components:
//! character-exact string comparison, prefix tests, and decimal formatting.

use vstd::prelude::*;

verus! {

/// Relies on `String::push`: appends exactly the given character.
#[verifier::external_body]
pub fn push_char(s: &mut String, c: char)
    ensures
        final(s)@ == old(s)@.push(c),
{
    s.push(c)
}

/// True iff the two strings hold the same characters.
pub fn str_eq(a: &str, b: &str) -> (r: bool)
    ensures
        r == (a@ == b@),
{
    let a_len = a.unicode_len();
    let b_len = b.unicode_len();
    if a_len != b_len {
        proof {
            assert(a@ != b@) by {
                assert(a@.len() != b@.len());
            }
        }
        return false;
    }
    let mut i: usize = 0;
    while i < a_len
        invariant
            i <= a_len,
            a_len == a@.len(),
            b_len == b@.len(),
            a_len == b_len,
            forall|k: int| 0 <= k < i ==> a@[k] == b@[k],
        decreases a_len - i,
    {
        if a.get_char(i) != b.get_char(i) {
            return false;
        }
        i = i + 1;
    }
    proof {
        assert(a@ =~= b@);
    }
    true
}

/// True iff `p` is a prefix of `s`.
pub fn str_has_prefix(s: &str, p: &str) -> (r: bool)
    ensures
        r == p@.is_prefix_of(s@),
{
    let s_len = s.unicode_len();
    let p_len = p.unicode_len();
    if p_len > s_len {
        return false;
    }
    let mut i: usize = 0;
    while i < p_len
        invariant
            i <= p_len,
            p_len == p@.len(),
            s_len == s@.len(),
            p_len <= s_len,
            forall|k: int| 0 <= k < i ==> s@[k] == p@[k],
        decreases p_len - i,
    {
        if s.get_char(i) != p.get_char(i) {
            return false;
        }
        i = i + 1;
    }
    proof {
        assert(s@.subrange(0, p@.len() as int) =~= p@);
    }
    true
}

/// The character for one decimal digit.
pub open spec fn spec_digit_char(d: nat) -> char
    recommends
        d < 10,
{
    ((d + 48) as u8) as char
}

/// The decimal representation of `n`, most significant digit first, with no
/// leading zeros (a single `'0'` for zero).
pub open spec fn spec_decimal(n: nat) -> Seq<char>
    decreases n,
{
    if n < 10 {
        seq![spec_digit_char(n)]
    } else {
        spec_decimal(n / 10).push(spec_digit_char(n % 10))
    }
}

/// Append the decimal representation of `n` to `out`.
pub fn push_decimal(out: &mut String, n: u64)
    ensures
        final(out)@ == old(out)@ + spec_decimal(n as nat),
    decreases n,
{
    if n < 10 {
        let d: u8 = 48 + (n as u8);
        push_char(out, d as char);
        proof {
            assert(final(out)@ =~= old(out)@ + spec_decimal(n as nat));
        }
    } else {
        push_decimal(out, n / 10);
        let d: u8 = 48 + ((n % 10) as u8);
        push_char(out, d as char);
        proof {
            assert(final(out)@ =~= old(out)@ + spec_decimal(n as nat));
        }
    }
}

/// The chunks of a string split on a separator character; a string without
/// the separator is a single chunk, and every separator opens a new
/// (possibly empty) chunk.
pub open spec fn spec_split_char(s: Seq<char>, sep: char) -> Seq<Seq<char>>
    decreases s.len(),
{
    if s.len() == 0 {
        seq![Seq::<char>::empty()]
    } else {
        let rest = spec_split_char(s.drop_first(), sep);
        if s[0] == sep {
            seq![Seq::<char>::empty()] + rest
        } else {
            seq![seq![s[0]] + rest[0]] + rest.drop_first()
        }
    }
}

/// A split always yields at least one chunk.
pub proof fn lemma_split_at_least_one(s: Seq<char>, sep: char)
    ensures
        spec_split_char(s, sep).len() >= 1,
    decreases s.len(),
{
    if s.len() > 0 {
        lemma_split_at_least_one(s.drop_first(), sep);
    }
}

/// The chunks of `cur + rest`, where `cur` is an unfinished first chunk.
pub open spec fn spec_split_with(cur: Seq<char>, rest: Seq<char>, sep: char) -> Seq<Seq<char>> {
    let r = spec_split_char(rest, sep);
    seq![cur + r[0]] + r.drop_first()
}

/// Split a string on a separator character.
pub fn split_char(data: &str, sep: char) -> (r: Vec<String>)
    ensures
        r.deep_view() == spec_split_char(data@, sep),
{
    let len = data.unicode_len();
    let mut tokens: Vec<String> = Vec::new();
    let mut cur = String::new();
    proof {
        lemma_split_at_least_one(data@, sep);
        let r0 = spec_split_char(data@, sep);
        assert(data@.subrange(0, len as int) =~= data@);
        assert(Seq::<char>::empty() + r0[0] =~= r0[0]);
        assert(seq![r0[0]] + r0.drop_first() =~= r0);
        assert(tokens.deep_view() =~= Seq::<Seq<char>>::empty());
        assert(Seq::<Seq<char>>::empty() + spec_split_with(Seq::<char>::empty(), data@, sep)
            =~= spec_split_with(Seq::<char>::empty(), data@, sep));
    }
    let mut i: usize = 0;
    while i < len
        invariant
            i <= len,
            len == data@.len(),
            spec_split_char(data@, sep) == tokens.deep_view() + spec_split_with(
                cur@,
                data@.subrange(i as int, len as int),
                sep,
            ),
        decreases len - i,
    {
        proof {
            let rest = data@.subrange(i as int, len as int);
            assert(rest[0] == data@[i as int]);
            assert(rest.drop_first() =~= data@.subrange(i as int + 1, len as int));
            lemma_split_at_least_one(data@.subrange(i as int + 1, len as int), sep);
        }
        let c = data.get_char(i);
        if c == sep {
            let ghost old_tokens = tokens.deep_view();
            let ghost old_cur = cur@;
            tokens.push(cur);
            cur = String::new();
            proof {
                let rest = data@.subrange(i as int, len as int);
                let rest1 = data@.subrange(i as int + 1, len as int);
                let r1 = spec_split_char(rest1, sep);
                assert(spec_split_char(rest, sep) =~= seq![Seq::<char>::empty()] + r1);
                assert((seq![Seq::<char>::empty()] + r1)[0] =~= Seq::<char>::empty());
                assert((seq![Seq::<char>::empty()] + r1).drop_first() =~= r1);
                assert(old_cur + Seq::<char>::empty() =~= old_cur);
                assert(spec_split_with(old_cur, rest, sep) =~= seq![old_cur] + r1);
                assert(Seq::<char>::empty() + r1[0] =~= r1[0]);
                assert(seq![r1[0]] + r1.drop_first() =~= r1);
                assert(spec_split_with(Seq::<char>::empty(), rest1, sep) =~= r1);
                assert(tokens.deep_view() =~= old_tokens.push(old_cur));
                assert(old_tokens + (seq![old_cur] + r1) =~= old_tokens.push(old_cur) + r1);
            }
        } else {
            let ghost old_cur = cur@;
            push_char(&mut cur, c);
            proof {
                let rest = data@.subrange(i as int, len as int);
                let rest1 = data@.subrange(i as int + 1, len as int);
                let r1 = spec_split_char(rest1, sep);
                assert(spec_split_char(rest, sep) =~= seq![seq![c] + r1[0]] + r1.drop_first());
                assert((seq![seq![c] + r1[0]] + r1.drop_first())[0] =~= seq![c] + r1[0]);
                assert((seq![seq![c] + r1[0]] + r1.drop_first()).drop_first() =~= r1.drop_first());
                assert(old_cur + (seq![c] + r1[0]) =~= cur@ + r1[0]);
                assert(spec_split_with(old_cur, rest, sep) =~= spec_split_with(cur@, rest1, sep));
            }
        }
        i = i + 1;
    }
    proof {
        assert(data@.subrange(len as int, len as int) =~= Seq::<char>::empty());
        assert(spec_split_with(cur@, Seq::<char>::empty(), sep) =~= seq![cur@]);
    }
    tokens.push(cur);
    proof {
        assert(tokens.deep_view() =~= spec_split_char(data@, sep));
    }
    tokens
}

/// The decimal representation of `n` as a fresh string.
pub fn decimal_string(n: u64) -> (r: String)
    ensures
        r@ == spec_decimal(n as nat),
{
    let mut out = String::new();
    push_decimal(&mut out, n);
    proof {
        assert(out@ =~= spec_decimal(n as nat));
    }
    out
}

} // verus!
