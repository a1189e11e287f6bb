//! The claims payload carried inside a session token: the account
//! identifier and the validity window, as one canonical JSON object.
//! Serialising and parsing are proved inverse, so a token carries
//! exactly the claims it was issued with, and any string the parser
//! accepts is the serialisation of the claims it returns.

use crate::num::{
    digits_val, idec, is_digit, parse_canonical_u64, udec, valid_udec, i64_to_string,
    u64_to_string, lemma_udec_valid, lemma_udec_canonical,
};
use vstd::prelude::*;
use vstd::string::*;

verus! {

/// The canonical claims text for an account and a validity window.
pub open spec fn claims_seq(account_id: int, exp: int, nbf: int) -> Seq<char>
    recommends
        exp >= 0,
        nbf >= 0,
{
    "{\"account_id\":"@ + idec(account_id) + ",\"exp\":"@ + udec(exp as nat) + ",\"nbf\":"@ + udec(
        nbf as nat,
    ) + "}"@
}

/// Renders the claims of a session token.
pub fn claims_string(account_id: i32, exp: i64, nbf: i64) -> (r: String)
    requires
        exp >= 0,
        nbf >= 0,
    ensures
        r@ == claims_seq(account_id as int, exp as int, nbf as int),
{
    let mut r = String::from_str("{\"account_id\":");
    r.append(i64_to_string(account_id as i64).as_str());
    r.append(",\"exp\":");
    r.append(u64_to_string(exp as u64).as_str());
    r.append(",\"nbf\":");
    r.append(u64_to_string(nbf as u64).as_str());
    r.append("}");
    r
}

/// The index of the first `c` in `s` at or after `from`; the length of
/// `s` when there is none.
pub open spec fn find_char(s: Seq<char>, c: char, from: int) -> int
    decreases s.len() - from
        when from <= s.len()
{
    if from >= s.len() {
        s.len() as int
    } else if s[from] == c {
        from
    } else {
        find_char(s, c, from + 1)
    }
}

proof fn lemma_find_char(s: Seq<char>, c: char, from: int)
    requires
        0 <= from <= s.len(),
    ensures
        from <= find_char(s, c, from) <= s.len(),
        find_char(s, c, from) < s.len() ==> s[find_char(s, c, from)] == c,
        forall|i: int| from <= i < find_char(s, c, from) ==> s[i] != c,
    decreases s.len() - from,
{
    if from < s.len() && s[from] != c {
        lemma_find_char(s, c, from + 1);
    }
}

proof fn lemma_find_char_is(s: Seq<char>, c: char, from: int, at: int)
    requires
        0 <= from <= at < s.len(),
        forall|i: int| from <= i < at ==> s[i] != c,
        s[at] == c,
    ensures
        find_char(s, c, from) == at,
    decreases at - from,
{
    if from < at {
        lemma_find_char_is(s, c, from + 1, at);
    }
}

/// An account identifier read back from its canonical rendering.
pub open spec fn parse_id_spec(t: Seq<char>) -> Option<int> {
    if t.len() > 0 && t[0] == '-' {
        let d = t.subrange(1, t.len() as int);
        if valid_udec(d) && 1 <= digits_val(d) <= 0x8000_0000 {
            Some(-(digits_val(d) as int))
        } else {
            None
        }
    } else {
        if valid_udec(t) && digits_val(t) <= 0x7fff_ffff {
            Some(digits_val(t) as int)
        } else {
            None
        }
    }
}

/// A timestamp read back from its canonical rendering.
pub open spec fn parse_stamp_spec(t: Seq<char>) -> Option<int> {
    if valid_udec(t) && digits_val(t) <= 0x7fff_ffff_ffff_ffff {
        Some(digits_val(t) as int)
    } else {
        None
    }
}

/// What claims parsing returns on a string: the account identifier and
/// window of the unique claims text equal to it, or nothing.
pub open spec fn parse_claims_spec(s: Seq<char>) -> Option<(int, int, int)> {
    let l1 = "{\"account_id\":"@;
    let sep1 = ",\"exp\":"@;
    let sep2 = ",\"nbf\":"@;
    if s.len() < l1.len() || s.subrange(0, l1.len() as int) != l1 {
        None
    } else {
        let e1 = find_char(s, ',', l1.len() as int);
        if e1 + sep1.len() > s.len() || s.subrange(e1, e1 + sep1.len()) != sep1 {
            None
        } else {
            let p2 = e1 + sep1.len();
            let e2 = find_char(s, ',', p2);
            if e2 + sep2.len() > s.len() || s.subrange(e2, e2 + sep2.len()) != sep2 {
                None
            } else {
                let p3 = e2 + sep2.len();
                if p3 > s.len() - 1 || s[s.len() - 1] != '}' {
                    None
                } else {
                    let id = parse_id_spec(s.subrange(l1.len() as int, e1));
                    let exp = parse_stamp_spec(s.subrange(p2, e2));
                    let nbf = parse_stamp_spec(s.subrange(p3, s.len() - 1));
                    match (id, exp, nbf) {
                        (Some(i), Some(e), Some(n)) => Some((i, e, n)),
                        _ => None,
                    }
                }
            }
        }
    }
}

/// Character-for-character string comparison.
pub fn str_eq(a: &str, b: &str) -> (r: bool)
    ensures
        r == (a@ == b@),
{
    let n = a.unicode_len();
    let m = b.unicode_len();
    if n != m {
        return false;
    }
    let mut i: usize = 0;
    while i < n
        invariant
            n == a@.len(),
            n == b@.len(),
            i <= n,
            forall|j: int| 0 <= j < i ==> a@[j] == b@[j],
        decreases n - i,
    {
        if a.get_char(i) != b.get_char(i) {
            return false;
        }
        i = i + 1;
    }
    proof {
        assert(a@ =~= b@);
    }
    true
}

/// Finds the first `c` at or after `from`.
#[verifier::loop_isolation(false)]
pub fn find_char_at(s: &str, from: usize, c: char) -> (r: usize)
    requires
        from <= s@.len(),
    ensures
        r == find_char(s@, c, from as int),
        from <= r <= s@.len(),
{
    let n = s.unicode_len();
    let mut i: usize = from;
    while i < n
        invariant
            from <= i <= n,
            find_char(s@, c, from as int) == find_char(s@, c, i as int),
        decreases n - i,
    {
        if s.get_char(i) == c {
            return i;
        }
        i = i + 1;
    }
    i
}

/// Whether `lit` lies at position `pos` of `s`.
#[verifier::loop_isolation(false)]
fn match_lit(s: &str, pos: usize, lit: &str) -> (b: bool)
    requires
        pos <= s@.len(),
    ensures
        b == (pos + lit@.len() <= s@.len() && s@.subrange(pos as int, pos + lit@.len()) == lit@),
{
    let n = s.unicode_len();
    let m = lit.unicode_len();
    if m > n - pos {
        return false;
    }
    let mut i: usize = 0;
    while i < m
        invariant
            i <= m,
            forall|j: int| 0 <= j < i ==> s@[pos + j] == lit@[j],
        decreases m - i,
    {
        if s.get_char(pos + i) != lit.get_char(i) {
            assert(s@.subrange(pos as int, pos + lit@.len())[i as int] != lit@[i as int]);
            return false;
        }
        i = i + 1;
    }
    assert(s@.subrange(pos as int, pos + lit@.len()) =~= lit@);
    true
}

/// Parses a claims text; accepts exactly the canonical renderings.
#[verifier::loop_isolation(false)]
pub fn parse_claims(s: &str) -> (r: Option<(i32, i64, i64)>)
    ensures
        match r {
            Some((id, exp, nbf)) => parse_claims_spec(s@) == Some(
                (id as int, exp as int, nbf as int),
            ),
            None => parse_claims_spec(s@) is None,
        },
{
    proof {
        reveal_strlit("{\"account_id\":");
        reveal_strlit(",\"exp\":");
        reveal_strlit(",\"nbf\":");
    }
    let n = s.unicode_len();
    let l1 = "{\"account_id\":";
    let sep1 = ",\"exp\":";
    let sep2 = ",\"nbf\":";
    let l1n = l1.unicode_len();
    let sep1n = sep1.unicode_len();
    let sep2n = sep2.unicode_len();
    if !match_lit(s, 0, l1) {
        return None;
    }
    let e1 = find_char_at(s, l1n, ',');
    if !match_lit(s, e1, sep1) {
        return None;
    }
    let p2 = e1 + sep1n;
    let e2 = find_char_at(s, p2, ',');
    if !match_lit(s, e2, sep2) {
        return None;
    }
    let p3 = e2 + sep2n;
    if p3 > n - 1 {
        return None;
    }
    if s.get_char(n - 1) != '}' {
        return None;
    }
    let id = parse_id_field(s, l1n, e1);
    let exp = parse_canonical_u64(s, p2, e2, 0x7fff_ffff_ffff_ffff);
    let nbf = parse_canonical_u64(s, p3, n - 1, 0x7fff_ffff_ffff_ffff);
    match (id, exp, nbf) {
        (Some(i), Some(e), Some(nb)) => Some((i, e as i64, nb as i64)),
        _ => None,
    }
}

/// Parsing accepts every canonical claims text and returns exactly the
/// claims that were rendered into it.
pub proof fn lemma_claims_complete(id: int, exp: int, nbf: int)
    requires
        -0x8000_0000 <= id <= 0x7fff_ffff,
        0 <= exp <= 0x7fff_ffff_ffff_ffff,
        0 <= nbf <= 0x7fff_ffff_ffff_ffff,
    ensures
        parse_claims_spec(claims_seq(id, exp, nbf)) == Some((id, exp, nbf)),
{
    reveal_strlit("{\"account_id\":");
    reveal_strlit(",\"exp\":");
    reveal_strlit(",\"nbf\":");
    reveal_strlit("}");
    let l1 = "{\"account_id\":"@;
    let sep1 = ",\"exp\":"@;
    let sep2 = ",\"nbf\":"@;
    let rb = "}"@;
    let b = idec(id);
    let d = udec(exp as nat);
    let f = udec(nbf as nat);
    let s = claims_seq(id, exp, nbf);
    if id < 0 {
        lemma_udec_valid((-id) as nat);
    } else {
        lemma_udec_valid(id as nat);
    }
    lemma_udec_valid(exp as nat);
    lemma_udec_valid(nbf as nat);
    let e1 = 14 + b.len() as int;
    let p2 = e1 + 7;
    let e2 = p2 + d.len() as int;
    let p3 = e2 + 7;
    let end = p3 + f.len() as int;
    assert(s.len() == end + 1);
    assert(s.subrange(0, 14) =~= l1);
    assert(s.subrange(14, e1) =~= b);
    assert(s.subrange(e1, p2) =~= sep1);
    assert(s.subrange(p2, e2) =~= d);
    assert(s.subrange(e2, p3) =~= sep2);
    assert(s.subrange(p3, end) =~= f);
    assert(s[end] == '}');
    assert forall|i: int| 14 <= i < e1 implies s[i] != ',' by {
        assert(s[i] == b[i - 14]);
        if id < 0 {
            if i > 14 {
                assert(b[i - 14] == udec((-id) as nat)[i - 15]);
                assert(is_digit(b[i - 14]));
            }
        } else {
            assert(is_digit(b[i - 14]));
        }
    }
    assert(s[e1] == sep1[0]);
    lemma_find_char_is(s, ',', 14, e1);
    assert forall|i: int| p2 <= i < e2 implies s[i] != ',' by {
        assert(s[i] == d[i - p2]);
        assert(is_digit(d[i - p2]));
    }
    assert(s[e2] == sep2[0]);
    lemma_find_char_is(s, ',', p2, e2);
    assert(parse_id_spec(s.subrange(14, e1)) == Some(id)) by {
        if id < 0 {
            assert(b[0] == '-');
            assert(b.subrange(1, b.len() as int) =~= udec((-id) as nat));
        } else {
            assert(is_digit(b[0]));
            assert(b[0] != '-');
        }
    }
    assert(parse_stamp_spec(s.subrange(p2, e2)) == Some(exp));
    assert(parse_stamp_spec(s.subrange(p3, s.len() - 1)) == Some(nbf)) by {
        assert(s.subrange(p3, s.len() - 1) =~= f);
    }
}

/// Every string the parser accepts is the canonical rendering of the
/// claims it returns, whose fields lie in range.
pub proof fn lemma_claims_sound(s: Seq<char>, id: int, exp: int, nbf: int)
    requires
        parse_claims_spec(s) == Some((id, exp, nbf)),
    ensures
        s == claims_seq(id, exp, nbf),
        -0x8000_0000 <= id <= 0x7fff_ffff,
        0 <= exp <= 0x7fff_ffff_ffff_ffff,
        0 <= nbf <= 0x7fff_ffff_ffff_ffff,
{
    reveal_strlit("{\"account_id\":");
    reveal_strlit(",\"exp\":");
    reveal_strlit(",\"nbf\":");
    reveal_strlit("}");
    let l1 = "{\"account_id\":"@;
    let sep1 = ",\"exp\":"@;
    let sep2 = ",\"nbf\":"@;
    let rb = "}"@;
    lemma_find_char(s, ',', 14);
    let e1 = find_char(s, ',', 14);
    let p2 = e1 + 7;
    lemma_find_char(s, ',', p2);
    let e2 = find_char(s, ',', p2);
    let p3 = e2 + 7;
    let id_str = s.subrange(14, e1);
    let exp_str = s.subrange(p2, e2);
    let nbf_str = s.subrange(p3, s.len() - 1);
    assert(id_str =~= idec(id)) by {
        if id_str.len() > 0 && id_str[0] == '-' {
            let dd = id_str.subrange(1, id_str.len() as int);
            lemma_udec_canonical(dd);
            assert(id == -(digits_val(dd) as int));
            assert(idec(id) =~= seq!['-'] + udec(digits_val(dd)));
            assert(id_str =~= seq!['-'] + dd);
        } else {
            lemma_udec_canonical(id_str);
            assert(id == digits_val(id_str));
        }
    }
    assert(exp_str =~= udec(exp as nat)) by {
        lemma_udec_canonical(exp_str);
    }
    assert(nbf_str =~= udec(nbf as nat)) by {
        lemma_udec_canonical(nbf_str);
    }
    assert(s =~= l1 + id_str + sep1 + exp_str + sep2 + nbf_str + rb);
}

/// When the parser refuses a string, that string is no rendering of
/// any in-range claims at all.
pub proof fn lemma_claims_exhaustive(s: Seq<char>)
    requires
        parse_claims_spec(s) is None,
    ensures
        forall|id: int, exp: int, nbf: int|
            -0x8000_0000 <= id <= 0x7fff_ffff && 0 <= exp <= 0x7fff_ffff_ffff_ffff && 0 <= nbf
                <= 0x7fff_ffff_ffff_ffff ==> s != claims_seq(id, exp, nbf),
{
    assert forall|id: int, exp: int, nbf: int|
        -0x8000_0000 <= id <= 0x7fff_ffff && 0 <= exp <= 0x7fff_ffff_ffff_ffff && 0 <= nbf
            <= 0x7fff_ffff_ffff_ffff implies s != claims_seq(id, exp, nbf) by {
        if s == claims_seq(id, exp, nbf) {
            lemma_claims_complete(id, exp, nbf);
        }
    }
}

/// Parses the account-identifier field lying at `[from, to)` of `s`.
fn parse_id_field(s: &str, from: usize, to: usize) -> (r: Option<i32>)
    requires
        from <= to <= s@.len(),
    ensures
        match r {
            Some(v) => parse_id_spec(s@.subrange(from as int, to as int)) == Some(v as int),
            None => parse_id_spec(s@.subrange(from as int, to as int)) is None,
        },
{
    let ghost t = s@.subrange(from as int, to as int);
    if from < to && s.get_char(from) == '-' {
        assert(t[0] == '-');
        assert(t.subrange(1, t.len() as int) =~= s@.subrange(from + 1, to as int));
        match parse_canonical_u64(s, from + 1, to, 0x8000_0000) {
            Some(v) => {
                if v >= 1 {
                    Some((-(v as i64)) as i32)
                } else {
                    None
                }
            },
            None => None,
        }
    } else {
        assert(t.len() > 0 ==> t[0] == s@[from as int]);
        match parse_canonical_u64(s, from, to, 0x7fff_ffff) {
            Some(v) => Some(v as i32),
            None => None,
        }
    }
}

} // verus!
