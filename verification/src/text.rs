//! Text utilities shared by the coordinate codec and the FEN decoder:
//! turning a string into its characters, splitting on whitespace,
//! membership tests and unsigned decimal parsing.

use vstd::prelude::*;

verus! {

/// Collects the characters of a string slice into a vector, so that the
/// parsing code can walk them by index.
pub fn chars_of(s: &str) -> (r: Vec<char>)
    ensures
        r@ =~= s@,
{
    let n = s.unicode_len();
    let mut r: Vec<char> = Vec::new();
    let mut i: usize = 0;
    while i < n
        invariant
            n == s@.len(),
            i <= n,
            r@ =~= s@.take(i as int),
        decreases n - i,
    {
        r.push(s.get_char(i));
        i = i + 1;
    }
    r
}

/// Relies on String::push: appends the given character to the end of the
/// string.
#[verifier::external_body]
pub fn push_char(s: &mut String, c: char)
    ensures
        final(s)@ == old(s)@.push(c),
{
    s.push(c)
}

/// The characters the field splitter treats as separators: the ASCII
/// whitespace characters.
pub open spec fn is_ws(c: char) -> bool {
    c == ' ' || c == '\t' || c == '\n' || c == '\r' || c == '\u{b}' || c == '\u{c}'
}

/// Runtime test for `is_ws`.
pub fn is_ws_exec(c: char) -> (r: bool)
    ensures
        r == is_ws(c),
{
    c == ' ' || c == '\t' || c == '\n' || c == '\r' || c == '\u{b}' || c == '\u{c}'
}

/// The length of the leading run of non-whitespace characters.
pub open spec fn run_len(s: Seq<char>) -> nat
    decreases s.len(),
{
    if s.len() == 0 || is_ws(s[0]) {
        0
    } else {
        1 + run_len(s.skip(1))
    }
}

/// The leading run is never longer than the sequence, and is non-empty
/// exactly when the sequence starts with a non-whitespace character.
pub proof fn lemma_run_len_bounds(s: Seq<char>)
    ensures
        run_len(s) <= s.len(),
        s.len() > 0 && !is_ws(s[0]) ==> run_len(s) >= 1,
    decreases s.len(),
{
    if s.len() == 0 || is_ws(s[0]) {
    } else {
        lemma_run_len_bounds(s.skip(1));
    }
}

/// The maximal non-whitespace runs of a character sequence, in order:
/// what splitting the sequence on whitespace yields.
pub open spec fn spec_fields(s: Seq<char>) -> Seq<Seq<char>>
    decreases s.len(),
    via spec_fields_decreases
{
    if s.len() == 0 {
        Seq::<Seq<char>>::empty()
    } else if is_ws(s[0]) {
        spec_fields(s.skip(1))
    } else {
        seq![s.take(run_len(s) as int)] + spec_fields(s.skip(run_len(s) as int))
    }
}

#[via_fn]
proof fn spec_fields_decreases(s: Seq<char>) {
    if s.len() > 0 && !is_ws(s[0]) {
        lemma_run_len_bounds(s);
    }
}

/// The leading run ends exactly at the first index that is whitespace or
/// the end of the sequence.
proof fn lemma_run_len(s: Seq<char>, j: int)
    requires
        0 <= j <= s.len(),
        forall|k: int| 0 <= k < j ==> !is_ws(#[trigger] s[k]),
        j == s.len() || is_ws(s[j]),
    ensures
        run_len(s) == j,
    decreases j,
{
    if j == 0 {
    } else {
        assert(!is_ws(s[0]));
        let t = s.skip(1);
        assert(forall|k: int| 0 <= k < j - 1 ==> t[k] == s[k + 1]);
        lemma_run_len(t, j - 1);
    }
}

/// Splits a character vector into its maximal whitespace-free runs.
pub fn split_ws(s: &Vec<char>) -> (r: Vec<Vec<char>>)
    ensures
        r@.len() == spec_fields(s@).len(),
        forall|i: int| 0 <= i < r@.len() ==> r@[i]@ =~= spec_fields(s@)[i],
{
    let n = s.len();
    let mut r: Vec<Vec<char>> = Vec::new();
    let mut i: usize = 0;
    proof {
        assert(s@.skip(0) =~= s@);
        assert(r@.map_values(|v: Vec<char>| v@) =~= Seq::<Seq<char>>::empty());
    }
    while i < n
        invariant
            n == s@.len(),
            i <= n,
            spec_fields(s@) =~~= r@.map_values(|v: Vec<char>| v@) + spec_fields(s@.skip(i as int)),
        decreases n - i,
    {
        if is_ws_exec(s[i]) {
            proof {
                assert(s@.skip(i as int).skip(1) =~= s@.skip(i + 1));
            }
            i = i + 1;
        } else {
            let start = i;
            let mut j = i;
            while j < n && !is_ws_exec(s[j])
                invariant
                    n == s@.len(),
                    start <= j <= n,
                    forall|k: int| start <= k < j ==> !is_ws(#[trigger] s@[k]),
                decreases n - j,
            {
                j = j + 1;
            }
            let mut field: Vec<char> = Vec::new();
            let mut k = start;
            while k < j
                invariant
                    n == s@.len(),
                    start <= k <= j <= n,
                    field@ =~= s@.subrange(start as int, k as int),
                decreases j - k,
            {
                field.push(s[k]);
                k = k + 1;
            }
            proof {
                let t = s@.skip(start as int);
                assert(forall|m: int| 0 <= m < j - start ==> t[m] == s@[start + m]);
                lemma_run_len(t, j - start);
                assert(t.take(j - start) =~= s@.subrange(start as int, j as int));
                assert(t.skip(j - start) =~= s@.skip(j as int));
                let fv = r@.map_values(|v: Vec<char>| v@);
                let r2 = r@.push(field);
                assert(r2.map_values(|v: Vec<char>| v@) =~= fv + seq![field@]);
            }
            r.push(field);
            i = j;
        }
    }
    proof {
        assert(s@.skip(n as int) =~= Seq::<char>::empty());
        assert(r@.map_values(|v: Vec<char>| v@) + spec_fields(s@.skip(n as int)) =~= r@.map_values(
            |v: Vec<char>| v@,
        ));
        assert(forall|idx: int|
            0 <= idx < r@.len() ==> r@.map_values(|v: Vec<char>| v@)[idx] == r@[idx]@);
    }
    r
}

/// A whitespace-free token followed by whitespace (or by nothing) is the
/// first field of the split, and the split of the remainder follows it.
pub proof fn lemma_fields_token(a: Seq<char>, rest: Seq<char>)
    requires
        a.len() > 0,
        forall|k: int| 0 <= k < a.len() ==> !is_ws(#[trigger] a[k]),
        rest.len() == 0 || is_ws(rest[0]),
    ensures
        spec_fields(a + rest) == seq![a] + spec_fields(rest),
{
    let s = a + rest;
    assert(s[0] == a[0]);
    assert(forall|k: int| 0 <= k < a.len() ==> s[k] == a[k]);
    if rest.len() > 0 {
        assert(s[a.len() as int] == rest[0]);
    }
    lemma_run_len(s, a.len() as int);
    assert(s.take(a.len() as int) =~= a);
    assert(s.skip(a.len() as int) =~= rest);
}

/// A leading space never contributes a field.
pub proof fn lemma_fields_space(rest: Seq<char>)
    ensures
        spec_fields(seq![' '] + rest) == spec_fields(rest),
{
    let s = seq![' '] + rest;
    assert(is_ws(s[0]));
    assert(s.skip(1) =~= rest);
}

/// Whether the character occurs in the vector: the substring-membership
/// test the castling field is read with.
pub fn contains_char(s: &Vec<char>, c: char) -> (r: bool)
    ensures
        r == s@.contains(c),
{
    let n = s.len();
    let mut i: usize = 0;
    while i < n
        invariant
            n == s@.len(),
            i <= n,
            forall|j: int| 0 <= j < i ==> s@[j] != c,
        decreases n - i,
    {
        if s[i] == c {
            assert(s@[i as int] == c);
            return true;
        }
        i = i + 1;
    }
    false
}

/// All characters are ASCII decimal digits.
pub open spec fn all_digits(s: Seq<char>) -> bool {
    forall|i: int| 0 <= i < s.len() ==> '0' <= #[trigger] s[i] <= '9'
}

/// The value of a sequence of decimal digit characters, most significant
/// first.
pub open spec fn dec_val(s: Seq<char>) -> nat
    decreases s.len(),
{
    if s.len() == 0 {
        0
    } else {
        (dec_val(s.drop_last()) * 10 + (s.last() as int - '0' as int)) as nat
    }
}

/// What parsing an unsigned decimal counter field yields: an optional
/// leading '+', then one or more decimal digits whose value fits the
/// 16-bit counter; anything else is no number.
pub open spec fn spec_parse_u16(s: Seq<char>) -> Option<u16> {
    let t = if s.len() > 0 && s[0] == '+' {
        s.skip(1)
    } else {
        s
    };
    if t.len() > 0 && all_digits(t) && dec_val(t) <= 65535 {
        Some(dec_val(t) as u16)
    } else {
        None
    }
}

/// Parses an unsigned decimal counter field.
pub fn parse_u16_digits(s: &Vec<char>) -> (r: Option<u16>)
    ensures
        r == spec_parse_u16(s@),
{
    let n = s.len();
    let start: usize = if n > 0 && s[0] == '+' {
        1
    } else {
        0
    };
    let ghost t = if s@.len() > 0 && s@[0] == '+' {
        s@.skip(1)
    } else {
        s@
    };
    proof {
        assert(t =~= s@.subrange(start as int, n as int));
    }
    if n == start {
        return None;
    }
    let mut val: u32 = 0;
    let mut over: bool = false;
    let mut i = start;
    while i < n
        invariant
            start <= i <= n == s@.len(),
            start <= 1,
            (s@.len() > 0 && s@[0] == '+') <==> start == 1,
            t =~= s@.subrange(start as int, n as int),
            all_digits(s@.subrange(start as int, i as int)),
            over <==> dec_val(s@.subrange(start as int, i as int)) > 65535,
            !over ==> val == dec_val(s@.subrange(start as int, i as int)),
        decreases n - i,
    {
        let c = s[i];
        if c < '0' || c > '9' {
            proof {
                assert(0 <= i - start < t.len());
                assert(t[i - start] == s@[i as int]);
                assert(!('0' <= t[i - start] <= '9'));
                assert(!all_digits(t));
            }
            return None;
        }
        let d = (c as u8 - 48) as u32;
        let ghost prefix = s@.subrange(start as int, i as int);
        let ghost prefix2 = s@.subrange(start as int, i + 1);
        proof {
            assert(prefix2.drop_last() =~= prefix);
            assert(prefix2.last() == s@[i as int]);
            assert(dec_val(prefix2) == dec_val(prefix) * 10 + (s@[i as int] as int - '0' as int));
        }
        if !over {
            let nv = val * 10 + d;
            if nv > 65535 {
                over = true;
                val = 0;
            } else {
                val = nv;
            }
        }
        i = i + 1;
    }
    if over {
        None
    } else {
        proof {
            assert(s@.subrange(start as int, n as int) =~= t);
        }
        Some(val as u16)
    }
}

} // verus!
