use vstd::prelude::*;

verus! {

// Low-level character and string utilities shared by the formatting and
// parsing code. Everything here is verified except the one wrapper around
// `String::push`, which vstd does not specify.

/// The decimal digit character for a value below ten.
pub open spec fn digit_char(d: nat) -> char {
    if d == 0 {
        '0'
    } else if d == 1 {
        '1'
    } else if d == 2 {
        '2'
    } else if d == 3 {
        '3'
    } else if d == 4 {
        '4'
    } else if d == 5 {
        '5'
    } else if d == 6 {
        '6'
    } else if d == 7 {
        '7'
    } else if d == 8 {
        '8'
    } else {
        '9'
    }
}

/// The decimal representation of a natural number, most significant digit
/// first, with no leading zeroes (a single zero for zero itself).
pub open spec fn spec_dec(n: nat) -> Seq<char>
    decreases n,
{
    if n < 10 {
        seq![digit_char(n)]
    } else {
        spec_dec(n / 10).push(digit_char(n % 10))
    }
}

/// The decimal representation, left-padded with '0' to at least two digits.
pub open spec fn spec_dec2(n: nat) -> Seq<char> {
    if n < 10 {
        seq!['0'] + spec_dec(n)
    } else {
        spec_dec(n)
    }
}

fn digit_of(d: u64) -> (r: char)
    requires
        d < 10,
    ensures
        r == digit_char(d as nat),
{
    if d == 0 {
        '0'
    } else if d == 1 {
        '1'
    } else if d == 2 {
        '2'
    } else if d == 3 {
        '3'
    } else if d == 4 {
        '4'
    } else if d == 5 {
        '5'
    } else if d == 6 {
        '6'
    } else if d == 7 {
        '7'
    } else if d == 8 {
        '8'
    } else {
        '9'
    }
}

/// Appends the decimal representation of `n` to `out`.
pub fn push_dec(n: u64, out: &mut Vec<char>)
    ensures
        final(out)@ == old(out)@ + spec_dec(n as nat),
    decreases n,
{
    if n < 10 {
        out.push(digit_of(n));
    } else {
        push_dec(n / 10, out);
        out.push(digit_of(n % 10));
    }
    proof {
        assert(final(out)@ =~= old(out)@ + spec_dec(n as nat));
    }
}

/// Appends the two-digit-padded decimal representation of `n` to `out`.
pub fn push_dec2(n: u64, out: &mut Vec<char>)
    ensures
        final(out)@ == old(out)@ + spec_dec2(n as nat),
{
    if n < 10 {
        out.push('0');
    }
    push_dec(n, out);
    proof {
        assert(final(out)@ =~= old(out)@ + spec_dec2(n as nat));
    }
}

/// True when `c` is a decimal digit.
pub open spec fn is_dec_digit(c: char) -> bool {
    '0' <= c && c <= '9'
}

/// The numeric value of a digit character.
pub open spec fn digit_val(c: char) -> nat {
    (c as int - '0' as int) as nat
}

/// True when every character of `s` is a decimal digit.
pub open spec fn all_digits(s: Seq<char>) -> bool {
    forall|i: int| 0 <= i < s.len() ==> is_dec_digit(#[trigger] s[i])
}

/// The value of a digit string read in base ten.
pub open spec fn spec_dec_value(s: Seq<char>) -> nat
    decreases s.len(),
{
    if s.len() == 0 {
        0
    } else {
        spec_dec_value(s.drop_last()) * 10 + digit_val(s.last())
    }
}

proof fn lemma_dec_value_step_le(s: Seq<char>, i: int)
    requires
        0 <= i < s.len(),
    ensures
        spec_dec_value(s.subrange(0, i)) <= spec_dec_value(s.subrange(0, i + 1)),
{
    let a = s.subrange(0, i);
    let b = s.subrange(0, i + 1);
    assert(b.drop_last() =~= a);
    assert(spec_dec_value(b) == spec_dec_value(a) * 10 + digit_val(b.last()));
}

proof fn lemma_dec_value_mono(s: Seq<char>, i: int, j: int)
    requires
        0 <= i <= j <= s.len(),
    ensures
        spec_dec_value(s.subrange(0, i)) <= spec_dec_value(s.subrange(0, j)),
    decreases j - i,
{
    if i < j {
        lemma_dec_value_mono(s, i, j - 1);
        lemma_dec_value_step_le(s, j - 1);
    }
}

/// Reads `s[from..to]` as an unsigned decimal number. Fails on an empty
/// range, on any non-digit character, and on a value above `u64::MAX`.
pub fn parse_u64_digits(s: &Vec<char>, from: usize, to: usize) -> (r: Option<u64>)
    requires
        from <= to <= s@.len(),
    ensures
        r is Some <==> (from < to && all_digits(s@.subrange(from as int, to as int))
            && spec_dec_value(s@.subrange(from as int, to as int)) <= u64::MAX),
        r matches Some(v) ==> v == spec_dec_value(s@.subrange(from as int, to as int)),
{
    if from == to {
        return None;
    }
    let ghost whole = s@.subrange(from as int, to as int);
    let mut acc: u64 = 0;
    let mut i: usize = from;
    while i < to
        invariant
            from <= i <= to <= s@.len(),
            whole == s@.subrange(from as int, to as int),
            all_digits(whole.subrange(0, i - from)),
            acc == spec_dec_value(whole.subrange(0, i - from)),
        decreases to - i,
    {
        let c = s[i];
        proof {
            assert(whole[i - from] == s@[i as int]);
        }
        if c < '0' || c > '9' {
            proof {
                assert(!all_digits(whole)) by {
                    assert(!is_dec_digit(whole[i - from]));
                }
            }
            return None;
        }
        let d: u64 = (c as u32 as u64) - ('0' as u32 as u64);
        proof {
            assert(d == digit_val(whole[i - from]));
        }
        if acc > (u64::MAX - d) / 10 {
            proof {
                assert(whole.subrange(0, i - from + 1).drop_last() =~= whole.subrange(
                    0,
                    i - from,
                ));
                assert(spec_dec_value(whole.subrange(0, i - from + 1)) == acc * 10 + d);
                assert(acc * 10 + d > u64::MAX) by (nonlinear_arith)
                    requires
                        acc > (u64::MAX - d) / 10,
                        d < 10,
                ;
                lemma_dec_value_mono(whole, i - from + 1, whole.len() as int);
                assert(whole.subrange(0, whole.len() as int) =~= whole);
            }
            return None;
        }
        proof {
            assert(acc * 10 + d <= u64::MAX) by (nonlinear_arith)
                requires
                    acc <= (u64::MAX - d) / 10,
                    d < 10,
            ;
            assert(whole.subrange(0, i - from + 1).drop_last() =~= whole.subrange(0, i - from));
        }
        acc = acc * 10 + d;
        i = i + 1;
    }
    proof {
        assert(whole.subrange(0, (to - from) as int) =~= whole);
    }
    Some(acc)
}

/// Copies the characters of `s` into a vector.
pub fn chars_of(s: &str) -> (r: Vec<char>)
    ensures
        r@ == s@,
{
    let n = s.unicode_len();
    let mut r: Vec<char> = Vec::new();
    let mut i: usize = 0;
    while i < n
        invariant
            i <= n,
            n == s@.len(),
            r@ == s@.subrange(0, i as int),
        decreases n - i,
    {
        r.push(s.get_char(i));
        i = i + 1;
        proof {
            assert(r@ =~= s@.subrange(0, i as int));
        }
    }
    proof {
        assert(r@ =~= s@);
    }
    r
}

/// Relies on String::push: appends one character to the string.
#[verifier::external_body]
pub fn push_char(s: &mut String, c: char)
    ensures
        final(s)@ == old(s)@.push(c),
{
    s.push(c);
}

/// Builds a string from a vector of characters.
pub fn string_of(cs: &Vec<char>) -> (r: String)
    ensures
        r@ == cs@,
{
    let mut r = String::new();
    let mut i: usize = 0;
    while i < cs.len()
        invariant
            i <= cs@.len(),
            r@ == cs@.subrange(0, i as int),
        decreases cs@.len() - i,
    {
        push_char(&mut r, cs[i]);
        i = i + 1;
        proof {
            assert(r@ =~= cs@.subrange(0, i as int));
        }
    }
    proof {
        assert(r@ =~= cs@);
    }
    r
}

/// Compares two string slices character by character.
pub fn str_eq(a: &str, b: &str) -> (r: bool)
    ensures
        r == (a@ == b@),
{
    let alen = a.unicode_len();
    let blen = b.unicode_len();
    if alen != blen {
        return false;
    }
    let mut i: usize = 0;
    while i < alen
        invariant
            i <= alen,
            alen == a@.len(),
            alen == b@.len(),
            forall|j: int| 0 <= j < i ==> a@[j] == b@[j],
        decreases alen - i,
    {
        if a.get_char(i) != b.get_char(i) {
            return false;
        }
        i = i + 1;
    }
    proof {
        assert(a@ =~= b@);
    }
    true
}

/// Compares two character vectors.
pub fn chars_eq(a: &Vec<char>, b: &Vec<char>) -> (r: bool)
    ensures
        r == (a@ == b@),
{
    if a.len() != b.len() {
        return false;
    }
    let mut i: usize = 0;
    while i < a.len()
        invariant
            i <= a@.len(),
            a@.len() == b@.len(),
            forall|j: int| 0 <= j < i ==> a@[j] == b@[j],
        decreases a@.len() - i,
    {
        if a[i] != b[i] {
            return false;
        }
        i = i + 1;
    }
    proof {
        assert(a@ =~= b@);
    }
    true
}

/// The characters `h[from..to]` as a fresh vector.
pub fn sub_chars(h: &Vec<char>, from: usize, to: usize) -> (r: Vec<char>)
    requires
        from <= to <= h@.len(),
    ensures
        r@ == h@.subrange(from as int, to as int),
{
    let mut r: Vec<char> = Vec::new();
    let mut i: usize = from;
    while i < to
        invariant
            from <= i <= to <= h@.len(),
            r@ == h@.subrange(from as int, i as int),
        decreases to - i,
    {
        r.push(h[i]);
        i = i + 1;
        proof {
            assert(r@ =~= h@.subrange(from as int, i as int));
        }
    }
    r
}

/// True when `p` occurs in `h` starting at position `i`.
pub open spec fn match_at(h: Seq<char>, p: Seq<char>, i: int) -> bool {
    0 <= i && i + p.len() <= h.len() && h.subrange(i, i + p.len() as int) == p
}

/// The first position at or after `from` where `p` occurs in `h`.
pub open spec fn spec_find(h: Seq<char>, p: Seq<char>, from: int) -> Option<int>
    decreases h.len() - from,
{
    if from < 0 || from + p.len() > h.len() {
        None
    } else if match_at(h, p, from) {
        Some(from)
    } else if p.len() == 0 {
        None
    } else {
        spec_find(h, p, from + 1)
    }
}

/// A found position lies within the haystack, at or after the start.
pub proof fn lemma_spec_find_bounds(h: Seq<char>, p: Seq<char>, from: int)
    requires
        spec_find(h, p, from) is Some,
    ensures
        spec_find(h, p, from) matches Some(i) && from <= i && i + p.len() <= h.len()
            && h.subrange(i, i + p.len() as int) == p,
    decreases h.len() - from,
{
    if !(from < 0 || from + p.len() > h.len()) && !match_at(h, p, from) && p.len() != 0 {
        lemma_spec_find_bounds(h, p, from + 1);
    }
}

fn match_at_exec(h: &Vec<char>, p: &Vec<char>, i: usize) -> (r: bool)
    requires
        i + p@.len() <= h@.len(),
    ensures
        r == match_at(h@, p@, i as int),
{
    let hl: usize = h.len();
    let mut j: usize = 0;
    while j < p.len()
        invariant
            j <= p@.len(),
            i + p@.len() <= h@.len(),
            hl == h@.len(),
            forall|k: int| 0 <= k < j ==> h@[i + k] == p@[k],
        decreases p@.len() - j,
    {
        if h[i + j] != p[j] {
            proof {
                assert(h@.subrange(i as int, i + p@.len() as int)[j as int] != p@[j as int]);
            }
            return false;
        }
        j = j + 1;
    }
    proof {
        assert(h@.subrange(i as int, i + p@.len() as int) =~= p@);
    }
    true
}

/// Finds the first occurrence of `p` in `h` at or after `from`.
pub fn find_sub(h: &Vec<char>, p: &Vec<char>, from: usize) -> (r: Option<usize>)
    ensures
        r matches Some(i) ==> spec_find(h@, p@, from as int) == Some(i as int),
        r is None ==> spec_find(h@, p@, from as int) is None,
{
    let mut i: usize = from;
    if p.len() > h.len() {
        return None;
    }
    let limit: usize = h.len() - p.len();
    if i > limit {
        return None;
    }
    loop
        invariant
            from <= i <= limit,
            limit == h@.len() - p@.len(),
            spec_find(h@, p@, from as int) == spec_find(h@, p@, i as int),
        decreases limit - i,
    {
        if match_at_exec(h, p, i) {
            return Some(i);
        }
        proof {
            if p@.len() == 0 {
                assert(h@.subrange(i as int, i as int) =~= p@);
            }
            assert(spec_find(h@, p@, i as int) == spec_find(h@, p@, i + 1));
        }
        if i == limit {
            return None;
        }
        i = i + 1;
    }
}

/// The sections of `s` between occurrences of `sep`: always at least one
/// section, and empty sections where separators touch.
pub open spec fn spec_split_char(s: Seq<char>, sep: char) -> Seq<Seq<char>>
    decreases s.len(),
{
    if s.len() == 0 {
        seq![Seq::<char>::empty()]
    } else if s[0] == sep {
        seq![Seq::<char>::empty()] + spec_split_char(s.subrange(1, s.len() as int), sep)
    } else {
        let rest = spec_split_char(s.subrange(1, s.len() as int), sep);
        seq![seq![s[0]] + rest[0]] + rest.subrange(1, rest.len() as int)
    }
}

proof fn lemma_split_char_nosep(s: Seq<char>, sep: char)
    requires
        forall|k: int| 0 <= k < s.len() ==> s[k] != sep,
    ensures
        spec_split_char(s, sep) == seq![s],
    decreases s.len(),
{
    if s.len() == 0 {
        assert(spec_split_char(s, sep) =~~= seq![s]);
    } else {
        let tail = s.subrange(1, s.len() as int);
        lemma_split_char_nosep(tail, sep);
        let rest = spec_split_char(tail, sep);
        assert(rest == seq![tail]);
        assert(seq![s[0]] + rest[0] =~= s);
        assert(rest.subrange(1, rest.len() as int) =~~= Seq::<Seq<char>>::empty());
        assert(spec_split_char(s, sep) =~~= seq![s]);
    }
}

proof fn lemma_split_char_head(s: Seq<char>, sep: char, j: int)
    requires
        0 <= j < s.len(),
        s[j] == sep,
        forall|k: int| 0 <= k < j ==> s[k] != sep,
    ensures
        spec_split_char(s, sep) == seq![s.subrange(0, j)] + spec_split_char(
            s.subrange(j + 1, s.len() as int),
            sep,
        ),
    decreases j,
{
    let tail = s.subrange(1, s.len() as int);
    if j == 0 {
        assert(s.subrange(0, 0) =~= Seq::<char>::empty());
        assert(spec_split_char(s, sep) =~~= seq![s.subrange(0, j)] + spec_split_char(
            s.subrange(j + 1, s.len() as int),
            sep,
        ));
    } else {
        assert(forall|k: int| 0 <= k < j - 1 ==> tail[k] != sep);
        assert(tail[j - 1] == sep);
        lemma_split_char_head(tail, sep, j - 1);
        let rest = spec_split_char(tail, sep);
        let after = spec_split_char(tail.subrange(j, tail.len() as int), sep);
        assert(rest == seq![tail.subrange(0, j - 1)] + after);
        assert(rest[0] == tail.subrange(0, j - 1));
        assert(seq![s[0]] + rest[0] =~= s.subrange(0, j));
        assert(rest.subrange(1, rest.len() as int) =~~= after);
        assert(tail.subrange(j, tail.len() as int) =~= s.subrange(j + 1, s.len() as int));
        assert(spec_split_char(s, sep) =~~= seq![s.subrange(0, j)] + spec_split_char(
            s.subrange(j + 1, s.len() as int),
            sep,
        ));
    }
}

/// Splits `s` on the separator character.
pub fn split_char(s: &Vec<char>, sep: char) -> (r: Vec<Vec<char>>)
    ensures
        r.deep_view() == spec_split_char(s@, sep),
{
    let mut r: Vec<Vec<char>> = Vec::new();
    let mut cur: Vec<char> = Vec::new();
    let ghost mut start: int = 0;
    let mut i: usize = 0;
    proof {
        assert(s@.subrange(0, s@.len() as int) =~= s@);
        assert(r.deep_view() + spec_split_char(s@, sep) =~~= spec_split_char(s@, sep));
    }
    while i < s.len()
        invariant
            0 <= start <= i <= s@.len(),
            cur@ == s@.subrange(start, i as int),
            forall|k: int| start <= k < i ==> s@[k] != sep,
            spec_split_char(s@, sep) == r.deep_view() + spec_split_char(
                s@.subrange(start, s@.len() as int),
                sep,
            ),
        decreases s@.len() - i,
    {
        let c = s[i];
        if c == sep {
            proof {
                let suffix = s@.subrange(start, s@.len() as int);
                lemma_split_char_head(suffix, sep, i - start);
                assert(suffix.subrange(0, i - start) =~= s@.subrange(start, i as int));
                assert(suffix.subrange(i - start + 1, suffix.len() as int) =~= s@.subrange(
                    i + 1,
                    s@.len() as int,
                ));
            }
            r.push(cur);
            cur = Vec::new();
            proof {
                start = i + 1;
                assert(spec_split_char(s@, sep) =~~= r.deep_view() + spec_split_char(
                    s@.subrange(start, s@.len() as int),
                    sep,
                ));
            }
        } else {
            cur.push(c);
            proof {
                assert(cur@ =~= s@.subrange(start, i + 1));
            }
        }
        i = i + 1;
    }
    proof {
        let suffix = s@.subrange(start, s@.len() as int);
        lemma_split_char_nosep(suffix, sep);
    }
    r.push(cur);
    proof {
        assert(r.deep_view() =~~= spec_split_char(s@, sep));
    }
    r
}

/// The concatenation of `parts` separated by `sep`.
pub open spec fn spec_join(parts: Seq<Seq<char>>, sep: Seq<char>) -> Seq<char>
    decreases parts.len(),
{
    if parts.len() == 0 {
        Seq::empty()
    } else if parts.len() == 1 {
        parts[0]
    } else {
        spec_join(parts.drop_last(), sep) + sep + parts.last()
    }
}

/// Joins the strings of `parts`, inserting `sep` between neighbours.
pub fn join_with(parts: &Vec<String>, sep: &str) -> (r: String)
    ensures
        r@ == spec_join(parts.deep_view(), sep@),
{
    let mut r = String::new();
    let mut i: usize = 0;
    while i < parts.len()
        invariant
            i <= parts@.len(),
            r@ == spec_join(parts.deep_view().subrange(0, i as int), sep@),
        decreases parts@.len() - i,
    {
        if i > 0 {
            r.append(sep);
        }
        r.append(parts[i].as_str());
        i = i + 1;
        proof {
            let pv = parts.deep_view();
            assert(pv.subrange(0, i as int).drop_last() =~= pv.subrange(0, i - 1));
            assert(pv.subrange(0, i as int).last() == pv[i - 1]);
        }
    }
    proof {
        assert(parts.deep_view().subrange(0, parts.deep_view().len() as int) =~= parts.deep_view());
    }
    r
}

} // verus!
