//! Text building blocks: decimal rendering of integers, string comparison, splitting and trimming.

use vstd::prelude::*;
use vstd::string::StringExecFns;
use vstd::string::StrSliceExecFns;

verus! {

/// The character of a decimal digit `d` (`0 <= d < 10`).
pub open spec fn digit_char(d: nat) -> char {
    ((('0' as u8) as nat + d) as u8) as char
}

/// The decimal rendering of a natural number, without leading zeros.
pub open spec fn decimal(n: nat) -> Seq<char>
    decreases n,
{
    if n < 10 {
        seq![digit_char(n)]
    } else {
        decimal(n / 10).push(digit_char(n % 10))
    }
}

/// The decimal rendering of an integer, with a leading `-` for negative values.
pub open spec fn signed_decimal(i: int) -> Seq<char> {
    if i < 0 {
        seq!['-'] + decimal((-i) as nat)
    } else {
        decimal(i as nat)
    }
}

/// Appends one character to a string (`String::push`).
#[verifier::external_body]
pub(crate) fn push_char(s: &mut String, c: char)
    ensures
        final(s)@ == old(s)@.push(c),
{
    s.push(c);
}

/// Compares the contents of two string slices.
pub fn str_eq(a: &str, b: &str) -> (r: bool)
    ensures
        r == (a@ == b@),
{
    a.to_owned() == b.to_owned()
}

/// Appends the decimal rendering of `n` to `s`.
pub fn write_decimal(s: &mut String, n: u64)
    ensures
        final(s)@ == old(s)@ + decimal(n as nat),
{
    write_wide_decimal(s, n as u128);
}

/// Appends the decimal rendering of a 128-bit `n` to `s`.
pub fn write_wide_decimal(s: &mut String, n: u128)
    ensures
        final(s)@ == old(s)@ + decimal(n as nat),
    decreases n,
{
    if n >= 10 {
        write_wide_decimal(s, n / 10);
    }
    let d = (n % 10) as u8;
    let c = (48u8 + d) as char;
    push_char(s, c);
    proof {
        assert(c == digit_char((n % 10) as nat));
        if n >= 10 {
            assert(decimal(n as nat) == decimal((n / 10) as nat).push(digit_char((n % 10) as nat)));
        }
    }
}

/// Appends the decimal rendering of a signed integer to `s`.
pub fn write_signed_decimal(s: &mut String, n: i64)
    ensures
        final(s)@ == old(s)@ + signed_decimal(n as int),
{
    if n < 0 {
        push_char(s, '-');
        let magnitude = (0i128 - n as i128) as u64;
        write_decimal(s, magnitude);
        proof {
            assert(final(s)@ =~= old(s)@ + (seq!['-'] + decimal((-n) as nat)));
        }
    } else {
        write_decimal(s, n as u64);
    }
}

/// The decimal rendering of an unsigned integer.
pub fn u64_to_decimal(n: u64) -> (s: String)
    ensures
        s@ == decimal(n as nat),
{
    let mut s = String::new();
    write_decimal(&mut s, n);
    proof {
        assert(s@ =~= decimal(n as nat));
    }
    s
}

/// The decimal rendering of a signed integer.
pub fn i64_to_decimal(n: i64) -> (s: String)
    ensures
        s@ == signed_decimal(n as int),
{
    let mut s = String::new();
    write_signed_decimal(&mut s, n);
    proof {
        assert(s@ =~= signed_decimal(n as int));
    }
    s
}

/// `prefix` followed by `rest`.
pub fn concat_str(prefix: &str, rest: &str) -> (s: String)
    ensures
        s@ == prefix@ + rest@,
{
    let mut s = prefix.to_owned();
    s.append(rest);
    s
}

/// The pieces of `s` between occurrences of `c`, in order (`str::split` with a character).
pub open spec fn split_on(s: Seq<char>, c: char) -> Seq<Seq<char>>
    decreases s.len(),
{
    if s.len() == 0 {
        seq![Seq::empty()]
    } else {
        let prev = split_on(s.drop_last(), c);
        if s.last() == c {
            prev.push(Seq::empty())
        } else {
            prev.update(prev.len() - 1, prev.last().push(s.last()))
        }
    }
}

/// Splitting always gives at least one piece.
pub proof fn lemma_split_on_nonempty(s: Seq<char>, c: char)
    ensures
        split_on(s, c).len() >= 1,
    decreases s.len(),
{
    if s.len() > 0 {
        lemma_split_on_nonempty(s.drop_last(), c);
    }
}

/// The pieces of `s` separated by `c`.
pub fn split_char(s: &str, c: char) -> (r: Vec<String>)
    ensures
        r@.len() == split_on(s@, c).len(),
        forall|j: int| 0 <= j < r@.len() ==> #[trigger] r@[j]@ == split_on(s@, c)[j],
{
    let n = s.unicode_len();
    let mut pieces: Vec<String> = Vec::new();
    pieces.push(String::new());
    let mut i: usize = 0;
    proof {
        assert(s@.take(0) =~= Seq::<char>::empty());
    }
    while i < n
        invariant
            n == s@.len(),
            i <= n,
            pieces@.len() >= 1,
            pieces@.len() == split_on(s@.take(i as int), c).len(),
            forall|j: int| 0 <= j < pieces@.len() ==> #[trigger] pieces@[j]@ == split_on(s@.take(i as int), c)[j],
        decreases n - i,
    {
        let ch = s.get_char(i);
        let ghost before = pieces@;
        proof {
            assert(s@.take(i + 1).drop_last() =~= s@.take(i as int));
            assert(s@.take(i + 1).last() == ch);
            lemma_split_on_nonempty(s@.take(i as int), c);
        }
        if ch == c {
            pieces.push(String::new());
        } else {
            let mut last = pieces.pop().unwrap();
            push_char(&mut last, ch);
            pieces.push(last);
            proof {
                assert(pieces@ =~= before.update(before.len() - 1, last));
            }
        }
        i = i + 1;
    }
    proof {
        assert(s@.take(n as int) =~= s@);
    }
    pieces
}

/// `s` with every trailing occurrence of `p` removed (`str::trim_end_matches` with a string).
pub open spec fn trim_end_all(s: Seq<char>, p: Seq<char>) -> Seq<char>
    decreases s.len(),
{
    if p.len() > 0 && p.len() <= s.len() && s.subrange(s.len() - p.len(), s.len() as int) == p {
        trim_end_all(s.take(s.len() - p.len()), p)
    } else {
        s
    }
}

/// Whether `s` holds `p` at `at`.
fn matches_at(s: &str, p: &str, at: usize) -> (r: bool)
    requires
        at + p@.len() <= s@.len(),
    ensures
        r == (s@.subrange(at as int, at + p@.len()) == p@),
{
    let n = s.unicode_len();
    let m = p.unicode_len();
    let mut k: usize = 0;
    while k < m
        invariant
            n == s@.len(),
            m == p@.len(),
            at + m <= s@.len(),
            k <= m,
            forall|j: int| 0 <= j < k ==> s@[at + j] == p@[j],
        decreases m - k,
    {
        if s.get_char(at + k) != p.get_char(k) {
            proof {
                assert(s@.subrange(at as int, at + m)[k as int] != p@[k as int]);
            }
            return false;
        }
        k = k + 1;
    }
    proof {
        assert(s@.subrange(at as int, at + m) =~= p@);
    }
    true
}

/// `s` with every trailing occurrence of `p` removed.
pub fn trim_end_str(s: &str, p: &str) -> (r: String)
    ensures
        r@ == trim_end_all(s@, p@),
{
    let n = s.unicode_len();
    let m = p.unicode_len();
    let mut e: usize = n;
    proof {
        assert(s@.take(n as int) =~= s@);
    }
    while m > 0 && m <= e && matches_at(s, p, e - m)
        invariant
            n == s@.len(),
            m == p@.len(),
            e <= n,
            trim_end_all(s@, p@) == trim_end_all(s@.take(e as int), p@),
        decreases e,
    {
        proof {
            let t = s@.take(e as int);
            assert(t.subrange(t.len() - m, t.len() as int) =~= s@.subrange(e - m, e as int));
            assert(t.take(t.len() - m) =~= s@.take(e - m));
        }
        e = e - m;
    }
    proof {
        let t = s@.take(e as int);
        if m > 0 && m <= e {
            assert(t.subrange(t.len() - m, t.len() as int) =~= s@.subrange(e - m, e as int));
        }
    }
    let kept = s.substring_char(0, e);
    proof {
        assert(kept@ =~= s@.take(e as int));
    }
    String::from_str(kept)
}

/// `parts` joined by `sep`.
pub open spec fn join_with(parts: Seq<Seq<char>>, sep: Seq<char>) -> Seq<char>
    decreases parts.len(),
{
    if parts.len() == 0 {
        Seq::empty()
    } else if parts.len() == 1 {
        parts[0]
    } else {
        join_with(parts.drop_last(), sep) + sep + parts.last()
    }
}

/// The strings of `parts` joined by `sep` (`join` on a slice of strings).
pub fn join_strings(parts: &Vec<String>, sep: &str) -> (r: String)
    ensures
        r@ == join_with(parts@.map_values(|p: String| p@), sep@),
{
    let mut r = String::new();
    let mut i: usize = 0;
    while i < parts.len()
        invariant
            i <= parts@.len(),
            r@ == join_with(parts@.take(i as int).map_values(|p: String| p@), sep@),
        decreases parts@.len() - i,
    {
        let ghost before = parts@.take(i as int).map_values(|p: String| p@);
        proof {
            assert(parts@.take(i + 1).map_values(|p: String| p@).drop_last() =~= before);
        }
        if i > 0 {
            r.append(sep);
        }
        r.append(parts[i].as_str());
        proof {
            if i == 0 {
                assert(r@ =~= join_with(parts@.take(1).map_values(|p: String| p@), sep@));
            }
        }
        i = i + 1;
    }
    proof {
        assert(parts@.take(i as int) =~= parts@);
    }
    r
}

} // verus!
