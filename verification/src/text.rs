//! Verified character and string helpers shared by the parsing and
//! normalization code: ASCII case folding, conversion between `&str` and
//! `Vec<char>`, and searching within character sequences.

use vstd::prelude::*;
use vstd::string::StrSliceExecFns;

verus! {

/// ASCII lower-casing of a single character; everything outside `A`..`Z`
/// is left unchanged. This is the library's case folding: it is restricted
/// to ASCII, where folding is provably idempotent, rather than the full
/// Unicode folding of `str::to_lowercase`, which could only be carried as
/// an opaque name that no law could be proved about.
pub open spec fn lower_char(c: char) -> char {
    match c {
        'A' => 'a',
        'B' => 'b',
        'C' => 'c',
        'D' => 'd',
        'E' => 'e',
        'F' => 'f',
        'G' => 'g',
        'H' => 'h',
        'I' => 'i',
        'J' => 'j',
        'K' => 'k',
        'L' => 'l',
        'M' => 'm',
        'N' => 'n',
        'O' => 'o',
        'P' => 'p',
        'Q' => 'q',
        'R' => 'r',
        'S' => 's',
        'T' => 't',
        'U' => 'u',
        'V' => 'v',
        'W' => 'w',
        'X' => 'x',
        'Y' => 'y',
        'Z' => 'z',
        _ => c,
    }
}

/// ASCII lower-casing applied to every character of a sequence.
pub open spec fn lower_seq(s: Seq<char>) -> Seq<char> {
    s.map_values(|c: char| lower_char(c))
}

/// Lower-casing a character twice is the same as doing it once.
pub proof fn lemma_lower_char_idempotent(c: char)
    ensures
        lower_char(lower_char(c)) == lower_char(c),
{
}

#[verifier::when_used_as_spec(lower_char)]
pub fn lower_char_exec(c: char) -> (r: char)
    ensures
        r == lower_char(c),
{
    match c {
        'A' => 'a',
        'B' => 'b',
        'C' => 'c',
        'D' => 'd',
        'E' => 'e',
        'F' => 'f',
        'G' => 'g',
        'H' => 'h',
        'I' => 'i',
        'J' => 'j',
        'K' => 'k',
        'L' => 'l',
        'M' => 'm',
        'N' => 'n',
        'O' => 'o',
        'P' => 'p',
        'Q' => 'q',
        'R' => 'r',
        'S' => 's',
        'T' => 't',
        'U' => 'u',
        'V' => 'v',
        'W' => 'w',
        'X' => 'x',
        'Y' => 'y',
        'Z' => 'z',
        _ => c,
    }
}

/// The characters of a string slice, in order, as a vector.
pub fn str_to_chars(s: &str) -> (r: Vec<char>)
    ensures
        r@ == s@,
{
    let n = s.unicode_len();
    let mut r: Vec<char> = Vec::new();
    let mut i: usize = 0;
    while i < n
        invariant
            n == s@.len(),
            i <= n,
            r@ == s@.subrange(0, i as int),
        decreases n - i,
    {
        r.push(s.get_char(i));
        i = i + 1;
        proof {
            assert(r@ =~= s@.subrange(0, i as int));
        }
    }
    proof {
        assert(r@ =~= s@);
    }
    r
}

/// Relies on `String::push` from std: it appends the given character to the
/// end of the string.
pub assume_specification[ String::push ](s: &mut String, c: char)
    ensures
        final(s)@ == old(s)@.push(c),
;

/// A freshly built string holding exactly the given characters, in order.
pub fn chars_to_string(cs: &Vec<char>) -> (r: String)
    ensures
        r@ == cs@,
{
    let mut r = String::new();
    let mut i: usize = 0;
    while i < cs.len()
        invariant
            i <= cs@.len(),
            r@ == cs@.subrange(0, i as int),
        decreases cs@.len() - i,
    {
        r.push(cs[i]);
        i = i + 1;
        proof {
            assert(r@ =~= cs@.subrange(0, i as int));
        }
    }
    proof {
        assert(r@ =~= cs@);
    }
    r
}

/// The decimal digit character of a value below ten.
pub open spec fn digit_char(d: int) -> char {
    if d == 0 {
        '0'
    } else if d == 1 {
        '1'
    } else if d == 2 {
        '2'
    } else if d == 3 {
        '3'
    } else if d == 4 {
        '4'
    } else if d == 5 {
        '5'
    } else if d == 6 {
        '6'
    } else if d == 7 {
        '7'
    } else if d == 8 {
        '8'
    } else if d == 9 {
        '9'
    } else {
        '?'
    }
}

pub fn digit_char_exec(d: u64) -> (r: char)
    ensures
        r == digit_char(d as int),
{
    match d {
        0 => '0',
        1 => '1',
        2 => '2',
        3 => '3',
        4 => '4',
        5 => '5',
        6 => '6',
        7 => '7',
        8 => '8',
        9 => '9',
        _ => '?',
    }
}

/// The decimal digits of a non-negative number, most significant first.
pub open spec fn dec_spec(n: int) -> Seq<char>
    decreases n,
{
    if n < 10 {
        seq![digit_char(n)]
    } else {
        dec_spec(n / 10) + seq![digit_char(n % 10)]
    }
}

/// The digits of `acc` read back to front.
spec fn rev_chars(acc: Seq<char>) -> Seq<char> {
    Seq::new(acc.len(), |t: int| acc[acc.len() - 1 - t])
}

/// The decimal notation of `n`.
pub fn u64_to_string(n: u64) -> (r: String)
    ensures
        r@ == dec_spec(n as int),
{
    let mut cur = n;
    let mut acc: Vec<char> = Vec::new();
    proof {
        assert(rev_chars(acc@) =~= Seq::<char>::empty());
        assert(dec_spec(n as int) =~= dec_spec(n as int) + rev_chars(acc@));
    }
    while cur >= 10
        invariant
            dec_spec(n as int) == dec_spec(cur as int) + rev_chars(acc@),
        decreases cur,
    {
        let d = cur % 10;
        let ghost pre_acc = acc@;
        acc.push(digit_char_exec(d));
        proof {
            assert(cur as int / 10 < cur as int) by (nonlinear_arith)
                requires
                    cur >= 10,
            ;
            assert(rev_chars(acc@) =~= seq![digit_char(d as int)] + rev_chars(pre_acc));
            assert(dec_spec(cur as int) == dec_spec(cur as int / 10) + seq![
                digit_char(cur as int % 10),
            ]);
            assert(dec_spec(cur as int / 10) + seq![digit_char(d as int)] + rev_chars(pre_acc)
                =~= dec_spec(cur as int / 10) + rev_chars(acc@));
        }
        cur = cur / 10;
    }
    let mut out = String::new();
    out.push(digit_char_exec(cur));
    proof {
        assert(out@ =~= seq![digit_char(cur as int)]);
        assert(out@ =~= dec_spec(cur as int));
    }
    let mut j = acc.len();
    while j > 0
        invariant
            j <= acc@.len(),
            out@ == dec_spec(cur as int) + Seq::new(
                (acc@.len() - j) as nat,
                |t: int| acc@[acc@.len() - 1 - t],
            ),
        decreases j,
    {
        j = j - 1;
        out.push(acc[j]);
        proof {
            assert(out@ =~= dec_spec(cur as int) + Seq::new(
                (acc@.len() - j) as nat,
                |t: int| acc@[acc@.len() - 1 - t],
            ));
        }
    }
    proof {
        assert(Seq::new(acc@.len(), |t: int| acc@[acc@.len() - 1 - t]) =~= rev_chars(acc@));
        assert(out@ =~= dec_spec(n as int));
    }
    out
}

/// `p` is a prefix of `s`.
pub open spec fn starts_with(s: Seq<char>, p: Seq<char>) -> bool {
    p.len() <= s.len() && s.subrange(0, p.len() as int) == p
}

/// `p` is a suffix of `s`.
pub open spec fn ends_with(s: Seq<char>, p: Seq<char>) -> bool {
    p.len() <= s.len() && s.subrange(s.len() - p.len(), s.len() as int) == p
}

/// Whether the given string slice is a prefix of the character vector.
pub fn starts_with_str(cs: &Vec<char>, p: &str) -> (r: bool)
    ensures
        r == starts_with(cs@, p@),
{
    let n = p.unicode_len();
    if n > cs.len() {
        return false;
    }
    let mut i: usize = 0;
    while i < n
        invariant
            n == p@.len(),
            n <= cs@.len(),
            i <= n,
            forall|j: int| 0 <= j < i ==> cs@[j] == p@[j],
        decreases n - i,
    {
        if cs[i] != p.get_char(i) {
            proof {
                assert(cs@.subrange(0, p@.len() as int)[i as int] != p@[i as int]);
            }
            return false;
        }
        i = i + 1;
    }
    proof {
        assert(cs@.subrange(0, p@.len() as int) =~= p@);
    }
    true
}

/// Whether the given string slice is a suffix of the character vector.
pub fn ends_with_str(cs: &Vec<char>, p: &str) -> (r: bool)
    ensures
        r == ends_with(cs@, p@),
{
    let n = p.unicode_len();
    if n > cs.len() {
        return false;
    }
    let base = cs.len() - n;
    let mut idx = base;
    while idx < cs.len()
        invariant
            n == p@.len(),
            n <= cs@.len(),
            base == cs@.len() - n,
            base <= idx <= cs@.len(),
            forall|j: int| 0 <= j < idx - base ==> cs@[base + j] == p@[j],
        decreases cs@.len() - idx,
    {
        if cs[idx] != p.get_char(idx - base) {
            proof {
                assert(cs@.subrange(cs@.len() - p@.len(), cs@.len() as int)[idx - base]
                    != p@[idx - base]);
            }
            return false;
        }
        idx = idx + 1;
    }
    proof {
        assert(cs@.subrange(cs@.len() - p@.len(), cs@.len() as int) =~= p@);
    }
    true
}

/// Index of the first occurrence of `c`, if any.
pub fn find_char(cs: &Vec<char>, c: char) -> (r: Option<usize>)
    ensures
        match r {
            Some(i) => cs@.index_of_first(c) == Some(i as int),
            None => cs@.index_of_first(c) is None,
        },
{
    let mut i: usize = 0;
    while i < cs.len()
        invariant
            i <= cs@.len(),
            forall|j: int| 0 <= j < i ==> cs@[j] != c,
        decreases cs@.len() - i,
    {
        if cs[i] == c {
            proof {
                cs@.index_of_first_ensures(c);
            }
            return Some(i);
        }
        i = i + 1;
    }
    proof {
        cs@.index_of_first_ensures(c);
        if cs@.contains(c) {
            let w = choose|w: int| 0 <= w < cs@.len() && cs@[w] == c;
            assert(cs@[w] != c);
        }
    }
    None
}

/// The characters of `cs` from position `k` on.
pub fn vec_skip(cs: &Vec<char>, k: usize) -> (r: Vec<char>)
    requires
        k <= cs@.len(),
    ensures
        r@ == cs@.skip(k as int),
{
    let mut r: Vec<char> = Vec::new();
    let mut i: usize = k;
    while i < cs.len()
        invariant
            k <= i <= cs@.len(),
            r@ == cs@.subrange(k as int, i as int),
        decreases cs@.len() - i,
    {
        r.push(cs[i]);
        i = i + 1;
        proof {
            assert(r@ =~= cs@.subrange(k as int, i as int));
        }
    }
    proof {
        assert(r@ =~= cs@.skip(k as int));
    }
    r
}

/// The characters of `cs` in positions `a` up to `b`.
pub fn vec_range(cs: &Vec<char>, a: usize, b: usize) -> (r: Vec<char>)
    requires
        a <= b <= cs@.len(),
    ensures
        r@ == cs@.subrange(a as int, b as int),
{
    let mut r: Vec<char> = Vec::new();
    let mut i: usize = a;
    while i < b
        invariant
            a <= i <= b <= cs@.len(),
            r@ == cs@.subrange(a as int, i as int),
        decreases b - i,
    {
        r.push(cs[i]);
        i = i + 1;
        proof {
            assert(r@ =~= cs@.subrange(a as int, i as int));
        }
    }
    r
}

/// Whitespace, as `str::trim` sees it: the characters with the Unicode
/// `White_Space` property, written out.
pub open spec fn is_space(c: char) -> bool {
    c == ' ' || c == '\t' || c == '\n' || c == '\u{b}' || c == '\u{c}' || c == '\r' || c
        == '\u{85}' || c == '\u{a0}' || c == '\u{1680}' || c == '\u{2000}' || c == '\u{2001}'
        || c == '\u{2002}' || c == '\u{2003}' || c == '\u{2004}' || c == '\u{2005}' || c
        == '\u{2006}' || c == '\u{2007}' || c == '\u{2008}' || c == '\u{2009}' || c
        == '\u{200a}' || c == '\u{2028}' || c == '\u{2029}' || c == '\u{202f}' || c
        == '\u{205f}' || c == '\u{3000}'
}

#[verifier::when_used_as_spec(is_space)]
pub fn is_space_exec(c: char) -> (r: bool)
    ensures
        r == is_space(c),
{
    c == ' ' || c == '\t' || c == '\n' || c == '\u{b}' || c == '\u{c}' || c == '\r' || c
        == '\u{85}' || c == '\u{a0}' || c == '\u{1680}' || c == '\u{2000}' || c == '\u{2001}'
        || c == '\u{2002}' || c == '\u{2003}' || c == '\u{2004}' || c == '\u{2005}' || c
        == '\u{2006}' || c == '\u{2007}' || c == '\u{2008}' || c == '\u{2009}' || c
        == '\u{200a}' || c == '\u{2028}' || c == '\u{2029}' || c == '\u{202f}' || c
        == '\u{205f}' || c == '\u{3000}'
}

/// `s` without leading whitespace.
pub open spec fn trim_start_spec(s: Seq<char>) -> Seq<char>
    decreases s.len(),
{
    if s.len() > 0 && is_space(s[0]) {
        trim_start_spec(s.drop_first())
    } else {
        s
    }
}

/// `s` without trailing whitespace.
pub open spec fn trim_end_spec(s: Seq<char>) -> Seq<char>
    decreases s.len(),
{
    if s.len() > 0 && is_space(s.last()) {
        trim_end_spec(s.drop_last())
    } else {
        s
    }
}

/// `s` without leading and trailing whitespace.
pub open spec fn trim_spec(s: Seq<char>) -> Seq<char> {
    trim_end_spec(trim_start_spec(s))
}

/// The characters of `cs` without leading and trailing whitespace.
pub fn trim_chars(cs: &Vec<char>) -> (r: Vec<char>)
    ensures
        r@ == trim_spec(cs@),
{
    proof {
        assert(cs@.skip(0) =~= cs@);
    }
    let mut a: usize = 0;
    while a < cs.len() && is_space_exec(cs[a])
        invariant
            a <= cs@.len(),
            trim_start_spec(cs@) == trim_start_spec(cs@.skip(a as int)),
        decreases cs@.len() - a,
    {
        proof {
            assert(cs@.skip(a as int)[0] == cs@[a as int]);
            assert(cs@.skip(a as int).drop_first() =~= cs@.skip(a + 1));
        }
        a = a + 1;
    }
    proof {
        if a < cs@.len() {
            assert(cs@.skip(a as int)[0] == cs@[a as int]);
        }
        assert(trim_start_spec(cs@) == cs@.skip(a as int));
        assert(cs@.skip(a as int) =~= cs@.subrange(a as int, cs@.len() as int));
    }
    let mut b: usize = cs.len();
    while b > a && is_space_exec(cs[b - 1])
        invariant
            a <= b <= cs@.len(),
            trim_start_spec(cs@) == cs@.skip(a as int),
            trim_end_spec(cs@.skip(a as int)) == trim_end_spec(cs@.subrange(a as int, b as int)),
        decreases b,
    {
        proof {
            let seg = cs@.subrange(a as int, b as int);
            assert(seg.last() == cs@[b - 1]);
            assert(seg.drop_last() =~= cs@.subrange(a as int, b - 1));
        }
        b = b - 1;
    }
    proof {
        let seg = cs@.subrange(a as int, b as int);
        if b > a {
            assert(seg.last() == cs@[b - 1]);
        }
        assert(trim_end_spec(seg) == seg);
        assert(cs@.skip(a as int) =~= cs@.subrange(a as int, cs@.len() as int));
    }
    vec_range(cs, a, b)
}

/// The string slice without leading and trailing whitespace, as an owned
/// string.
pub fn trim_string(s: &str) -> (r: String)
    ensures
        r@ == trim_spec(s@),
{
    let cs = str_to_chars(s);
    let t = trim_chars(&cs);
    chars_to_string(&t)
}

/// A line with one trailing carriage return removed, as line splitting does
/// for lines that end in `\r\n`.
pub open spec fn strip_cr(l: Seq<char>) -> Seq<char> {
    if l.len() > 0 && l.last() == '\r' {
        l.drop_last()
    } else {
        l
    }
}

/// The lines of `s`: segments split at `\n`, each with one trailing `\r`
/// removed; a final line ending opens no further line.
pub open spec fn split_lines_spec(s: Seq<char>) -> Seq<Seq<char>>
    decreases s.len(),
{
    if s.len() == 0 {
        Seq::empty()
    } else {
        let idx = s.index_of_first('\n');
        if idx is Some && 0 <= idx->Some_0 && idx->Some_0 < s.len() {
            seq![strip_cr(s.subrange(0, idx->Some_0))] + split_lines_spec(
                s.skip(idx->Some_0 + 1),
            )
        } else {
            seq![s]
        }
    }
}

proof fn lemma_split_lines_step(t: Seq<char>, k: int)
    requires
        0 <= k < t.len(),
        t[k] == '\n',
        forall|j: int| 0 <= j < k ==> t[j] != '\n',
    ensures
        split_lines_spec(t) == seq![strip_cr(t.subrange(0, k))] + split_lines_spec(t.skip(k + 1)),
{
    t.index_of_first_ensures('\n');
    assert(t.contains('\n'));
    let q = t.index_of_first('\n')->Some_0;
    assert(q == k);
}

proof fn lemma_split_lines_whole(t: Seq<char>)
    requires
        forall|j: int| 0 <= j < t.len() ==> t[j] != '\n',
    ensures
        split_lines_spec(t) == if t.len() == 0 {
            Seq::<Seq<char>>::empty()
        } else {
            seq![t]
        },
{
    t.index_of_first_ensures('\n');
    if t.index_of_first('\n') is Some {
        let q = t.index_of_first('\n')->Some_0;
        assert(t[q] != '\n');
    }
}

/// The lines of the given text, as owned strings.
pub fn split_lines(s: &str) -> (r: Vec<String>)
    ensures
        r@.len() == split_lines_spec(s@).len(),
        forall|i: int|
            0 <= i < r@.len() ==> #[trigger] r@[i]@ == split_lines_spec(s@)[i],
{
    let cs = str_to_chars(s);
    let mut out: Vec<String> = Vec::new();
    proof {
        assert(cs@.skip(0) =~= cs@);
        assert(out@.map_values(|x: String| x@) =~= Seq::<Seq<char>>::empty());
        assert(Seq::<Seq<char>>::empty() + split_lines_spec(cs@) =~= split_lines_spec(cs@));
    }
    let mut start: usize = 0;
    let mut i: usize = 0;
    while i < cs.len()
        invariant
            cs@ == s@,
            start <= i <= cs@.len(),
            forall|j: int| start <= j < i ==> cs@[j] != '\n',
            split_lines_spec(cs@) == out@.map_values(|x: String| x@) + split_lines_spec(
                cs@.skip(start as int),
            ),
        decreases cs@.len() - i,
    {
        if cs[i] == '\n' {
            let line = vec_range(&cs, start, i);
            let stripped = if line.len() > 0 && line[line.len() - 1] == '\r' {
                let mut l2 = line;
                l2.pop();
                l2
            } else {
                line
            };
            proof {
                assert(stripped@ =~= strip_cr(cs@.subrange(start as int, i as int)));
            }
            let ghost pre_out = out@;
            out.push(chars_to_string(&stripped));
            proof {
                let t = cs@.skip(start as int);
                lemma_split_lines_step(t, i - start);
                assert(t.subrange(0, i - start) =~= cs@.subrange(start as int, i as int));
                assert(t.skip(i - start + 1) =~= cs@.skip(i + 1));
                assert(out@.map_values(|x: String| x@) =~= pre_out.map_values(|x: String| x@)
                    + seq![strip_cr(cs@.subrange(start as int, i as int))]);
            }
            start = i + 1;
        }
        i = i + 1;
    }
    proof {
        let t = cs@.skip(start as int);
        assert(forall|j: int| 0 <= j < t.len() ==> #[trigger] t[j] == cs@[start + j]);
        lemma_split_lines_whole(t);
    }
    if start < cs.len() {
        let line = vec_range(&cs, start, cs.len());
        let ghost pre_out = out@;
        out.push(chars_to_string(&line));
        proof {
            assert(line@ =~= cs@.skip(start as int));
            assert(out@.map_values(|x: String| x@) =~= pre_out.map_values(|x: String| x@)
                + seq![cs@.skip(start as int)]);
        }
    }
    proof {
        assert(out@.map_values(|x: String| x@) =~= split_lines_spec(s@));
        assert(forall|i: int|
            0 <= i < out@.len() ==> #[trigger] out@[i]@ == out@.map_values(|x: String| x@)[i]);
    }
    out
}

/// `p` occurs somewhere within `s`.
pub open spec fn contains_seq(s: Seq<char>, p: Seq<char>) -> bool {
    exists|i: int| 0 <= i <= s.len() - p.len() && #[trigger] s.subrange(i, i + p.len()) == p
}

/// Whether `p` matches `cs` at position `i`.
fn matches_at(cs: &Vec<char>, p: &str, i: usize) -> (r: bool)
    requires
        i + p@.len() <= cs@.len(),
    ensures
        r == (cs@.subrange(i as int, i + p@.len()) == p@),
{
    let n = p.unicode_len();
    let total = cs.len();
    let mut j: usize = 0;
    while j < n
        invariant
            n == p@.len(),
            total == cs@.len(),
            i + n <= cs@.len(),
            j <= n,
            forall|t: int| 0 <= t < j ==> cs@[i + t] == p@[t],
        decreases n - j,
    {
        if cs[i + j] != p.get_char(j) {
            proof {
                assert(cs@.subrange(i as int, i + p@.len())[j as int] != p@[j as int]);
            }
            return false;
        }
        j = j + 1;
    }
    proof {
        assert(cs@.subrange(i as int, i + p@.len()) =~= p@);
    }
    true
}

/// Whether the given string slice occurs within the character vector.
pub fn contains_str(cs: &Vec<char>, p: &str) -> (r: bool)
    ensures
        r == contains_seq(cs@, p@),
{
    let n = p.unicode_len();
    if n > cs.len() {
        return false;
    }
    if n == 0 {
        proof {
            assert(cs@.subrange(0, 0 + p@.len() as int) =~= p@);
            assert(contains_seq(cs@, p@));
        }
        return true;
    }
    let last = cs.len() - n;
    let mut i: usize = 0;
    while i <= last
        invariant
            n == p@.len(),
            1 <= n <= cs@.len(),
            cs@.len() <= usize::MAX,
            last == cs@.len() - n,
            i <= last + 1,
            forall|t: int| 0 <= t < i ==> #[trigger] cs@.subrange(t, t + p@.len()) != p@,
        decreases last + 1 - i,
    {
        if matches_at(cs, p, i) {
            return true;
        }
        i = i + 1;
    }
    false
}

/// The numeric value of a decimal digit character, `-1` otherwise.
pub open spec fn digit_val(c: char) -> int {
    if c == '0' {
        0
    } else if c == '1' {
        1
    } else if c == '2' {
        2
    } else if c == '3' {
        3
    } else if c == '4' {
        4
    } else if c == '5' {
        5
    } else if c == '6' {
        6
    } else if c == '7' {
        7
    } else if c == '8' {
        8
    } else if c == '9' {
        9
    } else {
        -1
    }
}

/// `c` is a decimal digit.
pub open spec fn is_digit(c: char) -> bool {
    digit_val(c) >= 0
}

/// The digit value of a character, when it is one.
fn digit_of(c: char) -> (r: Option<u64>)
    ensures
        match r {
            Some(d) => is_digit(c) && d == digit_val(c),
            None => !is_digit(c),
        },
{
    if c == '0' {
        Some(0)
    } else if c == '1' {
        Some(1)
    } else if c == '2' {
        Some(2)
    } else if c == '3' {
        Some(3)
    } else if c == '4' {
        Some(4)
    } else if c == '5' {
        Some(5)
    } else if c == '6' {
        Some(6)
    } else if c == '7' {
        Some(7)
    } else if c == '8' {
        Some(8)
    } else if c == '9' {
        Some(9)
    } else {
        None
    }
}

/// Every character is a decimal digit.
pub open spec fn all_digits(s: Seq<char>) -> bool {
    forall|i: int| 0 <= i < s.len() ==> is_digit(#[trigger] s[i])
}

/// The number the digit string denotes, most significant digit first.
pub open spec fn digits_value(s: Seq<char>) -> int
    decreases s.len(),
{
    if s.len() == 0 {
        0
    } else {
        digits_value(s.drop_last()) * 10 + digit_val(s.last())
    }
}

proof fn lemma_digits_value_nonneg(s: Seq<char>)
    requires
        all_digits(s),
    ensures
        digits_value(s) >= 0,
    decreases s.len(),
{
    if s.len() > 0 {
        lemma_digits_value_nonneg(s.drop_last());
    }
}

proof fn lemma_digits_value_mono(s: Seq<char>, k: int)
    requires
        all_digits(s),
        0 <= k <= s.len(),
    ensures
        digits_value(s) >= digits_value(s.take(k)),
    decreases s.len() - k,
{
    if k < s.len() {
        lemma_digits_value_mono(s, k + 1);
        assert(s.take(k + 1).drop_last() =~= s.take(k));
        assert(s.take(k + 1).last() == s[k]);
        lemma_digits_value_nonneg(s.take(k));
    } else {
        assert(s.take(k) =~= s);
    }
}

/// How `u32` parses a decimal string: an optional leading plus sign, then
/// at least one digit, denoting a value that fits.
pub open spec fn parse_u32_spec(s: Seq<char>) -> Option<u32> {
    let body = if s.len() > 0 && s[0] == '+' {
        s.drop_first()
    } else {
        s
    };
    if body.len() > 0 && all_digits(body) && digits_value(body) <= u32::MAX {
        Some(digits_value(body) as u32)
    } else {
        None
    }
}

/// Parse a decimal `u32` from the characters, as `str::parse` would.
pub fn parse_u32(cs: &Vec<char>) -> (r: Option<u32>)
    ensures
        r == parse_u32_spec(cs@),
{
    let start: usize = if cs.len() > 0 && cs[0] == '+' {
        1
    } else {
        0
    };
    let ghost body = if cs@.len() > 0 && cs@[0] == '+' {
        cs@.drop_first()
    } else {
        cs@
    };
    proof {
        if start == 1 {
            assert(body =~= cs@.skip(1));
        }
        assert(body =~= cs@.skip(start as int));
        assert(body.take(0) =~= Seq::<char>::empty());
    }
    if start == cs.len() {
        return None;
    }
    let mut val: u64 = 0;
    let mut j = start;
    while j < cs.len()
        invariant
            start <= j <= cs@.len(),
            start < cs@.len(),
            start <= 1,
            body == cs@.skip(start as int),
            body == (if cs@.len() > 0 && cs@[0] == '+' {
                cs@.drop_first()
            } else {
                cs@
            }),
            body.len() == cs@.len() - start,
            forall|t: int| 0 <= t < j - start ==> is_digit(#[trigger] body[t]),
            val <= u32::MAX,
            val == digits_value(body.take(j - start)),
        decreases cs@.len() - j,
    {
        let c = cs[j];
        proof {
            assert(body[j - start] == cs@[j as int]);
        }
        match digit_of(c) {
            Some(d) => {
                let next = val * 10 + d;
                proof {
                    assert(body.take(j - start + 1).drop_last() =~= body.take(j - start));
                    assert(body.take(j - start + 1).last() == body[j - start]);
                }
                if next > 0xffff_ffff {
                    proof {
                        assert(digits_value(body.take(j - start + 1)) == val * 10 + digit_val(
                            body[j - start],
                        ));
                        if all_digits(body) {
                            lemma_digits_value_mono(body, j - start + 1);
                            assert(digits_value(body) > u32::MAX);
                        }
                        assert(parse_u32_spec(cs@) is None);
                    }
                    return None;
                }
                val = next;
            },
            None => {
                proof {
                    assert(!is_digit(body[j - start]));
                    assert(!all_digits(body));
                    assert(parse_u32_spec(cs@) is None);
                }
                return None;
            },
        }
        j = j + 1;
    }
    proof {
        assert(body.take(body.len() as int) =~= body);
        lemma_digits_value_nonneg(body);
    }
    Some(val as u32)
}

/// Equality of two string slices, decided character by character.
pub fn str_eq(a: &str, b: &str) -> (r: bool)
    ensures
        r == (a@ == b@),
{
    let n = a.unicode_len();
    if n != b.unicode_len() {
        proof {
            assert(a@.len() != b@.len());
        }
        return false;
    }
    let mut i: usize = 0;
    while i < n
        invariant
            n == a@.len(),
            n == b@.len(),
            i <= n,
            forall|j: int| 0 <= j < i ==> a@[j] == b@[j],
        decreases n - i,
    {
        if a.get_char(i) != b.get_char(i) {
            return false;
        }
        i = i + 1;
    }
    proof {
        assert(a@ =~= b@);
    }
    true
}

} // verus!
