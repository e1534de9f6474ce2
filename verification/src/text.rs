//! Character-level text utilities with exact specifications.
//!
//! Text is handled as sequences of `char` (the view of `str` and `String`).
//! Each executable function here is proved against a spec function that
//! states what the corresponding standard-library operation does.

use vstd::prelude::*;

verus! {

/// `String::push` appends one character.
pub assume_specification[ String::push ](s: &mut String, ch: char)
    ensures
        final(s)@ == old(s)@.push(ch),
;

// ---------------------------------------------------------------------------
// Specifications
// ---------------------------------------------------------------------------

/// The Unicode `White_Space` property, which is what `char::is_whitespace`
/// tests.
pub open spec fn is_ws(c: char) -> bool {
    let x = c as u32;
    ||| 0x09 <= x <= 0x0D
    ||| x == 0x20
    ||| x == 0x85
    ||| x == 0xA0
    ||| x == 0x1680
    ||| 0x2000 <= x <= 0x200A
    ||| x == 0x2028
    ||| x == 0x2029
    ||| x == 0x202F
    ||| x == 0x205F
    ||| x == 0x3000
}

/// `str::trim_start`: leading whitespace removed.
pub open spec fn trim_start(s: Seq<char>) -> Seq<char>
    decreases s.len(),
{
    if s.len() > 0 && is_ws(s[0]) {
        trim_start(s.drop_first())
    } else {
        s
    }
}

/// `str::trim_end`: trailing whitespace removed.
pub open spec fn trim_end(s: Seq<char>) -> Seq<char>
    decreases s.len(),
{
    if s.len() > 0 && is_ws(s.last()) {
        trim_end(s.drop_last())
    } else {
        s
    }
}

/// `str::trim`: leading and trailing whitespace removed.
pub open spec fn trim(s: Seq<char>) -> Seq<char> {
    trim_end(trim_start(s))
}

/// `p` occurs in `s` starting at index `i`.
pub open spec fn match_at(s: Seq<char>, p: Seq<char>, i: int) -> bool {
    0 <= i && i + p.len() <= s.len() && s.subrange(i, i + p.len()) == p
}

/// `i` is the leftmost occurrence of `p` in `s`.
pub open spec fn is_first_match(s: Seq<char>, p: Seq<char>, i: int) -> bool {
    match_at(s, p, i) && forall|j: int| 0 <= j < i ==> !match_at(s, p, j)
}

/// The index of the leftmost occurrence of `p` in `s` (`str::find`).
pub open spec fn first_match(s: Seq<char>, p: Seq<char>) -> Option<int> {
    if exists|i: int| match_at(s, p, i) {
        Some(choose|i: int| is_first_match(s, p, i))
    } else {
        None
    }
}

/// `str::contains`.
pub open spec fn contains(s: Seq<char>, p: Seq<char>) -> bool {
    exists|i: int| match_at(s, p, i)
}

/// `str::strip_prefix`.
pub open spec fn strip_prefix(s: Seq<char>, p: Seq<char>) -> Option<Seq<char>> {
    if p.len() <= s.len() && s.take(p.len() as int) == p {
        Some(s.skip(p.len() as int))
    } else {
        None
    }
}

/// `str::starts_with`.
pub open spec fn starts_with(s: Seq<char>, p: Seq<char>) -> bool {
    strip_prefix(s, p) is Some
}

/// `s.split(p).nth(1)`: the piece between the first and the second
/// occurrence of `p` (or the end of `s`).
pub open spec fn split_second(s: Seq<char>, p: Seq<char>) -> Option<Seq<char>> {
    match first_match(s, p) {
        Some(i) => {
            let rest = s.skip(i + p.len());
            match first_match(rest, p) {
                Some(j) => Some(rest.take(j)),
                None => Some(rest),
            }
        },
        None => None,
    }
}

/// `s.split_once(p)`.
pub open spec fn split_once(s: Seq<char>, p: Seq<char>) -> Option<(Seq<char>, Seq<char>)> {
    match first_match(s, p) {
        Some(i) => Some((s.take(i), s.skip(i + p.len()))),
        None => None,
    }
}

/// The pieces of `s` produced by `split_inclusive('\n')`, defined left to
/// right: each piece but the last ends with `'\n'`.
pub open spec fn line_pieces(s: Seq<char>) -> Seq<Seq<char>>
    decreases s.len(),
{
    if s.len() == 0 {
        seq![]
    } else {
        let p = line_pieces(s.drop_last());
        if p.len() == 0 || p.last().len() == 0 || p.last().last() == '\n' {
            p.push(seq![s.last()])
        } else {
            p.update(p.len() - 1, p.last().push(s.last()))
        }
    }
}

/// A piece with its line ending (`"\n"` or `"\r\n"`) removed.
pub open spec fn strip_line_end(p: Seq<char>) -> Seq<char> {
    if p.len() > 0 && p.last() == '\n' {
        let q = p.drop_last();
        if q.len() > 0 && q.last() == '\r' {
            q.drop_last()
        } else {
            q
        }
    } else {
        p
    }
}

/// `str::lines`.
pub open spec fn lines(s: Seq<char>) -> Seq<Seq<char>> {
    line_pieces(s).map_values(|p: Seq<char>| strip_line_end(p))
}

/// `char::is_ascii_digit`.
pub open spec fn is_digit(c: char) -> bool {
    0x30 <= (c as u32) <= 0x39
}

/// The value of an ASCII digit.
pub open spec fn digit_value(c: char) -> nat {
    ((c as u32) - 0x30) as nat
}

/// The run of ASCII digits at the start of `s`.
pub open spec fn leading_digits(s: Seq<char>) -> Seq<char>
    decreases s.len(),
{
    if s.len() > 0 && is_digit(s[0]) {
        seq![s[0]] + leading_digits(s.drop_first())
    } else {
        seq![]
    }
}

/// The number a sequence of decimal digits denotes.
pub open spec fn digits_value(d: Seq<char>) -> nat
    decreases d.len(),
{
    if d.len() == 0 {
        0
    } else {
        digits_value(d.drop_last()) * 10 + digit_value(d.last())
    }
}

/// `str::parse::<u32>` on a sequence of ASCII digits: `None` when it is
/// empty or its value does not fit in a `u32`.
pub open spec fn parse_u32_digits(d: Seq<char>) -> Option<u32> {
    if d.len() == 0 || digits_value(d) > u32::MAX {
        None
    } else {
        Some(digits_value(d) as u32)
    }
}

/// The character of a decimal digit.
pub open spec fn digit_char(d: nat) -> char {
    if d == 0 {
        '0'
    } else if d == 1 {
        '1'
    } else if d == 2 {
        '2'
    } else if d == 3 {
        '3'
    } else if d == 4 {
        '4'
    } else if d == 5 {
        '5'
    } else if d == 6 {
        '6'
    } else if d == 7 {
        '7'
    } else if d == 8 {
        '8'
    } else {
        '9'
    }
}

/// The decimal rendering of `n` (`Display` for unsigned integers).
pub open spec fn decimal(n: nat) -> Seq<char>
    decreases n,
{
    if n < 10 {
        seq![digit_char(n)]
    } else {
        decimal(n / 10) + seq![digit_char(n % 10)]
    }
}

/// The decimal rendering of a signed `n` (`Display` for signed integers).
pub open spec fn signed_decimal(n: int) -> Seq<char> {
    if n < 0 {
        seq!['-'] + decimal((-n) as nat)
    } else {
        decimal(n as nat)
    }
}

/// `parts.join(sep)`.
pub open spec fn join(parts: Seq<Seq<char>>, sep: Seq<char>) -> Seq<char>
    decreases parts.len(),
{
    if parts.len() == 0 {
        seq![]
    } else if parts.len() == 1 {
        parts[0]
    } else {
        join(parts.drop_last(), sep) + sep + parts.last()
    }
}

/// `s.replace(from, to)` for a non-empty `from`: every occurrence, found
/// left to right without overlap, replaced by `to`.
pub open spec fn replace_all(s: Seq<char>, from: Seq<char>, to: Seq<char>) -> Seq<char>
    decreases s.len(),
{
    if from.len() == 0 {
        s
    } else {
        match first_match(s, from) {
            Some(i) => {
                proof {
                    lemma_first_match(s, from);
                }
                s.take(i) + to + replace_all(s.skip(i + from.len()), from, to)
            },
            None => s,
        }
    }
}

/// The views of a sequence of character vectors.
pub open spec fn views(v: Seq<Vec<char>>) -> Seq<Seq<char>> {
    v.map_values(|x: Vec<char>| x@)
}

/// The views of a sequence of strings.
pub open spec fn string_views(v: Seq<String>) -> Seq<Seq<char>> {
    v.map_values(|x: String| x@)
}

/// The view of an optional string.
pub open spec fn opt_view(o: Option<String>) -> Option<Seq<char>> {
    match o {
        Some(s) => Some(s@),
        None => None,
    }
}

// ---------------------------------------------------------------------------
// Lemmas
// ---------------------------------------------------------------------------

/// When `p` occurs in `s`, a leftmost occurrence exists and `first_match`
/// returns it.
pub proof fn lemma_first_match(s: Seq<char>, p: Seq<char>)
    ensures
        first_match(s, p) matches Some(i) ==> is_first_match(s, p, i),
        first_match(s, p) is None ==> forall|j: int| !match_at(s, p, j),
        contains(s, p) <==> first_match(s, p) is Some,
{
    if exists|i: int| match_at(s, p, i) {
        let k = choose|i: int| match_at(s, p, i);
        lemma_minimal_match_exists(s, p, k);
    }
}

proof fn lemma_minimal_match_exists(s: Seq<char>, p: Seq<char>, k: int)
    requires
        match_at(s, p, k),
    ensures
        exists|i: int| is_first_match(s, p, i),
    decreases k,
{
    if exists|j: int| 0 <= j < k && match_at(s, p, j) {
        let j = choose|j: int| 0 <= j < k && match_at(s, p, j);
        lemma_minimal_match_exists(s, p, j);
    } else {
        assert(is_first_match(s, p, k));
    }
}

proof fn lemma_first_match_unique(s: Seq<char>, p: Seq<char>, i: int)
    requires
        is_first_match(s, p, i),
    ensures
        first_match(s, p) == Some(i),
{
    lemma_first_match(s, p);
    let k = first_match(s, p)->0;
    if k < i {
        assert(!match_at(s, p, k));
    } else if k > i {
        assert(!match_at(s, p, i));
    }
}

proof fn lemma_trim_start_skip(s: Seq<char>, i: int)
    requires
        0 <= i < s.len(),
        is_ws(s[i]),
    ensures
        trim_start(s.skip(i)) == trim_start(s.skip(i + 1)),
{
    assert(s.skip(i).drop_first() =~= s.skip(i + 1));
}

proof fn lemma_trim_end_take(s: Seq<char>, j: int)
    requires
        0 < j <= s.len(),
        is_ws(s[j - 1]),
    ensures
        trim_end(s.take(j)) == trim_end(s.take(j - 1)),
{
    assert(s.take(j).drop_last() =~= s.take(j - 1));
}

proof fn lemma_leading_digits(s: Seq<char>, k: int)
    requires
        0 <= k <= s.len(),
        forall|j: int| 0 <= j < k ==> is_digit(s[j]),
        k == s.len() || !is_digit(s[k]),
    ensures
        leading_digits(s) == s.take(k),
    decreases k,
{
    if k == 0 {
        assert(s.take(0) =~= Seq::<char>::empty());
    } else {
        let t = s.drop_first();
        assert forall|j: int| 0 <= j < k - 1 implies is_digit(t[j]) by {
            assert(t[j] == s[j + 1]);
        }
        if k - 1 < t.len() {
            assert(t[k - 1] == s[k]);
        }
        lemma_leading_digits(t, k - 1);
        assert(seq![s[0]] + t.take(k - 1) =~= s.take(k));
    }
}

proof fn lemma_digits_value_prefix(d: Seq<char>, i: int)
    requires
        0 <= i <= d.len(),
    ensures
        digits_value(d.take(i)) <= digits_value(d),
    decreases d.len() - i,
{
    if i < d.len() {
        lemma_digits_value_prefix(d, i + 1);
        assert(d.take(i + 1).drop_last() =~= d.take(i));
    } else {
        assert(d.take(i) =~= d);
    }
}

// ---------------------------------------------------------------------------
// Executable functions
// ---------------------------------------------------------------------------

/// The characters of `s`, in order.
pub fn to_chars(s: &str) -> (out: Vec<char>)
    ensures
        out@ == s@,
{
    let mut out: Vec<char> = Vec::new();
    for c in it: s.chars()
        invariant
            out@ == it.seq().take(it.index() as int),
            it.seq() == s@,
    {
        out.push(c);
    }
    out
}

/// A `String` holding exactly the characters of `cs`.
pub fn from_chars(cs: &[char]) -> (out: String)
    ensures
        out@ == cs@,
{
    let mut out = String::new();
    let mut i: usize = 0;
    while i < cs.len()
        invariant
            i <= cs@.len(),
            out@ == cs@.take(i as int),
        decreases cs@.len() - i,
    {
        out.push(cs[i]);
        proof {
            assert(cs@.take(i as int + 1) =~= cs@.take(i as int).push(cs@[i as int]));
        }
        i += 1;
    }
    proof {
        assert(cs@.take(cs@.len() as int) =~= cs@);
    }
    out
}

/// A copy of `s[from..to]`.
pub fn copy_range(s: &[char], from: usize, to: usize) -> (out: Vec<char>)
    requires
        from <= to <= s@.len(),
    ensures
        out@ == s@.subrange(from as int, to as int),
{
    let mut out: Vec<char> = Vec::new();
    let mut i = from;
    while i < to
        invariant
            from <= i <= to <= s@.len(),
            out@ == s@.subrange(from as int, i as int),
        decreases to - i,
    {
        out.push(s[i]);
        proof {
            assert(s@.subrange(from as int, i + 1) =~= s@.subrange(from as int, i as int).push(
                s@[i as int],
            ));
        }
        i += 1;
    }
    out
}

/// Appends all of `b` to `a`.
pub fn append_chars(a: &mut Vec<char>, b: &[char])
    ensures
        final(a)@ == old(a)@ + b@,
{
    let mut i: usize = 0;
    while i < b.len()
        invariant
            i <= b@.len(),
            a@ == old(a)@ + b@.take(i as int),
        decreases b@.len() - i,
    {
        a.push(b[i]);
        proof {
            assert(b@.take(i + 1) =~= b@.take(i as int).push(b@[i as int]));
        }
        i += 1;
    }
    proof {
        assert(b@.take(b@.len() as int) =~= b@);
    }
}

/// Appends the characters of `b` to `a`.
pub fn append_str(a: &mut Vec<char>, b: &str)
    ensures
        final(a)@ == old(a)@ + b@,
{
    let cs = to_chars(b);
    append_chars(a, &cs);
}

/// `char::is_whitespace`.
pub fn is_whitespace(c: char) -> (b: bool)
    ensures
        b == is_ws(c),
{
    let x = c as u32;
    (0x09 <= x && x <= 0x0D) || x == 0x20 || x == 0x85 || x == 0xA0 || x == 0x1680 || (0x2000
        <= x && x <= 0x200A) || x == 0x2028 || x == 0x2029 || x == 0x202F || x == 0x205F || x
        == 0x3000
}

/// `char::is_ascii_digit`.
pub fn is_ascii_digit(c: char) -> (b: bool)
    ensures
        b == is_digit(c),
{
    let x = c as u32;
    0x30 <= x && x <= 0x39
}

/// The index at which `trim_start(s)` begins.
pub fn trim_start_index(s: &[char]) -> (i: usize)
    ensures
        i <= s@.len(),
        s@.skip(i as int) == trim_start(s@),
{
    let mut i: usize = 0;
    proof {
        assert(s@.skip(0) =~= s@);
    }
    while i < s.len() && is_whitespace(s[i])
        invariant
            i <= s@.len(),
            trim_start(s@) == trim_start(s@.skip(i as int)),
        decreases s@.len() - i,
    {
        proof {
            lemma_trim_start_skip(s@, i as int);
        }
        i += 1;
    }
    proof {
        if i < s@.len() {
            assert(s@.skip(i as int)[0] == s@[i as int]);
        }
    }
    i
}

/// The index at which `trim_end(s)` ends.
pub fn trim_end_index(s: &[char]) -> (j: usize)
    ensures
        j <= s@.len(),
        s@.take(j as int) == trim_end(s@),
{
    let mut j: usize = s.len();
    proof {
        assert(s@.take(s@.len() as int) =~= s@);
    }
    while j > 0 && is_whitespace(s[j - 1])
        invariant
            j <= s@.len(),
            trim_end(s@) == trim_end(s@.take(j as int)),
        decreases j,
    {
        proof {
            lemma_trim_end_take(s@, j as int);
        }
        j -= 1;
    }
    j
}

/// `str::trim_start`, as a copy.
pub fn trim_start_chars(s: &[char]) -> (out: Vec<char>)
    ensures
        out@ == trim_start(s@),
{
    let i = trim_start_index(s);
    let out = copy_range(s, i, s.len());
    proof {
        assert(s@.subrange(i as int, s@.len() as int) =~= s@.skip(i as int));
    }
    out
}

/// `str::trim`, as a copy.
pub fn trim_chars(s: &[char]) -> (out: Vec<char>)
    ensures
        out@ == trim(s@),
{
    let t = trim_start_chars(s);
    let j = trim_end_index(&t);
    let out = copy_range(&t, 0, j);
    proof {
        assert(t@.subrange(0, j as int) =~= t@.take(j as int));
    }
    out
}

/// Whether `p` occurs in `s` at index `i`.
pub fn matches_at(s: &[char], p: &[char], i: usize) -> (b: bool)
    ensures
        b == match_at(s@, p@, i as int),
{
    let n = s.len();
    if i > n || p.len() > n - i {
        return false;
    }
    let mut k: usize = 0;
    while k < p.len()
        invariant
            n == s@.len(),
            i + p@.len() <= s@.len(),
            k <= p@.len(),
            s@.subrange(i as int, i + k) =~= p@.take(k as int),
        decreases p@.len() - k,
    {
        if s[i + k] != p[k] {
            proof {
                assert(s@.subrange(i as int, i + p@.len())[k as int] == s@[i + k]);
            }
            return false;
        }
        proof {
            assert(s@.subrange(i as int, i + k + 1) =~= s@.subrange(i as int, i + k).push(
                s@[i + k],
            ));
            assert(p@.take(k + 1) =~= p@.take(k as int).push(p@[k as int]));
        }
        k += 1;
    }
    proof {
        assert(p@.take(p@.len() as int) =~= p@);
    }
    true
}

/// `str::find`: the leftmost occurrence of `p` in `s`.
pub fn find(s: &[char], p: &[char]) -> (r: Option<usize>)
    ensures
        match r {
            Some(i) => first_match(s@, p@) == Some(i as int),
            None => first_match(s@, p@) is None,
        },
{
    if p.len() > s.len() {
        proof {
            lemma_first_match(s@, p@);
        }
        return None;
    }
    if p.len() == 0 {
        proof {
            assert(s@.subrange(0, 0) =~= p@);
            lemma_first_match_unique(s@, p@, 0);
        }
        return Some(0);
    }
    let n = s.len();
    let last = n - p.len();
    let mut i: usize = 0;
    while i <= last
        invariant
            n == s@.len(),
            last + p@.len() == s@.len(),
            p@.len() > 0,
            i <= last + 1,
            forall|j: int| 0 <= j < i ==> !match_at(s@, p@, j),
        decreases last + 1 - i,
    {
        if matches_at(s, p, i) {
            proof {
                lemma_first_match_unique(s@, p@, i as int);
            }
            return Some(i);
        }
        i += 1;
    }
    proof {
        lemma_first_match(s@, p@);
    }
    None
}

/// `str::contains`.
pub fn contains_chars(s: &[char], p: &[char]) -> (b: bool)
    ensures
        b == contains(s@, p@),
{
    proof {
        lemma_first_match(s@, p@);
    }
    find(s, p).is_some()
}

/// `str::strip_prefix`, as a copy of the remainder.
pub fn strip_prefix_chars(s: &[char], p: &[char]) -> (r: Option<Vec<char>>)
    ensures
        match r {
            Some(v) => strip_prefix(s@, p@) == Some(v@),
            None => strip_prefix(s@, p@) is None,
        },
{
    if matches_at(s, p, 0) {
        proof {
            assert(s@.subrange(0, p@.len() as int) =~= s@.take(p@.len() as int));
        }
        let rest = copy_range(s, p.len(), s.len());
        proof {
            assert(s@.subrange(p@.len() as int, s@.len() as int) =~= s@.skip(p@.len() as int));
        }
        Some(rest)
    } else {
        proof {
            if p@.len() <= s@.len() {
                assert(s@.subrange(0, p@.len() as int) =~= s@.take(p@.len() as int));
            }
        }
        None
    }
}

/// `str::starts_with`.
pub fn starts_with_chars(s: &[char], p: &[char]) -> (b: bool)
    ensures
        b == starts_with(s@, p@),
{
    let r = matches_at(s, p, 0);
    proof {
        if p@.len() <= s@.len() {
            assert(s@.subrange(0, p@.len() as int) =~= s@.take(p@.len() as int));
        }
    }
    r
}

/// `s.split(p).nth(1)`.
pub fn split_second_chars(s: &[char], p: &[char]) -> (r: Option<Vec<char>>)
    ensures
        match r {
            Some(v) => split_second(s@, p@) == Some(v@),
            None => split_second(s@, p@) is None,
        },
{
    let n = s.len();
    match find(s, p) {
        Some(i) => {
            proof {
                lemma_first_match(s@, p@);
            }
            let rest = copy_range(s, i + p.len(), n);
            proof {
                assert(rest@ =~= s@.skip(i + p@.len()));
            }
            match find(&rest, p) {
                Some(j) => {
                    proof {
                        lemma_first_match(rest@, p@);
                    }
                    let piece = copy_range(&rest, 0, j);
                    proof {
                        assert(piece@ =~= rest@.take(j as int));
                    }
                    Some(piece)
                },
                None => Some(rest),
            }
        },
        None => None,
    }
}

/// `s.split_once(p)`, as copies.
pub fn split_once_chars(s: &[char], p: &[char]) -> (r: Option<(Vec<char>, Vec<char>)>)
    ensures
        match r {
            Some((a, b)) => split_once(s@, p@) == Some((a@, b@)),
            None => split_once(s@, p@) is None,
        },
{
    let n = s.len();
    match find(s, p) {
        Some(i) => {
            proof {
                lemma_first_match(s@, p@);
            }
            let a = copy_range(s, 0, i);
            let b = copy_range(s, i + p.len(), n);
            proof {
                assert(a@ =~= s@.take(i as int));
                assert(b@ =~= s@.skip(i + p@.len()));
            }
            Some((a, b))
        },
        None => None,
    }
}

/// `str::lines`.
pub fn lines_of(s: &[char]) -> (out: Vec<Vec<char>>)
    ensures
        views(out@) == lines(s@),
{
    let mut out: Vec<Vec<char>> = Vec::new();
    let mut cur: Vec<char> = Vec::new();
    let ghost mut done: Seq<Seq<char>> = seq![];
    let mut i: usize = 0;
    while i < s.len()
        invariant
            i <= s@.len(),
            line_pieces(s@.take(i as int)) == (if cur@.len() == 0 {
                done
            } else {
                done.push(cur@)
            }),
            forall|k: int| 0 <= k < done.len() ==> #[trigger] done[k].len() > 0 && done[k].last()
                == '\n',
            cur@.len() > 0 ==> cur@.last() != '\n',
            views(out@) == done.map_values(|p: Seq<char>| strip_line_end(p)),
        decreases s@.len() - i,
    {
        let c = s[i];
        let ghost old_cur = cur@;
        let ghost prev = line_pieces(s@.take(i as int));
        proof {
            assert(s@.take(i + 1).drop_last() =~= s@.take(i as int));
            assert(s@.take(i + 1).last() == c);
            assert(s@.take(i + 1).len() > 0);
            if old_cur.len() == 0 {
                assert(prev == done);
                if done.len() > 0 {
                    assert(done[done.len() - 1].len() > 0);
                }
                assert(line_pieces(s@.take(i + 1)) == done.push(seq![c]));
                assert(seq![c] =~= old_cur.push(c));
            } else {
                assert(prev == done.push(old_cur));
                assert(prev.last() == old_cur);
                assert(line_pieces(s@.take(i + 1)) == prev.update(prev.len() - 1, old_cur.push(c)));
                assert(prev.update(prev.len() - 1, old_cur.push(c)) =~= done.push(old_cur.push(c)));
            }
            assert(line_pieces(s@.take(i + 1)) == done.push(old_cur.push(c)));
        }
        cur.push(c);
        if c == '\n' {
            let ghost piece = cur@;
            let mut line = cur;
            line.pop();
            if line.len() > 0 && line[line.len() - 1] == '\r' {
                line.pop();
            }
            let ghost old_views = views(out@);
            proof {
                assert(piece.drop_last() =~= old_cur);
                assert(strip_line_end(piece) == line@);
            }
            out.push(line);
            cur = Vec::new();
            proof {
                let d2 = done.push(piece);
                assert(views(out@) =~= old_views.push(strip_line_end(piece)));
                assert(d2.map_values(|p: Seq<char>| strip_line_end(p)) =~= done.map_values(
                    |p: Seq<char>| strip_line_end(p),
                ).push(strip_line_end(piece)));
                assert forall|k: int| 0 <= k < d2.len() implies #[trigger] d2[k].len() > 0
                    && d2[k].last() == '\n' by {
                    if k < done.len() {
                        assert(d2[k] == done[k]);
                    }
                }
                done = d2;
            }
        }
        i += 1;
    }
    proof {
        assert(s@.take(s@.len() as int) =~= s@);
    }
    if cur.len() > 0 {
        let ghost old_views = views(out@);
        let ghost piece = cur@;
        proof {
            assert(strip_line_end(piece) == piece);
        }
        out.push(cur);
        proof {
            let d2 = done.push(piece);
            assert(views(out@) =~= old_views.push(piece));
            assert(d2.map_values(|p: Seq<char>| strip_line_end(p)) =~= done.map_values(
                |p: Seq<char>| strip_line_end(p),
            ).push(strip_line_end(piece)));
            done = d2;
        }
    }
    proof {
        assert(line_pieces(s@) == done);
    }
    out
}

/// The `u32` that the leading digits of `trim_start(s)` denote, as
/// `s.trim_start().chars().take_while(is_ascii_digit).collect::<String>()
/// .parse::<u32>().ok()` computes it.
pub fn leading_u32(s: &[char]) -> (r: Option<u32>)
    ensures
        r == parse_u32_digits(leading_digits(trim_start(s@))),
{
    let t = trim_start_chars(s);
    let mut k: usize = 0;
    while k < t.len() && is_ascii_digit(t[k])
        invariant
            k <= t@.len(),
            forall|j: int| 0 <= j < k ==> is_digit(t@[j]),
        decreases t@.len() - k,
    {
        k += 1;
    }
    proof {
        lemma_leading_digits(t@, k as int);
    }
    let ghost d = t@.take(k as int);
    if k == 0 {
        return None;
    }
    let mut v: u64 = 0;
    let mut i: usize = 0;
    while i < k
        invariant
            k <= t@.len(),
            d == t@.take(k as int),
            leading_digits(trim_start(s@)) == d,
            forall|j: int| 0 <= j < k ==> is_digit(t@[j]),
            i <= k,
            v == digits_value(d.take(i as int)),
            v <= u32::MAX,
        decreases k - i,
    {
        let dv = (t[i] as u32 - 0x30) as u64;
        proof {
            assert(d.take(i + 1).drop_last() =~= d.take(i as int));
            assert(d.take(i + 1).last() == t@[i as int]);
            assert(dv == digit_value(t@[i as int]));
            assert(digits_value(d.take(i + 1)) == digits_value(d.take(i as int)) * 10
                + digit_value(t@[i as int]));
        }
        v = v * 10 + dv;
        if v > 0xFFFF_FFFF {
            proof {
                lemma_digits_value_prefix(d, i + 1);
            }
            return None;
        }
        i += 1;
    }
    proof {
        assert(d.take(k as int) =~= d);
    }
    Some(v as u32)
}

/// Appends the decimal rendering of `n` to `out`.
pub fn push_decimal(out: &mut Vec<char>, n: u64)
    ensures
        final(out)@ == old(out)@ + decimal(n as nat),
    decreases n,
{
    if n >= 10 {
        push_decimal(out, n / 10);
    }
    let d = n % 10;
    let c = if d == 0 {
        '0'
    } else if d == 1 {
        '1'
    } else if d == 2 {
        '2'
    } else if d == 3 {
        '3'
    } else if d == 4 {
        '4'
    } else if d == 5 {
        '5'
    } else if d == 6 {
        '6'
    } else if d == 7 {
        '7'
    } else if d == 8 {
        '8'
    } else {
        '9'
    };
    out.push(c);
    proof {
        if n < 10 {
            assert(d == n);
        }
    }
}

/// Appends the decimal rendering of a signed `n` to `out`.
pub fn push_signed_decimal(out: &mut Vec<char>, n: i32)
    ensures
        final(out)@ == old(out)@ + signed_decimal(n as int),
{
    if n < 0 {
        out.push('-');
        let m: u64 = (0i64 - (n as i64)) as u64;
        push_decimal(out, m);
        proof {
            assert(old(out)@.push('-') + decimal(m as nat) =~= old(out)@ + (seq!['-'] + decimal(
                -(n as int) as nat,
            )));
        }
    } else {
        push_decimal(out, n as u64);
    }
}

/// `parts.join(sep)`.
pub fn join_chars(parts: &Vec<Vec<char>>, sep: &str) -> (out: Vec<char>)
    ensures
        out@ == join(views(parts@), sep@),
{
    let mut out: Vec<char> = Vec::new();
    let mut i: usize = 0;
    while i < parts.len()
        invariant
            i <= parts@.len(),
            out@ == join(views(parts@).take(i as int), sep@),
        decreases parts@.len() - i,
    {
        proof {
            assert(views(parts@).take(i + 1).drop_last() =~= views(parts@).take(i as int));
            assert(views(parts@).take(i + 1).last() == parts@[i as int]@);
        }
        if i > 0 {
            append_str(&mut out, sep);
        }
        append_chars(&mut out, parts[i].as_slice());
        proof {
            if i == 0 {
                assert(views(parts@).take(1)[0] == parts@[0]@);
            }
        }
        i += 1;
    }
    proof {
        assert(views(parts@).take(parts@.len() as int) =~= views(parts@));
    }
    out
}

/// `s.replace(from, to)`.
pub fn replace_chars(s: &[char], from: &[char], to: &[char]) -> (out: Vec<char>)
    requires
        from@.len() > 0,
    ensures
        out@ == replace_all(s@, from@, to@),
{
    let mut out: Vec<char> = Vec::new();
    let mut rest: Vec<char> = copy_range(s, 0, s.len());
    proof {
        assert(rest@ =~= s@);
    }
    while rest.len() > 0
        invariant
            from@.len() > 0,
            out@ + replace_all(rest@, from@, to@) == replace_all(s@, from@, to@),
        decreases rest@.len(),
    {
        match find(&rest, from) {
            Some(i) => {
                proof {
                    lemma_first_match(rest@, from@);
                }
                let head = copy_range(&rest, 0, i);
                let tail = copy_range(&rest, i + from.len(), rest.len());
                proof {
                    assert(head@ =~= rest@.take(i as int));
                    assert(tail@ =~= rest@.skip(i + from@.len()));
                    assert(out@ + head@ + to@ + replace_all(tail@, from@, to@) =~= out@
                        + replace_all(rest@, from@, to@));
                }
                append_chars(&mut out, &head);
                append_chars(&mut out, to);
                rest = tail;
            },
            None => {
                append_chars(&mut out, &rest);
                rest = Vec::new();
                proof {
                    assert(replace_all(rest@, from@, to@) =~= Seq::<char>::empty());
                }
            },
        }
    }
    proof {
        assert(replace_all(rest@, from@, to@) == rest@) by {
            lemma_first_match(rest@, from@);
        }
        assert(out@ + rest@ =~= out@);
    }
    out
}

} // verus!
