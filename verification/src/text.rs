//! Character-sequence utilities shared by the parsers and formatters.
//!
//! Text is handled as `Vec<char>` inside the library; the specifications speak
//! of `Seq<char>`, the view of both `String` and `Vec<char>`.
use vstd::prelude::*;

verus! {

/// Copies the characters of a string into a vector.
pub fn chars_of(s: &str) -> (r: Vec<char>)
    ensures
        r@ == s@,
{
    let mut r: Vec<char> = Vec::new();
    for c in it: s.chars()
        invariant
            r@ == it.seq().take(it.index() as int),
    {
        r.push(c);
    }
    r
}

/// Appends one character to a string (`String::push`).
#[verifier::external_body]
fn string_push(s: &mut String, c: char)
    ensures
        final(s)@ == old(s)@.push(c),
{
    s.push(c);
}

/// Builds a string from a character sequence.
pub fn string_of(v: &[char]) -> (r: String)
    ensures
        r@ == v@,
{
    let mut r = String::new();
    let mut i: usize = 0;
    while i < v.len()
        invariant
            i <= v@.len(),
            r@ == v@.take(i as int),
        decreases v@.len() - i,
    {
        string_push(&mut r, v[i]);
        i += 1;
        assert(r@ =~= v@.take(i as int));
    }
    assert(v@.take(i as int) =~= v@);
    r
}

/// The Unicode `White_Space` property, the set that `char::is_whitespace` tests.
pub open spec fn is_ws(c: char) -> bool {
    let u = c as u32;
    ||| (0x09 <= u && u <= 0x0d)
    ||| u == 0x20
    ||| u == 0x85
    ||| u == 0xa0
    ||| u == 0x1680
    ||| (0x2000 <= u && u <= 0x200a)
    ||| u == 0x2028
    ||| u == 0x2029
    ||| u == 0x202f
    ||| u == 0x205f
    ||| u == 0x3000
}

/// `char::is_whitespace`.
pub fn is_whitespace(c: char) -> (r: bool)
    ensures
        r == is_ws(c),
{
    let u = c as u32;
    (0x09 <= u && u <= 0x0d) || u == 0x20 || u == 0x85 || u == 0xa0 || u == 0x1680 || (0x2000 <= u
        && u <= 0x200a) || u == 0x2028 || u == 0x2029 || u == 0x202f || u == 0x205f || u == 0x3000
}

/// Number of leading whitespace characters.
pub open spec fn lead_ws(s: Seq<char>) -> nat
    decreases s.len(),
{
    if s.len() > 0 && is_ws(s[0]) {
        1 + lead_ws(s.drop_first())
    } else {
        0
    }
}

/// Number of trailing whitespace characters.
pub open spec fn trail_ws(s: Seq<char>) -> nat
    decreases s.len(),
{
    if s.len() > 0 && is_ws(s.last()) {
        1 + trail_ws(s.drop_last())
    } else {
        0
    }
}

/// `str::trim`: the text without leading and trailing whitespace.
pub open spec fn trim_spec(s: Seq<char>) -> Seq<char> {
    let t = s.skip(lead_ws(s) as int);
    t.take(t.len() - trail_ws(t))
}

proof fn lemma_lead_ws(s: Seq<char>, i: int)
    requires
        0 <= i <= s.len(),
        forall|j: int| 0 <= j < i ==> is_ws(#[trigger] s[j]),
        i == s.len() || !is_ws(s[i]),
    ensures
        lead_ws(s) == i,
    decreases i,
{
    if i > 0 {
        lemma_lead_ws(s.drop_first(), i - 1);
    }
}

proof fn lemma_trail_ws(s: Seq<char>, k: int)
    requires
        0 <= k <= s.len(),
        forall|j: int| s.len() - k <= j < s.len() ==> is_ws(#[trigger] s[j]),
        k == s.len() || !is_ws(s[s.len() - k - 1]),
    ensures
        trail_ws(s) == k,
    decreases k,
{
    if k > 0 {
        lemma_trail_ws(s.drop_last(), k - 1);
    }
}

/// Removes leading and trailing whitespace (`str::trim`).
pub fn trim(s: &[char]) -> (r: Vec<char>)
    ensures
        r@ == trim_spec(s@),
{
    let mut a: usize = 0;
    while a < s.len() && is_whitespace(s[a])
        invariant
            a <= s@.len(),
            forall|j: int| 0 <= j < a ==> is_ws(#[trigger] s@[j]),
        decreases s@.len() - a,
    {
        a += 1;
    }
    proof {
        lemma_lead_ws(s@, a as int);
    }
    let mut b: usize = s.len();
    while b > a && is_whitespace(s[b - 1])
        invariant
            a <= b <= s@.len(),
            forall|j: int| b <= j < s@.len() ==> is_ws(#[trigger] s@[j]),
        decreases b,
    {
        b -= 1;
    }
    let ghost t = s@.skip(a as int);
    proof {
        assert forall|j: int| t.len() - (s@.len() - b) <= j < t.len() implies is_ws(#[trigger] t[j]) by {
            assert(t[j] == s@[j + a]);
        }
        lemma_trail_ws(t, s@.len() - b);
    }
    let r = slice_range(s, a, b);
    assert(r@ =~= t.take(t.len() - trail_ws(t)));
    r
}

/// Copies `s[from..to]`.
pub fn slice_range(s: &[char], from: usize, to: usize) -> (r: Vec<char>)
    requires
        from <= to <= s@.len(),
    ensures
        r@ == s@.subrange(from as int, to as int),
{
    let mut r: Vec<char> = Vec::new();
    let mut i = from;
    while i < to
        invariant
            from <= i <= to <= s@.len(),
            r@ == s@.subrange(from as int, i as int),
        decreases to - i,
    {
        r.push(s[i]);
        i += 1;
        assert(r@ =~= s@.subrange(from as int, i as int));
    }
    r
}

/// Whether `s` holds `pat` at position `i`.
pub open spec fn occurs_at(s: Seq<char>, pat: Seq<char>, i: int) -> bool {
    0 <= i && i + pat.len() <= s.len() && s.subrange(i, i + pat.len()) == pat
}

/// `str::contains` for a string pattern.
pub open spec fn contains_spec(s: Seq<char>, pat: Seq<char>) -> bool {
    exists|i: int| occurs_at(s, pat, i)
}

/// Tests whether `pat` occurs in `s` at position `i`.
pub fn matches_at(s: &[char], pat: &[char], i: usize) -> (r: bool)
    ensures
        r == occurs_at(s@, pat@, i as int),
{
    if i > s.len() || pat.len() > s.len() - i {
        return false;
    }
    let mut k: usize = 0;
    while k < pat.len()
        invariant
            i + pat@.len() <= s@.len(),
            s@.len() <= usize::MAX,
            k <= pat@.len(),
            forall|j: int| 0 <= j < k ==> s@[i + j] == pat@[j],
        decreases pat@.len() - k,
    {
        if s[i + k] != pat[k] {
            assert(s@.subrange(i as int, i + pat@.len())[k as int] != pat@[k as int]);
            return false;
        }
        k += 1;
    }
    assert(s@.subrange(i as int, i + pat@.len()) =~= pat@);
    true
}

/// `str::starts_with` for a string pattern.
pub fn starts_with(s: &[char], pat: &[char]) -> (r: bool)
    ensures
        r == occurs_at(s@, pat@, 0),
{
    matches_at(s, pat, 0)
}

/// `str::find`: the position of the first occurrence of `pat`.
#[verifier::opaque]
pub open spec fn find_spec(s: Seq<char>, pat: Seq<char>) -> Option<int> {
    if exists|i: int| occurs_at(s, pat, i) {
        Some(choose|i: int| occurs_at(s, pat, i) && forall|j: int| 0 <= j < i ==> !occurs_at(s, pat, j))
    } else {
        None
    }
}

/// The first occurrence of `pat` in `s` at or after `from`.
pub fn find_from(s: &[char], pat: &[char], from: usize) -> (r: Option<usize>)
    ensures
        match r {
            Some(i) => from <= i && occurs_at(s@, pat@, i as int) && forall|j: int|
                from <= j < i ==> !occurs_at(s@, pat@, j),
            None => forall|j: int| from <= j ==> !occurs_at(s@, pat@, j),
        },
{
    if from > s.len() {
        return None;
    }
    let mut i = from;
    loop
        invariant
            from <= i <= s@.len(),
            forall|j: int| from <= j < i ==> !occurs_at(s@, pat@, j),
        decreases s@.len() - i,
    {
        if matches_at(s, pat, i) {
            return Some(i);
        }
        if i == s.len() {
            return None;
        }
        i += 1;
    }
}

/// `str::find` for a string pattern.
pub fn find(s: &[char], pat: &[char]) -> (r: Option<usize>)
    ensures
        r matches Some(i) ==> find_spec(s@, pat@) == Some(i as int) && occurs_at(s@, pat@, i as int),
        r is None ==> find_spec(s@, pat@) is None,
{
    let r = find_from(s, pat, 0);
    proof {
        reveal(find_spec);
        if let Some(i) = r {
            assert(occurs_at(s@, pat@, i as int));
            let c = choose|k: int| occurs_at(s@, pat@, k) && forall|j: int| 0 <= j < k ==> !occurs_at(s@, pat@, j);
            assert(occurs_at(s@, pat@, c) && forall|j: int| 0 <= j < c ==> !occurs_at(s@, pat@, j));
            if c < i {
                assert(!occurs_at(s@, pat@, c));
            }
            if c > i {
                assert(!occurs_at(s@, pat@, i as int));
            }
        } else {
            assert forall|j: int| !occurs_at(s@, pat@, j) by {
                if j >= 0 {
                    assert(!occurs_at(s@, pat@, j));
                }
            }
        }
    }
    r
}

/// `str::contains` for a string pattern.
pub fn contains(s: &[char], pat: &[char]) -> (r: bool)
    ensures
        r == contains_spec(s@, pat@),
{
    let r = find_from(s, pat, 0);
    proof {
        if r is None {
            assert forall|j: int| !occurs_at(s@, pat@, j) by {
                if j >= 0 {
                    assert(!occurs_at(s@, pat@, j));
                }
            }
        }
    }
    r.is_some()
}

/// `str::rfind`: the position of the last occurrence of `pat`.
#[verifier::opaque]
pub open spec fn rfind_spec(s: Seq<char>, pat: Seq<char>) -> Option<int> {
    if exists|i: int| occurs_at(s, pat, i) {
        Some(choose|i: int| occurs_at(s, pat, i) && forall|j: int| i < j ==> !occurs_at(s, pat, j))
    } else {
        None
    }
}

/// `str::rfind` for a string pattern.
pub fn rfind(s: &[char], pat: &[char]) -> (r: Option<usize>)
    ensures
        r matches Some(i) ==> rfind_spec(s@, pat@) == Some(i as int) && occurs_at(s@, pat@, i as int),
        r is None ==> rfind_spec(s@, pat@) is None,
{
    let mut i = s.len();
    loop
        invariant
            i <= s@.len(),
            forall|j: int| i < j ==> !occurs_at(s@, pat@, j),
        decreases i,
    {
        if matches_at(s, pat, i) {
            proof {
                reveal(rfind_spec);
                let c = choose|k: int| occurs_at(s@, pat@, k) && forall|j: int| k < j ==> !occurs_at(s@, pat@, j);
                assert(occurs_at(s@, pat@, i as int));
                assert(occurs_at(s@, pat@, c) && forall|j: int| c < j ==> !occurs_at(s@, pat@, j));
                if c < i {
                    assert(!occurs_at(s@, pat@, i as int));
                }
            }
            return Some(i);
        }
        if i == 0 {
            proof {
                reveal(rfind_spec);
                assert forall|j: int| !occurs_at(s@, pat@, j) by {
                    if j >= 0 {
                        assert(!occurs_at(s@, pat@, j));
                    }
                }
            }
            return None;
        }
        i -= 1;
    }
}


/// The first occurrence characterizes `find_spec`.
pub proof fn lemma_find_spec_is(s: Seq<char>, pat: Seq<char>, i: int)
    requires
        occurs_at(s, pat, i),
        forall|j: int| 0 <= j < i ==> !occurs_at(s, pat, j),
    ensures
        find_spec(s, pat) == Some(i),
{
    reveal(find_spec);
    let c = choose|k: int| occurs_at(s, pat, k) && forall|j: int| 0 <= j < k ==> !occurs_at(s, pat, j);
    assert(occurs_at(s, pat, c) && forall|j: int| 0 <= j < c ==> !occurs_at(s, pat, j));
    if c < i {
        assert(!occurs_at(s, pat, c));
    }
    if c > i {
        assert(!occurs_at(s, pat, i));
    }
}

/// Occurrences in a suffix are occurrences in the whole text, shifted.
pub proof fn lemma_occurs_skip(s: Seq<char>, pat: Seq<char>, p: int, j: int)
    requires
        0 <= p <= s.len(),
        0 <= j,
    ensures
        occurs_at(s.skip(p), pat, j) <==> occurs_at(s, pat, j + p),
{
    if j + pat.len() <= s.len() - p {
        assert(s.skip(p).subrange(j, j + pat.len()) =~= s.subrange(j + p, j + p + pat.len()));
    }
}

/// `str::replace` with a non-empty pattern: every non-overlapping occurrence,
/// taken from the left, is replaced.
#[verifier::opaque]
pub open spec fn replace_spec(s: Seq<char>, pat: Seq<char>, rep: Seq<char>) -> Seq<char>
    decreases s.len(),
{
    if pat.len() == 0 {
        s
    } else {
        match find_spec(s, pat) {
            None => s,
            Some(i) => if 0 <= i && i + pat.len() <= s.len() {
                s.take(i) + rep + replace_spec(s.skip(i + pat.len()), pat, rep)
            } else {
                s
            },
        }
    }
}

/// One step of `replace_spec`: the text up to the next occurrence, the
/// replacement, and the rest replaced.
proof fn lemma_replace_step(s: Seq<char>, pat: Seq<char>, rep: Seq<char>, pos: int, i: int)
    requires
        pat.len() > 0,
        0 <= pos <= i,
        occurs_at(s, pat, i),
        forall|j: int| pos <= j < i ==> !occurs_at(s, pat, j),
    ensures
        replace_spec(s.skip(pos), pat, rep) == s.subrange(pos, i) + rep + replace_spec(
            s.skip(i + pat.len()),
            pat,
            rep,
        ),
{
    reveal(replace_spec);
    let t = s.skip(pos);
    lemma_occurs_skip(s, pat, pos, i - pos);
    assert forall|j: int| 0 <= j < i - pos implies !occurs_at(t, pat, j) by {
        lemma_occurs_skip(s, pat, pos, j);
    }
    lemma_find_spec_is(t, pat, i - pos);
    assert(t.take(i - pos) =~= s.subrange(pos, i));
    assert(t.skip(i - pos + pat.len()) =~= s.skip(i + pat.len()));
}

/// Without a further occurrence, `replace_spec` leaves the rest as it is.
proof fn lemma_replace_none(s: Seq<char>, pat: Seq<char>, rep: Seq<char>, pos: int)
    requires
        pat.len() > 0,
        0 <= pos <= s.len(),
        forall|j: int| pos <= j ==> !occurs_at(s, pat, j),
    ensures
        replace_spec(s.skip(pos), pat, rep) == s.skip(pos),
{
    reveal(replace_spec);
    reveal(find_spec);
    let t = s.skip(pos);
    assert forall|j: int| !occurs_at(t, pat, j) by {
        if j >= 0 {
            lemma_occurs_skip(s, pat, pos, j);
        }
    }
}

/// A text without the first character of a pattern is left as it is by
/// replacing that pattern.
pub proof fn lemma_replace_absent(s: Seq<char>, pat: Seq<char>, rep: Seq<char>)
    requires
        pat.len() > 0,
        forall|i: int| 0 <= i < s.len() ==> s[i] != pat[0],
    ensures
        replace_spec(s, pat, rep) == s,
{
    assert forall|j: int| 0 <= j implies !occurs_at(s, pat, j) by {
        if occurs_at(s, pat, j) {
            assert(s.subrange(j, j + pat.len())[0] == s[j]);
        }
    }
    lemma_replace_none(s, pat, rep, 0);
    assert(s.skip(0) =~= s);
}

/// Replaces every occurrence of a non-empty pattern (`str::replace`).
pub fn replace_all(s: &[char], pat: &[char], rep: &[char]) -> (r: Vec<char>)
    requires
        pat@.len() > 0,
    ensures
        r@ == replace_spec(s@, pat@, rep@),
{
    let mut out: Vec<char> = Vec::new();
    let mut pos: usize = 0;
    assert(s@.skip(0) =~= s@);
    assert(out@ + replace_spec(s@.skip(0), pat@, rep@) =~= replace_spec(s@, pat@, rep@));
    loop
        invariant
            pos <= s@.len(),
            pat@.len() > 0,
            out@ + replace_spec(s@.skip(pos as int), pat@, rep@) == replace_spec(s@, pat@, rep@),
        decreases s@.len() - pos,
    {
        match find_from(s, pat, pos) {
            None => {
                proof {
                    lemma_replace_none(s@, pat@, rep@, pos as int);
                }
                let tail = slice_range(s, pos, s.len());
                let ghost old_out = out@;
                out.extend_from_slice(tail.as_slice());
                assert(tail@ =~= s@.skip(pos as int));
                return out;
            },
            Some(i) => {
                proof {
                    lemma_replace_step(s@, pat@, rep@, pos as int, i as int);
                }
                let piece = slice_range(s, pos, i);
                let ghost old_out = out@;
                out.extend_from_slice(piece.as_slice());
                out.extend_from_slice(rep);
                assert(pat.len() <= s.len() - i);
                let next = i + pat.len();
                assert(out@ + replace_spec(s@.skip(next as int), pat@, rep@) =~= old_out + (
                piece@ + rep@ + replace_spec(s@.skip(next as int), pat@, rep@)));
                pos = next;
            },
        }
    }
}

/// The character of a decimal digit.
pub open spec fn digit_char(d: nat) -> char {
    (('0' as u32) + d) as char
}

/// Decimal representation of a natural number, as `{}` prints it.
pub open spec fn decimal(n: nat) -> Seq<char>
    decreases n,
{
    if n < 10 {
        seq![digit_char(n)]
    } else {
        decimal(n / 10).push(digit_char(n % 10))
    }
}

/// Decimal representation padded with zeros to width two, as `{:02}` prints it.
pub open spec fn decimal2(n: nat) -> Seq<char> {
    if n < 10 {
        seq!['0'] + decimal(n)
    } else {
        decimal(n)
    }
}

/// Formats a number in decimal.
pub fn decimal_chars(n: u64) -> (r: Vec<char>)
    ensures
        r@ == decimal(n as nat),
    decreases n,
{
    let d = char_from_digit(n % 10);
    if n < 10 {
        let mut v: Vec<char> = Vec::new();
        v.push(d);
        assert(v@ =~= seq![digit_char(n as nat)]);
        v
    } else {
        let mut v = decimal_chars(n / 10);
        v.push(d);
        v
    }
}

/// The digit character of `d < 10`.
pub fn char_from_digit(d: u64) -> (c: char)
    requires
        d < 10,
    ensures
        c == digit_char(d as nat),
{
    if d == 0 { '0' }
    else if d == 1 { '1' }
    else if d == 2 { '2' }
    else if d == 3 { '3' }
    else if d == 4 { '4' }
    else if d == 5 { '5' }
    else if d == 6 { '6' }
    else if d == 7 { '7' }
    else if d == 8 { '8' }
    else { '9' }
}

/// Formats a number in decimal, zero-padded to width two.
pub fn decimal2_chars(n: u64) -> (r: Vec<char>)
    ensures
        r@ == decimal2(n as nat),
{
    let v = decimal_chars(n);
    if n < 10 {
        let mut p: Vec<char> = Vec::new();
        p.push('0');
        p.extend_from_slice(v.as_slice());
        assert(p@ =~= seq!['0'] + decimal(n as nat));
        p
    } else {
        v
    }
}

/// Bytes taken by one character in UTF-8.
pub open spec fn utf8_width(c: char) -> nat {
    let u = c as u32;
    if u < 0x80 {
        1
    } else if u < 0x800 {
        2
    } else if u < 0x10000 {
        3
    } else {
        4
    }
}

/// Bytes taken by a text in UTF-8 (`str::len`).
pub open spec fn utf8_len(s: Seq<char>) -> nat
    decreases s.len(),
{
    if s.len() == 0 {
        0
    } else {
        utf8_len(s.drop_last()) + utf8_width(s.last())
    }
}

/// `utf8_len`, saturated at the largest `usize`.
pub open spec fn utf8_len_sat(s: Seq<char>) -> nat {
    if utf8_len(s) < usize::MAX {
        utf8_len(s)
    } else {
        usize::MAX as nat
    }
}

/// The UTF-8 length of a text, saturated at the largest `usize`.
pub fn byte_len(s: &[char]) -> (r: usize)
    ensures
        r == utf8_len_sat(s@),
{
    let mut n: usize = 0;
    let mut i: usize = 0;
    while i < s.len()
        invariant
            i <= s@.len(),
            n == utf8_len_sat(s@.take(i as int)),
        decreases s@.len() - i,
    {
        let c = s[i];
        let u = c as u32;
        let w: usize = if u < 0x80 {
            1
        } else if u < 0x800 {
            2
        } else if u < 0x10000 {
            3
        } else {
            4
        };
        assert(s@.take(i + 1).drop_last() =~= s@.take(i as int));
        n = if n >= usize::MAX - w { usize::MAX } else { n + w };
        i += 1;
    }
    assert(s@.take(i as int) =~= s@);
    n
}

/// State of `str::lines` after a prefix: finished lines and the line in progress.
pub open spec fn lines_fold(s: Seq<char>) -> (Seq<Seq<char>>, Seq<char>)
    decreases s.len(),
{
    if s.len() == 0 {
        (seq![], seq![])
    } else {
        let (done, cur) = lines_fold(s.drop_last());
        if s.last() == '\n' {
            (done.push(strip_cr(cur)), seq![])
        } else {
            (done, cur.push(s.last()))
        }
    }
}

/// A line without a final carriage return.
pub open spec fn strip_cr(line: Seq<char>) -> Seq<char> {
    if line.len() > 0 && line.last() == '\r' {
        line.drop_last()
    } else {
        line
    }
}

/// `str::lines`: the text split at `\n` (and `\r\n`), without a final empty line.
pub open spec fn lines_spec(s: Seq<char>) -> Seq<Seq<char>> {
    let (done, cur) = lines_fold(s);
    if cur.len() > 0 {
        done.push(cur)
    } else {
        done
    }
}

/// Splits a text into lines (`str::lines`).
pub fn lines(s: &[char]) -> (r: Vec<Vec<char>>)
    ensures
        r@.len() == lines_spec(s@).len(),
        forall|k: int| 0 <= k < r@.len() ==> #[trigger] r@[k]@ == lines_spec(s@)[k],
{
    let mut done: Vec<Vec<char>> = Vec::new();
    let mut cur: Vec<char> = Vec::new();
    let mut i: usize = 0;
    while i < s.len()
        invariant
            i <= s@.len(),
            done@.len() == lines_fold(s@.take(i as int)).0.len(),
            forall|k: int| 0 <= k < done@.len() ==> #[trigger] done@[k]@ == lines_fold(s@.take(i as int)).0[k],
            cur@ == lines_fold(s@.take(i as int)).1,
        decreases s@.len() - i,
    {
        let c = s[i];
        assert(s@.take(i + 1).drop_last() =~= s@.take(i as int));
        if c == '\n' {
            let mut line = cur;
            if line.len() > 0 && line[line.len() - 1] == '\r' {
                line.pop();
            }
            assert(line@ =~= strip_cr(lines_fold(s@.take(i as int)).1));
            done.push(line);
            cur = Vec::new();
            assert(cur@ =~= Seq::<char>::empty());
        } else {
            cur.push(c);
        }
        i += 1;
    }
    assert(s@.take(i as int) =~= s@);
    if cur.len() > 0 {
        done.push(cur);
    }
    done
}

/// State of `str::split_whitespace` after a prefix: finished words and the word in progress.
pub open spec fn words_fold(s: Seq<char>) -> (Seq<Seq<char>>, Seq<char>)
    decreases s.len(),
{
    if s.len() == 0 {
        (seq![], seq![])
    } else {
        let (done, cur) = words_fold(s.drop_last());
        if is_ws(s.last()) {
            if cur.len() > 0 {
                (done.push(cur), seq![])
            } else {
                (done, seq![])
            }
        } else {
            (done, cur.push(s.last()))
        }
    }
}

/// `str::split_whitespace`: the maximal runs of non-whitespace characters.
pub open spec fn words_spec(s: Seq<char>) -> Seq<Seq<char>> {
    let (done, cur) = words_fold(s);
    if cur.len() > 0 {
        done.push(cur)
    } else {
        done
    }
}

/// Splits a text at whitespace (`str::split_whitespace`).
pub fn words(s: &[char]) -> (r: Vec<Vec<char>>)
    ensures
        r@.len() == words_spec(s@).len(),
        forall|k: int| 0 <= k < r@.len() ==> #[trigger] r@[k]@ == words_spec(s@)[k],
{
    let mut done: Vec<Vec<char>> = Vec::new();
    let mut cur: Vec<char> = Vec::new();
    let mut i: usize = 0;
    while i < s.len()
        invariant
            i <= s@.len(),
            done@.len() == words_fold(s@.take(i as int)).0.len(),
            forall|k: int| 0 <= k < done@.len() ==> #[trigger] done@[k]@ == words_fold(s@.take(i as int)).0[k],
            cur@ == words_fold(s@.take(i as int)).1,
        decreases s@.len() - i,
    {
        let c = s[i];
        assert(s@.take(i + 1).drop_last() =~= s@.take(i as int));
        if is_whitespace(c) {
            if cur.len() > 0 {
                done.push(cur);
            }
            cur = Vec::new();
            assert(cur@ =~= Seq::<char>::empty());
        } else {
            cur.push(c);
        }
        i += 1;
    }
    assert(s@.take(i as int) =~= s@);
    if cur.len() > 0 {
        done.push(cur);
    }
    done
}

/// What `str::to_lowercase` returns for a text.
pub uninterp spec fn lowercase_of(s: Seq<char>) -> Seq<char>;

/// `str::to_lowercase`: the text with every character mapped to its Unicode
/// lowercase form. The contract names the result and states nothing more of it.
#[verifier::external_body]
pub(crate) fn to_lowercase(s: &str) -> (r: String)
    ensures
        r@ == lowercase_of(s@),
{
    s.to_lowercase()
}

/// Compares two character slices.
pub fn chars_eq(a: &[char], b: &[char]) -> (r: bool)
    ensures
        r == (a@ == b@),
{
    if a.len() != b.len() {
        return false;
    }
    let mut i: usize = 0;
    while i < a.len()
        invariant
            a@.len() == b@.len(),
            i <= a@.len(),
            forall|j: int| 0 <= j < i ==> a@[j] == b@[j],
        decreases a@.len() - i,
    {
        if a[i] != b[i] {
            return false;
        }
        i += 1;
    }
    assert(a@ =~= b@);
    true
}

/// Compares two strings.
pub fn str_eq(a: &str, b: &str) -> (r: bool)
    ensures
        r == (a@ == b@),
{
    let x = chars_of(a);
    let y = chars_of(b);
    chars_eq(x.as_slice(), y.as_slice())
}

} // verus!
