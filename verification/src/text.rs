//! Text primitives over `Seq<char>`: the whitespace, case and splitting rules
//! that every status line, command parser and filter of the commander uses.
use vstd::prelude::*;

verus! {

/// Unicode `White_Space`, the set that `str::trim` and `split_whitespace` use.
pub open spec fn is_ws(c: char) -> bool {
    ||| c == ' '
    ||| ('\t' <= c && c <= '\r')
    ||| c == '\u{85}'
    ||| c == '\u{A0}'
    ||| c == '\u{1680}'
    ||| ('\u{2000}' <= c && c <= '\u{200A}')
    ||| c == '\u{2028}'
    ||| c == '\u{2029}'
    ||| c == '\u{202F}'
    ||| c == '\u{205F}'
    ||| c == '\u{3000}'
}

pub open spec fn lower_char(c: char) -> char {
    if 'A' <= c && c <= 'Z' {
        ((c as u32) + 32) as char
    } else {
        c
    }
}

/// ASCII lower-casing; other characters are kept.
pub open spec fn lower(s: Seq<char>) -> Seq<char> {
    s.map_values(|c: char| lower_char(c))
}

/// `eq_ignore_ascii_case`.
pub open spec fn eq_ic(a: Seq<char>, b: Seq<char>) -> bool {
    lower(a) == lower(b)
}

pub open spec fn trim_start(s: Seq<char>) -> Seq<char>
    decreases s.len(),
{
    if s.len() > 0 && is_ws(s[0]) {
        trim_start(s.drop_first())
    } else {
        s
    }
}

pub open spec fn trim_end(s: Seq<char>) -> Seq<char>
    decreases s.len(),
{
    if s.len() > 0 && is_ws(s.last()) {
        trim_end(s.drop_last())
    } else {
        s
    }
}

pub open spec fn trim(s: Seq<char>) -> Seq<char> {
    trim_end(trim_start(s))
}

/// A text with nothing but whitespace in it.
pub open spec fn blank(s: Seq<char>) -> bool {
    trim(s).len() == 0
}

pub open spec fn starts_with(s: Seq<char>, p: Seq<char>) -> bool {
    p.len() <= s.len() && s.subrange(0, p.len() as int) == p
}

pub open spec fn ends_with(s: Seq<char>, p: Seq<char>) -> bool {
    p.len() <= s.len() && s.subrange(s.len() - p.len(), s.len() as int) == p
}

pub open spec fn occurs_at(s: Seq<char>, p: Seq<char>, i: int) -> bool {
    0 <= i && i + p.len() <= s.len() && s.subrange(i, i + p.len()) == p
}

/// `p` is a substring of `s`.
pub open spec fn contains(s: Seq<char>, p: Seq<char>) -> bool {
    exists|i: int| occurs_at(s, p, i)
}

/// Word splitting, one character at a time: finished words and the word in progress.
pub open spec fn word_scan(s: Seq<char>) -> (Seq<Seq<char>>, Seq<char>)
    decreases s.len(),
{
    if s.len() == 0 {
        (Seq::empty(), Seq::empty())
    } else {
        let (done, cur) = word_scan(s.drop_last());
        if is_ws(s.last()) {
            if cur.len() > 0 {
                (done.push(cur), Seq::empty())
            } else {
                (done, cur)
            }
        } else {
            (done, cur.push(s.last()))
        }
    }
}

/// `split_whitespace`.
pub open spec fn words(s: Seq<char>) -> Seq<Seq<char>> {
    let (done, cur) = word_scan(s);
    if cur.len() > 0 {
        done.push(cur)
    } else {
        done
    }
}

/// The first word, or the empty text when there is none.
pub open spec fn first_word(s: Seq<char>) -> Seq<char> {
    if words(s).len() > 0 {
        words(s)[0]
    } else {
        Seq::empty()
    }
}

/// `join` of texts with a separator.
pub open spec fn join(parts: Seq<Seq<char>>, sep: Seq<char>) -> Seq<char>
    decreases parts.len(),
{
    if parts.len() == 0 {
        Seq::empty()
    } else if parts.len() == 1 {
        parts[0]
    } else {
        join(parts.drop_last(), sep) + sep + parts.last()
    }
}

pub open spec fn strip_cr(line: Seq<char>) -> Seq<char> {
    if line.len() > 0 && line.last() == '\r' {
        line.drop_last()
    } else {
        line
    }
}

/// Line splitting, one character at a time: finished lines and the line in progress.
pub open spec fn line_scan(s: Seq<char>) -> (Seq<Seq<char>>, Seq<char>)
    decreases s.len(),
{
    if s.len() == 0 {
        (Seq::empty(), Seq::empty())
    } else {
        let (done, cur) = line_scan(s.drop_last());
        if s.last() == '\n' {
            (done.push(strip_cr(cur)), Seq::empty())
        } else {
            (done, cur.push(s.last()))
        }
    }
}

/// `str::lines`: split at `\n`, drop one `\r` before it, no empty line after a final `\n`.
pub open spec fn lines(s: Seq<char>) -> Seq<Seq<char>> {
    let (done, cur) = line_scan(s);
    if cur.len() > 0 {
        done.push(cur)
    } else {
        done
    }
}

pub open spec fn digit(d: nat) -> char {
    (('0' as u32) + d) as char
}

/// Decimal digits of a natural number.
pub open spec fn dec(n: nat) -> Seq<char>
    decreases n,
{
    if n < 10 {
        seq![digit(n)]
    } else {
        dec(n / 10).push(digit(n % 10))
    }
}

/// Decimal form of an integer, with a leading `-` when negative.
pub open spec fn dec_int(n: int) -> Seq<char> {
    if n < 0 {
        seq!['-'] + dec((-n) as nat)
    } else {
        dec(n as nat)
    }
}

/// `true` / `false`.
pub open spec fn bool_text(b: bool) -> Seq<char> {
    if b {
        seq!['t', 'r', 'u', 'e']
    } else {
        seq!['f', 'a', 'l', 's', 'e']
    }
}

/// The texts of a list of strings.
pub open spec fn views(v: Seq<String>) -> Seq<Seq<char>> {
    v.map_values(|s: String| s@)
}

// ---------------------------------------------------------------------------
// Facts
// ---------------------------------------------------------------------------

/// Lower-casing keeps the length.
pub proof fn lemma_lower_len(s: Seq<char>)
    ensures
        lower(s).len() == s.len(),
{
}

/// Trimming the start leaves a suffix that starts with a non-space.
pub proof fn lemma_trim_start_suffix(s: Seq<char>)
    ensures
        trim_start(s).len() <= s.len(),
        trim_start(s) == s.subrange(s.len() - trim_start(s).len(), s.len() as int),
        trim_start(s).len() > 0 ==> !is_ws(trim_start(s)[0]),
    decreases s.len(),
{
    if s.len() > 0 && is_ws(s[0]) {
        lemma_trim_start_suffix(s.drop_first());
        assert(s.drop_first().subrange(
            s.drop_first().len() - trim_start(s).len(),
            s.drop_first().len() as int,
        ) =~= s.subrange(s.len() - trim_start(s).len(), s.len() as int));
    } else {
        assert(s.subrange(0, s.len() as int) =~= s);
    }
}

/// Trimming the end leaves a prefix that ends with a non-space.
pub proof fn lemma_trim_end_prefix(s: Seq<char>)
    ensures
        trim_end(s).len() <= s.len(),
        trim_end(s) == s.subrange(0, trim_end(s).len() as int),
        trim_end(s).len() > 0 ==> !is_ws(trim_end(s).last()),
    decreases s.len(),
{
    if s.len() > 0 && is_ws(s.last()) {
        lemma_trim_end_prefix(s.drop_last());
        assert(s.drop_last().subrange(0, trim_end(s).len() as int) =~= s.subrange(
            0,
            trim_end(s).len() as int,
        ));
    } else {
        assert(s.subrange(0, s.len() as int) =~= s);
    }
}

/// Trimming twice trims nothing more.
pub proof fn lemma_trim_idempotent(s: Seq<char>)
    ensures
        trim(trim(s)) == trim(s),
{
    let t = trim(s);
    lemma_trim_start_suffix(s);
    lemma_trim_end_prefix(trim_start(s));
    if t.len() > 0 {
        assert(t[0] == trim_start(s)[0]);
        assert(trim_start(t) == t);
        assert(trim_end(t) == t);
    } else {
        assert(trim_start(t) == t);
        assert(trim_end(t) == t);
    }
}

/// A text that neither starts nor ends with whitespace is its own trim.
pub proof fn lemma_no_ws_trim(s: Seq<char>)
    requires
        s.len() == 0 || (!is_ws(s[0]) && !is_ws(s.last())),
    ensures
        trim(s) == s,
{
}

/// A text that is its own trim neither starts nor ends with whitespace.
pub proof fn lemma_trim_fixed(s: Seq<char>)
    requires
        trim(s) == s,
        s.len() > 0,
    ensures
        !is_ws(s[0]),
        !is_ws(s.last()),
{
    lemma_trim_start_suffix(s);
    lemma_trim_end_prefix(trim_start(s));
    if is_ws(s[0]) {
        assert(trim_start(s).len() < s.len());
    }
    if is_ws(s.last()) {
        assert(trim_start(s) == s);
        assert(trim_end(s).len() < s.len());
    }
}

/// Lower-casing goes piece by piece.
pub proof fn lemma_lower_concat(a: Seq<char>, b: Seq<char>)
    ensures
        lower(a + b) == lower(a) + lower(b),
{
    assert(lower(a + b) =~= lower(a) + lower(b));
}

/// A decimal form has at least one digit.
pub proof fn lemma_dec_nonempty(n: nat)
    ensures
        dec(n).len() >= 1,
    decreases n,
{
    if n >= 10 {
        lemma_dec_nonempty(n / 10);
    }
}

// ---------------------------------------------------------------------------
// Executable text operations
// ---------------------------------------------------------------------------

/// The characters of a text.
pub fn chars_of(s: &str) -> (v: Vec<char>)
    ensures
        v@ == s@,
{
    let n = s.unicode_len();
    let mut v: Vec<char> = Vec::new();
    let mut i: usize = 0;
    while i < n
        invariant
            n == s@.len(),
            i <= n,
            v@ == s@.subrange(0, i as int),
        decreases n - i,
    {
        v.push(s.get_char(i));
        i = i + 1;
    }
    v
}

/// A `String` of the given characters, in order.
pub(crate) fn string_of(v: &Vec<char>) -> (s: String)
    ensures
        s@ == v@,
{
    let mut s = String::new();
    let mut i: usize = 0;
    while i < v.len()
        invariant
            i <= v.len(),
            s@ == v@.subrange(0, i as int),
        decreases v.len() - i,
    {
        push_char(&mut s, v[i]);
        assert(v@.subrange(0, i + 1) =~= v@.subrange(0, i as int).push(v@[i as int]));
        i = i + 1;
    }
    assert(v@.subrange(0, v.len() as int) =~= v@);
    s
}

/// Appends one character with `String::push`, which std documents as adding
/// the character at the end.
#[verifier::external_body]
pub(crate) fn push_char(s: &mut String, c: char)
    ensures
        final(s)@ == old(s)@.push(c),
{
    s.push(c)
}

/// A `String` with the same characters.
pub fn owned(s: &str) -> (r: String)
    ensures
        r@ == s@,
{
    s.to_owned()
}

/// Concatenation of two texts.
pub fn cat(a: &str, b: &str) -> (r: String)
    ensures
        r@ == a@ + b@,
{
    let mut r = owned(a);
    r.append(b);
    r
}

pub fn ascii_lower_char(c: char) -> (r: char)
    ensures
        r == lower_char(c),
{
    if 'A' <= c && c <= 'Z' {
        ((c as u8) + 32) as char
    } else {
        c
    }
}

pub fn is_ws_char(c: char) -> (b: bool)
    ensures
        b == is_ws(c),
{
    c == ' ' || ('\t' <= c && c <= '\r') || c == '\u{85}' || c == '\u{A0}' || c == '\u{1680}'
        || ('\u{2000}' <= c && c <= '\u{200A}') || c == '\u{2028}' || c == '\u{2029}' || c
        == '\u{202F}' || c == '\u{205F}' || c == '\u{3000}'
}

/// Equality of two texts.
pub fn same(a: &str, b: &str) -> (r: bool)
    ensures
        r == (a@ == b@),
{
    let x = chars_of(a);
    let y = chars_of(b);
    if x.len() != y.len() {
        return false;
    }
    let mut i: usize = 0;
    while i < x.len()
        invariant
            x@ == a@,
            y@ == b@,
            x.len() == y.len(),
            i <= x.len(),
            forall|j: int| 0 <= j < i ==> x@[j] == y@[j],
        decreases x.len() - i,
    {
        if x[i] != y[i] {
            return false;
        }
        i = i + 1;
    }
    assert(x@ =~= y@);
    true
}

/// `to_ascii_lowercase`.
pub fn to_lower(s: &str) -> (r: String)
    ensures
        r@ == lower(s@),
{
    let x = chars_of(s);
    let mut out: Vec<char> = Vec::new();
    let mut i: usize = 0;
    while i < x.len()
        invariant
            x@ == s@,
            i <= x.len(),
            out@ == lower(s@.subrange(0, i as int)),
        decreases x.len() - i,
    {
        out.push(ascii_lower_char(x[i]));
        i = i + 1;
        assert(lower(s@.subrange(0, i as int)) =~= lower(s@.subrange(0, i - 1)).push(
            lower_char(s@[i - 1]),
        ));
    }
    assert(s@.subrange(0, x.len() as int) =~= s@);
    string_of(&out)
}

/// `eq_ignore_ascii_case`.
pub fn eq_ignore_case(a: &str, b: &str) -> (r: bool)
    ensures
        r == eq_ic(a@, b@),
{
    let x = to_lower(a);
    let y = to_lower(b);
    x == y
}

/// Index of the first non-whitespace character, or the length.
fn start_of_text(x: &Vec<char>) -> (k: usize)
    ensures
        k <= x.len(),
        trim_start(x@) == x@.subrange(k as int, x.len() as int),
{
    let mut k: usize = 0;
    assert(x@.subrange(0, x.len() as int) =~= x@);
    while k < x.len() && is_ws_char(x[k])
        invariant
            k <= x.len(),
            trim_start(x@) == trim_start(x@.subrange(k as int, x.len() as int)),
        decreases x.len() - k,
    {
        let ghost rest = x@.subrange(k as int, x.len() as int);
        assert(rest.drop_first() =~= x@.subrange(k + 1, x.len() as int));
        k = k + 1;
    }
    k
}

/// Index just past the last non-whitespace character at or after `lo`.
fn end_of_text(x: &Vec<char>, lo: usize) -> (k: usize)
    requires
        lo <= x.len(),
    ensures
        lo <= k <= x.len(),
        trim_end(x@.subrange(lo as int, x.len() as int)) == x@.subrange(lo as int, k as int),
{
    let mut k: usize = x.len();
    while k > lo && is_ws_char(x[k - 1])
        invariant
            lo <= k <= x.len(),
            trim_end(x@.subrange(lo as int, x.len() as int)) == trim_end(
                x@.subrange(lo as int, k as int),
            ),
        decreases k,
    {
        let ghost part = x@.subrange(lo as int, k as int);
        assert(part.drop_last() =~= x@.subrange(lo as int, k - 1));
        k = k - 1;
    }
    k
}

fn slice_chars(x: &Vec<char>, lo: usize, hi: usize) -> (r: Vec<char>)
    requires
        lo <= hi <= x.len(),
    ensures
        r@ == x@.subrange(lo as int, hi as int),
{
    let mut r: Vec<char> = Vec::new();
    let mut i = lo;
    while i < hi
        invariant
            lo <= i <= hi <= x.len(),
            r@ == x@.subrange(lo as int, i as int),
        decreases hi - i,
    {
        r.push(x[i]);
        i = i + 1;
    }
    r
}

/// `str::trim`.
pub fn trimmed(s: &str) -> (r: String)
    ensures
        r@ == trim(s@),
{
    let x = chars_of(s);
    let lo = start_of_text(&x);
    let hi = end_of_text(&x, lo);
    let v = slice_chars(&x, lo, hi);
    string_of(&v)
}

/// Whether the text is empty after trimming.
pub fn is_blank(s: &str) -> (b: bool)
    ensures
        b == blank(s@),
{
    let x = chars_of(s);
    let lo = start_of_text(&x);
    let hi = end_of_text(&x, lo);
    hi == lo
}

/// The characters from index `n` on.
pub fn skip_chars(s: &str, n: usize) -> (r: String)
    ensures
        n <= s@.len() ==> r@ == s@.subrange(n as int, s@.len() as int),
        n > s@.len() ==> r@.len() == 0,
{
    let x = chars_of(s);
    if n > x.len() {
        return String::new();
    }
    let v = slice_chars(&x, n, x.len());
    string_of(&v)
}

/// The first `n` characters (all of them when there are fewer).
pub fn take_chars(s: &str, n: usize) -> (r: String)
    ensures
        n <= s@.len() ==> r@ == s@.subrange(0, n as int),
        n > s@.len() ==> r@ == s@,
{
    let x = chars_of(s);
    if n > x.len() {
        return owned(s);
    }
    let v = slice_chars(&x, 0, n);
    string_of(&v)
}

fn occurs_at_exec(x: &Vec<char>, p: &Vec<char>, i: usize) -> (b: bool)
    ensures
        b == occurs_at(x@, p@, i as int),
{
    if i > x.len() || p.len() > x.len() - i {
        return false;
    }
    let mut j: usize = 0;
    while j < p.len()
        invariant
            i + p.len() <= x.len(),
            j <= p.len(),
            forall|k: int| 0 <= k < j ==> x@[i + k] == p@[k],
        decreases p.len() - j,
    {
        if x[i + j] != p[j] {
            assert(x@.subrange(i as int, i + p.len())[j as int] != p@[j as int]);
            return false;
        }
        j = j + 1;
    }
    assert(x@.subrange(i as int, i + p.len()) =~= p@);
    true
}

/// `str::starts_with`.
pub fn starts_with_text(s: &str, p: &str) -> (b: bool)
    ensures
        b == starts_with(s@, p@),
{
    let x = chars_of(s);
    let y = chars_of(p);
    occurs_at_exec(&x, &y, 0)
}

/// `str::ends_with`.
pub fn ends_with_text(s: &str, p: &str) -> (b: bool)
    ensures
        b == ends_with(s@, p@),
{
    let x = chars_of(s);
    let y = chars_of(p);
    if y.len() > x.len() {
        return false;
    }
    occurs_at_exec(&x, &y, x.len() - y.len())
}

/// `str::contains` of a text.
pub fn contains_text(s: &str, p: &str) -> (b: bool)
    ensures
        b == contains(s@, p@),
{
    let x = chars_of(s);
    let y = chars_of(p);
    if y.len() > x.len() {
        assert forall|i: int| !occurs_at(s@, p@, i) by {}
        return false;
    }
    let last = x.len() - y.len();
    let mut i: usize = 0;
    loop
        invariant
            x@ == s@,
            y@ == p@,
            last == x.len() - y.len(),
            i <= last,
            forall|k: int| 0 <= k < i ==> !occurs_at(s@, p@, k),
        ensures
            forall|k: int| 0 <= k <= last ==> !occurs_at(s@, p@, k),
        decreases last - i,
    {
        if occurs_at_exec(&x, &y, i) {
            return true;
        }
        if i == last {
            break;
        }
        i = i + 1;
    }
    assert forall|k: int| !occurs_at(s@, p@, k) by {
        if 0 <= k <= last {
        }
    }
    false
}

/// `str::split_whitespace`, collected.
pub fn split_words(s: &str) -> (r: Vec<String>)
    ensures
        views(r@) == words(s@),
{
    let x = chars_of(s);
    let mut done: Vec<String> = Vec::new();
    let mut cur: Vec<char> = Vec::new();
    let mut i: usize = 0;
    while i < x.len()
        invariant
            x@ == s@,
            i <= x.len(),
            (views(done@), cur@) == word_scan(s@.subrange(0, i as int)),
        decreases x.len() - i,
    {
        let ghost pre = s@.subrange(0, i as int);
        let c = x[i];
        assert(s@.subrange(0, i + 1).drop_last() =~= pre);
        if is_ws_char(c) {
            if cur.len() > 0 {
                let w = string_of(&cur);
                done.push(w);
                cur = Vec::new();
                assert(views(done@) =~= word_scan(pre).0.push(word_scan(
                    pre,
                ).1));
            }
        } else {
            cur.push(c);
        }
        i = i + 1;
    }
    assert(s@.subrange(0, x.len() as int) =~= s@);
    if cur.len() > 0 {
        let w = string_of(&cur);
        let ghost before = views(done@);
        done.push(w);
        assert(views(done@) =~= before.push(cur@));
    }
    done
}

/// The first whitespace-separated word, or the empty text.
pub fn first_word_of(s: &str) -> (r: String)
    ensures
        r@ == first_word(s@),
{
    let ws = split_words(s);
    if ws.len() > 0 {
        assert(views(ws@)[0] == ws@[0]@);
        ws[0].clone()
    } else {
        String::new()
    }
}

/// `join` of texts with a separator.
pub fn join_texts(parts: &Vec<String>, sep: &str) -> (r: String)
    ensures
        r@ == join(views(parts@), sep@),
{
    let ghost vs = views(parts@);
    let mut r = String::new();
    let mut i: usize = 0;
    while i < parts.len()
        invariant
            vs == views(parts@),
            i <= parts.len(),
            r@ == join(vs.subrange(0, i as int), sep@),
        decreases parts.len() - i,
    {
        assert(vs.subrange(0, i + 1).drop_last() =~= vs.subrange(0, i as int));
        if i > 0 {
            r.append(sep);
        }
        r.append(parts[i].as_str());
        i = i + 1;
        if i == 1 {
            assert(r@ =~= join(vs.subrange(0, 1), sep@));
        }
    }
    assert(vs.subrange(0, parts.len() as int) =~= vs);
    r
}

/// `str::lines`, collected.
pub fn split_lines(s: &str) -> (r: Vec<String>)
    ensures
        views(r@) == lines(s@),
{
    let x = chars_of(s);
    let mut done: Vec<String> = Vec::new();
    let mut cur: Vec<char> = Vec::new();
    let mut i: usize = 0;
    while i < x.len()
        invariant
            x@ == s@,
            i <= x.len(),
            (views(done@), cur@) == line_scan(s@.subrange(0, i as int)),
        decreases x.len() - i,
    {
        let ghost pre = s@.subrange(0, i as int);
        let c = x[i];
        assert(s@.subrange(0, i + 1).drop_last() =~= pre);
        if c == '\n' {
            if cur.len() > 0 && cur[cur.len() - 1] == '\r' {
                cur.pop();
            }
            let w = string_of(&cur);
            done.push(w);
            cur = Vec::new();
            assert(views(done@) =~= line_scan(pre).0.push(
                strip_cr(line_scan(pre).1),
            ));
        } else {
            cur.push(c);
        }
        i = i + 1;
    }
    assert(s@.subrange(0, x.len() as int) =~= s@);
    if cur.len() > 0 {
        let w = string_of(&cur);
        let ghost before = views(done@);
        done.push(w);
        assert(views(done@) =~= before.push(cur@));
    }
    done
}

/// Decimal form of a count.
pub fn dec_usize(n: usize) -> (r: String)
    ensures
        r@ == dec(n as nat),
{
    dec_u64(n as u64)
}

/// Decimal form of an unsigned number.
pub fn dec_u64(n: u64) -> (r: String)
    ensures
        r@ == dec(n as nat),
    decreases n,
{
    let d = (n % 10) as u8;
    let c = (48u8 + d) as char;
    assert(c == digit((n % 10) as nat));
    if n < 10 {
        let mut r = String::new();
        push_char(&mut r, c);
        assert(r@ =~= seq![digit(n as nat)]);
        r
    } else {
        let mut r = dec_u64(n / 10);
        push_char(&mut r, c);
        r
    }
}

/// Decimal form of a signed number.
pub fn dec_i64(n: i64) -> (r: String)
    ensures
        r@ == dec_int(n as int),
{
    if n < 0 {
        let m: u64 = if n == i64::MIN {
            9223372036854775808u64
        } else {
            (-n) as u64
        };
        let digits = dec_u64(m);
        let mut r = String::new();
        push_char(&mut r, '-');
        r.append(digits.as_str());
        assert(r@ =~= seq!['-'] + dec((-n) as nat));
        r
    } else {
        dec_u64(n as u64)
    }
}

/// `true` / `false`.
pub fn bool_str(b: bool) -> (r: String)
    ensures
        r@ == bool_text(b),
{
    let mut r = String::new();
    if b {
        push_char(&mut r, 't');
        push_char(&mut r, 'r');
        push_char(&mut r, 'u');
        push_char(&mut r, 'e');
        assert(r@ =~= bool_text(true));
    } else {
        push_char(&mut r, 'f');
        push_char(&mut r, 'a');
        push_char(&mut r, 'l');
        push_char(&mut r, 's');
        push_char(&mut r, 'e');
        assert(r@ =~= bool_text(false));
    }
    r
}

/// A text with each single quote written twice.
pub open spec fn doubled_quotes(s: Seq<char>) -> Seq<char>
    decreases s.len(),
{
    if s.len() == 0 {
        Seq::empty()
    } else {
        doubled_quotes(s.drop_last()) + if s.last() == '\'' {
            seq!['\'', '\'']
        } else {
            seq![s.last()]
        }
    }
}

/// A text quoted for PowerShell: between single quotes, with each single
/// quote inside written twice.
pub fn ps_quote(text: &str) -> (r: String)
    ensures
        r@ == seq!['\''] + doubled_quotes(text@) + seq!['\''],
{
    let cs = chars_of(text);
    let mut r = String::new();
    push_char(&mut r, '\'');
    let mut i: usize = 0;
    while i < cs.len()
        invariant
            i <= cs.len(),
            cs@ == text@,
            r@ == seq!['\''] + doubled_quotes(cs@.subrange(0, i as int)),
        decreases cs.len() - i,
    {
        let c = cs[i];
        assert(cs@.subrange(0, i + 1).drop_last() =~= cs@.subrange(0, i as int));
        if c == '\'' {
            push_char(&mut r, '\'');
            push_char(&mut r, '\'');
        } else {
            push_char(&mut r, c);
        }
        assert(r@ =~= seq!['\''] + doubled_quotes(cs@.subrange(0, i + 1)));
        i = i + 1;
    }
    assert(cs@.subrange(0, cs.len() as int) =~= cs@);
    push_char(&mut r, '\'');
    r
}

// ---------------------------------------------------------------------------
// Splitting at newlines
// ---------------------------------------------------------------------------

/// A text cut at each newline, as `str::split('\n')` cuts it: the pieces
/// between newlines, always at least one.
pub open spec fn split_nl(s: Seq<char>) -> Seq<Seq<char>>
    decreases s.len(),
{
    if s.len() == 0 {
        seq![Seq::empty()]
    } else {
        let p = split_nl(s.drop_last());
        if s.last() == '\n' {
            p.push(Seq::empty())
        } else {
            p.update(p.len() - 1, p.last().push(s.last()))
        }
    }
}

/// A text without a newline in it.
pub open spec fn no_nl(s: Seq<char>) -> bool {
    forall|i: int| 0 <= i < s.len() ==> s[i] != '\n'
}

/// Splitting never gives an empty list.
pub proof fn lemma_split_nl_len(s: Seq<char>)
    ensures
        split_nl(s).len() >= 1,
    decreases s.len(),
{
    if s.len() > 0 {
        lemma_split_nl_len(s.drop_last());
    }
}

/// A text without newlines splits into itself.
pub proof fn lemma_split_nl_single(s: Seq<char>)
    requires
        no_nl(s),
    ensures
        split_nl(s) == seq![s],
    decreases s.len(),
{
    if s.len() > 0 {
        assert(no_nl(s.drop_last()));
        lemma_split_nl_single(s.drop_last());
        assert(s.drop_last().push(s.last()) =~= s);
        assert(split_nl(s) =~= seq![s]);
    } else {
        assert(s =~= Seq::<char>::empty());
    }
}

/// Splitting around a newline splits each side.
pub proof fn lemma_split_nl_around(a: Seq<char>, b: Seq<char>)
    ensures
        split_nl(a + "\n"@ + b) == split_nl(a) + split_nl(b),
    decreases b.len(),
{
    reveal_strlit("\n");
    lemma_split_nl_len(a);
    if b.len() == 0 {
        assert(a + "\n"@ + b =~= (a + "\n"@).drop_last().push('\n'));
        assert((a + "\n"@).drop_last() =~= a);
        assert(split_nl(a + "\n"@ + b) =~= split_nl(a) + split_nl(b));
    } else {
        let b1 = b.drop_last();
        lemma_split_nl_around(a, b1);
        lemma_split_nl_len(b1);
        let t = a + "\n"@ + b;
        assert(t.drop_last() =~= a + "\n"@ + b1);
        assert(t.last() == b.last());
        let x = split_nl(a);
        let y = split_nl(b1);
        if b.last() == '\n' {
            assert((x + y).push(Seq::empty()) =~= x + y.push(Seq::empty()));
        } else {
            assert((x + y).update((x + y).len() - 1, (x + y).last().push(b.last())) =~= x
                + y.update(y.len() - 1, y.last().push(b.last())));
        }
        assert(split_nl(t) =~= split_nl(a) + split_nl(b));
    }
}

/// Splitting the newline-joined lines of two non-empty lists splits each.
pub proof fn lemma_split_join_concat(x: Seq<Seq<char>>, y: Seq<Seq<char>>)
    requires
        x.len() > 0,
        y.len() > 0,
    ensures
        split_nl(join(x + y, "\n"@)) == split_nl(join(x, "\n"@)) + split_nl(join(y, "\n"@)),
    decreases y.len(),
{
    let xy = x + y;
    assert(xy.drop_last() =~= x + y.drop_last());
    assert(xy.last() == y.last());
    if y.len() == 1 {
        assert(x + y.drop_last() =~= x);
        lemma_split_nl_around(join(x, "\n"@), y.last());
        assert(join(y, "\n"@) == y[0]);
    } else {
        lemma_split_join_concat(x, y.drop_last());
        lemma_split_nl_around(join(x + y.drop_last(), "\n"@), y.last());
        lemma_split_nl_around(join(y.drop_last(), "\n"@), y.last());
    }
}

/// Newline-free lines joined by newlines split back into the same lines.
pub proof fn lemma_split_join_lines(ls: Seq<Seq<char>>)
    requires
        ls.len() > 0,
        forall|i: int| 0 <= i < ls.len() ==> no_nl(#[trigger] ls[i]),
    ensures
        split_nl(join(ls, "\n"@)) == ls,
    decreases ls.len(),
{
    if ls.len() == 1 {
        lemma_split_nl_single(ls[0]);
        assert(seq![ls[0]] =~= ls);
    } else {
        let h = ls.drop_last();
        assert(h + seq![ls.last()] =~= ls);
        lemma_split_join_lines(h);
        lemma_split_join_concat(h, seq![ls.last()]);
        lemma_split_nl_single(ls.last());
    }
}

/// Trimming keeps a text newline-free.
pub proof fn lemma_no_nl_trim(s: Seq<char>)
    requires
        no_nl(s),
    ensures
        no_nl(trim(s)),
{
    lemma_trim_start_suffix(s);
    lemma_trim_end_prefix(trim_start(s));
    let t = trim_start(s);
    assert forall|i: int| 0 <= i < t.len() implies t[i] != '\n' by {
        assert(t[i] == s[s.len() - t.len() + i]);
    }
    let u = trim(s);
    assert forall|i: int| 0 <= i < u.len() implies u[i] != '\n' by {
        assert(u[i] == t[i]);
    }
}

/// Decimal forms have no newline.
pub proof fn lemma_no_nl_dec(n: nat)
    ensures
        no_nl(dec(n)),
    decreases n,
{
    assert(digit(n % 10) != '\n') by {
        assert(('0' as u32) == 48);
        assert(('\n' as u32) == 10);
    }
    if n >= 10 {
        lemma_no_nl_dec(n / 10);
        assert(digit(n % 10) != '\n');
    } else {
        assert(n % 10 == n);
    }
}

/// Joining newline-free texts gives a newline-free text.
pub proof fn lemma_no_nl_concat(a: Seq<char>, b: Seq<char>)
    requires
        no_nl(a),
        no_nl(b),
    ensures
        no_nl(a + b),
{
    assert forall|i: int| 0 <= i < (a + b).len() implies (a + b)[i] != '\n' by {
        if i < a.len() {
            assert((a + b)[i] == a[i]);
        } else {
            assert((a + b)[i] == b[i - a.len()]);
        }
    }
}

} // verus!
