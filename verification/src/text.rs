//! Reading a chat command: trimming, lower-casing, splitting on white space,
//! and reading unsigned decimal numbers, all over sequences of `char`.
use vstd::prelude::*;

verus! {

// ---------------------------------------------------------------------------
// White space
// ---------------------------------------------------------------------------

/// The Unicode `White_Space` property, the set of characters that
/// `char::is_whitespace` accepts.
pub open spec fn is_white_space(c: char) -> bool {
    let n = c as int;
    ||| 0x09 <= n <= 0x0D
    ||| n == 0x20
    ||| n == 0x85
    ||| n == 0xA0
    ||| n == 0x1680
    ||| 0x2000 <= n <= 0x200A
    ||| n == 0x2028
    ||| n == 0x2029
    ||| n == 0x202F
    ||| n == 0x205F
    ||| n == 0x3000
}

/// Whether `c` is white space in the Unicode sense.
pub fn is_whitespace(c: char) -> (r: bool)
    ensures
        r == is_white_space(c),
{
    let n = c as u32;
    (0x09 <= n && n <= 0x0D) || n == 0x20 || n == 0x85 || n == 0xA0 || n == 0x1680 || (0x2000
        <= n && n <= 0x200A) || n == 0x2028 || n == 0x2029 || n == 0x202F || n == 0x205F || n
        == 0x3000
}

// ---------------------------------------------------------------------------
// Trimming
// ---------------------------------------------------------------------------

/// `s` without its leading white space.
pub open spec fn trim_start(s: Seq<char>) -> Seq<char>
    decreases s.len(),
{
    if s.len() > 0 && is_white_space(s[0]) {
        trim_start(s.drop_first())
    } else {
        s
    }
}

/// `s` without its trailing white space.
pub open spec fn trim_end(s: Seq<char>) -> Seq<char>
    decreases s.len(),
{
    if s.len() > 0 && is_white_space(s.last()) {
        trim_end(s.drop_last())
    } else {
        s
    }
}

/// `s` without leading and trailing white space.
pub open spec fn trimmed(s: Seq<char>) -> Seq<char> {
    trim_end(trim_start(s))
}

/// The characters of `s`, in order.
pub fn chars_of(s: &str) -> (r: Vec<char>)
    ensures
        r@ == s@,
{
    let n = s.unicode_len();
    let mut r: Vec<char> = Vec::new();
    let mut i: usize = 0;
    while i < n
        invariant
            n == s@.len(),
            i <= n,
            r@ == s@.take(i as int),
        decreases n - i,
    {
        let c = s.get_char(i);
        r.push(c);
        i = i + 1;
        assert(r@ =~= s@.take(i as int));
    }
    assert(s@.take(n as int) =~= s@);
    r
}

/// The bounds `(start, end)` of the part of `s` that trimming keeps.
pub fn trim_bounds(s: &Vec<char>) -> (r: (usize, usize))
    ensures
        r.0 <= r.1 <= s@.len(),
        s@.subrange(r.0 as int, r.1 as int) == trimmed(s@),
{
    let n = s.len();
    let mut i: usize = 0;
    assert(s@.subrange(0, n as int) =~= s@);
    while i < n && is_whitespace(s[i])
        invariant
            n == s@.len(),
            i <= n,
            trim_start(s@) == trim_start(s@.subrange(i as int, n as int)),
        decreases n - i,
    {
        assert(s@.subrange(i as int, n as int).drop_first() =~= s@.subrange(i + 1, n as int));
        i = i + 1;
    }
    assert(trim_start(s@) == s@.subrange(i as int, n as int));
    let mut j: usize = n;
    while j > i && is_whitespace(s[j - 1])
        invariant
            n == s@.len(),
            i <= j <= n,
            trimmed(s@) == trim_end(s@.subrange(i as int, j as int)),
        decreases j,
    {
        assert(s@.subrange(i as int, j as int).drop_last() =~= s@.subrange(i as int, j - 1));
        j = j - 1;
    }
    (i, j)
}

/// `s` without leading and trailing white space (what `str::trim` returns).
pub fn trim<'a>(s: &'a str) -> (r: &'a str)
    ensures
        r@ == trimmed(s@),
{
    let cs = chars_of(s);
    let (i, j) = trim_bounds(&cs);
    s.substring_char(i, j)
}

// ---------------------------------------------------------------------------
// Splitting on white space
// ---------------------------------------------------------------------------

/// Scanning `s` from the left: the words completed so far, and the word being read.
pub open spec fn scan_words(s: Seq<char>) -> (Seq<Seq<char>>, Seq<char>)
    decreases s.len(),
{
    if s.len() == 0 {
        (Seq::empty(), Seq::empty())
    } else {
        let prev = scan_words(s.drop_last());
        let c = s.last();
        if is_white_space(c) {
            if prev.1.len() > 0 {
                (prev.0.push(prev.1), Seq::empty())
            } else {
                prev
            }
        } else {
            (prev.0, prev.1.push(c))
        }
    }
}

/// The maximal runs of non-white-space characters of `s`, in order
/// (what `str::split_whitespace` yields).
pub open spec fn words(s: Seq<char>) -> Seq<Seq<char>> {
    let scan = scan_words(s);
    if scan.1.len() > 0 {
        scan.0.push(scan.1)
    } else {
        scan.0
    }
}

/// A word: at least one character, none of them white space.
pub open spec fn is_word(w: Seq<char>) -> bool {
    w.len() > 0 && forall|j: int| 0 <= j < w.len() ==> !is_white_space(#[trigger] w[j])
}

proof fn lemma_scan_words_clean(s: Seq<char>)
    ensures
        forall|i: int| 0 <= i < scan_words(s).0.len() ==> is_word(#[trigger] scan_words(s).0[i]),
        forall|j: int|
            0 <= j < scan_words(s).1.len() ==> !is_white_space(#[trigger] scan_words(s).1[j]),
    decreases s.len(),
{
    if s.len() > 0 {
        let prev = scan_words(s.drop_last());
        lemma_scan_words_clean(s.drop_last());
        let c = s.last();
        let cur = scan_words(s);
        if is_white_space(c) {
            if prev.1.len() > 0 {
                assert(is_word(prev.1));
                assert forall|i: int| 0 <= i < cur.0.len() implies is_word(#[trigger] cur.0[i]) by {
                    if i < prev.0.len() {
                        assert(cur.0[i] == prev.0[i]);
                    }
                }
            }
        } else {
            assert forall|j: int| 0 <= j < cur.1.len() implies !is_white_space(
                #[trigger] cur.1[j],
            ) by {
                if j < prev.1.len() {
                    assert(cur.1[j] == prev.1[j]);
                }
            }
        }
    }
}

/// Splitting yields only words: none is empty, none holds white space.
pub proof fn law_words_are_clean(s: Seq<char>)
    ensures
        forall|i: int| 0 <= i < words(s).len() ==> is_word(#[trigger] words(s)[i]),
{
    lemma_scan_words_clean(s);
}

proof fn lemma_scan_leading_space(c: char, t: Seq<char>)
    requires
        is_white_space(c),
    ensures
        scan_words(seq![c] + t) == scan_words(t),
    decreases t.len(),
{
    let u = seq![c] + t;
    if t.len() == 0 {
        assert(u.drop_last() =~= Seq::<char>::empty());
        assert(u.last() == c);
        assert(scan_words(u.drop_last()) == scan_words(t));
    } else {
        assert(u.drop_last() =~= seq![c] + t.drop_last());
        assert(u.last() == t.last());
        lemma_scan_leading_space(c, t.drop_last());
        assert(scan_words(u.drop_last()) == scan_words(t.drop_last()));
    }
}

proof fn lemma_words_trim_start(s: Seq<char>)
    ensures
        words(trim_start(s)) == words(s),
    decreases s.len(),
{
    if s.len() > 0 && is_white_space(s[0]) {
        lemma_words_trim_start(s.drop_first());
        assert(s =~= seq![s[0]] + s.drop_first());
        lemma_scan_leading_space(s[0], s.drop_first());
    }
}

proof fn lemma_words_trim_end(s: Seq<char>)
    ensures
        words(trim_end(s)) == words(s),
    decreases s.len(),
{
    if s.len() > 0 && is_white_space(s.last()) {
        lemma_words_trim_end(s.drop_last());
    }
}

/// White space at either end makes no word: trimming first splits the same.
pub proof fn law_trim_keeps_words(s: Seq<char>)
    ensures
        words(trimmed(s)) == words(s),
{
    lemma_words_trim_end(trim_start(s));
    lemma_words_trim_start(s);
}

/// The contents of a vector of words.
pub open spec fn word_views(ws: Seq<Vec<char>>) -> Seq<Seq<char>> {
    ws.map_values(|w: Vec<char>| w@)
}

/// The words of `s`, split on white space.
pub fn split_whitespace(s: &Vec<char>) -> (r: Vec<Vec<char>>)
    ensures
        word_views(r@) == words(s@),
{
    let n = s.len();
    let mut done: Vec<Vec<char>> = Vec::new();
    let mut cur: Vec<char> = Vec::new();
    let mut i: usize = 0;
    while i < n
        invariant
            n == s@.len(),
            i <= n,
            (word_views(done@), cur@) == scan_words(s@.take(i as int)),
        decreases n - i,
    {
        let c = s[i];
        let ghost before = s@.take(i as int);
        assert(s@.take(i + 1).drop_last() =~= before);
        if is_whitespace(c) {
            if cur.len() > 0 {
                let ghost old_done = word_views(done@);
                let ghost w = cur@;
                done.push(cur);
                cur = Vec::new();
                assert(word_views(done@) =~= old_done.push(w));
            }
        } else {
            cur.push(c);
        }
        i = i + 1;
    }
    assert(s@.take(n as int) =~= s@);
    if cur.len() > 0 {
        let ghost old_done = word_views(done@);
        let ghost w = cur@;
        done.push(cur);
        assert(word_views(done@) =~= old_done.push(w));
    }
    done
}

// ---------------------------------------------------------------------------
// Lower case
// ---------------------------------------------------------------------------

/// The lower-case form of a string, as `str::to_lowercase` computes it
/// (Unicode `Lowercase` mapping; a function of the string alone).
pub uninterp spec fn lowercase(s: Seq<char>) -> Seq<char>;

/// Calls `str::to_lowercase`. Trusted: the result is the named `lowercase` of
/// the argument; nothing more is claimed of it.
#[verifier::external_body]
pub(crate) fn to_lowercase(s: &str) -> (r: String)
    ensures
        r@ == lowercase(s@),
{
    s.to_lowercase()
}

// ---------------------------------------------------------------------------
// Command arguments
// ---------------------------------------------------------------------------

/// The arguments a chat command is read into: at most the first two words of
/// the trimmed, lower-cased command.
pub open spec fn command_args(command: Seq<char>) -> Seq<Seq<char>> {
    let ws = words(lowercase(trimmed(command)));
    if ws.len() > 2 {
        ws.take(2)
    } else {
        ws
    }
}

/// The first two words of `command` after trimming and lower-casing it.
pub fn read_args(command: &str) -> (r: Vec<Vec<char>>)
    ensures
        word_views(r@) == command_args(command@),
{
    let t = trim(command);
    let lower = to_lowercase(t);
    let cs = chars_of(lower.as_str());
    let mut all = split_whitespace(&cs);
    let ghost ws = words(lowercase(trimmed(command@)));
    assert(cs@ == lowercase(trimmed(command@)));
    assert(word_views(all@) == ws);
    assert(word_views(all@).len() == all@.len());
    if all.len() > 2 {
        let ghost before = word_views(all@);
        all.truncate(2);
        assert(word_views(all@) =~= before.take(2));
    }
    all
}

/// Whether `word` is exactly the characters of `lit`.
pub fn word_is(word: &Vec<char>, lit: &str) -> (r: bool)
    ensures
        r == (word@ == lit@),
{
    let n = lit.unicode_len();
    if word.len() != n {
        return false;
    }
    let mut i: usize = 0;
    while i < n
        invariant
            n == lit@.len(),
            n == word@.len(),
            i <= n,
            forall|k: int| 0 <= k < i ==> word@[k] == lit@[k],
        decreases n - i,
    {
        if word[i] != lit.get_char(i) {
            return false;
        }
        i = i + 1;
    }
    assert(word@ =~= lit@);
    true
}

// ---------------------------------------------------------------------------
// Unsigned decimal numbers
// ---------------------------------------------------------------------------

/// An ASCII decimal digit.
pub open spec fn is_digit(c: char) -> bool {
    48 <= c as int <= 57
}

/// The value of an ASCII digit.
pub open spec fn digit_value(c: char) -> int {
    c as int - 48
}

/// Whether every character of `s` is an ASCII digit.
pub open spec fn all_digits(s: Seq<char>) -> bool {
    forall|i: int| 0 <= i < s.len() ==> is_digit(#[trigger] s[i])
}

/// The value of a string of decimal digits, most significant first.
pub open spec fn decimal_value(s: Seq<char>) -> int
    decreases s.len(),
{
    if s.len() == 0 {
        0
    } else {
        decimal_value(s.drop_last()) * 10 + digit_value(s.last())
    }
}

/// The digits of an unsigned number: `s` without one leading `+`.
pub open spec fn unsigned_digits(s: Seq<char>) -> Seq<char> {
    if s.len() > 0 && s[0] == '+' {
        s.drop_first()
    } else {
        s
    }
}

/// What parsing `s` as an unsigned integer no greater than `max` gives: an
/// optional `+` followed by at least one ASCII digit, and a value in range.
pub open spec fn parse_unsigned(s: Seq<char>, max: int) -> Option<int> {
    let d = unsigned_digits(s);
    if d.len() > 0 && all_digits(d) && decimal_value(d) <= max {
        Some(decimal_value(d))
    } else {
        None
    }
}

/// What `str::parse::<u32>` gives for `s`, as an `Option`.
pub open spec fn parse_u32_spec(s: Seq<char>) -> Option<u32> {
    match parse_unsigned(s, u32::MAX as int) {
        Some(v) => Some(v as u32),
        None => None,
    }
}

/// What `str::parse::<usize>` gives for `s`, as an `Option`.
pub open spec fn parse_usize_spec(s: Seq<char>) -> Option<usize> {
    match parse_unsigned(s, usize::MAX as int) {
        Some(v) => Some(v as usize),
        None => None,
    }
}

proof fn lemma_decimal_value_nonneg(s: Seq<char>)
    requires
        all_digits(s),
    ensures
        decimal_value(s) >= 0,
    decreases s.len(),
{
    if s.len() > 0 {
        assert(is_digit(s[s.len() - 1]));
        lemma_decimal_value_nonneg(s.drop_last());
    }
}

proof fn lemma_decimal_value_prefix(s: Seq<char>, k: int)
    requires
        all_digits(s),
        0 <= k <= s.len(),
    ensures
        decimal_value(s.take(k)) <= decimal_value(s),
    decreases s.len(),
{
    if k < s.len() {
        let p = s.drop_last();
        assert(s.take(k) =~= p.take(k));
        assert(is_digit(s[s.len() - 1]));
        lemma_decimal_value_prefix(p, k);
        lemma_decimal_value_nonneg(p);
    } else {
        assert(s.take(k) =~= s);
    }
}

proof fn lemma_step_bound(acc: int, d: int, max: int)
    by (nonlinear_arith)
    requires
        0 <= acc,
        0 <= d <= 9,
        0 <= max,
    ensures
        (acc > max / 10 || (acc == max / 10 && d > max % 10)) <==> acc * 10 + d > max,
{
}

/// Reads `s` as an unsigned decimal number no greater than `max`: an optional
/// `+`, then at least one ASCII digit.
pub fn parse_unsigned_max(s: &Vec<char>, max: u64) -> (r: Option<u64>)
    ensures
        r is Some <==> parse_unsigned(s@, max as int) is Some,
        r matches Some(v) ==> parse_unsigned(s@, max as int) == Some(v as int),
{
    let n = s.len();
    let start: usize = if n > 0 && s[0] == '+' {
        1
    } else {
        0
    };
    let ghost d = unsigned_digits(s@);
    assert(d =~= s@.subrange(start as int, n as int));
    if start == n {
        return None;
    }
    let mut acc: u64 = 0;
    let mut i: usize = start;
    while i < n
        invariant
            n == s@.len(),
            start <= i <= n,
            d == s@.subrange(start as int, n as int),
            d == unsigned_digits(s@),
            acc as int == decimal_value(d.take(i - start)),
            all_digits(d.take(i - start)),
            acc <= max,
        decreases n - i,
    {
        let c = s[i];
        let ghost k: int = i - start;
        assert(d[k] == c);
        assert(d.take(k + 1).drop_last() =~= d.take(k));
        if !('0' <= c && c <= '9') {
            assert(!is_digit(d[k]));
            assert(!all_digits(d));
            return None;
        }
        let dv: u64 = (c as u32 - 48) as u64;
        proof {
            lemma_step_bound(acc as int, dv as int, max as int);
        }
        if acc > max / 10 || (acc == max / 10 && dv > max % 10) {
            proof {
                if all_digits(d) {
                    lemma_decimal_value_prefix(d, k + 1);
                    assert(decimal_value(d) > max);
                }
            }
            return None;
        }
        acc = acc * 10 + dv;
        i = i + 1;
        assert(all_digits(d.take(i - start))) by {
            assert forall|j: int| 0 <= j < d.take(i - start).len() implies is_digit(
                #[trigger] d.take(i - start)[j],
            ) by {
                if j < k {
                    assert(d.take(i - start)[j] == d.take(k)[j]);
                }
            }
        }
    }
    assert(d.take(n - start) =~= d);
    Some(acc)
}

/// What `str::parse::<u32>` gives for the characters `s`, as an `Option`.
pub fn parse_u32(s: &Vec<char>) -> (r: Option<u32>)
    ensures
        r == parse_u32_spec(s@),
{
    let r = parse_unsigned_max(s, 0xFFFF_FFFF);
    match r {
        Some(v) => {
            assert(v <= 0xFFFF_FFFF);
            Some(v as u32)
        },
        None => None,
    }
}

/// What `str::parse::<usize>` gives for the characters `s`, as an `Option`.
pub fn parse_usize(s: &Vec<char>) -> (r: Option<usize>)
    ensures
        r == parse_usize_spec(s@),
{
    let r = parse_unsigned_max(s, usize::MAX as u64);
    match r {
        Some(v) => {
            assert(v <= usize::MAX);
            Some(v as usize)
        },
        None => None,
    }
}

} // verus!
