//! Lenient JSON extraction from model output.

use vstd::prelude::*;

verus! {

/// `serde_json::Value`, carried opaquely: raw provider payloads and parsed
/// JSON documents.
#[verifier::external_type_specification]
#[verifier::external_body]
pub struct ExValue(serde_json::Value);

/// Relies on `serde_json::Value`'s derived `Clone`: a structural copy.
pub assume_specification[ <serde_json::Value as Clone>::clone ](v: &serde_json::Value) -> (r: serde_json::Value)
    ensures
        r == *v,
;

/// Whether `c` is white space in Unicode's sense, as `char::is_whitespace`
/// and `str::trim` use it.
pub open spec fn is_ws(c: char) -> bool {
    ||| ('\t' <= c && c <= '\r')
    ||| c == ' '
    ||| c == '\u{85}'
    ||| c == '\u{a0}'
    ||| c == '\u{1680}'
    ||| ('\u{2000}' <= c && c <= '\u{200a}')
    ||| c == '\u{2028}'
    ||| c == '\u{2029}'
    ||| c == '\u{202f}'
    ||| c == '\u{205f}'
    ||| c == '\u{3000}'
}

/// `s` without its leading white space.
pub open spec fn trim_start_ws(s: Seq<char>) -> Seq<char>
    decreases s.len(),
{
    if s.len() > 0 && is_ws(s[0]) {
        trim_start_ws(s.drop_first())
    } else {
        s
    }
}

/// `s` without its trailing white space.
pub open spec fn trim_end_ws(s: Seq<char>) -> Seq<char>
    decreases s.len(),
{
    if s.len() > 0 && is_ws(s.last()) {
        trim_end_ws(s.drop_last())
    } else {
        s
    }
}

/// `s` without leading or trailing white space.
pub open spec fn trim_ws(s: Seq<char>) -> Seq<char> {
    trim_end_ws(trim_start_ws(s))
}

/// `s` with every leading repetition of a non-empty `p` removed.
pub open spec fn strip_prefixes(s: Seq<char>, p: Seq<char>) -> Seq<char>
    decreases s.len(),
{
    if 0 < p.len() <= s.len() && s.subrange(0, p.len() as int) == p {
        strip_prefixes(s.subrange(p.len() as int, s.len() as int), p)
    } else {
        s
    }
}

/// `s` with every trailing repetition of a non-empty `p` removed.
pub open spec fn strip_suffixes(s: Seq<char>, p: Seq<char>) -> Seq<char>
    decreases s.len(),
{
    if 0 < p.len() <= s.len() && s.subrange(s.len() - p.len(), s.len() as int) == p {
        strip_suffixes(s.subrange(0, s.len() - p.len()), p)
    } else {
        s
    }
}

/// The text with code-fence markup taken off: trimmed, a leading
/// "```json" and "```" removed, a trailing "```" removed, trimmed again.
pub open spec fn fence_stripped(s: Seq<char>) -> Seq<char> {
    trim_ws(strip_suffixes(strip_prefixes(strip_prefixes(trim_ws(s), "```json"@), "```"@), "```"@))
}

/// Whether `i` is the first position of `c` in `s`.
pub open spec fn is_first_index(s: Seq<char>, c: char, i: int) -> bool {
    0 <= i < s.len() && s[i] == c && forall|j: int| 0 <= j < i ==> s[j] != c
}

/// Whether `i` is the last position of `c` in `s`.
pub open spec fn is_last_index(s: Seq<char>, c: char, i: int) -> bool {
    0 <= i < s.len() && s[i] == c && forall|j: int| i < j < s.len() ==> s[j] != c
}

/// Whether `s` holds `c`.
pub open spec fn holds_char(s: Seq<char>, c: char) -> bool {
    exists|i: int| 0 <= i < s.len() && s[i] == c
}

/// The span from the first '{' to the last '}', both included, when both
/// occur in that order.
pub open spec fn brace_span(s: Seq<char>) -> Option<Seq<char>> {
    if holds_char(s, '{') && holds_char(s, '}') {
        let a = choose|a: int| is_first_index(s, '{', a);
        let b = choose|b: int| is_last_index(s, '}', b);
        if a <= b {
            Some(s.subrange(a, b + 1))
        } else {
            None
        }
    } else {
        None
    }
}

/// The texts tried, in order, when reading JSON out of model output: the
/// text itself, the brace span if any, and the text without code fences.
pub open spec fn json_candidates_of(s: Seq<char>) -> Seq<Seq<char>> {
    match brace_span(s) {
        Some(b) => seq![s, b, fence_stripped(s)],
        None => seq![s, fence_stripped(s)],
    }
}

fn is_ws_char(c: char) -> (r: bool)
    ensures
        r == is_ws(c),
{
    ('\t' <= c && c <= '\r') || c == ' ' || c == '\u{85}' || c == '\u{a0}' || c == '\u{1680}'
        || ('\u{2000}' <= c && c <= '\u{200a}') || c == '\u{2028}' || c == '\u{2029}' || c
        == '\u{202f}' || c == '\u{205f}' || c == '\u{3000}'
}

/// The bounds of `s[lo..hi]` without leading and trailing white space.
fn trim_range(s: &str, lo: usize, hi: usize) -> (r: (usize, usize))
    requires
        lo <= hi <= s@.len(),
    ensures
        lo <= r.0 <= r.1 <= hi,
        s@.subrange(r.0 as int, r.1 as int) == trim_ws(s@.subrange(lo as int, hi as int)),
{
    let mut i = lo;
    while i < hi && is_ws_char(s.get_char(i))
        invariant
            lo <= i <= hi <= s@.len(),
            trim_start_ws(s@.subrange(lo as int, hi as int)) == trim_start_ws(
                s@.subrange(i as int, hi as int),
            ),
        decreases hi - i,
    {
        assert(s@.subrange(i as int, hi as int).drop_first() =~= s@.subrange(i + 1, hi as int));
        i = i + 1;
    }
    let mut j = hi;
    while j > i && is_ws_char(s.get_char(j - 1))
        invariant
            lo <= i <= j <= hi <= s@.len(),
            trim_end_ws(s@.subrange(i as int, hi as int)) == trim_end_ws(
                s@.subrange(i as int, j as int),
            ),
        decreases j - i,
    {
        assert(s@.subrange(i as int, j as int).drop_last() =~= s@.subrange(i as int, j - 1));
        j = j - 1;
    }
    (i, j)
}

/// Whether `p` occurs in `s` at `at`, ending no later than `hi`.
fn matches_at(s: &str, at: usize, hi: usize, p: &str) -> (r: bool)
    requires
        at <= hi <= s@.len(),
    ensures
        r == (at + p@.len() <= hi && s@.subrange(at as int, at + p@.len()) == p@),
{
    let n = p.unicode_len();
    if n > hi - at {
        return false;
    }
    let mut k: usize = 0;
    while k < n
        invariant
            n == p@.len(),
            at + n <= hi <= s@.len(),
            k <= n,
            s@.subrange(at as int, at + k) == p@.subrange(0, k as int),
        decreases n - k,
    {
        if s.get_char(at + k) != p.get_char(k) {
            assert(s@.subrange(at as int, at + n)[k as int] != p@[k as int]);
            return false;
        }
        assert(s@.subrange(at as int, at + k + 1) =~= s@.subrange(at as int, at + k).push(
            s@[at + k],
        ));
        assert(p@.subrange(0, k + 1) =~= p@.subrange(0, k as int).push(p@[k as int]));
        k = k + 1;
    }
    assert(p@.subrange(0, n as int) =~= p@);
    true
}

/// The start of `s[lo..hi]` once every leading repetition of `p` is
/// removed.
fn strip_prefix_range(s: &str, lo: usize, hi: usize, p: &str) -> (r: usize)
    requires
        lo <= hi <= s@.len(),
    ensures
        lo <= r <= hi,
        s@.subrange(r as int, hi as int) == strip_prefixes(s@.subrange(lo as int, hi as int), p@),
{
    let n = p.unicode_len();
    let mut i = lo;
    while n > 0 && matches_at(s, i, hi, p)
        invariant
            n == p@.len(),
            lo <= i <= hi <= s@.len(),
            strip_prefixes(s@.subrange(lo as int, hi as int), p@) == strip_prefixes(
                s@.subrange(i as int, hi as int),
                p@,
            ),
        decreases hi - i,
    {
        let ghost cur = s@.subrange(i as int, hi as int);
        assert(cur.subrange(0, n as int) =~= s@.subrange(i as int, i + n));
        assert(cur.subrange(n as int, cur.len() as int) =~= s@.subrange(i + n, hi as int));
        i = i + n;
    }
    let ghost cur = s@.subrange(i as int, hi as int);
    assert(n > 0 && n <= cur.len() ==> cur.subrange(0, n as int) =~= s@.subrange(i as int, i + n));
    i
}

/// The end of `s[lo..hi]` once every trailing repetition of `p` is
/// removed.
fn strip_suffix_range(s: &str, lo: usize, hi: usize, p: &str) -> (r: usize)
    requires
        lo <= hi <= s@.len(),
    ensures
        lo <= r <= hi,
        s@.subrange(lo as int, r as int) == strip_suffixes(s@.subrange(lo as int, hi as int), p@),
{
    let n = p.unicode_len();
    let mut j = hi;
    while n > 0 && n <= j - lo && matches_at(s, j - n, j, p)
        invariant
            n == p@.len(),
            lo <= j <= hi <= s@.len(),
            strip_suffixes(s@.subrange(lo as int, hi as int), p@) == strip_suffixes(
                s@.subrange(lo as int, j as int),
                p@,
            ),
        decreases j - lo,
    {
        let ghost cur = s@.subrange(lo as int, j as int);
        assert(cur.subrange(cur.len() - n, cur.len() as int) =~= s@.subrange(j - n, j as int));
        assert(cur.subrange(0, cur.len() - n) =~= s@.subrange(lo as int, j - n));
        j = j - n;
    }
    let ghost cur = s@.subrange(lo as int, j as int);
    assert(n > 0 && n <= cur.len() ==> cur.subrange(cur.len() - n, cur.len() as int)
        =~= s@.subrange(j - n, j as int));
    j
}

/// The first position of `c` in `s`, if any.
fn find_first(s: &str, c: char) -> (r: Option<usize>)
    ensures
        match r {
            Some(i) => is_first_index(s@, c, i as int),
            None => !holds_char(s@, c),
        },
{
    let n = s.unicode_len();
    let mut i: usize = 0;
    while i < n
        invariant
            n == s@.len(),
            i <= n,
            forall|j: int| 0 <= j < i ==> s@[j] != c,
        decreases n - i,
    {
        if s.get_char(i) == c {
            return Some(i);
        }
        i = i + 1;
    }
    None
}

/// The last position of `c` in `s`, if any.
fn find_last(s: &str, c: char) -> (r: Option<usize>)
    ensures
        match r {
            Some(i) => is_last_index(s@, c, i as int),
            None => !holds_char(s@, c),
        },
{
    let mut i: usize = s.unicode_len();
    while i > 0
        invariant
            i <= s@.len(),
            forall|j: int| i <= j < s@.len() ==> s@[j] != c,
        decreases i,
    {
        if s.get_char(i - 1) == c {
            return Some(i - 1);
        }
        i = i - 1;
    }
    None
}

/// Code-fence markup taken off a text: see `fence_stripped`.
pub fn strip_fences(s: &str) -> (r: String)
    ensures
        r@ == fence_stripped(s@),
{
    let n = s.unicode_len();
    assert(s@.subrange(0, n as int) =~= s@);
    let (a, b) = trim_range(s, 0, n);
    let a = strip_prefix_range(s, a, b, "```json");
    let a = strip_prefix_range(s, a, b, "```");
    let b = strip_suffix_range(s, a, b, "```");
    let (a, b) = trim_range(s, a, b);
    String::from_str(s.substring_char(a, b))
}

/// The texts to try, in order, when reading JSON out of model output.
pub fn json_candidates(s: &str) -> (r: Vec<String>)
    ensures
        r@.len() == json_candidates_of(s@).len(),
        forall|i: int| 0 <= i < r@.len() ==> #[trigger] r@[i]@ == json_candidates_of(s@)[i],
{
    let n = s.unicode_len();
    let mut out: Vec<String> = Vec::new();
    out.push(String::from_str(s));
    match (find_first(s, '{'), find_last(s, '}')) {
        (Some(a), Some(b)) => {
            if a <= b && b < n {
                out.push(String::from_str(s.substring_char(a, b + 1)));
            }
            proof {
                assert(holds_char(s@, '{'));
                assert(holds_char(s@, '}'));
                let ca = choose|x: int| is_first_index(s@, '{', x);
                let cb = choose|x: int| is_last_index(s@, '}', x);
                assert(ca == a as int) by {
                    if ca < a {
                        assert(s@[ca] != '{');
                    } else if ca > a {
                        assert(s@[a as int] != '{');
                    }
                }
                assert(cb == b as int) by {
                    if cb < b {
                        assert(s@[b as int] != '}');
                    } else if cb > b {
                        assert(s@[cb] != '}');
                    }
                }
            }
        },
        _ => {},
    }
    out.push(strip_fences(s));
    out
}

/// Whether `p` occurs in `s`.
pub open spec fn contains_seq(s: Seq<char>, p: Seq<char>) -> bool {
    exists|i: int| 0 <= i && i + p.len() <= s.len() && #[trigger] s.subrange(i, i + p.len()) == p
}

/// Whether `p` occurs in `s`.
pub fn contains_text(s: &str, p: &str) -> (r: bool)
    ensures
        r == contains_seq(s@, p@),
{
    let n = s.unicode_len();
    let mut i: usize = 0;
    while i < n
        invariant
            n == s@.len(),
            i <= n,
            forall|j: int| 0 <= j < i && j + p@.len() <= s@.len() ==> #[trigger] s@.subrange(j, j + p@.len()) != p@,
        decreases n - i,
    {
        if matches_at(s, i, n, p) {
            return true;
        }
        i = i + 1;
    }
    if matches_at(s, n, n, p) {
        return true;
    }
    assert forall|j: int| 0 <= j && j + p@.len() <= s@.len() implies #[trigger] s@.subrange(j, j + p@.len()) != p@ by {
        if j == n {
            assert(p@.len() == 0);
            assert(s@.subrange(j, j + p@.len()) =~= p@);
        }
    }
    false
}

/// Whether `s` begins with `p`.
pub open spec fn starts_with_seq(s: Seq<char>, p: Seq<char>) -> bool {
    p.len() <= s.len() && s.subrange(0, p.len() as int) == p
}

/// Whether `s` begins with `p`.
pub fn starts_with_text(s: &str, p: &str) -> (r: bool)
    ensures
        r == starts_with_seq(s@, p@),
{
    let n = s.unicode_len();
    matches_at(s, 0, n, p)
}

/// What `serde_json::from_str` reads from a text as a JSON value, or the
/// text of its error (`Display` of `serde_json::Error`) when it rejects the
/// text.
pub uninterp spec fn json_reading(text: Seq<char>) -> Result<serde_json::Value, Seq<char>>;

/// Relies on `serde_json::from_str::<serde_json::Value>`: whether it
/// accepts a text, the value it reads and the text of its error depend on
/// the text alone.
#[verifier::external_body]
fn read_json(text: &str) -> (r: Result<serde_json::Value, String>)
    ensures
        match json_reading(text@) {
            Ok(v) => r == Ok::<serde_json::Value, String>(v),
            Err(m) => r matches Err(d) && d@ == m,
        },
{
    match serde_json::from_str::<serde_json::Value>(text) {
        Ok(v) => Ok(v),
        Err(e) => Err(e.to_string()),
    }
}

/// The reading of the first candidate that is JSON; when none is, the
/// error of the last candidate.
pub open spec fn lenient_reading(cands: Seq<Seq<char>>) -> Result<serde_json::Value, Seq<char>>
    decreases cands.len(),
{
    if cands.len() == 0 {
        Err(Seq::empty())
    } else if cands.len() == 1 {
        json_reading(cands[0])
    } else {
        match json_reading(cands[0]) {
            Ok(v) => Ok(v),
            Err(_) => lenient_reading(cands.drop_first()),
        }
    }
}

/// Reads JSON out of model output leniently: the text itself, else the span
/// from the first '{' to the last '}', else the text without code fences.
/// When none of them parses, the error is the parse error of the last.
pub fn parse_json(s: &str) -> (r: Result<serde_json::Value, String>)
    ensures
        match lenient_reading(json_candidates_of(s@)) {
            Ok(v) => r == Ok::<serde_json::Value, String>(v),
            Err(m) => r matches Err(d) && d@ == m,
        },
{
    let cands = json_candidates(s);
    let ghost cs = json_candidates_of(s@);
    let n = cands.len();
    let mut i: usize = 0;
    assert(cs.subrange(0, cs.len() as int) =~= cs);
    loop
        invariant
            cs == json_candidates_of(s@),
            n == cands@.len(),
            cands@.len() == cs.len(),
            cs.len() >= 2,
            forall|k: int| 0 <= k < cands@.len() ==> #[trigger] cands@[k]@ == cs[k],
            i < cs.len(),
            lenient_reading(cs) == lenient_reading(cs.subrange(i as int, cs.len() as int)),
        decreases cs.len() - i,
    {
        let ghost sub = cs.subrange(i as int, cs.len() as int);
        assert(sub.drop_first() =~= cs.subrange(i + 1, cs.len() as int));
        assert(sub[0] == cands@[i as int]@);
        match read_json(cands[i].as_str()) {
            Ok(v) => {
                assert(lenient_reading(sub) == Ok::<serde_json::Value, Seq<char>>(v));
                return Ok(v);
            },
            Err(d) => {
                if i + 1 == n {
                    assert(sub.len() == 1);
                    return Err(d);
                }
            },
        }
        i = i + 1;
    }
}

} // verus!
