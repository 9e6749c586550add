//! Small text operations the engine and the request handlers share:
//! equality, white space, substring search, trimming, and the extraction of
//! a fenced block out of a model's reply.

use vstd::prelude::*;

verus! {

/// Compares two string slices by their characters.
pub fn str_eq(a: &str, b: &str) -> (r: bool)
    ensures
        r == (a@ == b@),
{
    let x = a.to_owned();
    let y = b.to_owned();
    x == y
}

/// The Unicode white-space characters, the set `char::is_whitespace` tests.
pub open spec fn spec_is_space(c: char) -> bool {
    ||| c as int == 0x20
    ||| (0x09 <= c as int && c as int <= 0x0d)
    ||| c as int == 0x85
    ||| c as int == 0xa0
    ||| c as int == 0x1680
    ||| (0x2000 <= c as int && c as int <= 0x200a)
    ||| c as int == 0x2028
    ||| c as int == 0x2029
    ||| c as int == 0x202f
    ||| c as int == 0x205f
    ||| c as int == 0x3000
}

/// Whether `c` is white space.
pub fn is_space(c: char) -> (r: bool)
    ensures
        r == spec_is_space(c),
{
    let u = c as u32;
    u == 0x20 || (0x09 <= u && u <= 0x0d) || u == 0x85 || u == 0xa0 || u == 0x1680 || (0x2000 <= u
        && u <= 0x200a) || u == 0x2028 || u == 0x2029 || u == 0x202f || u == 0x205f || u == 0x3000
}

/// Whether `pat` stands in `s` at position `i`.
pub open spec fn spec_is_match_at(s: Seq<char>, pat: Seq<char>, i: int) -> bool {
    0 <= i && i + pat.len() <= s.len() && s.subrange(i, i + pat.len() as int) == pat
}

/// The first position at or after `i` where `pat` stands in `s`.
pub open spec fn spec_find_from(s: Seq<char>, pat: Seq<char>, i: int) -> Option<int>
    decreases s.len() - i + 1,
{
    if i < 0 || i + pat.len() > s.len() {
        None
    } else if spec_is_match_at(s, pat, i) {
        Some(i)
    } else {
        spec_find_from(s, pat, i + 1)
    }
}

/// The first position where `pat` stands in `s`.
pub open spec fn spec_find(s: Seq<char>, pat: Seq<char>) -> Option<int> {
    spec_find_from(s, pat, 0)
}

/// A found position is a match within bounds.
pub proof fn lemma_find_is_match(s: Seq<char>, pat: Seq<char>, i0: int, i: int)
    requires
        spec_find_from(s, pat, i0) == Some(i),
    ensures
        i0 <= i,
        spec_is_match_at(s, pat, i),
    decreases s.len() - i0 + 1,
{
    if !(i0 < 0 || i0 + pat.len() > s.len()) && !spec_is_match_at(s, pat, i0) {
        lemma_find_is_match(s, pat, i0 + 1, i);
    }
}

/// Whether `pat` stands in `s` at position `i`, checked character by
/// character.
fn match_at(s: &str, pat: &str, i: usize, n: usize, m: usize) -> (r: bool)
    requires
        n == s@.len(),
        m == pat@.len(),
        i + m <= n,
    ensures
        r == spec_is_match_at(s@, pat@, i as int),
{
    let mut j: usize = 0;
    while j < m
        invariant
            j <= m,
            n == s@.len(),
            m == pat@.len(),
            i + m <= n,
            forall|k: int| 0 <= k < j ==> s@[i + k] == pat@[k],
        decreases m - j,
    {
        if s.get_char(i + j) != pat.get_char(j) {
            proof {
                assert(s@.subrange(i as int, i + m as int)[j as int] == s@[i + j]);
            }
            return false;
        }
        j += 1;
    }
    proof {
        assert(s@.subrange(i as int, i + m as int) =~= pat@);
    }
    true
}

/// Finds the first occurrence of `pat` in `s`.
pub fn find_sub(s: &str, pat: &str) -> (r: Option<usize>)
    ensures
        match r {
            Some(i) => spec_find(s@, pat@) == Some(i as int),
            None => spec_find(s@, pat@) is None,
        },
{
    let n = s.unicode_len();
    let m = pat.unicode_len();
    if m == 0 {
        proof {
            assert(s@.subrange(0, 0) =~= Seq::<char>::empty());
            assert(pat@ =~= Seq::<char>::empty());
            assert(spec_is_match_at(s@, pat@, 0));
        }
        return Some(0);
    }
    if m > n {
        return None;
    }
    let mut i: usize = 0;
    while i <= n - m
        invariant
            1 <= m <= n,
            i <= n - m + 1,
            n == s@.len(),
            m == pat@.len(),
            spec_find(s@, pat@) == spec_find_from(s@, pat@, i as int),
        decreases n - i,
    {
        if match_at(s, pat, i, n, m) {
            return Some(i);
        }
        i += 1;
    }
    None
}

/// `s` with every line feed and carriage return removed.
pub open spec fn spec_strip_nl(s: Seq<char>) -> Seq<char>
    decreases s.len(),
{
    if s.len() == 0 {
        Seq::empty()
    } else if s.last() == '\n' || s.last() == '\r' {
        spec_strip_nl(s.drop_last())
    } else {
        spec_strip_nl(s.drop_last()) + seq![s.last()]
    }
}

/// Removes every line feed and carriage return.
pub fn strip_newlines(s: &str) -> (r: String)
    ensures
        r@ == spec_strip_nl(s@),
{
    let n = s.unicode_len();
    let mut out = String::new();
    let mut i: usize = 0;
    proof {
        assert(s@.subrange(0, 0) =~= Seq::<char>::empty());
    }
    while i < n
        invariant
            i <= n,
            n == s@.len(),
            out@ == spec_strip_nl(s@.subrange(0, i as int)),
        decreases n - i,
    {
        let c = s.get_char(i);
        if !(c == '\n' || c == '\r') {
            let piece = s.substring_char(i, i + 1);
            out.append(piece);
        }
        proof {
            let cur = s@.subrange(0, i + 1 as int);
            assert(cur.drop_last() =~= s@.subrange(0, i as int));
            assert(cur.last() == s@[i as int]);
            if !(c == '\n' || c == '\r') {
                assert(s@.subrange(i as int, i + 1 as int) =~= seq![s@[i as int]]);
            }
        }
        i += 1;
    }
    proof {
        assert(s@.subrange(0, n as int) =~= s@);
    }
    out
}

/// `s` without its leading white space.
pub open spec fn spec_trim_front(s: Seq<char>) -> Seq<char>
    decreases s.len(),
{
    if s.len() > 0 && spec_is_space(s[0]) {
        spec_trim_front(s.skip(1))
    } else {
        s
    }
}

/// `s` without its trailing white space.
pub open spec fn spec_trim_back(s: Seq<char>) -> Seq<char>
    decreases s.len(),
{
    if s.len() > 0 && spec_is_space(s.last()) {
        spec_trim_back(s.drop_last())
    } else {
        s
    }
}

/// `s` without leading and trailing white space.
pub open spec fn spec_trim(s: Seq<char>) -> Seq<char> {
    spec_trim_back(spec_trim_front(s))
}

/// Dropping a fully-white prefix is what trimming the front does.
proof fn lemma_trim_front_at(s: Seq<char>, b: int)
    requires
        0 <= b <= s.len(),
        forall|j: int| 0 <= j < b ==> spec_is_space(#[trigger] s[j]),
        b == s.len() || !spec_is_space(s[b]),
    ensures
        spec_trim_front(s) == s.skip(b),
    decreases b,
{
    if b == 0 {
        assert(s.skip(0) =~= s);
    } else {
        assert(spec_is_space(s[0]));
        let t = s.skip(1);
        assert forall|j: int| 0 <= j < b - 1 implies spec_is_space(#[trigger] t[j]) by {
            assert(t[j] == s[j + 1]);
        }
        assert(b - 1 == t.len() || !spec_is_space(t[b - 1]));
        lemma_trim_front_at(t, b - 1);
        assert(t.skip(b - 1) =~= s.skip(b));
    }
}

/// Dropping a fully-white suffix is what trimming the back does.
proof fn lemma_trim_back_at(s: Seq<char>, e: int)
    requires
        0 <= e <= s.len(),
        forall|j: int| e <= j < s.len() ==> spec_is_space(#[trigger] s[j]),
        e == 0 || !spec_is_space(s[e - 1]),
    ensures
        spec_trim_back(s) == s.subrange(0, e),
    decreases s.len(),
{
    if e == s.len() {
        if s.len() == 0 || !spec_is_space(s.last()) {
            assert(s.subrange(0, e) =~= s);
        } else {
            assert(!spec_is_space(s[e - 1]));
            assert(spec_is_space(s[s.len() - 1]));
        }
    } else {
        assert(spec_is_space(s.last()));
        let t = s.drop_last();
        lemma_trim_back_at(t, e);
        assert(t.subrange(0, e) =~= s.subrange(0, e));
    }
}

/// Removes leading and trailing white space.
pub fn trim(s: &str) -> (r: String)
    ensures
        r@ == spec_trim(s@),
{
    let n = s.unicode_len();
    let mut b: usize = 0;
    while b < n && is_space(s.get_char(b))
        invariant
            b <= n,
            n == s@.len(),
            forall|j: int| 0 <= j < b ==> spec_is_space(#[trigger] s@[j]),
        decreases n - b,
    {
        b += 1;
    }
    let mut e: usize = n;
    while e > b && is_space(s.get_char(e - 1))
        invariant
            b <= e <= n,
            n == s@.len(),
            forall|j: int| e <= j < n ==> spec_is_space(#[trigger] s@[j]),
        decreases e,
    {
        e -= 1;
    }
    proof {
        lemma_trim_front_at(s@, b as int);
        let t = s@.skip(b as int);
        assert forall|j: int| e - b <= j < t.len() implies spec_is_space(#[trigger] t[j]) by {
            assert(t[j] == s@[j + b]);
        }
        if e > b {
            assert(t[e - b - 1] == s@[e - 1]);
        }
        lemma_trim_back_at(t, e - b as int);
        assert(t.subrange(0, e - b as int) =~= s@.subrange(b as int, e as int));
    }
    let piece = s.substring_char(b, e);
    piece.to_owned()
}

/// Whether some character of `s` is not white space: what a non-blank check
/// after trimming sees.
pub open spec fn spec_has_visible(s: Seq<char>) -> bool {
    exists|i: int| 0 <= i < s.len() && !spec_is_space(#[trigger] s[i])
}

/// Whether `s` holds any character that is not white space.
pub fn has_visible_char(s: &str) -> (r: bool)
    ensures
        r == spec_has_visible(s@),
{
    let n = s.unicode_len();
    let mut i: usize = 0;
    while i < n
        invariant
            i <= n,
            n == s@.len(),
            forall|j: int| 0 <= j < i ==> spec_is_space(#[trigger] s@[j]),
        decreases n - i,
    {
        if !is_space(s.get_char(i)) {
            return true;
        }
        i += 1;
    }
    false
}

/// `s` with every trailing occurrence of `c` removed.
pub open spec fn spec_strip_trailing(s: Seq<char>, c: char) -> Seq<char>
    decreases s.len(),
{
    if s.len() > 0 && s.last() == c {
        spec_strip_trailing(s.drop_last(), c)
    } else {
        s
    }
}

/// Dropping a suffix of `c`s is what stripping them does.
proof fn lemma_strip_trailing_at(s: Seq<char>, c: char, e: int)
    requires
        0 <= e <= s.len(),
        forall|j: int| e <= j < s.len() ==> #[trigger] s[j] == c,
        e == 0 || s[e - 1] != c,
    ensures
        spec_strip_trailing(s, c) == s.subrange(0, e),
    decreases s.len(),
{
    if e == s.len() {
        if s.len() == 0 || s.last() != c {
            assert(s.subrange(0, e) =~= s);
        } else {
            assert(s[e - 1] != c);
            assert(s[s.len() - 1] == c);
        }
    } else {
        let t = s.drop_last();
        lemma_strip_trailing_at(t, c, e);
        assert(t.subrange(0, e) =~= s.subrange(0, e));
    }
}

/// Removes every trailing occurrence of `c`.
pub fn strip_trailing(s: &str, c: char) -> (r: String)
    ensures
        r@ == spec_strip_trailing(s@, c),
{
    let n = s.unicode_len();
    let mut e: usize = n;
    while e > 0 && s.get_char(e - 1) == c
        invariant
            e <= n,
            n == s@.len(),
            forall|j: int| e <= j < n ==> #[trigger] s@[j] == c,
        decreases e,
    {
        e -= 1;
    }
    proof {
        lemma_strip_trailing_at(s@, c, e as int);
    }
    let piece = s.substring_char(0, e);
    piece.to_owned()
}

/// The opening fence before a JSON block in a model's reply.
pub open spec fn spec_json_fence() -> Seq<char> {
    seq!['`', '`', '`', 'j', 's', 'o', 'n']
}

/// A plain fence.
pub open spec fn spec_fence() -> Seq<char> {
    seq!['`', '`', '`']
}

/// The opening fence as a string.
fn json_fence() -> (r: &'static str)
    ensures
        r@ == spec_json_fence(),
{
    proof {
        reveal_strlit("```json");
    }
    let r = "```json";
    assert(r@ =~= spec_json_fence());
    r
}

/// A plain fence as a string.
fn fence() -> (r: &'static str)
    ensures
        r@ == spec_fence(),
{
    proof {
        reveal_strlit("```");
    }
    let r = "```";
    assert(r@ =~= spec_fence());
    r
}

/// The raw JSON segment of a reply: the text after the first opening fence,
/// ending at the next opening fence if there is one, then cut at the first
/// plain fence; nothing where the reply has no opening fence.
pub open spec fn spec_json_segment(s: Seq<char>) -> Option<Seq<char>> {
    match spec_find(s, spec_json_fence()) {
        None => None,
        Some(i) => {
            let after = s.subrange(i + 7, s.len() as int);
            let seg = match spec_find(after, spec_json_fence()) {
                None => after,
                Some(j) => after.subrange(0, j),
            };
            let cut = match spec_find(seg, spec_fence()) {
                None => seg,
                Some(k) => seg.subrange(0, k),
            };
            Some(cut)
        },
    }
}

/// The JSON text a reply carries: its raw segment with line breaks removed
/// and white space trimmed away; nothing where the reply has no fenced
/// block.
pub open spec fn spec_extract_json(s: Seq<char>) -> Option<Seq<char>> {
    match spec_json_segment(s) {
        None => None,
        Some(seg) => Some(spec_trim(spec_strip_nl(seg))),
    }
}

/// Extracts the JSON text out of a model's fenced reply.
pub fn extract_json_block(s: &str) -> (r: Option<String>)
    ensures
        match r {
            Some(t) => spec_extract_json(s@) == Some(t@),
            None => spec_extract_json(s@) is None,
        },
{
    let open_pat = json_fence();
    match find_sub(s, open_pat) {
        None => None,
        Some(i) => {
            proof {
                lemma_find_is_match(s@, open_pat@, 0, i as int);
            }
            let n = s.unicode_len();
            let after: &str = s.substring_char(i + 7, n);
            let seg: &str = match find_sub(after, open_pat) {
                None => after,
                Some(j) => {
                    proof {
                        lemma_find_is_match(after@, open_pat@, 0, j as int);
                    }
                    after.substring_char(0, j)
                },
            };
            let cut: &str = match find_sub(seg, fence()) {
                None => seg,
                Some(k) => {
                    proof {
                        lemma_find_is_match(seg@, spec_fence(), 0, k as int);
                    }
                    seg.substring_char(0, k)
                },
            };
            let stripped = strip_newlines(cut);
            let trimmed = trim(stripped.as_str());
            Some(trimmed)
        },
    }
}

} // verus!
