//! Splitting text into lines and words and reading decimal numbers, as
//! the `/proc` and `/sys` files that the sensors read are laid out.

use vstd::prelude::*;

verus! {

/// Whether `c` is white space in the sense of Unicode's `White_Space`
/// property (what `char::is_whitespace` tests).
pub open spec fn is_ws(c: char) -> bool {
    let n = c as u32;
    ||| 0x09 <= n <= 0x0D
    ||| n == 0x20
    ||| n == 0x85
    ||| n == 0xA0
    ||| n == 0x1680
    ||| 0x2000 <= n <= 0x200A
    ||| n == 0x2028
    ||| n == 0x2029
    ||| n == 0x202F
    ||| n == 0x205F
    ||| n == 0x3000
}

/// Tests whether `c` is white space.
pub fn is_whitespace(c: char) -> (b: bool)
    ensures
        b == is_ws(c),
{
    let n = c as u32;
    (0x09 <= n && n <= 0x0D) || n == 0x20 || n == 0x85 || n == 0xA0 || n == 0x1680 || (0x2000 <= n
        && n <= 0x200A) || n == 0x2028 || n == 0x2029 || n == 0x202F || n == 0x205F || n == 0x3000
}

/// The characters of a string slice.
pub fn chars_of(s: &str) -> (v: Vec<char>)
    ensures
        v@ == s@,
{
    let n = s.unicode_len();
    let mut v: Vec<char> = Vec::new();
    let mut i: usize = 0;
    while i < n
        invariant
            n == s@.len(),
            i <= n,
            v@ == s@.take(i as int),
        decreases n - i,
    {
        v.push(s.get_char(i));
        i = i + 1;
        assert(v@ =~= s@.take(i as int));
    }
    assert(s@.take(n as int) =~= s@);
    v
}

/// The words of `s` after the word `cur` that has been read so far:
/// maximal runs of characters other than white space.
pub open spec fn words_from(s: Seq<char>, cur: Seq<char>) -> Seq<Seq<char>>
    decreases s.len(),
{
    if s.len() == 0 {
        if cur.len() == 0 {
            Seq::empty()
        } else {
            seq![cur]
        }
    } else if is_ws(s[0]) {
        if cur.len() == 0 {
            words_from(s.drop_first(), Seq::empty())
        } else {
            seq![cur] + words_from(s.drop_first(), Seq::empty())
        }
    } else {
        words_from(s.drop_first(), cur.push(s[0]))
    }
}

/// The words of `s` (what `str::split_whitespace` yields).
pub open spec fn words(s: Seq<char>) -> Seq<Seq<char>> {
    words_from(s, Seq::empty())
}

/// The lines of `s` after the part `cur` of the current line read so far
/// (what `str::lines` yields: lines end at `\n`, a `\r` right before the
/// `\n` is dropped, and a final line ending adds no empty line).
pub open spec fn lines_from(s: Seq<char>, cur: Seq<char>) -> Seq<Seq<char>>
    decreases s.len(),
{
    if s.len() == 0 {
        if cur.len() == 0 {
            Seq::empty()
        } else {
            seq![cur]
        }
    } else if s[0] == '\n' {
        seq![strip_cr(cur)] + lines_from(s.drop_first(), Seq::empty())
    } else {
        lines_from(s.drop_first(), cur.push(s[0]))
    }
}

/// A line without the `\r` of a `\r\n` ending.
pub open spec fn strip_cr(l: Seq<char>) -> Seq<char> {
    if l.len() > 0 && l.last() == '\r' {
        l.drop_last()
    } else {
        l
    }
}

/// The lines of `s`.
pub open spec fn lines(s: Seq<char>) -> Seq<Seq<char>> {
    lines_from(s, Seq::empty())
}

/// The value of a string of ASCII digits.
pub open spec fn digits_value(s: Seq<char>) -> nat
    decreases s.len(),
{
    if s.len() == 0 {
        0
    } else {
        digits_value(s.drop_last()) * 10 + (s.last() as nat - 48) as nat
    }
}

/// Whether every character of `s` is an ASCII digit.
pub open spec fn all_digits(s: Seq<char>) -> bool {
    forall|i: int| 0 <= i < s.len() ==> '0' <= #[trigger] s[i] <= '9'
}

/// `s` without a leading `+`.
pub open spec fn unsigned_part(s: Seq<char>) -> Seq<char> {
    if s.len() > 0 && s[0] == '+' {
        s.drop_first()
    } else {
        s
    }
}

/// The `u64` that `s` denotes as `str::parse::<u64>` reads it: an optional
/// `+` followed by at least one ASCII digit, with a value that fits.
pub open spec fn parse_u64(s: Seq<char>) -> Option<u64> {
    let t = unsigned_part(s);
    if t.len() > 0 && all_digits(t) && digits_value(t) <= u64::MAX {
        Some(digits_value(t) as u64)
    } else {
        None
    }
}

/// Views of a list of character vectors.
pub open spec fn char_views(v: Seq<Vec<char>>) -> Seq<Seq<char>> {
    v.map_values(|w: Vec<char>| w@)
}

/// One step of a scan: the rest from `i` starts with `s[i]` and goes on
/// with the rest from `i + 1`.
pub proof fn lemma_skip_step<A>(s: Seq<A>, i: int)
    requires
        0 <= i < s.len(),
    ensures
        s.skip(i)[0] == s[i],
        s.skip(i).drop_first() == s.skip(i + 1),
        s.skip(i).len() > 0,
{
    assert(s.skip(i).drop_first() =~= s.skip(i + 1));
}

/// Splits `s` into its words.
pub fn split_words(s: &[char]) -> (ws: Vec<Vec<char>>)
    ensures
        char_views(ws@) == words(s@),
{
    let mut ws: Vec<Vec<char>> = Vec::new();
    let mut cur: Vec<char> = Vec::new();
    let mut i: usize = 0;
    assert(s@.skip(0) =~= s@);
    while i < s.len()
        invariant
            i <= s@.len(),
            char_views(ws@) + words_from(s@.skip(i as int), cur@) == words(s@),
        decreases s@.len() - i,
    {
        proof {
            lemma_skip_step(s@, i as int);
        }
        let c = s[i];
        if is_whitespace(c) {
            if cur.len() > 0 {
                let ghost before = char_views(ws@);
                let ghost cw = cur@;
                ws.push(cur);
                proof {
                    assert(char_views(ws@) =~= before.push(cw));
                    assert(char_views(ws@) + words_from(s@.skip(i + 1), Seq::empty()) =~= before + (
                    seq![cw] + words_from(s@.skip(i + 1), Seq::empty())));
                }
                cur = Vec::new();
            } else {
                assert(cur@ =~= Seq::<char>::empty());
            }
        } else {
            cur.push(c);
        }
        i = i + 1;
    }
    proof {
        assert(s@.skip(i as int) =~= Seq::<char>::empty());
    }
    if cur.len() > 0 {
        let ghost before = char_views(ws@);
        let ghost cw = cur@;
        ws.push(cur);
        proof {
            assert(char_views(ws@) =~= before.push(cw));
        }
    } else {
        proof {
            assert(char_views(ws@) =~= char_views(ws@) + Seq::<Seq<char>>::empty());
        }
    }
    ws
}

/// Splits `s` into its lines.
pub fn split_lines(s: &[char]) -> (ls: Vec<Vec<char>>)
    ensures
        char_views(ls@) == lines(s@),
{
    let mut ls: Vec<Vec<char>> = Vec::new();
    let mut cur: Vec<char> = Vec::new();
    let mut i: usize = 0;
    assert(s@.skip(0) =~= s@);
    while i < s.len()
        invariant
            i <= s@.len(),
            char_views(ls@) + lines_from(s@.skip(i as int), cur@) == lines(s@),
        decreases s@.len() - i,
    {
        proof {
            lemma_skip_step(s@, i as int);
        }
        let c = s[i];
        if c == '\n' {
            let ghost before = char_views(ls@);
            let ghost cw = cur@;
            let n = cur.len();
            if n > 0 && cur[n - 1] == '\r' {
                cur.pop();
            }
            assert(cur@ == strip_cr(cw));
            ls.push(cur);
            proof {
                assert(char_views(ls@) =~= before.push(strip_cr(cw)));
                assert(char_views(ls@) + lines_from(s@.skip(i + 1), Seq::empty()) =~= before + (
                seq![strip_cr(cw)] + lines_from(s@.skip(i + 1), Seq::empty())));
            }
            cur = Vec::new();
        } else {
            cur.push(c);
        }
        i = i + 1;
    }
    proof {
        assert(s@.skip(i as int) =~= Seq::<char>::empty());
    }
    if cur.len() > 0 {
        let ghost before = char_views(ls@);
        let ghost cw = cur@;
        ls.push(cur);
        proof {
            assert(char_views(ls@) =~= before.push(cw));
        }
    } else {
        proof {
            assert(char_views(ls@) =~= char_views(ls@) + Seq::<Seq<char>>::empty());
        }
    }
    ls
}

proof fn lemma_digits_push(t: Seq<char>, c: char)
    ensures
        digits_value(t.push(c)) == digits_value(t) * 10 + (c as nat - 48) as nat,
{
    assert(t.push(c).drop_last() =~= t);
}

/// Reads a decimal `u64` as `str::parse::<u64>` does.
pub fn parse_u64_chars(s: &[char]) -> (r: Option<u64>)
    ensures
        r == parse_u64(s@),
{
    let n = s.len();
    let start: usize = if n > 0 && s[0] == '+' {
        1
    } else {
        0
    };
    let ghost t = unsigned_part(s@);
    assert(t =~= s@.skip(start as int));
    if start == n {
        return None;
    }
    let mut v: u128 = 0;
    let mut over = false;
    let mut i: usize = start;
    while i < n
        invariant
            start <= i <= n,
            n == s@.len(),
            t == s@.skip(start as int),
            t == unsigned_part(s@),
            all_digits(t.take(i - start)),
            !over ==> v == digits_value(t.take(i - start)) && v <= u64::MAX,
            over ==> digits_value(t.take(i - start)) > u64::MAX,
        decreases n - i,
    {
        let c = s[i];
        if c < '0' || c > '9' {
            proof {
                assert(t[i - start] == c);
                assert(!all_digits(t));
            }
            return None;
        }
        proof {
            assert(t.take(i - start + 1) =~= t.take(i - start).push(c));
            lemma_digits_push(t.take(i - start), c);
        }
        let d: u128 = (c as u32 - 48) as u128;
        if !over {
            let w: u128 = v * 10 + d;
            if w > 0xFFFF_FFFF_FFFF_FFFFu128 {
                over = true;
            } else {
                v = w;
            }
        }
        i = i + 1;
    }
    assert(t.take(n - start) =~= t);
    if over {
        None
    } else {
        Some(v as u64)
    }
}

/// Whether `p` is a prefix of `s`.
pub fn has_prefix(s: &[char], p: &[char]) -> (b: bool)
    ensures
        b == p@.is_prefix_of(s@),
{
    if p.len() > s.len() {
        return false;
    }
    let mut i: usize = 0;
    while i < p.len()
        invariant
            p@.len() <= s@.len(),
            i <= p@.len(),
            forall|j: int| 0 <= j < i ==> p@[j] == s@[j],
        decreases p@.len() - i,
    {
        if p[i] != s[i] {
            return false;
        }
        i = i + 1;
    }
    assert(p@ =~= s@.subrange(0, p@.len() as int));
    true
}

/// Whether two character sequences are equal.
pub fn chars_eq(a: &[char], b: &[char]) -> (r: bool)
    ensures
        r == (a@ == b@),
{
    if a.len() != b.len() {
        return false;
    }
    let r = has_prefix(a, b);
    proof {
        if r {
            assert(a@ =~= b@);
        }
    }
    r
}

/// The characters of `v` as a string.
pub fn string_of(v: &[char]) -> (s: String)
    ensures
        s@ == v@,
{
    let mut s = String::new();
    let mut i: usize = 0;
    while i < v.len()
        invariant
            i <= v@.len(),
            s@ == v@.take(i as int),
        decreases v@.len() - i,
    {
        crate::text::push_char(&mut s, v[i]);
        i = i + 1;
        assert(s@ =~= v@.take(i as int));
    }
    assert(v@.take(v@.len() as int) =~= v@);
    s
}

/// A word: not empty, without white space.
pub open spec fn clean_word(w: Seq<char>) -> bool {
    w.len() > 0 && forall|j: int| 0 <= j < w.len() ==> !is_ws(#[trigger] w[j])
}

proof fn lemma_words_from_clean(s: Seq<char>, cur: Seq<char>)
    requires
        forall|j: int| 0 <= j < cur.len() ==> !is_ws(#[trigger] cur[j]),
    ensures
        forall|i: int|
            0 <= i < words_from(s, cur).len() ==> clean_word(#[trigger] words_from(s, cur)[i]),
    decreases s.len(),
{
    let w = words_from(s, cur);
    if s.len() == 0 {
        if cur.len() > 0 {
            assert(w == seq![cur]);
            assert(clean_word(cur));
            assert(w[0] == cur);
        } else {
            assert(w.len() == 0);
        }
    } else if is_ws(s[0]) {
        let rest = words_from(s.drop_first(), Seq::empty());
        lemma_words_from_clean(s.drop_first(), Seq::empty());
        if cur.len() > 0 {
            assert(w == seq![cur] + rest);
            assert(clean_word(cur));
            assert forall|i: int| 0 <= i < w.len() implies clean_word(#[trigger] w[i]) by {
                if i > 0 {
                    assert(w[i] == rest[i - 1]);
                }
            }
        } else {
            assert(w == rest);
        }
    } else {
        let c2 = cur.push(s[0]);
        assert forall|j: int| 0 <= j < c2.len() implies !is_ws(#[trigger] c2[j]) by {
            if j < cur.len() {
                assert(c2[j] == cur[j]);
            }
        }
        lemma_words_from_clean(s.drop_first(), c2);
        assert(w == words_from(s.drop_first(), c2));
    }
}

/// The words of a text are never empty and hold no white space.
pub proof fn law_words_are_clean(s: Seq<char>, i: int)
    requires
        0 <= i < words(s).len(),
    ensures
        clean_word(words(s)[i]),
{
    lemma_words_from_clean(s, Seq::empty());
}

} // verus!
