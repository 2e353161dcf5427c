//! Greedy word wrapping of text fragments under a per-line character budget.

use vstd::prelude::*;
use vstd::string::*;
use crate::text::{is_space, space, texts};

verus! {

broadcast use vstd::string::group_string_axioms;

/// The line width of the chatbox, in characters.
pub const MAX_LINE_WIDTH: usize = 27;

/// How consecutive fragments are set apart.
#[derive(Clone, Copy, Debug, PartialEq, Eq, Structural)]
pub enum Joiner {
    /// Each fragment starts on a line of its own.
    Newline,
    /// Fragments are separated by `" | "`.
    Inline,
}

/// The inline separator `" | "`.
pub open spec fn separator() -> Seq<char> {
    seq![' ', '|', ' ']
}

/// Puts `word` after the finished `lines` and the line `cur` being filled:
/// on `cur` when it fits with one space, else on a new line; a word wider
/// than `w` is cut to its first `w` characters and stands on a line of its own.
pub open spec fn place_word(lines: Seq<Seq<char>>, cur: Seq<char>, word: Seq<char>, w: nat) -> (
    Seq<Seq<char>>,
    Seq<char>,
) {
    if word.len() == 0 {
        (lines, cur)
    } else if word.len() > w {
        ((if cur.len() > 0 { lines.push(cur) } else { lines }).push(word.take(w as int)), Seq::empty())
    } else if cur.len() == 0 {
        (lines, word)
    } else if cur.len() + 1 + word.len() <= w {
        (lines, cur + seq![' '] + word)
    } else {
        (lines.push(cur), word)
    }
}

/// The finished lines once `cur` is closed (an empty line is dropped).
pub open spec fn close_line(lines: Seq<Seq<char>>, cur: Seq<char>) -> Seq<Seq<char>> {
    if cur.len() > 0 {
        lines.push(cur)
    } else {
        lines
    }
}

/// Reading `s` from the left: the finished lines, the line being filled and the
/// word being read. Whitespace ends a word; `'\n'` also ends the line.
pub open spec fn scan(s: Seq<char>, w: nat) -> (Seq<Seq<char>>, Seq<char>, Seq<char>)
    decreases s.len(),
{
    if s.len() == 0 {
        (Seq::empty(), Seq::empty(), Seq::empty())
    } else {
        let (lines, cur, word) = scan(s.drop_last(), w);
        let c = s.last();
        if is_space(c) {
            let (l2, c2) = place_word(lines, cur, word, w);
            if c == '\n' {
                (close_line(l2, c2), Seq::empty(), Seq::empty())
            } else {
                (l2, c2, Seq::empty())
            }
        } else {
            (lines, cur, word.push(c))
        }
    }
}

/// The lines of one fragment.
pub open spec fn fragment_lines(s: Seq<char>, w: nat) -> Seq<Seq<char>> {
    let (lines, cur, word) = scan(s, w);
    let (l2, c2) = place_word(lines, cur, word, w);
    close_line(l2, c2)
}

/// Appends the separator to the last line when it still fits, else adds it as a line.
pub open spec fn add_separator(lines: Seq<Seq<char>>, w: nat) -> Seq<Seq<char>> {
    if lines.len() == 0 {
        lines
    } else if lines.last().len() + separator().len() <= w {
        lines.update(lines.len() - 1, lines.last() + separator())
    } else {
        lines.push(separator())
    }
}

/// The lines of the first `k` fragments.
pub open spec fn wrap_prefix(frags: Seq<Seq<char>>, joiner: Joiner, w: nat, k: nat) -> Seq<Seq<char>>
    decreases k,
{
    if k == 0 || k > frags.len() {
        Seq::empty()
    } else {
        let lines = wrap_prefix(frags, joiner, w, (k - 1) as nat) + fragment_lines(frags[k - 1], w);
        if joiner == Joiner::Inline && k < frags.len() {
            add_separator(lines, w)
        } else {
            lines
        }
    }
}

/// The wrapped lines of all fragments.
pub open spec fn wrapped(frags: Seq<Seq<char>>, joiner: Joiner, w: nat) -> Seq<Seq<char>> {
    wrap_prefix(frags, joiner, w, frags.len())
}

fn place_word_into(lines: &mut Vec<String>, cur: &mut String, word: &str, w: usize)
    requires
        old(cur)@.len() <= w,
    ensures
        (texts(final(lines)@), final(cur)@) == place_word(texts(old(lines)@), old(cur)@, word@, w as nat),
        final(cur)@.len() <= w,
{
    let wl = word.unicode_len();
    let cl = cur.unicode_len();
    let ghost before = texts(lines@);
    if wl == 0 {
    } else if wl > w {
        if cl > 0 {
            lines.push(cur.clone());
        }
        let ghost mid = texts(lines@);
        let cut = String::from_str(word.substring_char(0, w));
        lines.push(cut);
        *cur = String::new();
        assert(texts(lines@) =~= mid.push(word@.take(w as int)));
        assert(mid =~= (if old(cur)@.len() > 0 { before.push(old(cur)@) } else { before }));
    } else if cl == 0 {
        *cur = String::from_str(word);
    } else if cl < w && wl <= w - cl - 1 {
        proof {
            reveal_strlit(" ");
        }
        cur.append(" ");
        cur.append(word);
        assert(cur@ =~= old(cur)@ + seq![' '] + word@);
    } else {
        lines.push(cur.clone());
        *cur = String::from_str(word);
        assert(texts(lines@) =~= before.push(old(cur)@));
    }
}

/// Wraps one fragment: words are packed greedily onto lines of at most `w`
/// characters, and each `'\n'` of the fragment starts a new line.
pub fn wrap_fragment(s: &str, w: usize) -> (r: Vec<String>)
    ensures
        texts(r@) == fragment_lines(s@, w as nat),
{
    let n = s.unicode_len();
    let mut lines: Vec<String> = Vec::new();
    let mut cur = String::new();
    let mut start: usize = 0;
    let mut i: usize = 0;
    assert(s@.take(0) =~= Seq::<char>::empty());
    assert(texts(lines@) =~= Seq::<Seq<char>>::empty());
    assert(s@.subrange(0, 0) =~= Seq::<char>::empty());
    while i < n
        invariant
            n == s@.len(),
            start <= i <= n,
            cur@.len() <= w,
            scan(s@.take(i as int), w as nat) == (texts(lines@), cur@, s@.subrange(start as int, i as int)),
        decreases n - i,
    {
        let c = s.get_char(i);
        assert(s@.take(i + 1).drop_last() =~= s@.take(i as int));
        assert(s@.take(i + 1).last() == c);
        if space(c) {
            let word = String::from_str(s.substring_char(start, i));
            place_word_into(&mut lines, &mut cur, word.as_str(), w);
            if c == '\n' {
                let ghost before = texts(lines@);
                if cur.unicode_len() > 0 {
                    lines.push(cur.clone());
                    assert(texts(lines@) =~= before.push(cur@));
                }
                cur = String::new();
            }
            start = i + 1;
            assert(s@.subrange(start as int, i + 1) =~= Seq::<char>::empty());
        } else {
            assert(s@.subrange(start as int, i + 1) =~= s@.subrange(start as int, i as int).push(c));
        }
        i = i + 1;
    }
    assert(s@.take(n as int) =~= s@);
    let word = String::from_str(s.substring_char(start, n));
    place_word_into(&mut lines, &mut cur, word.as_str(), w);
    let ghost before = texts(lines@);
    if cur.unicode_len() > 0 {
        lines.push(cur.clone());
        assert(texts(lines@) =~= before.push(cur@));
    }
    lines
}

/// Wraps the fragments in order into lines of at most `max_width` characters.
/// With `Joiner::Inline`, `" | "` follows every fragment but the last, on the
/// fragment's last line when it fits there.
pub fn wrap(fragments: &Vec<String>, joiner: Joiner, max_width: usize) -> (r: Vec<String>)
    ensures
        texts(r@) == wrapped(texts(fragments@), joiner, max_width as nat),
{
    let ghost frags = texts(fragments@);
    let ghost w = max_width as nat;
    let mut lines: Vec<String> = Vec::new();
    let mut k: usize = 0;
    assert(texts(lines@) =~= Seq::<Seq<char>>::empty());
    while k < fragments.len()
        invariant
            frags == texts(fragments@),
            w == max_width as nat,
            k <= fragments.len(),
            texts(lines@) == wrap_prefix(frags, joiner, w, k as nat),
        decreases fragments.len() - k,
    {
        let ghost before = texts(lines@);
        let mut more = wrap_fragment(fragments[k].as_str(), max_width);
        let ghost added = texts(more@);
        lines.append(&mut more);
        assert(texts(lines@) =~= before + added);
        if joiner == Joiner::Inline && k + 1 < fragments.len() && lines.len() > 0 {
            let ghost joined = texts(lines@);
            let last_len = lines[lines.len() - 1].unicode_len();
            proof {
                reveal_strlit(" | ");
            }
            assert(" | "@ =~= separator());
            if max_width >= 3 && last_len <= max_width - 3 {
                let mut last = lines.pop().unwrap();
                last.append(" | ");
                lines.push(last);
                assert(texts(lines@) =~= joined.update(joined.len() - 1, joined.last() + separator()));
            } else {
                lines.push(String::from_str(" | "));
                assert(texts(lines@) =~= joined.push(separator()));
            }
        }
        k = k + 1;
    }
    lines
}

proof fn lemma_place_word_width(lines: Seq<Seq<char>>, cur: Seq<char>, word: Seq<char>, w: nat)
    requires
        forall|i: int| 0 <= i < lines.len() ==> #[trigger] lines[i].len() <= w,
        cur.len() <= w,
    ensures
        ({
            let (l2, c2) = place_word(lines, cur, word, w);
            &&& forall|i: int| 0 <= i < l2.len() ==> #[trigger] l2[i].len() <= w
            &&& c2.len() <= w
        }),
{
}

proof fn lemma_scan_width(s: Seq<char>, w: nat)
    ensures
        ({
            let (lines, cur, word) = scan(s, w);
            &&& forall|i: int| 0 <= i < lines.len() ==> #[trigger] lines[i].len() <= w
            &&& cur.len() <= w
        }),
    decreases s.len(),
{
    if s.len() > 0 {
        lemma_scan_width(s.drop_last(), w);
        let (lines, cur, word) = scan(s.drop_last(), w);
        lemma_place_word_width(lines, cur, word, w);
    }
}

proof fn lemma_fragment_width(s: Seq<char>, w: nat)
    ensures
        forall|i: int| 0 <= i < fragment_lines(s, w).len() ==> #[trigger] fragment_lines(s, w)[i].len() <= w,
{
    lemma_scan_width(s, w);
    let (lines, cur, word) = scan(s, w);
    lemma_place_word_width(lines, cur, word, w);
}

proof fn lemma_prefix_width(frags: Seq<Seq<char>>, joiner: Joiner, w: nat, k: nat)
    requires
        w >= separator().len(),
    ensures
        forall|i: int| 0 <= i < wrap_prefix(frags, joiner, w, k).len()
            ==> #[trigger] wrap_prefix(frags, joiner, w, k)[i].len() <= w,
    decreases k,
{
    if k > 0 && k <= frags.len() {
        lemma_prefix_width(frags, joiner, w, (k - 1) as nat);
        lemma_fragment_width(frags[k - 1], w);
        let a = wrap_prefix(frags, joiner, w, (k - 1) as nat);
        let b = fragment_lines(frags[k - 1], w);
        assert forall|i: int| 0 <= i < (a + b).len() implies #[trigger] (a + b)[i].len() <= w by {
            if i >= a.len() {
                assert((a + b)[i] == b[i - a.len()]);
            }
        }
    }
}

/// Every wrapped line holds at most `w` characters, for any width that leaves
/// room for the separator; a word wider than `w` is cut rather than let through.
pub proof fn lemma_wrap_width(frags: Seq<Seq<char>>, joiner: Joiner, w: nat)
    requires
        w >= separator().len(),
    ensures
        forall|i: int| 0 <= i < wrapped(frags, joiner, w).len() ==> #[trigger] wrapped(frags, joiner, w)[i].len() <= w,
{
    lemma_prefix_width(frags, joiner, w, frags.len());
}

proof fn lemma_scan_word(s: Seq<char>, w: nat)
    requires
        forall|i: int| 0 <= i < s.len() ==> !is_space(#[trigger] s[i]),
    ensures
        scan(s, w) == (Seq::<Seq<char>>::empty(), Seq::<char>::empty(), s),
    decreases s.len(),
{
    if s.len() > 0 {
        assert(!is_space(s[s.len() - 1]));
        lemma_scan_word(s.drop_last(), w);
        assert(s.drop_last().push(s.last()) =~= s);
    }
}

/// A fragment made of one word wider than `w` becomes exactly one line: the
/// word's first `w` characters.
pub proof fn lemma_long_word_cut(word: Seq<char>, w: nat)
    requires
        word.len() > w,
        forall|i: int| 0 <= i < word.len() ==> !is_space(#[trigger] word[i]),
    ensures
        fragment_lines(word, w) == seq![word.take(w as int)],
        fragment_lines(word, w)[0].len() == w,
{
    lemma_scan_word(word, w);
    assert(Seq::<Seq<char>>::empty().push(word.take(w as int)) =~= seq![word.take(w as int)]);
}

/// `q` begins with the lines of `p`.
pub open spec fn extends(q: Seq<Seq<char>>, p: Seq<Seq<char>>) -> bool {
    p.len() <= q.len() && forall|i: int| 0 <= i < p.len() ==> #[trigger] q[i] == p[i]
}

proof fn lemma_scan_extends(s: Seq<char>, t: Seq<char>, w: nat)
    ensures
        extends(scan(s + t, w).0, scan(s, w).0),
    decreases t.len(),
{
    if t.len() == 0 {
        assert(s + t =~= s);
    } else {
        lemma_scan_extends(s, t.drop_last(), w);
        assert((s + t).drop_last() =~= s + t.drop_last());
    }
}

proof fn lemma_fragment_extends(s: Seq<char>, w: nat)
    ensures
        extends(fragment_lines(s, w), scan(s, w).0),
{
}

proof fn lemma_scan_word_after(a: Seq<char>, word: Seq<char>, w: nat)
    requires
        a.len() == 0 || is_space(a.last()),
        forall|i: int| 0 <= i < word.len() ==> !is_space(#[trigger] word[i]),
    ensures
        scan(a + word, w) == (scan(a, w).0, scan(a, w).1, word),
    decreases word.len(),
{
    if word.len() == 0 {
        assert(a + word =~= a);
    } else {
        assert(!is_space(word[word.len() - 1]));
        lemma_scan_word_after(a, word.drop_last(), w);
        assert((a + word).drop_last() =~= a + word.drop_last());
        assert(word.drop_last().push(word.last()) =~= word);
    }
}

/// Anywhere in a fragment, a word wider than `w` (standing between whitespace
/// or the fragment's ends) gives a line that is exactly its first `w` characters.
pub proof fn lemma_long_word_in_fragment(before: Seq<char>, word: Seq<char>, after: Seq<char>, w: nat)
    requires
        word.len() > w,
        forall|i: int| 0 <= i < word.len() ==> !is_space(#[trigger] word[i]),
        before.len() == 0 || is_space(before.last()),
        after.len() == 0 || is_space(after[0]),
    ensures
        exists|i: int|
            0 <= i < fragment_lines(before + word + after, w).len() && #[trigger] fragment_lines(
                before + word + after,
                w,
            )[i] == word.take(w as int),
{
    let s = before + word + after;
    lemma_scan_word_after(before, word, w);
    let (l0, c0, _) = scan(before, w);
    let placed = place_word(l0, c0, word, w).0;
    assert(placed.last() == word.take(w as int));
    if after.len() == 0 {
        assert(s =~= before + word);
        assert(fragment_lines(s, w)[placed.len() - 1] == word.take(w as int));
    } else {
        let head = before + word + seq![after[0]];
        assert(head.drop_last() =~= before + word);
        assert(scan(head, w).0 == placed);
        lemma_scan_extends(head, after.drop_first(), w);
        assert(head + after.drop_first() =~= s);
        lemma_fragment_extends(s, w);
        assert(fragment_lines(s, w)[placed.len() - 1] == word.take(w as int));
    }
}

proof fn lemma_separator_keeps_full_line(lines: Seq<Seq<char>>, w: nat, i: int)
    requires
        0 <= i < lines.len(),
        lines[i].len() == w,
    ensures
        i < add_separator(lines, w).len(),
        add_separator(lines, w)[i] == lines[i],
{
}

proof fn lemma_prefix_keeps_full_line(frags: Seq<Seq<char>>, joiner: Joiner, w: nat, k: nat, m: nat, i: int)
    requires
        0 < k <= m <= frags.len(),
        0 <= i < wrap_prefix(frags, joiner, w, k).len(),
        wrap_prefix(frags, joiner, w, k)[i].len() == w,
    ensures
        i < wrap_prefix(frags, joiner, w, m).len(),
        wrap_prefix(frags, joiner, w, m)[i] == wrap_prefix(frags, joiner, w, k)[i],
    decreases m - k,
{
    if k < m {
        lemma_prefix_keeps_full_line(frags, joiner, w, k, (m - 1) as nat, i);
        let prev = wrap_prefix(frags, joiner, w, (m - 1) as nat);
        let lines = prev + fragment_lines(frags[m - 1], w);
        assert(lines[i] == prev[i]);
        if joiner == Joiner::Inline && m < frags.len() {
            lemma_separator_keeps_full_line(lines, w, i);
        }
    }
}

/// In the wrapped output, a word wider than `w` inside any fragment (standing
/// between whitespace or the fragment's ends) gives a line that is exactly its
/// first `w` characters.
pub proof fn lemma_long_word_wrapped(
    frags: Seq<Seq<char>>,
    joiner: Joiner,
    w: nat,
    k: int,
    before: Seq<char>,
    word: Seq<char>,
    after: Seq<char>,
)
    requires
        0 <= k < frags.len(),
        frags[k] == before + word + after,
        word.len() > w,
        forall|i: int| 0 <= i < word.len() ==> !is_space(#[trigger] word[i]),
        before.len() == 0 || is_space(before.last()),
        after.len() == 0 || is_space(after[0]),
    ensures
        exists|i: int|
            0 <= i < wrapped(frags, joiner, w).len() && #[trigger] wrapped(frags, joiner, w)[i] == word.take(
                w as int,
            ),
{
    lemma_long_word_in_fragment(before, word, after, w);
    let fl = fragment_lines(frags[k], w);
    let j = choose|j: int| 0 <= j < fl.len() && #[trigger] fl[j] == word.take(w as int);
    let prev = wrap_prefix(frags, joiner, w, k as nat);
    let lines = prev + fl;
    let i = prev.len() + j;
    assert(lines[i] == word.take(w as int));
    if joiner == Joiner::Inline && k + 1 < frags.len() {
        lemma_separator_keeps_full_line(lines, w, i);
    }
    assert(wrap_prefix(frags, joiner, w, (k + 1) as nat)[i] == word.take(w as int));
    lemma_prefix_keeps_full_line(frags, joiner, w, (k + 1) as nat, frags.len(), i);
    assert(wrapped(frags, joiner, w)[i] == word.take(w as int));
}

/// Wrapping is a function of its inputs: the same fragments, joiner and width
/// give the same lines on every call.
pub proof fn lemma_wrap_deterministic(
    first: Seq<Seq<char>>,
    second: Seq<Seq<char>>,
    joiner: Joiner,
    w: nat,
)
    requires
        first == second,
    ensures
        wrapped(first, joiner, w) == wrapped(second, joiner, w),
{
}

} // verus!
