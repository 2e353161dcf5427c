//! Component statistics: the settings, and the text handling of what the
//! system reports about its processors.

use vstd::prelude::*;
use vstd::string::*;
use crate::text::{split_at_char, split_seq, texts};

verus! {

broadcast use vstd::string::group_string_axioms;

/// Which component figures are shown, and how.
#[derive(Clone, Debug)]
pub struct ComponentStatsOptions {
    pub enabled: bool,
    pub show_cpu: bool,
    pub show_gpu: bool,
    pub show_vram: bool,
    pub show_ram: bool,
    pub cpu_display_model: bool,
    pub cpu_custom_model: Option<String>,
    pub cpu_round_usage: bool,
    pub cpu_stylized_uppercase: bool,
    pub gpu_display_model: bool,
    pub gpu_custom_model: Option<String>,
    pub gpu_round_usage: bool,
    pub gpu_stylized_uppercase: bool,
    pub vram_round_usage: bool,
    pub vram_show_max: bool,
    pub vram_stylized_uppercase: bool,
    pub ram_round_usage: bool,
    pub ram_show_max: bool,
    pub ram_stylized_uppercase: bool,
}

/// The position of the last occurrence of `c` in `s`, if any.
pub open spec fn last_index_of(s: Seq<char>, c: char) -> Option<nat>
    decreases s.len(),
{
    if s.len() == 0 {
        None
    } else if s.last() == c {
        Some((s.len() - 1) as nat)
    } else {
        last_index_of(s.drop_last(), c)
    }
}

/// The position of the first occurrence of `c` in `s`, if any.
pub open spec fn first_index_of(s: Seq<char>, c: char) -> Option<nat>
    decreases s.len(),
{
    if s.len() == 0 {
        None
    } else if s[0] == c {
        Some(0)
    } else {
        match first_index_of(s.drop_first(), c) {
            Some(i) => Some((i + 1) as nat),
            None => None,
        }
    }
}

fn find_last(s: &str, c: char) -> (r: Option<usize>)
    ensures
        r matches Some(i) ==> last_index_of(s@, c) == Some(i as nat),
        r is None ==> last_index_of(s@, c) is None,
{
    let mut k = s.unicode_len();
    assert(s@.take(k as int) =~= s@);
    while k > 0
        invariant
            k <= s@.len(),
            last_index_of(s@, c) == last_index_of(s@.take(k as int), c),
        decreases k,
    {
        assert(s@.take(k as int).drop_last() =~= s@.take(k - 1));
        if s.get_char(k - 1) == c {
            return Some(k - 1);
        }
        k = k - 1;
    }
    None
}

fn find_first(s: &str, c: char) -> (r: Option<usize>)
    ensures
        r matches Some(i) ==> first_index_of(s@, c) == Some(i as nat),
        r is None ==> first_index_of(s@, c) is None,
{
    let n = s.unicode_len();
    let mut k: usize = 0;
    assert(s@.skip(0) =~= s@);
    while k < n
        invariant
            n == s@.len(),
            k <= n,
            first_index_of(s@, c) == match first_index_of(s@.skip(k as int), c) {
                Some(i) => Some((i + k) as nat),
                None => None::<nat>,
            },
        decreases n - k,
    {
        assert(s@.skip(k as int).drop_first() =~= s@.skip(k + 1));
        if s.get_char(k) == c {
            return Some(k);
        }
        k = k + 1;
    }
    None
}

/// The model of a device: the text after the last space of its full name, or
/// the whole name when it has no space.
pub open spec fn model_name(full: Seq<char>) -> Seq<char> {
    match last_index_of(full, ' ') {
        Some(i) => full.skip(i + 1 as int),
        None => full,
    }
}

/// The last word of a device's full name.
pub fn extract_model_name(full_name: &str) -> (r: String)
    ensures
        r@ == model_name(full_name@),
{
    let n = full_name.unicode_len();
    match find_last(full_name, ' ') {
        Some(i) => {
            proof {
                lemma_last_index_in_range(full_name@, ' ');
            }
            let r = String::from_str(full_name.substring_char(i + 1, n));
            assert(r@ =~= full_name@.skip(i + 1));
            r
        },
        None => String::from_str(full_name),
    }
}

proof fn lemma_last_index_in_range(s: Seq<char>, c: char)
    ensures
        last_index_of(s, c) matches Some(i) ==> i < s.len(),
    decreases s.len(),
{
    if s.len() > 0 {
        lemma_last_index_in_range(s.drop_last(), c);
    }
}

proof fn lemma_first_index_in_range(s: Seq<char>, c: char)
    ensures
        first_index_of(s, c) matches Some(i) ==> i < s.len(),
    decreases s.len(),
{
    if s.len() > 0 {
        lemma_first_index_in_range(s.drop_first(), c);
    }
}

/// The text between the first `'['` and the first `']'` of a line, when both
/// are there in that order.
pub open spec fn bracketed(line: Seq<char>) -> Option<Seq<char>> {
    match (first_index_of(line, '['), first_index_of(line, ']')) {
        (Some(a), Some(b)) => if a < b {
            Some(line.subrange(a + 1 as int, b as int))
        } else {
            None
        },
        _ => None,
    }
}

/// The bracketed names of the lines of `output`, in order.
pub open spec fn bracketed_names(lines: Seq<Seq<char>>) -> Seq<Seq<char>>
    decreases lines.len(),
{
    if lines.len() == 0 {
        Seq::empty()
    } else {
        bracketed_names(lines.drop_last()) + match bracketed(lines.last()) {
            Some(n) => seq![n],
            None => Seq::empty(),
        }
    }
}

/// `a` comes no later than `b` in the order of `String`'s `Ord`: by code
/// points from the left, a prefix first.
pub open spec fn text_le(a: Seq<char>, b: Seq<char>) -> bool
    decreases a.len(),
{
    if a.len() == 0 {
        true
    } else if b.len() == 0 {
        false
    } else if (a[0] as u32) != (b[0] as u32) {
        (a[0] as u32) < (b[0] as u32)
    } else {
        text_le(a.drop_first(), b.drop_first())
    }
}

/// Each text comes no later than the next one.
pub open spec fn is_sorted(s: Seq<Seq<char>>) -> bool {
    forall|i: int| 0 <= i < s.len() - 1 ==> text_le(#[trigger] s[i], s[i + 1])
}

proof fn lemma_text_le_total(a: Seq<char>, b: Seq<char>)
    ensures
        text_le(a, b) || text_le(b, a),
    decreases a.len(),
{
    if a.len() > 0 && b.len() > 0 && (a[0] as u32) == (b[0] as u32) {
        lemma_text_le_total(a.drop_first(), b.drop_first());
    }
}

fn le_text(a: &str, b: &str) -> (r: bool)
    ensures
        r == text_le(a@, b@),
{
    let n = a.unicode_len();
    let m = b.unicode_len();
    let mut i: usize = 0;
    assert(a@.skip(0) =~= a@);
    assert(b@.skip(0) =~= b@);
    while i < n && i < m && a.get_char(i) as u32 == b.get_char(i) as u32
        invariant
            n == a@.len(),
            m == b@.len(),
            i <= n,
            i <= m,
            text_le(a@, b@) == text_le(a@.skip(i as int), b@.skip(i as int)),
        decreases n - i,
    {
        assert(a@.skip(i as int).drop_first() =~= a@.skip(i + 1));
        assert(b@.skip(i as int).drop_first() =~= b@.skip(i + 1));
        i = i + 1;
    }
    if i == n {
        true
    } else if i == m {
        false
    } else {
        let x = a.get_char(i);
        let y = b.get_char(i);
        assert(a@.skip(i as int)[0] == x);
        assert(b@.skip(i as int)[0] == y);
        (x as u32) < (y as u32)
    }
}

/// The texts in ascending order of `String`'s `Ord`, each kept as often as it occurs.
pub fn sort_texts(v: &Vec<String>) -> (r: Vec<String>)
    ensures
        is_sorted(texts(r@)),
        texts(r@).to_multiset() == texts(v@).to_multiset(),
{
    let ghost input = texts(v@);
    let mut out: Vec<String> = Vec::new();
    let mut k: usize = 0;
    assert(texts(out@) =~= Seq::<Seq<char>>::empty());
    assert(input.take(0) =~= Seq::<Seq<char>>::empty());
    while k < v.len()
        invariant
            input == texts(v@),
            k <= v.len(),
            is_sorted(texts(out@)),
            texts(out@).to_multiset() == input.take(k as int).to_multiset(),
        decreases v.len() - k,
    {
        let x = &v[k];
        let mut p: usize = 0;
        while p < out.len() && le_text(out[p].as_str(), x.as_str())
            invariant
                p <= out.len(),
                p > 0 ==> text_le(out@[p - 1]@, x@),
            decreases out.len() - p,
        {
            p = p + 1;
        }
        let ghost before = texts(out@);
        if p < out.len() {
            proof {
                lemma_text_le_total(out@[p as int]@, x@);
            }
        }
        out.insert(p, x.clone());
        let ghost after = texts(out@);
        assert(after =~= before.insert(p as int, x@));
        assert(input.take(k + 1) =~= input.take(k as int).push(x@));
        proof {
            vstd::seq_lib::to_multiset_insert(before, p as int, x@);
            vstd::seq_lib::to_multiset_build(input.take(k as int), x@);
        }
        assert forall|i: int| 0 <= i < after.len() - 1 implies text_le(#[trigger] after[i], after[i + 1]) by {
            if i < p - 1 {
                assert(after[i] == before[i] && after[i + 1] == before[i + 1]);
            } else if i == p - 1 {
            } else if i == p {
            } else {
                assert(after[i] == before[i - 1] && after[i + 1] == before[i]);
            }
        }
        k = k + 1;
    }
    assert(input.take(v.len() as int) =~= input);
    out
}

/// The device names of a short hardware listing (on each line, the text in
/// brackets), in ascending order.
pub fn gpu_names(listing: &str) -> (r: Vec<String>)
    ensures
        is_sorted(texts(r@)),
        texts(r@).to_multiset() == bracketed_names(split_seq(listing@, '\n')).to_multiset(),
{
    let names = listed_names(listing);
    sort_texts(&names)
}

/// The device names of a short hardware listing, in the order of its lines.
pub fn listed_names(listing: &str) -> (r: Vec<String>)
    ensures
        texts(r@) == bracketed_names(split_seq(listing@, '\n')),
{
    let lines = split_at_char(listing, '\n');
    let ghost ls = texts(lines@);
    let mut names: Vec<String> = Vec::new();
    let mut i: usize = 0;
    assert(ls.take(0) =~= Seq::<Seq<char>>::empty());
    assert(texts(names@) =~= Seq::<Seq<char>>::empty());
    while i < lines.len()
        invariant
            ls == texts(lines@),
            i <= lines.len(),
            texts(names@) == bracketed_names(ls.take(i as int)),
        decreases lines.len() - i,
    {
        let line = lines[i].as_str();
        assert(ls.take(i + 1).drop_last() =~= ls.take(i as int));
        assert(ls.take(i + 1).last() == line@);
        let ghost before = texts(names@);
        match (find_first(line, '['), find_first(line, ']')) {
            (Some(a), Some(b)) => {
                if a < b {
                    proof {
                        lemma_first_index_in_range(line@, ']');
                    }
                    let name = String::from_str(line.substring_char(a + 1, b));
                    names.push(name);
                    assert(texts(names@) =~= before + seq![name@]);
                } else {
                    assert(texts(names@) =~= before + Seq::<Seq<char>>::empty());
                }
            },
            _ => {
                assert(texts(names@) =~= before + Seq::<Seq<char>>::empty());
            },
        }
        i = i + 1;
    }
    assert(ls.take(lines.len() as int) =~= ls);
    names
}

} // verus!
