//! The source aggregator: one ordered list of fragments from the enabled sources.

use vstd::prelude::*;
use vstd::string::*;
use crate::tabs::IntegrationsTab;
use crate::text::{split_at_char, split_seq, texts, trim, trimmed};
use crate::wrap::separator;

verus! {

broadcast use vstd::string::group_string_axioms;

/// What each source reports on this tick; `None` when it has nothing to show.
/// `stats` is a `'|'`-separated list of component readings.
#[derive(Clone, Debug)]
pub struct SourceReadings {
    pub status: Option<String>,
    pub activity: Option<String>,
    pub stats: Option<String>,
    pub time: Option<String>,
    pub network: Option<String>,
    pub media: Option<String>,
}

/// The pieces taken two by two, trimmed, each pair joined as `"a | b"`; an odd
/// last piece stands alone.
pub open spec fn stat_pairs_of(p: Seq<Seq<char>>) -> Seq<Seq<char>>
    decreases p.len(),
{
    if p.len() == 0 {
        Seq::empty()
    } else if p.len() == 1 {
        seq![trimmed(p[0])]
    } else {
        seq![trimmed(p[0]) + separator() + trimmed(p[1])] + stat_pairs_of(p.subrange(2, p.len() as int))
    }
}

/// Splits a `'|'`-separated stats text into fragments of two readings each.
pub fn stat_pairs(stats: &str) -> (r: Vec<String>)
    ensures
        texts(r@) == stat_pairs_of(split_seq(stats@, '|')),
{
    let pieces = split_at_char(stats, '|');
    let ghost p = texts(pieces@);
    let mut out: Vec<String> = Vec::new();
    let mut i: usize = 0;
    assert(p.subrange(0, p.len() as int) =~= p);
    assert(texts(out@) =~= Seq::<Seq<char>>::empty());
    while i < pieces.len()
        invariant
            p == texts(pieces@),
            i <= pieces.len(),
            texts(out@) + stat_pairs_of(p.subrange(i as int, p.len() as int)) == stat_pairs_of(split_seq(stats@, '|')),
            p == split_seq(stats@, '|'),
        decreases pieces.len() - i,
    {
        let ghost before = texts(out@);
        let ghost rest = p.subrange(i as int, p.len() as int);
        if i + 1 < pieces.len() {
            let mut pair = trim(pieces[i].as_str());
            proof {
                reveal_strlit(" | ");
            }
            assert(" | "@ =~= separator());
            pair.append(" | ");
            let second = trim(pieces[i + 1].as_str());
            pair.append(second.as_str());
            out.push(pair);
            assert(rest.subrange(2, rest.len() as int) =~= p.subrange(i + 2, p.len() as int));
            assert(texts(out@) =~= before.push(pair@));
            assert(before + stat_pairs_of(rest) =~= texts(out@) + stat_pairs_of(p.subrange(i + 2, p.len() as int)));
            i = i + 2;
        } else {
            let single = trim(pieces[i].as_str());
            out.push(single);
            assert(texts(out@) =~= before.push(single@));
            assert(p.subrange(i + 1, p.len() as int) =~= Seq::<Seq<char>>::empty());
            assert(before + stat_pairs_of(rest) =~= texts(out@) + stat_pairs_of(p.subrange(i + 1, p.len() as int)));
            i = i + 1;
        }
    }
    assert(p.subrange(i as int, p.len() as int) =~= Seq::<Seq<char>>::empty());
    assert(texts(out@) + Seq::<Seq<char>>::empty() =~= texts(out@));
    out
}

/// The fragment of a plain source: its text when it is enabled and reports a
/// non-empty one.
pub open spec fn source_part(enabled: bool, reading: Option<String>) -> Seq<Seq<char>> {
    match reading {
        Some(t) => if enabled && t@.len() > 0 {
            seq![t@]
        } else {
            Seq::empty()
        },
        None => Seq::empty(),
    }
}

/// The fragments of the stats source, in pairs.
pub open spec fn stats_part(enabled: bool, reading: Option<String>) -> Seq<Seq<char>> {
    match reading {
        Some(t) => if enabled && t@.len() > 0 {
            stat_pairs_of(split_seq(t@, '|'))
        } else {
            Seq::empty()
        },
        None => Seq::empty(),
    }
}

/// The contributions of the six sources, in their fixed order: status, window
/// activity, component stats, local time, network, media.
pub open spec fn parts(tab: IntegrationsTab, r: SourceReadings) -> Seq<Seq<Seq<char>>> {
    seq![
        source_part(tab.personal_status_enabled, r.status),
        source_part(tab.window_activity_enabled, r.activity),
        stats_part(tab.component_stats_enabled, r.stats),
        source_part(tab.current_time_enabled, r.time),
        source_part(tab.network_stats_enabled, r.network),
        source_part(tab.medialink_enabled, r.media),
    ]
}

/// The six contributions one after another.
pub open spec fn concat_parts(p: Seq<Seq<Seq<char>>>) -> Seq<Seq<char>> {
    p[0] + p[1] + p[2] + p[3] + p[4] + p[5]
}

/// The aggregate fragments.
pub open spec fn fragments_of(tab: IntegrationsTab, r: SourceReadings) -> Seq<Seq<char>> {
    concat_parts(parts(tab, r))
}

fn push_source(out: &mut Vec<String>, enabled: bool, reading: &Option<String>)
    ensures
        texts(final(out)@) == texts(old(out)@) + source_part(enabled, *reading),
{
    let ghost before = texts(out@);
    if enabled {
        match reading {
            Some(t) => {
                if t.as_str().unicode_len() > 0 {
                    out.push(t.clone());
                    assert(texts(out@) =~= before + seq![t@]);
                    return;
                }
            },
            None => {},
        }
    }
    assert(texts(out@) =~= before + source_part(enabled, *reading));
}

/// Collects the fragments of the enabled sources in their fixed order; a
/// disabled or silent source contributes nothing.
pub fn collect_fragments(tab: &IntegrationsTab, readings: &SourceReadings) -> (r: Vec<String>)
    ensures
        texts(r@) == fragments_of(*tab, *readings),
{
    let mut out: Vec<String> = Vec::new();
    assert(texts(out@) =~= Seq::<Seq<char>>::empty());
    push_source(&mut out, tab.personal_status_enabled, &readings.status);
    push_source(&mut out, tab.window_activity_enabled, &readings.activity);
    let ghost before = texts(out@);
    if tab.component_stats_enabled {
        match &readings.stats {
            Some(t) => {
                if t.as_str().unicode_len() > 0 {
                    let mut pairs = stat_pairs(t.as_str());
                    let ghost added = texts(pairs@);
                    out.append(&mut pairs);
                    assert(texts(out@) =~= before + added);
                }
            },
            None => {},
        }
    }
    assert(texts(out@) =~= before + stats_part(tab.component_stats_enabled, readings.stats));
    push_source(&mut out, tab.current_time_enabled, &readings.time);
    push_source(&mut out, tab.network_stats_enabled, &readings.network);
    push_source(&mut out, tab.medialink_enabled, &readings.media);
    assert(texts(out@) =~= fragments_of(*tab, *readings));
    out
}

/// The flags with the source at position `k` of the fixed order turned off.
pub open spec fn without_source(tab: IntegrationsTab, k: int) -> IntegrationsTab {
    IntegrationsTab {
        personal_status_enabled: tab.personal_status_enabled && k != 0,
        window_activity_enabled: tab.window_activity_enabled && k != 1,
        component_stats_enabled: tab.component_stats_enabled && k != 2,
        current_time_enabled: tab.current_time_enabled && k != 3,
        network_stats_enabled: tab.network_stats_enabled && k != 4,
        medialink_enabled: tab.medialink_enabled && k != 5,
    }
}

/// Turning a source off removes its fragments and nothing else: the other
/// sources keep their fragments and their relative order.
pub proof fn lemma_disable_keeps_order(tab: IntegrationsTab, r: SourceReadings, k: int)
    requires
        0 <= k < 6,
    ensures
        fragments_of(without_source(tab, k), r) == concat_parts(parts(tab, r).update(k, Seq::empty())),
{
    assert(parts(without_source(tab, k), r) =~= parts(tab, r).update(k, Seq::empty()));
}

} // verus!
