//! The manifest serializer: the exact text of `Contents.json` for an ordered
//! selection of catalogs, one `images` entry per variant in
//! catalog-then-variant order.

use vstd::prelude::*;
use crate::icon::{views, spec_icon_json, Icon, IconV};

verus! {

/// The views of a sequence of catalogs.
pub open spec fn set_views(s: Seq<Vec<Icon>>) -> Seq<Seq<IconV>> {
    s.map_values(|v: Vec<Icon>| views(v@))
}

/// The variants of an ordered selection of catalogs, in catalog-then-variant
/// order.
pub open spec fn flat_views(sets: Seq<Seq<IconV>>) -> Seq<IconV>
    decreases sets.len(),
{
    if sets.len() == 0 {
        Seq::<IconV>::empty()
    } else {
        flat_views(sets.drop_last()) + sets.last()
    }
}

/// Flattening distributes over concatenation of catalog selections.
pub proof fn lemma_flat_views_concat(s1: Seq<Seq<IconV>>, s2: Seq<Seq<IconV>>)
    ensures
        flat_views(s1 + s2) == flat_views(s1) + flat_views(s2),
    decreases s2.len(),
{
    if s2.len() == 0 {
        assert(s1 + s2 =~= s1);
        assert(flat_views(s1) + flat_views(s2) =~= flat_views(s1));
    } else {
        assert((s1 + s2).drop_last() =~= s1 + s2.drop_last());
        lemma_flat_views_concat(s1, s2.drop_last());
        assert((flat_views(s1) + flat_views(s2.drop_last())) + s2.last() =~= flat_views(s1) + (
        flat_views(s2.drop_last()) + s2.last()));
    }
}

/// The flattening of a single catalog is that catalog.
pub proof fn lemma_flat_views_singleton(s: Seq<IconV>)
    ensures
        flat_views(seq![s]) == s,
{
    assert(seq![s].drop_last() =~= Seq::<Seq<IconV>>::empty());
    assert(flat_views(seq![s].drop_last()) + s =~= s);
}

/// The body of the `images` array: the entries of the given variants in
/// order, separated by `,` and a newline.
pub open spec fn spec_entries(s: Seq<IconV>) -> Seq<char>
    decreases s.len(),
{
    if s.len() == 0 {
        Seq::<char>::empty()
    } else if s.len() == 1 {
        spec_icon_json(s[0])
    } else {
        spec_entries(s.drop_last()) + ",\n"@ + spec_icon_json(s.last())
    }
}

/// The whole manifest document: the `images` array over the selected
/// catalogs' variants, then the fixed `info` object naming the generating
/// tool, byte for byte.
pub open spec fn spec_manifest(sets: Seq<Seq<IconV>>) -> Seq<char> {
    "{\n  \"images\" : [\n"@ + spec_entries(flat_views(sets))
        + "\n  ],\n  \"info\" : {\n    \"author\" : \"xcode\",\n    \"version\" : 1\n  }\n}\n"@
}

/// Serializes an ordered selection of catalogs to the manifest document.
pub fn get_json_str(icons_set: &Vec<Vec<Icon>>) -> (r: String)
    ensures
        r@ == spec_manifest(set_views(icons_set@)),
{
    let ghost sets = set_views(icons_set@);
    let mut entries = String::new();
    let mut first: bool = true;
    let ghost mut done: Seq<IconV> = Seq::<IconV>::empty();
    let mut i: usize = 0;
    while i < icons_set.len()
        invariant
            sets == set_views(icons_set@),
            i <= icons_set.len(),
            done == flat_views(sets.take(i as int)),
            entries@ == spec_entries(done),
            first == (done.len() == 0),
        decreases icons_set.len() - i,
    {
        let icons = &icons_set[i];
        let ghost outer_done = done;
        let mut j: usize = 0;
        while j < icons.len()
            invariant
                sets == set_views(icons_set@),
                i < icons_set.len(),
                icons == &icons_set@[i as int],
                j <= icons.len(),
                outer_done == flat_views(sets.take(i as int)),
                done == outer_done + views(icons@).take(j as int),
                entries@ == spec_entries(done),
                first == (done.len() == 0),
            decreases icons.len() - j,
        {
            if first {
                first = false;
            } else {
                entries.append(",\n");
            }
            let entry = icons[j].to_json();
            entries.append(entry.as_str());
            proof {
                let v = views(icons@)[j as int];
                assert(done.push(v).drop_last() =~= done);
                if done.len() == 0 {
                    assert(spec_entries(done.push(v)) == spec_icon_json(v));
                }
                done = done.push(v);
                assert(done =~= outer_done + views(icons@).take(j as int + 1));
            }
            j += 1;
        }
        proof {
            assert(views(icons@).take(icons@.len() as int) =~= views(icons@));
            assert(sets.take(i as int + 1).drop_last() =~= sets.take(i as int));
            assert(done == flat_views(sets.take(i as int + 1)));
        }
        i += 1;
    }
    proof {
        assert(sets.take(icons_set@.len() as int) =~= sets);
    }
    let mut s = String::from_str("{\n  \"images\" : [\n");
    s.append(entries.as_str());
    s.append("\n  ],\n  \"info\" : {\n    \"author\" : \"xcode\",\n    \"version\" : 1\n  }\n}\n");
    s
}

} // verus!
