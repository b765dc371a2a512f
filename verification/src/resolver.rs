//! Index expansion: from seed URLs to root fetches, and from parsed index
//! documents to the leaf references and sub-index fetches they call for.
//!
//! Expansion is exactly two levels deep: a root index contributes its direct
//! leaf references and one sub-index fetch per pointer; a sub-index
//! contributes its leaf references alone, and any pointers nested in it are
//! left unexpanded. A seed or pointer whose URL does not parse is dropped by
//! itself and never disturbs its siblings.

use vstd::prelude::*;

use crate::model::{PdscRef, Vidx};
use crate::uri::{parse_uri, uri_authority, uri_ok, uri_text, authority_view, UriParts};
use crate::urls::{spec_sub_index_url, sub_index_url};

verus! {

/// What each seed contributes at the specification level: the canonical text
/// of the URI fetched for it, or nothing when the seed does not parse.
pub open spec fn spec_seed_fetches(seeds: Seq<Seq<char>>) -> Seq<Option<Seq<char>>> {
    seeds.map_values(
        |s: Seq<char>|
            if uri_ok(s) {
                Some(uri_text(s))
            } else {
                None
            },
    )
}

/// The fetch a plan entry stands for, if any.
pub open spec fn spec_plan_fetch(p: Option<UriParts>) -> Option<Seq<char>> {
    match p {
        Some(u) => Some(u.text@),
        None => None,
    }
}

/// Turns the seed list into one root-fetch plan per seed: the parsed URI for
/// a seed that parses, nothing for one that does not. Each entry depends on
/// its own seed alone, so a malformed seed drops only itself.
pub fn plan_seeds(seeds: &Vec<String>) -> (plans: Vec<Option<UriParts>>)
    ensures
        plans@.len() == seeds@.len(),
        forall|i: int|
            0 <= i < seeds@.len() ==> spec_plan_fetch(#[trigger] plans@[i])
                == spec_seed_fetches(seeds@.map_values(|s: String| s@))[i],
        forall|i: int|
            0 <= i < seeds@.len() ==> ((#[trigger] plans@[i]) matches Some(u) ==> uri_ok(
                seeds@[i]@,
            ) && u.text@ == uri_text(seeds@[i]@) && authority_view(u.authority) == uri_authority(
                seeds@[i]@,
            )),
{
    let ghost views = seeds@.map_values(|s: String| s@);
    let mut plans: Vec<Option<UriParts>> = Vec::new();
    let mut i: usize = 0;
    while i < seeds.len()
        invariant
            i <= seeds@.len(),
            plans@.len() == i,
            views == seeds@.map_values(|s: String| s@),
            forall|j: int|
                0 <= j < i ==> spec_plan_fetch(#[trigger] plans@[j]) == spec_seed_fetches(views)[j],
            forall|j: int|
                0 <= j < i ==> ((#[trigger] plans@[j]) matches Some(u) ==> uri_ok(seeds@[j]@)
                    && u.text@ == uri_text(seeds@[j]@) && authority_view(u.authority)
                    == uri_authority(seeds@[j]@)),
        decreases seeds@.len() - i,
    {
        let p = parse_uri(seeds[i].as_str());
        plans.push(p);
        i += 1;
    }
    plans
}

/// One seed's contribution depends on that seed alone: two seed lists that
/// agree at an index plan the same fetch there, however malformed the seeds
/// around it are.
pub proof fn lemma_seed_isolation(seeds1: Seq<Seq<char>>, seeds2: Seq<Seq<char>>, i: int)
    requires
        0 <= i < seeds1.len(),
        0 <= i < seeds2.len(),
        seeds1[i] == seeds2[i],
    ensures
        spec_seed_fetches(seeds1)[i] == spec_seed_fetches(seeds2)[i],
{
}

/// Expands a root index one level: its directly listed leaf references, and
/// the URL of one sub-index fetch per pointer, in order.
pub fn expand_root(vidx: Vidx) -> (r: (Vec<PdscRef>, Vec<String>))
    ensures
        r.0@ == vidx.pdsc_index@,
        r.1@.len() == vidx.vendor_index@.len(),
        forall|i: int|
            0 <= i < vidx.vendor_index@.len() ==> (#[trigger] r.1@[i])@ == spec_sub_index_url(
                vidx.vendor_index@[i].url@,
                vidx.vendor_index@[i].vendor@,
            ),
{
    let Vidx { vendor_index, pdsc_index } = vidx;
    let mut subs: Vec<String> = Vec::new();
    let mut i: usize = 0;
    while i < vendor_index.len()
        invariant
            i <= vendor_index@.len(),
            subs@.len() == i,
            forall|j: int|
                0 <= j < i ==> (#[trigger] subs@[j])@ == spec_sub_index_url(
                    vendor_index@[j].url@,
                    vendor_index@[j].vendor@,
                ),
        decreases vendor_index@.len() - i,
    {
        let u = sub_index_url(&vendor_index[i]);
        subs.push(u);
        i += 1;
    }
    (pdsc_index, subs)
}

/// A fetched sub-index contributes its leaf references and nothing else:
/// pointers nested inside a sub-index are never expanded further, so the
/// index walk is exactly two levels deep.
pub fn sub_index_leaf_refs(vidx: Vidx) -> (r: Vec<PdscRef>)
    ensures
        r@ == vidx.pdsc_index@,
{
    vidx.pdsc_index
}

} // verus!
