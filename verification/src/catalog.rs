//! Catalog logic: looking up the requested instance type in a freshly
//! fetched catalog and selecting the entries that have capacity somewhere.

use vstd::prelude::*;
use crate::model::CatalogEntry;
use crate::model::Region;

verus! {

/// The entry for `name`, if the catalog has one. The provider keys its
/// catalog by type name, so at most one entry matches; this takes the first.
pub open spec fn spec_lookup(catalog: Seq<CatalogEntry>, name: Seq<char>) -> Option<CatalogEntry>
    decreases catalog.len(),
{
    if catalog.len() == 0 {
        None
    } else if catalog[0].name@ == name {
        Some(catalog[0])
    } else {
        spec_lookup(catalog.drop_first(), name)
    }
}

/// The acquisition precondition: the catalog has the requested type and its
/// capacity list is non-empty.
pub open spec fn capacity_hit(catalog: Seq<CatalogEntry>, name: Seq<char>) -> bool {
    spec_lookup(catalog, name) matches Some(e) && e.regions@.len() > 0
}

/// The region the client launches into on a capacity hit: the first of the
/// entry's list. This first-in-list tie-break is a deliberate, named policy;
/// no price- or description-based ranking is applied.
pub open spec fn chosen_region(catalog: Seq<CatalogEntry>, name: Seq<char>) -> Region
    recommends
        capacity_hit(catalog, name),
{
    spec_lookup(catalog, name)->0.regions@[0]
}

/// Whether an entry reports capacity in at least one region.
pub open spec fn entry_has_capacity(entry: CatalogEntry) -> bool {
    entry.regions@.len() > 0
}

/// Finds the entry for `name` in the catalog, as `spec_lookup` describes.
pub fn lookup_type<'a>(catalog: &'a Vec<CatalogEntry>, name: &String) -> (r: Option<
    &'a CatalogEntry,
>)
    ensures
        r matches Some(e) ==> spec_lookup(catalog@, name@) == Some(*e),
        r is None ==> spec_lookup(catalog@, name@) is None,
{
    let mut i: usize = 0;
    proof {
        assert(catalog@.skip(0) =~= catalog@);
    }
    while i < catalog.len()
        invariant
            i <= catalog@.len(),
            spec_lookup(catalog@, name@) == spec_lookup(catalog@.skip(i as int), name@),
        decreases catalog@.len() - i,
    {
        if catalog[i].name == *name {
            proof {
                assert(catalog@.skip(i as int)[0] == catalog@[i as int]);
            }
            return Some(&catalog[i]);
        }
        proof {
            assert(catalog@.skip(i as int).drop_first() =~= catalog@.skip(i as int + 1));
        }
        i = i + 1;
    }
    None
}

/// The entries that report capacity in at least one region, in catalog
/// order: what the listing shows.
pub fn available_entries<'a>(catalog: &'a Vec<CatalogEntry>) -> (r: Vec<&'a CatalogEntry>)
    ensures
        r@.map_values(|e: &CatalogEntry| *e) == catalog@.filter(|e: CatalogEntry| entry_has_capacity(e)),
{
    let ghost pred = |e: CatalogEntry| entry_has_capacity(e);
    let mut r: Vec<&'a CatalogEntry> = Vec::new();
    proof {
        reveal(Seq::filter);
        assert(r@.map_values(|e: &CatalogEntry| *e) =~= catalog@.take(0).filter(pred));
    }
    let mut i: usize = 0;
    while i < catalog.len()
        invariant
            i <= catalog@.len(),
            pred == (|e: CatalogEntry| entry_has_capacity(e)),
            r@.map_values(|e: &CatalogEntry| *e) == catalog@.take(i as int).filter(pred),
        decreases catalog@.len() - i,
    {
        let entry = &catalog[i];
        proof {
            assert(catalog@.take(i as int + 1) =~= catalog@.take(i as int).push(catalog@[i as int]));
            catalog@.take(i as int).lemma_filter_push(catalog@[i as int], pred);
            assert(pred(catalog@[i as int]) == entry_has_capacity(catalog@[i as int]));
        }
        if entry.regions.len() > 0 {
            let ghost old_r = r@;
            r.push(entry);
            proof {
                assert(r@.map_values(|e: &CatalogEntry| *e) =~= old_r.map_values(
                    |e: &CatalogEntry| *e,
                ).push(catalog@[i as int]));
            }
        }
        i = i + 1;
    }
    proof {
        assert(catalog@.take(catalog@.len() as int) =~= catalog@);
    }
    r
}

} // verus!
