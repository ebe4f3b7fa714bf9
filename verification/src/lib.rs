pub mod abbreviation;
pub mod table;
mod text;

pub use abbreviation::Abbreviation;
pub use abbreviation::Sign;

use vstd::prelude::*;

verus! {

/// Return one or more timezones for the given timezone abbreviation.
/// Examples are `GMT` for Greenwich Mean Time or `PST` for Pacific
/// Standard Time. No standard makes these abbreviations unique, so some
/// of them resolve to several different timezones and every candidate is
/// returned, in the table's own order; the caller disambiguates.
///
/// Matching is exact and case-sensitive against the stored keys. A key
/// the table does not hold yields `None`, never an empty list; a key it
/// does hold yields the full non-empty candidate list, each record
/// carrying the looked-up abbreviation.
pub fn timezone(abbr: &str) -> (r: Option<Vec<Abbreviation>>)
    ensures
        table::lookup_result_view(r) == table::spec_lookup(abbr@),
        r is Some <==> table::table_keys().contains(abbr@),
        r matches Some(v) ==> v@.len() > 0,
        r matches Some(v) ==> (forall|i: int|
            0 <= i < v@.len() ==> (#[trigger] v@[i])@.abbr == abbr@),
{
    let r = table::lookup(abbr);
    proof {
        table::lemma_present_iff_key(abbr@);
        table::lemma_found_records_match_key(abbr@);
        if r is Some {
            let v = r->Some_0;
            assert forall|i: int| 0 <= i < v@.len() implies (#[trigger] v@[i])@.abbr == abbr@ by {
                assert(table::records_view(v@)[i] == v@[i]@);
            }
        }
    }
    r
}

/// Return the maximum length, in characters, that a timezone abbreviation
/// can have: every key of the table is at most this long, and some key
/// reaches it. This can be used to fetch the appropriate number of
/// characters from a string during parsing in order to identify a
/// possible timezone entry.
pub fn max_abbreviation_len() -> (r: usize)
    ensures
        forall|k: Seq<char>| #[trigger] table::table_keys().contains(k) ==> k.len() <= r,
        exists|k: Seq<char>| #[trigger] table::table_keys().contains(k) && k.len() == r,
{
    table::max_key_len()
}

} // verus!
