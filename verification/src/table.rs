use vstd::prelude::*;

use crate::abbreviation::Abbreviation;
use crate::abbreviation::AbbreviationModel;
use crate::abbreviation::Sign;
use crate::text::str_equal;

verus! {

/// The mathematical shape of one table entry.
pub open spec fn record(
    abbr: Seq<char>,
    name: Seq<char>,
    sign: Sign,
    hour_offset: u8,
    minute_offset: u8,
) -> AbbreviationModel {
    AbbreviationModel { abbr, name, sign, hour_offset, minute_offset }
}

/// The views of a sequence of records.
pub open spec fn records_view(v: Seq<Abbreviation>) -> Seq<AbbreviationModel> {
    v.map_values(|a: Abbreviation| a@)
}

/// The view of a whole lookup result.
pub open spec fn lookup_result_view(r: Option<Vec<Abbreviation>>) -> Option<
    Seq<AbbreviationModel>,
> {
    match r {
        Some(v) => Some(records_view(v@)),
        None => None,
    }
}

/// The set of abbreviations the table knows.
pub open spec fn table_keys() -> Set<Seq<char>> {
    set![
        "ACDT"@,
        "ACST"@,
        "ACWST"@,
        "AEDT"@,
        "AEST"@,
        "AKST"@,
        "BST"@,
        "CDT"@,
        "CET"@,
        "CHAST"@,
        "CST"@,
        "EDT"@,
        "EST"@,
        "GMT"@,
        "HST"@,
        "IST"@,
        "JST"@,
        "MST"@,
        "NST"@,
        "PDT"@,
        "PST"@,
        "UTC"@,
    ]
}

/// What the table maps each abbreviation to: for a known key, the ordered,
/// non-empty sequence of candidate timezones registered for it; for any
/// other key, nothing. Matching is exact and case-sensitive. An ambiguous
/// abbreviation carries every candidate, in the table's construction order.
pub open spec fn spec_lookup(k: Seq<char>) -> Option<Seq<AbbreviationModel>> {
    if k == "ACDT"@ {
        Some(seq![record("ACDT"@, "Australian Central Daylight Time"@, Sign::Plus, 10, 30)])
    } else if k == "ACST"@ {
        Some(seq![record("ACST"@, "Australian Central Standard Time"@, Sign::Plus, 9, 30)])
    } else if k == "ACWST"@ {
        Some(
            seq![record("ACWST"@, "Australian Central Western Standard Time"@, Sign::Plus, 8, 45)],
        )
    } else if k == "AEDT"@ {
        Some(seq![record("AEDT"@, "Australian Eastern Daylight Time"@, Sign::Plus, 11, 0)])
    } else if k == "AEST"@ {
        Some(seq![record("AEST"@, "Australian Eastern Standard Time"@, Sign::Plus, 10, 0)])
    } else if k == "AKST"@ {
        Some(seq![record("AKST"@, "Alaska Standard Time"@, Sign::Minus, 9, 0)])
    } else if k == "BST"@ {
        Some(seq![record("BST"@, "British Summer Time"@, Sign::Plus, 1, 0)])
    } else if k == "CDT"@ {
        Some(
            seq![
                record("CDT"@, "Central Daylight Time"@, Sign::Minus, 5, 0),
                record("CDT"@, "Cuba Daylight Time"@, Sign::Minus, 4, 0),
            ],
        )
    } else if k == "CET"@ {
        Some(seq![record("CET"@, "Central European Time"@, Sign::Plus, 1, 0)])
    } else if k == "CHAST"@ {
        Some(seq![record("CHAST"@, "Chatham Standard Time"@, Sign::Plus, 12, 45)])
    } else if k == "CST"@ {
        Some(
            seq![
                record("CST"@, "Central Standard Time"@, Sign::Minus, 6, 0),
                record("CST"@, "China Standard Time"@, Sign::Plus, 8, 0),
                record("CST"@, "Cuba Standard Time"@, Sign::Minus, 5, 0),
            ],
        )
    } else if k == "EDT"@ {
        Some(seq![record("EDT"@, "Eastern Daylight Time"@, Sign::Minus, 4, 0)])
    } else if k == "EST"@ {
        Some(seq![record("EST"@, "Eastern Standard Time"@, Sign::Minus, 5, 0)])
    } else if k == "GMT"@ {
        Some(seq![record("GMT"@, "Greenwich Mean Time"@, Sign::Plus, 0, 0)])
    } else if k == "HST"@ {
        Some(seq![record("HST"@, "Hawaii Standard Time"@, Sign::Minus, 10, 0)])
    } else if k == "IST"@ {
        Some(
            seq![
                record("IST"@, "India Standard Time"@, Sign::Plus, 5, 30),
                record("IST"@, "Irish Standard Time"@, Sign::Plus, 1, 0),
                record("IST"@, "Israel Standard Time"@, Sign::Plus, 2, 0),
            ],
        )
    } else if k == "JST"@ {
        Some(seq![record("JST"@, "Japan Standard Time"@, Sign::Plus, 9, 0)])
    } else if k == "MST"@ {
        Some(seq![record("MST"@, "Mountain Standard Time"@, Sign::Minus, 7, 0)])
    } else if k == "NST"@ {
        Some(seq![record("NST"@, "Newfoundland Standard Time"@, Sign::Minus, 3, 30)])
    } else if k == "PDT"@ {
        Some(seq![record("PDT"@, "Pacific Daylight Time"@, Sign::Minus, 7, 0)])
    } else if k == "PST"@ {
        Some(seq![record("PST"@, "Pacific Standard Time"@, Sign::Minus, 8, 0)])
    } else if k == "UTC"@ {
        Some(seq![record("UTC"@, "Coordinated Universal Time"@, Sign::Plus, 0, 0)])
    } else {
        None
    }
}

/// A lookup finds a result exactly for the keys of the table: success is
/// owed precisely on `table_keys()`, and absence is the answer everywhere
/// else.
pub proof fn lemma_present_iff_key(k: Seq<char>)
    ensures
        spec_lookup(k) is Some <==> table_keys().contains(k),
{
}

/// Every key present in the table resolves to a non-empty sequence, and
/// every record in that sequence carries the looked-up key as its
/// abbreviation.
pub proof fn lemma_found_records_match_key(k: Seq<char>)
    ensures
        spec_lookup(k) matches Some(rs) ==> rs.len() > 0,
        spec_lookup(k) matches Some(rs) ==> (forall|i: int|
            0 <= i < rs.len() ==> (#[trigger] rs[i]).abbr == k),
{
}

/// Looking the same key up twice yields structurally identical results:
/// the result is a function of the key alone.
pub proof fn lemma_lookup_deterministic(
    r1: Option<Vec<Abbreviation>>,
    r2: Option<Vec<Abbreviation>>,
    k: Seq<char>,
)
    requires
        lookup_result_view(r1) == spec_lookup(k),
        lookup_result_view(r2) == spec_lookup(k),
    ensures
        lookup_result_view(r1) == lookup_result_view(r2),
{
}

/// A lower-case ASCII letter.
pub open spec fn is_lower_ascii(c: char) -> bool {
    'a' as u32 <= c as u32 && c as u32 <= 'z' as u32
}

/// An upper-case ASCII letter.
pub open spec fn is_upper_ascii(c: char) -> bool {
    'A' as u32 <= c as u32 && c as u32 <= 'Z' as u32
}

/// Every key of the table is written entirely in upper-case ASCII letters:
/// that is the canonical case the table stores.
pub proof fn lemma_keys_upper_case(k: Seq<char>)
    ensures
        table_keys().contains(k) ==> (forall|i: int|
            0 <= i < k.len() ==> is_upper_ascii(#[trigger] k[i])),
{
    lemma_key_chars();
}

/// Lookup is case-sensitive: the table stores its keys in upper case, so a
/// query holding any lower-case ASCII letter is absent.
pub proof fn lemma_lookup_case_sensitive(k: Seq<char>, i: int)
    requires
        0 <= i < k.len(),
        is_lower_ascii(k[i]),
    ensures
        spec_lookup(k) is None,
{
    lemma_present_iff_key(k);
    lemma_keys_upper_case(k);
}

/// The character content of every key literal, for proofs about the key
/// set as a whole.
proof fn lemma_key_chars()
    ensures
        "ACDT"@ == seq!['A', 'C', 'D', 'T'],
        "ACST"@ == seq!['A', 'C', 'S', 'T'],
        "ACWST"@ == seq!['A', 'C', 'W', 'S', 'T'],
        "AEDT"@ == seq!['A', 'E', 'D', 'T'],
        "AEST"@ == seq!['A', 'E', 'S', 'T'],
        "AKST"@ == seq!['A', 'K', 'S', 'T'],
        "BST"@ == seq!['B', 'S', 'T'],
        "CDT"@ == seq!['C', 'D', 'T'],
        "CET"@ == seq!['C', 'E', 'T'],
        "CHAST"@ == seq!['C', 'H', 'A', 'S', 'T'],
        "CST"@ == seq!['C', 'S', 'T'],
        "EDT"@ == seq!['E', 'D', 'T'],
        "EST"@ == seq!['E', 'S', 'T'],
        "GMT"@ == seq!['G', 'M', 'T'],
        "HST"@ == seq!['H', 'S', 'T'],
        "IST"@ == seq!['I', 'S', 'T'],
        "JST"@ == seq!['J', 'S', 'T'],
        "MST"@ == seq!['M', 'S', 'T'],
        "NST"@ == seq!['N', 'S', 'T'],
        "PDT"@ == seq!['P', 'D', 'T'],
        "PST"@ == seq!['P', 'S', 'T'],
        "UTC"@ == seq!['U', 'T', 'C'],
{
    reveal_strlit("ACDT");
    reveal_strlit("ACST");
    reveal_strlit("ACWST");
    reveal_strlit("AEDT");
    reveal_strlit("AEST");
    reveal_strlit("AKST");
    reveal_strlit("BST");
    reveal_strlit("CDT");
    reveal_strlit("CET");
    reveal_strlit("CHAST");
    reveal_strlit("CST");
    reveal_strlit("EDT");
    reveal_strlit("EST");
    reveal_strlit("GMT");
    reveal_strlit("HST");
    reveal_strlit("IST");
    reveal_strlit("JST");
    reveal_strlit("MST");
    reveal_strlit("NST");
    reveal_strlit("PDT");
    reveal_strlit("PST");
    reveal_strlit("UTC");
    assert("ACDT"@ =~= seq!['A', 'C', 'D', 'T']);
    assert("ACST"@ =~= seq!['A', 'C', 'S', 'T']);
    assert("ACWST"@ =~= seq!['A', 'C', 'W', 'S', 'T']);
    assert("AEDT"@ =~= seq!['A', 'E', 'D', 'T']);
    assert("AEST"@ =~= seq!['A', 'E', 'S', 'T']);
    assert("AKST"@ =~= seq!['A', 'K', 'S', 'T']);
    assert("BST"@ =~= seq!['B', 'S', 'T']);
    assert("CDT"@ =~= seq!['C', 'D', 'T']);
    assert("CET"@ =~= seq!['C', 'E', 'T']);
    assert("CHAST"@ =~= seq!['C', 'H', 'A', 'S', 'T']);
    assert("CST"@ =~= seq!['C', 'S', 'T']);
    assert("EDT"@ =~= seq!['E', 'D', 'T']);
    assert("EST"@ =~= seq!['E', 'S', 'T']);
    assert("GMT"@ =~= seq!['G', 'M', 'T']);
    assert("HST"@ =~= seq!['H', 'S', 'T']);
    assert("IST"@ =~= seq!['I', 'S', 'T']);
    assert("JST"@ =~= seq!['J', 'S', 'T']);
    assert("MST"@ =~= seq!['M', 'S', 'T']);
    assert("NST"@ =~= seq!['N', 'S', 'T']);
    assert("PDT"@ =~= seq!['P', 'D', 'T']);
    assert("PST"@ =~= seq!['P', 'S', 'T']);
    assert("UTC"@ =~= seq!['U', 'T', 'C']);
}

/// The length of the longest key in the table: every key is at most this
/// long, and some key reaches it.
pub fn max_key_len() -> (r: usize)
    ensures
        forall|k: Seq<char>| #[trigger] table_keys().contains(k) ==> k.len() <= r,
        exists|k: Seq<char>| #[trigger] table_keys().contains(k) && k.len() == r,
{
    proof {
        lemma_key_chars();
        assert(table_keys().contains("ACWST"@) && ("ACWST"@).len() == 5);
    }
    5
}

/// Build one record from borrowed text.
fn make(abbr: &str, name: &str, sign: Sign, hour_offset: u8, minute_offset: u8) -> (r:
    Abbreviation)
    ensures
        r@ == record(abbr@, name@, sign, hour_offset, minute_offset),
{
    Abbreviation::new(abbr.to_owned(), name.to_owned(), sign, hour_offset, minute_offset)
}

/// A result sequence of one record.
fn one(a: Abbreviation) -> (v: Vec<Abbreviation>)
    ensures
        records_view(v@) == seq![a@],
{
    let ghost a0 = a;
    let mut v: Vec<Abbreviation> = Vec::new();
    v.push(a);
    proof {
        assert(records_view(v@) =~= seq![a0@]);
    }
    v
}

/// A result sequence of two records, in order.
fn two(a: Abbreviation, b: Abbreviation) -> (v: Vec<Abbreviation>)
    ensures
        records_view(v@) == seq![a@, b@],
{
    let ghost a0 = a;
    let ghost b0 = b;
    let mut v: Vec<Abbreviation> = Vec::new();
    v.push(a);
    v.push(b);
    proof {
        assert(records_view(v@) =~= seq![a0@, b0@]);
    }
    v
}

/// A result sequence of three records, in order.
fn three(a: Abbreviation, b: Abbreviation, c: Abbreviation) -> (v: Vec<Abbreviation>)
    ensures
        records_view(v@) == seq![a@, b@, c@],
{
    let ghost a0 = a;
    let ghost b0 = b;
    let ghost c0 = c;
    let mut v: Vec<Abbreviation> = Vec::new();
    v.push(a);
    v.push(b);
    v.push(c);
    proof {
        assert(records_view(v@) =~= seq![a0@, b0@, c0@]);
    }
    v
}

/// Resolve an abbreviation against the table.
pub fn lookup(abbr: &str) -> (r: Option<Vec<Abbreviation>>)
    ensures
        lookup_result_view(r) == spec_lookup(abbr@),
{
    if str_equal(abbr, "ACDT") {
        Some(one(make("ACDT", "Australian Central Daylight Time", Sign::Plus, 10, 30)))
    } else if str_equal(abbr, "ACST") {
        Some(one(make("ACST", "Australian Central Standard Time", Sign::Plus, 9, 30)))
    } else if str_equal(abbr, "ACWST") {
        Some(one(make("ACWST", "Australian Central Western Standard Time", Sign::Plus, 8, 45)))
    } else if str_equal(abbr, "AEDT") {
        Some(one(make("AEDT", "Australian Eastern Daylight Time", Sign::Plus, 11, 0)))
    } else if str_equal(abbr, "AEST") {
        Some(one(make("AEST", "Australian Eastern Standard Time", Sign::Plus, 10, 0)))
    } else if str_equal(abbr, "AKST") {
        Some(one(make("AKST", "Alaska Standard Time", Sign::Minus, 9, 0)))
    } else if str_equal(abbr, "BST") {
        Some(one(make("BST", "British Summer Time", Sign::Plus, 1, 0)))
    } else if str_equal(abbr, "CDT") {
        Some(
            two(
                make("CDT", "Central Daylight Time", Sign::Minus, 5, 0),
                make("CDT", "Cuba Daylight Time", Sign::Minus, 4, 0),
            ),
        )
    } else if str_equal(abbr, "CET") {
        Some(one(make("CET", "Central European Time", Sign::Plus, 1, 0)))
    } else if str_equal(abbr, "CHAST") {
        Some(one(make("CHAST", "Chatham Standard Time", Sign::Plus, 12, 45)))
    } else if str_equal(abbr, "CST") {
        Some(
            three(
                make("CST", "Central Standard Time", Sign::Minus, 6, 0),
                make("CST", "China Standard Time", Sign::Plus, 8, 0),
                make("CST", "Cuba Standard Time", Sign::Minus, 5, 0),
            ),
        )
    } else if str_equal(abbr, "EDT") {
        Some(one(make("EDT", "Eastern Daylight Time", Sign::Minus, 4, 0)))
    } else if str_equal(abbr, "EST") {
        Some(one(make("EST", "Eastern Standard Time", Sign::Minus, 5, 0)))
    } else if str_equal(abbr, "GMT") {
        Some(one(make("GMT", "Greenwich Mean Time", Sign::Plus, 0, 0)))
    } else if str_equal(abbr, "HST") {
        Some(one(make("HST", "Hawaii Standard Time", Sign::Minus, 10, 0)))
    } else if str_equal(abbr, "IST") {
        Some(
            three(
                make("IST", "India Standard Time", Sign::Plus, 5, 30),
                make("IST", "Irish Standard Time", Sign::Plus, 1, 0),
                make("IST", "Israel Standard Time", Sign::Plus, 2, 0),
            ),
        )
    } else if str_equal(abbr, "JST") {
        Some(one(make("JST", "Japan Standard Time", Sign::Plus, 9, 0)))
    } else if str_equal(abbr, "MST") {
        Some(one(make("MST", "Mountain Standard Time", Sign::Minus, 7, 0)))
    } else if str_equal(abbr, "NST") {
        Some(one(make("NST", "Newfoundland Standard Time", Sign::Minus, 3, 30)))
    } else if str_equal(abbr, "PDT") {
        Some(one(make("PDT", "Pacific Daylight Time", Sign::Minus, 7, 0)))
    } else if str_equal(abbr, "PST") {
        Some(one(make("PST", "Pacific Standard Time", Sign::Minus, 8, 0)))
    } else if str_equal(abbr, "UTC") {
        Some(one(make("UTC", "Coordinated Universal Time", Sign::Plus, 0, 0)))
    } else {
        None
    }
}

} // verus!
