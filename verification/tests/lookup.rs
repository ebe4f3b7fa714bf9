use tzabbr::max_abbreviation_len;
use tzabbr::timezone;
use tzabbr::Abbreviation;
use tzabbr::Sign;

#[test]
fn it_works() {
    assert_eq!(timezone("PST").unwrap().first().unwrap().abbr, "PST");
    assert_eq!(timezone("GMT").unwrap().first().unwrap().abbr, "GMT");
    assert_eq!(timezone("XXWhat"), None);
}

#[test]
fn pst_scenario() {
    let records = timezone("PST").unwrap();
    assert!(!records.is_empty());
    let first = records.first().unwrap();
    assert_eq!(first.abbr, "PST");
    assert_eq!(first.name, "Pacific Standard Time");
    assert_eq!(first.sign, Sign::Minus);
    assert_eq!(first.sign.as_char(), '-');
    assert_eq!(first.hour_offset, 8);
    assert_eq!(first.minute_offset, 0);
}

#[test]
fn gmt_scenario() {
    let records = timezone("GMT").unwrap();
    assert!(!records.is_empty());
    let first = records.first().unwrap();
    assert_eq!(first.abbr, "GMT");
    assert_eq!(first.name, "Greenwich Mean Time");
    assert_eq!(first.sign.as_char(), '+');
    assert_eq!(first.hour_offset, 0);
    assert_eq!(first.minute_offset, 0);
}

#[test]
fn unknown_keys_are_absent() {
    assert_eq!(timezone("XXWhat"), None);
    assert_eq!(timezone(""), None);
    assert_eq!(timezone("Z"), None);
    assert_eq!(timezone("PSTX"), None);
}

#[test]
fn ambiguous_abbreviation_lists_every_candidate() {
    let records = timezone("CST").unwrap();
    assert!(records.len() >= 2);
    for record in &records {
        assert_eq!(record.abbr, "CST");
    }
    assert_ne!(records[0], records[1]);
    assert_eq!(
        records[0],
        Abbreviation {
            abbr: "CST".to_string(),
            name: "Central Standard Time".to_string(),
            sign: Sign::Minus,
            hour_offset: 6,
            minute_offset: 0,
        }
    );
    assert_eq!(records[1].name, "China Standard Time");
    assert_eq!(records[1].sign, Sign::Plus);
    assert_eq!(records[1].hour_offset, 8);

    let records = timezone("IST").unwrap();
    assert!(records.len() >= 2);
    assert_eq!(records[0].name, "India Standard Time");
    assert_eq!(records[0].hour_offset, 5);
    assert_eq!(records[0].minute_offset, 30);
}

#[test]
fn present_keys_give_nonempty_lists_carrying_the_key() {
    let keys = [
        "ACDT", "ACST", "ACWST", "AEDT", "AEST", "AKST", "BST", "CDT", "CET", "CHAST", "CST",
        "EDT", "EST", "GMT", "HST", "IST", "JST", "MST", "NST", "PDT", "PST", "UTC",
    ];
    for key in keys {
        let records = timezone(key).expect(key);
        assert!(!records.is_empty());
        for record in &records {
            assert_eq!(record.abbr, key);
        }
    }
}

#[test]
fn lookup_is_case_sensitive() {
    assert_eq!(timezone("pst"), None);
    assert_eq!(timezone("Pst"), None);
    assert_eq!(timezone("pST"), None);
    assert_eq!(timezone("gmt"), None);
    assert_eq!(timezone("utc"), None);
    assert_eq!(timezone("chast"), None);
}

#[test]
fn lookup_is_idempotent() {
    assert_eq!(timezone("CST"), timezone("CST"));
    assert_eq!(timezone("PST"), timezone("PST"));
    assert_eq!(timezone("XXWhat"), timezone("XXWhat"));
    assert_eq!(max_abbreviation_len(), max_abbreviation_len());
}

#[test]
fn max_length_matches_the_longest_key() {
    assert_eq!(max_abbreviation_len(), 5);
    let longest = timezone("ACWST").unwrap();
    assert_eq!(longest[0].abbr.chars().count(), 5);
    let keys = [
        "ACDT", "ACST", "ACWST", "AEDT", "AEST", "AKST", "BST", "CDT", "CET", "CHAST", "CST",
        "EDT", "EST", "GMT", "HST", "IST", "JST", "MST", "NST", "PDT", "PST", "UTC",
    ];
    for key in keys {
        assert!(key.chars().count() <= max_abbreviation_len());
    }
}

#[test]
fn sign_accessors() {
    assert_eq!(Sign::Plus.as_char(), '+');
    assert_eq!(Sign::Minus.as_char(), '-');
    assert!(Sign::Plus.is_plus());
    assert!(!Sign::Plus.is_minus());
    assert!(Sign::Minus.is_minus());
    assert!(!Sign::Minus.is_plus());
}

#[test]
fn half_hour_and_quarter_hour_offsets() {
    let records = timezone("NST").unwrap();
    assert_eq!(records[0].name, "Newfoundland Standard Time");
    assert!(records[0].sign.is_minus());
    assert_eq!(records[0].hour_offset, 3);
    assert_eq!(records[0].minute_offset, 30);

    let records = timezone("ACWST").unwrap();
    assert_eq!(records[0].name, "Australian Central Western Standard Time");
    assert!(records[0].sign.is_plus());
    assert_eq!(records[0].hour_offset, 8);
    assert_eq!(records[0].minute_offset, 45);
}
