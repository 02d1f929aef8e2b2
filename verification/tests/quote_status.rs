//! Reading the status text of the attestation service.

use attestation::quote_status::{same_text, SgxQuoteStatus};

#[test]
fn recognised_spellings_have_their_status() {
    assert_eq!(SgxQuoteStatus::from("OK"), SgxQuoteStatus::OK);
    assert_eq!(SgxQuoteStatus::from("GROUP_OUT_OF_DATE"), SgxQuoteStatus::GroupOutOfDate);
    assert_eq!(SgxQuoteStatus::from("CONFIGURATION_NEEDED"), SgxQuoteStatus::ConfigurationNeeded);
}

#[test]
fn every_other_text_is_an_unknown_bad_status() {
    for text in [
        "",
        "ok",
        "Ok",
        "OK ",
        " OK",
        "OK\n",
        "O",
        "OKK",
        "GROUP_OUT_OF_DAT",
        "GROUP_OUT_OF_DATE_",
        "group_out_of_date",
        "GROUP OUT OF DATE",
        "CONFIGURATION_NEEDE",
        "CONFIGURATION_NEEDED!",
        "CONFIGURATION_AND_SW_HARDENING_NEEDED",
        "SW_HARDENING_NEEDED",
        "SIGNATURE_INVALID",
        "GROUP_REVOKED",
        "KEY_REVOKED",
        "SIGRL_VERSION_MISMATCH",
        "ＯＫ",
        "OK\u{0}",
    ] {
        assert_eq!(SgxQuoteStatus::from(text), SgxQuoteStatus::UnknownBadStatus, "{:?}", text);
    }
}

#[test]
fn the_three_spellings_map_to_three_statuses() {
    let ok = SgxQuoteStatus::from("OK");
    let group = SgxQuoteStatus::from("GROUP_OUT_OF_DATE");
    let configuration = SgxQuoteStatus::from("CONFIGURATION_NEEDED");
    assert_ne!(ok, group);
    assert_ne!(ok, configuration);
    assert_ne!(group, configuration);
    for status in [ok, group, configuration] {
        assert_ne!(status, SgxQuoteStatus::UnknownBadStatus);
    }
}

#[test]
fn owned_text_converts_as_borrowed_text_does() {
    let text = String::from("GROUP_OUT_OF_DATE");
    assert_eq!(SgxQuoteStatus::from(text.as_str()), SgxQuoteStatus::GroupOutOfDate);
    let status: SgxQuoteStatus = "OK".into();
    assert_eq!(status, SgxQuoteStatus::OK);
}

#[test]
fn texts_are_the_same_when_all_their_characters_are() {
    assert!(same_text("", ""));
    assert!(same_text("OK", "OK"));
    assert!(same_text("é√", "é√"));
    assert!(!same_text("OK", "OK "));
    assert!(!same_text("OK", "Ok"));
    assert!(!same_text("", "a"));
    assert!(!same_text("é", "e"));
    assert!(!same_text("ab", "ba"));
}
