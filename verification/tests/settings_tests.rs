use sons_of_liberty::maintenance::{plan_reset, ResetFlags, ResetPlan};
use sons_of_liberty::nostr_profile::{
    counterparty_from_metadata, trade_counterparty_filter, ProfileMetadata,
};
use sons_of_liberty::settings::{default_network, default_nostr_relay, Settings};

#[test]
fn configuration_defaults() {
    assert_eq!(default_network(), "regtest");
    assert_eq!(default_nostr_relay(), "wss://nostr.dlcdevkit.com");
    let s = Settings::default();
    assert!(s.data_dir.is_none());
    assert_eq!(s.listening_port, 0);
    assert_eq!(s.network, "");
    assert_eq!(s.nostr_relay, "");
}

#[test]
fn counterparty_filter_asks_for_dlc_support_tag() {
    let f = trade_counterparty_filter();
    assert!(f.kind_metadata);
    assert_eq!(f.tag_letter, 'd');
    assert_eq!(f.tag_value, "dlc_support=true");
}

#[test]
fn absent_metadata_fields_become_empty_strings() {
    let c = counterparty_from_metadata(
        "deadbeef".to_string(),
        ProfileMetadata { name: None, about: None, picture: None, website: None },
    );
    assert_eq!(c.pubkey, "deadbeef");
    assert_eq!(c.name, "");
    assert_eq!(c.about, "");
    assert_eq!(c.picture, "");
    assert_eq!(c.website, "");
}

#[test]
fn present_metadata_fields_are_carried_through() {
    let c = counterparty_from_metadata(
        "deadbeef".to_string(),
        ProfileMetadata {
            name: Some("alice".to_string()),
            about: Some("trades parlays".to_string()),
            picture: Some("https://example.org/a.png".to_string()),
            website: Some("https://example.org".to_string()),
        },
    );
    assert_eq!(c.name, "alice");
    assert_eq!(c.about, "trades parlays");
    assert_eq!(c.picture, "https://example.org/a.png");
    assert_eq!(c.website, "https://example.org");
}

#[test]
fn reset_plans() {
    let p = plan_reset(ResetFlags { all: true, wallet: false, seed: false, dlc: false });
    assert_eq!(p, ResetPlan::Everything);

    let p = plan_reset(ResetFlags { all: false, wallet: true, seed: false, dlc: true });
    assert_eq!(p, ResetPlan::Groups { wallet: true, seed: false, dlc: true });

    let p = plan_reset(ResetFlags { all: false, wallet: false, seed: false, dlc: false });
    assert_eq!(p, ResetPlan::Groups { wallet: false, seed: false, dlc: false });
}
