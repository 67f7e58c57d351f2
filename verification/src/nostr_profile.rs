//! Discovery of DLC-capable trade counterparties over nostr: the
//! filter that finds them and the conversion of their profile
//! metadata into display records. The relay transport itself is an
//! external collaborator.

use vstd::prelude::*;

verus! {

/// A DLC-capable counterparty's profile, as displayed to the trader.
#[derive(Debug, Clone)]
pub struct NostrCounterparty {
    /// Hex-encoded nostr public key of the counterparty.
    pub pubkey: String,
    pub name: String,
    pub about: String,
    pub picture: String,
    pub website: String,
}

/// The profile metadata a relay hands back for one key; every field
/// may be absent.
#[derive(Debug, Clone)]
pub struct ProfileMetadata {
    pub name: Option<String>,
    pub about: Option<String>,
    pub picture: Option<String>,
    pub website: Option<String>,
}

/// The value of a metadata field on a display record: the field
/// itself, or empty when absent.
pub open spec fn field_or_empty(f: Option<String>) -> Seq<char> {
    match f {
        Some(s) => s@,
        None => Seq::empty(),
    }
}

fn unwrap_or_empty(f: Option<String>) -> (r: String)
    ensures
        r@ == field_or_empty(f),
{
    match f {
        Some(s) => s,
        None => String::new(),
    }
}

/// Converts one profile's metadata into the counterparty display
/// record: the key is carried through, absent fields become empty
/// strings.
pub fn counterparty_from_metadata(pubkey: String, metadata: ProfileMetadata) -> (r:
    NostrCounterparty)
    ensures
        r.pubkey == pubkey,
        r.name@ == field_or_empty(metadata.name),
        r.about@ == field_or_empty(metadata.about),
        r.picture@ == field_or_empty(metadata.picture),
        r.website@ == field_or_empty(metadata.website),
{
    NostrCounterparty {
        pubkey,
        name: unwrap_or_empty(metadata.name),
        about: unwrap_or_empty(metadata.about),
        picture: unwrap_or_empty(metadata.picture),
        website: unwrap_or_empty(metadata.website),
    }
}

/// The relay filter that finds DLC-capable profiles: metadata events
/// carrying the DLC support tag.
#[derive(Debug, Clone)]
pub struct TradeFilter {
    /// The filter asks for profile metadata events.
    pub kind_metadata: bool,
    /// The single-letter tag the support marker is filed under.
    pub tag_letter: char,
    /// The marker value a DLC-capable profile carries.
    pub tag_value: String,
}

/// The filter that discovers trade counterparties: metadata events
/// tagged `d` with the DLC support marker.
pub fn trade_counterparty_filter() -> (r: TradeFilter)
    ensures
        r.kind_metadata,
        r.tag_letter == 'd',
        r.tag_value@ == "dlc_support=true"@,
{
    TradeFilter { kind_metadata: true, tag_letter: 'd', tag_value: "dlc_support=true".to_string() }
}

} // verus!
