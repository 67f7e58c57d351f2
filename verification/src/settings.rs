//! Node settings: plain configuration values handed in at startup.

use vstd::prelude::*;

verus! {

/// Configuration of one node instance. The boundary fills it from the
/// deployment's configuration document; absent network and relay
/// fields fall back to `default_network` and `default_nostr_relay`.
#[derive(Debug, Clone)]
pub struct Settings {
    pub data_dir: Option<String>,
    pub listening_port: u16,
    pub kormir_host: String,
    pub esplora_host: String,
    pub network: String,
    pub name: String,
    pub postgres_url: String,
    pub nostr_relay: String,
}

/// The bitcoin network a node runs on when none is configured.
pub fn default_network() -> (r: String)
    ensures
        r@ == "regtest"@,
{
    "regtest".to_string()
}

/// The nostr relay a node connects to when none is configured.
pub fn default_nostr_relay() -> (r: String)
    ensures
        r@ == "wss://nostr.dlcdevkit.com"@,
{
    "wss://nostr.dlcdevkit.com".to_string()
}

impl Default for Settings {
    /// Empty values throughout; the network and relay defaults apply
    /// only to absent fields of a configuration document, not here.
    fn default() -> (s: Settings)
        ensures
            s.data_dir is None,
            s.listening_port == 0,
            s.kormir_host@ == Seq::<char>::empty(),
            s.esplora_host@ == Seq::<char>::empty(),
            s.network@ == Seq::<char>::empty(),
            s.name@ == Seq::<char>::empty(),
            s.postgres_url@ == Seq::<char>::empty(),
            s.nostr_relay@ == Seq::<char>::empty(),
    {
        Settings {
            data_dir: None,
            listening_port: 0,
            kormir_host: String::new(),
            esplora_host: String::new(),
            network: String::new(),
            name: String::new(),
            postgres_url: String::new(),
            nostr_relay: String::new(),
        }
    }
}

} // verus!
