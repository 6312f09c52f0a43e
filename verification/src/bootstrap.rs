//! Which listeners a configuration asks for, and on which addresses.
//!
//! The two flags of the TLS section are read as they stand. Neither set
//! gives the plain listener alone; `enable` gives the TLS listener, `quic`
//! the QUIC listener, each whether or not the other is set.

use vstd::prelude::*;
use vstd::string::StrSliceExecFns;
use vstd::string::StringExecFns;
use crate::config::Config;
use crate::config::ConfigView;
use crate::config::NetworkConfig;
use crate::config::NetworkView;
use crate::error::FileFault;
use crate::error::StartupError;
use crate::text::decimal;
use crate::text::decimal_text;

verus! {

/// The QUIC port where the configuration gives none.
pub const DEFAULT_QUIC_PORT: u16 = 443;

/// A transport that accepts connections.
#[derive(Debug, Clone, Copy, PartialEq, Eq, Hash, Structural)]
pub enum Transport {
    /// HTTP/1.1 over a plain stream.
    Plain,
    /// HTTP/1.1 or HTTP/2 over a TLS stream.
    Tls,
    /// HTTP/3 over QUIC datagrams.
    Quic,
}

/// One listener to bind.
#[derive(Debug, Clone, PartialEq, Eq)]
pub struct Listener {
    pub transport: Transport,
    pub address: String,
}

/// The listeners of one run: for each transport, the address to bind or
/// nothing.
#[derive(Debug, Clone, PartialEq, Eq)]
pub struct ListenerSet {
    pub plain: Option<String>,
    pub tls: Option<String>,
    pub quic: Option<String>,
}

/// What a [`ListenerSet`] holds.
pub struct ListenerSetView {
    pub plain: Option<Seq<char>>,
    pub tls: Option<Seq<char>>,
    pub quic: Option<Seq<char>>,
}

impl View for ListenerSet {
    type V = ListenerSetView;

    open spec fn view(&self) -> ListenerSetView {
        ListenerSetView {
            plain: crate::config::text_of(self.plain),
            tls: crate::config::text_of(self.tls),
            quic: crate::config::text_of(self.quic),
        }
    }
}

/// The certificate and key files of the secure transports.
#[derive(Debug, Clone, PartialEq, Eq)]
pub struct Credentials {
    pub certificate: String,
    pub key: String,
}

/// What startup has to do: the listeners to bind, and the files to build
/// the security contexts from where a secure transport is enabled.
#[derive(Debug, Clone, PartialEq, Eq)]
pub struct BootstrapPlan {
    pub listeners: ListenerSet,
    pub credentials: Option<Credentials>,
}

/// `i` is the position of the first colon in `s`.
pub open spec fn is_first_colon(s: Seq<char>, i: int) -> bool {
    &&& 0 <= i < s.len()
    &&& s[i] == ':'
    &&& forall|j: int| 0 <= j < i ==> s[j] != ':'
}

/// The host of a stream address: what stands before its first colon. An
/// address without a colon names no host, and the host is then `0.0.0.0`.
pub open spec fn host_of(bind: Seq<char>) -> Seq<char> {
    if exists|i: int| is_first_colon(bind, i) {
        bind.take(choose|i: int| is_first_colon(bind, i))
    } else {
        "0.0.0.0"@
    }
}

/// The QUIC port: the configured one, or 443.
pub open spec fn quic_port_of(network: NetworkView) -> u16 {
    match network.quic_port {
        Some(port) => port,
        None => DEFAULT_QUIC_PORT,
    }
}

/// The QUIC address: the host of the stream address with the QUIC port.
pub open spec fn quic_address_of(network: NetworkView) -> Seq<char> {
    host_of(network.bind) + seq![':'] + decimal(quic_port_of(network) as nat)
}

/// The listeners that a configuration asks for.
pub open spec fn listeners_of(config: ConfigView) -> ListenerSetView {
    ListenerSetView {
        plain: if !config.tls.enable && !config.tls.quic {
            Some(config.network.bind)
        } else {
            None
        },
        tls: if config.tls.enable {
            Some(config.network.bind)
        } else {
            None
        },
        quic: if config.tls.quic {
            Some(quic_address_of(config.network))
        } else {
            None
        },
    }
}

/// Whether the configuration enables a transport that needs a certificate.
pub open spec fn needs_credentials(config: ConfigView) -> bool {
    config.tls.enable || config.tls.quic
}

/// The file that a configuration fails to name: with a secure transport
/// enabled, first the certificate file, then the key file.
pub open spec fn missing_file(config: Config) -> Option<StartupError> {
    if !needs_credentials(config@) {
        None
    } else if config.tls.cert is None {
        Some(StartupError::CertificateLoad(FileFault::NotConfigured))
    } else if config.tls.key is None {
        Some(StartupError::KeyLoad(FileFault::NotConfigured))
    } else {
        None
    }
}

/// The files of the secure transports, where one is enabled and both files
/// are named.
pub open spec fn credentials_of(config: Config) -> Option<Credentials> {
    if needs_credentials(config@) && config.tls.cert is Some && config.tls.key is Some {
        Some(Credentials { certificate: config.tls.cert->0, key: config.tls.key->0 })
    } else {
        None
    }
}

/// The listeners of a set in the order in which they are bound: plain,
/// TLS, QUIC.
pub open spec fn listener_seq(set: ListenerSet) -> Seq<Listener> {
    let plain = match set.plain {
        Some(address) => seq![Listener { transport: Transport::Plain, address }],
        None => Seq::<Listener>::empty(),
    };
    let tls = match set.tls {
        Some(address) => seq![Listener { transport: Transport::Tls, address }],
        None => Seq::<Listener>::empty(),
    };
    let quic = match set.quic {
        Some(address) => seq![Listener { transport: Transport::Quic, address }],
        None => Seq::<Listener>::empty(),
    };
    plain + tls + quic
}

/// At most one position is the first colon.
pub proof fn lemma_first_colon_unique(s: Seq<char>, i: int, j: int)
    requires
        is_first_colon(s, i),
        is_first_colon(s, j),
    ensures
        i == j,
{
}

/// The decision table, row by row: each pair of flags gives exactly the
/// listeners of its row, no extra and no missing one, and never none.
pub proof fn lemma_decision_table(config: ConfigView)
    ensures
        !config.tls.enable && !config.tls.quic ==> listeners_of(config) == (ListenerSetView {
            plain: Some(config.network.bind),
            tls: None,
            quic: None,
        }),
        config.tls.enable && !config.tls.quic ==> listeners_of(config) == (ListenerSetView {
            plain: None,
            tls: Some(config.network.bind),
            quic: None,
        }),
        !config.tls.enable && config.tls.quic ==> listeners_of(config) == (ListenerSetView {
            plain: None,
            tls: None,
            quic: Some(quic_address_of(config.network)),
        }),
        config.tls.enable && config.tls.quic ==> listeners_of(config) == (ListenerSetView {
            plain: None,
            tls: Some(config.network.bind),
            quic: Some(quic_address_of(config.network)),
        }),
        listeners_of(config).plain is Some || listeners_of(config).tls is Some || listeners_of(
            config,
        ).quic is Some,
{
}

/// The host of an address with a colon is what stands before the first
/// one: `host:port` gives `host`.
pub proof fn lemma_host_of_address(host: Seq<char>, rest: Seq<char>)
    requires
        !host.contains(':'),
    ensures
        host_of(host + seq![':'] + rest) == host,
{
    let s = host + seq![':'] + rest;
    let k = host.len() as int;
    assert(s[k] == ':');
    assert forall|j: int| 0 <= j < k implies s[j] != ':' by {
        assert(s[j] == host[j]);
        assert(host.contains(host[j]));
    }
    assert(is_first_colon(s, k));
    let w = choose|i: int| is_first_colon(s, i);
    lemma_first_colon_unique(s, w, k);
    assert(s.take(k) =~= host);
}

/// The host part of a stream address.
pub fn host_part(bind: &str) -> (host: String)
    ensures
        host@ == host_of(bind@),
{
    let len: usize = bind.unicode_len();
    let mut i: usize = 0;
    while i < len
        invariant
            i <= len,
            len == bind@.len(),
            forall|j: int| 0 <= j < i ==> bind@[j] != ':',
        decreases len - i,
    {
        if bind.get_char(i) == ':' {
            proof {
                assert(is_first_colon(bind@, i as int));
                let w = choose|w: int| is_first_colon(bind@, w);
                lemma_first_colon_unique(bind@, w, i as int);
            }
            return String::from_str(bind.substring_char(0, i));
        }
        i += 1;
    }
    assert(forall|w: int| !is_first_colon(bind@, w));
    String::from_str("0.0.0.0")
}

/// The port number that the QUIC listener takes.
pub fn quic_port(network: &NetworkConfig) -> (port: u16)
    ensures
        port == quic_port_of(network@),
{
    match network.quic_port {
        Some(port) => port,
        None => DEFAULT_QUIC_PORT,
    }
}

/// The address of the QUIC listener: the host of the stream address, a
/// colon, and the QUIC port in decimal.
pub fn quic_address(network: &NetworkConfig) -> (address: String)
    ensures
        address@ == quic_address_of(network@),
{
    let mut address: String = host_part(network.bind.as_str());
    proof {
        reveal_strlit(":");
    }
    address.append(":");
    assert(":"@ =~= seq![':']);
    let port: String = decimal_text(quic_port(network));
    address.append(port.as_str());
    address
}

/// The listeners that the configuration asks for.
pub fn listeners(config: &Config) -> (set: ListenerSet)
    ensures
        set@ == listeners_of(config@),
        set.plain is Some || set.tls is Some || set.quic is Some,
{
    let plain: Option<String> = if !config.tls.enable && !config.tls.quic {
        Some(config.network.bind.clone())
    } else {
        None
    };
    let tls: Option<String> = if config.tls.enable {
        Some(config.network.bind.clone())
    } else {
        None
    };
    let quic: Option<String> = if config.tls.quic {
        Some(quic_address(&config.network))
    } else {
        None
    };
    ListenerSet { plain, tls, quic }
}

/// Plans the startup. Where a secure transport is enabled the
/// configuration must name a certificate file and a key file; a missing
/// certificate file is reported before a missing key file.
pub fn bootstrap(config: &Config) -> (plan: Result<BootstrapPlan, StartupError>)
    ensures
        match missing_file(*config) {
            Some(error) => plan == Err::<BootstrapPlan, StartupError>(error),
            None => plan matches Ok(p) && p.listeners@ == listeners_of(config@) && p.credentials
                == credentials_of(*config),
        },
{
    if !config.tls.enable && !config.tls.quic {
        return Ok(BootstrapPlan { listeners: listeners(config), credentials: None });
    }
    let certificate: String = match &config.tls.cert {
        Some(path) => path.clone(),
        None => {
            return Err(StartupError::CertificateLoad(FileFault::NotConfigured));
        },
    };
    let key: String = match &config.tls.key {
        Some(path) => path.clone(),
        None => {
            return Err(StartupError::KeyLoad(FileFault::NotConfigured));
        },
    };
    Ok(BootstrapPlan { listeners: listeners(config), credentials: Some(Credentials { certificate, key }) })
}

impl ListenerSet {
    /// The listeners in the order in which they are bound.
    pub fn listeners(&self) -> (all: Vec<Listener>)
        ensures
            all@ == listener_seq(*self),
    {
        let mut all: Vec<Listener> = Vec::new();
        match &self.plain {
            Some(address) => {
                all.push(Listener { transport: Transport::Plain, address: address.clone() });
            },
            None => {},
        }
        match &self.tls {
            Some(address) => {
                all.push(Listener { transport: Transport::Tls, address: address.clone() });
            },
            None => {},
        }
        match &self.quic {
            Some(address) => {
                all.push(Listener { transport: Transport::Quic, address: address.clone() });
            },
            None => {},
        }
        assert(all@ =~= listener_seq(*self));
        all
    }
}

/// Takes the outcome of binding one listener. A listener that could not be
/// bound is fatal: the server never runs with part of its transports.
pub fn bound(listener: Listener, outcome: Result<(), String>) -> (checked: Result<
    Listener,
    StartupError,
>)
    ensures
        match outcome {
            Ok(_) => checked == Ok::<Listener, StartupError>(listener),
            Err(cause) => checked == Err::<Listener, StartupError>(
                StartupError::ListenerBind { address: listener.address, cause },
            ),
        },
{
    match outcome {
        Ok(_) => Ok(listener),
        Err(cause) => Err(StartupError::ListenerBind { address: listener.address, cause }),
    }
}

} // verus!
