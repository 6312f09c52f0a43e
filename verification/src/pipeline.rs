//! The request pipeline: the stages that every request passes, whichever
//! transport accepted it, and the header that tells TLS clients of HTTP/3.

use vstd::prelude::*;
use vstd::string::StringExecFns;
use crate::bootstrap::quic_port;
use crate::bootstrap::quic_port_of;
use crate::bootstrap::Transport;
use crate::config::Config;
use crate::config::ConfigView;
use crate::text::decimal;
use crate::text::decimal_text;

verus! {

/// The name of the header that advertises another service.
pub const ALT_SVC: &'static str = "alt-svc";

/// One stage of the pipeline.
#[derive(Debug, Clone, Copy, PartialEq, Eq, Hash, Structural)]
pub enum Stage {
    /// Decode the request body where it is encoded.
    DecompressRequest,
    /// Run the handler: the fixed responses and the static files.
    Handle,
    /// Add the header that advertises HTTP/3 to the response.
    AdvertiseQuic,
    /// Encode the response body as the client accepts.
    CompressResponse,
}

/// The value of the advertising header for a QUIC port: HTTP/3 on the same
/// host at that port number, valid for thirty days.
pub open spec fn alt_svc_of(port: u16) -> Seq<char> {
    "h3=\":"@ + decimal(port as nat) + "\"; ma=2592000"@
}

/// Whether responses on a transport advertise HTTP/3: only those that
/// leave through TLS, and only while the QUIC transport is enabled.
pub open spec fn advertises_quic(transport: Transport, config: ConfigView) -> bool {
    transport == Transport::Tls && config.tls.quic
}

/// The stages in the order in which a request passes them.
pub open spec fn stages_of(transport: Transport, config: ConfigView) -> Seq<Stage> {
    if advertises_quic(transport, config) {
        seq![
            Stage::DecompressRequest,
            Stage::Handle,
            Stage::AdvertiseQuic,
            Stage::CompressResponse,
        ]
    } else {
        seq![Stage::DecompressRequest, Stage::Handle, Stage::CompressResponse]
    }
}

/// The order of the pipeline is fixed: the request is decoded before the
/// handler runs, and the response is encoded last, after any advertising
/// header was added. Each stage occurs once at most, and the advertising
/// stage occurs exactly on the transports that advertise.
pub proof fn lemma_stage_order(transport: Transport, config: ConfigView)
    ensures
        stages_of(transport, config).first() == Stage::DecompressRequest,
        stages_of(transport, config)[1] == Stage::Handle,
        stages_of(transport, config).last() == Stage::CompressResponse,
        stages_of(transport, config).no_duplicates(),
        stages_of(transport, config).contains(Stage::AdvertiseQuic) <==> advertises_quic(
            transport,
            config,
        ),
        forall|i: int, j: int|
            0 <= i < j < stages_of(transport, config).len() && stages_of(transport, config)[j]
                == Stage::Handle ==> stages_of(transport, config)[i] == Stage::DecompressRequest,
{
    let s = stages_of(transport, config);
    if advertises_quic(transport, config) {
        assert(s[2] == Stage::AdvertiseQuic);
    }
}

/// A response that leaves through QUIC never advertises HTTP/3; one that
/// leaves through TLS does whenever QUIC is enabled.
pub proof fn lemma_advertising(config: ConfigView)
    ensures
        !advertises_quic(Transport::Quic, config),
        !advertises_quic(Transport::Plain, config),
        advertises_quic(Transport::Tls, config) <==> config.tls.quic,
{
}

/// The value of the advertising header for a QUIC port.
pub fn alt_svc_value(port: u16) -> (value: String)
    ensures
        value@ == alt_svc_of(port),
{
    let mut value: String = String::from_str("h3=\":");
    let digits: String = decimal_text(port);
    value.append(digits.as_str());
    value.append("\"; ma=2592000");
    value
}

/// The advertising header of a response on a transport: its value where
/// the transport advertises, nothing where it does not.
pub fn alt_svc_header(transport: Transport, config: &Config) -> (value: Option<String>)
    ensures
        crate::config::text_of(value) == if advertises_quic(transport, config@) {
            Some(alt_svc_of(quic_port_of(config.network@)))
        } else {
            None
        },
{
    match transport {
        Transport::Tls => {
            if config.tls.quic {
                Some(alt_svc_value(quic_port(&config.network)))
            } else {
                None
            }
        },
        _ => None,
    }
}

/// The stages of the pipeline on a transport, first to last.
pub fn stages(transport: Transport, config: &Config) -> (order: Vec<Stage>)
    ensures
        order@ == stages_of(transport, config@),
{
    let mut order: Vec<Stage> = Vec::new();
    order.push(Stage::DecompressRequest);
    order.push(Stage::Handle);
    match transport {
        Transport::Tls => {
            if config.tls.quic {
                order.push(Stage::AdvertiseQuic);
            }
        },
        _ => {},
    }
    order.push(Stage::CompressResponse);
    assert(order@ =~= stages_of(transport, config@));
    order
}

} // verus!
