use creme_brulee::bootstrap::Transport;
use creme_brulee::config::Config;
use creme_brulee::pipeline::alt_svc_header;
use creme_brulee::pipeline::alt_svc_value;
use creme_brulee::pipeline::stages;
use creme_brulee::pipeline::Stage;
use creme_brulee::pipeline::ALT_SVC;

fn pipeline_config(enable: bool, quic: bool, quic_port: Option<u16>) -> Config {
    let mut config = Config::default();
    config.tls.enable = enable;
    config.tls.quic = quic;
    config.network.quic_port = quic_port;
    config
}

#[test]
fn alt_svc_header_name() {
    assert_eq!(ALT_SVC, "alt-svc");
}

#[test]
fn alt_svc_value_names_the_port() {
    assert_eq!(alt_svc_value(443), "h3=\":443\"; ma=2592000");
    assert_eq!(alt_svc_value(9000), "h3=\":9000\"; ma=2592000");
    assert_eq!(alt_svc_value(0), "h3=\":0\"; ma=2592000");
    assert_eq!(alt_svc_value(65535), "h3=\":65535\"; ma=2592000");
}

#[test]
fn tls_responses_advertise_quic_when_it_is_enabled() {
    let config = pipeline_config(true, true, Some(9000));
    assert_eq!(
        alt_svc_header(Transport::Tls, &config),
        Some("h3=\":9000\"; ma=2592000".to_string())
    );
}

#[test]
fn tls_responses_advertise_the_default_port() {
    let config = pipeline_config(true, true, None);
    assert_eq!(
        alt_svc_header(Transport::Tls, &config),
        Some("h3=\":443\"; ma=2592000".to_string())
    );
}

#[test]
fn tls_responses_do_not_advertise_a_disabled_quic() {
    assert_eq!(alt_svc_header(Transport::Tls, &pipeline_config(true, false, Some(9000))), None);
}

#[test]
fn quic_responses_never_advertise() {
    assert_eq!(alt_svc_header(Transport::Quic, &pipeline_config(true, true, Some(9000))), None);
    assert_eq!(alt_svc_header(Transport::Quic, &pipeline_config(false, true, None)), None);
    assert_eq!(alt_svc_header(Transport::Quic, &pipeline_config(false, false, None)), None);
}

#[test]
fn plain_responses_never_advertise() {
    assert_eq!(alt_svc_header(Transport::Plain, &pipeline_config(false, false, None)), None);
    assert_eq!(alt_svc_header(Transport::Plain, &pipeline_config(true, true, None)), None);
}

#[test]
fn the_pipeline_decodes_before_and_encodes_after_the_handler() {
    let order = stages(Transport::Plain, &pipeline_config(false, false, None));
    assert_eq!(order, vec![Stage::DecompressRequest, Stage::Handle, Stage::CompressResponse]);
}

#[test]
fn the_tls_pipeline_advertises_between_handler_and_encoding() {
    let order = stages(Transport::Tls, &pipeline_config(true, true, None));
    assert_eq!(
        order,
        vec![
            Stage::DecompressRequest,
            Stage::Handle,
            Stage::AdvertiseQuic,
            Stage::CompressResponse,
        ]
    );
}

#[test]
fn the_quic_pipeline_has_no_advertising_stage() {
    let order = stages(Transport::Quic, &pipeline_config(true, true, None));
    assert_eq!(order, vec![Stage::DecompressRequest, Stage::Handle, Stage::CompressResponse]);
}

#[test]
fn the_tls_pipeline_without_quic_has_no_advertising_stage() {
    let order = stages(Transport::Tls, &pipeline_config(true, false, None));
    assert_eq!(order, vec![Stage::DecompressRequest, Stage::Handle, Stage::CompressResponse]);
}

#[test]
fn the_pipeline_advertises_exactly_where_a_header_is_given() {
    for transport in [Transport::Plain, Transport::Tls, Transport::Quic] {
        for (enable, quic) in [(false, false), (true, false), (false, true), (true, true)] {
            let config = pipeline_config(enable, quic, Some(8443));
            let order = stages(transport, &config);
            let header = alt_svc_header(transport, &config);
            assert_eq!(order.contains(&Stage::AdvertiseQuic), header.is_some());
            assert_eq!(order.first(), Some(&Stage::DecompressRequest));
            assert_eq!(order.last(), Some(&Stage::CompressResponse));
        }
    }
}
