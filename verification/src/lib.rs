//! Queries a network interface's link settings from the kernel through its
//! device-control interface, with the two-round word-count handshake and the
//! response validation verified.

mod errors;
mod handshake;
mod internal;

pub use errors::EthtoolError;
pub use errors::EthtoolErrorKind;
pub use handshake::ETHTOOL_GLINKSETTINGS;
pub use handshake::interpret_probe_response;
pub use handshake::lemma_nwords_negation_round_trip;
pub use handshake::probe_reply_ok;
pub use handshake::probe_request;
pub use handshake::real_reply_ok;
pub use handshake::real_request_fields;
pub use handshake::validate_real_response;
pub use internal::CmdContext;
pub use internal::IFNAME_LEN;
pub use internal::LINK_MODE_DATA_WORDS;
pub use internal::EthtoolCommnad;
pub use internal::EthtoolLinkSettings;
pub use internal::settings_zeroed_with_cmd;
