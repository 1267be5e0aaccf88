//! The parts of `quinn` that a transport profile is turned into.
//!
//! `quinn` keeps the fields of its configuration types to itself. The contracts
//! here speak of them through [`TransportSettings`] and
//! [`MtuDiscoverySettings`], which list the settings that a profile decides.

use quinn::{IdleTimeout, MtuDiscoveryConfig, TransportConfig, VarInt, VarIntBoundsExceeded};
use std::time::Duration;
use vstd::prelude::*;

verus! {

#[verifier::external_type_specification]
#[verifier::external_body]
pub struct ExTransportConfig(TransportConfig);

#[verifier::external_type_specification]
#[verifier::external_body]
pub struct ExMtuDiscoveryConfig(MtuDiscoveryConfig);

#[verifier::external_type_specification]
#[verifier::external_body]
pub struct ExVarInt(VarInt);

#[verifier::external_type_specification]
#[verifier::external_body]
pub struct ExIdleTimeout(IdleTimeout);

#[verifier::external_type_specification]
#[verifier::external_body]
pub struct ExVarIntBoundsExceeded(VarIntBoundsExceeded);

/// The settings of a `quinn::TransportConfig` that a profile decides. Times
/// are in milliseconds, windows and buffers in bytes.
#[verifier::ext_equal]
pub struct TransportSettings {
    pub max_idle_timeout: Option<u64>,
    pub keep_alive_interval: Option<u64>,
    pub max_concurrent_bidi_streams: u64,
    pub max_concurrent_uni_streams: u64,
    pub stream_receive_window: u64,
    pub receive_window: u64,
    pub send_window: u64,
    pub datagram_receive_buffer_size: Option<usize>,
    pub datagram_send_buffer_size: usize,
    pub initial_mtu: u16,
    pub min_mtu: u16,
    pub mtu_discovery: Option<MtuDiscoverySettings>,
    pub pad_to_mtu: bool,
    pub allow_spin: bool,
    pub enable_segmentation_offload: bool,
}

/// The settings of a `quinn::MtuDiscoveryConfig`. Times are in milliseconds.
pub struct MtuDiscoverySettings {
    pub interval: u64,
    pub upper_bound: u16,
    pub minimum_change: u16,
    pub black_hole_cooldown: u64,
}

/// The smallest MTU that QUIC permits; `quinn` uses none below it.
pub const SMALLEST_MTU: u16 = 1200;

/// The largest UDP payload; `quinn` looks for no MTU above it.
pub const LARGEST_UDP_PAYLOAD: u16 = 65527;

/// The values that fit a QUIC variable-length integer are those below this.
pub const VARINT_LIMIT: u64 = 0x4000_0000_0000_0000;

/// The settings that a `quinn::TransportConfig` holds.
pub uninterp spec fn transport_settings(config: TransportConfig) -> TransportSettings;

/// The settings that a `quinn::MtuDiscoveryConfig` holds.
pub uninterp spec fn mtu_discovery_settings(config: MtuDiscoveryConfig) -> MtuDiscoverySettings;

/// The number that a `quinn::VarInt` is.
pub uninterp spec fn varint_value(value: VarInt) -> u64;

/// The milliseconds that a `quinn::IdleTimeout` stands for.
pub uninterp spec fn idle_timeout_millis(timeout: IdleTimeout) -> u64;

/// The settings of a `quinn::TransportConfig` before any is changed.
pub open spec fn default_transport_settings() -> TransportSettings {
    TransportSettings {
        max_idle_timeout: Some(30_000),
        keep_alive_interval: None,
        max_concurrent_bidi_streams: 100,
        max_concurrent_uni_streams: 100,
        stream_receive_window: 1_250_000,
        receive_window: (VARINT_LIMIT - 1) as u64,
        send_window: 10_000_000,
        datagram_receive_buffer_size: Some(1_250_000),
        datagram_send_buffer_size: 1_048_576,
        initial_mtu: SMALLEST_MTU,
        min_mtu: SMALLEST_MTU,
        mtu_discovery: Some(default_mtu_discovery_settings()),
        pad_to_mtu: false,
        allow_spin: true,
        enable_segmentation_offload: true,
    }
}

/// The settings of a `quinn::MtuDiscoveryConfig` before any is changed.
pub open spec fn default_mtu_discovery_settings() -> MtuDiscoverySettings {
    MtuDiscoverySettings {
        interval: 600_000,
        upper_bound: 1452,
        minimum_change: 20,
        black_hole_cooldown: 60_000,
    }
}

/// `quinn::TransportConfig::default`: a configuration with the default
/// settings.
#[verifier::external_body]
pub(crate) fn default_transport_config() -> (config: TransportConfig)
    ensures
        transport_settings(config) == default_transport_settings(),
{
    TransportConfig::default()
}

/// `quinn::MtuDiscoveryConfig::default`: MTU discovery with the default
/// settings.
#[verifier::external_body]
pub(crate) fn default_mtu_discovery_config() -> (config: MtuDiscoveryConfig)
    ensures
        mtu_discovery_settings(config) == default_mtu_discovery_settings(),
{
    MtuDiscoveryConfig::default()
}

/// `quinn::MtuDiscoveryConfig::upper_bound`: sets the upper bound, no higher
/// than the largest UDP payload, and nothing else.
#[verifier::external_body]
pub(crate) fn set_upper_bound(config: &mut MtuDiscoveryConfig, value: u16)
    ensures
        mtu_discovery_settings(*final(config)) == (MtuDiscoverySettings {
            upper_bound: if value <= LARGEST_UDP_PAYLOAD {
                value
            } else {
                LARGEST_UDP_PAYLOAD
            },
            ..mtu_discovery_settings(*old(config))
        }),
{
    config.upper_bound(value);
}

/// `quinn::VarInt::from_u32`: the same number, which always fits.
#[verifier::external_body]
pub(crate) fn varint_from_u32(value: u32) -> (varint: VarInt)
    ensures
        varint_value(varint) == value,
{
    VarInt::from_u32(value)
}

/// `quinn::VarInt::from_u64`: the same number, if it is below 2^62.
#[verifier::external_body]
pub(crate) fn varint_from_u64(value: u64) -> (varint: Result<VarInt, VarIntBoundsExceeded>)
    ensures
        varint is Ok <==> value < VARINT_LIMIT,
        varint matches Ok(varint) ==> varint_value(varint) == value,
{
    VarInt::from_u64(value)
}

/// `quinn::IdleTimeout::try_from`, of a `Duration` of whole milliseconds: the
/// same time, if its milliseconds are below 2^62.
#[verifier::external_body]
pub(crate) fn idle_timeout_from_millis(millis: u64) -> (timeout: Result<
    IdleTimeout,
    VarIntBoundsExceeded,
>)
    ensures
        timeout is Ok <==> millis < VARINT_LIMIT,
        timeout matches Ok(timeout) ==> idle_timeout_millis(timeout) == millis,
{
    IdleTimeout::try_from(Duration::from_millis(millis))
}

/// `quinn::TransportConfig::max_idle_timeout`: sets that and nothing else.
#[verifier::external_body]
pub(crate) fn set_max_idle_timeout(config: &mut TransportConfig, value: IdleTimeout)
    ensures
        transport_settings(*final(config)) == (TransportSettings {
            max_idle_timeout: Some(idle_timeout_millis(value)),
            ..transport_settings(*old(config))
        }),
{
    config.max_idle_timeout(Some(value));
}

/// `quinn::TransportConfig::keep_alive_interval`, of whole milliseconds: sets
/// that and nothing else.
#[verifier::external_body]
pub(crate) fn set_keep_alive_interval(config: &mut TransportConfig, millis: Option<u64>)
    ensures
        transport_settings(*final(config)) == (TransportSettings {
            keep_alive_interval: millis,
            ..transport_settings(*old(config))
        }),
{
    config.keep_alive_interval(millis.map(Duration::from_millis));
}

/// `quinn::TransportConfig::max_concurrent_bidi_streams`: sets that and nothing
/// else.
#[verifier::external_body]
pub(crate) fn set_max_concurrent_bidi_streams(config: &mut TransportConfig, value: VarInt)
    ensures
        transport_settings(*final(config)) == (TransportSettings {
            max_concurrent_bidi_streams: varint_value(value),
            ..transport_settings(*old(config))
        }),
{
    config.max_concurrent_bidi_streams(value);
}

/// `quinn::TransportConfig::max_concurrent_uni_streams`: sets that and nothing
/// else.
#[verifier::external_body]
pub(crate) fn set_max_concurrent_uni_streams(config: &mut TransportConfig, value: VarInt)
    ensures
        transport_settings(*final(config)) == (TransportSettings {
            max_concurrent_uni_streams: varint_value(value),
            ..transport_settings(*old(config))
        }),
{
    config.max_concurrent_uni_streams(value);
}

/// `quinn::TransportConfig::stream_receive_window`: sets that and nothing else.
#[verifier::external_body]
pub(crate) fn set_stream_receive_window(config: &mut TransportConfig, value: VarInt)
    ensures
        transport_settings(*final(config)) == (TransportSettings {
            stream_receive_window: varint_value(value),
            ..transport_settings(*old(config))
        }),
{
    config.stream_receive_window(value);
}

/// `quinn::TransportConfig::receive_window`: sets that and nothing else.
#[verifier::external_body]
pub(crate) fn set_receive_window(config: &mut TransportConfig, value: VarInt)
    ensures
        transport_settings(*final(config)) == (TransportSettings {
            receive_window: varint_value(value),
            ..transport_settings(*old(config))
        }),
{
    config.receive_window(value);
}

/// `quinn::TransportConfig::send_window`: sets that and nothing else.
#[verifier::external_body]
pub(crate) fn set_send_window(config: &mut TransportConfig, value: u64)
    ensures
        transport_settings(*final(config)) == (TransportSettings {
            send_window: value,
            ..transport_settings(*old(config))
        }),
{
    config.send_window(value);
}

/// `quinn::TransportConfig::datagram_receive_buffer_size`: sets that and nothing
/// else.
#[verifier::external_body]
pub(crate) fn set_datagram_receive_buffer_size(config: &mut TransportConfig, value: Option<usize>)
    ensures
        transport_settings(*final(config)) == (TransportSettings {
            datagram_receive_buffer_size: value,
            ..transport_settings(*old(config))
        }),
{
    config.datagram_receive_buffer_size(value);
}

/// `quinn::TransportConfig::datagram_send_buffer_size`: sets that and nothing
/// else.
#[verifier::external_body]
pub(crate) fn set_datagram_send_buffer_size(config: &mut TransportConfig, value: usize)
    ensures
        transport_settings(*final(config)) == (TransportSettings {
            datagram_send_buffer_size: value,
            ..transport_settings(*old(config))
        }),
{
    config.datagram_send_buffer_size(value);
}

/// An MTU as `quinn` takes it: none below the smallest.
pub open spec fn at_least_smallest_mtu(value: u16) -> u16 {
    if value >= SMALLEST_MTU {
        value
    } else {
        SMALLEST_MTU
    }
}

/// `quinn::TransportConfig::initial_mtu`: sets that, no lower than the smallest
/// MTU, and nothing else.
#[verifier::external_body]
pub(crate) fn set_initial_mtu(config: &mut TransportConfig, value: u16)
    ensures
        transport_settings(*final(config)) == (TransportSettings {
            initial_mtu: at_least_smallest_mtu(value),
            ..transport_settings(*old(config))
        }),
{
    config.initial_mtu(value);
}

/// `quinn::TransportConfig::min_mtu`: sets that, no lower than the smallest MTU,
/// and nothing else.
#[verifier::external_body]
pub(crate) fn set_min_mtu(config: &mut TransportConfig, value: u16)
    ensures
        transport_settings(*final(config)) == (TransportSettings {
            min_mtu: at_least_smallest_mtu(value),
            ..transport_settings(*old(config))
        }),
{
    config.min_mtu(value);
}

/// `quinn::TransportConfig::mtu_discovery_config`: sets that and nothing else.
#[verifier::external_body]
pub(crate) fn set_mtu_discovery_config(
    config: &mut TransportConfig,
    value: Option<MtuDiscoveryConfig>,
)
    ensures
        transport_settings(*final(config)) == (TransportSettings {
            mtu_discovery: match value {
                Some(value) => Some(mtu_discovery_settings(value)),
                None => None,
            },
            ..transport_settings(*old(config))
        }),
{
    config.mtu_discovery_config(value);
}

/// `quinn::TransportConfig::pad_to_mtu`: sets that and nothing else.
#[verifier::external_body]
pub(crate) fn set_pad_to_mtu(config: &mut TransportConfig, value: bool)
    ensures
        transport_settings(*final(config)) == (TransportSettings {
            pad_to_mtu: value,
            ..transport_settings(*old(config))
        }),
{
    config.pad_to_mtu(value);
}

/// `quinn::TransportConfig::allow_spin`: sets that and nothing else.
#[verifier::external_body]
pub(crate) fn set_allow_spin(config: &mut TransportConfig, value: bool)
    ensures
        transport_settings(*final(config)) == (TransportSettings {
            allow_spin: value,
            ..transport_settings(*old(config))
        }),
{
    config.allow_spin(value);
}

/// `quinn::TransportConfig::enable_segmentation_offload`: sets that and nothing
/// else.
#[verifier::external_body]
pub(crate) fn set_enable_segmentation_offload(config: &mut TransportConfig, value: bool)
    ensures
        transport_settings(*final(config)) == (TransportSettings {
            enable_segmentation_offload: value,
            ..transport_settings(*old(config))
        }),
{
    config.enable_segmentation_offload(value);
}

} // verus!
