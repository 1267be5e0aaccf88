//! QUIC transport profiles and path diagnostics.

pub mod rebind;
pub mod transport;

use quinn::{TransportConfig, VarIntBoundsExceeded};
use vstd::prelude::*;
use vstd::string::*;

use crate::quic::transport::{
    at_least_smallest_mtu, default_mtu_discovery_config, default_mtu_discovery_settings,
    default_transport_config, idle_timeout_from_millis, set_allow_spin,
    set_datagram_receive_buffer_size, set_datagram_send_buffer_size,
    set_enable_segmentation_offload, set_initial_mtu, set_keep_alive_interval,
    set_max_concurrent_bidi_streams, set_max_concurrent_uni_streams, set_max_idle_timeout,
    set_min_mtu, set_mtu_discovery_config, set_pad_to_mtu, set_receive_window, set_send_window,
    set_stream_receive_window, set_upper_bound, transport_settings, varint_from_u32,
    varint_from_u64, MtuDiscoverySettings, TransportSettings, LARGEST_UDP_PAYLOAD, VARINT_LIMIT,
};

verus! {

/// How a SnapPipe endpoint tunes its QUIC transport.
#[derive(Debug, PartialEq, Eq)]
pub struct QuicTransportProfile {
    pub name: &'static str,
    pub alpn: String,
    pub max_idle_timeout_ms: u64,
    pub keep_alive_interval_ms: Option<u64>,
    pub max_concurrent_bidi_streams: u32,
    pub max_concurrent_uni_streams: u32,
    pub stream_receive_window_bytes: u64,
    pub receive_window_bytes: u64,
    pub send_window_bytes: u64,
    pub datagram_receive_buffer_size_bytes: Option<usize>,
    pub datagram_send_buffer_size_bytes: usize,
    pub initial_mtu: u16,
    pub min_mtu: u16,
    pub mtu_discovery_upper_bound: Option<u16>,
    pub pad_datagrams_to_mtu: bool,
    pub allow_spin: bool,
    pub enable_segmentation_offload: bool,
}

impl Clone for QuicTransportProfile {
    fn clone(&self) -> (copy: Self)
        ensures
            copy == *self,
    {
        QuicTransportProfile { alpn: self.alpn.clone(), ..*self }
    }
}

/// Why a profile cannot be turned into a transport configuration.
#[derive(Debug)]
pub enum QuicProfileError {
    /// A value exceeds the bounds of a QUIC variable-length integer.
    VarIntBounds(VarIntBoundsExceeded),
}

impl QuicTransportProfile {
    /// Whether every value that QUIC sends as a variable-length integer fits
    /// one.
    pub open spec fn fits_varints(self) -> bool {
        &&& self.max_idle_timeout_ms < VARINT_LIMIT
        &&& self.stream_receive_window_bytes < VARINT_LIMIT
        &&& self.receive_window_bytes < VARINT_LIMIT
    }

    /// The transport settings that the profile asks for.
    pub open spec fn settings(self) -> TransportSettings {
        TransportSettings {
            max_idle_timeout: Some(self.max_idle_timeout_ms),
            keep_alive_interval: self.keep_alive_interval_ms,
            max_concurrent_bidi_streams: self.max_concurrent_bidi_streams as u64,
            max_concurrent_uni_streams: self.max_concurrent_uni_streams as u64,
            stream_receive_window: self.stream_receive_window_bytes,
            receive_window: self.receive_window_bytes,
            send_window: self.send_window_bytes,
            datagram_receive_buffer_size: self.datagram_receive_buffer_size_bytes,
            datagram_send_buffer_size: self.datagram_send_buffer_size_bytes,
            initial_mtu: at_least_smallest_mtu(self.initial_mtu),
            min_mtu: at_least_smallest_mtu(self.min_mtu),
            mtu_discovery: match self.mtu_discovery_upper_bound {
                Some(upper_bound) => Some(
                    MtuDiscoverySettings {
                        upper_bound: if upper_bound <= LARGEST_UDP_PAYLOAD {
                            upper_bound
                        } else {
                            LARGEST_UDP_PAYLOAD
                        },
                        ..default_mtu_discovery_settings()
                    },
                ),
                None => None,
            },
            pad_to_mtu: self.pad_datagrams_to_mtu,
            allow_spin: self.allow_spin,
            enable_segmentation_offload: self.enable_segmentation_offload,
        }
    }

    /// The profile of an interactive client: small windows, quick timeouts.
    pub fn low_latency_interactive(alpn: &str) -> (profile: Self)
        ensures
            profile.name@ == "low-latency-interactive"@,
            profile.alpn@ == alpn@,
            profile.max_idle_timeout_ms == 15_000,
            profile.keep_alive_interval_ms == Some(4_000u64),
            profile.max_concurrent_bidi_streams == 8,
            profile.max_concurrent_uni_streams == 32,
            profile.stream_receive_window_bytes == 256 * 1024,
            profile.receive_window_bytes == 2 * 1024 * 1024,
            profile.send_window_bytes == 2 * 1024 * 1024,
            profile.datagram_receive_buffer_size_bytes == Some((2 * 1024 * 1024) as usize),
            profile.datagram_send_buffer_size_bytes == 2 * 1024 * 1024,
            profile.initial_mtu == 1200,
            profile.min_mtu == 1200,
            profile.mtu_discovery_upper_bound == Some(1452u16),
            !profile.pad_datagrams_to_mtu,
            !profile.allow_spin,
            profile.enable_segmentation_offload,
            profile.fits_varints(),
    {
        QuicTransportProfile {
            name: "low-latency-interactive",
            alpn: alpn.to_owned(),
            max_idle_timeout_ms: 15_000,
            keep_alive_interval_ms: Some(4_000),
            max_concurrent_bidi_streams: 8,
            max_concurrent_uni_streams: 32,
            stream_receive_window_bytes: 256 * 1024,
            receive_window_bytes: 2 * 1024 * 1024,
            send_window_bytes: 2 * 1024 * 1024,
            datagram_receive_buffer_size_bytes: Some(2 * 1024 * 1024),
            datagram_send_buffer_size_bytes: 2 * 1024 * 1024,
            initial_mtu: 1200,
            min_mtu: 1200,
            mtu_discovery_upper_bound: Some(1452),
            pad_datagrams_to_mtu: false,
            allow_spin: false,
            enable_segmentation_offload: true,
        }
    }

    /// The profile of a relay: large windows, patient timeouts.
    pub fn relay_backhaul(alpn: &str) -> (profile: Self)
        ensures
            profile.name@ == "relay-backhaul"@,
            profile.alpn@ == alpn@,
            profile.max_idle_timeout_ms == 30_000,
            profile.keep_alive_interval_ms == Some(10_000u64),
            profile.max_concurrent_bidi_streams == 32,
            profile.max_concurrent_uni_streams == 64,
            profile.stream_receive_window_bytes == 512 * 1024,
            profile.receive_window_bytes == 8 * 1024 * 1024,
            profile.send_window_bytes == 8 * 1024 * 1024,
            profile.datagram_receive_buffer_size_bytes == Some((4 * 1024 * 1024) as usize),
            profile.datagram_send_buffer_size_bytes == 4 * 1024 * 1024,
            profile.initial_mtu == 1200,
            profile.min_mtu == 1200,
            profile.mtu_discovery_upper_bound == Some(1452u16),
            !profile.pad_datagrams_to_mtu,
            !profile.allow_spin,
            profile.enable_segmentation_offload,
            profile.fits_varints(),
    {
        QuicTransportProfile {
            name: "relay-backhaul",
            alpn: alpn.to_owned(),
            max_idle_timeout_ms: 30_000,
            keep_alive_interval_ms: Some(10_000),
            max_concurrent_bidi_streams: 32,
            max_concurrent_uni_streams: 64,
            stream_receive_window_bytes: 512 * 1024,
            receive_window_bytes: 8 * 1024 * 1024,
            send_window_bytes: 8 * 1024 * 1024,
            datagram_receive_buffer_size_bytes: Some(4 * 1024 * 1024),
            datagram_send_buffer_size_bytes: 4 * 1024 * 1024,
            initial_mtu: 1200,
            min_mtu: 1200,
            mtu_discovery_upper_bound: Some(1452),
            pad_datagrams_to_mtu: false,
            allow_spin: false,
            enable_segmentation_offload: true,
        }
    }

    /// Turn the profile into a `quinn` transport configuration.
    pub fn build_transport_config(&self) -> (config: Result<TransportConfig, QuicProfileError>)
        ensures
            config is Ok <==> self.fits_varints(),
            config matches Ok(config) ==> transport_settings(config) == self.settings(),
    {
        let mut transport = default_transport_config();
        let idle_timeout = match idle_timeout_from_millis(self.max_idle_timeout_ms) {
            Ok(idle_timeout) => idle_timeout,
            Err(error) => return Err(QuicProfileError::VarIntBounds(error)),
        };
        set_max_idle_timeout(&mut transport, idle_timeout);
        set_keep_alive_interval(&mut transport, self.keep_alive_interval_ms);
        set_max_concurrent_bidi_streams(
            &mut transport,
            varint_from_u32(self.max_concurrent_bidi_streams),
        );
        set_max_concurrent_uni_streams(
            &mut transport,
            varint_from_u32(self.max_concurrent_uni_streams),
        );
        let stream_receive_window = match varint_from_u64(self.stream_receive_window_bytes) {
            Ok(window) => window,
            Err(error) => return Err(QuicProfileError::VarIntBounds(error)),
        };
        set_stream_receive_window(&mut transport, stream_receive_window);
        let receive_window = match varint_from_u64(self.receive_window_bytes) {
            Ok(window) => window,
            Err(error) => return Err(QuicProfileError::VarIntBounds(error)),
        };
        set_receive_window(&mut transport, receive_window);
        set_send_window(&mut transport, self.send_window_bytes);
        set_datagram_receive_buffer_size(&mut transport, self.datagram_receive_buffer_size_bytes);
        set_datagram_send_buffer_size(&mut transport, self.datagram_send_buffer_size_bytes);
        set_initial_mtu(&mut transport, self.initial_mtu);
        set_min_mtu(&mut transport, self.min_mtu);
        set_pad_to_mtu(&mut transport, self.pad_datagrams_to_mtu);
        set_allow_spin(&mut transport, self.allow_spin);
        set_enable_segmentation_offload(&mut transport, self.enable_segmentation_offload);

        if let Some(upper_bound) = self.mtu_discovery_upper_bound {
            let mut mtu = default_mtu_discovery_config();
            set_upper_bound(&mut mtu, upper_bound);
            set_mtu_discovery_config(&mut transport, Some(mtu));
        } else {
            set_mtu_discovery_config(&mut transport, None);
        }

        Ok(transport)
    }
}

/// Law: a profile is taken at its word: every setting of the transport is the
/// profile's, but for an MTU below 1200, which is raised to that, and a bound
/// on MTU discovery above 65527, which is lowered to that; and discovery is on
/// exactly if the profile has a bound for it.
pub proof fn law_settings_are_the_profile(profile: QuicTransportProfile)
    ensures
        ({
            let settings = profile.settings();
            &&& settings.max_idle_timeout == Some(profile.max_idle_timeout_ms)
            &&& settings.keep_alive_interval == profile.keep_alive_interval_ms
            &&& settings.max_concurrent_bidi_streams == profile.max_concurrent_bidi_streams
            &&& settings.max_concurrent_uni_streams == profile.max_concurrent_uni_streams
            &&& settings.stream_receive_window == profile.stream_receive_window_bytes
            &&& settings.receive_window == profile.receive_window_bytes
            &&& settings.send_window == profile.send_window_bytes
            &&& settings.datagram_receive_buffer_size == profile.datagram_receive_buffer_size_bytes
            &&& settings.datagram_send_buffer_size == profile.datagram_send_buffer_size_bytes
            &&& settings.initial_mtu >= 1200 && settings.initial_mtu >= profile.initial_mtu
            &&& settings.initial_mtu == 1200 || settings.initial_mtu == profile.initial_mtu
            &&& settings.min_mtu >= 1200 && settings.min_mtu >= profile.min_mtu
            &&& settings.min_mtu == 1200 || settings.min_mtu == profile.min_mtu
            &&& settings.mtu_discovery is Some <==> profile.mtu_discovery_upper_bound is Some
            &&& profile.mtu_discovery_upper_bound matches Some(bound) ==> {
                let discovery = settings.mtu_discovery->0;
                &&& discovery.upper_bound <= 65527 && discovery.upper_bound <= bound
                &&& discovery.upper_bound == 65527 || discovery.upper_bound == bound
                &&& discovery.interval == 600_000
                &&& discovery.minimum_change == 20
                &&& discovery.black_hole_cooldown == 60_000
            }
            &&& settings.pad_to_mtu == profile.pad_datagrams_to_mtu
            &&& settings.allow_spin == profile.allow_spin
            &&& settings.enable_segmentation_offload == profile.enable_segmentation_offload
        }),
{
}

/// Law: a profile is refused exactly for a timeout or a window of 2^62 or more.
pub proof fn law_profiles_within_bounds_fit(profile: QuicTransportProfile)
    ensures
        profile.fits_varints() <==> {
            &&& profile.max_idle_timeout_ms < 0x4000_0000_0000_0000
            &&& profile.stream_receive_window_bytes < 0x4000_0000_0000_0000
            &&& profile.receive_window_bytes < 0x4000_0000_0000_0000
        },
{
}

} // verus!
