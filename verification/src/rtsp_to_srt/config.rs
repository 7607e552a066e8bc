//! The settings of the bridge as a user gives them, and the rules that
//! they must meet before anything is started.

use crate::rtsp_to_srt::backoff_policy::{BackoffPolicy, Multiplier};
use crate::rtsp_to_srt::bridge_config::{is_rtsp_url, is_srt_url, BridgeConfig};
use crate::rtsp_to_srt::errors::DomainError;
use crate::text::{decimal, decimal_digits, starts_with};
use crate::time_span::TimeSpan;
use crate::user_port::{port_fault, validate_user_port, PortError, PortFault};
use vstd::prelude::*;
use vstd::string::StringExecFns;

verus! {

/// The settings of the bridge.
#[derive(Debug, Clone)]
pub struct Config {
    /// RTSP source URL.
    pub rtsp_url: String,
    /// SRT destination URL.
    pub srt_url: String,
    /// Metrics server port.
    pub metrics_port: u16,
    /// Initial reconnection delay in seconds.
    pub reconnect_initial_delay: u64,
    /// Maximum reconnection delay in seconds.
    pub reconnect_max_delay: u64,
    /// Reconnection backoff multiplier.
    pub reconnect_multiplier: Multiplier,
    /// Enable verbose logging.
    pub verbose: bool,
}

/// Why settings are refused.
#[derive(Debug)]
pub enum ConfigError {
    /// The source URL does not start with `rtsp://`.
    RtspUrlScheme,
    /// The destination URL does not start with `srt://`.
    SrtUrlScheme,
    /// The metrics port is refused.
    Port(PortError),
    /// The multiplier does not exceed one.
    MultiplierTooSmall,
    /// The initial delay is zero.
    InitialDelayZero,
    /// The maximum delay is below the initial one.
    MaxDelayBelowInitial { max_delay: u64, initial_delay: u64 },
}

/// What a `ConfigError` holds.
pub enum ConfigFault {
    RtspUrlScheme,
    SrtUrlScheme,
    Port(PortFault),
    MultiplierTooSmall,
    InitialDelayZero,
    MaxDelayBelowInitial { max_delay: u64, initial_delay: u64 },
}

impl View for ConfigError {
    type V = ConfigFault;

    open spec fn view(&self) -> ConfigFault {
        match *self {
            ConfigError::RtspUrlScheme => ConfigFault::RtspUrlScheme,
            ConfigError::SrtUrlScheme => ConfigFault::SrtUrlScheme,
            ConfigError::Port(error) => ConfigFault::Port(error@),
            ConfigError::MultiplierTooSmall => ConfigFault::MultiplierTooSmall,
            ConfigError::InitialDelayZero => ConfigFault::InitialDelayZero,
            ConfigError::MaxDelayBelowInitial { max_delay, initial_delay } => {
                ConfigFault::MaxDelayBelowInitial { max_delay, initial_delay }
            },
        }
    }
}

impl ConfigFault {
    /// The text of the fault, as a user reads it.
    pub open spec fn text(self) -> Seq<char> {
        match self {
            ConfigFault::RtspUrlScheme => "RTSP URL must start with rtsp://"@,
            ConfigFault::SrtUrlScheme => "SRT URL must start with srt://"@,
            ConfigFault::Port(fault) => fault.text(),
            ConfigFault::MultiplierTooSmall => "Reconnect multiplier must be > 1.0"@,
            ConfigFault::InitialDelayZero => "Initial reconnection delay cannot be 0"@,
            ConfigFault::MaxDelayBelowInitial { max_delay, initial_delay } => {
                "Maximum reconnection delay ("@ + decimal_digits(max_delay as nat)
                    + ") cannot be less than initial delay ("@ + decimal_digits(
                    initial_delay as nat,
                ) + ")"@
            },
        }
    }
}

impl ConfigError {
    /// The text of the error, as a user reads it.
    pub fn message(&self) -> (message: String)
        ensures
            message@ == self@.text(),
    {
        match self {
            ConfigError::RtspUrlScheme => String::from_str("RTSP URL must start with rtsp://"),
            ConfigError::SrtUrlScheme => String::from_str("SRT URL must start with srt://"),
            ConfigError::Port(error) => error.message(),
            ConfigError::MultiplierTooSmall => String::from_str(
                "Reconnect multiplier must be > 1.0",
            ),
            ConfigError::InitialDelayZero => String::from_str(
                "Initial reconnection delay cannot be 0",
            ),
            ConfigError::MaxDelayBelowInitial { max_delay, initial_delay } => {
                let max_text: String = decimal(*max_delay);
                let initial_text: String = decimal(*initial_delay);
                String::from_str("Maximum reconnection delay (").concat(max_text.as_str()).concat(
                    ") cannot be less than initial delay (",
                ).concat(initial_text.as_str()).concat(")")
            },
        }
    }
}

impl Config {
    /// The first rule that the settings break, if any. The rules, in the
    /// order in which they are looked at: the source is an RTSP URL; the
    /// destination is an SRT URL; the metrics port is a user port; the
    /// multiplier is greater than one; the initial delay is not zero; the
    /// maximum delay is not below the initial one.
    pub open spec fn fault(&self) -> Option<ConfigFault> {
        if !is_rtsp_url(self.rtsp_url@) {
            Some(ConfigFault::RtspUrlScheme)
        } else if !is_srt_url(self.srt_url@) {
            Some(ConfigFault::SrtUrlScheme)
        } else if port_fault(self.metrics_port, "metrics"@) is Some {
            Some(ConfigFault::Port(port_fault(self.metrics_port, "metrics"@)->Some_0))
        } else if !self.reconnect_multiplier.exceeds_one() {
            Some(ConfigFault::MultiplierTooSmall)
        } else if self.reconnect_initial_delay == 0 {
            Some(ConfigFault::InitialDelayZero)
        } else if self.reconnect_max_delay < self.reconnect_initial_delay {
            Some(
                ConfigFault::MaxDelayBelowInitial {
                    max_delay: self.reconnect_max_delay,
                    initial_delay: self.reconnect_initial_delay,
                },
            )
        } else {
            None
        }
    }

    /// Accepts settings that break no rule, and refuses any other with the
    /// first rule that they break.
    pub fn validate(&self) -> (result: Result<(), ConfigError>)
        ensures
            match result {
                Ok(_) => self.fault() is None,
                Err(error) => self.fault() == Some(error@),
            },
    {
        if !starts_with(self.rtsp_url.as_str(), "rtsp://") {
            return Err(ConfigError::RtspUrlScheme);
        }
        if !starts_with(self.srt_url.as_str(), "srt://") {
            return Err(ConfigError::SrtUrlScheme);
        }
        match Self::validate_port(self.metrics_port, "metrics") {
            Err(error) => {
                return Err(ConfigError::Port(error));
            },
            Ok(()) => {},
        }
        if !self.reconnect_multiplier.is_above_one() {
            return Err(ConfigError::MultiplierTooSmall);
        }
        if self.reconnect_initial_delay == 0 {
            return Err(ConfigError::InitialDelayZero);
        }
        if self.reconnect_max_delay < self.reconnect_initial_delay {
            return Err(
                ConfigError::MaxDelayBelowInitial {
                    max_delay: self.reconnect_max_delay,
                    initial_delay: self.reconnect_initial_delay,
                },
            );
        }
        Ok(())
    }

    /// Accepts a user port; `name` says which port it is.
    pub fn validate_port(port: u16, name: &str) -> (result: Result<(), PortError>)
        ensures
            match result {
                Ok(_) => port_fault(port, name@) is None,
                Err(error) => port_fault(port, name@) == Some(error@),
            },
    {
        validate_user_port(port, name)
    }

    /// The bridge configuration of the two URLs.
    pub fn to_bridge_config(&self) -> (result: Result<BridgeConfig, DomainError>)
        ensures
            BridgeConfig::made_of(self.rtsp_url@, self.srt_url@, result),
    {
        BridgeConfig::new(self.rtsp_url.clone(), self.srt_url.clone())
    }

    /// The backoff policy of the two delays, taken as seconds, and the
    /// multiplier.
    pub fn to_backoff_policy(&self) -> (result: Result<BackoffPolicy, DomainError>)
        ensures
            BackoffPolicy::made_of(
                TimeSpan::from_secs_spec(self.reconnect_initial_delay),
                TimeSpan::from_secs_spec(self.reconnect_max_delay),
                self.reconnect_multiplier,
                result,
            ),
    {
        BackoffPolicy::new(
            TimeSpan::from_secs(self.reconnect_initial_delay),
            TimeSpan::from_secs(self.reconnect_max_delay),
            self.reconnect_multiplier,
        )
    }
}

/// Settings that pass `validate` give a bridge configuration and a backoff
/// policy, and the policy's initial delay is neither zero nor above its
/// maximum.
pub proof fn lemma_valid_settings_convert(
    config: Config,
    bridge: Result<BridgeConfig, DomainError>,
    policy: Result<BackoffPolicy, DomainError>,
)
    requires
        config.fault() is None,
        BridgeConfig::made_of(config.rtsp_url@, config.srt_url@, bridge),
        BackoffPolicy::made_of(
            TimeSpan::from_secs_spec(config.reconnect_initial_delay),
            TimeSpan::from_secs_spec(config.reconnect_max_delay),
            config.reconnect_multiplier,
            policy,
        ),
    ensures
        bridge is Ok,
        policy is Ok,
        policy->Ok_0@.valid(),
        0 < policy->Ok_0@.initial_delay <= policy->Ok_0@.max_delay,
{
    let initial: nat = config.reconnect_initial_delay as nat;
    let max: nat = config.reconnect_max_delay as nat;
    assert(initial * 1_000_000_000 <= max * 1_000_000_000) by (nonlinear_arith)
        requires
            initial <= max,
    ;
    assert(initial * 1_000_000_000 > 0) by (nonlinear_arith)
        requires
            initial > 0,
    ;
}

} // verus!
