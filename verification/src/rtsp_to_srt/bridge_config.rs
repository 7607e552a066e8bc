//! Where the bridge reads from and where it sends to.

use crate::rtsp_to_srt::errors::DomainError;
use crate::text::starts_with;
use vstd::prelude::*;

verus! {

/// What a bridge configuration holds: the two URLs.
pub struct BridgeConfigModel {
    pub rtsp_url: Seq<char>,
    pub srt_url: Seq<char>,
}

/// `url` names an RTSP resource.
pub open spec fn is_rtsp_url(url: Seq<char>) -> bool {
    "rtsp://"@.is_prefix_of(url)
}

/// `url` names an SRT endpoint.
pub open spec fn is_srt_url(url: Seq<char>) -> bool {
    "srt://"@.is_prefix_of(url)
}

/// Configuration for the RTSP to SRT bridge.
#[derive(Debug, PartialEq)]
pub struct BridgeConfig {
    rtsp_url: String,
    srt_url: String,
}

impl View for BridgeConfig {
    type V = BridgeConfigModel;

    closed spec fn view(&self) -> BridgeConfigModel {
        BridgeConfigModel { rtsp_url: self.rtsp_url@, srt_url: self.srt_url@ }
    }
}

impl BridgeConfig {
    /// Every configuration holds an RTSP source and an SRT destination.
    #[verifier::type_invariant]
    closed spec fn urls_have_their_schemes(&self) -> bool {
        is_rtsp_url(self.rtsp_url@) && is_srt_url(self.srt_url@)
    }

    /// `result` is what making a configuration of the two URLs gives. The
    /// source is looked at first: `InvalidRtspUrl` where it does not start
    /// with `rtsp://`, else `InvalidSrtUrl` where the destination does not
    /// start with `srt://`. Either error carries the URL that it refuses.
    pub open spec fn made_of(
        rtsp_url: Seq<char>,
        srt_url: Seq<char>,
        result: Result<BridgeConfig, DomainError>,
    ) -> bool {
        match result {
            Ok(config) => is_rtsp_url(rtsp_url) && is_srt_url(srt_url) && config@ == (
            BridgeConfigModel { rtsp_url, srt_url }),
            Err(DomainError::InvalidRtspUrl(url)) => !is_rtsp_url(rtsp_url) && url@ == rtsp_url,
            Err(DomainError::InvalidSrtUrl(url)) => is_rtsp_url(rtsp_url) && !is_srt_url(srt_url)
                && url@ == srt_url,
            Err(_) => false,
        }
    }

    /// The configuration of the two URLs, where the source starts with
    /// `rtsp://` and the destination with `srt://`; else the error that
    /// `made_of` names.
    pub fn new(rtsp_url: String, srt_url: String) -> (result: Result<BridgeConfig, DomainError>)
        ensures
            Self::made_of(rtsp_url@, srt_url@, result),
    {
        match Self::validate_rtsp_url(rtsp_url.as_str()) {
            Err(error) => {
                return Err(error);
            },
            Ok(()) => {},
        }
        match Self::validate_srt_url(srt_url.as_str()) {
            Err(error) => {
                return Err(error);
            },
            Ok(()) => {},
        }
        Ok(BridgeConfig { rtsp_url, srt_url })
    }

    /// The RTSP source.
    pub fn rtsp_url(&self) -> (url: &str)
        ensures
            url@ == self@.rtsp_url,
            is_rtsp_url(url@),
    {
        proof {
            use_type_invariant(self);
        }
        self.rtsp_url.as_str()
    }

    /// The SRT destination.
    pub fn srt_url(&self) -> (url: &str)
        ensures
            url@ == self@.srt_url,
            is_srt_url(url@),
    {
        proof {
            use_type_invariant(self);
        }
        self.srt_url.as_str()
    }

    /// Accepts a URL that starts with `rtsp://`; refuses any other with
    /// `InvalidRtspUrl`, which carries it.
    pub fn validate_rtsp_url(url: &str) -> (result: Result<(), DomainError>)
        ensures
            match result {
                Ok(_) => is_rtsp_url(url@),
                Err(DomainError::InvalidRtspUrl(refused)) => !is_rtsp_url(url@) && refused@
                    == url@,
                Err(_) => false,
            },
    {
        if !starts_with(url, "rtsp://") {
            return Err(DomainError::InvalidRtspUrl(url.to_owned()));
        }
        Ok(())
    }

    /// Accepts a URL that starts with `srt://`; refuses any other with
    /// `InvalidSrtUrl`, which carries it.
    pub fn validate_srt_url(url: &str) -> (result: Result<(), DomainError>)
        ensures
            match result {
                Ok(_) => is_srt_url(url@),
                Err(DomainError::InvalidSrtUrl(refused)) => !is_srt_url(url@) && refused@
                    == url@,
                Err(_) => false,
            },
    {
        if !starts_with(url, "srt://") {
            return Err(DomainError::InvalidSrtUrl(url.to_owned()));
        }
        Ok(())
    }
}

impl Clone for BridgeConfig {
    /// A configuration of the same two URLs.
    fn clone(&self) -> (copy: BridgeConfig)
        ensures
            copy@ == self@,
    {
        proof {
            use_type_invariant(self);
        }
        BridgeConfig { rtsp_url: self.rtsp_url.clone(), srt_url: self.srt_url.clone() }
    }
}

} // verus!
