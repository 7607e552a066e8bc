//! What the server streams, and how.

use crate::paths::{path_exists, path_is_file};
use crate::rtsp::container_format::ContainerFormat;
use crate::rtsp::errors::DomainError;
use crate::rtsp::video_codec::VideoCodec;
use vstd::prelude::*;

verus! {

/// The RTP payload type of a stream that was given none.
pub const DEFAULT_RTP_PAYLOAD_TYPE: u8 = 96;

/// What a stream configuration holds.
pub struct StreamConfigModel {
    pub source_path: Seq<char>,
    pub codec: VideoCodec,
    pub container: ContainerFormat,
    pub rtp_payload_type: u8,
}

/// The file to stream, its codec and container, and the RTP payload type.
#[derive(Debug, PartialEq)]
pub struct StreamConfig {
    source_path: String,
    codec: VideoCodec,
    container: ContainerFormat,
    rtp_payload_type: u8,
}

impl View for StreamConfig {
    type V = StreamConfigModel;

    closed spec fn view(&self) -> StreamConfigModel {
        StreamConfigModel {
            source_path: self.source_path@,
            codec: self.codec,
            container: self.container,
            rtp_payload_type: self.rtp_payload_type,
        }
    }
}

/// What the check of a source says, given what is on disk at its path.
pub enum SourceVerdict {
    /// A file exists there.
    Accepted,
    /// Nothing exists there.
    Missing,
    /// Something exists there that is not a file.
    NotAFile,
}

/// The verdict on a source of which the file system says whether anything
/// is `present` at its path and whether that `is_file`.
pub open spec fn source_verdict(present: bool, is_file: bool) -> SourceVerdict {
    if !present {
        SourceVerdict::Missing
    } else if !is_file {
        SourceVerdict::NotAFile
    } else {
        SourceVerdict::Accepted
    }
}

impl StreamConfig {
    /// `result` is what `verdict` makes of this configuration: the two
    /// errors carry the path.
    pub open spec fn judged(self, verdict: SourceVerdict, result: Result<(), DomainError>) -> bool {
        match verdict {
            SourceVerdict::Accepted => result is Ok,
            SourceVerdict::Missing => result matches Err(DomainError::InvalidPath(path))
                && path@ == self@.source_path,
            SourceVerdict::NotAFile => result matches Err(DomainError::PathNotFile(path))
                && path@ == self@.source_path,
        }
    }

    /// The configuration of the file at `source_path`: H.264 in MP4, with
    /// payload type 96.
    pub fn new(source_path: String) -> (config: StreamConfig)
        ensures
            config@ == (StreamConfigModel {
                source_path: source_path@,
                codec: VideoCodec::H264,
                container: ContainerFormat::MP4,
                rtp_payload_type: DEFAULT_RTP_PAYLOAD_TYPE,
            }),
    {
        StreamConfig {
            source_path,
            codec: VideoCodec::default(),
            container: ContainerFormat::default(),
            rtp_payload_type: DEFAULT_RTP_PAYLOAD_TYPE,
        }
    }

    /// The same configuration with another codec.
    pub fn with_codec(self, codec: VideoCodec) -> (config: StreamConfig)
        ensures
            config@ == (StreamConfigModel { codec, ..self@ }),
    {
        StreamConfig {
            source_path: self.source_path,
            codec,
            container: self.container,
            rtp_payload_type: self.rtp_payload_type,
        }
    }

    /// The same configuration with another container.
    pub fn with_container(self, container: ContainerFormat) -> (config: StreamConfig)
        ensures
            config@ == (StreamConfigModel { container, ..self@ }),
    {
        StreamConfig {
            source_path: self.source_path,
            codec: self.codec,
            container,
            rtp_payload_type: self.rtp_payload_type,
        }
    }

    /// The same configuration with another RTP payload type.
    pub fn with_rtp_payload_type(self, pt: u8) -> (config: StreamConfig)
        ensures
            config@ == (StreamConfigModel { rtp_payload_type: pt, ..self@ }),
    {
        StreamConfig {
            source_path: self.source_path,
            codec: self.codec,
            container: self.container,
            rtp_payload_type: pt,
        }
    }

    /// The path of the file to stream.
    pub fn source_path(&self) -> (path: &String)
        ensures
            path@ == self@.source_path,
    {
        &self.source_path
    }

    /// The codec of the stream.
    pub fn codec(&self) -> (codec: &VideoCodec)
        ensures
            *codec == self@.codec,
    {
        &self.codec
    }

    /// The container of the file.
    pub fn container(&self) -> (container: &ContainerFormat)
        ensures
            *container == self@.container,
    {
        &self.container
    }

    /// The RTP payload type.
    pub fn rtp_payload_type(&self) -> (pt: u8)
        ensures
            pt == self@.rtp_payload_type,
    {
        self.rtp_payload_type
    }

    /// The check of the source, given what the file system says of its
    /// path: `InvalidPath` where nothing exists there, else `PathNotFile`
    /// where it is not a file. Either error carries the path.
    pub fn check_source(&self, present: bool, is_file: bool) -> (result: Result<(), DomainError>)
        ensures
            self.judged(source_verdict(present, is_file), result),
    {
        if !present {
            return Err(DomainError::InvalidPath(self.source_path.clone()));
        }
        if !is_file {
            return Err(DomainError::PathNotFile(self.source_path.clone()));
        }
        Ok(())
    }

    /// Asks the file system what is at the source's path and checks the
    /// source by the answer: the result is the one that `check_source`
    /// gives for what was found.
    pub fn validate(&self) -> (result: Result<(), DomainError>)
        ensures
            exists|present: bool, is_file: bool|
                self.judged(#[trigger] source_verdict(present, is_file), result),
    {
        let present: bool = path_exists(self.source_path.as_str());
        let is_file: bool = present && path_is_file(self.source_path.as_str());
        let result = self.check_source(present, is_file);
        assert(self.judged(source_verdict(present, is_file), result));
        result
    }
}

impl Clone for StreamConfig {
    /// A configuration of the same parts.
    fn clone(&self) -> (copy: StreamConfig)
        ensures
            copy@ == self@,
    {
        StreamConfig {
            source_path: self.source_path.clone(),
            codec: self.codec,
            container: self.container,
            rtp_payload_type: self.rtp_payload_type,
        }
    }
}

} // verus!
