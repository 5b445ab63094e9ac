use vstd::prelude::*;
use crate::error::Error;
use crate::text::{ascii_lower, ascii_lower_equals, join3};

verus! {

/// The producer settings of the produce and perf commands.
#[derive(Debug)]
pub struct ProducerOpts {
    pub topic: String,
    pub name: Option<String>,
    /// Messages per batch; zero or less turns batching off.
    pub batch_size: i32,
    /// `lz4`, `zlib`, `zstd` or `snappy`, in any ASCII case.
    pub compression: Option<String>,
    pub batching_max_publish_latency_ms: u64,
}

/// A compression codec for published batches.
#[derive(Clone, Copy, Debug, PartialEq, Eq, Structural)]
pub enum CompressionKind {
    Lz4,
    Zlib,
    Zstd,
    Snappy,
}

/// The codec a compression name selects, if any.
pub open spec fn compression_named(name: Seq<char>) -> Option<CompressionKind> {
    if ascii_lower(name) == "lz4"@ {
        Some(CompressionKind::Lz4)
    } else if ascii_lower(name) == "zlib"@ {
        Some(CompressionKind::Zlib)
    } else if ascii_lower(name) == "zstd"@ {
        Some(CompressionKind::Zstd)
    } else if ascii_lower(name) == "snappy"@ {
        Some(CompressionKind::Snappy)
    } else {
        None
    }
}

/// The message of an unknown compression name.
pub open spec fn illegal_compression_message(name: Seq<char>) -> Seq<char> {
    "illegal compression ["@ + name + "]"@
}

impl ProducerOpts {
    /// The batch size to configure: none when batching is off.
    pub fn parse_batch_size(&self) -> (r: Option<u32>)
        ensures
            self.batch_size <= 0 ==> r is None,
            self.batch_size > 0 ==> r == Some(self.batch_size as u32),
    {
        if self.batch_size <= 0 {
            None
        } else {
            Some(self.batch_size as u32)
        }
    }

    /// The codec to configure: none when no compression is asked for, an
    /// error when the name is unknown.
    pub fn parse_compression(&self) -> (r: Result<Option<CompressionKind>, Error>)
        ensures
            self.compression is None ==> r == Ok::<Option<CompressionKind>, Error>(None),
            self.compression matches Some(name) ==> (compression_named(name@) matches Some(k) ==> r
                == Ok::<Option<CompressionKind>, Error>(Some(k))),
            self.compression matches Some(name) ==> (compression_named(name@) is None ==> (r matches Err(
                Error::Custom(m)) && m@ == illegal_compression_message(name@))),
    {
        match &self.compression {
            None => Ok(None),
            Some(name) => {
                if ascii_lower_equals(name.as_str(), "lz4") {
                    Ok(Some(CompressionKind::Lz4))
                } else if ascii_lower_equals(name.as_str(), "zlib") {
                    Ok(Some(CompressionKind::Zlib))
                } else if ascii_lower_equals(name.as_str(), "zstd") {
                    Ok(Some(CompressionKind::Zstd))
                } else if ascii_lower_equals(name.as_str(), "snappy") {
                    Ok(Some(CompressionKind::Snappy))
                } else {
                    Err(Error::Custom(join3("illegal compression [", name.as_str(), "]")))
                }
            },
        }
    }
}

} // verus!
