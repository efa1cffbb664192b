//! Staging and rendering of file-time changes, on plain values.
//!
//! The surrounding program opens files and talks to the operating system;
//! this module holds the logic between: turning caller options into a staged
//! time-change request, and turning metadata readings back into
//! second-precision timestamp strings.

use vstd::prelude::*;

use crate::codec::decode_nanos;
use crate::codec::decode_secs;
use crate::codec::dec_str;
use crate::codec::encode_seconds;
use crate::codec::js_timestamp_to_rs_timestamp;
use crate::codec::valid_timestamp;
use crate::error::TimeError;

verus! {

/// An absolute point in time at or after the Unix epoch: whole seconds plus
/// a sub-second nanosecond part below one billion.
#[derive(Clone, Copy, Debug, PartialEq, Eq, Structural)]
pub struct NativeInstant {
    pub secs: u64,
    pub nanos: u32,
}

impl NativeInstant {
    /// The nanosecond field stays below one billion.
    pub open spec fn wf(self) -> bool {
        self.nanos < 1000000000
    }
}

/// An instant as the operating system reported it, expressed as an offset
/// from the Unix epoch. `before_epoch` marks an instant strictly before the
/// epoch; `secs` and `nanos` then give the magnitude of the offset.
#[derive(Clone, Copy, Debug, PartialEq, Eq, Structural)]
pub struct RawInstant {
    pub before_epoch: bool,
    pub secs: u64,
    pub nanos: u32,
}

/// The caller's request: a file path and up to three timestamp strings to
/// apply to it (creation, modification, access).
#[derive(Clone, Debug)]
pub struct SetFileTimesOptions {
    pub path: String,
    pub btime: Option<String>,
    pub mtime: Option<String>,
    pub atime: Option<String>,
}

/// The outcome of applying file times: `None` on success, a message on the
/// first failure.
#[derive(Clone, Debug)]
pub struct SetFileTimesResult {
    pub error: Option<String>,
}

/// The outcome of reading file times: either an error message, or up to
/// three second-precision timestamp strings (creation time is absent on
/// platforms that do not report one).
#[derive(Clone, Debug)]
pub struct FileTimesResult {
    pub error: Option<String>,
    pub btime: Option<String>,
    pub mtime: Option<String>,
    pub atime: Option<String>,
}

/// The staged time changes: only fields the caller requested (and the
/// platform supports) are populated; absent fields are left untouched on the
/// target file. Application order is creation, then modification, then
/// access, each as one native call, stopping at the first failure with no
/// rollback of fields already applied.
#[derive(Clone, Copy, Debug, PartialEq, Eq, Structural)]
pub struct TimeChangeRequest {
    pub created: Option<NativeInstant>,
    pub modified: Option<NativeInstant>,
    pub accessed: Option<NativeInstant>,
}

impl TimeChangeRequest {
    /// Every staged instant is well formed.
    pub open spec fn wf(self) -> bool {
        &&& (self.created is Some ==> self.created.unwrap().wf())
        &&& (self.modified is Some ==> self.modified.unwrap().wf())
        &&& (self.accessed is Some ==> self.accessed.unwrap().wf())
    }
}

/// The instant a valid timestamp string denotes.
pub open spec fn instant_of(s: Seq<char>) -> NativeInstant
    recommends
        valid_timestamp(s),
{
    NativeInstant { secs: decode_secs(s) as u64, nanos: decode_nanos(s) as u32 }
}

/// What one optional timestamp field stages: its decoded instant when the
/// field is present and honored, nothing otherwise.
pub open spec fn staged_field(field: Option<String>, honored: bool) -> Option<NativeInstant> {
    if honored && field is Some {
        Some(instant_of(field.unwrap()@))
    } else {
        None
    }
}

/// True when every timestamp field the request would honor decodes: a field
/// is only required to be valid where it is present and honored, so an
/// unsupported creation time is ignored rather than validated.
pub open spec fn fields_decodable(
    btime: Option<String>,
    mtime: Option<String>,
    atime: Option<String>,
    supports_creation_time: bool,
) -> bool {
    &&& (supports_creation_time && btime is Some ==> valid_timestamp(btime.unwrap()@))
    &&& (mtime is Some ==> valid_timestamp(mtime.unwrap()@))
    &&& (atime is Some ==> valid_timestamp(atime.unwrap()@))
}

/// The instant a timestamp pair denotes. Mirrors the construction of a
/// native absolute time as the Unix epoch plus a duration; the bound on
/// `nanos` keeps the pair canonical (no carry into seconds).
pub fn create_system_time_from_timestamp(seconds: &u64, nanos: &u32) -> (r: NativeInstant)
    requires
        *nanos < 1000000000,
    ensures
        r == (NativeInstant { secs: *seconds, nanos: *nanos }),
        r.wf(),
{
    NativeInstant { secs: *seconds, nanos: *nanos }
}

/// The whole seconds between an instant and the Unix epoch, truncating the
/// sub-second part; an instant before the epoch cannot be expressed and is
/// reported as `TimeConversionError`.
pub fn system_time_to_seconds(system_time: &RawInstant) -> (r: Result<u64, TimeError>)
    ensures
        system_time.before_epoch ==> r == Err::<u64, TimeError>(TimeError::TimeConversionError),
        !system_time.before_epoch ==> r == Ok::<u64, TimeError>(system_time.secs),
{
    if system_time.before_epoch {
        Err(TimeError::TimeConversionError)
    } else {
        Ok(system_time.secs)
    }
}

/// Stages a time-change request from the caller's options.
///
/// Each present field is decoded and staged under its slot; the creation
/// time is honored only when the platform supports setting one, and is
/// silently dropped (not validated, not an error) otherwise. A present,
/// honored field that does not decode makes the whole request invalid.
pub fn plan_file_times(options: &SetFileTimesOptions, supports_creation_time: bool) -> (r: Result<
    TimeChangeRequest,
    TimeError,
>)
    ensures
        r is Ok <==> fields_decodable(
            options.btime,
            options.mtime,
            options.atime,
            supports_creation_time,
        ),
        r is Ok ==> r.unwrap() == (TimeChangeRequest {
            created: staged_field(options.btime, supports_creation_time),
            modified: staged_field(options.mtime, true),
            accessed: staged_field(options.atime, true),
        }),
        r is Ok ==> r.unwrap().wf(),
        r is Err ==> r == Err::<TimeChangeRequest, TimeError>(TimeError::InvalidTimestamp),
{
    let created: Option<NativeInstant> = if supports_creation_time {
        match &options.btime {
            Some(btime) => {
                match js_timestamp_to_rs_timestamp(btime.as_str()) {
                    Ok((created_secs, created_nanos)) => {
                        Some(create_system_time_from_timestamp(&created_secs, &created_nanos))
                    },
                    Err(e) => {
                        return Err(e);
                    },
                }
            },
            None => None,
        }
    } else {
        None
    };
    let modified: Option<NativeInstant> = match &options.mtime {
        Some(mtime) => {
            match js_timestamp_to_rs_timestamp(mtime.as_str()) {
                Ok((modified_secs, modified_nanos)) => {
                    Some(create_system_time_from_timestamp(&modified_secs, &modified_nanos))
                },
                Err(e) => {
                    return Err(e);
                },
            }
        },
        None => None,
    };
    let accessed: Option<NativeInstant> = match &options.atime {
        Some(atime) => {
            match js_timestamp_to_rs_timestamp(atime.as_str()) {
                Ok((accessed_secs, accessed_nanos)) => {
                    Some(create_system_time_from_timestamp(&accessed_secs, &accessed_nanos))
                },
                Err(e) => {
                    return Err(e);
                },
            }
        },
        None => None,
    };
    Ok(TimeChangeRequest { created, modified, accessed })
}

/// True when a reading, if present, lies at or after the Unix epoch and can
/// therefore be re-encoded.
pub open spec fn readable(reading: Option<RawInstant>) -> bool {
    reading is Some ==> !reading.unwrap().before_epoch
}

/// Renders metadata readings as second-precision timestamp strings.
///
/// Each present reading at or after the epoch becomes the decimal string of
/// its whole seconds; an absent reading (a platform that does not report
/// creation time) stays absent without being an error. A present reading
/// before the epoch cannot be encoded: the result then carries the
/// conversion error message and no timestamp fields.
pub fn render_file_times(
    created: Option<RawInstant>,
    modified: Option<RawInstant>,
    accessed: Option<RawInstant>,
) -> (r: FileTimesResult)
    ensures
        readable(created) && readable(modified) && readable(accessed) ==> {
            &&& r.error is None
            &&& (r.btime is Some <==> created is Some)
            &&& (r.mtime is Some <==> modified is Some)
            &&& (r.atime is Some <==> accessed is Some)
            &&& (created is Some ==> r.btime.unwrap()@ == dec_str(created.unwrap().secs as nat))
            &&& (modified is Some ==> r.mtime.unwrap()@ == dec_str(modified.unwrap().secs as nat))
            &&& (accessed is Some ==> r.atime.unwrap()@ == dec_str(accessed.unwrap().secs as nat))
        },
        !(readable(created) && readable(modified) && readable(accessed)) ==> {
            &&& r.error is Some
            &&& r.error.unwrap()@ == "time predates the Unix epoch"@
            &&& r.btime is None
            &&& r.mtime is None
            &&& r.atime is None
        },
{
    let btime: Option<String> = match created {
        Some(reading) => {
            match system_time_to_seconds(&reading) {
                Ok(secs) => Some(encode_seconds(secs)),
                Err(e) => {
                    return FileTimesResult {
                        error: Some(e.message()),
                        btime: None,
                        mtime: None,
                        atime: None,
                    };
                },
            }
        },
        None => None,
    };
    let mtime: Option<String> = match modified {
        Some(reading) => {
            match system_time_to_seconds(&reading) {
                Ok(secs) => Some(encode_seconds(secs)),
                Err(e) => {
                    return FileTimesResult {
                        error: Some(e.message()),
                        btime: None,
                        mtime: None,
                        atime: None,
                    };
                },
            }
        },
        None => None,
    };
    let atime: Option<String> = match accessed {
        Some(reading) => {
            match system_time_to_seconds(&reading) {
                Ok(secs) => Some(encode_seconds(secs)),
                Err(e) => {
                    return FileTimesResult {
                        error: Some(e.message()),
                        btime: None,
                        mtime: None,
                        atime: None,
                    };
                },
            }
        },
        None => None,
    };
    FileTimesResult { error: None, btime, mtime, atime }
}

} // verus!
