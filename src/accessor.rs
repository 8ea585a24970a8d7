//! The decisions that every backend shares: the synthetic root, reading a
//! read response, the absence-tolerant delete, and the choice of writer.

use vstd::prelude::*;
use crate::error::{is_success, is_success_status, parse_error, status_kind, Error, ErrorKind};
use crate::metadata::{parse_content_length, valid_length, digits_value, EntryMode, Metadata};
use crate::path::{is_root_path, is_root_str};
use crate::writer::{fresh_multipart, fresh_append, AppendWriter, MultipartWriter};
use crate::capability::Capability;

verus! {

/// `stat` of the root path: always a directory, found without a network
/// call. `None` for any other path, which needs a request.
pub fn stat_root(path: &str) -> (r: Option<Metadata>)
    ensures
        r is Some <==> is_root_path(path@),
        r matches Some(m) ==> m.mode == EntryMode::Dir,
{
    if is_root_str(path) {
        Some(Metadata::new(EntryMode::Dir))
    } else {
        None
    }
}

/// What a successful read hands the caller: the size of the body, and
/// whether there is a body to stream at all.
#[derive(Clone, Copy, Debug, PartialEq, Eq, Structural)]
pub struct ReadOutcome {
    pub size: Option<u64>,
    pub has_body: bool,
}

/// Reads the status of a get response. A full or partial body is returned
/// with its length; a range that cannot be satisfied is an empty success,
/// since reading past the end of an object is no failure.
pub fn read_response(service: &str, status: u16, content_length: Option<&str>) -> (r: Result<ReadOutcome, Error>)
    ensures
        (status == 200 || status == 206) ==> match content_length {
            None => r == Ok::<ReadOutcome, Error>(ReadOutcome { size: None, has_body: true }),
            Some(s) => if valid_length(s@) {
                r == Ok::<ReadOutcome, Error>(ReadOutcome { size: Some(digits_value(s@) as u64), has_body: true })
            } else {
                r matches Err(e) && e.kind == ErrorKind::Unexpected
            },
        },
        status == 416 ==> r == Ok::<ReadOutcome, Error>(ReadOutcome { size: None, has_body: false }),
        !(status == 200 || status == 206 || status == 416) ==> (r matches Err(e) && e.kind == status_kind(status)
            && e.status == Some(status) && e.service@ == service@ && e.operation@ == "read"@),
{
    if status == 200 || status == 206 {
        let size = match content_length {
            Some(s) => Some(parse_content_length(s)?),
            None => None,
        };
        Ok(ReadOutcome { size, has_body: true })
    } else if status == 416 {
        Ok(ReadOutcome { size: None, has_body: false })
    } else {
        Err(parse_error(service, "read", status))
    }
}

/// Reads the status of a delete response. Deleting an object that is
/// already absent succeeds.
pub fn delete_response(service: &str, status: u16) -> (r: Result<(), Error>)
    ensures
        r is Ok <==> is_success_status(status) || status == 404,
        r matches Err(e) ==> e.kind == status_kind(status) && e.status == Some(status)
            && e.service@ == service@ && e.operation@ == "delete"@,
{
    if is_success(status) || status == 404 {
        Ok(())
    } else {
        Err(parse_error(service, "delete", status))
    }
}

/// The arguments of a write.
#[derive(Clone, Copy, Debug, PartialEq, Eq, Structural)]
pub struct OpWrite {
    /// Extend the object in place rather than upload it whole.
    pub append: bool,
}

/// A writer and the wire path and arguments of the write it serves.
pub struct BoundWriter {
    pub path: String,
    pub args: OpWrite,
    pub writer: Writer,
}

/// A writer: one of the two strategies.
pub enum Writer {
    Multipart(MultipartWriter),
    Append(AppendWriter),
}

/// The writer for a write with `args` on a backend with capability `cap`:
/// an append writer where an append is asked for and the backend can
/// append, else a multipart upload within the backend's part bounds. A
/// backend that supports neither refuses the write.
pub fn choose_writer(cap: &Capability, args: OpWrite) -> (r: Result<Writer, Error>)
    ensures
        args.append && cap.write_can_append ==> (r matches Ok(Writer::Append(w)) && w.wf() && w@ == fresh_append()),
        !(args.append && cap.write_can_append) && cap.write_can_multi ==> (r matches Ok(Writer::Multipart(w)) && w.wf()
            && w@ == fresh_multipart(cap.write_multi_min_size, cap.write_multi_max_size)),
        r is Err <==> !(args.append && cap.write_can_append) && !cap.write_can_multi,
        r matches Err(e) ==> e.kind == ErrorKind::Unsupported && e.operation@ == "write"@,
{
    if args.append && cap.write_can_append {
        Ok(Writer::Append(AppendWriter::new()))
    } else if cap.write_can_multi {
        Ok(Writer::Multipart(MultipartWriter::new(cap.write_multi_min_size, cap.write_multi_max_size)))
    } else {
        Err(Error::new(ErrorKind::Unsupported, "the backend cannot write this way").with_operation("write"))
    }
}

} // verus!
