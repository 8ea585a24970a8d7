//! Metadata of an entry and its reading from response headers.

use vstd::prelude::*;
use vstd::string::*;
use crate::error::{Error, ErrorKind};
use crate::uri::opt_view;
use crate::path::{ends_with_separator, is_dir_path};

verus! {

#[derive(Clone, Copy, Debug, PartialEq, Eq, Structural)]
pub enum EntryMode {
    File,
    Dir,
    Unknown,
}

/// What the layer knows of an entry.
#[derive(Debug)]
pub struct Metadata {
    pub mode: EntryMode,
    pub content_length: Option<u64>,
    pub content_type: Option<String>,
    pub etag: Option<String>,
    pub last_modified: Option<String>,
}

impl Metadata {
    pub fn new(mode: EntryMode) -> (r: Metadata)
        ensures
            r.mode == mode,
            r.content_length is None,
            r.content_type is None,
            r.etag is None,
            r.last_modified is None,
    {
        Metadata { mode, content_length: None, content_type: None, etag: None, last_modified: None }
    }

    pub fn mode(&self) -> (r: EntryMode)
        ensures
            r == self.mode,
    {
        self.mode
    }

    pub fn content_length(&self) -> (r: Option<u64>)
        ensures
            r == self.content_length,
    {
        self.content_length
    }
}

/// A listed entry: a path relative to the root, and its metadata.
#[derive(Debug)]
pub struct Entry {
    pub path: String,
    pub metadata: Metadata,
}

/// The header values of a response that metadata is read from.
pub struct ResponseHead {
    pub content_length: Option<String>,
    pub content_type: Option<String>,
    pub etag: Option<String>,
    pub last_modified: Option<String>,
}

pub open spec fn is_digit(c: char) -> bool {
    '0' <= c && c <= '9'
}

pub open spec fn all_digits(s: Seq<char>) -> bool {
    forall|i: int| 0 <= i < s.len() ==> is_digit(#[trigger] s[i])
}

/// The number that the decimal digits `s` write.
pub open spec fn digits_value(s: Seq<char>) -> nat
    decreases s.len(),
{
    if s.len() == 0 {
        0
    } else {
        digits_value(s.drop_last()) * 10 + ((s.last() as u32) - ('0' as u32)) as nat
    }
}

/// A well-formed `Content-Length` value: decimal digits that fit in a `u64`.
pub open spec fn valid_length(s: Seq<char>) -> bool {
    s.len() > 0 && all_digits(s) && digits_value(s) <= u64::MAX
}

pub proof fn lemma_digits_value_monotone(s: Seq<char>, k: int)
    requires
        0 <= k <= s.len(),
        all_digits(s),
    ensures
        digits_value(s.subrange(0, k)) <= digits_value(s),
    decreases s.len() - k,
{
    if k < s.len() {
        lemma_digits_value_monotone(s, k + 1);
        assert(s.subrange(0, k + 1).drop_last() =~= s.subrange(0, k));
    } else {
        assert(s.subrange(0, k) =~= s);
    }
}

/// Reads a `Content-Length` value.
pub fn parse_content_length(v: &str) -> (r: Result<u64, Error>)
    ensures
        r is Ok <==> valid_length(v@),
        r matches Ok(n) ==> n == digits_value(v@),
        r matches Err(e) ==> e.kind == ErrorKind::Unexpected,
{
    let n = v.unicode_len();
    if n == 0 {
        return Err(Error::new(ErrorKind::Unexpected, "the content length is empty"));
    }
    let mut acc: u64 = 0;
    let mut i: usize = 0;
    while i < n
        invariant
            n == v@.len(),
            i <= n,
            all_digits(v@.subrange(0, i as int)),
            acc == digits_value(v@.subrange(0, i as int)),
        decreases n - i,
    {
        let c = v.get_char(i);
        let ghost prev = v@.subrange(0, i as int);
        let ghost next = v@.subrange(0, i + 1);
        assert(next.drop_last() =~= prev);
        if !('0' <= c && c <= '9') {
            proof {
                assert(!is_digit(v@[i as int]));
            }
            return Err(Error::new(ErrorKind::Unexpected, "the content length is not a number"));
        }
        let d = (c as u32 - '0' as u32) as u64;
        let step = acc.checked_mul(10);
        let sum = match step {
            Some(m) => m.checked_add(d),
            None => None,
        };
        match sum {
            Some(s) => {
                acc = s;
            },
            None => {
                proof {
                    assert(digits_value(next) > u64::MAX);
                    if all_digits(v@) {
                        lemma_digits_value_monotone(v@, i + 1);
                    }
                }
                return Err(Error::new(ErrorKind::Unexpected, "the content length is too large"));
            },
        }
        proof {
            assert forall|j: int| 0 <= j < next.len() implies is_digit(#[trigger] next[j]) by {
                if j < i {
                    assert(next[j] == prev[j]);
                }
            }
        }
        i += 1;
    }
    assert(v@.subrange(0, n as int) =~= v@);
    Ok(acc)
}

/// `m` is the metadata that the headers `head` give the entry at caller path
/// `path`: its mode by the path, its length parsed, the other values as sent.
pub open spec fn metadata_of(path: Seq<char>, head: ResponseHead, m: Metadata) -> bool {
    &&& m.mode == (if is_dir_path(path) { EntryMode::Dir } else { EntryMode::File })
    &&& m.content_length == (match head.content_length {
        Some(s) => Some(digits_value(s@) as u64),
        None => None,
    })
    &&& opt_view(m.content_type) == opt_view(head.content_type)
    &&& opt_view(m.etag) == opt_view(head.etag)
    &&& opt_view(m.last_modified) == opt_view(head.last_modified)
}

/// Whether the headers `head` can be read as metadata.
pub open spec fn head_readable(head: ResponseHead) -> bool {
    head.content_length matches Some(s) ==> valid_length(s@)
}

/// The metadata of the entry at caller path `path`, read from the headers
/// of a successful head or get response. A path that ends with a separator
/// is a directory.
pub fn parse_into_metadata(path: &str, head: &ResponseHead) -> (r: Result<Metadata, Error>)
    ensures
        r is Ok <==> head_readable(*head),
        r matches Ok(m) ==> metadata_of(path@, *head, m),
        r matches Err(e) ==> e.kind == ErrorKind::Unexpected,
{
    let mode = if ends_with_separator(path) { EntryMode::Dir } else { EntryMode::File };
    let content_length = match &head.content_length {
        Some(s) => Some(parse_content_length(s.as_str())?),
        None => None,
    };
    Ok(Metadata {
        mode,
        content_length,
        content_type: copy_opt(&head.content_type),
        etag: copy_opt(&head.etag),
        last_modified: copy_opt(&head.last_modified),
    })
}

fn copy_opt(v: &Option<String>) -> (r: Option<String>)
    ensures
        opt_view(r) == opt_view(*v),
{
    match v {
        Some(s) => Some(String::from_str(s.as_str())),
        None => None,
    }
}

} // verus!
