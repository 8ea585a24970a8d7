//! What a backend declares that it supports.

use vstd::prelude::*;

verus! {

/// The services this layer can reach.
#[derive(Clone, Copy, Debug, PartialEq, Eq, Structural)]
pub enum Scheme {
    /// Tencent Cloud Object Storage.
    Cos,
    /// The GitHub Actions cache.
    Ghac,
}

/// The features and limits of one backend instance. Fixed once the backend
/// is built; callers consult it before choosing a strategy.
#[derive(Clone, Copy, Debug, PartialEq, Eq, Structural)]
pub struct Capability {
    pub stat: bool,
    pub stat_with_if_match: bool,
    pub stat_with_if_none_match: bool,
    pub read: bool,
    pub read_can_next: bool,
    pub read_with_range: bool,
    /// Whether a range with a length and no start (the last bytes) can be
    /// read.
    pub read_with_suffix_range: bool,
    pub read_with_if_match: bool,
    pub read_with_if_none_match: bool,
    pub write: bool,
    pub write_can_empty: bool,
    pub write_can_append: bool,
    pub write_can_multi: bool,
    pub write_with_content_type: bool,
    pub write_with_cache_control: bool,
    pub write_with_content_disposition: bool,
    pub write_multi_min_size: Option<u64>,
    pub write_multi_max_size: Option<u64>,
    pub delete: bool,
    pub create_dir: bool,
    pub copy: bool,
    pub list: bool,
    pub list_with_delimiter_slash: bool,
    pub list_without_delimiter: bool,
    pub presign: bool,
    pub presign_stat: bool,
    pub presign_read: bool,
    pub presign_write: bool,
}

impl Capability {
    /// The capability of a backend that supports nothing.
    pub open spec fn spec_none() -> Capability {
        Capability {
            stat: false,
            stat_with_if_match: false,
            stat_with_if_none_match: false,
            read: false,
            read_can_next: false,
            read_with_range: false,
            read_with_suffix_range: false,
            read_with_if_match: false,
            read_with_if_none_match: false,
            write: false,
            write_can_empty: false,
            write_can_append: false,
            write_can_multi: false,
            write_with_content_type: false,
            write_with_cache_control: false,
            write_with_content_disposition: false,
            write_multi_min_size: None,
            write_multi_max_size: None,
            delete: false,
            create_dir: false,
            copy: false,
            list: false,
            list_with_delimiter_slash: false,
            list_without_delimiter: false,
            presign: false,
            presign_stat: false,
            presign_read: false,
            presign_write: false,
        }
    }

    pub fn none() -> (r: Capability)
        ensures
            r == Capability::spec_none(),
    {
        Capability {
            stat: false,
            stat_with_if_match: false,
            stat_with_if_none_match: false,
            read: false,
            read_can_next: false,
            read_with_range: false,
            read_with_suffix_range: false,
            read_with_if_match: false,
            read_with_if_none_match: false,
            write: false,
            write_can_empty: false,
            write_can_append: false,
            write_can_multi: false,
            write_with_content_type: false,
            write_with_cache_control: false,
            write_with_content_disposition: false,
            write_multi_min_size: None,
            write_multi_max_size: None,
            delete: false,
            create_dir: false,
            copy: false,
            list: false,
            list_with_delimiter_slash: false,
            list_without_delimiter: false,
            presign: false,
            presign_stat: false,
            presign_read: false,
            presign_write: false,
        }
    }
}

/// What a backend says of itself: its service, root, name and capability.
#[derive(Debug)]
pub struct AccessorInfo {
    pub scheme: Scheme,
    pub root: String,
    pub name: String,
    pub capability: Capability,
}

} // verus!
