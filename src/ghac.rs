//! The GitHub Actions cache backend.
//!
//! A write reserves a cache entry, uploads its bytes in content ranges and
//! commits it with its total size; a read looks the entry up and then reads
//! the archive location that the lookup returns.

use vstd::prelude::*;
use vstd::string::*;
use crate::capability::{AccessorInfo, Capability, Scheme};
use crate::cos::{config_value, set_nonempty};
use crate::error::{error_in, missing_entry, is_success, is_success_status, parse_error, status_kind, Error, ErrorKind};
use crate::metadata::{head_readable, metadata_of, parse_into_metadata, EntryMode, Metadata, ResponseHead};
use crate::path::{abs_path, build_abs_path, ends_with_separator, is_dir_path, is_root, normalize_root, normalized_root};
use crate::range::{content_range, content_range_header, BytesRange};
use crate::uri::opt_view;
use crate::writer::{fresh_multipart, Commit, MultipartWriter, PartUpload};

verus! {

/// The configuration of a GitHub Actions cache backend.
pub struct GhacBuilder<C> {
    root: Option<String>,
    version: Option<String>,
    endpoint: Option<String>,
    runtime_token: Option<String>,
    http_client: Option<C>,
}

/// What a GitHub Actions cache builder holds.
pub struct GhacConfig {
    pub root: Option<Seq<char>>,
    pub version: Option<Seq<char>>,
    pub endpoint: Option<Seq<char>>,
    pub runtime_token: Option<Seq<char>>,
    pub has_client: bool,
}

/// The values that the runner's environment provides, as the host read them.
pub struct GhacEnv {
    /// The cache service URL.
    pub cache_url: Option<String>,
    /// The token of the cache service.
    pub runtime_token: Option<String>,
    /// The GitHub API URL.
    pub api_url: Option<String>,
    /// The workflow's GitHub token.
    pub api_token: Option<String>,
    /// The repository that runs the workflow.
    pub repo: Option<String>,
}

/// An explicit value, else the environment's; with neither the configuration
/// is invalid.
pub fn value_or_env(explicit_value: Option<String>, env_value: Option<String>, env_var_name: &str, operation: &str) -> (r: Result<String, Error>)
    ensures
        explicit_value matches Some(v) ==> r == Ok::<String, Error>(v),
        explicit_value is None ==> (env_value matches Some(v) ==> r == Ok::<String, Error>(v)),
        explicit_value is None && env_value is None ==> (r matches Err(e) && e.kind == ErrorKind::ConfigInvalid
            && e.operation@ == operation@),
{
    match explicit_value {
        Some(v) => Ok(v),
        None => match env_value {
            Some(v) => Ok(v),
            None => {
                let mut text = String::from_str(env_var_name);
                text.append(" not found, maybe not in github action environment?");
                Err(Error::new(ErrorKind::ConfigInvalid, text.as_str()).with_operation(operation))
            },
        },
    }
}

fn or_default(v: Option<String>, default: &str) -> (r: String)
    ensures
        v matches Some(s) ==> r == s,
        v is None ==> r@ == default@,
{
    match v {
        Some(s) => s,
        None => String::from_str(default),
    }
}

impl<C> View for GhacBuilder<C> {
    type V = GhacConfig;

    closed spec fn view(&self) -> GhacConfig {
        GhacConfig {
            root: opt_view(self.root),
            version: opt_view(self.version),
            endpoint: opt_view(self.endpoint),
            runtime_token: opt_view(self.runtime_token),
            has_client: self.http_client is Some,
        }
    }
}

fn copy_opt(v: &Option<String>) -> (r: Option<String>)
    ensures
        opt_view(r) == opt_view(*v),
{
    match v {
        Some(s) => Some(String::from_str(s.as_str())),
        None => None,
    }
}

impl<C> Default for GhacBuilder<C> {
    fn default() -> (r: GhacBuilder<C>)
        ensures
            r@ == (GhacConfig { root: None, version: None, endpoint: None, runtime_token: None, has_client: false }),
    {
        GhacBuilder::new()
    }
}

impl<C> GhacBuilder<C> {
    pub fn new() -> (r: GhacBuilder<C>)
        ensures
            r@ == (GhacConfig { root: None, version: None, endpoint: None, runtime_token: None, has_client: false }),
    {
        GhacBuilder { root: None, version: None, endpoint: None, runtime_token: None, http_client: None }
    }

    /// A builder configured from `(key, value)` settings: `root` and
    /// `version`; other keys are ignored.
    pub fn from_map(pairs: Vec<(String, String)>) -> (r: GhacBuilder<C>)
        ensures
            r@ == (GhacConfig {
                root: config_value(pairs@, "root"@, None),
                version: config_value(pairs@, "version"@, None),
                endpoint: None,
                runtime_token: None,
                has_client: false,
            }),
    {
        let mut b = GhacBuilder::new();
        let root_key = String::from_str("root");
        let version_key = String::from_str("version");
        proof {
            reveal_strlit("root");
            reveal_strlit("version");
            assert("root"@.len() == 4);
            assert("version"@.len() == 7);
        }
        let mut i: usize = 0;
        while i < pairs.len()
            invariant
                i <= pairs@.len(),
                root_key@ == "root"@,
                version_key@ == "version"@,
                "root"@ != "version"@,
                b@ == (GhacConfig {
                    root: config_value(pairs@.take(i as int), "root"@, None),
                    version: config_value(pairs@.take(i as int), "version"@, None),
                    endpoint: None,
                    runtime_token: None,
                    has_client: false,
                }),
            decreases pairs@.len() - i,
        {
            let (k, v) = &pairs[i];
            assert(pairs@.take(i + 1).drop_last() =~= pairs@.take(i as int));
            assert(pairs@.take(i + 1).last() == pairs@[i as int]);
            if *k == root_key {
                b.root(v.as_str());
            } else if *k == version_key {
                b.version(v.as_str());
            }
            i += 1;
        }
        assert(pairs@.take(pairs@.len() as int) =~= pairs@);
        b
    }

    /// Sets the working directory root of the backend.
    pub fn root(&mut self, root: &str) -> (r: &mut Self)
        ensures
            final(r)@ == final(self)@,
            r@ == (GhacConfig { root: set_nonempty(old(self)@.root, root@), ..old(self)@ }),
    {
        if root.unicode_len() > 0 {
            self.root = Some(String::from_str(root));
        }
        self
    }

    /// Sets the version, which namespaces the cache entries.
    pub fn version(&mut self, version: &str) -> (r: &mut Self)
        ensures
            final(r)@ == final(self)@,
            r@ == (GhacConfig { version: set_nonempty(old(self)@.version, version@), ..old(self)@ }),
    {
        if version.unicode_len() > 0 {
            self.version = Some(String::from_str(version));
        }
        self
    }

    /// Sets the cache service URL, in place of the environment's.
    pub fn endpoint(&mut self, endpoint: &str) -> (r: &mut Self)
        ensures
            final(r)@ == final(self)@,
            r@ == (GhacConfig { endpoint: set_nonempty(old(self)@.endpoint, endpoint@), ..old(self)@ }),
    {
        if endpoint.unicode_len() > 0 {
            self.endpoint = Some(String::from_str(endpoint));
        }
        self
    }

    /// Sets the cache service token, in place of the environment's.
    pub fn runtime_token(&mut self, runtime_token: &str) -> (r: &mut Self)
        ensures
            final(r)@ == final(self)@,
            r@ == (GhacConfig { runtime_token: set_nonempty(old(self)@.runtime_token, runtime_token@), ..old(self)@ }),
    {
        if runtime_token.unicode_len() > 0 {
            self.runtime_token = Some(String::from_str(runtime_token));
        }
        self
    }

    /// Sets the transport that the host sends requests with.
    pub fn http_client(&mut self, client: C) -> (r: &mut Self)
        ensures
            final(r)@ == final(self)@,
            r@ == (GhacConfig { has_client: true, ..old(self)@ }),
    {
        self.http_client = Some(client);
        self
    }

    /// Validates the configuration against the environment and builds the
    /// backend. The cache URL and token are required; the other values
    /// have defaults. Nothing is taken from the builder unless the build
    /// succeeds.
    pub fn build(&mut self, env: GhacEnv) -> (r: Result<GhacBackend<C>, Error>)
        ensures
            r is Err <==> (old(self)@.endpoint is None && env.cache_url is None)
                || (old(self)@.runtime_token is None && env.runtime_token is None),
            r matches Err(e) ==> e.kind == ErrorKind::ConfigInvalid && e.operation@ == "Builder::build"@
                && final(self)@ == old(self)@,
            r matches Ok(b) ==> {
                let c = old(self)@;
                &&& b.wf()
                &&& b.root@ == normalized_root(match c.root { Some(v) => v, None => Seq::empty() })
                &&& Some(b.cache_url@) == (if c.endpoint is Some { c.endpoint } else { opt_view(env.cache_url) })
                &&& Some(b.cache_token@) == (if c.runtime_token is Some { c.runtime_token } else { opt_view(env.runtime_token) })
                &&& b.version@ == (match c.version { Some(v) => v, None => "opendal"@ })
                &&& b.api_url@ == (match env.api_url { Some(v) => v@, None => "https://api.github.com"@ })
                &&& b.api_token@ == (match env.api_token { Some(v) => v@, None => ""@ })
                &&& b.repo@ == (match env.repo { Some(v) => v@, None => ""@ })
                &&& (b.client is Some <==> c.has_client)
                &&& final(self)@ == (GhacConfig { has_client: false, ..c })
            },
    {
        let cache_url = value_or_env(copy_opt(&self.endpoint), env.cache_url, "ACTIONS_CACHE_URL", "Builder::build")?;
        let cache_token = value_or_env(copy_opt(&self.runtime_token), env.runtime_token, "ACTIONS_RUNTIME_TOKEN", "Builder::build")?;
        let root = match &self.root {
            Some(v) => normalize_root(v.as_str()),
            None => normalize_root(""),
        };
        proof {
            reveal_strlit("");
        }
        let version = or_default(copy_opt(&self.version), "opendal");
        let api_url = or_default(env.api_url, "https://api.github.com");
        let api_token = or_default(env.api_token, "");
        let repo = or_default(env.repo, "");
        let client = self.http_client.take();
        Ok(GhacBackend { root, cache_url, cache_token, version, api_url, api_token, repo, client })
    }
}

/// A built GitHub Actions cache backend.
pub struct GhacBackend<C> {
    pub root: String,
    pub cache_url: String,
    pub cache_token: String,
    pub version: String,
    pub api_url: String,
    pub api_token: String,
    pub repo: String,
    pub client: Option<C>,
}

/// The capability of every GitHub Actions cache backend. It reads ranges,
/// but not a suffix range without a start.
pub open spec fn ghac_capability() -> Capability {
    Capability {
        stat: true,
        read: true,
        read_can_next: true,
        read_with_range: true,
        write: true,
        write_can_multi: true,
        create_dir: true,
        delete: true,
        ..Capability::spec_none()
    }
}

/// An upload of bytes `offset..offset + size` into cache entry `cache_id`.
pub struct UploadRequest {
    pub cache_id: i64,
    pub content_length: u64,
    pub content_range: String,
}

/// The commit of cache entry `cache_id` with its total size.
#[derive(Clone, Copy, Debug, PartialEq, Eq, Structural)]
pub struct CommitRequest {
    pub cache_id: i64,
    pub size: u64,
}

/// The next step of creating a directory.
#[derive(Debug)]
pub enum CreateDirStep {
    /// Reserve the cache entry with this key.
    Reserve { key: String },
    /// Upload one zero byte into the reserved entry.
    Upload { cache_id: i64 },
    /// Commit the entry with a size of one byte.
    Commit { cache_id: i64 },
    /// Nothing more to send.
    Done,
}

/// What a lookup of `stat` leads to.
#[derive(Debug)]
pub enum StatNext {
    /// The entry is a directory; nothing more to send.
    Dir(Metadata),
    /// Send a head request to this archive location.
    Head(String),
}

impl<C> GhacBackend<C> {
    pub open spec fn wf(&self) -> bool {
        is_root(self.root@)
    }

    /// Says what the backend is and supports, with no network call.
    pub fn info(&self) -> (r: AccessorInfo)
        ensures
            r.scheme == Scheme::Ghac,
            r.root@ == self.root@,
            r.name@ == self.version@,
            r.capability == ghac_capability(),
    {
        let mut cap = Capability::none();
        cap.stat = true;
        cap.read = true;
        cap.read_can_next = true;
        cap.read_with_range = true;
        cap.write = true;
        cap.write_can_multi = true;
        cap.create_dir = true;
        cap.delete = true;
        AccessorInfo {
            scheme: Scheme::Ghac,
            root: String::from_str(self.root.as_str()),
            name: String::from_str(self.version.as_str()),
            capability: cap,
        }
    }

    /// Reads the status of a delete response: deleting an absent object
    /// succeeds.
    pub fn delete_response(&self, status: u16) -> (r: Result<(), Error>)
        ensures
            r is Ok <==> is_success_status(status) || status == 404,
            r matches Err(e) ==> e.kind == status_kind(status) && e.status == Some(status)
                && e.service@ == "ghac"@ && e.operation@ == "delete"@,
    {
        crate::accessor::delete_response("ghac", status)
    }

    /// The cache key of caller path `path`.
    pub fn cache_key(&self, path: &str) -> (r: String)
        requires
            self.wf(),
        ensures
            r@ == abs_path(self.root@, path@),
    {
        build_abs_path(self.root.as_str(), path)
    }

    /// The first step of creating a directory at `path`: nothing for a path
    /// that ends with a separator, else a reservation.
    pub fn create_dir_start(&self, path: &str) -> (r: CreateDirStep)
        requires
            self.wf(),
        ensures
            is_dir_path(path@) ==> r matches CreateDirStep::Done,
            !is_dir_path(path@) ==> (r matches CreateDirStep::Reserve { key } && key@ == abs_path(self.root@, path@)),
    {
        if ends_with_separator(path) {
            CreateDirStep::Done
        } else {
            CreateDirStep::Reserve { key: self.cache_key(path) }
        }
    }

    /// Reads the reservation response of a directory creation, with the
    /// cache id that its body holds, if the host could read one. An entry
    /// that already exists is success.
    pub fn create_dir_on_reserve(&self, status: u16, cache_id: Option<i64>) -> (r: Result<CreateDirStep, Error>)
        ensures
            is_success_status(status) ==> (cache_id matches Some(id) ==> (r matches Ok(CreateDirStep::Upload { cache_id: c }) && c == id)),
            is_success_status(status) && cache_id is None ==> (r matches Err(e) && e.kind == ErrorKind::Unexpected
                && e.service@ == "ghac"@ && e.operation@ == "Backend::ghac_reserve"@),
            status == 409 ==> r matches Ok(CreateDirStep::Done),
            !is_success_status(status) && status != 409 ==> (r matches Err(e) && e.kind == status_kind(status)
                && e.status == Some(status) && e.service@ == "ghac"@ && e.operation@ == "Backend::ghac_reserve"@),
    {
        if is_success(status) {
            match cache_id {
                Some(id) => Ok(CreateDirStep::Upload { cache_id: id }),
                None => Err(error_in(ErrorKind::Unexpected, "the reservation response holds no cache id", "ghac", "Backend::ghac_reserve")),
            }
        } else if status == 409 {
            Ok(CreateDirStep::Done)
        } else {
            Err(parse_error("ghac", "Backend::ghac_reserve", status))
        }
    }

    /// The upload that creates a directory's entry: one zero byte at offset
    /// zero.
    pub fn create_dir_upload(&self, cache_id: i64) -> (r: (UploadRequest, Vec<u8>))
        ensures
            r.0.cache_id == cache_id,
            r.0.content_length == 1,
            r.0.content_range@ == content_range(0, 0),
            r.1@ == seq![0u8],
    {
        let mut body: Vec<u8> = Vec::new();
        body.push(0u8);
        (upload_of(cache_id, 0, 1), body)
    }

    /// The commit of a directory's entry: one byte.
    pub fn create_dir_commit(&self, cache_id: i64) -> (r: CommitRequest)
        ensures
            r == (CommitRequest { cache_id, size: 1 }),
    {
        commit_of(cache_id, 1)
    }

    /// Reads the response to the one-byte upload of a directory creation.
    pub fn create_dir_on_upload(&self, status: u16, cache_id: i64) -> (r: Result<CreateDirStep, Error>)
        ensures
            is_success_status(status) ==> (r matches Ok(CreateDirStep::Commit { cache_id: c }) && c == cache_id),
            !is_success_status(status) ==> (r matches Err(e) && e.kind == status_kind(status) && e.status == Some(status)
                && e.service@ == "ghac"@ && e.operation@ == "Backend::ghac_upload"@),
    {
        if is_success(status) {
            Ok(CreateDirStep::Commit { cache_id })
        } else {
            Err(parse_error("ghac", "Backend::ghac_upload", status))
        }
    }

    /// Reads the response to the commit of a directory creation.
    pub fn create_dir_on_commit(&self, status: u16) -> (r: Result<(), Error>)
        ensures
            r is Ok <==> is_success_status(status),
            r matches Err(e) ==> e.kind == status_kind(status) && e.status == Some(status)
                && e.service@ == "ghac"@ && e.operation@ == "Backend::ghac_commit"@,
    {
        if is_success(status) {
            Ok(())
        } else {
            Err(parse_error("ghac", "Backend::ghac_commit", status))
        }
    }

    /// Reads the lookup response of a read: the archive location to read. A
    /// miss, which the service answers with 204, is a missing entry.
    pub fn read_on_query(&self, status: u16, location: Option<String>) -> (r: Result<String, Error>)
        ensures
            status == 200 ==> (location matches Some(l) ==> r == Ok::<String, Error>(l)),
            status == 200 && location is None ==> (r matches Err(e) && e.kind == ErrorKind::Unexpected
                && e.service@ == "ghac"@ && e.operation@ == "read"@),
            status == 204 ==> (r matches Err(e) && e.kind == ErrorKind::NotFound && e.status == Some(status)
                && e.service@ == "ghac"@ && e.operation@ == "read"@),
            status != 200 && status != 204 ==> (r matches Err(e) && e.kind == status_kind(status) && e.status == Some(status)
                && e.service@ == "ghac"@ && e.operation@ == "read"@),
    {
        if status == 200 {
            match location {
                Some(l) => Ok(l),
                None => Err(error_in(ErrorKind::Unexpected, "the lookup response holds no location", "ghac", "read")),
            }
        } else if status == 204 {
            Err(missing_entry("ghac", "read", status))
        } else {
            Err(parse_error("ghac", "read", status))
        }
    }

    /// The `Range` header of a read of the archive location: none for the
    /// whole object. The service cannot read a suffix range.
    pub fn ghac_get_location(&self, range: BytesRange) -> (r: Result<Option<String>, Error>)
        requires
            range.spec_is_suffix() || range.wf(),
        ensures
            range.spec_is_full() ==> r == Ok::<Option<String>, Error>(None),
            range.spec_is_suffix() ==> (r matches Err(e) && e.kind == ErrorKind::Unsupported
                && e.service@ == "ghac"@ && e.operation@ == "read"@),
            !range.spec_is_full() && !range.spec_is_suffix() ==> (r matches Ok(Some(h)) && h@ == range.spec_header()),
    {
        if range.is_full() {
            return Ok(None);
        }
        if range.is_suffix() {
            return Err(error_in(ErrorKind::Unsupported, "ghac doesn't support read with suffix range", "ghac", "read"));
        }
        Ok(Some(range.to_header()))
    }

    /// Reads the lookup response of `stat` on caller path `path`. A miss,
    /// which the service answers with 204, is a directory under a path
    /// addressed as a container and a missing entry under any other.
    pub fn stat_on_query(&self, path: &str, status: u16, location: Option<String>) -> (r: Result<StatNext, Error>)
        ensures
            status == 200 ==> (location matches Some(l) ==> (r matches Ok(StatNext::Head(h)) && h == l)),
            status == 200 && location is None ==> (r matches Err(e) && e.kind == ErrorKind::Unexpected
                && e.service@ == "ghac"@ && e.operation@ == "stat"@),
            status == 204 && is_dir_path(path@) ==> (r matches Ok(StatNext::Dir(m)) && m.mode == EntryMode::Dir),
            status == 204 && !is_dir_path(path@) ==> (r matches Err(e) && e.kind == ErrorKind::NotFound
                && e.status == Some(status) && e.service@ == "ghac"@ && e.operation@ == "stat"@),
            status != 200 && status != 204 ==> (r matches Err(e) && e.kind == status_kind(status)
                && e.status == Some(status) && e.service@ == "ghac"@ && e.operation@ == "stat"@),
    {
        if status == 200 {
            match location {
                Some(l) => Ok(StatNext::Head(l)),
                None => Err(error_in(ErrorKind::Unexpected, "the lookup response holds no location", "ghac", "stat")),
            }
        } else if status == 204 {
            if ends_with_separator(path) {
                Ok(StatNext::Dir(Metadata::new(EntryMode::Dir)))
            } else {
                Err(missing_entry("ghac", "stat", status))
            }
        } else {
            Err(parse_error("ghac", "stat", status))
        }
    }

    /// Reads the head response of the archive location in `stat`.
    pub fn stat_on_head(&self, path: &str, status: u16, head: &ResponseHead) -> (r: Result<Metadata, Error>)
        ensures
            status == 200 ==> (r is Ok <==> head_readable(*head)),
            status == 200 ==> (r matches Ok(m) ==> metadata_of(path@, *head, m)),
            status == 200 ==> (r matches Err(e) ==> e.kind == ErrorKind::Unexpected),
            status != 200 ==> (r matches Err(e) && e.kind == status_kind(status) && e.status == Some(status)
                && e.service@ == "ghac"@ && e.operation@ == "stat"@),
    {
        if status == 200 {
            parse_into_metadata(path, head)
        } else {
            Err(parse_error("ghac", "stat", status))
        }
    }

    /// Whether a delete can be sent: it needs the GitHub token.
    pub fn delete_precheck(&self) -> (r: Result<(), Error>)
        ensures
            r is Ok <==> self.api_token@.len() > 0,
            r matches Err(e) ==> e.kind == ErrorKind::PermissionDenied && e.service@ == "ghac"@ && e.operation@ == "delete"@,
    {
        if self.api_token.as_str().unicode_len() == 0 {
            Err(error_in(
                ErrorKind::PermissionDenied,
                "github token is not configured, delete is permission denied",
                "ghac",
                "delete",
            ))
        } else {
            Ok(())
        }
    }

    /// The upload of bytes `offset..offset + size` into cache entry
    /// `cache_id`.
    pub fn ghac_upload(&self, cache_id: i64, offset: u64, size: u64) -> (r: UploadRequest)
        requires
            size > 0,
            offset + size <= u64::MAX,
        ensures
            r.cache_id == cache_id,
            r.content_length == size,
            r.content_range@ == content_range(offset as nat, (offset + size - 1) as nat),
    {
        upload_of(cache_id, offset, size)
    }

    /// The commit of cache entry `cache_id` with total size `size`.
    pub fn ghac_commit(&self, cache_id: i64, size: u64) -> (r: CommitRequest)
        ensures
            r == (CommitRequest { cache_id, size }),
    {
        commit_of(cache_id, size)
    }

    /// Reads the reservation response of a write to caller path `path`, with
    /// the cache id that its body holds, and makes the writer of the
    /// reserved entry, bound to the entry's key.
    pub fn write_on_reserve(&self, path: &str, status: u16, cache_id: Option<i64>) -> (r: Result<GhacWriter, Error>)
        requires
            self.wf(),
        ensures
            is_success_status(status) ==> (cache_id matches Some(id) ==> (r matches Ok(w) && w.wf()
                && w.cache_id == id && w.key@ == abs_path(self.root@, path@) && w.inner@ == fresh_multipart(None, None))),
            is_success_status(status) && cache_id is None ==> (r matches Err(e) && e.kind == ErrorKind::Unexpected
                && e.service@ == "ghac"@ && e.operation@ == "Backend::ghac_reserve"@),
            !is_success_status(status) ==> (r matches Err(e) && e.kind == status_kind(status) && e.status == Some(status)
                && e.service@ == "ghac"@ && e.operation@ == "Backend::ghac_reserve"@),
    {
        if is_success(status) {
            match cache_id {
                Some(id) => Ok(GhacWriter::new(self.cache_key(path), id)),
                None => Err(error_in(ErrorKind::Unexpected, "the reservation response holds no cache id", "ghac", "Backend::ghac_reserve")),
            }
        } else {
            Err(parse_error("ghac", "Backend::ghac_reserve", status))
        }
    }
}

fn upload_of(cache_id: i64, offset: u64, size: u64) -> (r: UploadRequest)
    requires
        size > 0,
        offset + size <= u64::MAX,
    ensures
        r.cache_id == cache_id,
        r.content_length == size,
        r.content_range@ == content_range(offset as nat, (offset + size - 1) as nat),
{
    UploadRequest { cache_id, content_length: size, content_range: content_range_header(offset, offset + size - 1) }
}

fn commit_of(cache_id: i64, size: u64) -> (r: CommitRequest)
    ensures
        r == (CommitRequest { cache_id, size }),
{
    CommitRequest { cache_id, size }
}

/// The writer of one reserved cache entry: a multipart upload whose parts
/// are uploaded by content range and committed once with the total size.
pub struct GhacWriter {
    /// The cache key of the entry.
    pub key: String,
    pub cache_id: i64,
    pub inner: MultipartWriter,
}

impl GhacWriter {
    pub open spec fn wf(&self) -> bool {
        self.inner.wf()
    }

    pub fn new(key: String, cache_id: i64) -> (r: GhacWriter)
        ensures
            r.wf(),
            r.key == key,
            r.cache_id == cache_id,
            r.inner@ == fresh_multipart(None, None),
    {
        GhacWriter { key, cache_id, inner: MultipartWriter::new(None, None) }
    }

    /// The upload request of a part that the writer handed out.
    pub fn upload_request(&self, part: &PartUpload) -> (r: UploadRequest)
        requires
            part.body@.len() > 0,
            part.offset + part.body@.len() <= u64::MAX,
        ensures
            r.cache_id == self.cache_id,
            r.content_length == part.body@.len(),
            r.content_range@ == content_range(part.offset as nat, (part.offset + part.body@.len() - 1) as nat),
    {
        upload_of(self.cache_id, part.offset, part.body.len() as u64)
    }

    /// The commit request of a commit that the writer handed out.
    pub fn commit_request(&self, commit: Commit) -> (r: CommitRequest)
        ensures
            r == (CommitRequest { cache_id: self.cache_id, size: commit.size }),
    {
        commit_of(self.cache_id, commit.size)
    }
}

} // verus!
