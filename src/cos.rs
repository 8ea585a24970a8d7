//! The Tencent Cloud Object Storage backend.

use vstd::prelude::*;
use vstd::string::*;
use crate::accessor::{BoundWriter, OpWrite, Writer};
use crate::capability::{AccessorInfo, Capability, Scheme};
use crate::credential::value_with_fallback;
use crate::error::{error_in, is_success_status, parse_error, status_kind, Error, ErrorKind};
use crate::metadata::{head_readable, metadata_of, parse_into_metadata, EntryMode, Metadata, ResponseHead};
use crate::pager::{fresh_pager, Pager};
use crate::path::{has_prefix, starts_with, abs_path, build_abs_path, ends_with_separator, is_dir_path, is_root, normalize_root, normalized_root};
use crate::uri::{opt_view, parse_uri, uri_parts};

verus! {

/// The smallest part of a multipart upload: 1 MiB.
pub const COS_MULTI_MIN_SIZE: u64 = 1048576;

/// The largest part of a multipart upload: 5 GiB.
pub const COS_MULTI_MAX_SIZE: u64 = 5368709120;

/// The configuration of a COS backend, assembled field by field.
pub struct CosBuilder<C> {
    root: Option<String>,
    endpoint: Option<String>,
    secret_id: Option<String>,
    secret_key: Option<String>,
    bucket: Option<String>,
    http_client: Option<C>,
    disable_config_load: bool,
}

/// What a COS builder holds.
pub struct CosConfig {
    pub root: Option<Seq<char>>,
    pub endpoint: Option<Seq<char>>,
    pub secret_id: Option<Seq<char>>,
    pub secret_key: Option<Seq<char>>,
    pub bucket: Option<Seq<char>>,
    pub has_client: bool,
    pub disable_config_load: bool,
}

/// `s` without its trailing separators.
pub open spec fn trim_end_separators(s: Seq<char>) -> Seq<char>
    decreases s.len(),
{
    if s.len() > 0 && s.last() == '/' {
        trim_end_separators(s.drop_last())
    } else {
        s
    }
}

/// The value a string setter keeps: an empty input leaves the field as it was.
pub open spec fn set_nonempty(old_value: Option<Seq<char>>, v: Seq<char>) -> Option<Seq<char>> {
    if v.len() == 0 {
        old_value
    } else {
        Some(v)
    }
}

/// The value that a list of settings gives to `key`, starting from `init`:
/// the settings apply in order, and one with an empty value changes nothing.
pub open spec fn config_value(pairs: Seq<(String, String)>, key: Seq<char>, init: Option<Seq<char>>) -> Option<Seq<char>>
    decreases pairs.len(),
{
    if pairs.len() == 0 {
        init
    } else {
        let prev = config_value(pairs.drop_last(), key, init);
        if pairs.last().0@ == key {
            set_nonempty(prev, pairs.last().1@)
        } else {
            prev
        }
    }
}

pub open spec fn trimmed(v: Option<Seq<char>>) -> Option<Seq<char>> {
    match v {
        Some(s) => Some(trim_end_separators(s)),
        None => None,
    }
}

fn trim_end_slashes(s: &str) -> (r: String)
    ensures
        r@ == trim_end_separators(s@),
{
    let n = s.unicode_len();
    let mut k: usize = n;
    assert(s@.subrange(0, n as int) =~= s@);
    while k > 0 && s.get_char(k - 1) == '/'
        invariant
            n == s@.len(),
            k <= n,
            trim_end_separators(s@) == trim_end_separators(s@.subrange(0, k as int)),
        decreases k,
    {
        assert(s@.subrange(0, k as int).drop_last() =~= s@.subrange(0, k - 1));
        k -= 1;
    }
    assert(s@.subrange(0, 0) =~= Seq::<char>::empty());
    String::from_str(s.substring_char(0, k))
}

impl<C> View for CosBuilder<C> {
    type V = CosConfig;

    closed spec fn view(&self) -> CosConfig {
        CosConfig {
            root: opt_view(self.root),
            endpoint: opt_view(self.endpoint),
            secret_id: opt_view(self.secret_id),
            secret_key: opt_view(self.secret_key),
            bucket: opt_view(self.bucket),
            has_client: self.http_client is Some,
            disable_config_load: self.disable_config_load,
        }
    }
}

/// The configured host without the bucket, where the host already names it
/// as its first label.
pub open spec fn host_without_bucket(host: Seq<char>, bucket: Seq<char>) -> Seq<char> {
    let p = bucket + "."@;
    if has_prefix(host, p) {
        host.subrange(p.len() as int, host.len() as int)
    } else {
        host
    }
}

/// The endpoint that a COS backend sends to: the bucket as a subdomain of
/// the configured host (once, whether or not the host already named it),
/// under the configured scheme or `https`.
pub open spec fn cos_endpoint(uri: (Option<Seq<char>>, Option<Seq<char>>), bucket: Seq<char>) -> Seq<char> {
    let scheme = match uri.0 {
        Some(s) => s,
        None => "https"@,
    };
    scheme + "://"@ + bucket + "."@ + host_without_bucket(uri.1.unwrap(), bucket)
}

fn strip_bucket(host: &str, bucket: &str) -> (r: String)
    ensures
        r@ == host_without_bucket(host@, bucket@),
{
    let mut p = String::from_str(bucket);
    p.append(".");
    if starts_with(host, p.as_str()) {
        String::from_str(host.substring_char(p.as_str().unicode_len(), host.unicode_len()))
    } else {
        String::from_str(host)
    }
}

/// Why a COS configuration cannot be built, in the order it is checked.
pub open spec fn cos_config_invalid(c: CosConfig) -> bool {
    c.bucket is None || c.endpoint is None || uri_parts(c.endpoint.unwrap()) is None
        || uri_parts(c.endpoint.unwrap()).unwrap().1 is None
}

impl<C> Default for CosBuilder<C> {
    fn default() -> (r: CosBuilder<C>)
        ensures
            r@ == (CosConfig {
                root: None,
                endpoint: None,
                secret_id: None,
                secret_key: None,
                bucket: None,
                has_client: false,
                disable_config_load: false,
            }),
    {
        CosBuilder::new()
    }
}

impl<C> CosBuilder<C> {
    pub fn new() -> (r: CosBuilder<C>)
        ensures
            r@ == (CosConfig {
                root: None,
                endpoint: None,
                secret_id: None,
                secret_key: None,
                bucket: None,
                has_client: false,
                disable_config_load: false,
            }),
    {
        CosBuilder {
            root: None,
            endpoint: None,
            secret_id: None,
            secret_key: None,
            bucket: None,
            http_client: None,
            disable_config_load: false,
        }
    }

    /// A builder configured from `(key, value)` settings: `root`, `bucket`,
    /// `endpoint`, `secret_id` and `secret_key`; other keys are ignored.
    pub fn from_map(pairs: Vec<(String, String)>) -> (r: CosBuilder<C>)
        ensures
            r@ == (CosConfig {
                root: config_value(pairs@, "root"@, None),
                endpoint: trimmed(config_value(pairs@, "endpoint"@, None)),
                secret_id: config_value(pairs@, "secret_id"@, None),
                secret_key: config_value(pairs@, "secret_key"@, None),
                bucket: config_value(pairs@, "bucket"@, None),
                has_client: false,
                disable_config_load: false,
            }),
    {
        let mut b = CosBuilder::new();
        let root_key = String::from_str("root");
        let bucket_key = String::from_str("bucket");
        let endpoint_key = String::from_str("endpoint");
        let id_key = String::from_str("secret_id");
        let secret_key_key = String::from_str("secret_key");
        let mut i: usize = 0;
        while i < pairs.len()
            invariant
                i <= pairs@.len(),
                root_key@ == "root"@,
                bucket_key@ == "bucket"@,
                endpoint_key@ == "endpoint"@,
                id_key@ == "secret_id"@,
                secret_key_key@ == "secret_key"@,
                b@ == (CosConfig {
                    root: config_value(pairs@.take(i as int), "root"@, None),
                    endpoint: trimmed(config_value(pairs@.take(i as int), "endpoint"@, None)),
                    secret_id: config_value(pairs@.take(i as int), "secret_id"@, None),
                    secret_key: config_value(pairs@.take(i as int), "secret_key"@, None),
                    bucket: config_value(pairs@.take(i as int), "bucket"@, None),
                    has_client: false,
                    disable_config_load: false,
                }),
            decreases pairs@.len() - i,
        {
            let (k, v) = &pairs[i];
            assert(pairs@.take(i + 1).drop_last() =~= pairs@.take(i as int));
            assert(pairs@.take(i + 1).last() == pairs@[i as int]);
            proof {
                reveal_strlit("root");
                reveal_strlit("bucket");
                reveal_strlit("endpoint");
                reveal_strlit("secret_id");
                reveal_strlit("secret_key");
                assert("root"@.len() == 4);
                assert("bucket"@.len() == 6);
                assert("endpoint"@.len() == 8);
                assert("secret_id"@.len() == 9);
                assert("secret_key"@.len() == 10);
            }
            let ghost before = b@;
            if *k == root_key {
                b.root(v.as_str());
            } else if *k == bucket_key {
                b.bucket(v.as_str());
            } else if *k == endpoint_key {
                b.endpoint(v.as_str());
            } else if *k == id_key {
                b.secret_id(v.as_str());
            } else if *k == secret_key_key {
                b.secret_key(v.as_str());
            }
            i += 1;
        }
        assert(pairs@.take(pairs@.len() as int) =~= pairs@);
        b
    }

    /// Sets the root that all operations happen under.
    pub fn root(&mut self, root: &str) -> (r: &mut Self)
        ensures
            final(r)@ == final(self)@,
            r@ == (CosConfig { root: set_nonempty(old(self)@.root, root@), ..old(self)@ }),
    {
        if root.unicode_len() > 0 {
            self.root = Some(String::from_str(root));
        }
        self
    }

    /// Sets the endpoint, without bucket; trailing separators are dropped.
    pub fn endpoint(&mut self, endpoint: &str) -> (r: &mut Self)
        ensures
            final(r)@ == final(self)@,
            r@ == (CosConfig {
                endpoint: if endpoint@.len() == 0 { old(self)@.endpoint } else { Some(trim_end_separators(endpoint@)) },
                ..old(self)@
            }),
    {
        if endpoint.unicode_len() > 0 {
            self.endpoint = Some(trim_end_slashes(endpoint));
        }
        self
    }

    /// Sets the secret id, which takes priority over the environment's.
    pub fn secret_id(&mut self, secret_id: &str) -> (r: &mut Self)
        ensures
            final(r)@ == final(self)@,
            r@ == (CosConfig { secret_id: set_nonempty(old(self)@.secret_id, secret_id@), ..old(self)@ }),
    {
        if secret_id.unicode_len() > 0 {
            self.secret_id = Some(String::from_str(secret_id));
        }
        self
    }

    /// Sets the secret key, which takes priority over the environment's.
    pub fn secret_key(&mut self, secret_key: &str) -> (r: &mut Self)
        ensures
            final(r)@ == final(self)@,
            r@ == (CosConfig { secret_key: set_nonempty(old(self)@.secret_key, secret_key@), ..old(self)@ }),
    {
        if secret_key.unicode_len() > 0 {
            self.secret_key = Some(String::from_str(secret_key));
        }
        self
    }

    /// Sets the bucket, which is required.
    pub fn bucket(&mut self, bucket: &str) -> (r: &mut Self)
        ensures
            final(r)@ == final(self)@,
            r@ == (CosConfig { bucket: set_nonempty(old(self)@.bucket, bucket@), ..old(self)@ }),
    {
        if bucket.unicode_len() > 0 {
            self.bucket = Some(String::from_str(bucket));
        }
        self
    }

    /// Keeps credentials from being loaded from the environment.
    pub fn disable_config_load(&mut self) -> (r: &mut Self)
        ensures
            final(r)@ == final(self)@,
            r@ == (CosConfig { disable_config_load: true, ..old(self)@ }),
    {
        self.disable_config_load = true;
        self
    }

    /// Sets the transport that the host sends requests with.
    pub fn http_client(&mut self, client: C) -> (r: &mut Self)
        ensures
            final(r)@ == final(self)@,
            r@ == (CosConfig { has_client: true, ..old(self)@ }),
    {
        self.http_client = Some(client);
        self
    }

    /// Validates the configuration and builds the backend. Nothing is taken
    /// from the builder unless the build succeeds; then the transport is
    /// moved into the backend.
    pub fn build(&mut self) -> (r: Result<CosBackend<C>, Error>)
        ensures
            r is Err <==> cos_config_invalid(old(self)@),
            r matches Err(e) ==> e.kind == ErrorKind::ConfigInvalid && e.service@ == "cos"@
                && e.operation@ == "Builder::build"@ && final(self)@ == old(self)@,
            r matches Ok(b) ==> {
                let c = old(self)@;
                &&& b.wf()
                &&& b.root@ == normalized_root(match c.root { Some(v) => v, None => Seq::empty() })
                &&& b.bucket@ == c.bucket.unwrap()
                &&& b.endpoint@ == cos_endpoint(uri_parts(c.endpoint.unwrap()).unwrap(), c.bucket.unwrap())
                &&& opt_view(b.secret_id) == c.secret_id
                &&& opt_view(b.secret_key) == c.secret_key
                &&& b.load_env == !c.disable_config_load
                &&& (b.client is Some <==> c.has_client)
                &&& final(self)@ == (CosConfig { has_client: false, ..c })
            },
    {
        let bucket = match &self.bucket {
            Some(b) => String::from_str(b.as_str()),
            None => {
                return Err(error_in(ErrorKind::ConfigInvalid, "the bucket is misconfigured", "cos", "Builder::build"));
            },
        };
        let parts = match &self.endpoint {
            Some(e) => match parse_uri(e.as_str()) {
                Some(p) => p,
                None => {
                    return Err(error_in(ErrorKind::ConfigInvalid, "the endpoint is invalid", "cos", "Builder::build"));
                },
            },
            None => {
                return Err(error_in(ErrorKind::ConfigInvalid, "the endpoint is empty", "cos", "Builder::build"));
            },
        };
        let host = match parts.host {
            Some(h) => h,
            None => {
                return Err(error_in(ErrorKind::ConfigInvalid, "the endpoint has no host", "cos", "Builder::build"));
            },
        };
        let mut endpoint = match parts.scheme {
            Some(s) => s,
            None => String::from_str("https"),
        };
        proof {
            reveal_strlit("https");
        }
        endpoint.append("://");
        endpoint.append(bucket.as_str());
        endpoint.append(".");
        endpoint.append(strip_bucket(host.as_str(), bucket.as_str()).as_str());
        let root = match &self.root {
            Some(v) => normalize_root(v.as_str()),
            None => normalize_root(""),
        };
        proof {
            reveal_strlit("");
        }
        let secret_id = match &self.secret_id {
            Some(v) => Some(String::from_str(v.as_str())),
            None => None,
        };
        let secret_key = match &self.secret_key {
            Some(v) => Some(String::from_str(v.as_str())),
            None => None,
        };
        let client = self.http_client.take();
        Ok(CosBackend {
            root,
            bucket,
            endpoint,
            secret_id,
            secret_key,
            load_env: !self.disable_config_load,
            client,
        })
    }
}

/// A built COS backend. It never changes after it is built.
pub struct CosBackend<C> {
    pub root: String,
    pub bucket: String,
    /// The endpoint with the bucket, such as `https://bucket.host`.
    pub endpoint: String,
    pub secret_id: Option<String>,
    pub secret_key: Option<String>,
    /// Whether credentials missing from the configuration are looked up in
    /// the environment.
    pub load_env: bool,
    pub client: Option<C>,
}

/// The capability of every COS backend.
pub open spec fn cos_capability() -> Capability {
    Capability {
        stat: true,
        stat_with_if_match: true,
        stat_with_if_none_match: true,
        read: true,
        read_can_next: true,
        read_with_range: true,
        read_with_suffix_range: true,
        read_with_if_match: true,
        read_with_if_none_match: true,
        write: true,
        write_can_empty: true,
        write_can_append: true,
        write_can_multi: true,
        write_with_content_type: true,
        write_with_cache_control: true,
        write_with_content_disposition: true,
        write_multi_min_size: Some(COS_MULTI_MIN_SIZE),
        write_multi_max_size: Some(COS_MULTI_MAX_SIZE),
        delete: true,
        create_dir: true,
        copy: true,
        list: true,
        list_with_delimiter_slash: true,
        list_without_delimiter: true,
        presign: true,
        presign_stat: true,
        presign_read: true,
        presign_write: true,
    }
}

/// What a presigned request is for.
#[derive(Clone, Copy, Debug, PartialEq, Eq, Structural)]
pub enum PresignOperation {
    Stat,
    Read,
    Write,
}

#[derive(Clone, Copy, Debug, PartialEq, Eq, Structural)]
pub enum Method {
    Head,
    Get,
    Put,
}

/// A presigned request to build: its method and wire path, signed in its
/// query string with `expire_secs` of validity, and never sent by the layer.
pub struct PresignPlan {
    pub method: Method,
    pub path: String,
    pub expire_secs: u64,
}

impl<C> CosBackend<C> {
    pub open spec fn wf(&self) -> bool {
        is_root(self.root@)
    }

    /// Says what the backend is and supports, with no network call.
    pub fn info(&self) -> (r: AccessorInfo)
        ensures
            r.scheme == Scheme::Cos,
            r.root@ == self.root@,
            r.name@ == self.bucket@,
            r.capability == cos_capability(),
    {
        let mut cap = Capability::none();
        cap.stat = true;
        cap.stat_with_if_match = true;
        cap.stat_with_if_none_match = true;
        cap.read = true;
        cap.read_can_next = true;
        cap.read_with_range = true;
        cap.read_with_suffix_range = true;
        cap.read_with_if_match = true;
        cap.read_with_if_none_match = true;
        cap.write = true;
        cap.write_can_empty = true;
        cap.write_can_append = true;
        cap.write_can_multi = true;
        cap.write_with_content_type = true;
        cap.write_with_cache_control = true;
        cap.write_with_content_disposition = true;
        cap.write_multi_min_size = Some(COS_MULTI_MIN_SIZE);
        cap.write_multi_max_size = Some(COS_MULTI_MAX_SIZE);
        cap.delete = true;
        cap.create_dir = true;
        cap.copy = true;
        cap.list = true;
        cap.list_with_delimiter_slash = true;
        cap.list_without_delimiter = true;
        cap.presign = true;
        cap.presign_stat = true;
        cap.presign_read = true;
        cap.presign_write = true;
        AccessorInfo {
            scheme: Scheme::Cos,
            root: String::from_str(self.root.as_str()),
            name: String::from_str(self.bucket.as_str()),
            capability: cap,
        }
    }

    /// Reads the status of a delete response: deleting an absent object
    /// succeeds.
    pub fn delete_response(&self, status: u16) -> (r: Result<(), Error>)
        ensures
            r is Ok <==> is_success_status(status) || status == 404,
            r matches Err(e) ==> e.kind == status_kind(status) && e.status == Some(status)
                && e.service@ == "cos"@ && e.operation@ == "delete"@,
    {
        crate::accessor::delete_response("cos", status)
    }

    /// The wire path of caller path `path`.
    pub fn object_path(&self, path: &str) -> (r: String)
        requires
            self.wf(),
        ensures
            r@ == abs_path(self.root@, path@),
    {
        build_abs_path(self.root.as_str(), path)
    }

    /// Reads the status of the placeholder put that creates a directory. An
    /// object that already exists is success.
    pub fn create_dir_response(&self, status: u16) -> (r: Result<(), Error>)
        ensures
            r is Ok <==> status == 200 || status == 201 || status == 409,
            r matches Err(e) ==> e.kind == status_kind(status) && e.status == Some(status)
                && e.service@ == "cos"@ && e.operation@ == "create_dir"@,
    {
        if status == 200 || status == 201 || status == 409 {
            Ok(())
        } else {
            Err(parse_error("cos", "create_dir", status))
        }
    }

    /// Reads the status of a copy response.
    pub fn copy_response(&self, status: u16) -> (r: Result<(), Error>)
        ensures
            r is Ok <==> status == 200,
            r matches Err(e) ==> e.kind == status_kind(status) && e.status == Some(status)
                && e.service@ == "cos"@ && e.operation@ == "copy"@,
    {
        if status == 200 {
            Ok(())
        } else {
            Err(parse_error("cos", "copy", status))
        }
    }

    /// Reads a head response of `stat` on caller path `path`. A missing
    /// object addressed as a container is a directory.
    pub fn stat_response(&self, path: &str, status: u16, head: &ResponseHead) -> (r: Result<Metadata, Error>)
        ensures
            status == 404 && is_dir_path(path@) ==> (r matches Ok(m) && m.mode == EntryMode::Dir),
            status == 200 ==> (r is Ok <==> head_readable(*head)),
            status == 200 ==> (r matches Ok(m) ==> metadata_of(path@, *head, m)),
            status == 200 ==> (r matches Err(e) ==> e.kind == ErrorKind::Unexpected),
            status != 200 && !(status == 404 && is_dir_path(path@)) ==> (r matches Err(e)
                && e.kind == status_kind(status) && e.status == Some(status)
                && e.service@ == "cos"@ && e.operation@ == "stat"@),
    {
        if status == 200 {
            parse_into_metadata(path, head)
        } else if status == 404 && ends_with_separator(path) {
            Ok(Metadata::new(EntryMode::Dir))
        } else {
            Err(parse_error("cos", "stat", status))
        }
    }

    /// The writer for a write with `args` to caller path `path`, bound to
    /// the object's wire path. No request is sent.
    pub fn write(&self, path: &str, args: OpWrite) -> (r: BoundWriter)
        requires
            self.wf(),
        ensures
            r.path@ == abs_path(self.root@, path@),
            r.args == args,
            args.append ==> (r.writer matches Writer::Append(w) && w.wf() && w@ == crate::writer::fresh_append()),
            !args.append ==> (r.writer matches Writer::Multipart(w) && w.wf()
                && w@ == crate::writer::fresh_multipart(Some(COS_MULTI_MIN_SIZE), Some(COS_MULTI_MAX_SIZE))),
    {
        let writer = if args.append {
            Writer::Append(crate::writer::AppendWriter::new())
        } else {
            Writer::Multipart(crate::writer::MultipartWriter::new(Some(COS_MULTI_MIN_SIZE), Some(COS_MULTI_MAX_SIZE)))
        };
        BoundWriter { path: self.object_path(path), args, writer }
    }

    /// A listing of caller path `path`.
    pub fn list(&self, path: &str, delimiter: &str, limit: Option<u64>) -> (r: Pager)
        requires
            self.wf(),
        ensures
            r.wf(),
            r@ == fresh_pager(limit),
            r.spec_path() == abs_path(self.root@, path@),
            r.spec_delimiter() == delimiter@,
            r.spec_token() is None,
    {
        Pager::new(self.object_path(path), String::from_str(delimiter), limit)
    }

    /// The request to presign for `op` on caller path `path`.
    pub fn presign(&self, path: &str, op: PresignOperation, expire_secs: u64) -> (r: PresignPlan)
        requires
            self.wf(),
        ensures
            r.method == match op {
                PresignOperation::Stat => Method::Head,
                PresignOperation::Read => Method::Get,
                PresignOperation::Write => Method::Put,
            },
            r.path@ == abs_path(self.root@, path@),
            r.expire_secs == expire_secs,
    {
        let method = match op {
            PresignOperation::Stat => Method::Head,
            PresignOperation::Read => Method::Get,
            PresignOperation::Write => Method::Put,
        };
        PresignPlan { method, path: self.object_path(path), expire_secs }
    }

    /// The secret id to sign with: the configured one, else the
    /// environment's where the backend may load it.
    pub fn resolve_secret_id(&self, from_env: Option<String>) -> (r: Option<String>)
        ensures
            self.secret_id is Some ==> opt_view(r) == opt_view(self.secret_id),
            self.secret_id is None ==> r == (if self.load_env { from_env } else { None }),
    {
        let explicit = match &self.secret_id {
            Some(v) => Some(String::from_str(v.as_str())),
            None => None,
        };
        value_with_fallback(explicit, from_env, self.load_env)
    }

    /// The secret key to sign with, chosen as the secret id is.
    pub fn resolve_secret_key(&self, from_env: Option<String>) -> (r: Option<String>)
        ensures
            self.secret_key is Some ==> opt_view(r) == opt_view(self.secret_key),
            self.secret_key is None ==> r == (if self.load_env { from_env } else { None }),
    {
        let explicit = match &self.secret_key {
            Some(v) => Some(String::from_str(v.as_str())),
            None => None,
        };
        value_with_fallback(explicit, from_env, self.load_env)
    }
}

} // verus!
