//! Lazy listing over a backend's cursor pagination, with a result limit that
//! holds across page boundaries.

use vstd::prelude::*;
use vstd::string::*;
use crate::error::{Error, ErrorKind};
use crate::metadata::{Entry, EntryMode, Metadata};
use crate::uri::opt_view;
use crate::path::{has_prefix, starts_with, build_rel_path, ends_with_separator, is_dir_path, is_root, rel_path};

verus! {

/// The abstract state of a listing.
pub struct PagerModel {
    pub limit: Option<u64>,
    /// The entries handed to the caller so far (counted under a limit).
    pub yielded: nat,
    pub done: bool,
}

pub open spec fn fresh_pager(limit: Option<u64>) -> PagerModel {
    PagerModel { limit, yielded: 0, done: limit == Some(0u64) }
}

/// How many of the `n` entries of the next page reach the caller.
pub open spec fn page_take(m: PagerModel, n: nat) -> nat {
    match m.limit {
        Some(l) => if n <= l - m.yielded { n } else { (l - m.yielded) as nat },
        None => n,
    }
}

/// The state after a page of `n` entries, followed by another page or not.
pub open spec fn after_page(m: PagerModel, n: nat, has_next: bool) -> PagerModel {
    let y = match m.limit {
        Some(_) => m.yielded + page_take(m, n),
        None => m.yielded,
    };
    PagerModel {
        limit: m.limit,
        yielded: y,
        done: !has_next || (m.limit matches Some(l) && y >= l),
    }
}

pub open spec fn total(sizes: Seq<nat>) -> nat
    decreases sizes.len(),
{
    if sizes.len() == 0 {
        0
    } else {
        sizes[0] + total(sizes.drop_first())
    }
}

/// The state after the backend's pages, of the given sizes, are fetched
/// while the listing asks for more.
pub open spec fn drain(m: PagerModel, sizes: Seq<nat>) -> PagerModel
    decreases sizes.len(),
{
    if sizes.len() == 0 || m.done {
        m
    } else {
        drain(after_page(m, sizes[0], sizes.len() > 1), sizes.drop_first())
    }
}

pub open spec fn capped(l: nat, x: nat) -> nat {
    if x <= l { x } else { l }
}

proof fn lemma_drain_from(m: PagerModel, l: u64, sizes: Seq<nat>)
    requires
        m.limit == Some(l),
        m.yielded < l,
        !m.done,
        sizes.len() > 0,
    ensures
        drain(m, sizes).done,
        drain(m, sizes).yielded == capped(l as nat, m.yielded + total(sizes)),
    decreases sizes.len(),
{
    let n = after_page(m, sizes[0], sizes.len() > 1);
    let rest = sizes.drop_first();
    assert(drain(m, sizes) == drain(n, rest));
    assert(total(sizes) == sizes[0] + total(rest));
    if !n.done {
        lemma_drain_from(n, l, rest);
    } else {
        assert(drain(n, rest) == n);
        if sizes.len() == 1 {
            assert(rest.len() == 0);
            assert(total(rest) == 0);
        }
    }
}

/// Limit law: a listing with limit `l` over a backend that returns pages of
/// any sizes yields exactly `min(l, total)` entries and then ends, however
/// the entries fall into pages.
pub proof fn lemma_limit_across_pages(l: u64, sizes: Seq<nat>)
    requires
        sizes.len() > 0,
    ensures
        drain(fresh_pager(Some(l)), sizes).done,
        drain(fresh_pager(Some(l)), sizes).yielded == capped(l as nat, total(sizes)),
{
    if l > 0 {
        lemma_drain_from(fresh_pager(Some(l)), l, sizes);
    }
}

/// The entries of `pages`, in order.
pub open spec fn concat_pages<E>(pages: Seq<Seq<E>>) -> Seq<E>
    decreases pages.len(),
{
    if pages.len() == 0 {
        Seq::empty()
    } else {
        pages[0] + concat_pages(pages.drop_first())
    }
}

/// The entries that a listing in state `m` hands out while the backend's
/// `pages` are fetched in turn, as long as it asks for more.
pub open spec fn drain_entries<E>(m: PagerModel, pages: Seq<Seq<E>>) -> Seq<E>
    decreases pages.len(),
{
    if pages.len() == 0 || m.done {
        Seq::empty()
    } else {
        pages[0].take(page_take(m, pages[0].len()) as int)
            + drain_entries(after_page(m, pages[0].len(), pages.len() > 1), pages.drop_first())
    }
}

proof fn lemma_drain_entries_from<E>(m: PagerModel, l: u64, pages: Seq<Seq<E>>)
    requires
        m.limit == Some(l),
        m.yielded < l,
        !m.done,
        pages.len() > 0,
    ensures
        drain_entries(m, pages) == concat_pages(pages).take(
            capped((l - m.yielded) as nat, concat_pages(pages).len()) as int,
        ),
    decreases pages.len(),
{
    let p0 = pages[0];
    let rest = pages.drop_first();
    let n = after_page(m, p0.len(), pages.len() > 1);
    let k = page_take(m, p0.len());
    let whole = concat_pages(pages);
    assert(whole == p0 + concat_pages(rest));
    assert(drain_entries(m, pages) == p0.take(k as int) + drain_entries(n, rest));
    if n.done {
        assert(drain_entries(n, rest) == Seq::<E>::empty());
        if pages.len() == 1 {
            assert(rest.len() == 0);
            assert(concat_pages(rest) == Seq::<E>::empty());
            assert(whole =~= p0);
        }
        assert(p0.take(k as int) + Seq::<E>::empty() =~= whole.take(capped((l - m.yielded) as nat, whole.len()) as int));
    } else {
        lemma_drain_entries_from(n, l, rest);
        let r = concat_pages(rest);
        assert(p0.take(k as int) =~= p0);
        assert(p0 + r.take(capped((l - n.yielded) as nat, r.len()) as int) =~= whole.take(
            capped((l - m.yielded) as nat, whole.len()) as int,
        ));
    }
}

/// Order law: a listing with limit `l` over a backend that serves `pages`
/// in turn hands out exactly the first `min(l, total)` entries of the pages
/// taken together, in the backend's order: none re-sorted, repeated or
/// skipped, wherever the page boundaries fall.
pub proof fn lemma_listing_order<E>(l: u64, pages: Seq<Seq<E>>)
    requires
        pages.len() > 0,
    ensures
        drain_entries(fresh_pager(Some(l)), pages) == concat_pages(pages).take(
            capped(l as nat, concat_pages(pages).len()) as int,
        ),
{
    if l > 0 {
        lemma_drain_entries_from(fresh_pager(Some(l)), l, pages);
    } else {
        assert(concat_pages(pages).take(0) =~= Seq::<E>::empty());
    }
}

/// The request for the next page, as the host must send it.
pub struct PageRequest {
    /// The wire path to list under.
    pub path: String,
    pub delimiter: String,
    /// The continuation token of the previous page, if any.
    pub token: Option<String>,
    /// The most entries that the listing still wants.
    pub max_keys: Option<u64>,
}

/// A listing in progress.
pub struct Pager {
    path: String,
    delimiter: String,
    limit: Option<u64>,
    yielded: u64,
    token: Option<String>,
    done: bool,
}

impl View for Pager {
    type V = PagerModel;

    closed spec fn view(&self) -> PagerModel {
        PagerModel { limit: self.limit, yielded: self.yielded as nat, done: self.done }
    }
}

fn copy_string(s: &String) -> (r: String)
    ensures
        r@ == s@,
{
    String::from_str(s.as_str())
}

impl Pager {
    pub closed spec fn wf(&self) -> bool {
        &&& (self.limit matches Some(l) ==> self.yielded <= l)
        &&& (self.limit is None ==> self.yielded == 0)
        &&& (self.limit matches Some(l) && self.yielded == l ==> self.done)
    }

    pub closed spec fn spec_path(&self) -> Seq<char> {
        self.path@
    }

    pub closed spec fn spec_delimiter(&self) -> Seq<char> {
        self.delimiter@
    }

    /// The continuation token of the last page fetched.
    pub closed spec fn spec_token(&self) -> Option<Seq<char>> {
        opt_view(self.token)
    }

    /// A listing of wire path `path`, with at most `limit` entries.
    pub fn new(path: String, delimiter: String, limit: Option<u64>) -> (r: Pager)
        ensures
            r.wf(),
            r@ == fresh_pager(limit),
            r.spec_path() == path@,
            r.spec_delimiter() == delimiter@,
            r.spec_token() is None,
    {
        let done = match limit {
            Some(l) => l == 0,
            None => false,
        };
        Pager { path, delimiter, limit, yielded: 0, token: None, done }
    }

    pub fn is_done(&self) -> (r: bool)
        ensures
            r == self@.done,
    {
        self.done
    }

    /// The next page to fetch, or `None` once the listing has ended.
    pub fn next_request(&self) -> (r: Option<PageRequest>)
        requires
            self.wf(),
        ensures
            r is None <==> self@.done,
            r matches Some(q) ==> q.path@ == self.spec_path() && q.delimiter@ == self.spec_delimiter()
                && opt_view(q.token) == self.spec_token() && (q.max_keys == match self@.limit {
                Some(l) => Some((l - self@.yielded) as u64),
                None => None,
            }),
    {
        if self.done {
            return None;
        }
        let token = match &self.token {
            Some(t) => Some(copy_string(t)),
            None => None,
        };
        let max_keys = match self.limit {
            Some(l) => Some(l - self.yielded),
            None => None,
        };
        Some(PageRequest { path: copy_string(&self.path), delimiter: copy_string(&self.delimiter), token, max_keys })
    }

    /// Takes a fetched page and its continuation token; returns the entries
    /// that reach the caller, in the backend's order, cut at the limit.
    pub fn on_page(&mut self, entries: Vec<Entry>, next_token: Option<String>) -> (r: Vec<Entry>)
        requires
            old(self).wf(),
            !old(self)@.done,
        ensures
            final(self).wf(),
            final(self).spec_path() == old(self).spec_path(),
            final(self).spec_delimiter() == old(self).spec_delimiter(),
            final(self).spec_token() == opt_view(next_token),
            final(self)@ == after_page(old(self)@, entries@.len(), next_token is Some),
            r@ == entries@.take(page_take(old(self)@, entries@.len()) as int),
    {
        let mut entries = entries;
        let ghost orig = entries@;
        let n = entries.len();
        match self.limit {
            Some(l) => {
                let room = l - self.yielded;
                let take: u64 = if (n as u64) <= room && n as u64 as usize == n { n as u64 } else { room };
                assert(take == page_take(old(self)@, n as nat)) by {
                    if n as nat > room as nat {
                        assert(take == room);
                    }
                };
                entries.truncate(take as usize);
                self.yielded = self.yielded + take;
                if self.yielded >= l {
                    self.done = true;
                }
            },
            None => {},
        }
        let has_next = next_token.is_some();
        if !has_next {
            self.done = true;
        }
        self.token = next_token;
        assert(entries@ =~= orig.take(page_take(old(self)@, orig.len()) as int));
        entries
    }
}

/// An object as a listing page names it.
pub struct ListObject {
    /// The wire path of the object.
    pub key: String,
    pub size: u64,
}

/// The entries of one listing page under root `root`: each common prefix is a
/// directory entry, each object an entry of its own, all with paths relative
/// to the root. A key that does not lie under the root is an error.
pub fn page_entries(root: &str, prefixes: Vec<String>, objects: Vec<ListObject>) -> (r: Result<Vec<Entry>, Error>)
    requires
        is_root(root@),
    ensures
        r matches Ok(es) ==> {
            &&& es@.len() == prefixes@.len() + objects@.len()
            &&& forall|i: int| 0 <= i < prefixes@.len() ==> {
                &&& (#[trigger] es@[i]).path@ == rel_path(root@, prefixes@[i]@)
                &&& es@[i].metadata.mode == EntryMode::Dir
            }
            &&& forall|j: int| 0 <= j < objects@.len() ==> {
                let e = #[trigger] es@[prefixes@.len() + j];
                &&& e.path@ == rel_path(root@, objects@[j].key@)
                &&& e.metadata.mode == (if is_dir_path(objects@[j].key@) { EntryMode::Dir } else { EntryMode::File })
                &&& e.metadata.content_length == Some(objects@[j].size)
            }
        },
        r is Err <==> (exists|i: int| 0 <= i < prefixes@.len() && !has_prefix((#[trigger] prefixes@[i])@, root@.subrange(1, root@.len() as int)))
            || (exists|j: int| 0 <= j < objects@.len() && !has_prefix((#[trigger] objects@[j]).key@, root@.subrange(1, root@.len() as int))),
        r matches Err(e) ==> e.kind == ErrorKind::Unexpected,
{
    let rlen = root.unicode_len();
    let base = root.substring_char(1, rlen);
    let mut out: Vec<Entry> = Vec::new();
    let mut i: usize = 0;
    while i < prefixes.len()
        invariant
            rlen == root@.len(),
            base@ == root@.subrange(1, root@.len() as int),
            is_root(root@),
            i <= prefixes@.len(),
            out@.len() == i,
            forall|k: int| 0 <= k < i ==> {
                &&& (#[trigger] out@[k]).path@ == rel_path(root@, prefixes@[k]@)
                &&& out@[k].metadata.mode == EntryMode::Dir
            },
            forall|k: int| 0 <= k < i ==> has_prefix(prefixes@[k]@, root@.subrange(1, root@.len() as int)),
        decreases prefixes@.len() - i,
    {
        let p = &prefixes[i];
        if !starts_with(p.as_str(), base) {
            return Err(Error::new(ErrorKind::Unexpected, "a listed prefix lies outside the root"));
        }
        let path = build_rel_path(root, p.as_str());
        out.push(Entry { path, metadata: Metadata::new(EntryMode::Dir) });
        i += 1;
    }
    let mut j: usize = 0;
    while j < objects.len()
        invariant
            rlen == root@.len(),
            base@ == root@.subrange(1, root@.len() as int),
            is_root(root@),
            i == prefixes@.len(),
            j <= objects@.len(),
            out@.len() == i + j,
            forall|k: int| 0 <= k < i ==> {
                &&& (#[trigger] out@[k]).path@ == rel_path(root@, prefixes@[k]@)
                &&& out@[k].metadata.mode == EntryMode::Dir
            },
            forall|k: int| 0 <= k < prefixes@.len() ==> has_prefix((#[trigger] prefixes@[k])@, root@.subrange(1, root@.len() as int)),
            forall|k: int| 0 <= k < j ==> {
                let e = #[trigger] out@[prefixes@.len() + k];
                &&& e.path@ == rel_path(root@, objects@[k].key@)
                &&& e.metadata.mode == (if is_dir_path(objects@[k].key@) { EntryMode::Dir } else { EntryMode::File })
                &&& e.metadata.content_length == Some(objects@[k].size)
            },
            forall|k: int| 0 <= k < j ==> has_prefix((#[trigger] objects@[k]).key@, root@.subrange(1, root@.len() as int)),
        decreases objects@.len() - j,
    {
        let o = &objects[j];
        if !starts_with(o.key.as_str(), base) {
            return Err(Error::new(ErrorKind::Unexpected, "a listed object lies outside the root"));
        }
        let path = build_rel_path(root, o.key.as_str());
        let mode = if ends_with_separator(o.key.as_str()) { EntryMode::Dir } else { EntryMode::File };
        let mut metadata = Metadata::new(mode);
        metadata.content_length = Some(o.size);
        let ghost before = out@;
        out.push(Entry { path, metadata });
        proof {
            assert forall|k: int| 0 <= k < i implies {
                &&& (#[trigger] out@[k]).path@ == rel_path(root@, prefixes@[k]@)
                &&& out@[k].metadata.mode == EntryMode::Dir
            } by {
                assert(out@[k] == before[k]);
            }
            assert forall|k: int| 0 <= k < j + 1 implies {
                let e = #[trigger] out@[prefixes@.len() + k];
                &&& e.path@ == rel_path(root@, objects@[k].key@)
                &&& e.metadata.mode == (if is_dir_path(objects@[k].key@) { EntryMode::Dir } else { EntryMode::File })
                &&& e.metadata.content_length == Some(objects@[k].size)
            } by {
                if k < j {
                    assert(out@[prefixes@.len() + k] == before[prefixes@.len() + k]);
                }
            }
        }
        j += 1;
    }
    Ok(out)
}

} // verus!
