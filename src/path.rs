//! Root normalisation and the mapping between caller paths and wire paths.

use vstd::prelude::*;
use vstd::string::*;

verus! {

/// Scans `s` left to right, starting from a single separator, dropping every
/// separator that follows another one.
pub open spec fn squash(s: Seq<char>) -> Seq<char>
    decreases s.len(),
{
    if s.len() == 0 {
        seq!['/']
    } else {
        let q = squash(s.drop_last());
        if s.last() == '/' && q.last() == '/' {
            q
        } else {
            q.push(s.last())
        }
    }
}

/// The normalised form of a configured root: it starts and ends with a single
/// separator and holds no empty segment.
pub open spec fn normalized_root(s: Seq<char>) -> Seq<char> {
    let q = squash(s);
    if q.last() == '/' {
        q
    } else {
        q.push('/')
    }
}

/// A root as the layer keeps it.
pub open spec fn is_root(r: Seq<char>) -> bool {
    &&& r.len() >= 1
    &&& r[0] == '/'
    &&& r.last() == '/'
}

pub open spec fn is_root_path(p: Seq<char>) -> bool {
    p == seq!['/']
}

/// A path that addresses a container.
pub open spec fn is_dir_path(p: Seq<char>) -> bool {
    p.len() > 0 && p.last() == '/'
}

/// The wire path of caller path `p` under root `root`: the root without its
/// leading separator, followed by `p` (nothing for the root path itself).
pub open spec fn abs_path(root: Seq<char>, p: Seq<char>) -> Seq<char> {
    let base = root.subrange(1, root.len() as int);
    if is_root_path(p) {
        base
    } else {
        base + p
    }
}

/// The caller path of a wire path under `root`.
pub open spec fn rel_path(root: Seq<char>, abs: Seq<char>) -> Seq<char> {
    abs.subrange(root.len() - 1, abs.len() as int)
}

pub proof fn lemma_squash_starts_with_separator(s: Seq<char>)
    ensures
        squash(s).len() >= 1,
        squash(s)[0] == '/',
    decreases s.len(),
{
    if s.len() > 0 {
        lemma_squash_starts_with_separator(s.drop_last());
    }
}

/// Every normalised root is a root.
pub proof fn lemma_normalized_root_is_root(s: Seq<char>)
    ensures
        is_root(normalized_root(s)),
{
    lemma_squash_starts_with_separator(s);
}

/// Mapping a caller path to the wire and back gives the caller path.
pub proof fn lemma_rel_of_abs(root: Seq<char>, p: Seq<char>)
    requires
        is_root(root),
        !is_root_path(p),
    ensures
        rel_path(root, abs_path(root, p)) == p,
{
    assert(rel_path(root, abs_path(root, p)) =~= p);
}

pub fn normalize_root(v: &str) -> (r: String)
    ensures
        r@ == normalized_root(v@),
        is_root(r@),
{
    let n = v.unicode_len();
    proof {
        reveal_strlit("/");
    }
    let mut out = String::from_str("/");
    let mut last_slash = true;
    let mut i: usize = 0;
    while i < n
        invariant
            n == v@.len(),
            i <= n,
            out@ == squash(v@.subrange(0, i as int)),
            out@.len() >= 1,
            last_slash == (out@.last() == '/'),
            "/"@ == seq!['/'],
        decreases n - i,
    {
        let c = v.get_char(i);
        let ghost prev = v@.subrange(0, i as int);
        let ghost next = v@.subrange(0, i + 1);
        assert(next.drop_last() =~= prev);
        assert(next.last() == c);
        if c == '/' {
            if !last_slash {
                out.append("/");
                last_slash = true;
            }
        } else {
            let one = v.substring_char(i, i + 1);
            assert(one@ =~= seq![c]);
            out.append(one);
            last_slash = false;
        }
        i += 1;
    }
    assert(v@.subrange(0, n as int) =~= v@);
    if !last_slash {
        out.append("/");
    }
    proof {
        lemma_normalized_root_is_root(v@);
    }
    out
}

pub fn is_root_str(p: &str) -> (r: bool)
    ensures
        r == is_root_path(p@),
{
    let n = p.unicode_len();
    if n == 1 {
        let c = p.get_char(0);
        assert(c == '/' ==> p@ =~= seq!['/']);
        c == '/'
    } else {
        false
    }
}

pub fn ends_with_separator(p: &str) -> (r: bool)
    ensures
        r == is_dir_path(p@),
{
    let n = p.unicode_len();
    n > 0 && p.get_char(n - 1) == '/'
}

/// Builds the wire path of `path` under `root`.
pub fn build_abs_path(root: &str, path: &str) -> (r: String)
    requires
        is_root(root@),
    ensures
        r@ == abs_path(root@, path@),
{
    let n = root.unicode_len();
    let mut out = String::from_str(root.substring_char(1, n));
    if !is_root_str(path) {
        out.append(path);
    }
    out
}

/// Builds the caller path of wire path `abs` under `root`.
pub fn build_rel_path(root: &str, abs: &str) -> (r: String)
    requires
        is_root(root@),
        abs@.len() >= root@.len() - 1,
    ensures
        r@ == rel_path(root@, abs@),
{
    let n = root.unicode_len();
    let m = abs.unicode_len();
    String::from_str(abs.substring_char(n - 1, m))
}

/// The characters that pass through percent-encoding unchanged, in the order
/// that `safe_index` numbers them.
pub open spec fn safe_chars() -> Seq<char> {
    seq!['0', '1', '2', '3', '4', '5', '6', '7', '8', '9', 'A', 'B', 'C', 'D', 'E', 'F', 'G', 'H', 'I', 'J', 'K', 'L', 'M', 'N', 'O', 'P', 'Q', 'R', 'S', 'T', 'U', 'V', 'W', 'X', 'Y', 'Z', 'a', 'b', 'c', 'd', 'e', 'f', 'g', 'h', 'i', 'j', 'k', 'l', 'm', 'n', 'o', 'p', 'q', 'r', 's', 't', 'u', 'v', 'w', 'x', 'y', 'z', '/', '-', '.', '_', '~']
}

/// Whether byte `b` passes through percent-encoding unchanged: an ASCII
/// letter or digit, or one of `/ - . _ ~`.
pub open spec fn is_safe_byte(b: u8) -> bool {
    (48 <= b <= 57) || (65 <= b <= 90) || (97 <= b <= 122) || b == 47 || b == 45 || b == 46 || b == 95 || b == 126
}

/// The position of a safe byte's character in `safe_chars`.
pub open spec fn safe_index(b: u8) -> int {
    if 48 <= b <= 57 {
        b - 48
    } else if 65 <= b <= 90 {
        b - 55
    } else if 97 <= b <= 122 {
        b - 61
    } else if b == 47 {
        62
    } else if b == 45 {
        63
    } else if b == 46 {
        64
    } else if b == 95 {
        65
    } else {
        66
    }
}

pub open spec fn hex_digit(d: int) -> char {
    seq!['0', '1', '2', '3', '4', '5', '6', '7', '8', '9', 'A', 'B', 'C', 'D', 'E', 'F'][d]
}

/// The encoding of one byte: itself if safe, else `%` and two upper-case hex
/// digits.
pub open spec fn encode_byte(b: u8) -> Seq<char> {
    if is_safe_byte(b) {
        seq![safe_chars()[safe_index(b)]]
    } else {
        seq!['%', hex_digit((b / 16) as int), hex_digit((b % 16) as int)]
    }
}

/// The percent-encoding of the bytes `bs`.
pub open spec fn percent_encoded(bs: Seq<u8>) -> Seq<char>
    decreases bs.len(),
{
    if bs.len() == 0 {
        Seq::empty()
    } else {
        percent_encoded(bs.drop_last()) + encode_byte(bs.last())
    }
}

fn safe_position(b: u8) -> (r: usize)
    requires
        is_safe_byte(b),
    ensures
        r == safe_index(b),
        r < 67,
{
    if 48 <= b && b <= 57 {
        (b - 48) as usize
    } else if 65 <= b && b <= 90 {
        (b - 55) as usize
    } else if 97 <= b && b <= 122 {
        (b - 61) as usize
    } else if b == 47 {
        62
    } else if b == 45 {
        63
    } else if b == 46 {
        64
    } else if b == 95 {
        65
    } else {
        66
    }
}

/// Percent-encodes the UTF-8 bytes of a path for use in a query string,
/// keeping separators.
pub fn percent_encode_path(s: &str) -> (r: String)
    ensures
        r@ == percent_encoded(s.spec_bytes()),
{
    let safe = "0123456789ABCDEFGHIJKLMNOPQRSTUVWXYZabcdefghijklmnopqrstuvwxyz/-._~";
    let hex = "0123456789ABCDEF";
    proof {
        reveal_strlit("0123456789ABCDEFGHIJKLMNOPQRSTUVWXYZabcdefghijklmnopqrstuvwxyz/-._~");
        reveal_strlit("0123456789ABCDEF");
        reveal_strlit("%");
        assert(safe@ =~= safe_chars());
        assert(hex@ =~= seq!['0', '1', '2', '3', '4', '5', '6', '7', '8', '9', 'A', 'B', 'C', 'D', 'E', 'F']);
    }
    let bytes = s.as_bytes();
    let mut out = String::new();
    let mut i: usize = 0;
    while i < bytes.len()
        invariant
            bytes@ == s.spec_bytes(),
            i <= bytes@.len(),
            out@ == percent_encoded(bytes@.subrange(0, i as int)),
            safe@ == safe_chars(),
            safe@.len() == 67,
            hex@.len() == 16,
            forall|d: int| 0 <= d < 16 ==> hex@[d] == hex_digit(d),
            "%"@ == seq!['%'],
        decreases bytes@.len() - i,
    {
        let b = bytes[i];
        assert(bytes@.subrange(0, i + 1).drop_last() =~= bytes@.subrange(0, i as int));
        assert(bytes@.subrange(0, i + 1).last() == b);
        let ghost prev = out@;
        if b == 47 || b == 45 || b == 46 || b == 95 || b == 126 || (48 <= b && b <= 57) || (65 <= b && b <= 90)
            || (97 <= b && b <= 122) {
            let k = safe_position(b);
            let one = safe.substring_char(k, k + 1);
            assert(one@ =~= seq![safe_chars()[safe_index(b)]]);
            out.append(one);
        } else {
            let hi = (b / 16) as usize;
            let lo = (b % 16) as usize;
            out.append("%");
            out.append(hex.substring_char(hi, hi + 1));
            out.append(hex.substring_char(lo, lo + 1));
            assert(out@ =~= prev + encode_byte(b));
        }
        i += 1;
    }
    assert(bytes@.subrange(0, bytes@.len() as int) =~= bytes@);
    out
}

/// Whether `s` begins with `p`.
pub open spec fn has_prefix(s: Seq<char>, p: Seq<char>) -> bool {
    p.len() <= s.len() && s.subrange(0, p.len() as int) == p
}

pub fn starts_with(s: &str, p: &str) -> (r: bool)
    ensures
        r == has_prefix(s@, p@),
{
    let n = s.unicode_len();
    let m = p.unicode_len();
    if m > n {
        return false;
    }
    let mut i: usize = 0;
    while i < m
        invariant
            n == s@.len(),
            m == p@.len(),
            m <= n,
            i <= m,
            forall|j: int| 0 <= j < i ==> s@[j] == p@[j],
        decreases m - i,
    {
        if s.get_char(i) != p.get_char(i) {
            proof {
                assert(s@.subrange(0, m as int)[i as int] != p@[i as int]);
            }
            return false;
        }
        i += 1;
    }
    assert(s@.subrange(0, m as int) =~= p@);
    true
}

} // verus!
