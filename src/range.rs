//! Byte ranges of a read and content ranges of an upload, with their header
//! forms.

use vstd::prelude::*;
use vstd::string::*;

verus! {

pub open spec fn digit_char(d: int) -> char {
    seq!['0', '1', '2', '3', '4', '5', '6', '7', '8', '9'][d]
}

/// The decimal text of `n`, without leading zeros.
pub open spec fn decimal(n: nat) -> Seq<char>
    decreases n,
{
    if n < 10 {
        seq![digit_char(n as int)]
    } else {
        decimal(n / 10).push(digit_char((n % 10) as int))
    }
}

/// Renders `n` in decimal.
pub fn to_decimal(n: u64) -> (r: String)
    ensures
        r@ == decimal(n as nat),
{
    let digits = "0123456789";
    proof {
        reveal_strlit("0123456789");
        assert(digits@ =~= seq!['0', '1', '2', '3', '4', '5', '6', '7', '8', '9']);
    }
    let mut m: u64 = n;
    let mut out = String::new();
    loop
        invariant_except_break
            decimal(n as nat) == decimal(m as nat) + out@,
        invariant
            digits@ == seq!['0', '1', '2', '3', '4', '5', '6', '7', '8', '9'],
            digits@.len() == 10,
        ensures
            decimal(n as nat) == out@,
        decreases m,
    {
        let d = (m % 10) as usize;
        let one = digits.substring_char(d, d + 1);
        assert(one@ =~= seq![digit_char(d as int)]);
        let next = String::from_str(one).concat(out.as_str());
        let ghost old_out = out@;
        out = next;
        if m < 10 {
            assert(out@ =~= decimal(m as nat) + old_out);
            break;
        }
        assert(decimal(m as nat) == decimal((m / 10) as nat).push(digit_char((m % 10) as int)));
        assert(decimal(m as nat) + old_out =~= decimal((m / 10) as nat) + out@);
        m = m / 10;
    }
    out
}

/// A range of bytes to read: an optional start and an optional length.
/// With no start and a length it is a suffix: the last `size` bytes.
#[derive(Clone, Copy, Debug, PartialEq, Eq, Structural)]
pub struct BytesRange {
    pub offset: Option<u64>,
    pub size: Option<u64>,
}

impl BytesRange {
    /// A range can be written as a header: it is not empty and its last byte
    /// has an index below `u64::MAX`.
    pub open spec fn wf(self) -> bool {
        match (self.offset, self.size) {
            (Some(o), Some(s)) => s > 0 && o + s <= u64::MAX,
            (None, Some(s)) => s > 0,
            _ => true,
        }
    }

    pub open spec fn spec_is_full(self) -> bool {
        (self.offset is None || self.offset == Some(0u64)) && self.size is None
    }

    pub open spec fn spec_is_suffix(self) -> bool {
        self.offset is None && self.size is Some
    }

    /// The whole object.
    pub fn full() -> (r: BytesRange)
        ensures
            r.wf(),
            r.spec_is_full(),
            r.offset is None,
            r.size is None,
    {
        BytesRange { offset: None, size: None }
    }

    /// The range with the given start and length, or `None` for an empty
    /// range or one that runs past the largest byte index.
    pub fn new(offset: Option<u64>, size: Option<u64>) -> (r: Option<BytesRange>)
        ensures
            r matches Some(b) ==> b.wf() && b.offset == offset && b.size == size,
            r is None <==> !(BytesRange { offset, size }).wf(),
    {
        match size {
            Some(s) => {
                if s == 0 {
                    return None;
                }
                match offset {
                    Some(o) => {
                        if o > u64::MAX - s {
                            return None;
                        }
                    },
                    None => {},
                }
            },
            None => {},
        }
        Some(BytesRange { offset, size })
    }

    pub fn offset(&self) -> (r: Option<u64>)
        ensures
            r == self.offset,
    {
        self.offset
    }

    pub fn size(&self) -> (r: Option<u64>)
        ensures
            r == self.size,
    {
        self.size
    }

    pub fn is_full(&self) -> (r: bool)
        ensures
            r == self.spec_is_full(),
    {
        match (self.offset, self.size) {
            (None, None) => true,
            (Some(o), None) => o == 0,
            _ => false,
        }
    }

    pub fn is_suffix(&self) -> (r: bool)
        ensures
            r == self.spec_is_suffix(),
    {
        self.offset.is_none() && self.size.is_some()
    }

    /// The value of the `Range` header that asks for this range.
    pub open spec fn spec_header(self) -> Seq<char> {
        match (self.offset, self.size) {
            (Some(o), Some(s)) => "bytes="@ + decimal(o as nat) + "-"@ + decimal((o + s - 1) as nat),
            (None, Some(s)) => "bytes=-"@ + decimal(s as nat),
            (Some(o), None) => "bytes="@ + decimal(o as nat) + "-"@,
            (None, None) => "bytes=0-"@,
        }
    }

    pub fn to_header(&self) -> (r: String)
        requires
            self.wf(),
        ensures
            r@ == self.spec_header(),
    {
        match (self.offset, self.size) {
            (Some(o), Some(s)) => {
                let mut h = String::from_str("bytes=");
                h.append(to_decimal(o).as_str());
                h.append("-");
                h.append(to_decimal(o + s - 1).as_str());
                h
            },
            (None, Some(s)) => {
                let mut h = String::from_str("bytes=-");
                h.append(to_decimal(s).as_str());
                h
            },
            (Some(o), None) => {
                let mut h = String::from_str("bytes=");
                h.append(to_decimal(o).as_str());
                h.append("-");
                h
            },
            (None, None) => String::from_str("bytes=0-"),
        }
    }
}

/// The value of the `Content-Range` header of an upload that carries bytes
/// `start..=end` of an object whose total size is not yet known.
pub open spec fn content_range(start: nat, end: nat) -> Seq<char> {
    "bytes "@ + decimal(start) + "-"@ + decimal(end) + "/*"@
}

pub fn content_range_header(start: u64, end: u64) -> (r: String)
    ensures
        r@ == content_range(start as nat, end as nat),
{
    let mut h = String::from_str("bytes ");
    h.append(to_decimal(start).as_str());
    h.append("-");
    h.append(to_decimal(end).as_str());
    h.append("/*");
    h
}

} // verus!
