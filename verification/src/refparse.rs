//! Image references.
//!
//! A reference names one image as `<base>?<id>`: a base path, a literal
//! `?`, and a decimal id. The split happens at the first `?`; the id must
//! be a valid 32-bit signed numeral. A reference with no separator, or
//! with an unparseable id, is rejected with a structured error rather
//! than aborting the request.

use vstd::prelude::*;

use crate::numbers::dec_str;
use crate::numbers::i32_val;
use crate::numbers::int_dec_str;
use crate::numbers::is_digit;
use crate::numbers::lemma_dec_str_val;
use crate::numbers::numeral_body;
use crate::numbers::parse_i32;
use crate::numbers::sign_skip;
use crate::numbers::valid_i32_str;

verus! {

/// Why an image reference failed to parse.
#[derive(Clone, Copy, PartialEq, Eq, Structural, Debug)]
pub enum RefError {
    /// The reference holds no `?` separator at all.
    MissingSeparator,
    /// The text after the first `?` is not a valid decimal id.
    InvalidId,
}

impl RefError {
    /// A short human-readable account of the failure, fit for an error
    /// response body.
    pub fn message(&self) -> (r: &'static str)
        ensures
            *self is MissingSeparator ==> r@ == "image reference is missing the '?' separator"@,
            *self is InvalidId ==> r@ == "image reference id is not a valid integer"@,
    {
        match self {
            RefError::MissingSeparator => "image reference is missing the '?' separator",
            RefError::InvalidId => "image reference id is not a valid integer",
        }
    }
}

/// The index of the first `?` at or after position `i`, or -1 if none.
pub open spec fn first_sep_from(s: Seq<char>, i: int) -> int
    decreases s.len() - i,
{
    if i < 0 || i >= s.len() {
        -1
    } else if s[i] == '?' {
        i
    } else {
        first_sep_from(s, i + 1)
    }
}

/// The index of the first `?` in the reference, or -1 if none.
pub open spec fn sep_idx(s: Seq<char>) -> int {
    first_sep_from(s, 0)
}

/// The base path: everything before the first separator.
pub open spec fn ref_base(s: Seq<char>) -> Seq<char> {
    s.take(sep_idx(s))
}

/// The id text: everything after the first separator.
pub open spec fn ref_id_str(s: Seq<char>) -> Seq<char> {
    s.skip(sep_idx(s) + 1)
}

/// A reference is valid when it has a separator and its tail is a valid
/// 32-bit id numeral.
pub open spec fn ref_valid(s: Seq<char>) -> bool {
    sep_idx(s) >= 0 && valid_i32_str(ref_id_str(s))
}

/// The error an invalid reference is rejected with.
pub open spec fn ref_err(s: Seq<char>) -> RefError {
    if sep_idx(s) < 0 {
        RefError::MissingSeparator
    } else {
        RefError::InvalidId
    }
}

/// Scanning past separator-free characters does not move the result.
proof fn lemma_first_sep_skip(s: Seq<char>, i: int)
    requires
        0 <= i <= s.len(),
        forall|j: int| 0 <= j < i ==> s[j] != '?',
    ensures
        first_sep_from(s, 0) == first_sep_from(s, i),
    decreases i,
{
    if i > 0 {
        lemma_first_sep_skip(s, i - 1);
        assert(s[i - 1] != '?');
    }
}

/// Finds the first `?` in the string.
fn find_sep(s: &str) -> (r: Option<usize>)
    ensures
        match r {
            Some(i) => sep_idx(s@) == i as int && i < s@.len() && s@[i as int] == '?',
            None => sep_idx(s@) == -1,
        },
{
    let len: usize = s.unicode_len();
    let mut i: usize = 0;
    while i < len
        invariant
            i <= len,
            len == s@.len(),
            forall|j: int| 0 <= j < i ==> s@[j] != '?',
        decreases len - i,
    {
        if s.get_char(i) == '?' {
            proof {
                lemma_first_sep_skip(s@, i as int);
            }
            return Some(i);
        }
        i += 1;
    }
    proof {
        lemma_first_sep_skip(s@, len as int);
    }
    None
}

/// Round trip: a reference assembled from a separator-free base and the
/// decimal numeral of an in-range id — the shape of every navigation link
/// the modal emits — is valid, and parses back to exactly that base and
/// that id.
pub proof fn lemma_ref_round_trip(base: Seq<char>, v: int)
    requires
        forall|i: int| 0 <= i < base.len() ==> base[i] != '?',
        -0x8000_0000 <= v <= 0x7fff_ffff,
    ensures
        ref_valid(base + "?"@ + int_dec_str(v)),
        ref_base(base + "?"@ + int_dec_str(v)) == base,
        i32_val(ref_id_str(base + "?"@ + int_dec_str(v))) == v,
{
    reveal_strlit("?");
    reveal_strlit("-");
    let s = base + "?"@ + int_dec_str(v);
    let n = base.len() as int;
    assert("?"@.len() == 1 && "?"@[0] == '?');
    assert(s[n] == '?');
    assert forall|j: int| 0 <= j < n implies s[j] != '?' by {
        assert(s[j] == base[j]);
    }
    lemma_first_sep_skip(s, n);
    assert(first_sep_from(s, n) == n);
    assert(sep_idx(s) == n);
    assert(ref_base(s) =~= base);
    assert(ref_id_str(s) =~= int_dec_str(v));
    if v >= 0 {
        lemma_dec_str_val(v as nat);
        let t = dec_str(v as nat);
        assert(is_digit(t[0]));
        assert(t[0] != '-' && t[0] != '+');
        assert(sign_skip(t) == 0);
        assert(numeral_body(t) =~= t);
        assert(valid_i32_str(t));
        assert(i32_val(t) == v);
    } else {
        lemma_dec_str_val((-v) as nat);
        let t = "-"@ + dec_str((-v) as nat);
        assert(t[0] == '-');
        assert(sign_skip(t) == 1);
        assert(numeral_body(t) =~= dec_str((-v) as nat));
        assert(valid_i32_str(t));
        assert(i32_val(t) == v);
    }
}

/// Splits an image reference at its first `?` and parses the trailing id.
pub fn parse_ref(s: &str) -> (r: Result<(String, i32), RefError>)
    ensures
        r is Ok <==> ref_valid(s@),
        r matches Ok(p) ==> p.0@ == ref_base(s@) && p.1 as int == i32_val(ref_id_str(s@)),
        r matches Err(e) ==> !ref_valid(s@) && e == ref_err(s@),
{
    let len: usize = s.unicode_len();
    let sep: usize = match find_sep(s) {
        Some(i) => i,
        None => {
            return Err(RefError::MissingSeparator);
        },
    };
    let base = s.substring_char(0, sep);
    let tail = s.substring_char(sep + 1, len);
    proof {
        assert(base@ =~= ref_base(s@));
        assert(tail@ =~= ref_id_str(s@));
    }
    match parse_i32(tail) {
        Ok(id) => Ok((base.to_owned(), id)),
        Err(_) => Err(RefError::InvalidId),
    }
}

} // verus!
