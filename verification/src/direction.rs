//! Navigation direction for the image modal.
//!
//! A direction arrives as an optional query-parameter token. Only the
//! exact tokens `"left"` and `"right"` denote a direction; any other
//! value, and an absent parameter, mean "unspecified" and are represented
//! as `None` rather than as an error.

use vstd::prelude::*;

verus! {

/// Which way the modal navigation is moving.
#[derive(Clone, Copy, PartialEq, Eq, Structural, Debug)]
pub enum Direction {
    Left,
    Right,
}

/// The token that serializes a direction into a URL.
pub open spec fn dir_token(d: Direction) -> Seq<char> {
    match d {
        Direction::Left => "left"@,
        Direction::Right => "right"@,
    }
}

/// What a single token parses to: the exact, case-sensitive match.
pub open spec fn dir_of_token(s: Seq<char>) -> Option<Direction> {
    if s == "left"@ {
        Some(Direction::Left)
    } else if s == "right"@ {
        Some(Direction::Right)
    } else {
        None
    }
}

/// The view of an optional string: the token's characters, if present.
pub open spec fn opt_str_view(s: Option<&str>) -> Option<Seq<char>> {
    match s {
        None => None,
        Some(t) => Some(t@),
    }
}

/// What an optional token parses to: absence is "unspecified", not an error.
pub open spec fn dir_of_opt_token(s: Option<Seq<char>>) -> Option<Direction> {
    match s {
        None => None,
        Some(t) => dir_of_token(t),
    }
}

/// Character-by-character string comparison, so that contracts can talk
/// about equality of views.
fn str_eq(a: &str, b: &str) -> (r: bool)
    ensures
        r == (a@ == b@),
{
    let alen = a.unicode_len();
    let blen = b.unicode_len();
    if alen != blen {
        assert(a@ != b@) by {
            assert(a@.len() != b@.len());
        }
        return false;
    }
    let mut i: usize = 0;
    while i < alen
        invariant
            i <= alen,
            alen == a@.len(),
            alen == b@.len(),
            forall|j: int| 0 <= j < i ==> a@[j] == b@[j],
        decreases alen - i,
    {
        if a.get_char(i) != b.get_char(i) {
            return false;
        }
        i += 1;
    }
    proof {
        assert(a@ =~= b@);
    }
    true
}

impl Direction {
    /// Parses one token; anything but the two exact tokens is rejected.
    pub fn from_str(s: &str) -> (r: Result<Direction, ()>)
        ensures
            r matches Ok(d) ==> dir_of_token(s@) == Some(d),
            r is Err ==> dir_of_token(s@) is None,
    {
        if str_eq(s, "left") {
            Ok(Direction::Left)
        } else if str_eq(s, "right") {
            Ok(Direction::Right)
        } else {
            Err(())
        }
    }

    /// Serializes the direction back into its token.
    pub fn as_str(self) -> (r: &'static str)
        ensures
            r@ == dir_token(self),
    {
        match self {
            Direction::Left => "left",
            Direction::Right => "right",
        }
    }
}

/// Parses the optional `dir` query parameter: an absent parameter and an
/// unrecognized token both come out as `None`.
pub fn parse_direction(s: Option<&str>) -> (r: Option<Direction>)
    ensures
        r == dir_of_opt_token(opt_str_view(s)),
{
    match s {
        None => None,
        Some(t) => match Direction::from_str(t) {
            Ok(d) => Some(d),
            Err(_) => None,
        },
    }
}

/// Round trip: serializing either direction and parsing the token back
/// recovers the same direction.
pub proof fn lemma_direction_round_trip(d: Direction)
    ensures
        dir_of_token(dir_token(d)) == Some(d),
{
    reveal_strlit("left");
    reveal_strlit("right");
    assert("left"@.len() == 4);
    assert("right"@.len() == 5);
    match d {
        Direction::Left => {
        }
        Direction::Right => {
            assert("right"@ != "left"@);
        }
    }
}

} // verus!
