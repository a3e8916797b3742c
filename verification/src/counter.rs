//! The gallery counter.
//!
//! Every rendered image item carries a placeholder image URL whose query
//! string is a fresh counter value, so successive images differ. The
//! counter lives in the server's shared state and is bumped exactly once
//! per rendered item; a single-threaded caller therefore sees strictly
//! increasing values and pairwise distinct URLs.

use vstd::prelude::*;

use crate::numbers::dec_str;
use crate::numbers::lemma_dec_str_injective;
use crate::numbers::u64_to_string;

verus! {

/// The placeholder image URL for one counter value.
pub open spec fn image_url(n: nat) -> Seq<char> {
    "https://picsum.photos/800/800?"@ + dec_str(n)
}

/// The process-wide image counter. It starts at zero and only ever grows.
pub struct GalleryCounter {
    pub count: u32,
}

impl GalleryCounter {
    /// A fresh counter, as at process start.
    pub fn new() -> (c: GalleryCounter)
        ensures
            c.count == 0,
    {
        GalleryCounter { count: 0 }
    }

    /// Bumps the counter and returns the placeholder URL for the new value.
    pub fn next_image_url(&mut self) -> (r: String)
        requires
            old(self).count < u32::MAX,
        ensures
            final(self).count == old(self).count + 1,
            r@ == image_url((old(self).count + 1) as nat),
    {
        self.count = self.count + 1;
        let mut s = "https://picsum.photos/800/800?".to_owned();
        let numeral = u64_to_string(self.count as u64);
        s.append(numeral.as_str());
        s
    }
}

/// Distinct counter values give distinct image URLs, so the URLs produced
/// by successive calls are pairwise distinct.
pub proof fn lemma_image_urls_distinct(a: nat, b: nat)
    requires
        a != b,
    ensures
        image_url(a) != image_url(b),
{
    lemma_dec_str_injective(a, b);
    let p = "https://picsum.photos/800/800?"@;
    assert(dec_str(a) =~= (p + dec_str(a)).skip(p.len() as int));
    assert(dec_str(b) =~= (p + dec_str(b)).skip(p.len() as int));
}

} // verus!
