//! Byte-signature scanning: finding where a fixed byte pattern with
//! wildcard positions first occurs in a memory snapshot. The scan is exact
//! at every non-wildcard position, and the lowest matching position wins.

use vstd::prelude::*;

verus! {

/// Whether `pattern` matches `hay` at position `pos`: the whole pattern
/// fits, and every non-wildcard matcher equals the byte under it. A
/// wildcard (`None`) matches any byte.
pub open spec fn matches_at(pattern: Seq<Option<u8>>, hay: Seq<u8>, pos: int) -> bool {
    &&& 0 <= pos
    &&& pos + pattern.len() <= hay.len()
    &&& forall|j: int|
        0 <= j < pattern.len() ==> ((#[trigger] pattern[j]) matches Some(b) ==> hay[pos + j] == b)
}

/// A byte signature: an ordered, immutable sequence of matchers, each an
/// exact byte (`Some`) or a wildcard (`None`).
pub struct Signature {
    matchers: Vec<Option<u8>>,
}

impl View for Signature {
    type V = Seq<Option<u8>>;

    closed spec fn view(&self) -> Seq<Option<u8>> {
        self.matchers@
    }
}

impl Signature {
    /// Builds a signature from its matcher sequence.
    pub fn new(matchers: Vec<Option<u8>>) -> (s: Signature)
        ensures
            s@ == matchers@,
    {
        Signature { matchers }
    }

    /// How many byte positions the signature covers.
    pub fn len(&self) -> (n: usize)
        ensures
            n == self@.len(),
    {
        self.matchers.len()
    }

    /// Whether the signature matches `hay` at position `pos`.
    fn matches_here(&self, hay: &[u8], pos: usize) -> (r: bool)
        requires
            pos + self@.len() <= hay@.len(),
        ensures
            r == matches_at(self@, hay@, pos as int),
    {
        let n = self.matchers.len();
        let hlen = hay.len();
        let mut j: usize = 0;
        while j < n
            invariant
                n == self@.len(),
                hlen == hay@.len(),
                pos + n <= hlen,
                j <= n,
                forall|k: int|
                    0 <= k < j ==> ((#[trigger] self@[k]) matches Some(b) ==> hay@[pos + k] == b),
            decreases n - j,
        {
            match self.matchers[j] {
                Some(b) => {
                    if hay[pos + j] != b {
                        assert(!matches_at(self@, hay@, pos as int));
                        return false;
                    }
                },
                None => {},
            }
            j = j + 1;
        }
        true
    }

    /// Scans `hay` for the signature and returns the lowest matching
    /// position, or `None` when no position matches. This is the whole
    /// contract of the scanner: a returned position matches, every lower
    /// position does not, and a `None` means no position at all matches.
    pub fn scan(&self, hay: &[u8]) -> (r: Option<usize>)
        ensures
            r matches Some(i) ==> {
                &&& matches_at(self@, hay@, i as int)
                &&& forall|k: int| 0 <= k < i ==> !matches_at(self@, hay@, k)
            },
            r is None ==> forall|k: int| !matches_at(self@, hay@, k),
    {
        let n = self.matchers.len();
        let m = hay.len();
        if n > m {
            return None;
        }
        let mut i: usize = 0;
        while i <= m - n
            invariant
                n == self@.len(),
                m == hay@.len(),
                n <= m,
                i <= m - n + 1,
                forall|k: int| 0 <= k < i ==> !matches_at(self@, hay@, k),
            decreases m - n + 1 - i,
        {
            if self.matches_here(hay, i) {
                return Some(i);
            }
            i = i + 1;
        }
        None
    }
}

} // verus!
