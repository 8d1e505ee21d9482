use vstd::prelude::*;

verus! {

/// Why a byte signature could not be built.
#[derive(Debug, Clone, Copy, PartialEq, Eq, Structural)]
pub enum PatternError {
    /// The signature holds no byte at all.
    Empty,
    /// The wildcard mask and the bytes differ in length.
    MaskLengthMismatch,
}

/// A byte signature: each position either must equal its byte (`mask` true)
/// or matches anything (`mask` false).
#[derive(Debug, Clone)]
pub struct Pattern {
    bytes: Vec<u8>,
    mask: Vec<bool>,
}

/// Does `bytes`/`mask` occur in `hay` starting at offset `k`?
pub open spec fn matches_at(hay: Seq<u8>, bytes: Seq<u8>, mask: Seq<bool>, k: int) -> bool {
    &&& 0 <= k
    &&& k + bytes.len() <= hay.len()
    &&& forall|i: int| 0 <= i < bytes.len() && mask[i] ==> #[trigger] hay[k + i] == bytes[i]
}

/// The leftmost offset, at `k` or after, at which the signature occurs.
pub open spec fn first_match_from(hay: Seq<u8>, bytes: Seq<u8>, mask: Seq<bool>, k: int) -> Option<
    int,
>
    decreases hay.len() - k,
{
    if k < 0 || k + bytes.len() > hay.len() {
        None
    } else if matches_at(hay, bytes, mask, k) {
        Some(k)
    } else {
        first_match_from(hay, bytes, mask, k + 1)
    }
}

/// The leftmost offset at which the signature occurs in `hay`.
pub open spec fn first_match(hay: Seq<u8>, bytes: Seq<u8>, mask: Seq<bool>) -> Option<int> {
    first_match_from(hay, bytes, mask, 0)
}

impl Pattern {
    pub closed spec fn bytes_view(&self) -> Seq<u8> {
        self.bytes@
    }

    pub closed spec fn mask_view(&self) -> Seq<bool> {
        self.mask@
    }

    /// One mask entry per byte, and at least one byte.
    pub open spec fn wf(&self) -> bool {
        &&& self.bytes_view().len() > 0
        &&& self.mask_view().len() == self.bytes_view().len()
    }

    /// What `new` rejects `bytes`/`mask` with, if anything.
    pub open spec fn rejection(bytes: Seq<u8>, mask: Seq<bool>) -> Option<PatternError> {
        if bytes.len() == 0 {
            Some(PatternError::Empty)
        } else if mask.len() != bytes.len() {
            Some(PatternError::MaskLengthMismatch)
        } else {
            None
        }
    }

    /// Builds a signature; `mask[i]` says whether `bytes[i]` must match.
    pub fn new(bytes: Vec<u8>, mask: Vec<bool>) -> (r: Result<Pattern, PatternError>)
        ensures
            match Self::rejection(bytes@, mask@) {
                Some(e) => r == Err::<Pattern, PatternError>(e),
                None => r is Ok && r->Ok_0.wf() && r->Ok_0.bytes_view() == bytes@
                    && r->Ok_0.mask_view() == mask@,
            },
    {
        if bytes.len() == 0 {
            Err(PatternError::Empty)
        } else if mask.len() != bytes.len() {
            Err(PatternError::MaskLengthMismatch)
        } else {
            Ok(Pattern { bytes, mask })
        }
    }

    /// Number of positions in the signature.
    pub fn len(&self) -> (r: usize)
        ensures
            r == self.bytes_view().len(),
    {
        self.bytes.len()
    }

    /// The leftmost offset in `self` for this signature.
    pub open spec fn first_in(&self, hay: Seq<u8>) -> Option<int> {
        first_match(hay, self.bytes_view(), self.mask_view())
    }

    /// Finds the lowest offset in `hay` at which every masked byte agrees.
    pub fn find_in(&self, hay: &[u8]) -> (r: Option<usize>)
        requires
            self.wf(),
        ensures
            match r {
                Some(k) => self.first_in(hay@) == Some(k as int) && k + self.bytes_view().len()
                    <= hay@.len(),
                None => self.first_in(hay@) is None,
            },
    {
        find_pattern(hay, &self.bytes, &self.mask)
    }
}

proof fn lemma_skip(hay: Seq<u8>, bytes: Seq<u8>, mask: Seq<bool>, k: int)
    requires
        0 <= k,
        k + bytes.len() <= hay.len(),
        !matches_at(hay, bytes, mask, k),
    ensures
        first_match_from(hay, bytes, mask, k) == first_match_from(hay, bytes, mask, k + 1),
{
}

/// Finds the lowest offset in `hay` at which every position `i` with
/// `mask[i]` holds `bytes[i]`.
pub fn find_pattern(hay: &[u8], bytes: &[u8], mask: &[bool]) -> (r: Option<usize>)
    requires
        bytes@.len() > 0,
        mask@.len() == bytes@.len(),
    ensures
        match r {
            Some(k) => first_match(hay@, bytes@, mask@) == Some(k as int) && k + bytes@.len()
                <= hay@.len(),
            None => first_match(hay@, bytes@, mask@) is None,
        },
{
    let n = hay.len();
    let m = bytes.len();
    if m > n {
        return None;
    }
    let last = n - m;
    let mut k: usize = 0;
    while k <= last
        invariant
            n == hay@.len(),
            m == bytes@.len(),
            m == mask@.len(),
            last == n - m,
            k <= last + 1,
            first_match(hay@, bytes@, mask@) == first_match_from(hay@, bytes@, mask@, k as int),
        decreases last + 1 - k,
    {
        let mut i: usize = 0;
        let mut ok = true;
        while i < m
            invariant
                n == hay@.len(),
                m == bytes@.len(),
                m == mask@.len(),
                k + m <= n,
                i <= m,
                ok == (forall|j: int| 0 <= j < i && mask@[j] ==> #[trigger] hay@[k + j] == bytes@[j]),
            decreases m - i,
        {
            if mask[i] && hay[k + i] != bytes[i] {
                ok = false;
            }
            i = i + 1;
        }
        if ok {
            return Some(k);
        }
        proof {
            lemma_skip(hay@, bytes@, mask@, k as int);
        }
        k = k + 1;
    }
    None
}

proof fn lemma_first_from_is_first(hay: Seq<u8>, bytes: Seq<u8>, mask: Seq<bool>, i: int, k: int)
    requires
        0 <= i <= k,
        matches_at(hay, bytes, mask, k),
        forall|j: int| i <= j < k ==> !matches_at(hay, bytes, mask, j),
    ensures
        first_match_from(hay, bytes, mask, i) == Some(k),
    decreases k - i,
{
    if i < k {
        lemma_first_from_is_first(hay, bytes, mask, i + 1, k);
    }
}

proof fn lemma_first_from_none(hay: Seq<u8>, bytes: Seq<u8>, mask: Seq<bool>, i: int)
    requires
        0 <= i,
        forall|j: int| i <= j ==> !matches_at(hay, bytes, mask, j),
    ensures
        first_match_from(hay, bytes, mask, i) is None,
    decreases hay.len() - i,
{
    if i + bytes.len() <= hay.len() {
        lemma_first_from_none(hay, bytes, mask, i + 1);
    }
}

proof fn lemma_first_from_sound(hay: Seq<u8>, bytes: Seq<u8>, mask: Seq<bool>, i: int)
    requires
        0 <= i,
    ensures
        match first_match_from(hay, bytes, mask, i) {
            Some(r) => i <= r && matches_at(hay, bytes, mask, r) && forall|j: int|
                i <= j < r ==> !matches_at(hay, bytes, mask, j),
            None => forall|j: int| i <= j ==> !matches_at(hay, bytes, mask, j),
        },
    decreases hay.len() - i,
{
    if i + bytes.len() <= hay.len() && !matches_at(hay, bytes, mask, i) {
        lemma_first_from_sound(hay, bytes, mask, i + 1);
    }
}

/// A signature embedded at offset `k` of a buffer, with no match before `k`,
/// is found exactly at `k`.
pub proof fn lemma_embedded_signature_found(hay: Seq<u8>, p: Pattern, k: int)
    requires
        p.wf(),
        matches_at(hay, p.bytes_view(), p.mask_view(), k),
        forall|j: int| 0 <= j < k ==> !matches_at(hay, p.bytes_view(), p.mask_view(), j),
    ensures
        p.first_in(hay) == Some(k),
{
    lemma_first_from_is_first(hay, p.bytes_view(), p.mask_view(), 0, k);
}

/// A signature that occurs at no offset of a buffer is reported as no match.
pub proof fn lemma_absent_signature_not_found(hay: Seq<u8>, p: Pattern)
    requires
        p.wf(),
        forall|j: int| !matches_at(hay, p.bytes_view(), p.mask_view(), j),
    ensures
        p.first_in(hay) is None,
{
    lemma_first_from_none(hay, p.bytes_view(), p.mask_view(), 0);
}

/// Of several occurrences of a signature, the smallest offset is the one reported:
/// the result is an occurrence, and no occurrence lies before it.
pub proof fn lemma_leftmost_occurrence_wins(hay: Seq<u8>, p: Pattern, k1: int, k2: int)
    requires
        p.wf(),
        matches_at(hay, p.bytes_view(), p.mask_view(), k1),
        matches_at(hay, p.bytes_view(), p.mask_view(), k2),
    ensures
        p.first_in(hay) is Some,
        p.first_in(hay)->0 <= k1,
        p.first_in(hay)->0 <= k2,
        matches_at(hay, p.bytes_view(), p.mask_view(), p.first_in(hay)->0),
        forall|j: int|
            0 <= j < p.first_in(hay)->0 ==> !matches_at(hay, p.bytes_view(), p.mask_view(), j),
{
    lemma_first_from_sound(hay, p.bytes_view(), p.mask_view(), 0);
}

} // verus!
