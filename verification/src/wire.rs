//! Byte-level helpers shared by the datagram codec and the path policy.

use vstd::prelude::*;

verus! {

/// A space or horizontal tab: the separators the request grammar accepts
/// between the verb and its argument.
pub open spec fn is_space_byte(b: u8) -> bool {
    b == 32u8 || b == 9u8
}

/// Index of the first occurrence of `b` at or after `from`, if any.
pub open spec fn find_byte(s: Seq<u8>, from: int, b: u8) -> Option<int>
    decreases s.len() - from,
{
    if from < 0 || from >= s.len() {
        None
    } else if s[from] == b {
        Some(from)
    } else {
        find_byte(s, from + 1, b)
    }
}

/// First index at or after `from` holding a byte other than space or tab,
/// or `s.len()` when spaces and tabs run to the end.
pub open spec fn skip_spaces(s: Seq<u8>, from: int) -> int
    decreases s.len() - from,
{
    if from < 0 || from >= s.len() {
        from
    } else if is_space_byte(s[from]) {
        skip_spaces(s, from + 1)
    } else {
        from
    }
}

/// `p` is a prefix of `s`.
pub open spec fn is_prefix_of(p: Seq<u8>, s: Seq<u8>) -> bool {
    p.len() <= s.len() && s.subrange(0, p.len() as int) == p
}

/// What `find_byte` returns is the first occurrence: before it nothing
/// matches, and a `None` means no byte in range matches.
pub proof fn lemma_find_byte_properties(s: Seq<u8>, from: int, b: u8)
    requires
        0 <= from <= s.len(),
    ensures
        match find_byte(s, from, b) {
            Some(i) => from <= i < s.len() && s[i] == b && forall|j: int|
                from <= j < i ==> s[j] != b,
            None => forall|j: int| from <= j < s.len() ==> s[j] != b,
        },
    decreases s.len() - from,
{
    if from < s.len() && s[from] != b {
        lemma_find_byte_properties(s, from + 1, b);
    }
}

/// Conversely, the first occurrence determines `find_byte`.
pub proof fn lemma_find_byte_at(s: Seq<u8>, from: int, b: u8, i: int)
    requires
        0 <= from <= i < s.len(),
        s[i] == b,
        forall|j: int| from <= j < i ==> s[j] != b,
    ensures
        find_byte(s, from, b) == Some(i),
    decreases i - from,
{
    if from < i {
        lemma_find_byte_at(s, from + 1, b, i);
    }
}

/// No occurrence in range determines a `None` from `find_byte`.
pub proof fn lemma_find_byte_none(s: Seq<u8>, from: int, b: u8)
    requires
        0 <= from <= s.len(),
        forall|j: int| from <= j < s.len() ==> s[j] != b,
    ensures
        find_byte(s, from, b) is None,
    decreases s.len() - from,
{
    if from < s.len() {
        lemma_find_byte_none(s, from + 1, b);
    }
}

/// `skip_spaces` lands on the first non-separator byte.
pub proof fn lemma_skip_spaces_properties(s: Seq<u8>, from: int)
    requires
        0 <= from <= s.len(),
    ensures
        from <= skip_spaces(s, from) <= s.len(),
        forall|j: int| from <= j < skip_spaces(s, from) ==> is_space_byte(s[j]),
        skip_spaces(s, from) < s.len() ==> !is_space_byte(s[skip_spaces(s, from)]),
    decreases s.len() - from,
{
    if from < s.len() && is_space_byte(s[from]) {
        lemma_skip_spaces_properties(s, from + 1);
    }
}

/// Conversely, the first non-separator position determines `skip_spaces`.
pub proof fn lemma_skip_spaces_at(s: Seq<u8>, from: int, p: int)
    requires
        0 <= from <= p <= s.len(),
        forall|j: int| from <= j < p ==> is_space_byte(s[j]),
        p < s.len() ==> !is_space_byte(s[p]),
    ensures
        skip_spaces(s, from) == p,
    decreases p - from,
{
    if from < p {
        lemma_skip_spaces_at(s, from + 1, p);
    }
}

/// Locate the first occurrence of `b` at or after `from`.
pub fn find_byte_from(s: &[u8], from: usize, b: u8) -> (r: Option<usize>)
    requires
        from <= s@.len(),
    ensures
        match r {
            Some(i) => from <= i < s@.len() && find_byte(s@, from as int, b) == Some(i as int),
            None => find_byte(s@, from as int, b) is None,
        },
{
    let mut i: usize = from;
    while i < s.len()
        invariant
            from <= i <= s@.len(),
            forall|j: int| from <= j < i ==> s@[j] != b,
        decreases s@.len() - i,
    {
        if s[i] == b {
            proof {
                lemma_find_byte_at(s@, from as int, b, i as int);
            }
            return Some(i);
        }
        i = i + 1;
    }
    proof {
        lemma_find_byte_none(s@, from as int, b);
    }
    None
}

/// Step past the run of spaces and tabs beginning at `from`.
pub fn skip_spaces_from(s: &[u8], from: usize) -> (r: usize)
    requires
        from <= s@.len(),
    ensures
        r == skip_spaces(s@, from as int),
        from <= r <= s@.len(),
{
    let mut i: usize = from;
    while i < s.len()
        invariant
            from <= i <= s@.len(),
            forall|j: int| from <= j < i ==> is_space_byte(s@[j]),
        decreases s@.len() - i,
    {
        if !(s[i] == 32 || s[i] == 9) {
            proof {
                lemma_skip_spaces_at(s@, from as int, i as int);
            }
            return i;
        }
        i = i + 1;
    }
    proof {
        lemma_skip_spaces_at(s@, from as int, s@.len() as int);
    }
    i
}

/// Copy the bytes of `s` in `[from, to)` into a fresh vector.
pub fn copy_range(s: &[u8], from: usize, to: usize) -> (r: Vec<u8>)
    requires
        from <= to <= s@.len(),
    ensures
        r@ == s@.subrange(from as int, to as int),
{
    let mut v: Vec<u8> = Vec::new();
    let mut i: usize = from;
    while i < to
        invariant
            from <= i <= to <= s@.len(),
            v@ == s@.subrange(from as int, i as int),
        decreases to - i,
    {
        let b = s[i];
        v.push(b);
        i = i + 1;
        proof {
            assert(v@ =~= s@.subrange(from as int, i as int));
        }
    }
    v
}

/// Whether `s` begins with the bytes of `p`.
pub fn starts_with(s: &[u8], p: &[u8]) -> (r: bool)
    ensures
        r == is_prefix_of(p@, s@),
{
    if p.len() > s.len() {
        return false;
    }
    let mut i: usize = 0;
    while i < p.len()
        invariant
            i <= p.len() <= s.len(),
            forall|j: int| 0 <= j < i ==> s@[j] == p@[j],
        decreases p.len() - i,
    {
        if s[i] != p[i] {
            proof {
                assert(s@.subrange(0, p@.len() as int)[i as int] != p@[i as int]);
            }
            return false;
        }
        i = i + 1;
    }
    proof {
        assert(s@.subrange(0, p@.len() as int) =~= p@);
    }
    true
}

} // verus!
