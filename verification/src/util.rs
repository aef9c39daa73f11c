//! Byte-rendering utilities around the working directory's artifacts.

use vstd::prelude::*;
use crate::policy::policy_allows;
use crate::policy::policy_prefix;
use crate::wire::find_byte;
use crate::wire::find_byte_from;
use crate::wire::copy_range;

verus! {

/// Content of a marker file: `flag{`, the value, `}`, a newline.
pub open spec fn flag_content_bytes(value: Seq<u8>) -> Seq<u8> {
    seq![102u8, 108u8, 97u8, 103u8, 123u8] + value + seq![125u8, 10u8]
}

/// Render the content of a marker file for `value`.
pub fn flag_content(value: &[u8]) -> (r: Vec<u8>)
    ensures
        r@ == flag_content_bytes(value@),
{
    let mut v: Vec<u8> = Vec::new();
    v.push(102);
    v.push(108);
    v.push(97);
    v.push(103);
    v.push(123);
    let mut i: usize = 0;
    while i < value.len()
        invariant
            i <= value@.len(),
            v@ == seq![102u8, 108u8, 97u8, 103u8, 123u8] + value@.subrange(0, i as int),
        decreases value@.len() - i,
    {
        let b = value[i];
        v.push(b);
        i = i + 1;
        proof {
            assert(v@ =~= seq![102u8, 108u8, 97u8, 103u8, 123u8] + value@.subrange(0, i as int));
        }
    }
    v.push(125);
    v.push(10);
    proof {
        assert(value@.subrange(0, value@.len() as int) =~= value@);
        assert(v@ =~= flag_content_bytes(value@));
    }
    v
}

/// A directory and a name joined with one separator.
pub open spec fn joined_path_bytes(dir: Seq<u8>, name: Seq<u8>) -> Seq<u8> {
    dir + seq![47u8] + name
}

/// Join a directory and a name with one separator.
pub fn join_path(dir: &[u8], name: &[u8]) -> (r: Vec<u8>)
    ensures
        r@ == joined_path_bytes(dir@, name@),
{
    let mut v = copy_range(dir, 0, dir.len());
    proof {
        assert(dir@.subrange(0, dir@.len() as int) =~= dir@);
    }
    v.push(47);
    let mut i: usize = 0;
    while i < name.len()
        invariant
            i <= name@.len(),
            v@ == dir@ + seq![47u8] + name@.subrange(0, i as int),
        decreases name@.len() - i,
    {
        let b = name[i];
        v.push(b);
        i = i + 1;
        proof {
            assert(v@ =~= dir@ + seq![47u8] + name@.subrange(0, i as int));
        }
    }
    proof {
        assert(name@.subrange(0, name@.len() as int) =~= name@);
        assert(v@ =~= joined_path_bytes(dir@, name@));
    }
    v
}

/// The readable portion of a link buffer: the bytes before the first NUL,
/// or the whole buffer when none occurs.
pub open spec fn until_nul(s: Seq<u8>) -> Seq<u8> {
    match find_byte(s, 0, 0u8) {
        Some(i) => s.subrange(0, i),
        None => s,
    }
}

/// Cut a buffer at its first NUL.
pub fn truncate_at_nul(buf: &[u8]) -> (r: Vec<u8>)
    ensures
        r@ == until_nul(buf@),
{
    match find_byte_from(buf, 0, 0) {
        Some(i) => copy_range(buf, 0, i),
        None => {
            let r = copy_range(buf, 0, buf.len());
            proof {
                assert(buf@.subrange(0, buf@.len() as int) =~= buf@);
            }
            r
        },
    }
}

/// Law: any name joined under the working directory is allowed by the
/// reference policy.
pub proof fn lemma_workdir_children_allowed(name: Seq<u8>)
    ensures
        policy_allows(joined_path_bytes(policy_prefix(), name)),
{
    let p = joined_path_bytes(policy_prefix(), name);
    assert(p.subrange(0, policy_prefix().len() as int) =~= policy_prefix());
}

} // verus!
