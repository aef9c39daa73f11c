//! Request side of the datagram codec.
//!
//! One request travels per datagram, NUL-terminated:
//! `request := "ping" NUL | "open" SPACE path NUL`.  The separator is a run
//! of one or more spaces or tabs, the path runs to the first NUL, and bytes
//! after the terminator are ignored.  Anything else is malformed and decodes
//! to `None`; the receiver drops it without a reply.

use vstd::prelude::*;
use crate::wire::find_byte;
use crate::wire::find_byte_from;
use crate::wire::is_space_byte;
use crate::wire::lemma_find_byte_at;
use crate::wire::lemma_find_byte_properties;
use crate::wire::lemma_skip_spaces_at;
use crate::wire::lemma_skip_spaces_properties;
use crate::wire::skip_spaces;
use crate::wire::skip_spaces_from;
use crate::wire::copy_range;

verus! {

/// A decoded request datagram.
#[derive(Debug, PartialEq, Eq, Clone)]
pub enum Command {
    Ping,
    Open(Vec<u8>),
}

/// The bytes of a well-formed ping request: `"ping\0"`.
pub open spec fn ping_request_bytes() -> Seq<u8> {
    seq![112u8, 105u8, 110u8, 103u8, 0u8]
}

/// The verb of an open request: `"open"`.
pub open spec fn open_verb_bytes() -> Seq<u8> {
    seq![111u8, 112u8, 101u8, 110u8]
}

/// The datagram begins with `"ping\0"`.
pub open spec fn is_ping_request(s: Seq<u8>) -> bool {
    s.len() >= 5 && s.subrange(0, 5) == ping_request_bytes()
}

/// The datagram begins with `"open"`, a space or tab follows, and a NUL
/// terminator appears somewhere after the separator.
pub open spec fn is_open_request(s: Seq<u8>) -> bool {
    &&& s.len() >= 5
    &&& s.subrange(0, 4) == open_verb_bytes()
    &&& is_space_byte(s[4])
    &&& find_byte(s, 5, 0u8) is Some
}

/// The path an open request carries: the bytes between the separator run
/// and the first NUL terminator.
pub open spec fn open_request_path(s: Seq<u8>) -> Seq<u8>
    recommends
        is_open_request(s),
{
    s.subrange(skip_spaces(s, 4), find_byte(s, 5, 0u8)->Some_0)
}

/// Decode one request datagram.
///
/// A well-formed ping decodes to `Ping`; a well-formed open decodes to
/// `Open` carrying exactly the path between the separators and the NUL;
/// everything else decodes to `None`.
pub fn parse(s: &[u8]) -> (r: Option<Command>)
    ensures
        is_ping_request(s@) ==> r == Some(Command::Ping),
        !is_ping_request(s@) && is_open_request(s@) ==> (r matches Some(Command::Open(p))
            && p@ == open_request_path(s@)),
        !is_ping_request(s@) && !is_open_request(s@) ==> r is None,
{
    if s.len() >= 5 && s[0] == 112 && s[1] == 105 && s[2] == 110 && s[3] == 103 && s[4] == 0 {
        proof {
            assert(s@.subrange(0, 5) =~= ping_request_bytes());
        }
        return Some(Command::Ping);
    }
    proof {
        if is_ping_request(s@) {
            assert(s@.subrange(0, 5)[0] == s@[0]);
            assert(s@.subrange(0, 5)[1] == s@[1]);
            assert(s@.subrange(0, 5)[2] == s@[2]);
            assert(s@.subrange(0, 5)[3] == s@[3]);
            assert(s@.subrange(0, 5)[4] == s@[4]);
        }
    }
    if s.len() >= 5 && s[0] == 111 && s[1] == 112 && s[2] == 101 && s[3] == 110
        && (s[4] == 32 || s[4] == 9) {
        proof {
            assert(s@.subrange(0, 4) =~= open_verb_bytes());
        }
        match find_byte_from(s, 5, 0) {
            Some(n) => {
                let p = skip_spaces_from(s, 4);
                proof {
                    lemma_find_byte_properties(s@, 5, 0u8);
                    lemma_skip_spaces_properties(s@, 4);
                    if p > n {
                        assert(is_space_byte(s@[n as int]));
                    }
                }
                let path = copy_range(s, p, n);
                Some(Command::Open(path))
            },
            None => {
                None
            },
        }
    } else {
        proof {
            if is_open_request(s@) {
                assert(s@.subrange(0, 4)[0] == s@[0]);
                assert(s@.subrange(0, 4)[1] == s@[1]);
                assert(s@.subrange(0, 4)[2] == s@[2]);
                assert(s@.subrange(0, 4)[3] == s@[3]);
            }
        }
        None
    }
}

/// Encode the ping request, `"ping\0"`.
pub fn encode_ping() -> (r: Vec<u8>)
    ensures
        r@ == ping_request_bytes(),
{
    let mut v: Vec<u8> = Vec::new();
    v.push(112);
    v.push(105);
    v.push(110);
    v.push(103);
    v.push(0);
    proof {
        assert(v@ =~= ping_request_bytes());
    }
    v
}

/// The bytes of an encoded open request for `path`: `"open " path "\0"`.
pub open spec fn open_request_bytes(path: Seq<u8>) -> Seq<u8> {
    open_verb_bytes() + seq![32u8] + path + seq![0u8]
}

/// Encode an open request for `path`.
pub fn encode_open(path: &[u8]) -> (r: Vec<u8>)
    ensures
        r@ == open_request_bytes(path@),
{
    let mut v: Vec<u8> = Vec::new();
    v.push(111);
    v.push(112);
    v.push(101);
    v.push(110);
    v.push(32);
    let mut i: usize = 0;
    while i < path.len()
        invariant
            i <= path@.len(),
            v@ == open_verb_bytes() + seq![32u8] + path@.subrange(0, i as int),
        decreases path@.len() - i,
    {
        let b = path[i];
        v.push(b);
        i = i + 1;
        proof {
            assert(v@ =~= open_verb_bytes() + seq![32u8] + path@.subrange(0, i as int));
        }
    }
    v.push(0);
    proof {
        assert(path@.subrange(0, path@.len() as int) =~= path@);
        assert(v@ =~= open_request_bytes(path@));
    }
    v
}

/// Law: an encoded open request decodes back to exactly the path it was
/// built from, provided the path holds no NUL and does not begin with a
/// space or tab (a leading separator would be absorbed into the separator
/// run of the grammar).
pub proof fn lemma_open_round_trip(path: Seq<u8>)
    requires
        forall|j: int| 0 <= j < path.len() ==> path[j] != 0u8,
        path.len() > 0 ==> !is_space_byte(path[0]),
    ensures
        !is_ping_request(open_request_bytes(path)),
        is_open_request(open_request_bytes(path)),
        open_request_path(open_request_bytes(path)) == path,
{
    let s = open_request_bytes(path);
    assert(s.len() == 6 + path.len());
    assert(s[0] == 111u8);
    assert(s[4] == 32u8);
    assert(s[5 + path.len() as int] == 0u8);
    if is_ping_request(s) {
        assert(s.subrange(0, 5)[0] == s[0]);
    }
    assert(s.subrange(0, 4) =~= open_verb_bytes());
    assert forall|j: int| 5 <= j < 5 + path.len() implies s[j] != 0u8 by {
        assert(s[j] == path[j - 5]);
    }
    lemma_find_byte_at(s, 5, 0u8, 5 + path.len() as int);
    if path.len() > 0 {
        assert(s[5] == path[0]);
        lemma_skip_spaces_at(s, 4, 5);
    } else {
        lemma_skip_spaces_at(s, 4, 5);
    }
    assert(s.subrange(5, 5 + path.len() as int) =~= path);
}

/// Law: the encoded ping request is recognized by the request grammar.
pub proof fn lemma_ping_round_trip()
    ensures
        is_ping_request(ping_request_bytes()),
{
    assert(ping_request_bytes().subrange(0, 5) =~= ping_request_bytes());
}

} // verus!
