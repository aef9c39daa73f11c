//! Response side of the datagram codec: `response := "pong" NUL`.
//!
//! A reply is affirmative only when the datagram is exactly `"pong\0"`;
//! anything else, a trailing byte included, is malformed and decodes to
//! `None` without a panic.

use vstd::prelude::*;

verus! {

/// The bytes of the well-formed pong response: `"pong\0"`.
pub open spec fn pong_response_bytes() -> Seq<u8> {
    seq![112u8, 111u8, 110u8, 103u8, 0u8]
}

/// The datagram is exactly `"pong\0"`.
pub open spec fn is_pong_response(s: Seq<u8>) -> bool {
    s == pong_response_bytes()
}

/// Decode one response datagram.
pub fn parse(s: &[u8]) -> (r: Option<()>)
    ensures
        r is Some <==> is_pong_response(s@),
{
    if s.len() == 5 && s[0] == 112 && s[1] == 111 && s[2] == 110 && s[3] == 103 && s[4] == 0 {
        proof {
            assert(s@ =~= pong_response_bytes());
        }
        Some(())
    } else {
        proof {
            if is_pong_response(s@) {
                assert(s@[0] == 112u8 && s@[1] == 111u8 && s@[2] == 110u8 && s@[3] == 103u8
                    && s@[4] == 0u8);
            }
        }
        None
    }
}

/// Encode the pong response.
pub fn encode_pong() -> (r: Vec<u8>)
    ensures
        r@ == pong_response_bytes(),
{
    let mut v: Vec<u8> = Vec::new();
    v.push(112);
    v.push(111);
    v.push(110);
    v.push(103);
    v.push(0);
    proof {
        assert(v@ =~= pong_response_bytes());
    }
    v
}

/// Law: the encoded pong reply is precisely what the response grammar
/// accepts, so a well-formed exchange always reads as affirmative.
pub proof fn lemma_pong_round_trip()
    ensures
        is_pong_response(pong_response_bytes()),
{
}

} // verus!
