//! The broker's dispatch rules.
//!
//! Each received datagram maps to exactly one reaction — one reply, one
//! attempted open, or a silent drop — and never to more than one send.  The
//! socket work around these decisions lives outside the library.

use vstd::prelude::*;
use crate::policy::PolicyAction;
use crate::policy::permitted;
use crate::policy::policy_allows;
use crate::request::Command;
use crate::request::is_open_request;
use crate::request::is_ping_request;
use crate::request::open_request_path;
use crate::request::parse;
use crate::request::lemma_open_round_trip;
use crate::request::open_request_bytes;
use crate::response::is_pong_response;
use crate::response::pong_response_bytes;
use crate::util::joined_path_bytes;
use crate::util::lemma_workdir_children_allowed;
use crate::policy::policy_prefix;
use crate::wire::is_space_byte;
use crate::wire::lemma_find_byte_properties;
use crate::wire::copy_range;

verus! {

/// Length of the fixed receive buffer.  A datagram longer than this is
/// truncated by the transport before dispatch ever sees it.
pub const RECV_BUF_LEN: usize = 64;

/// What the broker does with one received datagram.
#[derive(Debug, PartialEq, Eq, Clone)]
pub enum Reaction {
    /// Reply with the encoded pong.
    Pong,
    /// The policy allowed the request: open this path read-only and
    /// transfer the descriptor, or send the denial marker if the open fails.
    OpenFile(Vec<u8>),
    /// The policy refused the request: send the denial marker.
    Denial,
    /// Malformed datagram: drop it and send nothing.
    Ignore,
}

/// The mathematical mirror of `Reaction`.
pub enum ReactionModel {
    Pong,
    OpenFile(Seq<u8>),
    Denial,
    Ignore,
}

impl View for Reaction {
    type V = ReactionModel;

    open spec fn view(&self) -> ReactionModel {
        match self {
            Reaction::Pong => ReactionModel::Pong,
            Reaction::OpenFile(p) => ReactionModel::OpenFile(p@),
            Reaction::Denial => ReactionModel::Denial,
            Reaction::Ignore => ReactionModel::Ignore,
        }
    }
}

/// The dispatch rule: a ping begets a pong; a well-formed open is put to the
/// policy, a refusal is signalled at once and an allowed path is attempted;
/// anything malformed is dropped.
pub open spec fn dispatch_model(s: Seq<u8>) -> ReactionModel {
    if is_ping_request(s) {
        ReactionModel::Pong
    } else if is_open_request(s) {
        if policy_allows(open_request_path(s)) {
            ReactionModel::OpenFile(open_request_path(s))
        } else {
            ReactionModel::Denial
        }
    } else {
        ReactionModel::Ignore
    }
}

/// Choose the reaction to one received datagram under the reference policy.
pub fn dispatch(message: &[u8]) -> (r: Reaction)
    ensures
        r@ == dispatch_model(message@),
{
    match parse(message) {
        Some(Command::Ping) => Reaction::Pong,
        Some(Command::Open(path)) => {
            match permitted(path.as_slice()) {
                PolicyAction::Allow => Reaction::OpenFile(path),
                PolicyAction::Deny => Reaction::Denial,
            }
        },
        None => Reaction::Ignore,
    }
}

/// The broker's turn state: one reusable receive slot, filled by one
/// datagram and emptied by the turn that answers it.  The loop around it
/// suspends while idle and dispatches one datagram per turn.
pub struct ServerCore {
    pending: Option<Vec<u8>>,
}

impl ServerCore {
    /// The slot's content, as the datagram's bytes.
    pub closed spec fn pending_view(&self) -> Option<Seq<u8>> {
        match self.pending {
            Some(m) => Some(m@),
            None => None,
        }
    }

    /// A fresh server holds no pending datagram.
    pub fn new() -> (s: Self)
        ensures
            s.pending_view() is None,
    {
        ServerCore { pending: None }
    }

    /// Whether the slot is empty and the server ready for a datagram.
    pub fn is_idle(&self) -> (r: bool)
        ensures
            r == (self.pending_view() is None),
    {
        self.pending.is_none()
    }

    /// One received datagram fills the empty slot.
    pub fn receive(&mut self, message: Vec<u8>)
        requires
            old(self).pending_view() is None,
        ensures
            final(self).pending_view() == Some(message@),
    {
        self.pending = Some(message);
    }

    /// Take one turn: dispatch the pending datagram, if any, and clear the
    /// slot.  Whatever the reaction, the state after the turn equals the
    /// state before the datagram arrived, so repeated pings are idempotent
    /// in the observable turn state.
    pub fn take_turn(&mut self) -> (r: Option<Reaction>)
        ensures
            final(self).pending_view() is None,
            old(self).pending_view() matches Some(m) ==> (r matches Some(a) && a@
                == dispatch_model(m)),
            old(self).pending_view() is None ==> r is None,
    {
        let r = match &self.pending {
            Some(m) => Some(dispatch(m.as_slice())),
            None => None,
        };
        self.pending = None;
        r
    }
}

/// What the broker sends after attempting an allowed open.  A failed open
/// and a policy refusal are indistinguishable on the wire by design: both
/// surface as the denial marker.
#[derive(Debug, PartialEq, Eq, Clone, Copy)]
pub enum OpenOutcome {
    SendDescriptor,
    SendDenial,
}

/// Conclude an allowed open from whether the file could be opened.
pub fn conclude_open(opened: bool) -> (r: OpenOutcome)
    ensures
        opened <==> r is SendDescriptor,
{
    if opened {
        OpenOutcome::SendDescriptor
    } else {
        OpenOutcome::SendDenial
    }
}

/// The portion of a datagram that survives the fixed receive buffer: the
/// first `RECV_BUF_LEN` bytes, or the whole datagram when shorter.
pub open spec fn received_view(datagram: Seq<u8>) -> Seq<u8> {
    if datagram.len() <= RECV_BUF_LEN {
        datagram
    } else {
        datagram.take(RECV_BUF_LEN as int)
    }
}

/// Model of receiving into the fixed buffer: bytes past `RECV_BUF_LEN` are
/// cut off, and nothing else changes.
pub fn clamp_to_buffer(datagram: &[u8]) -> (r: Vec<u8>)
    ensures
        r@ == received_view(datagram@),
{
    let n = if datagram.len() <= RECV_BUF_LEN {
        datagram.len()
    } else {
        RECV_BUF_LEN
    };
    let r = copy_range(datagram, 0, n);
    proof {
        assert(datagram@.subrange(0, n as int) =~= received_view(datagram@));
    }
    r
}

/// How many datagrams a reaction sends back.
pub open spec fn reply_count(r: ReactionModel) -> nat {
    match r {
        ReactionModel::Pong => 1,
        ReactionModel::OpenFile(_) => 1,
        ReactionModel::Denial => 1,
        ReactionModel::Ignore => 0,
    }
}

/// The two request forms never overlap: no datagram is both a ping and an
/// open.
pub proof fn lemma_forms_disjoint(s: Seq<u8>)
    ensures
        !(is_ping_request(s) && is_open_request(s)),
{
    if is_ping_request(s) && is_open_request(s) {
        assert(s.subrange(0, 5)[0] == s[0]);
        assert(s.subrange(0, 4)[0] == s[0]);
    }
}

/// Law: dispatch never answers one datagram with more than one reply.
pub proof fn lemma_at_most_one_reply(s: Seq<u8>)
    ensures
        reply_count(dispatch_model(s)) <= 1,
{
}

/// Law: a ping datagram is always answered with the pong reply, and with
/// nothing else.
pub proof fn lemma_ping_pong(s: Seq<u8>)
    requires
        is_ping_request(s),
    ensures
        dispatch_model(s) == ReactionModel::Pong,
        reply_count(dispatch_model(s)) == 1,
{
}

/// Law: dispatch is a pure function of the datagram alone, so repeated
/// pings produce identical reactions and leave nothing behind between
/// datagrams.
pub proof fn lemma_ping_idempotent(s1: Seq<u8>, s2: Seq<u8>)
    requires
        is_ping_request(s1),
        is_ping_request(s2),
    ensures
        dispatch_model(s1) == dispatch_model(s2),
        dispatch_model(s1) == ReactionModel::Pong,
{
}

/// Law: a malformed datagram — one neither request form accepts — is
/// dropped with no reply at all.
pub proof fn lemma_malformed_dropped(s: Seq<u8>)
    requires
        !is_ping_request(s),
        !is_open_request(s),
    ensures
        dispatch_model(s) == ReactionModel::Ignore,
        reply_count(dispatch_model(s)) == 0,
{
}

/// Law: a datagram with no NUL terminator anywhere matches neither request
/// form, so it is dropped with no reply.
pub proof fn lemma_unterminated_dropped(s: Seq<u8>)
    requires
        forall|j: int| 0 <= j < s.len() ==> s[j] != 0u8,
    ensures
        dispatch_model(s) == ReactionModel::Ignore,
{
    if is_ping_request(s) {
        assert(s.subrange(0, 5)[4] == s[4]);
    }
    if is_open_request(s) {
        lemma_find_byte_properties(s, 5, 0u8);
    }
}

/// Law: an open whose path escapes the working directory is answered with
/// the denial marker, never with an attempted open.
pub proof fn lemma_denied_path_never_opened(s: Seq<u8>)
    requires
        is_open_request(s),
        !policy_allows(open_request_path(s)),
    ensures
        dispatch_model(s) == ReactionModel::Denial,
{
    lemma_forms_disjoint(s);
}

/// Law: an allowed open is attempted with exactly the requested path, so
/// the descriptor the broker transfers is for the file the sandbox named.
pub proof fn lemma_allowed_path_opened(s: Seq<u8>)
    requires
        is_open_request(s),
        policy_allows(open_request_path(s)),
    ensures
        dispatch_model(s) == ReactionModel::OpenFile(open_request_path(s)),
{
    lemma_forms_disjoint(s);
}

/// Law: a ping exchange is always affirmative: every ping datagram draws
/// the pong reaction, and the encoded pong reply is exactly what the
/// response grammar accepts.
pub proof fn lemma_ping_exchange_affirmative(s: Seq<u8>)
    requires
        is_ping_request(s),
    ensures
        dispatch_model(s) == ReactionModel::Pong,
        is_pong_response(pong_response_bytes()),
{
}

/// Law: a request encoded for any name under the working directory — the
/// name free of NUL bytes — is dispatched to an attempted open of exactly
/// that joined path.
pub proof fn lemma_workdir_request_round_trip(name: Seq<u8>)
    requires
        forall|j: int| 0 <= j < name.len() ==> name[j] != 0u8,
    ensures
        dispatch_model(open_request_bytes(joined_path_bytes(policy_prefix(), name)))
            == ReactionModel::OpenFile(joined_path_bytes(policy_prefix(), name)),
{
    let prefix = policy_prefix();
    let path = joined_path_bytes(prefix, name);
    assert forall|j: int| 0 <= j < path.len() implies path[j] != 0u8 by {
        if j < prefix.len() {
            assert(path[j] == prefix[j]);
        } else if j == prefix.len() {
            assert(path[j] == 47u8);
        } else {
            assert(path[j] == name[j - prefix.len() - 1]);
        }
    }
    assert(path[0] == prefix[0]);
    assert(!is_space_byte(path[0]));
    lemma_open_round_trip(path);
    lemma_workdir_children_allowed(name);
    lemma_allowed_path_opened(open_request_bytes(path));
}

} // verus!
