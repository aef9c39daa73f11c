//! The policy engine: a pure predicate over a requested path.
//!
//! It is the single point consulted before any open or descriptor transfer.
//! The decision itself is swappable: `permitted_under` takes the allowed
//! prefix from the caller, and `permitted` fixes it to the private working
//! directory of the reference configuration.

use vstd::prelude::*;
use crate::wire::is_prefix_of;
use crate::wire::starts_with;

verus! {

/// The policy's verdict on one path.
#[derive(Debug, PartialEq, Eq, Clone, Copy)]
pub enum PolicyAction {
    Allow,
    Deny,
}

/// The working-directory prefix the reference policy allows:
/// `/tmp/sandpit.sandbox`.
pub open spec fn policy_prefix() -> Seq<u8> {
    seq![
        47u8, 116u8, 109u8, 112u8, 47u8, 115u8, 97u8, 110u8, 100u8, 112u8, 105u8, 116u8, 46u8,
        115u8, 97u8, 110u8, 100u8, 98u8, 111u8, 120u8,
    ]
}

/// The reference policy allows a path exactly when the working directory is
/// a literal prefix of it.
pub open spec fn policy_allows(path: Seq<u8>) -> bool {
    is_prefix_of(policy_prefix(), path)
}

/// The allowed prefix in executable form.
pub fn policy_prefix_bytes() -> (r: Vec<u8>)
    ensures
        r@ == policy_prefix(),
{
    let mut v: Vec<u8> = Vec::new();
    v.push(47);
    v.push(116);
    v.push(109);
    v.push(112);
    v.push(47);
    v.push(115);
    v.push(97);
    v.push(110);
    v.push(100);
    v.push(112);
    v.push(105);
    v.push(116);
    v.push(46);
    v.push(115);
    v.push(97);
    v.push(110);
    v.push(100);
    v.push(98);
    v.push(111);
    v.push(120);
    proof {
        assert(v@ =~= policy_prefix());
    }
    v
}

/// Decide under a caller-supplied prefix: the swappable form of the policy.
pub fn permitted_under(prefix: &[u8], filename: &[u8]) -> (r: PolicyAction)
    ensures
        r is Allow <==> is_prefix_of(prefix@, filename@),
{
    if starts_with(filename, prefix) {
        PolicyAction::Allow
    } else {
        PolicyAction::Deny
    }
}

/// The reference policy: allow exactly the paths under the private working
/// directory.
pub fn permitted(filename: &[u8]) -> (r: PolicyAction)
    ensures
        r is Allow <==> policy_allows(filename@),
{
    let prefix = policy_prefix_bytes();
    permitted_under(prefix.as_slice(), filename)
}

/// Law: every path lacking the working-directory prefix is denied.
pub proof fn lemma_deny_outside_workdir(path: Seq<u8>)
    requires
        !is_prefix_of(policy_prefix(), path),
    ensures
        !policy_allows(path),
{
}

} // verus!
