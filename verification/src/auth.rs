//! The authorization capability of the execution environment.

use vstd::prelude::*;

use crate::address::Address;
use crate::errors::TokenError;

verus! {

/// Answers, for the current invocation, whether an address has authorized
/// the call.
///
/// Authorization is an opaque capability of the surrounding execution
/// environment: the core never learns how consent was proven, only which
/// addresses carry it. The environment builds one gate per invocation and
/// grants it the addresses whose consent the invocation carries; a test
/// environment does the same by hand.
pub struct AuthorizationGate {
    authorized: Vec<Address>,
}

impl AuthorizationGate {
    /// Whether `a` has authorized the current call.
    pub closed spec fn spec_authorized(&self, a: Address) -> bool {
        self.authorized@.contains(a)
    }

    /// A gate that carries no authorizations.
    pub fn new() -> (r: AuthorizationGate)
        ensures
            forall|a: Address| !r.spec_authorized(a),
    {
        AuthorizationGate { authorized: Vec::new() }
    }

    /// Records that `a` authorized the current call.
    pub fn grant(&mut self, a: Address)
        ensures
            forall|b: Address|
                final(self).spec_authorized(b) <==> old(self).spec_authorized(b) || b == a,
    {
        self.authorized.push(a);
        proof {
            assert forall|b: Address|
                self.spec_authorized(b) <==> old(self).spec_authorized(b) || b == a by {
                if old(self).spec_authorized(b) {
                    let i = choose|i: int|
                        0 <= i < old(self).authorized@.len() && old(self).authorized@[i] == b;
                    assert(self.authorized@[i] == b);
                }
                if b == a {
                    assert(self.authorized@.last() == a);
                }
                if self.spec_authorized(b) {
                    let i = choose|i: int|
                        0 <= i < self.authorized@.len() && self.authorized@[i] == b;
                    if i < old(self).authorized@.len() {
                        assert(old(self).authorized@[i] == b);
                    }
                }
            }
        }
    }

    /// Succeeds exactly when `a` authorized the current call; otherwise the
    /// operation is refused with [`TokenError::Unauthorized`].
    pub fn require_authorized(&self, a: Address) -> (r: Result<(), TokenError>)
        ensures
            r is Ok <==> self.spec_authorized(a),
            r is Err ==> r == Err::<(), TokenError>(TokenError::Unauthorized),
    {
        let n = self.authorized.len();
        let mut i: usize = 0;
        while i < n
            invariant
                n == self.authorized@.len(),
                i <= n,
                forall|j: int| 0 <= j < i ==> self.authorized@[j] != a,
            decreases n - i,
        {
            if self.authorized[i] == a {
                return Ok(());
            }
            i += 1;
        }
        Err(TokenError::Unauthorized)
    }
}

} // verus!
