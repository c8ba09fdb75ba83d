//! Identifiers of authentication schemes.

use vstd::prelude::*;
use vstd::std_specs::cmp::PartialEqSpecImpl;
use vstd::string::StringSliceAdditionalSpecFns;
use vstd::utf8::encode_utf8_decode_utf8;

verus! {

/// Names an authentication scheme, such as a request-signing scheme or a
/// bearer-token scheme.
///
/// Two identifiers are the same scheme exactly when their names are the same
/// text; no order is defined on them.
#[derive(Clone, Copy, Debug)]
pub struct AuthSchemeId {
    scheme_id: &'static str,
}

impl View for AuthSchemeId {
    type V = Seq<char>;

    /// The name of the scheme.
    closed spec fn view(&self) -> Seq<char> {
        self.scheme_id@
    }
}

/// Whether two strings hold the same text.
fn same_text(left: &str, right: &str) -> (same: bool)
    ensures
        same == (left@ == right@),
{
    let a = left.as_bytes();
    let b = right.as_bytes();
    proof {
        // The encoding can be undone, so equal bytes come from equal text.
        encode_utf8_decode_utf8(left@);
        encode_utf8_decode_utf8(right@);
    }
    if a.len() != b.len() {
        return false;
    }
    let mut i: usize = 0;
    while i < a.len()
        invariant
            i <= a.len(),
            a.len() == b.len(),
            a@ == left.spec_bytes(),
            b@ == right.spec_bytes(),
            forall|k: int| 0 <= k < i ==> a@[k] == b@[k],
        decreases a.len() - i,
    {
        if a[i] != b[i] {
            return false;
        }
        i += 1;
    }
    assert(a@ =~= b@);
    true
}

impl AuthSchemeId {
    /// The identifier of the scheme called `scheme_id`.
    pub fn new(scheme_id: &'static str) -> (id: Self)
        ensures
            id@ == scheme_id@,
    {
        AuthSchemeId { scheme_id }
    }

    /// The name of the scheme.
    pub fn as_str(&self) -> (name: &'static str)
        ensures
            name@ == self@,
    {
        self.scheme_id
    }
}

impl PartialEq for AuthSchemeId {
    fn eq(&self, other: &Self) -> (same: bool) {
        same_text(self.scheme_id, other.scheme_id)
    }
}

impl Eq for AuthSchemeId {

}

impl PartialEqSpecImpl for AuthSchemeId {
    open spec fn obeys_eq_spec() -> bool {
        true
    }

    open spec fn eq_spec(&self, other: &Self) -> bool {
        self@ == other@
    }
}

} // verus!
