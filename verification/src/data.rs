use vstd::prelude::*;
use vstd::std_specs::cmp::PartialEqSpecImpl;

verus! {

/// The name of a protected resource.
///
/// A key wraps a non-empty string and never changes once made. The same
/// string names the resource to callers and is the primary key of the lock
/// record in the backing store, so two keys stand for the same resource
/// exactly when their strings are equal.
#[derive(Debug, Hash)]
pub struct LockKey(String);

impl View for LockKey {
    type V = Seq<char>;

    closed spec fn view(&self) -> Seq<char> {
        self.0@
    }
}

impl LockKey {
    #[verifier::type_invariant]
    spec fn non_empty(self) -> bool {
        self.0@.len() > 0
    }

    /// Validates `value` as a key: every string but the empty one names a
    /// resource.
    pub fn new(value: String) -> (key: Option<LockKey>)
        ensures
            key is Some <==> value@.len() > 0,
            key matches Some(k) ==> k@ == value@,
    {
        if value.as_str().is_empty() {
            None
        } else {
            Some(LockKey(value))
        }
    }

    /// The string that names the resource.
    pub fn as_str(&self) -> (name: &str)
        ensures
            name@ == self@,
            name@.len() > 0,
    {
        proof {
            use_type_invariant(self);
        }
        self.0.as_str()
    }

    /// The key's string, given up by the key.
    pub fn into_string(self) -> (name: String)
        ensures
            name@ == self@,
            name@.len() > 0,
    {
        proof {
            use_type_invariant(&self);
        }
        self.0
    }
}

impl Clone for LockKey {
    fn clone(&self) -> (copy: LockKey)
        ensures
            copy@ == self@,
    {
        proof {
            use_type_invariant(self);
        }
        LockKey(self.0.clone())
    }
}

impl PartialEq for LockKey {
    fn eq(&self, other: &LockKey) -> (same: bool) {
        self.0 == other.0
    }
}

impl Eq for LockKey {

}

impl PartialEqSpecImpl for LockKey {
    open spec fn obeys_eq_spec() -> bool {
        true
    }

    open spec fn eq_spec(&self, other: &LockKey) -> bool {
        self@ == other@
    }
}

} // verus!
