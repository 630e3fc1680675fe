use crate::data::LockKey;
use vstd::prelude::*;
use vstd::std_specs::cmp::PartialEqSpecImpl;
use vstd::string::StringExecFns;

verus! {

/// Why a lock operation did not succeed.
///
/// Callers tell the kinds apart by matching on the variant, never by reading
/// a message: `AlreadyLocked` is worth a retry, `AccessError` is not retried
/// by this library.
#[derive(Debug)]
pub enum LockerError {
    /// A bounded wait used up its budget without acquiring the lock.
    Timeout,
    /// The acquisition's precondition failed: the resource is held, or is not
    /// in the state that a second claim asks for.
    AlreadyLocked(LockKey),
    /// The release found no lock record.
    AlreadyUnlocked(LockKey),
    /// The release may have found no lock record.
    MaybeAlreadyUnlocked(LockKey),
    /// The backing store could not be reached, or failed for a reason other
    /// than the conditional check; the store's message is kept.
    AccessError(String),
}

/// What an error is, with strings as sequences of characters.
pub enum LockerErrorView {
    Timeout,
    AlreadyLocked(Seq<char>),
    AlreadyUnlocked(Seq<char>),
    MaybeAlreadyUnlocked(Seq<char>),
    AccessError(Seq<char>),
}

impl View for LockerError {
    type V = LockerErrorView;

    open spec fn view(&self) -> LockerErrorView {
        match self {
            LockerError::Timeout => LockerErrorView::Timeout,
            LockerError::AlreadyLocked(key) => LockerErrorView::AlreadyLocked(key@),
            LockerError::AlreadyUnlocked(key) => LockerErrorView::AlreadyUnlocked(key@),
            LockerError::MaybeAlreadyUnlocked(key) => LockerErrorView::MaybeAlreadyUnlocked(key@),
            LockerError::AccessError(message) => LockerErrorView::AccessError(message@),
        }
    }
}

/// The text that `Debug` gives for a string: the string in double quotes,
/// with the characters that would not print as themselves escaped.
pub uninterp spec fn debug_text(s: Seq<char>) -> Seq<char>;

/// The `Debug` text of `s`, as std's `Debug` for `str` writes it through
/// `format!("{:?}", s)`. The text depends on the characters of `s` alone.
#[verifier::external_body]
fn debug_string(s: &str) -> (text: String)
    ensures
        text@ == debug_text(s@),
{
    format!("{:?}", s)
}

impl LockerErrorView {
    /// The string that the error holds: the key's string or the store's
    /// message, and no character for a timeout.
    pub open spec fn content(self) -> Seq<char> {
        match self {
            LockerErrorView::Timeout => Seq::empty(),
            LockerErrorView::AlreadyLocked(key) => key,
            LockerErrorView::AlreadyUnlocked(key) => key,
            LockerErrorView::MaybeAlreadyUnlocked(key) => key,
            LockerErrorView::AccessError(message) => message,
        }
    }

    /// The text of the error around `quoted`, which stands where the
    /// `Debug` text of the string that the error holds belongs: the
    /// variant's name and, in round brackets, what the variant holds.
    pub open spec fn message_around(self, quoted: Seq<char>) -> Seq<char> {
        match self {
            LockerErrorView::Timeout => "Timeout"@,
            LockerErrorView::AlreadyLocked(_) => "AlreadyLocked(LockKey("@ + quoted + "))"@,
            LockerErrorView::AlreadyUnlocked(_) => "AlreadyUnlocked(LockKey("@ + quoted + "))"@,
            LockerErrorView::MaybeAlreadyUnlocked(_) => "MaybeAlreadyUnlocked(LockKey("@ + quoted
                + "))"@,
            LockerErrorView::AccessError(_) => "AccessError("@ + quoted + ")"@,
        }
    }

    /// The text of the error, which is what `Debug` writes for it: for an
    /// access error that holds `x`, the text `AccessError("x")`.
    pub open spec fn message(self) -> Seq<char> {
        self.message_around(debug_text(self.content()))
    }
}

/// `before`, then `quoted`, then `after`.
fn around(before: &str, quoted: &str, after: &str) -> (text: String)
    ensures
        text@ == before@ + quoted@ + after@,
{
    String::from_str(before).concat(quoted).concat(after)
}

impl LockerError {
    /// The text of the error around `quoted`, which stands where the
    /// `Debug` text of the string that the error holds belongs.
    pub fn message_around(&self, quoted: &str) -> (text: String)
        ensures
            text@ == self@.message_around(quoted@),
    {
        match self {
            LockerError::Timeout => String::from_str("Timeout"),
            LockerError::AlreadyLocked(_) => around("AlreadyLocked(LockKey(", quoted, "))"),
            LockerError::AlreadyUnlocked(_) => around("AlreadyUnlocked(LockKey(", quoted, "))"),
            LockerError::MaybeAlreadyUnlocked(_) => around(
                "MaybeAlreadyUnlocked(LockKey(",
                quoted,
                "))",
            ),
            LockerError::AccessError(_) => around("AccessError(", quoted, ")"),
        }
    }

    /// The error as text, for people to read: what `Debug` writes for it.
    pub fn message(&self) -> (text: String)
        ensures
            text@ == self@.message(),
    {
        match self {
            LockerError::Timeout => self.message_around(""),
            LockerError::AlreadyLocked(key) => {
                let quoted = debug_string(key.as_str());
                self.message_around(quoted.as_str())
            },
            LockerError::AlreadyUnlocked(key) => {
                let quoted = debug_string(key.as_str());
                self.message_around(quoted.as_str())
            },
            LockerError::MaybeAlreadyUnlocked(key) => {
                let quoted = debug_string(key.as_str());
                self.message_around(quoted.as_str())
            },
            LockerError::AccessError(message) => {
                let quoted = debug_string(message.as_str());
                self.message_around(quoted.as_str())
            },
        }
    }
}

impl Clone for LockerError {
    fn clone(&self) -> (copy: LockerError)
        ensures
            copy@ == self@,
    {
        match self {
            LockerError::Timeout => LockerError::Timeout,
            LockerError::AlreadyLocked(key) => LockerError::AlreadyLocked(key.clone()),
            LockerError::AlreadyUnlocked(key) => LockerError::AlreadyUnlocked(key.clone()),
            LockerError::MaybeAlreadyUnlocked(key) => LockerError::MaybeAlreadyUnlocked(
                key.clone(),
            ),
            LockerError::AccessError(message) => LockerError::AccessError(message.clone()),
        }
    }
}

impl PartialEq for LockerError {
    fn eq(&self, other: &LockerError) -> (same: bool) {
        match (self, other) {
            (LockerError::Timeout, LockerError::Timeout) => true,
            (LockerError::AlreadyLocked(a), LockerError::AlreadyLocked(b)) => *a == *b,
            (LockerError::AlreadyUnlocked(a), LockerError::AlreadyUnlocked(b)) => *a == *b,
            (LockerError::MaybeAlreadyUnlocked(a), LockerError::MaybeAlreadyUnlocked(b)) => *a
                == *b,
            (LockerError::AccessError(a), LockerError::AccessError(b)) => *a == *b,
            _ => false,
        }
    }
}

impl Eq for LockerError {

}

impl PartialEqSpecImpl for LockerError {
    open spec fn obeys_eq_spec() -> bool {
        true
    }

    open spec fn eq_spec(&self, other: &LockerError) -> bool {
        self@ == other@
    }
}

} // verus!
