//! The allow-list that decides which targets may be probed.

use crate::text::{chars_of, contains_chars, join, joined, occurs_in};
use vstd::prelude::*;

verus! {

/// The only domain that the stock policy permits.
pub const ALLOWED_DOMAIN: &'static str = "www.google.com";

/// How the message of a refusal begins.
pub const VIOLATION_PREFIX: &'static str = "Security Violation: URL must target ";

/// What stands between two allowed substrings in the message of a refusal.
pub const DOMAIN_SEPARATOR: &'static str = ", ";

/// Some entry of `allowed` is a substring of `target`.
pub open spec fn permits(allowed: Seq<Seq<char>>, target: Seq<char>) -> bool {
    exists|i: int| 0 <= i < allowed.len() && occurs_in(#[trigger] allowed[i], target)
}

/// The message of a refusal under the policy `allowed`: the prefix, then
/// the allowed substrings in order.
pub open spec fn violation_message(allowed: Seq<Seq<char>>) -> Seq<char> {
    VIOLATION_PREFIX@ + joined(allowed, DOMAIN_SEPARATOR@)
}

/// The substrings of which a target must contain at least one. It is fixed
/// when it is made. Its view is the list of those substrings.
#[derive(Debug)]
pub struct AllowPolicy {
    allowed: Vec<String>,
}

impl View for AllowPolicy {
    type V = Seq<Seq<char>>;

    closed spec fn view(&self) -> Seq<Seq<char>> {
        self.allowed.deep_view()
    }
}

impl AllowPolicy {
    /// The policy that permits the targets containing one of `allowed`.
    pub fn new(allowed: Vec<String>) -> (policy: Self)
        ensures
            policy@ == allowed.deep_view(),
    {
        AllowPolicy { allowed }
    }

    /// The policy that permits exactly the targets containing `domain`.
    pub fn single(domain: &str) -> (policy: Self)
        ensures
            policy@ == seq![domain@],
    {
        let mut allowed: Vec<String> = Vec::new();
        allowed.push(String::from_str(domain));
        AllowPolicy { allowed }
    }

    /// Whether the policy permits `target`.
    pub fn allows(&self, target: &str) -> (ok: bool)
        ensures
            ok == permits(self@, target@),
    {
        let haystack = chars_of(target);
        let mut i: usize = 0;
        while i < self.allowed.len()
            invariant
                haystack@ == target@,
                i <= self.allowed.len(),
                self@.len() == self.allowed.len(),
                forall|j: int| 0 <= j < i ==> !occurs_in(#[trigger] self@[j], target@),
            decreases self.allowed.len() - i,
        {
            let needle = chars_of(self.allowed[i].as_str());
            if contains_chars(&haystack, &needle) {
                assert(self@[i as int] == needle@);
                return true;
            }
            i += 1;
        }
        false
    }
}

impl Default for AllowPolicy {
    /// The stock policy: the targets that contain [`ALLOWED_DOMAIN`].
    fn default() -> (policy: Self)
        ensures
            policy@ == seq![ALLOWED_DOMAIN@],
    {
        AllowPolicy::single(ALLOWED_DOMAIN)
    }
}

impl Clone for AllowPolicy {
    fn clone(&self) -> (copy: Self)
        ensures
            copy@ == self@,
    {
        let allowed = self.allowed.clone();
        AllowPolicy { allowed }
    }
}

/// A target was refused. The error carries the policy that refused it, and
/// its view is that policy's view.
#[derive(Debug)]
pub struct ValidationError {
    policy: AllowPolicy,
}

impl View for ValidationError {
    type V = Seq<Seq<char>>;

    closed spec fn view(&self) -> Seq<Seq<char>> {
        self.policy@
    }
}

impl ValidationError {
    /// The refusal of a target by `policy`.
    pub fn new(policy: AllowPolicy) -> (error: Self)
        ensures
            error@ == policy@,
    {
        ValidationError { policy }
    }

    /// The policy that the target violated.
    pub fn policy(&self) -> (policy: &AllowPolicy)
        ensures
            policy@ == self@,
    {
        &self.policy
    }

    /// The text shown to whoever asked for the probe.
    pub fn message(&self) -> (text: String)
        ensures
            text@ == violation_message(self@),
    {
        let names = join(&self.policy.allowed, DOMAIN_SEPARATOR);
        String::from_str(VIOLATION_PREFIX).concat(names.as_str())
    }
}

} // verus!
