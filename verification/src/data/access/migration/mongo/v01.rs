//! The first migration: the collections the service keeps its documents in.
use vstd::prelude::*;
use vstd::string::StringSliceAdditionalSpecFns;

verus! {

pub struct Migration001;

/// Whether `needle` occurs in `haystack`.
pub open spec fn occurs_in(haystack: Seq<u8>, needle: Seq<u8>) -> bool {
    exists|i: int| 0 <= i && i + needle.len() <= haystack.len() && #[trigger] haystack.subrange(i, i + needle.len()) == needle
}

/// Whether `needle` occurs in `haystack` at position `at`.
fn occurs_at(haystack: &[u8], needle: &[u8], at: usize) -> (found: bool)
    requires
        at + needle@.len() <= haystack@.len(),
    ensures
        found == (haystack@.subrange(at as int, at + needle@.len()) == needle@),
{
    let haystack_len = haystack.len();
    let mut j: usize = 0;
    while j < needle.len()
        invariant
            haystack_len == haystack@.len(),
            at + needle@.len() <= haystack@.len(),
            j <= needle@.len(),
            forall|m: int| 0 <= m < j ==> haystack@[at + m] == needle@[m],
        decreases needle@.len() - j,
    {
        if haystack[at + j] != needle[j] {
            assert(haystack@.subrange(at as int, at + needle@.len())[j as int] != needle@[j as int]);
            return false;
        }
        j = j + 1;
    }
    assert(haystack@.subrange(at as int, at + needle@.len()) =~= needle@);
    true
}

/// Whether `needle` occurs in `haystack`.
pub fn bytes_occur_in(haystack: &[u8], needle: &[u8]) -> (found: bool)
    ensures
        found == occurs_in(haystack@, needle@),
{
    if needle.len() > haystack.len() {
        return false;
    }
    let last = haystack.len() - needle.len();
    let mut i: usize = 0;
    while i < last
        invariant
            last == haystack@.len() - needle@.len(),
            i <= last,
            forall|k: int| 0 <= k < i ==> #[trigger] haystack@.subrange(k, k + needle@.len()) != needle@,
        decreases last - i,
    {
        if occurs_at(haystack, needle, i) {
            return true;
        }
        i = i + 1;
    }
    occurs_at(haystack, needle, last)
}

impl Migration001 {
    /// The name the migration is recorded under.
    pub fn name(&self) -> (name: &'static str)
        ensures
            name@ == "001_initial_collections"@,
    {
        "001_initial_collections"
    }

    /// The collections the migration creates, in order.
    pub fn collections(&self) -> (names: Vec<String>)
        ensures
            names@.len() == 4,
            names@[0]@ == "agency"@,
            names@[1]@ == "tenant"@,
            names@[2]@ == "migrations"@,
            names@[3]@ == "plans"@,
    {
        let mut names: Vec<String> = Vec::new();
        names.push("agency".to_owned());
        names.push("tenant".to_owned());
        names.push("migrations".to_owned());
        names.push("plans".to_owned());
        names
    }

    /// Whether a failure to create a collection is passed over: it is when its
    /// message says the collection already exists.
    pub fn tolerates_creation_error(&self, message: &str) -> (tolerated: bool)
        ensures
            tolerated == occurs_in(message.spec_bytes(), "already exists".spec_bytes()),
    {
        bytes_occur_in(message.as_bytes(), "already exists".as_bytes())
    }
}

} // verus!
