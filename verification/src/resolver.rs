//! The IP resolver's pure half: which echo endpoint serves an address
//! family, and how an echo response body becomes an address — the body
//! itself, stripped of leading and trailing ASCII whitespace. The host
//! performs the request and hands the body in as text.

use vstd::prelude::*;

verus! {

/// The address family being tracked. It selects the echo endpoint; the
/// record's published value stays an opaque string either way.
#[derive(Debug, Clone, Copy, PartialEq, Eq, Structural)]
pub enum AddressFamily {
    V4,
    V6,
}

impl Default for AddressFamily {
    /// Tracking defaults to the v6 family.
    fn default() -> (r: Self)
        ensures
            r == AddressFamily::V6,
    {
        AddressFamily::V6
    }
}

impl AddressFamily {
    /// The fixed address-echo endpoint for this family: a v6-only host for
    /// v6, a v4-capable host for v4.
    pub fn echo_endpoint(&self) -> (url: &'static str)
        ensures
            self is V6 ==> url@ == "https://api6.ipify.org"@,
            self is V4 ==> url@ == "https://api.ipify.org"@,
    {
        match self {
            AddressFamily::V6 => "https://api6.ipify.org",
            AddressFamily::V4 => "https://api.ipify.org",
        }
    }
}

/// The characters stripped from the ends of an echo response: ASCII
/// whitespace.
pub open spec fn is_trimmable(c: char) -> bool {
    c == ' ' || c == '\n' || c == '\r' || c == '\t'
}

pub open spec fn trim_start_spec(s: Seq<char>) -> Seq<char>
    decreases s.len(),
{
    if s.len() == 0 {
        s
    } else if is_trimmable(s[0]) {
        trim_start_spec(s.skip(1))
    } else {
        s
    }
}

pub open spec fn trim_end_spec(s: Seq<char>) -> Seq<char>
    decreases s.len(),
{
    if s.len() == 0 {
        s
    } else if is_trimmable(s[s.len() - 1]) {
        trim_end_spec(s.take(s.len() - 1))
    } else {
        s
    }
}

/// `s` without its leading and trailing ASCII whitespace.
pub open spec fn trimmed(s: Seq<char>) -> Seq<char> {
    trim_end_spec(trim_start_spec(s))
}

proof fn lemma_trim_start_at(s: Seq<char>, k: int)
    requires
        0 <= k <= s.len(),
        forall|j: int| 0 <= j < k ==> is_trimmable(s[j]),
        k < s.len() ==> !is_trimmable(s[k]),
    ensures
        trim_start_spec(s) == s.skip(k),
    decreases k,
{
    if k == 0 {
        assert(s.skip(0) =~= s);
    } else {
        let t = s.skip(1);
        assert(forall|j: int| 0 <= j < k - 1 ==> is_trimmable(#[trigger] t[j]));
        lemma_trim_start_at(t, k - 1);
        assert(t.skip(k - 1) =~= s.skip(k));
    }
}

proof fn lemma_trim_end_at(s: Seq<char>, k: int)
    requires
        0 <= k <= s.len(),
        forall|j: int| k <= j < s.len() ==> is_trimmable(s[j]),
        k > 0 ==> !is_trimmable(s[k - 1]),
    ensures
        trim_end_spec(s) == s.take(k),
    decreases s.len(),
{
    if s.len() == 0 {
        assert(s.take(0) =~= s);
    } else if k == s.len() {
        assert(s.take(k) =~= s);
    } else {
        let t = s.take(s.len() - 1);
        assert(forall|j: int| k <= j < t.len() ==> is_trimmable(#[trigger] t[j]));
        lemma_trim_end_at(t, k);
        assert(t.take(k) =~= s.take(k));
    }
}

fn is_trimmable_char(c: char) -> (b: bool)
    ensures
        b == is_trimmable(c),
{
    c == ' ' || c == '\n' || c == '\r' || c == '\t'
}

/// Extracts the caller's current address from an address-echo response
/// body: the body itself, trimmed. Any well-formed text body is accepted;
/// transport failures never reach this point.
pub fn resolve_address(body: &str) -> (address: String)
    ensures
        address@ == trimmed(body@),
{
    let n = body.unicode_len();
    let mut start: usize = 0;
    while start < n && is_trimmable_char(body.get_char(start))
        invariant
            n == body@.len(),
            start <= n,
            forall|j: int| 0 <= j < start ==> is_trimmable(body@[j]),
        decreases n - start,
    {
        start = start + 1;
    }
    let mut end: usize = n;
    while end > start && is_trimmable_char(body.get_char(end - 1))
        invariant
            n == body@.len(),
            start <= end <= n,
            forall|j: int| end <= j < n ==> is_trimmable(body@[j]),
        decreases end,
    {
        end = end - 1;
    }
    proof {
        lemma_trim_start_at(body@, start as int);
        let t = body@.skip(start as int);
        assert(forall|j: int| end - start <= j < t.len() ==> is_trimmable(#[trigger] t[j]));
        lemma_trim_end_at(t, end - start);
        assert(t.take(end - start) =~= body@.subrange(start as int, end as int));
    }
    let sub = body.substring_char(start, end);
    sub.to_owned()
}

} // verus!
