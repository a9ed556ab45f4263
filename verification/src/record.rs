//! The record-store client's decision half: what a record-read response body
//! yields, what a record-write request body looks like, and which write
//! statuses count as success. The host performs the HTTP calls and hands the
//! bodies and statuses in as plain values.

use vstd::prelude::*;

verus! {

/// Why a record operation failed. The two kinds are retried identically;
/// they are kept apart so a report can tell them apart.
#[derive(Debug, Clone, Copy, PartialEq, Eq, Structural)]
pub enum RecordError {
    /// The provider could not be reached at all.
    Transport,
    /// The provider answered, but the answer was unusable: a read body
    /// without a string `target`, or a write status other than 200.
    Protocol,
}

/// The target published in a record-read response body: `Some` of the
/// field's characters exactly when the body is a JSON document whose
/// `target` member is a string, `None` otherwise. The exact mapping is
/// serde_json's parse, which depends on the body text alone.
pub uninterp spec fn target_of(body: Seq<char>) -> Option<Seq<char>>;

/// The JSON text of a record-write request carrying `address` as the new
/// `target`: what serde_json produces for a map holding that single entry.
/// It depends on the address alone.
pub uninterp spec fn write_body_of(address: Seq<char>) -> Seq<char>;

/// Relies on serde_json::from_str, Value::get and Value::as_str: parsing is
/// a function of the input text alone, `get("target")` returns the parsed
/// object's `target` member when there is one, and `as_str` returns the
/// member's text exactly when it is a JSON string.
#[verifier::external_body]
fn extract_target(body: &str) -> (r: Option<String>)
    ensures
        r is Some <==> target_of(body@) is Some,
        r matches Some(t) ==> target_of(body@) == Some(t@),
{
    let value: serde_json::Value = serde_json::from_str(body).ok()?;
    Some(value.get("target")?.as_str()?.to_string())
}

/// Relies on serde_json::to_string on a single-entry string-keyed map of
/// strings: the output depends on the entry alone, and its documentation
/// says serialization fails only for non-string keys or a failing
/// Serialize impl, neither of which a `BTreeMap<&str, &str>` has.
#[verifier::external_body]
pub(crate) fn encode_write_body(address: &str) -> (r: String)
    ensures
        r@ == write_body_of(address@),
{
    let mut entries = std::collections::BTreeMap::new();
    entries.insert("target", address);
    serde_json::to_string(&entries).unwrap()
}

/// Turns an extracted `target` member into the read's result: a body that
/// held a string `target` yields that string, and a body that did not is a
/// protocol failure — never a crash, so the retry machinery can absorb it.
pub fn classify_read_target(extracted: Option<String>) -> (r: Result<String, RecordError>)
    ensures
        extracted matches Some(t) ==> r == Ok::<String, RecordError>(t),
        extracted is None ==> r == Err::<String, RecordError>(RecordError::Protocol),
{
    match extracted {
        Some(t) => Ok(t),
        None => Err(RecordError::Protocol),
    }
}

/// Reads the published address out of a record-read response body: `Ok`
/// with the `target` member's text exactly when the body is a JSON document
/// whose `target` member is a string, and a protocol failure otherwise.
pub fn read_record_target(body: &str) -> (r: Result<String, RecordError>)
    ensures
        target_of(body@) matches Some(t) ==> r matches Ok(u) && u@ == t,
        target_of(body@) is None ==> r == Err::<String, RecordError>(RecordError::Protocol),
{
    classify_read_target(extract_target(body))
}

/// An HTTP status is a successful record write exactly when it is 200.
/// Every other status — successful-looking ones such as 201 included — is a
/// failure: an ambiguous provider answer must not pass for success.
pub fn write_status_ok(status: u16) -> (ok: bool)
    ensures
        ok == (status == 200),
{
    status == 200
}

/// The character of the decimal digit `d`.
pub open spec fn digit_char(d: nat) -> char {
    if d == 0 {
        '0'
    } else if d == 1 {
        '1'
    } else if d == 2 {
        '2'
    } else if d == 3 {
        '3'
    } else if d == 4 {
        '4'
    } else if d == 5 {
        '5'
    } else if d == 6 {
        '6'
    } else if d == 7 {
        '7'
    } else if d == 8 {
        '8'
    } else {
        '9'
    }
}

/// The decimal text of `n`: most significant digit first, no sign, no
/// leading zero (a lone zero for 0).
pub open spec fn decimal_digits(n: nat) -> Seq<char>
    decreases n,
{
    if n < 10 {
        seq![digit_char(n)]
    } else {
        decimal_digits(n / 10).push(digit_char(n % 10))
    }
}

/// The decimal digits of `v`, lowest first, read back highest first.
spec fn rev_digit_chars(v: Seq<u64>) -> Seq<char> {
    Seq::new(v.len(), |k: int| digit_char(v[v.len() - 1 - k] as nat))
}

fn digit_str(d: u64) -> (r: &'static str)
    requires
        d < 10,
    ensures
        r@ =~= seq![digit_char(d as nat)],
{
    proof {
        reveal_strlit("0");
        reveal_strlit("1");
        reveal_strlit("2");
        reveal_strlit("3");
        reveal_strlit("4");
        reveal_strlit("5");
        reveal_strlit("6");
        reveal_strlit("7");
        reveal_strlit("8");
        reveal_strlit("9");
    }
    match d {
        0 => "0",
        1 => "1",
        2 => "2",
        3 => "3",
        4 => "4",
        5 => "5",
        6 => "6",
        7 => "7",
        8 => "8",
        _ => "9",
    }
}

/// Writes `n` in decimal.
pub fn decimal_string(n: u64) -> (r: String)
    ensures
        r@ == decimal_digits(n as nat),
{
    let mut low_digits: Vec<u64> = Vec::new();
    let mut m = n;
    proof {
        assert(decimal_digits(n as nat) =~= decimal_digits(m as nat) + rev_digit_chars(
            low_digits@,
        ));
    }
    loop
        invariant_except_break
            decimal_digits(n as nat) =~= decimal_digits(m as nat) + rev_digit_chars(low_digits@),
        invariant
            forall|j: int| 0 <= j < low_digits@.len() ==> low_digits@[j] < 10,
        ensures
            forall|j: int| 0 <= j < low_digits@.len() ==> low_digits@[j] < 10,
            decimal_digits(n as nat) =~= rev_digit_chars(low_digits@),
        decreases m,
    {
        if m < 10 {
            let ghost before = low_digits@;
            low_digits.push(m);
            proof {
                assert(rev_digit_chars(before.push(m)) =~= seq![digit_char(m as nat)]
                    + rev_digit_chars(before));
                assert(decimal_digits(n as nat) =~= rev_digit_chars(low_digits@));
            }
            break;
        }
        let d = m % 10;
        let ghost m_before = m as nat;
        let ghost before = low_digits@;
        m = m / 10;
        low_digits.push(d);
        proof {
            assert(decimal_digits(m_before) =~= decimal_digits(m as nat).push(
                digit_char(d as nat),
            ));
            assert(rev_digit_chars(before.push(d)) =~= seq![digit_char(d as nat)]
                + rev_digit_chars(before));
            assert(decimal_digits(m as nat) + rev_digit_chars(low_digits@) =~= decimal_digits(
                m_before,
            ) + rev_digit_chars(before));
        }
    }
    let mut r = String::new();
    let mut idx = low_digits.len();
    while idx > 0
        invariant
            forall|j: int| 0 <= j < low_digits@.len() ==> low_digits@[j] < 10,
            decimal_digits(n as nat) =~= rev_digit_chars(low_digits@),
            idx <= low_digits@.len(),
            r@ =~= rev_digit_chars(low_digits@).take(low_digits@.len() - idx),
        decreases idx,
    {
        idx = idx - 1;
        r.append(digit_str(low_digits[idx]));
        proof {
            assert(r@ =~= rev_digit_chars(low_digits@).take(low_digits@.len() - idx));
        }
    }
    proof {
        assert(r@ =~= decimal_digits(n as nat));
    }
    r
}

/// The path of the record's read and write endpoints on the provider, for
/// the record `record_id` under the domain `domain_id`.
pub open spec fn record_path_of(domain_id: u64, record_id: u64) -> Seq<char> {
    "/domains/"@ + decimal_digits(domain_id as nat) + "/records/"@ + decimal_digits(
        record_id as nat,
    )
}

/// Writes the path both record operations are addressed to: the record's
/// and its parent domain's identifiers in decimal, in the provider's
/// `/domains/{domain_id}/records/{record_id}` shape.
pub fn record_path(domain_id: u64, record_id: u64) -> (r: String)
    ensures
        r@ == record_path_of(domain_id, record_id),
{
    let mut r = String::from_str("/domains/");
    r.append(decimal_string(domain_id).as_str());
    r.append("/records/");
    r.append(decimal_string(record_id).as_str());
    proof {
        assert(r@ =~= record_path_of(domain_id, record_id));
    }
    r
}

} // verus!
