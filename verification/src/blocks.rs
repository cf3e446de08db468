use chrono::TimeZone;
use vstd::prelude::*;
use vstd::string::*;

use crate::local_enr::string_from_chars;

verus! {

/// The decimal digits, by value.
pub open spec fn digit_chars() -> Seq<char> {
    seq!['0', '1', '2', '3', '4', '5', '6', '7', '8', '9']
}

/// The decimal text of `n`, without leading zeros.
pub open spec fn decimal(n: nat) -> Seq<char>
    decreases n,
{
    if n < 10 {
        seq![digit_chars()[n as int]]
    } else {
        decimal(n / 10) + seq![digit_chars()[(n % 10) as int]]
    }
}

/// The number that a text of ASCII decimal digits spells, most
/// significant digit first, each character counted by its code point
/// minus that of `0`.
pub open spec fn decimal_value(digits: Seq<char>) -> int
    decreases digits.len(),
{
    if digits.len() == 0 {
        0
    } else {
        10 * decimal_value(digits.drop_last()) + (digits.last() as u32 - 48)
    }
}

/// `c` is one of the ASCII characters `0` to `9`.
pub open spec fn is_ascii_digit(c: char) -> bool {
    48 <= c as u32 <= 57
}

proof fn lemma_digit_char(d: int)
    requires
        0 <= d < 10,
    ensures
        digit_chars()[d] as u32 == 48 + d,
{
    let t = digit_chars();
    if d == 0 { assert(t[0] == '0'); }
    else if d == 1 { assert(t[1] == '1'); }
    else if d == 2 { assert(t[2] == '2'); }
    else if d == 3 { assert(t[3] == '3'); }
    else if d == 4 { assert(t[4] == '4'); }
    else if d == 5 { assert(t[5] == '5'); }
    else if d == 6 { assert(t[6] == '6'); }
    else if d == 7 { assert(t[7] == '7'); }
    else if d == 8 { assert(t[8] == '8'); }
    else { assert(t[9] == '9'); }
}

/// The decimal text of `n` is made of ASCII digits, reads back to `n`, and
/// has no leading zero (it is `0` only for zero).
pub proof fn lemma_decimal_reads_back(n: nat)
    ensures
        decimal(n).len() >= 1,
        forall|i: int| 0 <= i < decimal(n).len() ==> is_ascii_digit(#[trigger] decimal(n)[i]),
        decimal_value(decimal(n)) == n,
        decimal(n)[0] as u32 == 48 ==> n == 0,
    decreases n,
{
    if n < 10 {
        lemma_digit_char(n as int);
        let s = decimal(n);
        assert(s.drop_last() =~= Seq::<char>::empty());
        assert(s[0] == digit_chars()[n as int]);
        assert(decimal_value(Seq::<char>::empty()) == 0);
        assert(decimal_value(s) == 10 * decimal_value(s.drop_last()) + (s.last() as u32 - 48));
    } else {
        lemma_decimal_reads_back(n / 10);
        lemma_digit_char((n % 10) as int);
        let s = decimal(n);
        let h = decimal(n / 10);
        assert(s.drop_last() =~= h);
        assert(s.last() == digit_chars()[(n % 10) as int]);
        assert forall|i: int| 0 <= i < s.len() implies is_ascii_digit(#[trigger] s[i]) by {
            if i < h.len() {
                assert(s[i] == h[i]);
            }
        }
        assert(s[0] == h[0]);
        assert(n / 10 >= 1);
        assert(decimal_value(s) == 10 * decimal_value(h) + (s.last() as u32 - 48));
        assert(10 * (n / 10) + n % 10 == n);
    }
}

fn push_decimal(n: u64, out: &mut Vec<char>)
    ensures
        final(out)@ == old(out)@ + decimal(n as nat),
    decreases n,
{
    let digits: [char; 10] = ['0', '1', '2', '3', '4', '5', '6', '7', '8', '9'];
    assert(digits@ == digit_chars());
    if n >= 10 {
        push_decimal(n / 10, out);
    }
    out.push(digits[(n % 10) as usize]);
    assert(final(out)@ =~= old(out)@ + decimal(n as nat));
}

/// The decimal text of `n`.
pub fn decimal_string(n: u64) -> (s: String)
    ensures
        s@ == decimal(n as nat),
        s@.len() >= 1,
        forall|i: int| 0 <= i < s@.len() ==> is_ascii_digit(#[trigger] s@[i]),
        decimal_value(s@) == n as int,
{
    proof {
        lemma_decimal_reads_back(n as nat);
    }
    let mut chars: Vec<char> = Vec::new();
    push_decimal(n, &mut chars);
    assert(chars@ =~= decimal(n as nat));
    string_from_chars(&chars)
}

/// chrono's `{:.2?}` text of the time from the block's timestamp (whole
/// seconds, UTC) to the instant `now_secs` seconds and `now_nanos`
/// nanoseconds after the epoch; none when chrono knows no such instants.
pub uninterp spec fn chrono_time_difference(block_timestamp: u64, now_secs: i64, now_nanos: u32) -> Option<Seq<char>>;

/// `Utc::timestamp_opt` of the block time, `DateTime::from_timestamp` of
/// now, `DateTime::signed_duration_since` and `{:.2?}` of the difference;
/// the text depends on the three numbers alone.
#[verifier::external_body]
fn format_time_difference(block_timestamp: u64, now_secs: i64, now_nanos: u32) -> (text: Option<String>)
    ensures
        match text {
            Some(t) => chrono_time_difference(block_timestamp, now_secs, now_nanos) == Some(t@),
            None => chrono_time_difference(block_timestamp, now_secs, now_nanos) is None,
        },
{
    match (chrono::Utc.timestamp_opt(block_timestamp as i64, 0), chrono::DateTime::from_timestamp(now_secs, now_nanos)) {
        (chrono::LocalResult::Single(block), Some(now)) => Some(format!("{:.2?}", now.signed_duration_since(block))),
        _ => None,
    }
}

/// The line reported when a block arrives: its number, its timestamp and
/// how long ago (from `now`) it was made.
pub open spec fn spec_block_report(number: u64, timestamp: u64, difference: Seq<char>) -> Seq<char> {
    "block number: "@ + decimal(number as nat) + ", block timestamp: "@ + decimal(timestamp as nat)
        + ", time difference: "@ + difference
}

/// The report for a block that arrived at `now`; none when chrono knows
/// no instant for the block's timestamp or for now.
pub fn block_report(block_number: u64, block_timestamp: u64, now_secs: i64, now_nanos: u32) -> (report: Option<String>)
    ensures
        match chrono_time_difference(block_timestamp, now_secs, now_nanos) {
            Some(d) => report matches Some(r) && r@ == spec_block_report(block_number, block_timestamp, d),
            None => report is None,
        },
{
    let difference = match format_time_difference(block_timestamp, now_secs, now_nanos) {
        Some(d) => d,
        None => return None,
    };
    let mut report = "block number: ".to_owned();
    let number = decimal_string(block_number);
    report.append(number.as_str());
    report.append(", block timestamp: ");
    let timestamp = decimal_string(block_timestamp);
    report.append(timestamp.as_str());
    report.append(", time difference: ");
    report.append(difference.as_str());
    Some(report)
}

} // verus!
