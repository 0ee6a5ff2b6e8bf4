use vstd::prelude::*;

verus! {

#[verifier::external_type_specification]
#[verifier::external_body]
pub struct ExSystemTime(std::time::SystemTime);

/// The character of a decimal digit `d` (0 to 9).
pub open spec fn digit_char(d: nat) -> char {
    (48 + d) as char
}

/// Whether `c` is an ASCII decimal digit.
pub open spec fn is_digit_char(c: char) -> bool {
    '0' <= c && c <= '9'
}

/// The decimal numeral of `n`: no leading zeros, `"0"` for zero.
pub open spec fn decimal(n: nat) -> Seq<char>
    decreases n,
{
    if n < 10 {
        seq![digit_char(n)]
    } else {
        decimal(n / 10).push(digit_char(n % 10))
    }
}

/// The number that a string of decimal digits denotes.
pub open spec fn decimal_value(s: Seq<char>) -> nat
    decreases s.len(),
{
    if s.len() == 0 {
        0
    } else {
        decimal_value(s.drop_last()) * 10 + ((s.last() as nat) - 48) as nat
    }
}

/// The one-character string of a digit.
fn digit_str(d: u64) -> (s: &'static str)
    requires
        d < 10,
    ensures
        s@ == seq![digit_char(d as nat)],
{
    let s = match d {
        0 => "0",
        1 => "1",
        2 => "2",
        3 => "3",
        4 => "4",
        5 => "5",
        6 => "6",
        7 => "7",
        8 => "8",
        _ => "9",
    };
    proof {
        reveal_strlit("0");
        reveal_strlit("1");
        reveal_strlit("2");
        reveal_strlit("3");
        reveal_strlit("4");
        reveal_strlit("5");
        reveal_strlit("6");
        reveal_strlit("7");
        reveal_strlit("8");
        reveal_strlit("9");
    }
    s
}

/// Appends the decimal numeral of `n` to `out`.
fn push_decimal(out: &mut String, n: u64)
    ensures
        final(out)@ == old(out)@ + decimal(n as nat),
    decreases n,
{
    if n >= 10 {
        push_decimal(out, n / 10);
    }
    out.append(digit_str(n % 10));
    proof {
        assert(old(out)@ + decimal(n as nat) =~= old(out)@ + (if n >= 10 {
            decimal((n / 10) as nat)
        } else {
            Seq::empty()
        }) + seq![digit_char((n % 10) as nat)]);
    }
}

/// The decimal numeral of a number of seconds, as the manifest records it.
pub fn timestamp_string(secs: u64) -> (s: String)
    ensures
        s@ == decimal(secs as nat),
{
    let mut out = String::new();
    push_decimal(&mut out, secs);
    assert(out@ =~= decimal(secs as nat));
    out
}

/// Reads the system clock: `std::time::SystemTime::now`. Nothing is claimed
/// of the time it returns.
#[verifier::external_body]
fn clock_now() -> std::time::SystemTime {
    std::time::SystemTime::now()
}

/// `SystemTime::duration_since(UNIX_EPOCH)`: the time elapsed since the Unix
/// epoch, `None` where `t` lies before it (the call's error). Nothing is
/// claimed of the duration, which depends on the clock that produced `t`.
#[verifier::external_body]
fn elapsed_since_epoch(t: &std::time::SystemTime) -> Option<core::time::Duration> {
    match t.duration_since(std::time::UNIX_EPOCH) {
        Ok(d) => Some(d),
        Err(_) => None,
    }
}

/// `Duration::as_secs`: the whole seconds of `d`. Nothing is claimed of the
/// number, since a `Duration` is opaque here.
#[verifier::external_body]
fn whole_seconds(d: &core::time::Duration) -> u64 {
    d.as_secs()
}

/// The seconds that a manifest stamp records for a reading of the clock: the
/// whole seconds since the Unix epoch, or 0 for a clock that reads before it.
pub open spec fn stamp_seconds(elapsed: Option<u64>) -> nat {
    match elapsed {
        Some(secs) => secs as nat,
        None => 0,
    }
}

/// The stamp for a clock reading given as the whole seconds elapsed since the
/// Unix epoch (`None` for a clock that reads before it): the decimal numeral
/// of those seconds, or `"0"` before the epoch.
pub fn timestamp_from_elapsed(elapsed: Option<u64>) -> (s: String)
    ensures
        s@ == decimal(stamp_seconds(elapsed)),
{
    let secs: u64 = match elapsed {
        Some(secs) => secs,
        None => 0,
    };
    timestamp_string(secs)
}

/// The current Unix time in seconds, as a decimal numeral; `"0"` where the
/// clock reads before the epoch.
pub fn chrono_timestamp() -> (s: String)
    ensures
        exists|elapsed: Option<u64>| s@ == decimal(stamp_seconds(elapsed)),
{
    let now = clock_now();
    let elapsed: Option<u64> = match elapsed_since_epoch(&now) {
        Some(d) => Some(whole_seconds(&d)),
        None => None,
    };
    let s = timestamp_from_elapsed(elapsed);
    assert(s@ == decimal(stamp_seconds(elapsed)));
    s
}

/// A timestamp is a decimal numeral: it is not empty, every character is an
/// ASCII digit, and read back as a number it gives the seconds it was made
/// from.
pub proof fn lemma_decimal_round_trip(n: nat)
    ensures
        decimal(n).len() > 0,
        forall|i: int| 0 <= i < decimal(n).len() ==> is_digit_char(#[trigger] decimal(n)[i]),
        decimal_value(decimal(n)) == n,
    decreases n,
{
    let d = n % 10;
    assert(digit_char(d) as nat == 48 + d);
    if n >= 10 {
        lemma_decimal_round_trip(n / 10);
        assert(decimal(n).drop_last() =~= decimal(n / 10));
        assert(decimal(n).last() == digit_char(d));
        assert(decimal_value(decimal(n)) == decimal_value(decimal(n / 10)) * 10 + d);
        assert((n / 10) * 10 + d == n);
    } else {
        assert(decimal(n).drop_last() =~= Seq::<char>::empty());
        assert(decimal_value(decimal(n)) == decimal_value(Seq::<char>::empty()) * 10 + d);
    }
}

/// Stamps follow the clock: a later reading (a clock before the epoch
/// counting as 0) never gives a stamp that reads back as a smaller number,
/// and a reading before the epoch gives the stamp `"0"`.
pub proof fn lemma_stamps_follow_the_clock(first: Option<u64>, second: Option<u64>)
    ensures
        stamp_seconds(first) <= stamp_seconds(second) ==> decimal_value(
            decimal(stamp_seconds(first)),
        ) <= decimal_value(decimal(stamp_seconds(second))),
        first is None ==> decimal(stamp_seconds(first)) == seq!['0'],
{
    lemma_decimal_round_trip(stamp_seconds(first));
    lemma_decimal_round_trip(stamp_seconds(second));
}

} // verus!
