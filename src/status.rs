use vstd::prelude::*;
use vstd::string::StringExecFns;

verus! {

/// Milliseconds in one second.
pub const MS_PER_SECOND: u64 = 1000;

/// The character of a decimal digit.
pub open spec fn digit_char(d: nat) -> char {
    if d == 0 { '0' }
    else if d == 1 { '1' }
    else if d == 2 { '2' }
    else if d == 3 { '3' }
    else if d == 4 { '4' }
    else if d == 5 { '5' }
    else if d == 6 { '6' }
    else if d == 7 { '7' }
    else if d == 8 { '8' }
    else { '9' }
}

/// The decimal notation of `n`, without leading zeros.
pub open spec fn decimal(n: nat) -> Seq<char>
    decreases n,
{
    if n < 10 {
        seq![digit_char(n)]
    } else {
        decimal(n / 10).push(digit_char(n % 10))
    }
}

/// The text of the status label.
pub open spec fn status_text(freq_text: Seq<char>, elapsed_ms: nat) -> Seq<char> {
    "Freq: "@ + freq_text + ", Time: "@ + decimal(elapsed_ms / (MS_PER_SECOND as nat)) + "s"@
}

/// Whole seconds contained in an elapsed time, rounded down.
pub fn whole_seconds(elapsed_ms: u64) -> (r: u64)
    ensures
        r as nat == elapsed_ms as nat / (MS_PER_SECOND as nat),
{
    elapsed_ms / MS_PER_SECOND
}

fn digit_str(d: u64) -> (r: &'static str)
    requires
        d < 10,
    ensures
        r@ == seq![digit_char(d as nat)],
{
    proof {
        reveal_strlit("0");
        reveal_strlit("1");
        reveal_strlit("2");
        reveal_strlit("3");
        reveal_strlit("4");
        reveal_strlit("5");
        reveal_strlit("6");
        reveal_strlit("7");
        reveal_strlit("8");
        reveal_strlit("9");
    }
    if d == 0 { "0" }
    else if d == 1 { "1" }
    else if d == 2 { "2" }
    else if d == 3 { "3" }
    else if d == 4 { "4" }
    else if d == 5 { "5" }
    else if d == 6 { "6" }
    else if d == 7 { "7" }
    else if d == 8 { "8" }
    else { "9" }
}

/// Appends the decimal notation of `n` to `s`.
pub fn append_decimal(s: &mut String, n: u64)
    ensures
        final(s)@ == old(s)@ + decimal(n as nat),
    decreases n,
{
    if n >= 10 {
        append_decimal(s, n / 10);
    }
    s.append(digit_str(n % 10));
    proof {
        if n >= 10 {
            assert(decimal(n as nat) == decimal((n / 10) as nat).push(digit_char((n % 10) as nat)));
            assert(final(s)@ =~= old(s)@ + decimal(n as nat));
        } else {
            assert(final(s)@ =~= old(s)@ + decimal(n as nat));
        }
    }
}

/// The status label: `Freq: {freq_text}, Time: {seconds}s`, where
/// `freq_text` is the frequency factor as displayed and `seconds` the whole
/// seconds elapsed.
pub fn status_label(freq_text: &str, elapsed_ms: u64) -> (r: String)
    ensures
        r@ == status_text(freq_text@, elapsed_ms as nat),
{
    let mut s = String::new();
    s.append("Freq: ");
    s.append(freq_text);
    s.append(", Time: ");
    append_decimal(&mut s, whole_seconds(elapsed_ms));
    s.append("s");
    proof {
        assert(s@ =~= status_text(freq_text@, elapsed_ms as nat));
    }
    s
}

} // verus!
