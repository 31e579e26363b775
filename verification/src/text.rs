//! Diagnostic text: numbers, durations, and names written into messages.

use std::time::Duration;
use vstd::prelude::*;
use vstd::string::*;

verus! {

/// Character that stands for one decimal digit.
pub open spec fn digit_char(d: nat) -> char {
    if d == 0 {
        '0'
    } else if d == 1 {
        '1'
    } else if d == 2 {
        '2'
    } else if d == 3 {
        '3'
    } else if d == 4 {
        '4'
    } else if d == 5 {
        '5'
    } else if d == 6 {
        '6'
    } else if d == 7 {
        '7'
    } else if d == 8 {
        '8'
    } else {
        '9'
    }
}

/// Decimal text of a number, without leading zeros.
pub open spec fn decimal(n: nat) -> Seq<char>
    decreases n,
{
    if n < 10 {
        seq![digit_char(n)]
    } else {
        decimal(n / 10).push(digit_char(n % 10))
    }
}

/// Decimal text of a signed number.
pub open spec fn signed_decimal(n: int) -> Seq<char> {
    if n < 0 {
        "-"@ + decimal((-n) as nat)
    } else {
        decimal(n as nat)
    }
}

/// Text of an optional signed number: `None`, or `Some(n)`.
pub open spec fn optional_signed(n: Option<i32>) -> Seq<char> {
    match n {
        Some(n) => "Some("@ + signed_decimal(n as int) + ")"@,
        None => "None"@,
    }
}

/// Text of one decimal digit.
fn digit_str(d: u64) -> (text: &'static str)
    requires
        d < 10,
    ensures
        text@ == seq![digit_char(d as nat)],
{
    proof {
        reveal_strlit("0");
        reveal_strlit("1");
        reveal_strlit("2");
        reveal_strlit("3");
        reveal_strlit("4");
        reveal_strlit("5");
        reveal_strlit("6");
        reveal_strlit("7");
        reveal_strlit("8");
        reveal_strlit("9");
    }
    let text = if d == 0 {
        "0"
    } else if d == 1 {
        "1"
    } else if d == 2 {
        "2"
    } else if d == 3 {
        "3"
    } else if d == 4 {
        "4"
    } else if d == 5 {
        "5"
    } else if d == 6 {
        "6"
    } else if d == 7 {
        "7"
    } else if d == 8 {
        "8"
    } else {
        "9"
    };
    proof {
        assert(text@ =~= seq![digit_char(d as nat)]);
    }
    text
}

/// Appends the decimal text of a number.
pub fn append_decimal(out: &mut String, n: u64)
    ensures
        final(out)@ == old(out)@ + decimal(n as nat),
    decreases n,
{
    if n >= 10 {
        append_decimal(out, n / 10);
    }
    out.append(digit_str(n % 10));
    proof {
        assert(out@ =~= old(out)@ + decimal(n as nat));
    }
}

/// Appends the decimal text of a size.
pub fn append_size(out: &mut String, n: usize)
    ensures
        final(out)@ == old(out)@ + decimal(n as nat),
{
    append_decimal(out, n as u64);
}

/// Appends the text of an optional signed number.
pub fn append_optional_signed(out: &mut String, n: Option<i32>)
    ensures
        final(out)@ == old(out)@ + optional_signed(n),
{
    match n {
        Some(n) => {
            out.append("Some(");
            if n < 0 {
                out.append("-");
                append_decimal(out, (-(n as i64)) as u64);
            } else {
                append_decimal(out, n as u64);
            }
            out.append(")");
            proof {
                assert(out@ =~= old(out)@ + optional_signed(Some(n)));
            }
        },
        None => {
            out.append("None");
        },
    }
}

/// Text that `{:?}` gives for a duration, such as `25ms` or `1s`.
pub uninterp spec fn duration_debug(duration: Duration) -> Seq<char>;

/// Renders a duration with its `Debug` form.
///
/// Wraps `format!("{:?}", duration)` of `std`. Trusted: the text depends on the duration alone.
#[verifier::external_body]
pub(crate) fn render_duration(duration: Duration) -> (text: String)
    ensures
        text@ == duration_debug(duration),
{
    format!("{:?}", duration)
}

/// Text that `{:?}` gives for a list of names: quoted, comma separated, in brackets.
pub uninterp spec fn names_debug(names: Seq<Seq<char>>) -> Seq<char>;

/// Contents of a list of names.
pub open spec fn name_views(names: Seq<String>) -> Seq<Seq<char>> {
    names.map_values(|name: String| name@)
}

/// Renders a list of names with its `Debug` form.
///
/// Wraps `format!("{:?}", names)` of `std`. Trusted: the text depends on the names alone.
#[verifier::external_body]
pub(crate) fn render_names(names: &Vec<String>) -> (text: String)
    ensures
        text@ == names_debug(name_views(names@)),
{
    format!("{:?}", names)
}

/// Value of a decimal digit.
pub open spec fn digit_value(c: char) -> nat {
    (c as u32 - '0' as u32) as nat
}

/// Number that a decimal text stands for.
pub open spec fn value_of(text: Seq<char>) -> nat
    decreases text.len(),
{
    if text.len() == 0 {
        0
    } else {
        10 * value_of(text.drop_last()) + digit_value(text.last())
    }
}

/// Decimal text stands for its number: it reads back as that number, has digits only, and has no
/// leading zero. Different numbers therefore read differently.
pub proof fn law_decimal_text_reads_back(n: nat)
    ensures
        value_of(decimal(n)) == n,
        decimal(n).len() > 0,
        forall|i: int| 0 <= i < decimal(n).len() ==> '0' <= #[trigger] decimal(n)[i] <= '9',
        decimal(n)[0] == '0' ==> n == 0,
        n < 10 ==> decimal(n).len() == 1,
    decreases n,
{
    if n < 10 {
        let text = decimal(n);
        assert(text.drop_last() =~= Seq::<char>::empty());
        assert(text.last() == digit_char(n));
        assert(value_of(text.drop_last()) == 0);
    } else {
        law_decimal_text_reads_back(n / 10);
        let text = decimal(n);
        assert(text.drop_last() =~= decimal(n / 10));
        assert(text.last() == digit_char(n % 10));
        assert forall|i: int| 0 <= i < text.len() implies '0' <= #[trigger] text[i] <= '9' by {
            if i < text.len() - 1 {
                assert(text[i] == decimal(n / 10)[i]);
            }
        }
        assert(text[0] == decimal(n / 10)[0]);
    }
}

/// A negative number is its sign and its size; an optional one says whether it is there.
pub proof fn law_signed_text_tells_sign_and_size(n: int, code: i32)
    ensures
        n >= 0 ==> signed_decimal(n) == decimal(n as nat),
        n < 0 ==> signed_decimal(n) == "-"@ + decimal((-n) as nat),
        optional_signed(None) == "None"@,
        optional_signed(Some(code)) == "Some("@ + signed_decimal(code as int) + ")"@,
{
}

} // verus!
