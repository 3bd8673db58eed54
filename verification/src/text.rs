//! Text: UTF-8 decoding of payloads, as the standard library does it, and
//! the spelling of numbers.

use std::str::Utf8Error;
use std::string::FromUtf8Error;
use vstd::prelude::*;
use vstd::string::{StrSliceExecFns, StringExecFns, StringSliceAdditionalSpecFns};
use vstd::utf8::{encode_utf8, valid_utf8};

verus! {

/// The error of `std::str::from_utf8`, carried through as it is.
#[verifier::external_type_specification]
#[verifier::external_body]
pub struct ExUtf8Error(Utf8Error);

/// The error of `String::from_utf8`, carried through as it is.
#[verifier::external_type_specification]
#[verifier::external_body]
pub struct ExFromUtf8Error(FromUtf8Error);

/// `std::str::from_utf8`: succeeds exactly on well-formed UTF-8, and the text
/// it returns consists of the bytes given. Taken from the documentation of
/// the standard library, not proved here.
#[verifier::external_body]
pub(crate) fn str_from_utf8<'a>(bytes: &'a [u8]) -> (text: Result<&'a str, Utf8Error>)
    ensures
        text is Ok <==> valid_utf8(bytes@),
        text matches Ok(s) ==> s.spec_bytes() == bytes@,
{
    std::str::from_utf8(bytes)
}

/// `String::from_utf8`: succeeds exactly on well-formed UTF-8, and the string
/// it returns consists of the bytes given. Taken from the documentation of
/// the standard library, not proved here.
#[verifier::external_body]
pub(crate) fn string_from_utf8(bytes: Vec<u8>) -> (text: Result<String, FromUtf8Error>)
    ensures
        text is Ok <==> valid_utf8(bytes@),
        text matches Ok(s) ==> encode_utf8(s@) == bytes@,
{
    String::from_utf8(bytes)
}

/// The character that stands for the digit `d`, with capitals above nine.
pub open spec fn digit_char(d: int) -> char {
    "0123456789ABCDEF"@[d]
}

/// The digits of `n` in `base`, most significant first and without leading
/// zeros; zero is written as one digit.
pub open spec fn digits(n: nat, base: nat) -> Seq<char>
    decreases n,
    via digits_terminates
{
    if base < 2 || n < base {
        seq![digit_char(n as int)]
    } else {
        digits(n / base, base).push(digit_char((n % base) as int))
    }
}

#[via_fn]
proof fn digits_terminates(n: nat, base: nat) {
    if !(base < 2 || n < base) {
        assert(n / base < n) by (nonlinear_arith)
            requires
                base >= 2,
                n >= base,
        ;
    }
}

/// Appends the digits of `n` in `base` to `out`.
pub fn push_number(out: &mut String, n: u64, base: u64)
    requires
        2 <= base <= 16,
    ensures
        final(out)@ == old(out)@ + digits(n as nat, base as nat),
{
    let symbols = "0123456789ABCDEF";
    proof {
        reveal_strlit("0123456789ABCDEF");
    }
    let mut low_first: Vec<u64> = Vec::new();
    let mut rest = n;
    while rest >= base
        invariant
            2 <= base <= 16,
            forall|i: int| 0 <= i < low_first@.len() ==> #[trigger] low_first@[i] < base,
            digits(n as nat, base as nat) == digits(rest as nat, base as nat) + Seq::new(
                low_first@.len(),
                |i: int| digit_char(low_first@[low_first@.len() - 1 - i] as int),
            ),
        decreases rest,
    {
        let ghost before = low_first@;
        let ghost tail = Seq::new(
            before.len(),
            |i: int| digit_char(before[before.len() - 1 - i] as int),
        );
        low_first.push(rest % base);
        proof {
            let after = low_first@;
            let next = Seq::new(after.len(), |i: int| digit_char(after[after.len() - 1 - i] as int));
            assert(next =~= seq![digit_char((rest % base) as int)] + tail);
            assert(digits(rest as nat, base as nat) == digits((rest / base) as nat, base as nat).push(
                digit_char((rest % base) as int),
            ));
            assert(digits((rest / base) as nat, base as nat).push(digit_char((rest % base) as int))
                + tail =~= digits((rest / base) as nat, base as nat) + next);
        }
        rest = rest / base;
    }
    low_first.push(rest);
    proof {
        let all = low_first@;
        let spelled = Seq::new(all.len(), |i: int| digit_char(all[all.len() - 1 - i] as int));
        assert(digits(rest as nat, base as nat) == seq![digit_char(rest as int)]);
        assert(digits(n as nat, base as nat) =~= spelled);
    }
    let ghost spelled = digits(n as nat, base as nat);
    let mut i: usize = low_first.len();
    while i > 0
        invariant
            i <= low_first@.len(),
            symbols@ == "0123456789ABCDEF"@,
            symbols@.len() == 16,
            forall|k: int| 0 <= k < low_first@.len() ==> #[trigger] low_first@[k] < 16,
            spelled == Seq::new(
                low_first@.len(),
                |k: int| digit_char(low_first@[low_first@.len() - 1 - k] as int),
            ),
            out@ == old(out)@ + spelled.subrange(0, low_first@.len() - i),
        decreases i,
    {
        i -= 1;
        let d = low_first[i] as usize;
        let ghost before = out@;
        out.append(symbols.substring_char(d, d + 1));
        proof {
            let at = low_first@.len() - 1 - i;
            assert(symbols@.subrange(d as int, d + 1) =~= seq![digit_char(d as int)]);
            assert(spelled[at] == digit_char(d as int));
            assert(spelled.subrange(0, at + 1) =~= spelled.subrange(0, at).push(spelled[at]));
            assert(out@ =~= old(out)@ + spelled.subrange(0, at + 1));
        }
    }
    proof {
        assert(spelled.subrange(0, low_first@.len() as int) =~= spelled);
    }
}

} // verus!
