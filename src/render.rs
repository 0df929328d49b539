//! The text that reports a request for a process handle and its outcome.
use vstd::prelude::*;
use crate::access::{AccessResult, OsRequestFailure, ProcessHandle, unsigned_bits};

verus! {

/// The digit characters, lowest value first.
pub open spec fn digit_chars() -> Seq<char> {
    seq!['0', '1', '2', '3', '4', '5', '6', '7', '8', '9', 'A', 'B', 'C', 'D', 'E', 'F']
}

/// The digits of `n` in `base` (2 to 16), most significant first, with no
/// leading zeros; zero is the single digit `0`.
pub open spec fn digits(n: nat, base: nat) -> Seq<char>
    decreases n via digits_decreases
{
    if base < 2 || base > 16 {
        seq![]
    } else if n < base {
        seq![digit_chars()[n as int]]
    } else {
        digits(n / base, base).push(digit_chars()[(n % base) as int])
    }
}

#[via_fn]
proof fn digits_decreases(n: nat, base: nat) {
    if 2 <= base && base <= n {
        assert(n / base < n) by (nonlinear_arith)
            requires
                2 <= base,
                base <= n,
        ;
    }
}

/// The digits of `n`, or nothing for zero.
spec fn leading_digits(n: nat, base: nat) -> Seq<char> {
    if n == 0 {
        seq![]
    } else {
        digits(n, base)
    }
}

/// A signed integer in decimal, with a leading `-` when negative.
pub open spec fn signed_decimal(v: int) -> Seq<char> {
    if v < 0 {
        seq!['-'] + digits((-v) as nat, 10)
    } else {
        digits(v as nat, 10)
    }
}

/// `s` with zeros put before it until it is `width` characters long.
pub open spec fn zero_padded(s: Seq<char>, width: nat) -> Seq<char> {
    if s.len() >= width {
        s
    } else {
        Seq::new((width - s.len()) as nat, |i: int| '0') + s
    }
}

fn digit_str(d: u64) -> (r: &'static str)
    requires
        d < 16,
    ensures
        r@ == seq![digit_chars()[d as int]],
{
    let table: &'static str = "0123456789ABCDEF";
    proof {
        reveal_strlit("0123456789ABCDEF");
        assert(table@ =~= digit_chars());
    }
    let r = table.substring_char(d as usize, d as usize + 1);
    assert(r@ =~= seq![digit_chars()[d as int]]);
    r
}

/// The digits of `n` in `base`.
pub fn radix_text(n: u64, base: u64) -> (r: String)
    requires
        2 <= base <= 16,
    ensures
        r@ == digits(n as nat, base as nat),
{
    let mut s = String::from_str(digit_str(n % base));
    let mut m: u64 = n / base;
    proof {
        if n < base {
            assert(n % base == n && n / base == 0) by (nonlinear_arith)
                requires
                    n < base,
            ;
        } else {
            assert(n / base >= 1) by (nonlinear_arith)
                requires
                    n >= base,
                    base >= 2,
            ;
        }
        assert(digits(n as nat, base as nat) =~= leading_digits(m as nat, base as nat) + s@);
    }
    while m > 0
        invariant
            2 <= base <= 16,
            digits(n as nat, base as nat) == leading_digits(m as nat, base as nat) + s@,
        decreases m,
    {
        let t = String::from_str(digit_str(m % base));
        let next: u64 = m / base;
        proof {
            if m < base {
                assert(m % base == m && m / base == 0) by (nonlinear_arith)
                    requires
                        m < base,
                ;
            } else {
                assert(m / base >= 1) by (nonlinear_arith)
                    requires
                        m >= base,
                        base >= 2,
                ;
            }
            assert(leading_digits(m as nat, base as nat) =~= leading_digits(next as nat, base as nat)
                + t@);
        }
        s = t.concat(s.as_str());
        proof {
            assert(digits(n as nat, base as nat) =~= leading_digits(next as nat, base as nat) + s@);
        }
        m = next;
    }
    assert(s@ =~= digits(n as nat, base as nat));
    s
}

/// A signed integer in decimal.
pub fn signed_decimal_text(v: isize) -> (r: String)
    ensures
        r@ == signed_decimal(v as int),
{
    if v < 0 {
        let magnitude: u64 = (-(v as i128)) as u64;
        let d = radix_text(magnitude, 10);
        let sign = String::from_str("-");
        proof {
            reveal_strlit("-");
        }
        let r = sign.concat(d.as_str());
        assert(r@ =~= signed_decimal(v as int));
        r
    } else {
        radix_text(v as u64, 10)
    }
}

/// `s` with zeros put before it until it is `width` characters long.
pub fn zero_padded_text(s: String, width: usize) -> (r: String)
    ensures
        r@ == zero_padded(s@, width as nat),
{
    let len = s.as_str().unicode_len();
    if len >= width {
        return s;
    }
    let mut zeros = String::new();
    let mut i: usize = len;
    while i < width
        invariant
            len <= i <= width,
            zeros@ =~= Seq::new((i - len) as nat, |j: int| '0'),
        decreases width - i,
    {
        proof {
            reveal_strlit("0");
        }
        zeros.append("0");
        i = i + 1;
    }
    let r = zeros.concat(s.as_str());
    assert(r@ =~= zero_padded(s@, width as nat));
    r
}

/// The line that reports the caller's own process identifier.
pub open spec fn pid_text(pid: nat) -> Seq<char> {
    "The Process ID is "@ + digits(pid, 10)
}

/// How a handle value is shown: `HANDLE(` and the value in decimal.
pub open spec fn handle_text(raw: int) -> Seq<char> {
    "HANDLE("@ + signed_decimal(raw) + ")"@
}

/// How an HRESULT is shown: its 32 bits as eight hexadecimal digits.
pub open spec fn hresult_text(code: int) -> Seq<char> {
    "HRESULT(0x"@ + zero_padded(digits(unsigned_bits(code) as nat, 16), 8) + ")"@
}

/// How a failure is shown: its HRESULT and the system's description.
pub open spec fn failure_text(code: int, message: Seq<char>) -> Seq<char> {
    "Error { code: "@ + hresult_text(code) + ", message: \""@ + message + "\" }"@
}

/// The line that reports the outcome of a request.
pub open spec fn outcome_text(r: AccessResult) -> Seq<char> {
    match r {
        AccessResult::Success(h) => "Successfully opened process with handle: "@ + handle_text(h@),
        AccessResult::Failure(f) => "Failed to open process: "@ + failure_text(
            f.code as int,
            f.message@,
        ),
    }
}

/// The line that reports the caller's own process identifier.
pub fn pid_line(pid: u32) -> (r: String)
    ensures
        r@ == pid_text(pid as nat),
{
    let head = String::from_str("The Process ID is ");
    let d = radix_text(pid as u64, 10);
    head.concat(d.as_str())
}

/// How a handle is shown.
pub fn handle_display(h: &ProcessHandle) -> (r: String)
    ensures
        r@ == handle_text(h@),
{
    let head = String::from_str("HANDLE(");
    let v = signed_decimal_text(h.raw());
    let r = head.concat(v.as_str()).concat(")");
    assert(r@ =~= handle_text(h@));
    r
}

/// How a failure is shown.
pub fn failure_display(f: &OsRequestFailure) -> (r: String)
    ensures
        r@ == failure_text(f.code as int, f.message@),
{
    let u: u64 = if f.code < 0 {
        (f.code as i64 + 0x1_0000_0000i64) as u64
    } else {
        f.code as u64
    };
    let hex = zero_padded_text(radix_text(u, 16), 8);
    let head = String::from_str("Error { code: HRESULT(0x");
    let r = head.concat(hex.as_str()).concat("), message: \"").concat(f.message.as_str()).concat(
        "\" }",
    );
    proof {
        reveal_strlit("Error { code: HRESULT(0x");
        reveal_strlit("Error { code: ");
        reveal_strlit("HRESULT(0x");
        reveal_strlit("), message: \"");
        reveal_strlit(")");
        reveal_strlit(", message: \"");
    }
    assert(r@ =~= failure_text(f.code as int, f.message@));
    r
}

/// The line that reports the outcome of a request.
pub fn outcome_line(r: &AccessResult) -> (s: String)
    ensures
        s@ == outcome_text(*r),
{
    match r {
        AccessResult::Success(h) => {
            let head = String::from_str("Successfully opened process with handle: ");
            let t = handle_display(h);
            head.concat(t.as_str())
        },
        AccessResult::Failure(f) => {
            let head = String::from_str("Failed to open process: ");
            let t = failure_display(f);
            head.concat(t.as_str())
        },
    }
}

} // verus!
