//! Requests for a process handle and the outcome of such a request.
use vstd::prelude::*;

verus! {

/// Win32 error code returned when the caller lacks the requested rights.
pub const ERROR_ACCESS_DENIED: u32 = 5;

/// Win32 error code returned for a handle value that denotes no object.
pub const ERROR_INVALID_HANDLE: u32 = 6;

/// Win32 error code returned when no running process has the requested identifier.
pub const ERROR_INVALID_PARAMETER: u32 = 87;

/// Parameters of one request for a process handle.
pub struct AcquireRequest {
    pub target_id: u32,
    pub access_mask: u32,
    pub inherit_handle: bool,
}

impl AcquireRequest {
    /// A request for `access_mask` over process `target_id`, for a handle that
    /// child processes do not inherit.
    pub fn new(target_id: u32, access_mask: u32) -> (r: AcquireRequest)
        ensures
            r.target_id == target_id,
            r.access_mask == access_mask,
            !r.inherit_handle,
    {
        AcquireRequest { target_id, access_mask, inherit_handle: false }
    }
}

/// A handle value names an object unless it is null or the reserved
/// value `-1` (`INVALID_HANDLE_VALUE`).
pub open spec fn is_valid_handle_value(raw: int) -> bool {
    raw != 0 && raw != -1
}

/// A handle to a process, as granted by the operating system.
pub struct ProcessHandle {
    raw: isize,
}

impl View for ProcessHandle {
    type V = int;

    closed spec fn view(&self) -> int {
        self.raw as int
    }
}

impl ProcessHandle {
    #[verifier::type_invariant]
    spec fn inv(&self) -> bool {
        is_valid_handle_value(self.raw as int)
    }

    /// Wraps a raw handle value; `None` exactly when the value names no object.
    pub fn from_raw(raw: isize) -> (r: Option<ProcessHandle>)
        ensures
            r is Some <==> is_valid_handle_value(raw as int),
            r matches Some(h) ==> h@ == raw as int,
    {
        if raw == 0 || raw == -1 {
            None
        } else {
            Some(ProcessHandle { raw })
        }
    }

    /// The raw handle value, which is never null.
    pub fn raw(&self) -> (r: isize)
        ensures
            r as int == self@,
            is_valid_handle_value(r as int),
    {
        proof {
            use_type_invariant(self);
        }
        self.raw
    }
}

/// What kind of failure an operating-system request met.
#[derive(PartialEq, Eq, Structural, Debug, Clone, Copy)]
pub enum ErrorKind {
    /// No running process has the requested identifier.
    NotFound,
    /// The caller lacks the requested rights over the process.
    AccessDenied,
    /// Any other failure.
    Other,
}

/// The value of a 32-bit pattern read as unsigned.
pub open spec fn unsigned_bits(v: int) -> int {
    if v < 0 {
        v + 0x1_0000_0000
    } else {
        v
    }
}

/// The value of a 32-bit pattern read as signed.
pub open spec fn signed_bits(u: int) -> int {
    if u >= 0x8000_0000 {
        u - 0x1_0000_0000
    } else {
        u
    }
}

/// The HRESULT that carries a Win32 error code: codes that read as
/// non-positive signed values stand for themselves, the others keep their low
/// sixteen bits under facility 7 with the failure bit set.
pub open spec fn hresult_from_win32(code: u32) -> int {
    if signed_bits(code as int) <= 0 {
        signed_bits(code as int)
    } else {
        signed_bits(0x8007_0000 + code % 0x10000)
    }
}

/// The Win32 error code that an HRESULT carries, if it carries one.
pub open spec fn win32_code_of(hr: int) -> Option<nat> {
    let u = unsigned_bits(hr);
    if u / 0x10000 == 0x8007 {
        Some((u % 0x10000) as nat)
    } else {
        None
    }
}

/// The kind of failure that an HRESULT reports.
pub open spec fn kind_of(hr: int) -> ErrorKind {
    match win32_code_of(hr) {
        Some(c) => if c == ERROR_ACCESS_DENIED as nat {
            ErrorKind::AccessDenied
        } else if c == ERROR_INVALID_PARAMETER as nat {
            ErrorKind::NotFound
        } else {
            ErrorKind::Other
        },
        None => ErrorKind::Other,
    }
}

/// Relies on windows::core::HRESULT::from_win32: the HRESULT that carries a
/// Win32 error code.
#[verifier::external_body]
fn hresult_of_win32(code: u32) -> (r: i32)
    ensures
        r as int == hresult_from_win32(code),
{
    windows::core::HRESULT::from_win32(code).0
}

/// A failed operating-system request: the HRESULT it produced and the
/// system's description of it.
pub struct OsRequestFailure {
    pub code: i32,
    pub message: String,
}

/// The system's description of `ERROR_INVALID_HANDLE`.
pub open spec fn invalid_handle_message() -> Seq<char> {
    "The handle is invalid."@
}

impl OsRequestFailure {
    /// The Win32 error code that the HRESULT carries, if any.
    pub fn win32_code(&self) -> (r: Option<u32>)
        ensures
            r is Some <==> win32_code_of(self.code as int) is Some,
            r matches Some(c) ==> win32_code_of(self.code as int) == Some(c as nat),
    {
        let u: u64 = if self.code < 0 {
            (self.code as i64 + 0x1_0000_0000i64) as u64
        } else {
            self.code as u64
        };
        if u / 0x10000 == 0x8007 {
            Some((u % 0x10000) as u32)
        } else {
            None
        }
    }

    /// The kind of failure: access denied for `ERROR_ACCESS_DENIED`, not
    /// found for `ERROR_INVALID_PARAMETER` (what the system reports for an
    /// identifier that no running process has), other for anything else.
    pub fn kind(&self) -> (r: ErrorKind)
        ensures
            r == kind_of(self.code as int),
    {
        match self.win32_code() {
            Some(c) => if c == ERROR_ACCESS_DENIED {
                ErrorKind::AccessDenied
            } else if c == ERROR_INVALID_PARAMETER {
                ErrorKind::NotFound
            } else {
                ErrorKind::Other
            },
            None => ErrorKind::Other,
        }
    }
}

/// The outcome of a request for a process handle.
pub enum AccessResult {
    Success(ProcessHandle),
    Failure(OsRequestFailure),
}

impl AccessResult {
    /// The outcome of a request, from what the system handed back: a raw
    /// handle value, or a failure. A handle value that names no object is
    /// reported as `ERROR_INVALID_HANDLE`.
    pub fn from_os(outcome: Result<isize, OsRequestFailure>) -> (r: AccessResult)
        ensures
            match outcome {
                Ok(raw) => if is_valid_handle_value(raw as int) {
                    r matches AccessResult::Success(h) && h@ == raw as int
                } else {
                    r matches AccessResult::Failure(f) && f.code as int == hresult_from_win32(
                        ERROR_INVALID_HANDLE,
                    ) && f.message@ == invalid_handle_message()
                },
                Err(e) => r matches AccessResult::Failure(f) && f.code == e.code && f.message@
                    == e.message@,
            },
    {
        match outcome {
            Ok(raw) => match ProcessHandle::from_raw(raw) {
                Some(h) => AccessResult::Success(h),
                None => AccessResult::Failure(
                    OsRequestFailure {
                        code: hresult_of_win32(ERROR_INVALID_HANDLE),
                        message: String::from_str("The handle is invalid."),
                    },
                ),
            },
            Err(e) => AccessResult::Failure(e),
        }
    }

    /// The kind of failure, or `None` on success.
    pub fn error_kind(&self) -> (r: Option<ErrorKind>)
        ensures
            match self {
                AccessResult::Success(_) => r is None,
                AccessResult::Failure(f) => r == Some(kind_of(f.code as int)),
            },
    {
        match self {
            AccessResult::Success(_) => None,
            AccessResult::Failure(f) => Some(f.kind()),
        }
    }
}

/// A Win32 error code that fits in sixteen bits is recovered from the
/// HRESULT that carries it.
pub proof fn lemma_win32_round_trip(code: u32)
    requires
        0 < code < 0x10000,
    ensures
        win32_code_of(hresult_from_win32(code)) == Some(code as nat),
{
    assert(signed_bits(code as int) == code as int);
    assert(code % 0x10000 == code);
    assert(hresult_from_win32(code) == 0x8007_0000 + code - 0x1_0000_0000);
    assert(unsigned_bits(hresult_from_win32(code)) == 0x8007_0000 + code);
}

/// A failure carrying `ERROR_INVALID_PARAMETER` is reported as not found, one
/// carrying `ERROR_ACCESS_DENIED` as access denied, and one carrying any other
/// Win32 code as some other failure.
pub proof fn lemma_kind_of_win32(code: u32)
    requires
        0 < code < 0x10000,
    ensures
        kind_of(hresult_from_win32(code)) == (if code == ERROR_INVALID_PARAMETER {
            ErrorKind::NotFound
        } else if code == ERROR_ACCESS_DENIED {
            ErrorKind::AccessDenied
        } else {
            ErrorKind::Other
        }),
{
    lemma_win32_round_trip(code);
}

/// Whether `c` is a decimal digit.
pub open spec fn is_decimal_digit(c: char) -> bool {
    '0' <= c && c <= '9'
}

/// Whether every character of `s` is a decimal digit.
pub open spec fn all_decimal_digits(s: Seq<char>) -> bool {
    forall|i: int| 0 <= i < s.len() ==> is_decimal_digit(#[trigger] s[i])
}

/// The value of a sequence of decimal digits, most significant first.
pub open spec fn decimal_value(s: Seq<char>) -> int
    decreases s.len(),
{
    if s.len() == 0 {
        0
    } else {
        decimal_value(s.drop_last()) * 10 + ((s.last() as u32) - ('0' as u32))
    }
}

proof fn lemma_decimal_value_nonneg(s: Seq<char>)
    requires
        all_decimal_digits(s),
    ensures
        decimal_value(s) >= 0,
    decreases s.len(),
{
    if s.len() > 0 {
        assert(is_decimal_digit(s[s.len() - 1]));
        lemma_decimal_value_nonneg(s.drop_last());
    }
}

proof fn lemma_prefix_value_le(s: Seq<char>, k: int)
    requires
        all_decimal_digits(s),
        0 <= k <= s.len(),
    ensures
        decimal_value(s.take(k)) <= decimal_value(s),
    decreases s.len() - k,
{
    if k < s.len() {
        lemma_prefix_value_le(s, k + 1);
        let t = s.take(k + 1);
        assert(t.drop_last() =~= s.take(k));
        assert(is_decimal_digit(s[k]));
        lemma_decimal_value_nonneg(s.take(k));
    } else {
        assert(s.take(k) =~= s);
    }
}

/// Reads a process identifier written in decimal: `None` unless `text` is a
/// non-empty run of decimal digits whose value fits in 32 bits.
pub fn parse_process_id(text: &str) -> (r: Option<u32>)
    ensures
        r is Some <==> (text@.len() > 0 && all_decimal_digits(text@) && decimal_value(text@)
            <= u32::MAX),
        r matches Some(v) ==> v as int == decimal_value(text@),
{
    let n = text.unicode_len();
    if n == 0 {
        return None;
    }
    let mut v: u64 = 0;
    let mut i: usize = 0;
    while i < n
        invariant
            0 <= i <= n,
            n == text@.len(),
            all_decimal_digits(text@.take(i as int)),
            v as int == decimal_value(text@.take(i as int)),
            v <= u32::MAX,
        decreases n - i,
    {
        let c = text.get_char(i);
        if !('0' <= c && c <= '9') {
            assert(!is_decimal_digit(text@[i as int]));
            return None;
        }
        let d: u64 = (c as u32 - '0' as u32) as u64;
        let next: u64 = v * 10 + d;
        let ghost t = text@.take(i as int + 1);
        assert(t.drop_last() =~= text@.take(i as int));
        assert(decimal_value(t) == next as int);
        if next > u32::MAX as u64 {
            proof {
                if all_decimal_digits(text@) {
                    lemma_prefix_value_le(text@, i as int + 1);
                }
            }
            return None;
        }
        v = next;
        i = i + 1;
    }
    assert(text@.take(n as int) =~= text@);
    Some(v as u32)
}

} // verus!
