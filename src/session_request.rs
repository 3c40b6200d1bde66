//! Matching a broker request with the reply signal it provokes.
use crate::text::push_char;
use crate::unique_token::{is_ascii_alphanumeric, UniqueToken};
use vstd::prelude::*;

verus! {

/// How the user interaction behind a broker request ended.
#[derive(Debug, Clone, Copy, PartialEq, Eq, Structural)]
pub enum ResponseCode {
    Success,
    Cancelled,
    UnknownEnded,
}

impl ResponseCode {
    pub open spec fn spec_code(self) -> u32 {
        match self {
            ResponseCode::Success => 0,
            ResponseCode::Cancelled => 1,
            ResponseCode::UnknownEnded => 2,
        }
    }

    /// The numeric status carried by the reply signal.
    pub fn code(&self) -> (r: u32)
        ensures
            r == self.spec_code(),
    {
        match self {
            ResponseCode::Success => 0,
            ResponseCode::Cancelled => 1,
            ResponseCode::UnknownEnded => 2,
        }
    }

    /// The status named by a numeric code, if any.
    pub fn from_code(code: u32) -> (r: Option<ResponseCode>)
        ensures
            r matches Some(c) ==> c.spec_code() == code,
            r is None <==> code > 2,
    {
        if code == 0 {
            Some(ResponseCode::Success)
        } else if code == 1 {
            Some(ResponseCode::Cancelled)
        } else if code == 2 {
            Some(ResponseCode::UnknownEnded)
        } else {
            None
        }
    }
}

/// Why a correlated broker request failed.
#[derive(Debug, Clone, Copy, PartialEq, Eq, Structural)]
pub enum CorrelationError {
    /// No reply signal arrived, or its body did not have the expected shape.
    MalformedReply,
    /// The reply signal carried a status other than success.
    BrokerRejected(u32),
    /// The broker call itself failed.
    BrokerCallFailed,
    /// The reply belongs to another request object than the one awaited.
    SpoofedReply,
}

pub open spec fn path_view(p: Option<String>) -> Option<Seq<char>> {
    match p {
        Some(s) => Some(s@),
        None => None,
    }
}

/// The outcome of a correlation, given the reply signal (status and body, if
/// one arrived well-formed), the request path that the completed call
/// returned (if it succeeded), and the request path that was subscribed to.
pub open spec fn correlation_outcome<T>(
    signal: Option<(u32, T)>,
    call_path: Option<Seq<char>>,
    expected_path: Seq<char>,
) -> Result<T, CorrelationError> {
    match signal {
        None => Err(CorrelationError::MalformedReply),
        Some((code, body)) => if code != 0 {
            Err(CorrelationError::BrokerRejected(code))
        } else {
            match call_path {
                None => Err(CorrelationError::BrokerCallFailed),
                Some(p) => if p != expected_path {
                    Err(CorrelationError::SpoofedReply)
                } else {
                    Ok(body)
                },
            }
        },
    }
}

/// Decides the result of a broker request once both its call and its reply
/// signal have resolved.
pub fn correlate<T>(signal: Option<(u32, T)>, call_path: Option<String>, expected_path: &String) -> (r:
    Result<T, CorrelationError>)
    ensures
        r == correlation_outcome(signal, path_view(call_path), expected_path@),
{
    match signal {
        None => Err(CorrelationError::MalformedReply),
        Some((code, body)) => {
            if code != 0 {
                return Err(CorrelationError::BrokerRejected(code));
            }
            match call_path {
                None => Err(CorrelationError::BrokerCallFailed),
                Some(p) => {
                    if p.eq(expected_path) {
                        Ok(body)
                    } else {
                        Err(CorrelationError::SpoofedReply)
                    }
                },
            }
        },
    }
}

/// A success reply from any path other than the awaited one is refused,
/// whatever its body holds.
pub proof fn lemma_spoofed_reply_refused<T>(body: T, call_path: Seq<char>, expected_path: Seq<char>)
    requires
        call_path != expected_path,
    ensures
        correlation_outcome(Some((0u32, body)), Some(call_path), expected_path)
            == Err::<T, CorrelationError>(CorrelationError::SpoofedReply),
{
}

pub open spec fn is_object_path_char(c: char) -> bool {
    is_ascii_alphanumeric(c) || c == '_' || c == '/'
}

/// A D-Bus object path: `/`, or `/`-separated non-empty elements of ASCII
/// letters, digits and `_`, each preceded by `/`.
pub open spec fn is_object_path(s: Seq<char>) -> bool {
    &&& s.len() >= 1
    &&& s[0] == '/'
    &&& forall|i: int| 0 <= i < s.len() ==> #[trigger] is_object_path_char(s[i])
    &&& forall|i: int| 0 < i < s.len() ==> !(#[trigger] s[i] == '/' && s[i - 1] == '/')
    &&& s.len() > 1 ==> s.last() != '/'
}

/// Relies on zvariant's `ObjectPath::try_from(&str)`, which succeeds exactly
/// on D-Bus object paths (zvariant's `ensure_correct_object_path_str`).
#[verifier::external_body]
pub(crate) fn is_valid_object_path(s: &str) -> (r: bool)
    ensures
        r == is_object_path(s@),
{
    zvariant::ObjectPath::try_from(s).is_ok()
}

/// The string without its leading `:` characters.
pub open spec fn trim_start_colons(s: Seq<char>) -> Seq<char>
    decreases s.len(),
{
    if s.len() > 0 && s[0] == ':' {
        trim_start_colons(s.drop_first())
    } else {
        s
    }
}

/// The string with every `.` replaced by `_`.
pub open spec fn dots_to_underscores(s: Seq<char>) -> Seq<char> {
    Seq::new(s.len(), |i: int| if s[i] == '.' { '_' } else { s[i] })
}

/// The path segment that stands for a bus connection's unique name.
pub open spec fn sender_segment(unique_name: Seq<char>) -> Seq<char> {
    dots_to_underscores(trim_start_colons(unique_name))
}

pub open spec fn portal_desktop_prefix() -> Seq<char> {
    seq!['/', 'o', 'r', 'g', '/', 'f', 'r', 'e', 'e', 'd', 'e', 's', 'k', 't', 'o', 'p', '/', 'p', 'o', 'r', 't', 'a', 'l', '/', 'd', 'e', 's', 'k', 't', 'o', 'p', '/']
}

/// The object path on which the broker emits the reply to a request of kind
/// `ty`, made by the connection `unique_name` with the token `handle`.
pub open spec fn request_object_path(ty: Seq<char>, unique_name: Seq<char>, handle: Seq<char>) -> Seq<char> {
    portal_desktop_prefix() + ty + seq!['/'] + sender_segment(unique_name) + seq!['/'] + handle
}

pub fn get_path_by_unique_id(ty: &str, unique_name: &str, handle: &UniqueToken) -> (r: String)
    ensures
        r@ == request_object_path(ty@, unique_name@, handle@),
{
    let prefix = "/org/freedesktop/portal/desktop/";
    proof {
        reveal_strlit("/org/freedesktop/portal/desktop/");
        assert(prefix@ =~= portal_desktop_prefix());
    }
    let mut out = prefix.to_owned().concat(ty);
    push_char(&mut out, '/');
    let n = unique_name.unicode_len();
    let mut k: usize = 0;
    assert(unique_name@.skip(0) =~= unique_name@);
    while k < n && unique_name.get_char(k) == ':'
        invariant
            n == unique_name@.len(),
            0 <= k <= n,
            trim_start_colons(unique_name@.skip(k as int)) == trim_start_colons(unique_name@),
        decreases n - k,
    {
        assert(unique_name@.skip(k as int).drop_first() =~= unique_name@.skip(k + 1));
        k += 1;
    }
    let ghost rest = unique_name@.skip(k as int);
    assert(trim_start_colons(rest) == rest);
    let ghost base = out@;
    let mut i: usize = k;
    while i < n
        invariant
            n == unique_name@.len(),
            k <= i <= n,
            rest == unique_name@.skip(k as int),
            out@ == base + dots_to_underscores(rest).subrange(0, i - k),
        decreases n - i,
    {
        let c = unique_name.get_char(i);
        let m = if c == '.' { '_' } else { c };
        push_char(&mut out, m);
        assert(dots_to_underscores(rest).subrange(0, i + 1 - k) =~= dots_to_underscores(
            rest,
        ).subrange(0, i - k).push(m));
        i += 1;
    }
    assert(dots_to_underscores(rest).subrange(0, n - k) =~= dots_to_underscores(rest));
    push_char(&mut out, '/');
    let r = out.concat(handle.as_str());
    assert(r@ =~= request_object_path(ty@, unique_name@, handle@));
    r
}

} // verus!
