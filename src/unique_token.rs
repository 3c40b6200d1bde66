//! Correlation tokens naming broker requests.
use rand::distributions::Alphanumeric;
use rand::{thread_rng, Rng};
use vstd::prelude::*;

verus! {

/// The fixed start of every generated token.
pub open spec fn token_prefix() -> Seq<char> {
    seq!['r', 'd', 'e', 's', 'k', 't', 'o', 'p', 'd', '_']
}

/// Number of random characters after the prefix.
pub const TOKEN_RANDOM_LEN: usize = 15;

pub open spec fn is_ascii_digit(c: char) -> bool {
    '0' as u32 <= c as u32 && c as u32 <= '9' as u32
}

pub open spec fn is_ascii_alphanumeric(c: char) -> bool {
    ||| is_ascii_digit(c)
    ||| ('a' as u32 <= c as u32 && c as u32 <= 'z' as u32)
    ||| ('A' as u32 <= c as u32 && c as u32 <= 'Z' as u32)
}

/// A D-Bus member name: 1 to 255 ASCII letters, digits or `_`, not
/// starting with a digit.
pub open spec fn is_member_name(s: Seq<char>) -> bool {
    &&& 1 <= s.len() <= 255
    &&& !is_ascii_digit(s[0])
    &&& forall|i: int| 0 <= i < s.len() ==> #[trigger] is_ascii_alphanumeric(s[i]) || s[i] == '_'
}

/// Relies on zbus's `MemberName::try_from(&str)`, which succeeds exactly on
/// D-Bus member names (zbus_names' `ensure_correct_member_name`).
#[verifier::external_body]
fn is_valid_member_name(s: &str) -> (r: bool)
    ensures
        r == is_member_name(s@),
{
    zbus::names::MemberName::try_from(s).is_ok()
}

/// Relies on rand's `Alphanumeric` distribution drawn from `thread_rng`:
/// `len` characters, each an ASCII letter or digit.
#[verifier::external_body]
fn random_alphanumeric(len: usize) -> (r: String)
    ensures
        r@.len() == len,
        forall|i: int| 0 <= i < len ==> #[trigger] is_ascii_alphanumeric(r@[i]),
{
    thread_rng().sample_iter(Alphanumeric).take(len).map(char::from).collect()
}

/// Why a string cannot name a token.
#[derive(Debug, Clone, Copy, PartialEq, Eq, Structural)]
pub enum TokenError {
    /// The string is not a D-Bus member name.
    InvalidName,
}

/// An opaque printable token, valid as a D-Bus member name.
#[derive(Debug)]
pub struct UniqueToken {
    name: String,
}

impl View for UniqueToken {
    type V = Seq<char>;

    closed spec fn view(&self) -> Seq<char> {
        self.name@
    }
}

impl UniqueToken {
    pub closed spec fn wf(&self) -> bool {
        is_member_name(self.name@)
    }

    /// A fresh token: the prefix followed by random letters and digits.
    pub fn new() -> (r: Self)
        ensures
            r.wf(),
            r@.len() == 10 + TOKEN_RANDOM_LEN,
            r@.subrange(0, 10) == token_prefix(),
            forall|i: int|
                10 <= i < r@.len() ==> #[trigger] is_ascii_alphanumeric(r@[i]),
    {
        proof {
            reveal_strlit("rdesktopd_");
        }
        let prefix = "rdesktopd_";
        assert(prefix@ =~= token_prefix());
        let tail = random_alphanumeric(TOKEN_RANDOM_LEN);
        let name = prefix.to_owned().concat(tail.as_str());
        let ghost plen = token_prefix().len() as int;
        assert(name@.subrange(0, plen) =~= token_prefix());
        assert forall|i: int| 0 <= i < name@.len() implies #[trigger] is_ascii_alphanumeric(name@[i])
            || name@[i] == '_' by {
            if i >= plen {
                assert(name@[i] == tail@[i - plen]);
            }
        }
        match UniqueToken::try_from(name) {
            Ok(t) => t,
            Err(_) => vstd::pervasive::unreached(),
        }
    }

    /// The token for a given name, if it is a D-Bus member name.
    pub fn try_from(value: String) -> (r: Result<Self, TokenError>)
        ensures
            r is Ok <==> is_member_name(value@),
            r matches Ok(t) ==> t@ == value@ && t.wf(),
            r matches Err(e) ==> e == TokenError::InvalidName,
    {
        if is_valid_member_name(value.as_str()) {
            Ok(UniqueToken { name: value })
        } else {
            Err(TokenError::InvalidName)
        }
    }

    pub fn as_str(&self) -> (r: &str)
        ensures
            r@ == self@,
    {
        self.name.as_str()
    }

    /// The token as an owned string.
    pub fn to_string(&self) -> (r: String)
        ensures
            r@ == self@,
    {
        self.name.clone()
    }
}

impl Default for UniqueToken {
    fn default() -> (r: Self)
        ensures
            r.wf(),
    {
        UniqueToken::new()
    }
}

impl Clone for UniqueToken {
    fn clone(&self) -> (r: Self)
        ensures
            r@ == self@,
            self.wf() ==> r.wf(),
    {
        UniqueToken { name: self.name.clone() }
    }
}

} // verus!
