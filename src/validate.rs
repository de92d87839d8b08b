use vstd::prelude::*;
use vstd::string::StrSliceExecFns;
use vstd::string::StringExecFns;

verus! {

/// A local, synchronous failure of a field's format rules.
#[derive(Debug, Clone, Copy, PartialEq, Eq, Structural)]
pub enum ValidationError {
    EmptyEmail,
    MalformedEmail,
    EmptyPassword,
    TooWeak,
}

/// The text shown under a field for each validation failure.
pub open spec fn validation_message(e: ValidationError) -> Seq<char> {
    match e {
        ValidationError::EmptyEmail => "email is required"@,
        ValidationError::MalformedEmail => "email is not a valid address"@,
        ValidationError::EmptyPassword => "password is required"@,
        ValidationError::TooWeak => "password is too short"@,
    }
}

impl ValidationError {
    pub fn message(&self) -> (r: String)
        ensures
            r@ == validation_message(*self),
    {
        proof {
            reveal_strlit("email is required");
            reveal_strlit("email is not a valid address");
            reveal_strlit("password is required");
            reveal_strlit("password is too short");
        }
        match self {
            ValidationError::EmptyEmail => String::from_str("email is required"),
            ValidationError::MalformedEmail => String::from_str("email is not a valid address"),
            ValidationError::EmptyPassword => String::from_str("password is required"),
            ValidationError::TooWeak => String::from_str("password is too short"),
        }
    }
}

/// The password policy: the least number of characters a password must have.
#[derive(Debug, Clone, Copy, PartialEq, Eq, Structural)]
pub struct PasswordPolicy {
    pub min_length: usize,
}

impl PasswordPolicy {
    /// Any non-empty password is accepted.
    pub fn new() -> (r: PasswordPolicy)
        ensures
            r.min_length == 1,
    {
        PasswordPolicy { min_length: 1 }
    }

    pub fn with_min_length(min_length: usize) -> (r: PasswordPolicy)
        ensures
            r.min_length == min_length,
    {
        PasswordPolicy { min_length }
    }
}

pub open spec fn is_space(c: char) -> bool {
    c == ' ' || c == '\t' || c == '\n' || c == '\r'
}

/// Empty, or made of white space only.
pub open spec fn is_blank(s: Seq<char>) -> bool {
    forall|i: int| 0 <= i < s.len() ==> is_space(#[trigger] s[i])
}

/// A local part, one `@`, and a domain with a dot that neither starts nor
/// ends it; no white space anywhere.
pub open spec fn is_email_address(s: Seq<char>) -> bool {
    exists|at: int, dot: int|
        0 < at && at + 1 < dot && dot + 1 < s.len() && s[at] == '@' && s[dot] == '.' && (
        forall|i: int| 0 <= i < s.len() && i != at ==> #[trigger] s[i] != '@') && (forall|
            i: int,
        |
            0 <= i < s.len() ==> !is_space(#[trigger] s[i]))
}

pub open spec fn email_verdict(s: Seq<char>) -> Result<(), ValidationError> {
    if is_blank(s) {
        Err(ValidationError::EmptyEmail)
    } else if !is_email_address(s) {
        Err(ValidationError::MalformedEmail)
    } else {
        Ok(())
    }
}

pub open spec fn password_verdict(s: Seq<char>, policy: PasswordPolicy) -> Result<
    (),
    ValidationError,
> {
    if is_blank(s) {
        Err(ValidationError::EmptyPassword)
    } else if s.len() < policy.min_length {
        Err(ValidationError::TooWeak)
    } else {
        Ok(())
    }
}

fn blank(raw: &str) -> (r: bool)
    ensures
        r == is_blank(raw@),
{
    let n = raw.unicode_len();
    let mut i: usize = 0;
    while i < n
        invariant
            n == raw@.len(),
            i <= n,
            forall|j: int| 0 <= j < i ==> is_space(#[trigger] raw@[j]),
        decreases n - i,
    {
        let c = raw.get_char(i);
        if !(c == ' ' || c == '\t' || c == '\n' || c == '\r') {
            return false;
        }
        i = i + 1;
    }
    true
}

/// Checks an email's format: `EmptyEmail` when blank, `MalformedEmail` when
/// it is not an address, and no other outcome.
pub fn validate_email(raw: &str) -> (r: Result<(), ValidationError>)
    ensures
        r == email_verdict(raw@),
{
    if blank(raw) {
        return Err(ValidationError::EmptyEmail);
    }
    let s = Ghost(raw@);
    let n = raw.unicode_len();
    let mut at: usize = 0;
    let mut ats: usize = 0;
    let mut i: usize = 0;
    while i < n
        invariant
            n == s@.len(),
            s@ == raw@,
            !is_blank(raw@),
            i <= n,
            ats <= i,
            ats == 0 ==> forall|j: int| 0 <= j < i ==> #[trigger] s@[j] != '@',
            ats >= 1 ==> at < i && s@[at as int] == '@',
            ats == 1 ==> forall|j: int| 0 <= j < i && j != at ==> #[trigger] s@[j] != '@',
            ats >= 2 ==> exists|j: int| 0 <= j < i && j != at && #[trigger] s@[j] == '@',
            forall|j: int| 0 <= j < i ==> !is_space(#[trigger] s@[j]),
        decreases n - i,
    {
        let c = raw.get_char(i);
        if c == ' ' || c == '\t' || c == '\n' || c == '\r' {
            assert(is_space(s@[i as int]));
            assert(!is_email_address(s@));
            return Err(ValidationError::MalformedEmail);
        }
        if c == '@' {
            if ats == 0 {
                at = i;
            } else {
                assert(s@[i as int] == '@');
            }
            ats = if ats < 2 { ats + 1 } else { 2 };
        }
        i = i + 1;
    }
    if ats != 1 || at == 0 {
        if ats == 0 {
            assert(!is_email_address(s@));
        } else if ats >= 2 {
            assert(!is_email_address(s@));
        } else {
            assert(!is_email_address(s@));
        }
        return Err(ValidationError::MalformedEmail);
    }
    let mut d: usize = at + 1;
    while d < n - 1
        invariant
            n == s@.len(),
            s@ == raw@,
            !is_blank(raw@),
            0 < at < n,
            s@[at as int] == '@',
            forall|j: int| 0 <= j < n && j != at ==> #[trigger] s@[j] != '@',
            forall|j: int| 0 <= j < n ==> !is_space(#[trigger] s@[j]),
            at + 1 <= d <= n,
            forall|j: int| at + 1 < j < d ==> #[trigger] s@[j] != '.',
        decreases n - d,
    {
        if d > at + 1 && raw.get_char(d) == '.' {
            assert(s@[d as int] == '.');
            assert(0 < at && at + 1 < d && d + 1 < s@.len() && s@[at as int] == '@' && s@[d as int] == '.');
            assert(is_email_address(s@));
            return Ok(());
        }
        d = d + 1;
    }
    assert(!is_email_address(s@));
    Err(ValidationError::MalformedEmail)
}

/// Checks a password against the policy: `EmptyPassword` when blank,
/// `TooWeak` when shorter than the policy's minimum.
pub fn validate_password(raw: &str, policy: &PasswordPolicy) -> (r: Result<(), ValidationError>)
    ensures
        r == password_verdict(raw@, *policy),
{
    if blank(raw) {
        return Err(ValidationError::EmptyPassword);
    }
    if raw.unicode_len() < policy.min_length {
        return Err(ValidationError::TooWeak);
    }
    Ok(())
}

} // verus!
