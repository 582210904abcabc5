use crate::errors::ErrorCode;
use vstd::prelude::*;
use vstd::string::StrSliceExecFns;

verus! {

/// Longest password the password validator accepts, counted in characters.
pub const PASSWORD_MAX_LEN: usize = 100;

/// Longest user name the name validator accepts, counted in characters.
pub const NAME_MAX_LEN: usize = 100;

/// Number of occurrences of `c` in `s`.
pub open spec fn count_char(s: Seq<char>, c: char) -> nat
    decreases s.len(),
{
    if s.len() == 0 {
        0
    } else {
        count_char(s.drop_last(), c) + (if s.last() == c {
            1nat
        } else {
            0nat
        })
    }
}

/// A character the password validator refuses: ASCII whitespace.
pub open spec fn forbidden_password_char(c: char) -> bool {
    c == ' ' || c == '\t' || c == '\n' || c == '\r'
}

/// An address is well formed when it has exactly one '@' with at least one
/// character on each side of it.
pub open spec fn valid_email(s: Seq<char>) -> bool {
    &&& s.len() > 0
    &&& count_char(s, '@') == 1
    &&& s.first() != '@'
    &&& s.last() != '@'
}

/// A password is well formed when it is non-empty, not over-length, and free
/// of whitespace.
pub open spec fn valid_password(s: Seq<char>) -> bool {
    &&& s.len() > 0
    &&& s.len() <= PASSWORD_MAX_LEN
    &&& forall|i: int| 0 <= i < s.len() ==> !forbidden_password_char(s[i])
}

/// A user name is well formed when it is non-empty and not over-length.
pub open spec fn valid_name(s: Seq<char>) -> bool {
    &&& s.len() > 0
    &&& s.len() <= NAME_MAX_LEN
}

/// The rule the email validator reports for a rejected address: emptiness
/// wins over shape.
pub open spec fn email_error(s: Seq<char>) -> ErrorCode
    recommends
        !valid_email(s),
{
    if s.len() == 0 {
        ErrorCode::EmailIsEmpty
    } else {
        ErrorCode::EmailFormatInvalid
    }
}

/// The rule the password validator reports for a rejected password:
/// emptiness, then length, then character content.
pub open spec fn password_error(s: Seq<char>) -> ErrorCode
    recommends
        !valid_password(s),
{
    if s.len() == 0 {
        ErrorCode::PasswordIsEmpty
    } else if s.len() > PASSWORD_MAX_LEN {
        ErrorCode::PasswordTooLong
    } else {
        ErrorCode::PasswordForbiddenChar
    }
}

/// The rule the name validator reports for a rejected user name.
pub open spec fn name_error(s: Seq<char>) -> ErrorCode
    recommends
        !valid_name(s),
{
    if s.len() == 0 {
        ErrorCode::UserNameIsEmpty
    } else {
        ErrorCode::UserNameTooLong
    }
}

/// An email address that passed validation. The wrapped string is the
/// validator's normalized output; validation here normalizes to the input
/// itself.
#[derive(Debug)]
pub struct UserEmail(pub String);

/// A password that passed validation.
#[derive(Debug)]
pub struct UserPassword(pub String);

/// A user name that passed validation.
#[derive(Debug)]
pub struct UserName(pub String);

impl UserEmail {
    /// Accepts exactly the well-formed addresses and hands back the
    /// normalized (unchanged) string; rejects anything else with the rule it
    /// broke.
    pub fn parse(s: String) -> (r: Result<UserEmail, ErrorCode>)
        ensures
            r is Ok <==> valid_email(s@),
            r is Ok ==> r->Ok_0.0@ == s@,
            r is Err ==> r->Err_0 == email_error(s@),
    {
        let st: &str = s.as_str();
        let n: usize = st.unicode_len();
        if n == 0 {
            return Err(ErrorCode::EmailIsEmpty);
        }
        if st.get_char(0) == '@' || st.get_char(n - 1) == '@' {
            return Err(ErrorCode::EmailFormatInvalid);
        }
        let mut count: usize = 0;
        let mut i: usize = 0;
        while i < n
            invariant
                st@ == s@,
                n == s@.len(),
                i <= n,
                count <= i,
                count == count_char(s@.subrange(0, i as int), '@'),
            decreases n - i,
        {
            proof {
                assert(s@.subrange(0, i + 1).drop_last() =~= s@.subrange(0, i as int));
            }
            if st.get_char(i) == '@' {
                count = count + 1;
            }
            i = i + 1;
        }
        proof {
            assert(s@.subrange(0, n as int) =~= s@);
        }
        if count == 1 {
            Ok(UserEmail(s))
        } else {
            Err(ErrorCode::EmailFormatInvalid)
        }
    }
}

impl UserPassword {
    /// Accepts exactly the well-formed passwords and hands back the
    /// normalized (unchanged) string; rejects anything else with the rule it
    /// broke.
    pub fn parse(s: String) -> (r: Result<UserPassword, ErrorCode>)
        ensures
            r is Ok <==> valid_password(s@),
            r is Ok ==> r->Ok_0.0@ == s@,
            r is Err ==> r->Err_0 == password_error(s@),
    {
        let st: &str = s.as_str();
        let n: usize = st.unicode_len();
        if n == 0 {
            return Err(ErrorCode::PasswordIsEmpty);
        }
        if n > PASSWORD_MAX_LEN {
            return Err(ErrorCode::PasswordTooLong);
        }
        let mut i: usize = 0;
        while i < n
            invariant
                st@ == s@,
                n == s@.len(),
                0 < n <= PASSWORD_MAX_LEN,
                i <= n,
                forall|j: int| 0 <= j < i ==> !forbidden_password_char(s@[j]),
            decreases n - i,
        {
            let c = st.get_char(i);
            if c == ' ' || c == '\t' || c == '\n' || c == '\r' {
                return Err(ErrorCode::PasswordForbiddenChar);
            }
            i = i + 1;
        }
        Ok(UserPassword(s))
    }
}

impl UserName {
    /// Accepts exactly the well-formed user names and hands back the
    /// normalized (unchanged) string; rejects anything else with the rule it
    /// broke.
    pub fn parse(s: String) -> (r: Result<UserName, ErrorCode>)
        ensures
            r is Ok <==> valid_name(s@),
            r is Ok ==> r->Ok_0.0@ == s@,
            r is Err ==> r->Err_0 == name_error(s@),
    {
        let st: &str = s.as_str();
        let n: usize = st.unicode_len();
        if n == 0 {
            return Err(ErrorCode::UserNameIsEmpty);
        }
        if n > NAME_MAX_LEN {
            return Err(ErrorCode::UserNameTooLong);
        }
        Ok(UserName(s))
    }
}

} // verus!
