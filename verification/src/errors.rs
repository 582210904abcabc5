use vstd::prelude::*;

verus! {

/// Identifies which field of a request was rejected and which rule it broke.
/// Every failed conversion reports exactly one of these.
#[derive(Clone, Copy, Debug, PartialEq, Eq, Structural)]
pub enum ErrorCode {
    EmailIsEmpty,
    EmailFormatInvalid,
    PasswordIsEmpty,
    PasswordTooLong,
    PasswordForbiddenChar,
    UserNameIsEmpty,
    UserNameTooLong,
}

/// The caller-facing validation error. It carries the single violated rule;
/// no conversion ever aggregates several field errors into one value.
#[derive(Clone, Copy, Debug, PartialEq, Eq, Structural)]
pub struct UserError {
    pub code: ErrorCode,
}

/// Turns the rule reported by a field validator into the caller-facing error.
pub struct ErrorBuilder {
    pub code: ErrorCode,
}

impl ErrorBuilder {
    pub fn new(code: ErrorCode) -> (r: ErrorBuilder)
        ensures
            r.code == code,
    {
        ErrorBuilder { code }
    }

    pub fn build(self) -> (r: UserError)
        ensures
            r.code == self.code,
    {
        UserError { code: self.code }
    }
}

} // verus!
