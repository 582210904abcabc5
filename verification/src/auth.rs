use crate::errors::{ErrorBuilder, ErrorCode, UserError};
use crate::parser::{
    email_error, name_error, password_error, valid_email, valid_name, valid_password, UserEmail,
    UserName, UserPassword,
};
use vstd::prelude::*;

verus! {

/// A raw sign-in request as it arrives off the wire; wire field indices are
/// 1 for `email` and 2 for `password`, and stay so across versions.
pub struct SignInRequest {
    pub email: String,
    pub password: String,
}

/// A validated sign-in request: both fields are the validators' normalized
/// outputs. Produced by `convert_sign_in`, never directly from raw input.
/// Wire field indices: 1 `email`, 2 `password`.
#[derive(Debug)]
pub struct SignInParams {
    pub email: String,
    pub password: String,
}

/// The auth service's answer to a successful sign-in. The fields are opaque,
/// server-assigned strings; no validation applies. Wire field indices:
/// 1 `user_id`, 2 `name`, 3 `email`, 4 `token`.
#[derive(Debug)]
pub struct SignInResponse {
    pub user_id: String,
    pub name: String,
    pub email: String,
    pub token: String,
}

/// A raw sign-up request as it arrives off the wire. Wire field indices:
/// 1 `email`, 2 `name`, 3 `password`.
pub struct SignUpRequest {
    pub email: String,
    pub name: String,
    pub password: String,
}

/// A validated sign-up request: all three fields are the validators'
/// normalized outputs. Produced by `convert_sign_up`. Wire field indices:
/// 1 `email`, 2 `name`, 3 `password`.
#[derive(Debug)]
pub struct SignUpParams {
    pub email: String,
    pub name: String,
    pub password: String,
}

/// The auth service's answer to a successful sign-up; opaque strings, as in
/// `SignInResponse`. Wire field indices: 1 `user_id`, 2 `name`, 3 `email`,
/// 4 `token`.
#[derive(Debug)]
pub struct SignUpResponse {
    pub user_id: String,
    pub name: String,
    pub email: String,
    pub token: String,
}

impl Default for SignInRequest {
    fn default() -> (r: SignInRequest)
        ensures
            r.email@ == Seq::<char>::empty(),
            r.password@ == Seq::<char>::empty(),
    {
        SignInRequest { email: String::new(), password: String::new() }
    }
}

impl Default for SignInParams {
    fn default() -> (r: SignInParams)
        ensures
            r.email@ == Seq::<char>::empty(),
            r.password@ == Seq::<char>::empty(),
    {
        SignInParams { email: String::new(), password: String::new() }
    }
}

impl Default for SignInResponse {
    fn default() -> (r: SignInResponse)
        ensures
            r.user_id@ == Seq::<char>::empty(),
            r.name@ == Seq::<char>::empty(),
            r.email@ == Seq::<char>::empty(),
            r.token@ == Seq::<char>::empty(),
    {
        SignInResponse {
            user_id: String::new(),
            name: String::new(),
            email: String::new(),
            token: String::new(),
        }
    }
}

impl Default for SignUpRequest {
    fn default() -> (r: SignUpRequest)
        ensures
            r.email@ == Seq::<char>::empty(),
            r.name@ == Seq::<char>::empty(),
            r.password@ == Seq::<char>::empty(),
    {
        SignUpRequest { email: String::new(), name: String::new(), password: String::new() }
    }
}

impl Default for SignUpParams {
    fn default() -> (r: SignUpParams)
        ensures
            r.email@ == Seq::<char>::empty(),
            r.name@ == Seq::<char>::empty(),
            r.password@ == Seq::<char>::empty(),
    {
        SignUpParams { email: String::new(), name: String::new(), password: String::new() }
    }
}

impl Default for SignUpResponse {
    fn default() -> (r: SignUpResponse)
        ensures
            r.user_id@ == Seq::<char>::empty(),
            r.name@ == Seq::<char>::empty(),
            r.email@ == Seq::<char>::empty(),
            r.token@ == Seq::<char>::empty(),
    {
        SignUpResponse {
            user_id: String::new(),
            name: String::new(),
            email: String::new(),
            token: String::new(),
        }
    }
}

/// A sign-in request succeeds exactly when both of its fields pass their
/// validators.
pub open spec fn sign_in_ok(email: Seq<char>, password: Seq<char>) -> bool {
    valid_email(email) && valid_password(password)
}

/// The single rule a failed sign-in conversion reports, checking the email
/// first: once it is rejected, the password plays no part.
pub open spec fn sign_in_error(email: Seq<char>, password: Seq<char>) -> ErrorCode
    recommends
        !sign_in_ok(email, password),
{
    if !valid_email(email) {
        email_error(email)
    } else {
        password_error(password)
    }
}

/// A sign-up request succeeds exactly when all three of its fields pass
/// their validators.
pub open spec fn sign_up_ok(email: Seq<char>, name: Seq<char>, password: Seq<char>) -> bool {
    valid_email(email) && valid_password(password) && valid_name(name)
}

/// The single rule a failed sign-up conversion reports; the fields are
/// checked in the fixed order email, then password, then name, and the first
/// failure wins.
pub open spec fn sign_up_error(email: Seq<char>, name: Seq<char>, password: Seq<char>) -> ErrorCode
    recommends
        !sign_up_ok(email, name, password),
{
    if !valid_email(email) {
        email_error(email)
    } else if !valid_password(password) {
        password_error(password)
    } else {
        name_error(name)
    }
}

/// Validates a raw sign-in request field by field, short-circuiting at the
/// first failure, and assembles the validated parameters from the
/// validators' outputs.
pub fn convert_sign_in(req: SignInRequest) -> (r: Result<SignInParams, UserError>)
    ensures
        r is Ok <==> sign_in_ok(req.email@, req.password@),
        r is Ok ==> r->Ok_0.email@ == req.email@ && r->Ok_0.password@ == req.password@,
        r is Err ==> r->Err_0.code == sign_in_error(req.email@, req.password@),
{
    let SignInRequest { email, password } = req;
    let email = match UserEmail::parse(email) {
        Ok(e) => e,
        Err(code) => {
            return Err(ErrorBuilder::new(code).build());
        },
    };
    let password = match UserPassword::parse(password) {
        Ok(p) => p,
        Err(code) => {
            return Err(ErrorBuilder::new(code).build());
        },
    };
    Ok(SignInParams { email: email.0, password: password.0 })
}

/// Validates a raw sign-up request field by field, in the order email, then
/// password, then name, short-circuiting at the first failure, and assembles
/// the validated parameters from the validators' outputs.
pub fn convert_sign_up(req: SignUpRequest) -> (r: Result<SignUpParams, UserError>)
    ensures
        r is Ok <==> sign_up_ok(req.email@, req.name@, req.password@),
        r is Ok ==> r->Ok_0.email@ == req.email@ && r->Ok_0.name@ == req.name@
            && r->Ok_0.password@ == req.password@,
        r is Err ==> r->Err_0.code == sign_up_error(req.email@, req.name@, req.password@),
{
    let SignUpRequest { email, name, password } = req;
    let email = match UserEmail::parse(email) {
        Ok(e) => e,
        Err(code) => {
            return Err(ErrorBuilder::new(code).build());
        },
    };
    let password = match UserPassword::parse(password) {
        Ok(p) => p,
        Err(code) => {
            return Err(ErrorBuilder::new(code).build());
        },
    };
    let name = match UserName::parse(name) {
        Ok(n) => n,
        Err(code) => {
            return Err(ErrorBuilder::new(code).build());
        },
    };
    Ok(SignUpParams { email: email.0, name: name.0, password: password.0 })
}

/// Sign-in conversion fails fast on the email: once the address is rejected,
/// the request as a whole is rejected with the email's own rule, and the
/// password has no bearing on the outcome.
pub proof fn lemma_sign_in_email_first(email: Seq<char>, p1: Seq<char>, p2: Seq<char>)
    requires
        !valid_email(email),
    ensures
        !sign_in_ok(email, p1),
        sign_in_error(email, p1) == email_error(email),
        sign_in_error(email, p1) == sign_in_error(email, p2),
{
}

/// When the address is accepted and the password is not, sign-in conversion
/// reports the password's own rule.
pub proof fn lemma_sign_in_password_second(email: Seq<char>, password: Seq<char>)
    requires
        valid_email(email),
        !valid_password(password),
    ensures
        !sign_in_ok(email, password),
        sign_in_error(email, password) == password_error(password),
{
}

/// Sign-up conversion fails fast on the email: a request whose address is
/// rejected surfaces only the email's rule, whatever the name and password
/// hold.
pub proof fn lemma_sign_up_email_first(
    email: Seq<char>,
    n1: Seq<char>,
    p1: Seq<char>,
    n2: Seq<char>,
    p2: Seq<char>,
)
    requires
        !valid_email(email),
    ensures
        !sign_up_ok(email, n1, p1),
        sign_up_error(email, n1, p1) == email_error(email),
        sign_up_error(email, n1, p1) == sign_up_error(email, n2, p2),
{
}

/// In sign-up conversion the password is checked before the name: with the
/// address accepted and the password rejected, the password's rule surfaces,
/// whatever the name holds.
pub proof fn lemma_sign_up_password_before_name(
    email: Seq<char>,
    n1: Seq<char>,
    n2: Seq<char>,
    password: Seq<char>,
)
    requires
        valid_email(email),
        !valid_password(password),
    ensures
        !sign_up_ok(email, n1, password),
        sign_up_error(email, n1, password) == password_error(password),
        sign_up_error(email, n1, password) == sign_up_error(email, n2, password),
{
}

/// Conversion is a pure function of the request's fields: two sign-in
/// requests with equal fields have the same acceptance, the same validated
/// parameters on success, and the same error on failure, so converting the
/// same request twice yields the same result.
pub proof fn lemma_sign_in_deterministic(a: SignInRequest, b: SignInRequest)
    requires
        a.email@ == b.email@,
        a.password@ == b.password@,
    ensures
        sign_in_ok(a.email@, a.password@) == sign_in_ok(b.email@, b.password@),
        sign_in_error(a.email@, a.password@) == sign_in_error(b.email@, b.password@),
{
}

/// Conversion is a pure function of the request's fields, sign-up case.
pub proof fn lemma_sign_up_deterministic(a: SignUpRequest, b: SignUpRequest)
    requires
        a.email@ == b.email@,
        a.name@ == b.name@,
        a.password@ == b.password@,
    ensures
        sign_up_ok(a.email@, a.name@, a.password@) == sign_up_ok(b.email@, b.name@, b.password@),
        sign_up_error(a.email@, a.name@, a.password@) == sign_up_error(
            b.email@,
            b.name@,
            b.password@,
        ),
{
}

} // verus!
