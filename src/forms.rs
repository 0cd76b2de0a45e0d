use vstd::prelude::*;
use crate::ctx::{uuid_text, Ctx};
use crate::password::{is_password_strong, is_strong_password};

verus! {

/// Whether `email` is an address by the HTML5 rule that `validator` checks.
pub uninterp spec fn email_valid(email: Seq<char>) -> bool;

/// Relies on `validator::validate_email` (the HTML5 address rule, with IDN
/// domains): a text without `@` is never an address.
#[verifier::external_body]
fn validate_email(email: &str) -> (r: bool)
    ensures
        r == email_valid(email@),
        !email@.contains('@') ==> !r,
{
    validator::validate_email(email)
}

/// What a form field's live check reports: which element to fill, the
/// message for each outcome, and the outcome.
#[derive(Clone, Copy, Debug)]
pub struct FormValidation<'a> {
    pub target: &'a str,
    pub valid_message: &'a str,
    pub invalid_message: &'a str,
    pub is_valid: bool,
}

/// Outcome of the live check of a user name.
#[derive(Clone, Copy, Debug, PartialEq, Eq, Structural)]
pub struct UsernameValidation {
    pub is_valid: bool,
}

/// The home page of a signed-in user.
#[derive(Clone, Debug)]
pub struct HomePage {
    pub user: Option<String>,
}

impl HomePage {
    /// The home page of the user of `ctx`, named by its identifier's text.
    pub fn for_ctx(ctx: &Ctx) -> (r: HomePage)
        ensures
            r.user matches Some(name) && name@ == uuid_text(ctx@.0),
    {
        HomePage { user: Some(ctx.user_id().to_text()) }
    }
}

/// The live check of an email address whose format is wrong.
pub fn email_format_rejected() -> (r: FormValidation<'static>)
    ensures
        r.target@ == "email-error"@,
        r.valid_message@ == "valid email"@,
        r.invalid_message@ == "invalid email"@,
        !r.is_valid,
{
    FormValidation {
        target: "email-error",
        valid_message: "valid email",
        invalid_message: "invalid email",
        is_valid: false,
    }
}

/// The live check of a well-formed email address, given whether an account
/// already uses it.
pub fn email_availability(already_used: bool) -> (r: FormValidation<'static>)
    ensures
        r.target@ == "email-error"@,
        r.valid_message@ == "valid email"@,
        r.invalid_message@ == "already used"@,
        r.is_valid == !already_used,
{
    FormValidation {
        target: "email-error",
        valid_message: "valid email",
        invalid_message: "already used",
        is_valid: !already_used,
    }
}

/// The first step of the live check of an email address: a malformed
/// address is answered at once; a well-formed one (`None`) must then be
/// looked up.
pub fn email_format_validation(email: &str) -> (r: Option<FormValidation<'static>>)
    ensures
        r is None <==> email_valid(email@),
        r matches Some(v) ==> !v.is_valid && v.target@ == "email-error"@ && v.invalid_message@
            == "invalid email"@,
{
    if validate_email(email) {
        None
    } else {
        Some(email_format_rejected())
    }
}

/// The live check of a user name, given whether an account already uses it.
pub fn username_availability(already_used: bool) -> (r: FormValidation<'static>)
    ensures
        r.target@ == "username-error"@,
        r.valid_message@ == "valid username"@,
        r.invalid_message@ == "already used"@,
        r.is_valid == !already_used,
{
    FormValidation {
        target: "username-error",
        valid_message: "valid username",
        invalid_message: "already used",
        is_valid: !already_used,
    }
}

/// What the sign-up form check decided, in the order the checks are made.
#[derive(Clone, Copy, Debug, PartialEq, Eq, Structural)]
pub enum SignupCheck {
    /// The password and its confirmation differ.
    PasswordMismatch,
    /// The email address is malformed.
    InvalidEmail,
    /// The password does not meet the strength policy.
    WeakPassword,
    /// The account may be created.
    Accepted,
}

/// The sign-up decision given the form and whether its email address is
/// well formed.
pub open spec fn signup_outcome(password: Seq<char>, confirm: Seq<char>, email_ok: bool) -> SignupCheck {
    if password != confirm {
        SignupCheck::PasswordMismatch
    } else if !email_ok {
        SignupCheck::InvalidEmail
    } else if !is_strong_password(password) {
        SignupCheck::WeakPassword
    } else {
        SignupCheck::Accepted
    }
}

/// Decides a sign-up form whose email address has already been checked.
pub fn check_new_user_with(password: &str, password_confirm: &str, email_ok: bool) -> (r: SignupCheck)
    ensures
        r == signup_outcome(password@, password_confirm@, email_ok),
{
    if password.to_owned() != password_confirm.to_owned() {
        SignupCheck::PasswordMismatch
    } else if !email_ok {
        SignupCheck::InvalidEmail
    } else if !is_password_strong(password) {
        SignupCheck::WeakPassword
    } else {
        SignupCheck::Accepted
    }
}

/// Decides a sign-up form: password confirmation, then email format, then
/// password strength.
pub fn check_new_user(password: &str, password_confirm: &str, email: &str) -> (r: SignupCheck)
    ensures
        r == signup_outcome(password@, password_confirm@, email_valid(email@)),
{
    let email_ok = validate_email(email);
    check_new_user_with(password, password_confirm, email_ok)
}

} // verus!
