//! Field rules for incoming requests and the report of the fields that break them.

use vstd::prelude::*;
use vstd::string::*;

verus! {

/// Whether `validator`'s e-mail check (`ValidateEmail::validate_email`, the
/// HTML5 rule with an IDN fallback) accepts the text.
pub uninterp spec fn email_format_ok(text: Seq<char>) -> bool;

/// Whether `validator`'s URL check (`ValidateUrl::validate_url`, that is
/// `url::Url::parse` succeeding) accepts the text.
pub uninterp spec fn url_format_ok(text: Seq<char>) -> bool;

/// Checks an e-mail address with `validator::ValidateEmail::validate_email`.
/// Besides naming the result, the contract states what that function's first
/// test shows: an empty text, or one without `@`, is refused.
#[verifier::external_body]
pub(crate) fn is_valid_email(text: &str) -> (ok: bool)
    ensures
        ok == email_format_ok(text@),
        !text@.contains('@') ==> !ok,
{
    validator::ValidateEmail::validate_email(&text)
}

/// Checks a URL with `validator::ValidateUrl::validate_url`; the contract only
/// names the result.
#[verifier::external_body]
pub(crate) fn is_valid_url(text: &str) -> (ok: bool)
    ensures
        ok == url_format_ok(text@),
{
    validator::ValidateUrl::validate_url(&text)
}

/// The number of characters of `text` lies in `min..=max`.
pub open spec fn char_count_between(text: Seq<char>, min: nat, max: nat) -> bool {
    min <= text.len() <= max
}

/// Whether `text` has between `min` and `max` characters (both included).
pub fn has_char_count_between(text: &str, min: usize, max: usize) -> (ok: bool)
    ensures
        ok == char_count_between(text@, min as nat, max as nat),
{
    let n = text.unicode_len();
    min <= n && n <= max
}

/// Whether `text` has at least `min` characters.
pub fn has_at_least_chars(text: &str, min: usize) -> (ok: bool)
    ensures
        ok == (text@.len() >= min),
{
    text.unicode_len() >= min
}

/// Whether `text` has at most `max` characters.
pub fn has_at_most_chars(text: &str, max: usize) -> (ok: bool)
    ensures
        ok == (text@.len() <= max),
{
    text.unicode_len() <= max
}

/// One broken rule of one field.
#[derive(Clone, Copy, Debug, PartialEq, Eq, Structural)]
pub enum Violation {
    /// `username` has fewer than 3 or more than 50 characters.
    UsernameLength,
    /// `email` is not an e-mail address.
    EmailFormat,
    /// `password` has fewer than 8 characters.
    PasswordLength,
    /// `password` is empty.
    PasswordRequired,
    /// `new_password` has fewer than 8 characters.
    NewPasswordLength,
    /// `bio` has more than 500 characters.
    BioLength,
    /// `image` is not a URL.
    ImageUrl,
}

impl Violation {
    pub open spec fn field_spec(self) -> Seq<char> {
        match self {
            Violation::UsernameLength => "username"@,
            Violation::EmailFormat => "email"@,
            Violation::PasswordLength => "password"@,
            Violation::PasswordRequired => "password"@,
            Violation::NewPasswordLength => "new_password"@,
            Violation::BioLength => "bio"@,
            Violation::ImageUrl => "image"@,
        }
    }

    pub open spec fn message_spec(self) -> Seq<char> {
        match self {
            Violation::UsernameLength => "Username must be between 3 and 50 characters"@,
            Violation::EmailFormat => "Invalid email format"@,
            Violation::PasswordLength => "Password must be at least 8 characters"@,
            Violation::PasswordRequired => "Password is required"@,
            Violation::NewPasswordLength => "Password must be at least 8 characters"@,
            Violation::BioLength => "Bio cannot exceed 500 characters"@,
            Violation::ImageUrl => "Image must be a valid URL"@,
        }
    }

    /// The name of the field that breaks the rule.
    pub fn field(&self) -> (name: &'static str)
        ensures
            name@ == self.field_spec(),
    {
        match self {
            Violation::UsernameLength => "username",
            Violation::EmailFormat => "email",
            Violation::PasswordLength => "password",
            Violation::PasswordRequired => "password",
            Violation::NewPasswordLength => "new_password",
            Violation::BioLength => "bio",
            Violation::ImageUrl => "image",
        }
    }

    /// The message that the rule gives.
    pub fn message(&self) -> (text: &'static str)
        ensures
            text@ == self.message_spec(),
    {
        match self {
            Violation::UsernameLength => "Username must be between 3 and 50 characters",
            Violation::EmailFormat => "Invalid email format",
            Violation::PasswordLength => "Password must be at least 8 characters",
            Violation::PasswordRequired => "Password is required",
            Violation::NewPasswordLength => "Password must be at least 8 characters",
            Violation::BioLength => "Bio cannot exceed 500 characters",
            Violation::ImageUrl => "Image must be a valid URL",
        }
    }
}

/// One report line: the field, a colon and a space, the message.
pub open spec fn violation_line(v: Violation) -> Seq<char> {
    v.field_spec() + ": "@ + v.message_spec()
}

/// The report: one line per violation, in order, separated by line feeds.
pub open spec fn violations_text(vs: Seq<Violation>) -> Seq<char>
    decreases vs.len(),
{
    if vs.len() == 0 {
        Seq::empty()
    } else if vs.len() == 1 {
        violation_line(vs[0])
    } else {
        violations_text(vs.drop_last()) + "\n"@ + violation_line(vs.last())
    }
}

/// `v` as a one-element sequence when `broken`, else nothing.
pub open spec fn if_broken(broken: bool, v: Violation) -> Seq<Violation> {
    if broken { seq![v] } else { Seq::empty() }
}

/// The fields of a request that break their rules, in the order of the fields.
#[derive(Clone, Debug, PartialEq, Eq)]
pub struct ValidationErrors {
    pub violations: Vec<Violation>,
}

impl ValidationErrors {
    /// The report of all violations, as the request's handler answers it.
    pub fn to_message(&self) -> (text: String)
        ensures
            text@ == violations_text(self.violations@),
    {
        let vs = &self.violations;
        let mut text = String::new();
        let mut i: usize = 0;
        while i < vs.len()
            invariant
                i <= vs@.len(),
                text@ == violations_text(vs@.take(i as int)),
            decreases vs@.len() - i,
        {
            let v = vs[i];
            if i != 0 {
                text.append("\n");
            }
            text.append(v.field());
            text.append(": ");
            text.append(v.message());
            assert(vs@.take(i + 1).drop_last() =~= vs@.take(i as int));
            assert(vs@.take(i + 1).last() == v);
            i = i + 1;
        }
        assert(vs@.take(vs@.len() as int) =~= vs@);
        text
    }
}

/// `Ok` when no rule is broken, else the list of broken rules.
pub fn report(violations: Vec<Violation>) -> (res: Result<(), ValidationErrors>)
    ensures
        violations@.len() == 0 ==> res is Ok,
        violations@.len() != 0 ==> (res matches Err(e) && e.violations@ == violations@),
{
    if violations.len() == 0 {
        Ok(())
    } else {
        Err(ValidationErrors { violations })
    }
}

} // verus!
