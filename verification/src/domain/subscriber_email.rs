//! A subscriber's email address, accepted only after validation.

use vstd::prelude::*;
use vstd::string::StringExecFns;

verus! {

/// The verdict of the reference email-address syntax check on `s`. The check
/// itself is the outside validator's; the verdict depends on the characters
/// alone, so it is only named here, and a few refusals its source plainly
/// shows are recorded with the call below.
pub uninterp spec fn email_valid(s: Seq<char>) -> bool;

/// Relies on validator's `ValidateEmail::validate_email` for `&str`: the
/// verdict is a function of the characters alone, and the source returns
/// `false` outright for the empty string, for a string without `@`, and
/// (through the non-empty user-part pattern) for a string whose only `@` is
/// its first character.
#[verifier::external_body]
fn validate_email_str(s: &str) -> (r: bool)
    ensures
        r == email_valid(s@),
        s@.len() == 0 ==> !r,
        (forall|i: int| 0 <= i < s@.len() ==> s@[i] != '@') ==> !r,
        (s@.len() > 0 && s@[0] == '@' && (forall|i: int| 1 <= i < s@.len() ==> s@[i] != '@'))
            ==> !r,
{
    validator::ValidateEmail::validate_email(&s)
}

/// Why an email address or a name was refused.
pub type SubscriberParseError = String;

pub type SubscriberParseResult = Result<SubscriberEmail, SubscriberParseError>;

/// What [`SubscriberEmail::parse`] promises of its result for input `s`.
pub open spec fn email_parse_post(s: Seq<char>, r: SubscriberParseResult) -> bool {
    match r {
        Ok(email) => email_valid(s) && email@ == s,
        Err(m) => !email_valid(s) && m@ == s + " is not a valid subscriber email."@,
    }
}

/// A validated email address: every value of this type satisfies
/// [`email_valid`].
#[derive(Debug)]
pub struct SubscriberEmail(String);

impl View for SubscriberEmail {
    type V = Seq<char>;

    closed spec fn view(&self) -> Seq<char> {
        self.0@
    }
}

impl SubscriberEmail {
    /// Every value of this type passed validation; `use_type_invariant`
    /// recovers this about any `SubscriberEmail` at hand.
    #[verifier::type_invariant]
    pub open spec fn wf(self) -> bool {
        email_valid(self@)
    }

    /// Accept `s` as an email address or refuse it, exactly as the reference
    /// syntax check rules; in particular the empty string, a string without
    /// `@`, and a string whose only `@` is its first character are refused.
    pub fn parse(s: String) -> (r: SubscriberParseResult)
        ensures
            email_parse_post(s@, r),
            s@.len() == 0 ==> r is Err,
            (forall|i: int| 0 <= i < s@.len() ==> s@[i] != '@') ==> r is Err,
            (s@.len() > 0 && s@[0] == '@' && (forall|i: int| 1 <= i < s@.len() ==> s@[i] != '@'))
                ==> r is Err,
    {
        if validate_email_str(s.as_str()) {
            Ok(SubscriberEmail(s))
        } else {
            Err(s.concat(" is not a valid subscriber email."))
        }
    }

    pub fn as_str(&self) -> (r: &str)
        ensures
            r@ == self@,
    {
        self.0.as_str()
    }
}

/// Parsing is a pure function of its input: any two results that
/// [`SubscriberEmail::parse`] may return for the same characters carry the
/// same verdict and the same observable contents.
pub proof fn lemma_email_parse_deterministic(
    s: Seq<char>,
    r1: SubscriberParseResult,
    r2: SubscriberParseResult,
)
    requires
        email_parse_post(s, r1),
        email_parse_post(s, r2),
    ensures
        r1 is Ok <==> r2 is Ok,
        r1 matches Ok(e1) ==> (r2 matches Ok(e2) && e1@ == e2@),
        r1 matches Err(m1) ==> (r2 matches Err(m2) && m1@ == m2@),
{
}

/// Any string the reference syntax check accepts — every output of a
/// well-behaved address generator, for instance — parses successfully, and
/// the parsed value keeps the input's characters exactly. That a particular
/// outside generator emits only such strings cannot be stated here; the
/// tests sample one.
pub proof fn lemma_accepted_email_parses(s: Seq<char>, r: SubscriberParseResult)
    requires
        email_parse_post(s, r),
        email_valid(s),
    ensures
        r matches Ok(email) && email@ == s,
{
}

/// Anything that can try to become a [`SubscriberEmail`].
pub trait SubscribeEmailExt: View<V = Seq<char>> + Sized {
    fn try_into_subscriber_email(self) -> (r: SubscriberParseResult)
        ensures
            email_parse_post(self@, r),
            self@.len() == 0 ==> r is Err,
            (forall|i: int| 0 <= i < self@.len() ==> self@[i] != '@') ==> r is Err,
            (self@.len() > 0 && self@[0] == '@' && (forall|i: int|
                1 <= i < self@.len() ==> self@[i] != '@')) ==> r is Err,
    ;
}

impl SubscribeEmailExt for String {
    fn try_into_subscriber_email(self) -> (r: SubscriberParseResult) {
        SubscriberEmail::parse(self)
    }
}

} // verus!
