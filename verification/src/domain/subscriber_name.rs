//! A subscriber's display name, accepted only after validation.

use vstd::prelude::*;
use vstd::string::StrSliceExecFns;
use vstd::string::StringExecFns;

verus! {

/// Characters a subscriber name may never contain.
pub open spec fn forbidden_char(c: char) -> bool {
    c == '/' || c == '(' || c == ')' || c == '"' || c == '<' || c == '>' || c == '\\' || c == '{'
        || c == '}'
}

/// The Unicode `White_Space` characters, the set `str::trim` removes.
pub open spec fn whitespace_char(c: char) -> bool {
    ||| c == ' '
    ||| c == '\t'
    ||| c == '\n'
    ||| c == '\r'
    ||| c as u32 == 0x0B
    ||| c as u32 == 0x0C
    ||| c as u32 == 0x85
    ||| c as u32 == 0xA0
    ||| c as u32 == 0x1680
    ||| (0x2000 <= c as u32 && c as u32 <= 0x200A)
    ||| c as u32 == 0x2028
    ||| c as u32 == 0x2029
    ||| c as u32 == 0x202F
    ||| c as u32 == 0x205F
    ||| c as u32 == 0x3000
}

/// A name is accepted iff it has at least one visible character, is at most
/// 256 characters long, and contains no forbidden character.
pub open spec fn name_valid(s: Seq<char>) -> bool {
    &&& exists|i: int| 0 <= i < s.len() && !whitespace_char(s[i])
    &&& s.len() <= 256
    &&& forall|i: int| 0 <= i < s.len() ==> !forbidden_char(s[i])
}

/// What [`SubscriberName::parse`] promises of its result for input `s`.
pub open spec fn name_parse_post(s: Seq<char>, r: Result<SubscriberName, String>) -> bool {
    match r {
        Ok(name) => name_valid(s) && name@ == s,
        Err(m) => !name_valid(s) && m@ == s + " is not a valid subscriber name."@,
    }
}

/// A validated subscriber name: every value of this type satisfies
/// [`name_valid`].
#[derive(Debug)]
pub struct SubscriberName(String);

impl View for SubscriberName {
    type V = Seq<char>;

    closed spec fn view(&self) -> Seq<char> {
        self.0@
    }
}

fn is_forbidden(c: char) -> (r: bool)
    ensures
        r == forbidden_char(c),
{
    c == '/' || c == '(' || c == ')' || c == '"' || c == '<' || c == '>' || c == '\\' || c == '{'
        || c == '}'
}

fn is_whitespace(c: char) -> (r: bool)
    ensures
        r == whitespace_char(c),
{
    let u = c as u32;
    u == 0x20 || u == 0x09 || u == 0x0A || u == 0x0D || u == 0x0B || u == 0x0C || u == 0x85
        || u == 0xA0 || u == 0x1680 || (0x2000 <= u && u <= 0x200A) || u == 0x2028 || u == 0x2029
        || u == 0x202F || u == 0x205F || u == 0x3000
}

/// The executable check behind [`SubscriberName::parse`].
fn name_is_valid(s: &str) -> (r: bool)
    ensures
        r == name_valid(s@),
{
    let n = s.unicode_len();
    if n > 256 {
        return false;
    }
    let mut i: usize = 0;
    let mut has_visible = false;
    while i < n
        invariant
            i <= n,
            n == s@.len(),
            n <= 256,
            has_visible == exists|j: int| 0 <= j < i && !whitespace_char(s@[j]),
            forall|j: int| 0 <= j < i ==> !forbidden_char(#[trigger] s@[j]),
        decreases n - i,
    {
        let c = s.get_char(i);
        if is_forbidden(c) {
            return false;
        }
        if !is_whitespace(c) {
            proof {
                assert(0 <= i < s@.len() && !whitespace_char(s@[i as int]));
            }
            has_visible = true;
        }
        i += 1;
    }
    has_visible
}

impl SubscriberName {
    /// Every value of this type passed validation; `use_type_invariant`
    /// recovers this about any `SubscriberName` at hand.
    #[verifier::type_invariant]
    pub open spec fn wf(self) -> bool {
        name_valid(self@)
    }

    /// Accept `s` as a subscriber name or refuse it, exactly as
    /// [`name_valid`] rules.
    pub fn parse(s: String) -> (r: Result<SubscriberName, String>)
        ensures
            name_parse_post(s@, r),
    {
        if name_is_valid(s.as_str()) {
            Ok(SubscriberName(s))
        } else {
            Err(s.concat(" is not a valid subscriber name."))
        }
    }

    pub fn as_str(&self) -> (r: &str)
        ensures
            r@ == self@,
    {
        self.0.as_str()
    }
}

/// Parsing is a pure function of its input: any two results that
/// [`SubscriberName::parse`] may return for the same characters carry the
/// same verdict and the same observable contents.
pub proof fn lemma_name_parse_deterministic(
    s: Seq<char>,
    r1: Result<SubscriberName, String>,
    r2: Result<SubscriberName, String>,
)
    requires
        name_parse_post(s, r1),
        name_parse_post(s, r2),
    ensures
        r1 is Ok <==> r2 is Ok,
        r1 matches Ok(n1) ==> (r2 matches Ok(n2) && n1@ == n2@),
        r1 matches Err(m1) ==> (r2 matches Err(m2) && m1@ == m2@),
{
}

} // verus!
