//! Runtime settings for the service: where the relational store lives, which
//! address the application listens on, and which environment is selected.
//!
//! The database password is held in [`SecretString`], which never renders its
//! contents except through the single explicit accessor used when connection
//! options are built.

use vstd::prelude::*;
use vstd::string::StrSliceExecFns;
use vstd::string::StringExecFns;

verus! {

/// An opaque secret. Its value is reachable only through
/// [`SecretString::expose_secret`]; anything meant for diagnostics goes
/// through [`SecretString::redacted`] instead.
pub struct SecretString {
    inner: String,
}

impl View for SecretString {
    type V = Seq<char>;

    closed spec fn view(&self) -> Seq<char> {
        self.inner@
    }
}

impl SecretString {
    pub fn new(s: String) -> (r: SecretString)
        ensures
            r@ == s@,
    {
        SecretString { inner: s }
    }

    /// The one deliberate point where the secret may be read.
    pub fn expose_secret(&self) -> (r: &str)
        ensures
            r@ == self@,
    {
        self.inner.as_str()
    }

    /// What any diagnostic rendering of the value shows in place of the secret.
    pub fn redacted(&self) -> (r: &'static str)
        ensures
            r@ == "[REDACTED]"@,
    {
        "[REDACTED]"
    }

    pub fn duplicate(&self) -> (r: SecretString)
        ensures
            r@ == self@,
    {
        SecretString { inner: self.inner.clone() }
    }
}

/// How the relational store is reached.
pub struct DatabaseSettings {
    pub username: String,
    pub password: SecretString,
    pub port: u16,
    pub host: String,
    pub database_name: String,
    pub require_ssl: bool,
}

/// Where the HTTP application listens.
pub struct ApplicationSettings {
    pub port: u16,
    pub host: String,
}

/// Everything the service is configured with.
pub struct Settings {
    pub database: DatabaseSettings,
    pub application: ApplicationSettings,
}

/// The decimal digit `d` as a character.
pub open spec fn dec_digit_char(d: int) -> char
    recommends
        0 <= d < 10,
{
    if d == 0 {
        '0'
    } else if d == 1 {
        '1'
    } else if d == 2 {
        '2'
    } else if d == 3 {
        '3'
    } else if d == 4 {
        '4'
    } else if d == 5 {
        '5'
    } else if d == 6 {
        '6'
    } else if d == 7 {
        '7'
    } else if d == 8 {
        '8'
    } else {
        '9'
    }
}

/// The decimal representation of `n`, most significant digit first, with no
/// leading zero except for `n == 0` itself.
pub open spec fn dec_rep(n: int) -> Seq<char>
    recommends
        n >= 0,
    decreases n,
{
    if n < 10 {
        seq![dec_digit_char(n)]
    } else {
        dec_rep(n / 10).push(dec_digit_char(n % 10))
    }
}

fn digit_str(d: u8) -> (r: &'static str)
    requires
        d < 10,
    ensures
        r@ =~= seq![dec_digit_char(d as int)],
{
    match d {
        0 => {
            proof {
                reveal_strlit("0");
            }
            "0"
        },
        1 => {
            proof {
                reveal_strlit("1");
            }
            "1"
        },
        2 => {
            proof {
                reveal_strlit("2");
            }
            "2"
        },
        3 => {
            proof {
                reveal_strlit("3");
            }
            "3"
        },
        4 => {
            proof {
                reveal_strlit("4");
            }
            "4"
        },
        5 => {
            proof {
                reveal_strlit("5");
            }
            "5"
        },
        6 => {
            proof {
                reveal_strlit("6");
            }
            "6"
        },
        7 => {
            proof {
                reveal_strlit("7");
            }
            "7"
        },
        8 => {
            proof {
                reveal_strlit("8");
            }
            "8"
        },
        _ => {
            proof {
                reveal_strlit("9");
            }
            "9"
        },
    }
}

/// `n` written in decimal.
pub fn u16_to_decimal(n: u16) -> (r: String)
    ensures
        r@ == dec_rep(n as int),
    decreases n,
{
    if n < 10 {
        let r = String::from_str(digit_str(n as u8));
        proof {
            assert(r@ =~= dec_rep(n as int));
        }
        r
    } else {
        let mut r = u16_to_decimal(n / 10);
        r.append(digit_str((n % 10) as u8));
        proof {
            assert(r@ =~= dec_rep(n as int));
        }
        r
    }
}

impl DatabaseSettings {
    /// The full connection string, secret included: this is the second of the
    /// two deliberate places where the password leaves its wrapper, and the
    /// result goes straight to the driver.
    pub fn connection_string(&self) -> (r: String)
        ensures
            r@ == "postgres://"@ + self.username@ + ":"@ + self.password@ + "@"@ + self.host@
                + ":"@ + dec_rep(self.port as int) + "/"@ + self.database_name@,
    {
        let mut s = String::from_str("postgres://");
        s.append(self.username.as_str());
        s.append(":");
        s.append(self.password.expose_secret());
        s.append("@");
        s.append(self.host.as_str());
        s.append(":");
        let port = u16_to_decimal(self.port);
        s.append(port.as_str());
        s.append("/");
        s.append(self.database_name.as_str());
        proof {
            assert(s@ =~= "postgres://"@ + self.username@ + ":"@ + self.password@ + "@"@
                + self.host@ + ":"@ + dec_rep(self.port as int) + "/"@ + self.database_name@);
        }
        s
    }
}

impl ApplicationSettings {
    /// The `host:port` pair the listener binds to.
    pub fn address(&self) -> (r: String)
        ensures
            r@ == self.host@ + ":"@ + dec_rep(self.port as int),
    {
        let mut s = String::from_str(self.host.as_str());
        s.append(":");
        let port = u16_to_decimal(self.port);
        s.append(port.as_str());
        proof {
            assert(s@ =~= self.host@ + ":"@ + dec_rep(self.port as int));
        }
        s
    }
}

/// The runtime environments the application distinguishes.
#[derive(Clone, Copy, PartialEq, Eq, Structural, Debug)]
pub enum Environment {
    Local,
    Production,
}

/// Character `c` equals the lower-case ASCII letter `l`, ignoring ASCII case.
pub open spec fn ascii_caseless_char_eq(c: char, l: char) -> bool {
    c == l || (97 <= l as u32 <= 122 && c as u32 + 32 == l as u32)
}

/// `s` equals the lower-case ASCII word `lower`, ignoring ASCII case.
pub open spec fn ascii_caseless_eq(s: Seq<char>, lower: Seq<char>) -> bool {
    s.len() == lower.len() && forall|i: int|
        0 <= i < s.len() ==> ascii_caseless_char_eq(s[i], #[trigger] lower[i])
}

fn eq_ignore_ascii_case(s: &str, lower: &str) -> (r: bool)
    ensures
        r == ascii_caseless_eq(s@, lower@),
{
    let n = s.unicode_len();
    let m = lower.unicode_len();
    if n != m {
        return false;
    }
    let mut i: usize = 0;
    while i < n
        invariant
            i <= n,
            n == s@.len(),
            n == lower@.len(),
            forall|j: int| 0 <= j < i ==> ascii_caseless_char_eq(s@[j], #[trigger] lower@[j]),
        decreases n - i,
    {
        let c = s.get_char(i);
        let l = lower.get_char(i);
        let same = c == l || (l as u32 >= 97 && l as u32 <= 122 && c as u32 + 32 == l as u32);
        if !same {
            return false;
        }
        i += 1;
    }
    true
}

/// What [`Environment::try_from`] promises: the two environment names are
/// recognised ignoring ASCII case, anything else is refused with a message
/// naming the offending input.
pub open spec fn environment_parse_post(s: Seq<char>, r: Result<Environment, String>) -> bool {
    if ascii_caseless_eq(s, "local"@) {
        r == Ok::<Environment, String>(Environment::Local)
    } else if ascii_caseless_eq(s, "production"@) {
        r == Ok::<Environment, String>(Environment::Production)
    } else {
        r matches Err(m) && m@ == s
            + " is not a supported environment. Use either 'local' or 'production'."@
    }
}

impl Environment {
    pub fn as_str(&self) -> (r: &'static str)
        ensures
            *self == Environment::Local ==> r@ == "local"@,
            *self == Environment::Production ==> r@ == "production"@,
    {
        match self {
            Environment::Local => "local",
            Environment::Production => "production",
        }
    }

    pub fn try_from(s: &str) -> (r: Result<Environment, String>)
        ensures
            environment_parse_post(s@, r),
    {
        if eq_ignore_ascii_case(s, "local") {
            Ok(Environment::Local)
        } else if eq_ignore_ascii_case(s, "production") {
            Ok(Environment::Production)
        } else {
            Err(
                s.to_owned().concat(
                    " is not a supported environment. Use either 'local' or 'production'.",
                ),
            )
        }
    }
}

} // verus!
