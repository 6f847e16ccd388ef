//! Process configuration data: plain settings values and the environment
//! switch. Reading configuration files and building connection options
//! belong to the binary around the library.

use vstd::prelude::*;

verus! {

/// Configuration of the HTTP server.
#[derive(Debug, Clone)]
pub struct ApplicationSettings {
    /// The hostname of the server.
    pub host: String,
    /// The port of the server.
    pub port: u16,
}

/// Configuration of the database connection.
#[derive(Debug, Clone)]
pub struct DatabaseSettings {
    /// The database's username.
    pub username: String,
    /// The database's password.
    pub password: String,
    /// The database's hostname.
    pub host: String,
    /// The database's port.
    pub port: u16,
    /// The database's name.
    pub database_name: String,
}

/// The whole configuration of the process.
#[derive(Debug, Clone)]
pub struct Settings {
    /// The database connection settings.
    pub database: DatabaseSettings,
    /// The application settings.
    pub application: ApplicationSettings,
}

/// The code point of `c` with an upper-case ASCII letter folded to lower
/// case.
pub open spec fn lower_code(c: char) -> u32 {
    let u = c as u32;
    if 65 <= u <= 90 {
        (u + 32) as u32
    } else {
        u
    }
}

/// ASCII-case-insensitive equality of two character sequences.
pub open spec fn eq_ignore_ascii_case(a: Seq<char>, b: Seq<char>) -> bool {
    a.len() == b.len() && forall|i: int| 0 <= i < a.len() ==> lower_code(a[i]) == lower_code(b[i])
}

/// Compares two strings ASCII-case-insensitively.
fn eq_ic(a: &str, b: &str) -> (r: bool)
    ensures
        r == eq_ignore_ascii_case(a@, b@),
{
    let na = a.unicode_len();
    let nb = b.unicode_len();
    if na != nb {
        return false;
    }
    let mut i: usize = 0;
    while i < na
        invariant
            0 <= i <= na,
            na == a@.len(),
            na == b@.len(),
            forall|j: int| 0 <= j < i ==> lower_code(a@[j]) == lower_code(b@[j]),
        decreases na - i,
    {
        let ca = a.get_char(i) as u32;
        let cb = b.get_char(i) as u32;
        let la = if 65 <= ca && ca <= 90 {
            ca + 32
        } else {
            ca
        };
        let lb = if 65 <= cb && cb <= 90 {
            cb + 32
        } else {
            cb
        };
        if la != lb {
            assert(lower_code(a@[i as int]) != lower_code(b@[i as int]));
            return false;
        }
        i = i + 1;
    }
    true
}

/// The runtime environment of the process.
#[derive(Debug, Clone, Copy, PartialEq, Eq, Structural)]
pub enum Environment {
    Local,
    Production,
}

impl Environment {
    /// The canonical name of the environment.
    pub fn as_str(&self) -> (r: &'static str)
        ensures
            match self {
                Environment::Local => r@ == "local"@,
                Environment::Production => r@ == "production"@,
            },
    {
        match self {
            Environment::Local => "local",
            Environment::Production => "production",
        }
    }

    /// Reads an environment name, ignoring ASCII case; anything but
    /// `local` or `production` is rejected, naming the offending value.
    pub fn try_from(s: String) -> (r: Result<Self, String>)
        ensures
            eq_ignore_ascii_case(s@, "local"@) ==> r == Ok::<Environment, String>(
                Environment::Local,
            ),
            eq_ignore_ascii_case(s@, "production"@) ==> r == Ok::<Environment, String>(
                Environment::Production,
            ),
            !eq_ignore_ascii_case(s@, "local"@) && !eq_ignore_ascii_case(s@, "production"@) ==> (
            r matches Err(m) && m@ == s@
                + " is not a supported environment. Use either `local` or `production`"@),
    {
        if eq_ic(s.as_str(), "local") {
            proof {
                reveal_strlit("local");
                reveal_strlit("production");
            }
            Ok(Environment::Local)
        } else if eq_ic(s.as_str(), "production") {
            Ok(Environment::Production)
        } else {
            Err(s.concat(" is not a supported environment. Use either `local` or `production`"))
        }
    }
}

} // verus!
