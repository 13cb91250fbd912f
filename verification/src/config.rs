//! Configuration values and the decisions taken over them: validating the
//! CA-certificate option, resolving a password from a helper command's
//! output, and choosing the TLS trust mode.

use vstd::prelude::*;
use vstd::string::StrSliceExecFns;

verus! {

/// The credentials and connection settings the client runs with.
pub struct Config {
    pub user: String,
    pub url: String,
    pub password: Option<String>,
    pub password_command: Option<String>,
    pub cacert: Option<String>,
}

/// A configuration problem that is fatal at startup.
#[derive(Debug)]
pub enum ConfigError {
    /// The configured CA certificate path names no existing file.
    CertificateNotFound,
}

impl ConfigError {
    /// The display string of this error.
    pub fn message(&self) -> (r: String)
        ensures
            r@ == "CA certificate not found"@,
    {
        "CA certificate not found".to_owned()
    }
}

/// Which TLS trust configuration to run with.
pub enum TrustMode {
    /// Use the platform's certificate store.
    SystemTrust,
    /// Use only the CA bundle at the given path.
    CustomBundle(String),
    /// Do not verify the server certificate.
    NoVerification,
}

/// The trust mode an optional `cacert` setting selects: absent means the
/// system store, the sentinel `"ignore"` disables verification, and any
/// other value names a CA bundle file.
pub fn select_trust_mode(cacert: &Option<String>) -> (r: TrustMode)
    ensures
        match cacert {
            None => r == TrustMode::SystemTrust,
            Some(p) => if p@ == "ignore"@ {
                r == TrustMode::NoVerification
            } else {
                r matches TrustMode::CustomBundle(q) && q@ == p@
            },
        },
{
    match cacert {
        None => TrustMode::SystemTrust,
        Some(p) => {
            if *p == "ignore".to_owned() {
                TrustMode::NoVerification
            } else {
                TrustMode::CustomBundle(p.clone())
            }
        },
    }
}

/// Whether a `cacert` setting is acceptable: the sentinel `"ignore"`
/// always is, any other value only when a file is present at that path
/// (the caller reports whether one is).
pub fn validate_cacert(f: &str, file_present: bool) -> (r: Result<(), ConfigError>)
    ensures
        r is Ok <==> (f@ == "ignore"@ || file_present),
        r is Err ==> r matches Err(ConfigError::CertificateNotFound),
{
    if f.to_owned() == "ignore".to_owned() {
        Ok(())
    } else if file_present {
        Ok(())
    } else {
        Err(ConfigError::CertificateNotFound)
    }
}

/// Whether a whole configuration is acceptable: one without a `cacert`
/// setting always is, one with it only when [`validate_cacert`] accepts it
/// (`cacert_present` reports whether a file exists at the configured
/// path).
pub fn validate_config(opt: Config, cacert_present: bool) -> (r: Result<Config, ConfigError>)
    ensures
        match opt.cacert {
            None => r matches Ok(c) && c == opt,
            Some(f) => if f@ == "ignore"@ || cacert_present {
                r matches Ok(c) && c == opt
            } else {
                r matches Err(ConfigError::CertificateNotFound)
            },
        },
{
    match &opt.cacert {
        Some(f) => {
            match validate_cacert(f.as_str(), cacert_present) {
                Ok(()) => Ok(opt),
                Err(e) => Err(e),
            }
        },
        None => Ok(opt),
    }
}

/// The index of the first line feed in `s`, or its length when there is
/// none.
pub open spec fn first_nl(s: Seq<char>) -> int
    decreases s.len(),
{
    if s.len() == 0 {
        0
    } else if s[0] == '\n' {
        0
    } else {
        1 + first_nl(s.drop_first())
    }
}

/// The first line of `s`: everything before the first line feed, with a
/// carriage return before it stripped.  An empty `s` has no first line.
pub open spec fn spec_first_line(s: Seq<char>) -> Option<Seq<char>> {
    if s.len() == 0 {
        None
    } else {
        let line = s.take(first_nl(s));
        if line.len() > 0 && line.last() == '\r' {
            Some(line.drop_last())
        } else {
            Some(line)
        }
    }
}

proof fn lemma_first_nl_at(s: Seq<char>, i: int)
    requires
        0 <= i <= s.len(),
        forall|j: int| 0 <= j < i ==> s[j] != '\n',
        i < s.len() ==> s[i] == '\n',
    ensures
        first_nl(s) == i,
    decreases s.len(),
{
    if i == 0 {
    } else {
        let rest = s.drop_first();
        assert forall|j: int| 0 <= j < i - 1 implies rest[j] != '\n' by {
            assert(rest[j] == s[j + 1]);
        }
        lemma_first_nl_at(rest, i - 1);
    }
}

/// The first line of a helper command's output: what stands before the
/// first line feed, with a trailing carriage return stripped.  Empty
/// output yields nothing.
pub fn first_line(s: &str) -> (r: Option<String>)
    ensures
        match spec_first_line(s@) {
            Some(l) => r matches Some(o) && o@ == l,
            None => r is None,
        },
{
    let n = s.unicode_len();
    if n == 0 {
        return None;
    }
    let mut i: usize = 0;
    while i < n && s.get_char(i) != '\n'
        invariant
            i <= n == s@.len(),
            forall|j: int| 0 <= j < i ==> s@[j] != '\n',
        decreases n - i,
    {
        i = i + 1;
    }
    proof {
        lemma_first_nl_at(s@, i as int);
    }
    let mut end = i;
    if end > 0 && s.get_char(end - 1) == '\r' {
        end = end - 1;
        proof {
            let line = s@.take(first_nl(s@));
            assert(line.drop_last() =~= s@.take(end as int));
        }
    }
    Some(s.substring_char(0, end).to_owned())
}

} // verus!
