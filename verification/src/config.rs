use vstd::prelude::*;

verus! {

use vstd::string::StrSliceExecFns;
use vstd::string::StringExecFns;
use crate::text::{has_prefix, check_prefix};

/// Server-side configuration: where to listen, which executable a session
/// runs, how many sessions may live at once, and which directory prefixes a
/// session may be created under.
#[derive(Debug, Clone)]
pub struct Config {
    pub host: String,
    pub port: u16,
    pub executable_path: String,
    pub max_sessions: usize,
    pub allowed_directories: Vec<String>,
}

impl Config {
    /// A directory passes the policy gate when some allow-list entry is a
    /// prefix of it, or when some entry is the wildcard `*`.
    pub open spec fn spec_dir_allowed(self, path: Seq<char>) -> bool {
        exists|i: int|
            0 <= i < self.allowed_directories@.len() && (has_prefix(
                path,
                #[trigger] self.allowed_directories@[i]@,
            ) || self.allowed_directories@[i]@ == "*"@)
    }

    /// The policy gate of session creation: decides `spec_dir_allowed`.
    pub fn is_directory_allowed(&self, path: &str) -> (r: bool)
        ensures
            r == self.spec_dir_allowed(path@),
    {
        let n = self.allowed_directories.len();
        let mut i: usize = 0;
        while i < n
            invariant
                i <= n,
                n == self.allowed_directories@.len(),
                forall|j: int|
                    0 <= j < i ==> !(has_prefix(path@, #[trigger] self.allowed_directories@[j]@)
                        || self.allowed_directories@[j]@ == "*"@),
            decreases n - i,
        {
            let allowed = &self.allowed_directories[i];
            if check_prefix(path, allowed.as_str()) {
                return true;
            }
            if is_wildcard(allowed.as_str()) {
                return true;
            }
            i = i + 1;
        }
        false
    }
}

/// Whether `s` is exactly the wildcard entry `*`.
fn is_wildcard(s: &str) -> (r: bool)
    ensures
        r == (s@ == "*"@),
{
    proof {
        reveal_strlit("*");
    }
    if s.unicode_len() == 1 {
        let c = s.get_char(0);
        if c == '*' {
            assert(s@ =~= "*"@);
            true
        } else {
            false
        }
    } else {
        false
    }
}

impl Default for Config {
    /// The configuration used when the environment supplies nothing: a local
    /// listener, the default executable, ten sessions at most, and the
    /// `/home` and `/tmp` prefixes allowed.
    fn default() -> (c: Config)
        ensures
            c.host@ == "127.0.0.1"@,
            c.port == 3000,
            c.executable_path@ == "termsh"@,
            c.max_sessions == 10,
            c.allowed_directories@.len() == 2,
            c.allowed_directories@[0]@ == "/home"@,
            c.allowed_directories@[1]@ == "/tmp"@,
    {
        let mut dirs: Vec<String> = Vec::new();
        dirs.push(String::from_str("/home"));
        dirs.push(String::from_str("/tmp"));
        Config {
            host: String::from_str("127.0.0.1"),
            port: 3000,
            executable_path: String::from_str("termsh"),
            max_sessions: 10,
            allowed_directories: dirs,
        }
    }
}

} // verus!
