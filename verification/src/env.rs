//! Which environment the process serves. The text comes from the
//! process environment at the boundary; only the reading of it is
//! decided here.

use vstd::prelude::*;
use vstd::string::StrSliceExecFns;

verus! {

/// The two deployment environments. Development is the default.
#[derive(Clone, Copy, Debug, PartialEq, Eq, Structural)]
pub enum Environment {
    Development,
    Production,
}

impl Default for Environment {
    fn default() -> (r: Self)
        ensures
            r == Environment::Development,
    {
        Environment::Development
    }
}

/// True when the two texts read the same.
fn str_eq(a: &str, b: &str) -> (r: bool)
    ensures
        r == (a@ == b@),
{
    let n = a.unicode_len();
    if n != b.unicode_len() {
        return false;
    }
    let mut i: usize = 0;
    while i < n
        invariant
            n == a@.len(),
            n == b@.len(),
            i <= n,
            forall|k: int| 0 <= k < i ==> a@[k] == b@[k],
        decreases n - i,
    {
        if a.get_char(i) != b.get_char(i) {
            return false;
        }
        i = i + 1;
    }
    proof {
        assert(a@ =~= b@);
    }
    true
}

impl Environment {
    /// The environment a setting names, spelled exactly as its variant.
    pub open spec fn spec_parse(s: Seq<char>) -> Option<Environment> {
        if s == "Development"@ {
            Some(Environment::Development)
        } else if s == "Production"@ {
            Some(Environment::Production)
        } else {
            None
        }
    }

    /// Reads a setting's text; anything but the two variant names is
    /// nothing, and the boundary falls back to its build-dependent
    /// default.
    pub fn parse(s: &str) -> (r: Option<Environment>)
        ensures
            r == Environment::spec_parse(s@),
    {
        if str_eq(s, "Development") {
            Some(Environment::Development)
        } else if str_eq(s, "Production") {
            Some(Environment::Production)
        } else {
            None
        }
    }
}

} // verus!
