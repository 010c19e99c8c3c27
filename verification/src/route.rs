//! The routing table shared by both applications: a single declared
//! route, bound to the literal path `"/"`.

use vstd::prelude::*;
use vstd::string::StrSliceExecFns;

verus! {

/// The closed set of declared routes. Both applications declare exactly
/// one page, so the enumeration has a single variant; keeping it a
/// tagged type leaves the dispatch open to more pages later.
#[derive(Clone, Copy, PartialEq, Eq, Structural, Debug)]
pub enum Route {
    Home,
}

/// The path the `Home` route is bound to.
pub open spec fn home_path() -> Seq<char> {
    "/"@
}

/// Resolve a navigation path against the declared routes.
///
/// Exactly the path `"/"` matches, and it matches `Home`; every other
/// path matches no declared route and resolves to `None`, without the
/// resolution itself ever failing.
pub fn resolve(path: &str) -> (r: Option<Route>)
    ensures
        r == Some(Route::Home) <==> path@ == home_path(),
        r is None <==> path@ != home_path(),
{
    proof {
        reveal_strlit("/");
    }
    let n = path.unicode_len();
    if n == 1 && path.get_char(0) == '/' {
        proof {
            assert(path@ =~= home_path());
        }
        Some(Route::Home)
    } else {
        None
    }
}

} // verus!
