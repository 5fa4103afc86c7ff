use vstd::prelude::*;

verus! {

/// The route prefix under which every request needs the credential.
pub open spec fn protected_prefix() -> Seq<char> {
    "/api/v1"@
}

/// Whether a request path lies in the protected scope: the prefix itself,
/// or the prefix followed by a path separator.
pub open spec fn is_protected_path(path: Seq<char>) -> bool {
    let n = protected_prefix().len();
    path.len() >= n && path.subrange(0, n as int) == protected_prefix() && (path.len() == n
        || path[n as int] == '/')
}

/// Whether a request on `path`, presenting `presented` (if anything), gets
/// through a guard holding `secret`. The comparison is exact: no case
/// folding, no trimming.
pub open spec fn admitted(path: Seq<char>, presented: Option<Seq<char>>, secret: Seq<char>) -> bool {
    !is_protected_path(path) || presented == Some(secret)
}

/// Whether `path` lies in the protected scope.
pub fn is_protected(path: &str) -> (r: bool)
    ensures
        r == is_protected_path(path@),
{
    proof {
        reveal_strlit("/api/v1");
    }
    let n = path.unicode_len();
    if n < 7 {
        return false;
    }
    let head = String::from_str(path.substring_char(0, 7));
    let prefix = String::from_str("/api/v1");
    if !(head == prefix) {
        return false;
    }
    n == 7 || path.get_char(7) == '/'
}

/// Gate on the shared secret credential.
pub struct ApiKeyGuard {
    secret: String,
}

impl ApiKeyGuard {
    /// The credential this guard accepts.
    pub closed spec fn key(&self) -> Seq<char> {
        self.secret@
    }

    pub fn new(secret: String) -> (g: ApiKeyGuard)
        ensures
            g.key() == secret@,
    {
        ApiKeyGuard { secret }
    }

    /// Whether the presented credential is exactly the configured one.
    pub fn check(&self, presented: Option<&String>) -> (r: bool)
        ensures
            r == (presented matches Some(k) && k@ == self.key()),
    {
        match presented {
            Some(k) => *k == self.secret,
            None => false,
        }
    }

    /// Whether a request on `path` presenting `presented` gets through.
    /// The request method plays no part.
    pub fn admits(&self, path: &str, presented: Option<&String>) -> (r: bool)
        ensures
            r == admitted(
                path@,
                match presented {
                    Some(k) => Some(k@),
                    None => None,
                },
                self.key(),
            ),
    {
        !is_protected(path) || self.check(presented)
    }
}

/// Within the protected scope, a request gets through exactly when it
/// presents the configured credential; outside it, always.
pub proof fn lemma_guard_exact(path: Seq<char>, presented: Option<Seq<char>>, secret: Seq<char>)
    ensures
        is_protected_path(path) ==> (admitted(path, presented, secret) <==> presented == Some(
            secret,
        )),
        !is_protected_path(path) ==> admitted(path, presented, secret),
        is_protected_path(path) ==> !admitted(path, None, secret),
{
}

} // verus!
