use vstd::prelude::*;
use vstd::string::StringExecFns;

verus! {

/// The upstream revision this build tracks.
pub const CODEX_UPSTREAM_COMMIT: &'static str = "unknown";

/// The revision of the LiteLLM integration itself.
pub const CODEX_LITELLM_COMMIT: &'static str = "unknown";

/// The base package version that `version_with_commit` decorates.
pub const BASE_VERSION: &'static str = "0.1.0";

/// A version string decorated with the two tracked revisions:
/// `<base>+<upstream>+lit<litellm>`.
pub open spec fn decorated_version(base: Seq<char>) -> Seq<char> {
    base + "+"@ + CODEX_UPSTREAM_COMMIT@ + "+lit"@ + CODEX_LITELLM_COMMIT@
}

/// Decorate a base version with the two tracked revisions.
pub fn decorate_version(base_version: &str) -> (r: String)
    ensures
        r@ == decorated_version(base_version@),
{
    let mut r = base_version.to_owned();
    r.append("+");
    r.append(CODEX_UPSTREAM_COMMIT);
    r.append("+lit");
    r.append(CODEX_LITELLM_COMMIT);
    r
}

/// The package version, decorated with the two tracked revisions.
pub fn version_with_commit() -> (r: String)
    ensures
        r@ == decorated_version(BASE_VERSION@),
{
    decorate_version(BASE_VERSION)
}

} // verus!
