use crate::text::join3;
use vstd::prelude::*;

verus! {

/// The long version text: the package version, then in parentheses the
/// Git commit hash, the build date and the target triple.
pub open spec fn version_text(version: Seq<char>, git_hash: Seq<char>, build_date: Seq<char>, target: Seq<char>) -> Seq<char> {
    version + " ("@ + git_hash + " "@ + build_date + " "@ + target + ")"@
}

/// Returns a human-readable version string that includes the package
/// version, Git commit hash, build date, and target triple, as
/// `VERSION (HASH DATE TARGET)`. The build facts are handed in by the
/// program, which reads them from its build environment.
pub fn version_string(version: &str, git_hash: &str, build_date: &str, target: &str) -> (res:
    String)
    ensures
        res@ == version_text(version@, git_hash@, build_date@, target@),
{
    let a = join3(version, " (", git_hash);
    let b = join3(a.as_str(), " ", build_date);
    let c = join3(b.as_str(), " ", target);
    let mut s = c;
    s.append(")");
    s
}

} // verus!
