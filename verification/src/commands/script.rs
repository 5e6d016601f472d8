//! Running a lifecycle hook by hand for chosen packages: the plan of
//! what to run where. The shell loads and executes the hook scripts;
//! each package is handled independently, so one failure never stops
//! the rest.

use vstd::prelude::*;
use crate::errors::HookKind;
use crate::package::Package;
use crate::repo::Repository;
use crate::repo::find_pkg;
use crate::utils::home_expanded;

verus! {

/// One entry of the plan: what to do for one requested package name.
#[derive(Debug)]
pub enum ScriptPlanEntry {
    /// The catalog knows no package of this name; warn and move on.
    Unknown { name: String },
    /// Run the hook in the package's expanded install path.
    Run { name: String, install_path: String, hook: HookKind },
}

/// Plans a manual hook run: one entry per requested name, in request
/// order — the hook in the package's install path where the name is
/// known, a warning entry where it is not.
pub fn script(repo: &Repository, packages: &Vec<String>, function: HookKind, home: &str) -> (r:
    Vec<ScriptPlanEntry>)
    ensures
        r@.len() == packages@.len(),
        forall|i: int|
            0 <= i < r@.len() ==> match find_pkg(repo@.packages, #[trigger] packages.deep_view()[i]) {
                Some(p) => r@[i] matches ScriptPlanEntry::Run { name, install_path, hook }
                    && name@ == packages.deep_view()[i] && install_path@ == home_expanded(
                    p.install_path,
                    home@,
                ) && hook == function,
                None => r@[i] matches ScriptPlanEntry::Unknown { name } && name@
                    == packages.deep_view()[i],
            },
{
    let n = packages.len();
    let mut plan: Vec<ScriptPlanEntry> = Vec::new();
    let mut i: usize = 0;
    while i < n
        invariant
            i <= n,
            n == packages@.len(),
            packages.deep_view().len() == n,
            plan@.len() == i,
            forall|j: int|
                0 <= j < i ==> match find_pkg(repo@.packages, #[trigger] packages.deep_view()[j]) {
                    Some(p) => plan@[j] matches ScriptPlanEntry::Run { name, install_path, hook }
                        && name@ == packages.deep_view()[j] && install_path@ == home_expanded(
                        p.install_path,
                        home@,
                    ) && hook == function,
                    None => plan@[j] matches ScriptPlanEntry::Unknown { name } && name@
                        == packages.deep_view()[j],
                },
        decreases n - i,
    {
        assert(packages.deep_view()[i as int] == packages@[i as int]@);
        let name = packages[i].clone();
        match repo.find_package(name.as_str()) {
            Some(p) => {
                let install_path = p.install_path(home);
                plan.push(
                    ScriptPlanEntry::Run { name, install_path, hook: function },
                );
            },
            None => {
                plan.push(ScriptPlanEntry::Unknown { name });
            },
        }
        i = i + 1;
    }
    plan
}

} // verus!
