//! Vendoring a git repository into the workspace: the plan, where the vendor
//! goes, and what has to be done to the directory that is found there.

use crate::strings::{chars_of, copy_range, find, text_of};
use std::path::PathBuf;
use vstd::prelude::*;
use vstd::string::StringExecFns;

verus! {

/// Why a path could not be had.
#[derive(Debug)]
pub enum VendorUtilError {
    Internal(String),
}

/// Where a vendor goes.
#[derive(Debug, Clone, Copy, PartialEq, Eq, Structural)]
pub enum VendorStrategy {
    /// Into `.vendor/<name>`.
    DotVendor,
    /// Into `target/release/vendor/<name>/revision`.
    TargetVendor,
}

/// Why a plan could not be carried out.
#[derive(Debug)]
pub enum VendorPlanError {
    Internal(String),
    Git(String),
    CreateDir(String),
    RemoveDir(String),
}

/// Why a vendor failed.
#[derive(Debug)]
pub enum VendorError {
    Internal(String),
}

/// Why no plan could be made from a dependency of the workspace.
#[derive(Debug)]
pub enum CargoVendorPlanError {
    Internal(String),
    DependencyNotFound(String),
    NotGitDependency(String),
    NoGitUrl(String),
    NoGitRevision(String),
}

/// What a [`CargoVendorPlanError`] is in contracts.
pub enum CargoVendorPlanErrorView {
    Internal(Seq<char>),
    DependencyNotFound(Seq<char>),
    NotGitDependency(Seq<char>),
    NoGitUrl(Seq<char>),
    NoGitRevision(Seq<char>),
}

impl View for CargoVendorPlanError {
    type V = CargoVendorPlanErrorView;

    open spec fn view(&self) -> CargoVendorPlanErrorView {
        match self {
            CargoVendorPlanError::Internal(t) => CargoVendorPlanErrorView::Internal(t@),
            CargoVendorPlanError::DependencyNotFound(t) => CargoVendorPlanErrorView::DependencyNotFound(
                t@,
            ),
            CargoVendorPlanError::NotGitDependency(t) => CargoVendorPlanErrorView::NotGitDependency(
                t@,
            ),
            CargoVendorPlanError::NoGitUrl(t) => CargoVendorPlanErrorView::NoGitUrl(t@),
            CargoVendorPlanError::NoGitRevision(t) => CargoVendorPlanErrorView::NoGitRevision(t@),
        }
    }
}

/// The components of the path of the vendors directory, below the root of
/// the workspace.
pub fn vendors_path() -> (parts: Vec<String>)
    ensures
        parts.len() == 1,
        parts[0]@ == ".vendor"@,
{
    let mut parts: Vec<String> = Vec::new();
    parts.push(String::from_str(".vendor"));
    parts
}

/// The components of a vendor's path below the root of the workspace, for a
/// strategy.
pub open spec fn vendor_parts(vendor_name: Seq<char>, strategy: VendorStrategy) -> Seq<Seq<char>> {
    match strategy {
        VendorStrategy::DotVendor => seq![".vendor"@, vendor_name],
        VendorStrategy::TargetVendor => seq![
            "target"@,
            "release"@,
            "vendor"@,
            vendor_name,
            "revision"@,
        ],
    }
}

/// The components of the path of the vendor `vendor_name`, below the root of
/// the workspace.
pub fn vendor_path(vendor_name: &str, strategy: &VendorStrategy) -> (parts: Vec<String>)
    ensures
        crate::strings::texts(parts@) == vendor_parts(vendor_name@, *strategy),
{
    let mut parts: Vec<String> = Vec::new();
    match strategy {
        VendorStrategy::DotVendor => {
            parts.push(String::from_str(".vendor"));
            parts.push(String::from_str(vendor_name));
        },
        VendorStrategy::TargetVendor => {
            parts.push(String::from_str("target"));
            parts.push(String::from_str("release"));
            parts.push(String::from_str("vendor"));
            parts.push(String::from_str(vendor_name));
            parts.push(String::from_str("revision"));
        },
    }
    assert(crate::strings::texts(parts@) =~= vendor_parts(vendor_name@, *strategy));
    parts
}

/// A git repository that is to be vendored into the workspace.
#[derive(Debug)]
pub struct VendorPlan {
    /// The name of the vendor.
    pub vendor_name: String,
    /// The git revision of the vendor.
    pub git_rev: String,
    /// The git url of the vendor.
    pub git_url: String,
    /// Where the vendor goes.
    pub strategy: VendorStrategy,
}

/// What is found where a vendor is to go.
pub enum Found {
    /// Nothing.
    Nothing,
    /// Something that is no git repository.
    NoRepository,
    /// A git repository without a remote named `origin`, or with one that
    /// has no url.
    NoOrigin,
    /// A git repository whose remote `origin` has this url.
    Origin(String),
}

/// What has to be done to the place where a vendor is to go, in this order:
/// remove what is there, create the directory above it, and then either
/// clone the repository or fetch into the one that is there. In either case
/// the plan's revision is checked out.
#[derive(Debug, Clone, Copy, PartialEq, Eq, Structural)]
pub struct Steps {
    pub remove_existing: bool,
    pub create_parent: bool,
    pub clone: bool,
}

/// The steps for a strategy, a url and what was found. In the target
/// directory a vendor is always cloned anew. In the vendors directory a
/// repository of the same url is kept and only fetched into; one of another
/// url, and anything that is no repository, is removed first.
pub open spec fn steps_for(strategy: VendorStrategy, git_url: Seq<char>, found: Found) -> Steps {
    match strategy {
        VendorStrategy::TargetVendor => Steps {
            remove_existing: !(found is Nothing),
            create_parent: true,
            clone: true,
        },
        VendorStrategy::DotVendor => match found {
            Found::Nothing => Steps { remove_existing: false, create_parent: true, clone: true },
            Found::NoRepository => Steps { remove_existing: true, create_parent: false, clone: true },
            Found::NoOrigin => Steps { remove_existing: false, create_parent: false, clone: true },
            Found::Origin(url) => Steps {
                remove_existing: url@ != git_url,
                create_parent: false,
                clone: url@ != git_url,
            },
        },
    }
}

impl VendorPlan {
    /// A plan with the given strategy.
    pub fn new(vendor_name: String, git_rev: String, git_url: String, strategy: VendorStrategy) -> (plan:
        VendorPlan)
        ensures
            plan == (VendorPlan { vendor_name, git_rev, git_url, strategy }),
    {
        VendorPlan { vendor_name, git_rev, git_url, strategy }
    }

    /// A plan that vendors into the vendors directory.
    pub fn new_dot_vendor(vendor_name: String, git_rev: String, git_url: String) -> (plan: VendorPlan)
        ensures
            plan == (VendorPlan {
                vendor_name,
                git_rev,
                git_url,
                strategy: VendorStrategy::DotVendor,
            }),
    {
        VendorPlan::new(vendor_name, git_rev, git_url, VendorStrategy::DotVendor)
    }

    /// A plan that vendors into the target directory.
    pub fn new_target_vendor(vendor_name: String, git_rev: String, git_url: String) -> (plan:
        VendorPlan)
        ensures
            plan == (VendorPlan {
                vendor_name,
                git_rev,
                git_url,
                strategy: VendorStrategy::TargetVendor,
            }),
    {
        VendorPlan::new(vendor_name, git_rev, git_url, VendorStrategy::TargetVendor)
    }

    /// Gives the vendor another name.
    pub fn rename(&mut self, new_name: String)
        ensures
            *final(self) == (VendorPlan { vendor_name: new_name, ..*old(self) }),
    {
        self.vendor_name = new_name;
    }

    /// Sets where the vendor goes.
    pub fn set_strategy(&mut self, strategy: VendorStrategy)
        ensures
            *final(self) == (VendorPlan { strategy, ..*old(self) }),
    {
        self.strategy = strategy;
    }

    /// A copy of the plan.
    pub fn duplicate(&self) -> (plan: VendorPlan)
        ensures
            plan.vendor_name@ == self.vendor_name@,
            plan.git_rev@ == self.git_rev@,
            plan.git_url@ == self.git_url@,
            plan.strategy == self.strategy,
    {
        VendorPlan {
            vendor_name: String::from_str(self.vendor_name.as_str()),
            git_rev: String::from_str(self.git_rev.as_str()),
            git_url: String::from_str(self.git_url.as_str()),
            strategy: self.strategy,
        }
    }

    /// The components of the vendor's path below the root of the workspace.
    pub fn path_parts(&self) -> (parts: Vec<String>)
        ensures
            crate::strings::texts(parts@) == vendor_parts(self.vendor_name@, self.strategy),
    {
        vendor_path(self.vendor_name.as_str(), &self.strategy)
    }

    /// What has to be done to carry the plan out, given what is found where
    /// the vendor is to go.
    pub fn steps(&self, found: &Found) -> (steps: Steps)
        ensures
            steps == steps_for(self.strategy, self.git_url@, *found),
    {
        match self.strategy {
            VendorStrategy::TargetVendor => {
                let nothing = match found {
                    Found::Nothing => true,
                    _ => false,
                };
                Steps { remove_existing: !nothing, create_parent: true, clone: true }
            },
            VendorStrategy::DotVendor => match found {
                Found::Nothing => Steps { remove_existing: false, create_parent: true, clone: true },
                Found::NoRepository => Steps {
                    remove_existing: true,
                    create_parent: false,
                    clone: true,
                },
                Found::NoOrigin => Steps { remove_existing: false, create_parent: false, clone: true },
                Found::Origin(url) => {
                    let other = *url != self.git_url;
                    Steps { remove_existing: other, create_parent: false, clone: other }
                },
            },
        }
    }

    /// The vendor that carrying the plan out gives at `path`.
    pub fn executed(&self, path: PathBuf) -> (vendor: Vendor)
        ensures
            vendor.path == path,
            vendor.plan.vendor_name@ == self.vendor_name@,
            vendor.plan.git_rev@ == self.git_rev@,
            vendor.plan.git_url@ == self.git_url@,
            vendor.plan.strategy == self.strategy,
    {
        Vendor { plan: self.duplicate(), path }
    }
}

/// A git repository that has been vendored into the workspace.
#[derive(Debug)]
pub struct Vendor {
    /// The plan of the vendor.
    pub plan: VendorPlan,
    /// The path to the vendor.
    pub path: PathBuf,
}

/// The url and the revision that the source of a dependency names. A source
/// has the form `git+<url>?rev=<rev>` or `<url>?rev=<rev>`; the url ends at
/// its first question mark.
pub open spec fn git_source(dep_name: Seq<char>, source: Option<Seq<char>>) -> Result<
    (Seq<char>, Seq<char>),
    CargoVendorPlanErrorView,
> {
    match source {
        None => Err(CargoVendorPlanErrorView::NotGitDependency(dep_name)),
        Some(src) => {
            let prefixed = src.len() >= 4 && src.subrange(0, 4) == seq!['g', 'i', 't', '+'];
            let rest = if prefixed {
                src.subrange(4, src.len() as int)
            } else {
                src
            };
            let mark = seq!['?', 'r', 'e', 'v', '='];
            if !prefixed && crate::strings::found(src, mark) is None {
                Err(CargoVendorPlanErrorView::NotGitDependency(dep_name))
            } else {
                match crate::strings::found(rest, mark) {
                    None => Err(CargoVendorPlanErrorView::NoGitRevision(dep_name)),
                    Some(k) => {
                        let front = rest.subrange(0, k);
                        let url = match crate::strings::found(front, seq!['?']) {
                            Some(q) => front.subrange(0, q),
                            None => front,
                        };
                        if url.len() == 0 {
                            Err(CargoVendorPlanErrorView::NoGitUrl(dep_name))
                        } else {
                            Ok((url, rest.subrange(k + 5, rest.len() as int)))
                        }
                    },
                }
            }
        },
    }
}

/// The text of an optional source.
pub open spec fn source_view(source: Option<&str>) -> Option<Seq<char>> {
    match source {
        Some(s) => Some(s@),
        None => None,
    }
}

/// A dependency as the metadata of the workspace names it.
#[derive(Debug)]
pub struct Dependency {
    pub name: String,
    /// Where the dependency comes from, if the metadata says so.
    pub source: Option<String>,
}

/// The index of the first dependency at or after `from` that has the name.
pub open spec fn named_from(dependencies: Seq<Dependency>, name: Seq<char>, from: int) -> Option<int>
    decreases dependencies.len() - from,
{
    if from < 0 || from >= dependencies.len() {
        None
    } else if dependencies[from].name@ == name {
        Some(from)
    } else {
        named_from(dependencies, name, from + 1)
    }
}

/// The url and the revision of the first of the dependencies that has the
/// name.
pub open spec fn git_dependency(dependencies: Seq<Dependency>, dep_name: Seq<char>) -> Result<
    (Seq<char>, Seq<char>),
    CargoVendorPlanErrorView,
> {
    match named_from(dependencies, dep_name, 0) {
        None => Err(CargoVendorPlanErrorView::DependencyNotFound(dep_name)),
        Some(i) => git_source(dep_name, crate::strings::text_view(dependencies[i].source)),
    }
}

impl VendorPlan {
    /// The plan for the dependency `dep_name`, given the dependencies of the
    /// packages of the workspace in the order in which the metadata lists
    /// them. The first dependency of that name counts; it has to be a git
    /// dependency with a url and a revision. The plan vendors into the
    /// vendors directory.
    pub fn try_from_cargo_dep(dep_name: &str, dependencies: &Vec<Dependency>) -> (r: Result<
        VendorPlan,
        CargoVendorPlanError,
    >)
        ensures
            match r {
                Ok(plan) => git_dependency(dependencies@, dep_name@) == Ok::<
                    (Seq<char>, Seq<char>),
                    CargoVendorPlanErrorView,
                >((plan.git_url@, plan.git_rev@)) && plan.vendor_name@ == dep_name@
                    && plan.strategy == VendorStrategy::DotVendor,
                Err(e) => git_dependency(dependencies@, dep_name@) == Err::<
                    (Seq<char>, Seq<char>),
                    CargoVendorPlanErrorView,
                >(e@),
            },
    {
        let wanted = String::from_str(dep_name);
        let mut i: usize = 0;
        while i < dependencies.len()
            invariant
                i <= dependencies.len(),
                wanted@ == dep_name@,
                named_from(dependencies@, dep_name@, 0) == named_from(
                    dependencies@,
                    dep_name@,
                    i as int,
                ),
            decreases dependencies.len() - i,
        {
            if dependencies[i].name == wanted {
                return match &dependencies[i].source {
                    Some(source) => VendorPlan::try_from_cargo_source(dep_name, Some(source.as_str())),
                    None => VendorPlan::try_from_cargo_source(dep_name, None),
                };
            }
            i = i + 1;
        }
        Err(CargoVendorPlanError::DependencyNotFound(wanted))
    }

    /// The plan for the dependency `dep_name` of the workspace, given the
    /// source that the workspace's metadata names for it. The dependency has
    /// to be a git dependency with a url and a revision.
    pub fn try_from_cargo_source(dep_name: &str, source: Option<&str>) -> (r: Result<
        VendorPlan,
        CargoVendorPlanError,
    >)
        ensures
            match r {
                Ok(plan) => git_source(dep_name@, source_view(source)) == Ok::<
                    (Seq<char>, Seq<char>),
                    CargoVendorPlanErrorView,
                >((plan.git_url@, plan.git_rev@)) && plan.vendor_name@ == dep_name@
                    && plan.strategy == VendorStrategy::DotVendor,
                Err(e) => git_source(dep_name@, source_view(source)) == Err::<
                    (Seq<char>, Seq<char>),
                    CargoVendorPlanErrorView,
                >(e@),
            },
    {
        let src = match source {
            Some(s) => chars_of(s),
            None => {
                return Err(CargoVendorPlanError::NotGitDependency(String::from_str(dep_name)));
            },
        };
        let mut mark: Vec<char> = Vec::new();
        mark.push('?');
        mark.push('r');
        mark.push('e');
        mark.push('v');
        mark.push('=');
        assert(mark@ =~= seq!['?', 'r', 'e', 'v', '=']);
        let mut query: Vec<char> = Vec::new();
        query.push('?');
        assert(query@ =~= seq!['?']);
        let prefixed = src.len() >= 4 && src[0] == 'g' && src[1] == 'i' && src[2] == 't' && src[3]
            == '+';
        proof {
            if src.len() >= 4 {
                let head = src@.subrange(0, 4);
                assert(head[0] == src@[0] && head[1] == src@[1] && head[2] == src@[2] && head[3]
                    == src@[3]);
                if prefixed {
                    assert(head =~= seq!['g', 'i', 't', '+']);
                }
            }
        }
        if !prefixed && find(&src, &mark).is_none() {
            return Err(CargoVendorPlanError::NotGitDependency(String::from_str(dep_name)));
        }
        let rest = if prefixed {
            copy_range(&src, 4, src.len())
        } else {
            src
        };
        let k = match find(&rest, &mark) {
            Some(k) => k,
            None => {
                return Err(CargoVendorPlanError::NoGitRevision(String::from_str(dep_name)));
            },
        };
        let front = copy_range(&rest, 0, k);
        let end = match find(&front, &query) {
            Some(q) => q,
            None => front.len(),
        };
        proof {
            assert(front@.subrange(0, front.len() as int) =~= front@);
        }
        if end == 0 {
            return Err(CargoVendorPlanError::NoGitUrl(String::from_str(dep_name)));
        }
        let url = text_of(&front, 0, end);
        let rev = text_of(&rest, k + 5, rest.len());
        Ok(VendorPlan::new_dot_vendor(String::from_str(dep_name), rev, url))
    }
}

} // verus!
