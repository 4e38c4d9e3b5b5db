//! Bundling a vendored repository at build time.

use crate::include_dir::{PostBuildHook, PreBuildHook};
use crate::vendor_util::Vendor;
use vstd::prelude::*;
use vstd::string::StringExecFns;

verus! {

/// Why a build failed.
#[derive(Debug)]
pub enum BuildtimeError {
    Internal(String),
}

impl BuildtimeError {
    /// The error in words.
    pub fn message(&self) -> (m: String)
        ensures
            m@ == "Internal error: "@ + self->0@,
    {
        match self {
            BuildtimeError::Internal(e) => String::from_str("Internal error: ").concat(e.as_str()),
        }
    }
}

/// What the outcome of bundling the directory means for the build of the
/// vendor: a failure is passed on in the words of the failure.
pub fn bundle_outcome(r: Result<(), crate::include_dir::BuildtimeError>) -> (outcome: Result<
    (),
    BuildtimeError,
>)
    ensures
        outcome is Ok == r is Ok,
        r matches Err(e) ==> outcome->Err_0->0@ == "internal error: "@ + e->0@,
{
    match r {
        Ok(_) => Ok(()),
        Err(e) => Err(BuildtimeError::Internal(e.message())),
    }
}

/// The configuration of a build that bundles a vendor.
pub struct Buildtime<Pre = crate::include_dir::Noop, Post = crate::include_dir::Noop> where
    Pre: PreBuildHook,
    Post: PostBuildHook,
 {
    /// The vendor.
    pub vendor: Vendor,
    /// The configuration of the bundling of the vendor's directory.
    include_dir: crate::include_dir::Buildtime<Pre, Post>,
}

impl<Pre, Post> Buildtime<Pre, Post> where Pre: PreBuildHook, Post: PostBuildHook {
    /// The vendor.
    pub closed spec fn subject(&self) -> Vendor {
        self.vendor
    }

    /// The configuration of the bundling of the vendor's directory.
    pub closed spec fn bundle(&self) -> crate::include_dir::BuildtimeView<Pre, Post> {
        self.include_dir@
    }

    /// The configuration of a build that bundles the directory of `vendor`
    /// under the vendor's name, without patterns and hooks.
    pub fn try_new(vendor: Vendor) -> (r: Result<Self, BuildtimeError>)
        ensures
            r matches Ok(build) && build.subject() == vendor && build.bundle() == (
            crate::include_dir::BuildtimeView::<Pre, Post> {
                directory_path: vendor.path,
                name: vendor.plan.vendor_name@,
                include_patterns: Set::empty(),
                pre_build_hooks: Seq::empty(),
                post_build_hooks: Seq::empty(),
            }),
    {
        let include_dir = crate::include_dir::Buildtime::new(
            vendor.path.clone(),
            String::from_str(vendor.plan.vendor_name.as_str()),
        );
        Ok(Buildtime { vendor, include_dir })
    }

    /// Adds a pattern for files that go into the archive whatever the ignore
    /// rules say.
    pub fn include_pattern(&mut self, pattern: String)
        ensures
            final(self).subject() == old(self).subject(),
            final(self).bundle() == (crate::include_dir::BuildtimeView {
                include_patterns: old(self).bundle().include_patterns.insert(pattern@),
                ..old(self).bundle()
            }),
    {
        self.include_dir.include_pattern(pattern);
    }

    /// Adds a hook to run before the build, after those added before.
    pub fn before(&mut self, hook: Pre)
        ensures
            final(self).subject() == old(self).subject(),
            final(self).bundle() == (crate::include_dir::BuildtimeView {
                pre_build_hooks: old(self).bundle().pre_build_hooks.push(hook),
                ..old(self).bundle()
            }),
    {
        self.include_dir.before(hook);
    }

    /// Adds a hook to run after the build, after those added before.
    pub fn after(&mut self, hook: Post)
        ensures
            final(self).subject() == old(self).subject(),
            final(self).bundle() == (crate::include_dir::BuildtimeView {
                post_build_hooks: old(self).bundle().post_build_hooks.push(hook),
                ..old(self).bundle()
            }),
    {
        self.include_dir.after(hook);
    }

    /// What the build of the vendor comes to, given what bundling its
    /// directory came to: a failure of the bundling fails the build, in the
    /// words of that failure.
    pub fn build(&self, bundled: Result<(), crate::include_dir::BuildtimeError>) -> (outcome: Result<
        (),
        BuildtimeError,
    >)
        ensures
            outcome is Ok == bundled is Ok,
            bundled matches Err(e) ==> outcome->Err_0->0@ == "internal error: "@ + e->0@,
    {
        bundle_outcome(bundled)
    }

    /// The configuration of the bundling of the vendor's directory.
    pub fn include_dir(&self) -> (bundle: &crate::include_dir::Buildtime<Pre, Post>)
        ensures
            bundle@ == self.bundle(),
    {
        &self.include_dir
    }
}

} // verus!
