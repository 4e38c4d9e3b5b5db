//! Making sure that container images are at hand: the configuration of the
//! build step, and the choice of what to pull.

use crate::names::NameSet;
use std::fmt::Debug;
use vstd::prelude::*;
use vstd::string::StringExecFns;

verus! {

/// Why a hook failed.
#[derive(Debug)]
pub enum HookError {
    Internal(String),
}

/// What runs before a build.
pub trait PreBuildHook: Debug + Clone {
    fn before(&self) -> (r: Result<(), HookError>);
}

/// What runs after a build.
pub trait PostBuildHook: Debug + Clone {
    fn after(&self) -> (r: Result<(), HookError>);
}

/// The hook that does nothing.
#[derive(Debug, Clone, Copy)]
pub struct Noop;

impl PreBuildHook for Noop {
    fn before(&self) -> (r: Result<(), HookError>)
        ensures
            r is Ok,
    {
        Ok(())
    }
}

impl PostBuildHook for Noop {
    fn after(&self) -> (r: Result<(), HookError>)
        ensures
            r is Ok,
    {
        Ok(())
    }
}

/// Why a build failed.
#[derive(Debug)]
pub enum BuildtimeError {
    Internal(String),
}

/// Why the runtime failed.
#[derive(Debug)]
pub enum RuntimeError {
    Internal(String),
}

impl HookError {
    /// The error in words.
    pub fn message(&self) -> (m: String)
        ensures
            m@ == "internal error: "@ + self->0@,
    {
        match self {
            HookError::Internal(e) => String::from_str("internal error: ").concat(e.as_str()),
        }
    }
}

impl BuildtimeError {
    /// The error in words.
    pub fn message(&self) -> (m: String)
        ensures
            m@ == "internal error: "@ + self->0@,
    {
        match self {
            BuildtimeError::Internal(e) => String::from_str("internal error: ").concat(e.as_str()),
        }
    }
}

impl RuntimeError {
    /// The error in words.
    pub fn message(&self) -> (m: String)
        ensures
            m@ == "internal error: "@ + self->0@,
    {
        match self {
            RuntimeError::Internal(e) => String::from_str("internal error: ").concat(e.as_str()),
        }
    }
}

/// Whether the hook can run well before a build.
pub open spec fn passes_before<Pre: PreBuildHook>(hook: Pre) -> bool {
    exists|out: Result<(), HookError>| #[trigger]
        call_ensures(Pre::before, (&hook,), out) && out is Ok
}

/// Whether the hook can fail before a build, in a way that fails the build
/// with the words `failure`.
pub open spec fn fails_before<Pre: PreBuildHook>(hook: Pre, failure: Seq<char>) -> bool {
    exists|out: Result<(), HookError>| #[trigger]
        call_ensures(Pre::before, (&hook,), out) && out is Err && failure == "internal error: "@
            + out->Err_0->0@
}

/// Whether the hook can run well after a build.
pub open spec fn passes_after<Post: PostBuildHook>(hook: Post) -> bool {
    exists|out: Result<(), HookError>| #[trigger]
        call_ensures(Post::after, (&hook,), out) && out is Ok
}

/// Whether the hook can fail after a build, in a way that fails the build
/// with the words `failure`.
pub open spec fn fails_after<Post: PostBuildHook>(hook: Post, failure: Seq<char>) -> bool {
    exists|out: Result<(), HookError>| #[trigger]
        call_ensures(Post::after, (&hook,), out) && out is Err && failure == "internal error: "@
            + out->Err_0->0@
}

/// What the outcome of a hook means for the build.
pub fn hook_outcome(r: Result<(), HookError>) -> (outcome: Result<(), BuildtimeError>)
    ensures
        outcome is Ok == r is Ok,
        r matches Err(e) ==> outcome->Err_0->0@ == "internal error: "@ + e->0@,
{
    match r {
        Ok(_) => Ok(()),
        Err(e) => Err(BuildtimeError::Internal(e.message())),
    }
}

/// Whether an image has to be pulled, given the number of local images that
/// its reference names: only an image that is not there is pulled.
pub fn needs_pull(local_images: usize) -> (pull: bool)
    ensures
        pull == (local_images == 0),
{
    local_images == 0
}

/// The line that reports the progress of a pull during a build.
pub fn pull_warning(status: &str) -> (line: String)
    ensures
        line@ == "cargo:warning=Docker: "@ + status@,
{
    String::from_str("cargo:warning=Docker: ").concat(status)
}

/// The line that reports the progress of a pull at run time.
pub fn pull_notice(status: &str) -> (line: String)
    ensures
        line@ == "Docker: "@ + status@,
{
    String::from_str("Docker: ").concat(status)
}

/// The configuration of a build step that pulls images.
pub struct Buildtime<Pre = Noop, Post = Noop> where Pre: PreBuildHook, Post: PostBuildHook {
    images: NameSet,
    pre_build_hooks: Vec<Pre>,
    post_build_hooks: Vec<Post>,
}

/// A build configuration in contracts.
pub struct BuildtimeView<Pre, Post> {
    pub images: Set<Seq<char>>,
    pub pre_build_hooks: Seq<Pre>,
    pub post_build_hooks: Seq<Post>,
}

impl<Pre, Post> View for Buildtime<Pre, Post> where Pre: PreBuildHook, Post: PostBuildHook {
    type V = BuildtimeView<Pre, Post>;

    closed spec fn view(&self) -> BuildtimeView<Pre, Post> {
        BuildtimeView {
            images: self.images@,
            pre_build_hooks: self.pre_build_hooks@,
            post_build_hooks: self.post_build_hooks@,
        }
    }
}

impl<Pre, Post> Buildtime<Pre, Post> where Pre: PreBuildHook, Post: PostBuildHook {
    /// A configuration without images and hooks.
    pub fn new() -> (build: Self)
        ensures
            build@ == (BuildtimeView::<Pre, Post> {
                images: Set::empty(),
                pre_build_hooks: Seq::empty(),
                post_build_hooks: Seq::empty(),
            }),
    {
        Buildtime {
            images: NameSet::new(),
            pre_build_hooks: Vec::new(),
            post_build_hooks: Vec::new(),
        }
    }

    /// Adds an image to be pulled.
    pub fn add_image(&mut self, image: String) -> (this: &mut Self)
        ensures
            this@ == (BuildtimeView { images: old(self)@.images.insert(image@), ..old(self)@ }),
            *final(self) == *final(this),
    {
        self.images.insert(image);
        self
    }

    /// Adds a hook to run before the build, after those added before.
    pub fn before(&mut self, hook: Pre)
        ensures
            final(self)@ == (BuildtimeView {
                pre_build_hooks: old(self)@.pre_build_hooks.push(hook),
                ..old(self)@
            }),
    {
        self.pre_build_hooks.push(hook);
    }

    /// Adds a hook to run after the build, after those added before.
    pub fn after(&mut self, hook: Post)
        ensures
            final(self)@ == (BuildtimeView {
                post_build_hooks: old(self)@.post_build_hooks.push(hook),
                ..old(self)@
            }),
    {
        self.post_build_hooks.push(hook);
    }

    /// The images to be pulled, each once.
    pub fn images(&self) -> (images: Vec<String>)
        ensures
            crate::strings::texts(images@).to_set() == self@.images,
            crate::strings::texts(images@).no_duplicates(),
    {
        self.images.to_vec()
    }

    /// Runs the hooks that come before the build, in the order in which they
    /// were added, up to the first that fails: every hook in front of it has
    /// run well, none behind it is run. The build fails with it, in the
    /// hook's words; it goes on when every hook has run well.
    pub fn run_before(&self) -> (r: Result<(), BuildtimeError>)
        ensures
            r is Ok ==> forall|i: int|
                0 <= i < self@.pre_build_hooks.len() ==> passes_before(
                    #[trigger] self@.pre_build_hooks[i],
                ),
            r matches Err(e) ==> exists|i: int|
                0 <= i < self@.pre_build_hooks.len() && fails_before(
                    #[trigger] self@.pre_build_hooks[i],
                    e->0@,
                ) && forall|j: int| 0 <= j < i ==> passes_before(#[trigger] self@.pre_build_hooks[j]),
    {
        let mut i: usize = 0;
        while i < self.pre_build_hooks.len()
            invariant
                i <= self.pre_build_hooks.len(),
                forall|k: int| 0 <= k < i ==> passes_before(#[trigger] self@.pre_build_hooks[k]),
            decreases self.pre_build_hooks.len() - i,
        {
            let out = self.pre_build_hooks[i].before();
            assert(call_ensures(Pre::before, (&self@.pre_build_hooks[i as int],), out));
            match hook_outcome(out) {
                Ok(_) => {},
                Err(e) => {
                    return Err(e);
                },
            }
            i = i + 1;
        }
        Ok(())
    }

    /// Runs the hooks that come after the build, in the order in which they
    /// were added, up to the first that fails: every hook in front of it has
    /// run well, none behind it is run. The build fails with it, in the
    /// hook's words.
    pub fn run_after(&self) -> (r: Result<(), BuildtimeError>)
        ensures
            r is Ok ==> forall|i: int|
                0 <= i < self@.post_build_hooks.len() ==> passes_after(
                    #[trigger] self@.post_build_hooks[i],
                ),
            r matches Err(e) ==> exists|i: int|
                0 <= i < self@.post_build_hooks.len() && fails_after(
                    #[trigger] self@.post_build_hooks[i],
                    e->0@,
                ) && forall|j: int| 0 <= j < i ==> passes_after(#[trigger] self@.post_build_hooks[j]),
    {
        let mut i: usize = 0;
        while i < self.post_build_hooks.len()
            invariant
                i <= self.post_build_hooks.len(),
                forall|k: int| 0 <= k < i ==> passes_after(#[trigger] self@.post_build_hooks[k]),
            decreases self.post_build_hooks.len() - i,
        {
            let out = self.post_build_hooks[i].after();
            assert(call_ensures(Post::after, (&self@.post_build_hooks[i as int],), out));
            match hook_outcome(out) {
                Ok(_) => {},
                Err(e) => {
                    return Err(e);
                },
            }
            i = i + 1;
        }
        Ok(())
    }
}

} // verus!
