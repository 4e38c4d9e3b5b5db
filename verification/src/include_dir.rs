//! Bundling a directory into an archive at build time: the configuration,
//! the hooks around the build, and the choice of what goes into the archive.

use crate::names::NameSet;
use std::fmt::Debug;
use std::path::PathBuf;
use vstd::prelude::*;
use vstd::string::StringExecFns;

verus! {

/// Why a hook failed.
#[derive(Debug)]
pub enum HookError {
    Internal(String),
}

/// What runs before a build.
pub trait PreBuildHook: Debug + Clone {
    fn before(&self) -> (r: Result<(), HookError>);
}

/// What runs after a build.
pub trait PostBuildHook: Debug + Clone {
    fn after(&self) -> (r: Result<(), HookError>);
}

/// The hook that does nothing.
#[derive(Debug, Clone, Copy)]
pub struct Noop;

impl PreBuildHook for Noop {
    fn before(&self) -> (r: Result<(), HookError>)
        ensures
            r is Ok,
    {
        Ok(())
    }
}

impl PostBuildHook for Noop {
    fn after(&self) -> (r: Result<(), HookError>)
        ensures
            r is Ok,
    {
        Ok(())
    }
}

/// Why a build failed.
#[derive(Debug)]
pub enum BuildtimeError {
    Internal(String),
}

impl HookError {
    /// The error in words.
    pub fn message(&self) -> (m: String)
        ensures
            m@ == "internal error: "@ + self->0@,
    {
        match self {
            HookError::Internal(e) => String::from_str("internal error: ").concat(e.as_str()),
        }
    }
}

impl BuildtimeError {
    /// The error in words.
    pub fn message(&self) -> (m: String)
        ensures
            m@ == "internal error: "@ + self->0@,
    {
        match self {
            BuildtimeError::Internal(e) => String::from_str("internal error: ").concat(e.as_str()),
        }
    }

    /// The failure of a build whose hook failed: it carries the hook's words.
    pub fn from_hook(e: &HookError) -> (failure: BuildtimeError)
        ensures
            failure->0@ == "internal error: "@ + e->0@,
    {
        BuildtimeError::Internal(e.message())
    }
}

/// Whether the hook can run well before a build.
pub open spec fn passes_before<Pre: PreBuildHook>(hook: Pre) -> bool {
    exists|out: Result<(), HookError>| #[trigger]
        call_ensures(Pre::before, (&hook,), out) && out is Ok
}

/// Whether the hook can fail before a build, in a way that fails the build
/// with the words `failure`.
pub open spec fn fails_before<Pre: PreBuildHook>(hook: Pre, failure: Seq<char>) -> bool {
    exists|out: Result<(), HookError>| #[trigger]
        call_ensures(Pre::before, (&hook,), out) && out is Err && failure == "internal error: "@
            + out->Err_0->0@
}

/// Whether the hook can run well after a build.
pub open spec fn passes_after<Post: PostBuildHook>(hook: Post) -> bool {
    exists|out: Result<(), HookError>| #[trigger]
        call_ensures(Post::after, (&hook,), out) && out is Ok
}

/// Whether the hook can fail after a build, in a way that fails the build
/// with the words `failure`.
pub open spec fn fails_after<Post: PostBuildHook>(hook: Post, failure: Seq<char>) -> bool {
    exists|out: Result<(), HookError>| #[trigger]
        call_ensures(Post::after, (&hook,), out) && out is Err && failure == "internal error: "@
            + out->Err_0->0@
}

/// What the outcome of a hook means for the build.
pub fn hook_outcome(r: Result<(), HookError>) -> (outcome: Result<(), BuildtimeError>)
    ensures
        outcome is Ok == r is Ok,
        r matches Err(e) ==> outcome->Err_0->0@ == "internal error: "@ + e->0@,
{
    match r {
        Ok(_) => Ok(()),
        Err(e) => Err(BuildtimeError::from_hook(&e)),
    }
}

/// What a walk found at a path.
#[derive(Clone, Copy, Debug, PartialEq, Eq, Structural)]
pub enum EntryKind {
    File,
    Directory,
    /// Neither a file nor a directory.
    Other,
}

/// One path that a walk of the directory came by.
#[derive(Debug)]
pub struct WalkEntry {
    /// The path below the directory.
    pub name: String,
    pub kind: EntryKind,
    /// The permission bits.
    pub mode: u32,
}

/// A walk entry in contracts.
pub struct WalkEntryView {
    pub name: Seq<char>,
    pub kind: EntryKind,
    pub mode: u32,
}

impl View for WalkEntry {
    type V = WalkEntryView;

    open spec fn view(&self) -> WalkEntryView {
        WalkEntryView { name: self.name@, kind: self.kind, mode: self.mode }
    }
}

/// The views of a sequence of walk entries.
pub open spec fn entry_views(entries: Seq<WalkEntry>) -> Seq<WalkEntryView> {
    entries.map_values(|e: WalkEntry| e@)
}

/// The names that a walk came by.
pub open spec fn walked_names(entries: Seq<WalkEntryView>) -> Set<Seq<char>> {
    entries.map_values(|e: WalkEntryView| e.name).to_set()
}

/// The entries of a walk that go into the archive, in the order of the walk:
/// the files and directories whose names are not in `skip`.
pub open spec fn selected(entries: Seq<WalkEntryView>, skip: Set<Seq<char>>) -> Seq<WalkEntryView>
    decreases entries.len(),
{
    if entries.len() == 0 {
        Seq::empty()
    } else if !(entries.last().kind is Other) && !skip.contains(entries.last().name) {
        selected(entries.drop_last(), skip).push(entries.last())
    } else {
        selected(entries.drop_last(), skip)
    }
}

/// What goes into the archive: the files and directories of the walk that
/// heeds the ignore rules, and then those of the walk for the patterns that
/// the first walk did not come by.
pub open spec fn archived(heeded: Seq<WalkEntryView>, explicit: Seq<WalkEntryView>) -> Seq<
    WalkEntryView,
> {
    selected(heeded, Set::empty()) + selected(explicit, walked_names(heeded))
}

/// What goes into the archive, given what the two walks of the directory
/// came by.
pub fn plan_archive(heeded: &Vec<WalkEntry>, explicit: &Vec<WalkEntry>) -> (plan: Vec<WalkEntry>)
    ensures
        entry_views(plan@) == archived(entry_views(heeded@), entry_views(explicit@)),
{
    let ghost first = entry_views(heeded@);
    let ghost second = entry_views(explicit@);
    let mut plan: Vec<WalkEntry> = Vec::new();
    let mut seen = NameSet::new();
    let mut i: usize = 0;
    assert(first.take(0) =~= Seq::empty());
    assert(first.take(0).map_values(|e: WalkEntryView| e.name) =~= Seq::empty());
    assert(Seq::<Seq<char>>::empty().to_set() =~= Set::empty());
    assert(entry_views(plan@) =~= Seq::empty());
    while i < heeded.len()
        invariant
            i <= heeded.len(),
            first == entry_views(heeded@),
            seen@ == walked_names(first.take(i as int)),
            entry_views(plan@) == selected(first.take(i as int), Set::empty()),
        decreases heeded.len() - i,
    {
        let entry = &heeded[i];
        proof {
            let now = first.take(i + 1);
            assert(now.drop_last() =~= first.take(i as int));
            assert(now.last() == entry@);
            let names = first.take(i as int).map_values(|e: WalkEntryView| e.name);
            assert(now.map_values(|e: WalkEntryView| e.name) =~= names.push(entry.name@));
            names.lemma_push_to_set_commute(entry.name@);
        }
        seen.insert(String::from_str(entry.name.as_str()));
        match entry.kind {
            EntryKind::Other => {},
            _ => {
                let ghost before = plan@;
                let copy = WalkEntry {
                    name: String::from_str(entry.name.as_str()),
                    kind: entry.kind,
                    mode: entry.mode,
                };
                plan.push(copy);
                assert(entry_views(plan@) =~= entry_views(before).push(entry@));
            },
        }
        i = i + 1;
    }
    assert(first.take(heeded.len() as int) =~= first);
    let ghost head = entry_views(plan@);
    let mut j: usize = 0;
    assert(second.take(0) =~= Seq::empty());
    assert(head + Seq::<WalkEntryView>::empty() =~= head);
    while j < explicit.len()
        invariant
            j <= explicit.len(),
            second == entry_views(explicit@),
            seen@ == walked_names(first),
            head == selected(first, Set::empty()),
            entry_views(plan@) == head + selected(second.take(j as int), walked_names(first)),
        decreases explicit.len() - j,
    {
        let entry = &explicit[j];
        proof {
            let now = second.take(j + 1);
            assert(now.drop_last() =~= second.take(j as int));
            assert(now.last() == entry@);
        }
        let archivable = match entry.kind {
            EntryKind::Other => false,
            _ => true,
        };
        if archivable && !seen.contains(entry.name.as_str()) {
            let ghost before = plan@;
            let copy = WalkEntry {
                name: String::from_str(entry.name.as_str()),
                kind: entry.kind,
                mode: entry.mode,
            };
            plan.push(copy);
            assert(entry_views(plan@) =~= entry_views(before).push(entry@));
            assert((head + selected(second.take(j as int), walked_names(first))).push(entry@) =~= head
                + selected(second.take(j as int), walked_names(first)).push(entry@));
        }
        j = j + 1;
    }
    assert(second.take(explicit.len() as int) =~= second);
    plan
}

/// The configuration of a build that bundles a directory.
pub struct Buildtime<Pre = Noop, Post = Noop> where Pre: PreBuildHook, Post: PostBuildHook {
    directory_path: PathBuf,
    name: String,
    include_patterns: NameSet,
    pre_build_hooks: Vec<Pre>,
    post_build_hooks: Vec<Post>,
}

/// A build configuration in contracts.
pub struct BuildtimeView<Pre, Post> {
    pub directory_path: PathBuf,
    pub name: Seq<char>,
    pub include_patterns: Set<Seq<char>>,
    pub pre_build_hooks: Seq<Pre>,
    pub post_build_hooks: Seq<Post>,
}

impl<Pre, Post> View for Buildtime<Pre, Post> where Pre: PreBuildHook, Post: PostBuildHook {
    type V = BuildtimeView<Pre, Post>;

    closed spec fn view(&self) -> BuildtimeView<Pre, Post> {
        BuildtimeView {
            directory_path: self.directory_path,
            name: self.name@,
            include_patterns: self.include_patterns@,
            pre_build_hooks: self.pre_build_hooks@,
            post_build_hooks: self.post_build_hooks@,
        }
    }
}

impl<Pre, Post> Buildtime<Pre, Post> where Pre: PreBuildHook, Post: PostBuildHook {
    /// The configuration of a build that bundles the directory at
    /// `directory_path` under `name`, without patterns and hooks.
    pub fn new(directory_path: PathBuf, name: String) -> (build: Self)
        ensures
            build@ == (BuildtimeView::<Pre, Post> {
                directory_path,
                name: name@,
                include_patterns: Set::empty(),
                pre_build_hooks: Seq::empty(),
                post_build_hooks: Seq::empty(),
            }),
    {
        Buildtime {
            directory_path,
            name,
            include_patterns: NameSet::new(),
            pre_build_hooks: Vec::new(),
            post_build_hooks: Vec::new(),
        }
    }

    /// Adds a pattern for files that go into the archive whatever the ignore
    /// rules say.
    pub fn include_pattern(&mut self, pattern: String)
        ensures
            final(self)@ == (BuildtimeView {
                include_patterns: old(self)@.include_patterns.insert(pattern@),
                ..old(self)@
            }),
    {
        self.include_patterns.insert(pattern);
    }

    /// Adds a hook to run before the build, after those added before.
    pub fn before(&mut self, hook: Pre)
        ensures
            final(self)@ == (BuildtimeView {
                pre_build_hooks: old(self)@.pre_build_hooks.push(hook),
                ..old(self)@
            }),
    {
        self.pre_build_hooks.push(hook);
    }

    /// Adds a hook to run after the build, after those added before.
    pub fn after(&mut self, hook: Post)
        ensures
            final(self)@ == (BuildtimeView {
                post_build_hooks: old(self)@.post_build_hooks.push(hook),
                ..old(self)@
            }),
    {
        self.post_build_hooks.push(hook);
    }

    /// The directory to bundle.
    pub fn directory_path(&self) -> (path: &PathBuf)
        ensures
            *path == self@.directory_path,
    {
        &self.directory_path
    }

    /// The name of the bundle.
    pub fn name(&self) -> (name: &str)
        ensures
            name@ == self@.name,
    {
        self.name.as_str()
    }

    /// The patterns for files that go into the archive whatever the ignore
    /// rules say.
    pub fn include_patterns(&self) -> (patterns: Vec<String>)
        ensures
            crate::strings::texts(patterns@).to_set() == self@.include_patterns,
            crate::strings::texts(patterns@).no_duplicates(),
    {
        self.include_patterns.to_vec()
    }

    /// The file name of the archive: the bundle's name with `.zip`.
    pub fn archive_name(&self) -> (file: String)
        ensures
            file@ == self@.name + ".zip"@,
    {
        String::from_str(self.name.as_str()).concat(".zip")
    }

    /// Runs the hooks that come before the build, in the order in which they
    /// were added, up to the first that fails: every hook in front of it has
    /// run well, none behind it is run. The build fails with it, in the
    /// hook's words; it goes on when every hook has run well.
    pub fn run_before(&self) -> (r: Result<(), BuildtimeError>)
        ensures
            r is Ok ==> forall|i: int|
                0 <= i < self@.pre_build_hooks.len() ==> passes_before(
                    #[trigger] self@.pre_build_hooks[i],
                ),
            r matches Err(e) ==> exists|i: int|
                0 <= i < self@.pre_build_hooks.len() && fails_before(
                    #[trigger] self@.pre_build_hooks[i],
                    e->0@,
                ) && forall|j: int| 0 <= j < i ==> passes_before(#[trigger] self@.pre_build_hooks[j]),
    {
        let mut i: usize = 0;
        while i < self.pre_build_hooks.len()
            invariant
                i <= self.pre_build_hooks.len(),
                forall|k: int| 0 <= k < i ==> passes_before(#[trigger] self@.pre_build_hooks[k]),
            decreases self.pre_build_hooks.len() - i,
        {
            let out = self.pre_build_hooks[i].before();
            assert(call_ensures(Pre::before, (&self@.pre_build_hooks[i as int],), out));
            match hook_outcome(out) {
                Ok(_) => {},
                Err(e) => {
                    return Err(e);
                },
            }
            i = i + 1;
        }
        Ok(())
    }

    /// Runs the hooks that come after the build, in the order in which they
    /// were added, up to the first that fails: every hook in front of it has
    /// run well, none behind it is run. The build fails with it, in the
    /// hook's words.
    pub fn run_after(&self) -> (r: Result<(), BuildtimeError>)
        ensures
            r is Ok ==> forall|i: int|
                0 <= i < self@.post_build_hooks.len() ==> passes_after(
                    #[trigger] self@.post_build_hooks[i],
                ),
            r matches Err(e) ==> exists|i: int|
                0 <= i < self@.post_build_hooks.len() && fails_after(
                    #[trigger] self@.post_build_hooks[i],
                    e->0@,
                ) && forall|j: int| 0 <= j < i ==> passes_after(#[trigger] self@.post_build_hooks[j]),
    {
        let mut i: usize = 0;
        while i < self.post_build_hooks.len()
            invariant
                i <= self.post_build_hooks.len(),
                forall|k: int| 0 <= k < i ==> passes_after(#[trigger] self@.post_build_hooks[k]),
            decreases self.post_build_hooks.len() - i,
        {
            let out = self.post_build_hooks[i].after();
            assert(call_ensures(Post::after, (&self@.post_build_hooks[i as int],), out));
            match hook_outcome(out) {
                Ok(_) => {},
                Err(e) => {
                    return Err(e);
                },
            }
            i = i + 1;
        }
        Ok(())
    }
}

} // verus!
