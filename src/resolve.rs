//! The dependency walk of one requested project. The walk is a state
//! machine: it names the next registry lookup or artifact write, and the
//! caller hands back the outcome. Dependencies are stored before the project
//! that requires them.

use vstd::prelude::*;
use vstd::string::*;
use crate::model::{ModrinthDependency, ModrinthModInfo, ModrinthModVersion};

verus! {

/// Whether a side-support flag rules a project out.
pub open spec fn is_unsupported(flag: Seq<char>) -> bool {
    flag == "unsupported"@
}

/// Whether `info` may be installed on the side that `is_server` names.
pub open spec fn supported_spec(info: ModrinthModInfo, is_server: bool) -> bool {
    if is_server {
        !is_unsupported(info.server_side@)
    } else {
        !is_unsupported(info.client_side@)
    }
}

/// Whether `info` may be installed on the side that `is_server` names.
pub fn is_supported(info: &ModrinthModInfo, is_server: bool) -> (r: bool)
    ensures
        r == supported_spec(*info, is_server),
{
    let unsupported = String::from_str("unsupported");
    if is_server {
        !(info.server_side == unsupported)
    } else {
        !(info.client_side == unsupported)
    }
}

/// A project that servers do not support but clients do is left out of a
/// server install and walked in a client install.
pub proof fn lemma_side_filter(info: ModrinthModInfo)
    requires
        is_unsupported(info.server_side@),
        !is_unsupported(info.client_side@),
    ensures
        !supported_spec(info, true),
        supported_spec(info, false),
{
}

/// Whether an edge asks for its target to be installed too.
pub open spec fn is_required_edge(d: ModrinthDependency) -> bool {
    d.dependency_type@ == "required"@
}

/// The targets of the required edges among `deps`, in order.
pub open spec fn required_targets(deps: Seq<ModrinthDependency>) -> Seq<Seq<char>>
    decreases deps.len(),
{
    if deps.len() == 0 {
        Seq::empty()
    } else {
        let rest = required_targets(deps.drop_last());
        if is_required_edge(deps.last()) {
            rest.push(deps.last().project_id@)
        } else {
            rest
        }
    }
}

/// The views of a list of strings.
pub open spec fn texts(xs: Seq<String>) -> Seq<Seq<char>> {
    xs.map_values(|x: String| x@)
}

/// The projects that `version` requires, in the order of its edges. Edges of
/// any other kind (optional, incompatible, embedded) are left out.
pub fn required_dependencies(version: &ModrinthModVersion) -> (r: Vec<String>)
    ensures
        texts(r@) == required_targets(version.dependencies@),
{
    let deps = &version.dependencies;
    let required = String::from_str("required");
    let mut r: Vec<String> = Vec::new();
    let mut i: usize = 0;
    while i < deps.len()
        invariant
            i <= deps@.len(),
            required@ == "required"@,
            texts(r@) == required_targets(deps@.take(i as int)),
        decreases deps@.len() - i,
    {
        assert(deps@.take(i + 1).drop_last() =~= deps@.take(i as int));
        if deps[i].dependency_type == required {
            r.push(deps[i].project_id.clone());
        }
        assert(texts(r@) =~= required_targets(deps@.take(i + 1)));
        i = i + 1;
    }
    assert(deps@.take(deps@.len() as int) =~= deps@);
    r
}

/// Every project that the walk looks up for a release comes from a required
/// edge: optional, incompatible and embedded edges never cause a lookup.
pub proof fn lemma_only_required_edges_followed(deps: Seq<ModrinthDependency>, i: int)
    requires
        0 <= i < required_targets(deps).len(),
    ensures
        exists|j: int|
            0 <= j < deps.len() && is_required_edge(#[trigger] deps[j]) && deps[j].project_id@
                == required_targets(deps)[i],
    decreases deps.len(),
{
    let rest = required_targets(deps.drop_last());
    if i < rest.len() {
        lemma_only_required_edges_followed(deps.drop_last(), i);
        let j = choose|j: int|
            0 <= j < deps.drop_last().len() && is_required_edge(#[trigger] deps.drop_last()[j])
                && deps.drop_last()[j].project_id@ == required_targets(deps.drop_last())[i];
        assert(deps[j] == deps.drop_last()[j]);
    } else {
        assert(deps[deps.len() - 1] == deps.last());
    }
}

/// A project whose release was chosen, with the dependencies still to walk.
pub struct Frame {
    pub info: ModrinthModInfo,
    pub version: ModrinthModVersion,
    /// Required dependencies of `version`, in order.
    pub deps: Vec<String>,
    /// How many of `deps` were already handed out for lookup.
    pub next: usize,
}

/// What the walk is waiting for.
#[derive(PartialEq, Eq, Structural, Debug)]
pub enum Phase {
    /// The outcome of the last lookup it asked for.
    Lookup,
    /// The outcome of the last write it asked for.
    Write,
    /// Nothing: the walk is over.
    Over,
}

/// What the caller does next.
#[derive(Debug)]
pub enum ResolveAction {
    /// Look up this project and choose its release, then call `resolved` or
    /// `lookup_failed`.
    Fetch(String),
    /// Store this release of this project, then call `saved`.
    Save(ModrinthModInfo, ModrinthModVersion),
    /// The walk is over; whether the requested project was stored.
    Finished(bool),
}

/// The walk for one requested project.
pub struct Resolution {
    /// The requested project.
    pub package: String,
    pub is_server: bool,
    /// Projects whose release was chosen and that are not yet stored; the
    /// first is the requested project, each further one a dependency of the
    /// one before it.
    pub stack: Vec<Frame>,
    pub phase: Phase,
}

pub open spec fn frame_wf(f: Frame) -> bool {
    &&& texts(f.deps@) == required_targets(f.version.dependencies@)
    &&& f.next <= f.deps@.len()
}

/// The action that continues the walk from the frame on top of the stack.
pub open spec fn continue_spec(old_stack: Seq<Frame>, new_stack: Seq<Frame>, r: ResolveAction) -> bool {
    let top = old_stack.last();
    if top.next < top.deps@.len() {
        &&& r == ResolveAction::Fetch(top.deps@[top.next as int])
        &&& new_stack.len() == old_stack.len()
        &&& new_stack.drop_last() == old_stack.drop_last()
        &&& new_stack.last() == Frame { next: (top.next + 1) as usize, ..top }
    } else {
        &&& r == ResolveAction::Save(top.info, top.version)
        &&& new_stack == old_stack.drop_last()
    }
}

/// The phase that an action leads to.
pub open spec fn phase_after(r: ResolveAction) -> Phase {
    match r {
        ResolveAction::Fetch(_) => Phase::Lookup,
        ResolveAction::Save(_, _) => Phase::Write,
        ResolveAction::Finished(_) => Phase::Over,
    }
}

impl Resolution {
    pub open spec fn wf(&self) -> bool {
        forall|i: int| 0 <= i < self.stack@.len() ==> frame_wf(#[trigger] self.stack@[i])
    }

    /// A walk for `package`; its first action is the lookup of `package`.
    pub fn new(package: String, is_server: bool) -> (r: (Self, ResolveAction))
        ensures
            r.0.wf(),
            r.0.package == package,
            r.0.is_server == is_server,
            r.0.stack@.len() == 0,
            r.0.phase == Phase::Lookup,
            r.1 == ResolveAction::Fetch(package),
    {
        let first = package.clone();
        (Resolution { package, is_server, stack: Vec::new(), phase: Phase::Lookup }, ResolveAction::Fetch(first))
    }

    fn advance(&mut self) -> (r: ResolveAction)
        requires
            old(self).wf(),
            old(self).stack@.len() > 0,
        ensures
            final(self).wf(),
            final(self).package == old(self).package,
            final(self).is_server == old(self).is_server,
            final(self).phase == phase_after(r),
            continue_spec(old(self).stack@, final(self).stack@, r),
    {
        let top = self.stack.pop().unwrap();
        assert(frame_wf(top)) by {
            assert(top == old(self).stack@[old(self).stack@.len() - 1]);
        }
        if top.next < top.deps.len() {
            let id = top.deps[top.next].clone();
            let next = top.next + 1;
            self.stack.push(Frame { next, ..top });
            self.phase = Phase::Lookup;
            assert forall|i: int| 0 <= i < self.stack@.len() implies frame_wf(#[trigger] self.stack@[i]) by {
                if i < self.stack@.len() - 1 {
                    assert(self.stack@[i] == old(self).stack@[i]);
                }
            }
            assert(self.stack@.drop_last() =~= old(self).stack@.drop_last());
            ResolveAction::Fetch(id)
        } else {
            self.phase = Phase::Write;
            assert forall|i: int| 0 <= i < self.stack@.len() implies frame_wf(#[trigger] self.stack@[i]) by {
                assert(self.stack@[i] == old(self).stack@[i]);
            }
            assert(self.stack@ =~= old(self).stack@.drop_last());
            ResolveAction::Save(top.info, top.version)
        }
    }

    /// Takes the looked-up project and its chosen release. For the requested
    /// project, one that the install side does not support ends the walk at
    /// once: nothing is stored and no dependency is looked up. Otherwise the
    /// required dependencies are walked one by one, and the project is stored
    /// after them.
    pub fn resolved(&mut self, info: ModrinthModInfo, version: ModrinthModVersion) -> (r: ResolveAction)
        requires
            old(self).wf(),
            old(self).phase == Phase::Lookup,
        ensures
            final(self).wf(),
            final(self).package == old(self).package,
            final(self).is_server == old(self).is_server,
            final(self).phase == phase_after(r),
            old(self).stack@.len() == 0 && !supported_spec(info, old(self).is_server) ==> {
                &&& r == ResolveAction::Finished(false)
                &&& final(self).stack@.len() == 0
            },
            old(self).stack@.len() > 0 || supported_spec(info, old(self).is_server) ==> {
                exists|f: Frame| {
                    &&& f.info == info
                    &&& f.version == version
                    &&& f.next == 0
                    &&& texts(f.deps@) == required_targets(version.dependencies@)
                    &&& continue_spec(old(self).stack@.push(f), final(self).stack@, r)
                }
            },
    {
        if self.stack.len() == 0 && !is_supported(&info, self.is_server) {
            self.phase = Phase::Over;
            return ResolveAction::Finished(false);
        }
        let deps = required_dependencies(&version);
        let f = Frame { info, version, deps, next: 0 };
        let ghost g = f;
        self.stack.push(f);
        assert(self.stack@ == old(self).stack@.push(g));
        assert forall|i: int| 0 <= i < self.stack@.len() implies frame_wf(#[trigger] self.stack@[i]) by {
            if i < self.stack@.len() - 1 {
                assert(self.stack@[i] == old(self).stack@[i]);
            }
        }
        let r = self.advance();
        assert(continue_spec(old(self).stack@.push(g), self.stack@, r));
        r
    }

    /// The last lookup failed (transport or decoding). A failed lookup of the
    /// requested project ends the walk unsuccessfully; a failed dependency is
    /// passed over and its siblings are still walked.
    pub fn lookup_failed(&mut self) -> (r: ResolveAction)
        requires
            old(self).wf(),
            old(self).phase == Phase::Lookup,
        ensures
            final(self).wf(),
            final(self).package == old(self).package,
            final(self).is_server == old(self).is_server,
            final(self).phase == phase_after(r),
            old(self).stack@.len() == 0 ==> r == ResolveAction::Finished(false) && final(self).stack@.len() == 0,
            old(self).stack@.len() > 0 ==> continue_spec(old(self).stack@, final(self).stack@, r),
    {
        if self.stack.len() == 0 {
            self.phase = Phase::Over;
            return ResolveAction::Finished(false);
        }
        self.advance()
    }

    /// The last write finished, successfully or not. When it stored the
    /// requested project the walk ends with its outcome; a dependency's
    /// outcome does not stop the walk.
    pub fn saved(&mut self, ok: bool) -> (r: ResolveAction)
        requires
            old(self).wf(),
            old(self).phase == Phase::Write,
        ensures
            final(self).wf(),
            final(self).package == old(self).package,
            final(self).is_server == old(self).is_server,
            final(self).phase == phase_after(r),
            old(self).stack@.len() == 0 ==> r == ResolveAction::Finished(ok) && final(self).stack@.len() == 0,
            old(self).stack@.len() > 0 ==> continue_spec(old(self).stack@, final(self).stack@, r),
    {
        if self.stack.len() == 0 {
            self.phase = Phase::Over;
            return ResolveAction::Finished(ok);
        }
        self.advance()
    }
}

} // verus!
