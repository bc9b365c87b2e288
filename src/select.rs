//! Selection of the one release of a project that fits the target: the
//! candidates are tried newest first, and the first usable one wins.

use vstd::prelude::*;
use crate::model::{is_empty_release, is_usable, ModrinthModInfo, ModrinthModVersion};
use crate::modrinth::is_compatible;

verus! {

/// What the picker asks for next.
#[derive(Debug)]
pub enum PickStep {
    /// Fetch the release with this identifier and offer it back.
    Fetch(String),
    /// Selection is over; this is the chosen release (the empty one if none fits).
    Done(ModrinthModVersion),
}

/// Whether a fetch outcome (`None`: the fetch or its decoding failed) is usable.
pub open spec fn usable_response(r: Option<ModrinthModVersion>, game_version: Seq<char>) -> bool {
    r is Some && is_usable(r->0, game_version)
}

/// Selection over known fetch outcomes: `rs[j]` is what fetching the `j`-th
/// candidate (newest first) gives. Starting at candidate `pos`, the result is
/// how many candidates get fetched and the release chosen (`None` for the
/// empty release).
pub open spec fn pick_from(
    rs: Seq<Option<ModrinthModVersion>>,
    game_version: Seq<char>,
    pos: int,
) -> (int, Option<ModrinthModVersion>)
    decreases rs.len() - pos,
{
    if pos < 0 || pos >= rs.len() {
        (0, None)
    } else if usable_response(rs[pos], game_version) {
        (1, rs[pos])
    } else {
        let rest = pick_from(rs, game_version, pos + 1);
        (rest.0 + 1, rest.1)
    }
}

/// Step-by-step release selection; the caller performs each fetch.
pub struct VersionPicker {
    pub game_version: String,
    /// Release identifiers, newest first.
    pub candidates: Vec<String>,
    /// How many candidates were already tried.
    pub position: usize,
    /// The outcomes offered so far, one per tried candidate.
    pub tried: Ghost<Seq<Option<ModrinthModVersion>>>,
}

impl VersionPicker {
    pub open spec fn wf(&self) -> bool {
        &&& self.position <= self.candidates@.len()
        &&& self.tried@.len() == self.position
        &&& forall|j: int|
            0 <= j < self.position ==> !usable_response(#[trigger] self.tried@[j], self.game_version@)
    }

    /// A picker for `info`'s releases, to be tried newest first.
    pub fn new(game_version: String, info: &ModrinthModInfo) -> (r: Self)
        ensures
            r.wf(),
            r.position == 0,
            r.tried@.len() == 0,
            r.game_version == game_version,
            r.candidates@ == info.versions@.reverse(),
    {
        let n = info.versions.len();
        let mut candidates: Vec<String> = Vec::new();
        let mut i: usize = 0;
        while i < n
            invariant
                n == info.versions@.len(),
                i <= n,
                candidates@.len() == i,
                forall|j: int| 0 <= j < i ==> candidates@[j] == info.versions@[n - 1 - j],
            decreases n - i,
        {
            candidates.push(info.versions[n - 1 - i].clone());
            i = i + 1;
        }
        assert(candidates@ =~= info.versions@.reverse());
        VersionPicker { game_version, candidates, position: 0, tried: Ghost(Seq::empty()) }
    }

    /// The next request: a fetch of the next candidate, or the empty release
    /// once every candidate was tried.
    pub fn next_step(&self) -> (r: PickStep)
        requires
            self.wf(),
        ensures
            self.position < self.candidates@.len() ==> r == PickStep::Fetch(
                self.candidates@[self.position as int],
            ),
            self.position >= self.candidates@.len() ==> (r matches PickStep::Done(v)
                && is_empty_release(v)),
            self.position >= self.candidates@.len() ==> pick_from(self.tried@, self.game_version@, 0)
                == (self.candidates@.len() as int, None::<ModrinthModVersion>),
    {
        proof {
            if self.position >= self.candidates@.len() {
                lemma_pick_skips(self.tried@, self.game_version@, self.position as int, 0);
            }
        }
        if self.position < self.candidates.len() {
            PickStep::Fetch(self.candidates[self.position].clone())
        } else {
            PickStep::Done(ModrinthModVersion::empty())
        }
    }

    /// Takes the outcome of fetching the current candidate (`None` when the
    /// fetch or its decoding failed). A usable release ends the selection;
    /// anything else moves on to the next candidate.
    pub fn offer(&mut self, fetched: Option<ModrinthModVersion>) -> (r: PickStep)
        requires
            old(self).wf(),
            old(self).position < old(self).candidates@.len(),
        ensures
            final(self).wf(),
            final(self).game_version == old(self).game_version,
            final(self).candidates == old(self).candidates,
            usable_response(fetched, old(self).game_version@) ==> {
                &&& r == PickStep::Done(fetched->0)
                &&& final(self).position == old(self).position
                &&& final(self).tried == old(self).tried
                &&& forall|rs: Seq<Option<ModrinthModVersion>>|
                    old(self).tried@.push(fetched).is_prefix_of(rs) ==> pick_from(
                        rs,
                        old(self).game_version@,
                        0,
                    ) == (old(self).position + 1, fetched)
            },
            !usable_response(fetched, old(self).game_version@) ==> {
                &&& final(self).position == old(self).position + 1
                &&& final(self).tried@ == old(self).tried@.push(fetched)
                &&& final(self).position < final(self).candidates@.len() ==> r == PickStep::Fetch(
                    final(self).candidates@[final(self).position as int],
                )
                &&& final(self).position >= final(self).candidates@.len() ==> (r matches PickStep::Done(
                    v,
                ) && is_empty_release(v))
            },
    {
        let n = self.candidates.len();
        let ghost tried = self.tried@.push(fetched);
        let ghost gv = self.game_version@;
        match fetched {
            Some(v) => {
                if is_compatible(&v, &self.game_version) {
                    assert forall|rs: Seq<Option<ModrinthModVersion>>|
                        tried.is_prefix_of(rs) implies pick_from(rs, gv, 0) == (tried.len() as int, Some(v)) by {
                        assert forall|j: int| 0 <= j < old(self).position implies !usable_response(
                            #[trigger] rs[j],
                            gv,
                        ) by {
                            assert(rs[j] == tried[j]);
                            assert(tried[j] == old(self).tried@[j]);
                        }
                        assert(rs[old(self).position as int] == tried[old(self).position as int]);
                        lemma_pick_skips(rs, gv, old(self).position as int, 0);
                    }
                    return PickStep::Done(v);
                }
            },
            None => {},
        }
        assert(self.position < n);
        self.position = self.position + 1;
        self.tried = Ghost(tried);
        assert forall|j: int| 0 <= j < self.position implies !usable_response(#[trigger] self.tried@[j], gv) by {
            if j < old(self).position {
                assert(self.tried@[j] == old(self).tried@[j]);
            }
        }
        self.next_step()
    }
}

/// When exactly one candidate is usable, the `k`-th oldest release, selection
/// fetches the `len - k` newest candidates and returns that release.
pub proof fn lemma_single_usable_release(
    rs: Seq<Option<ModrinthModVersion>>,
    game_version: Seq<char>,
    k: int,
)
    requires
        0 <= k < rs.len(),
        forall|j: int|
            0 <= j < rs.len() ==> (usable_response(#[trigger] rs[j], game_version) <==> j == rs.len()
                - 1 - k),
    ensures
        pick_from(rs, game_version, 0) == (rs.len() - k, rs[rs.len() - 1 - k]),
{
    lemma_pick_reaches(rs, game_version, k, 0);
}

proof fn lemma_pick_reaches(
    rs: Seq<Option<ModrinthModVersion>>,
    game_version: Seq<char>,
    k: int,
    pos: int,
)
    requires
        0 <= k < rs.len(),
        0 <= pos <= rs.len() - 1 - k,
        forall|j: int|
            0 <= j < rs.len() ==> (usable_response(#[trigger] rs[j], game_version) <==> j == rs.len()
                - 1 - k),
    ensures
        pick_from(rs, game_version, pos) == (rs.len() - k - pos, rs[rs.len() - 1 - k]),
    decreases rs.len() - pos,
{
    if pos < rs.len() - 1 - k {
        assert(!usable_response(rs[pos], game_version));
        lemma_pick_reaches(rs, game_version, k, pos + 1);
    } else {
        assert(usable_response(rs[pos], game_version));
    }
}

/// Candidates before `p` that are all unusable are each fetched and passed
/// over.
proof fn lemma_pick_skips(rs: Seq<Option<ModrinthModVersion>>, game_version: Seq<char>, p: int, q: int)
    requires
        0 <= q <= p <= rs.len(),
        forall|j: int| 0 <= j < p ==> !usable_response(#[trigger] rs[j], game_version),
    ensures
        pick_from(rs, game_version, q) == (p - q + pick_from(rs, game_version, p).0, pick_from(
            rs,
            game_version,
            p,
        ).1),
    decreases p - q,
{
    if q < p {
        lemma_pick_skips(rs, game_version, p, q + 1);
    }
}

/// With no known releases there is nothing to fetch and the empty release is
/// chosen.
pub proof fn lemma_no_releases(rs: Seq<Option<ModrinthModVersion>>, game_version: Seq<char>)
    requires
        rs.len() == 0,
    ensures
        pick_from(rs, game_version, 0) == (0int, None::<ModrinthModVersion>),
{
}

} // verus!
