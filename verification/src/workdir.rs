//! Choosing the working directory: a directory under the configured root
//! whose name no other process has taken.
//!
//! Looking at the disk is the caller's work. The caller asks the allocator
//! for the path to probe, looks whether something is there, and reports
//! what it found; the allocator answers with the next path, or with the
//! outcome.

use vstd::prelude::*;
use vstd::string::StringExecFns;
use crate::error::ErrorView;
use crate::error::ShuffleManagerError;

verus! {

/// How many names are probed before the allocator gives up.
pub const MAX_DIR_ATTEMPTS: usize = 10;

/// Whether `c` is a hexadecimal digit in lower case.
pub open spec fn is_lower_hex(c: char) -> bool {
    ('0' <= c && c <= '9') || ('a' <= c && c <= 'f')
}

/// Whether `token` has the shape of a random identifier: 36 characters,
/// hyphens after the 8th, 12th, 16th and 20th hexadecimal digit, lower-case
/// hexadecimal digits elsewhere.
pub open spec fn is_token(token: Seq<char>) -> bool {
    &&& token.len() == 36
    &&& forall|i: int|
        #![trigger token[i]]
        0 <= i < 36 ==> if i == 8 || i == 13 || i == 18 || i == 23 {
            token[i] == '-'
        } else {
            is_lower_hex(token[i])
        }
}

/// A fresh random identifier, as text.
///
/// This is `uuid::Uuid::new_v4` followed by the `to_string` that the
/// identifier's `Display` provides. Believed of it, not proved: the text is
/// in hyphenated lower-case form. Which identifier it is is left open. The
/// call panics where the operating system yields no random bytes.
#[verifier::external_body]
fn random_token() -> (token: String)
    ensures
        is_token(token@),
{
    uuid::Uuid::new_v4().to_string()
}

/// The path of the working directory named after `token` under `root`.
pub open spec fn work_dir_path(root: Seq<char>, token: Seq<char>) -> Seq<char> {
    root + "/spark-local-"@ + token
}

/// The path of the working directory named after `token` under `root`.
pub fn work_dir_candidate(root: &str, token: &str) -> (path: String)
    ensures
        path@ == work_dir_path(root@, token@),
{
    let mut path = String::from_str(root);
    path.append("/spark-local-");
    path.append(token);
    path
}

/// What the allocator is doing.
#[derive(Debug, Clone, Copy, PartialEq, Eq)]
pub enum AllocationPhase {
    /// The caller is to look whether the candidate exists.
    Probing,
    /// The candidate is free: it is the working directory, and the caller
    /// is to create it.
    Chosen,
    /// Every candidate was taken.
    Exhausted,
}

/// The allocator as contracts speak of it.
pub struct AllocatorView {
    pub root: Seq<char>,
    pub candidate: Seq<char>,
    pub attempt: usize,
    pub phase: AllocationPhase,
}

impl AllocatorView {
    /// The state in which allocation begins: the directory named after
    /// `token` is probed first.
    pub open spec fn begin(root: Seq<char>, token: Seq<char>) -> AllocatorView {
        AllocatorView {
            root,
            candidate: work_dir_path(root, token),
            attempt: 1,
            phase: AllocationPhase::Probing,
        }
    }

    /// The state that follows when the candidate was probed. `taken` says
    /// whether something exists at its path, and `token` names the
    /// candidate to probe next, should another probe be due.
    ///
    /// A candidate that is free is chosen. A candidate that is taken is
    /// followed by another, until `MAX_DIR_ATTEMPTS` of them were taken.
    /// A state in which no probe is due stays as it is.
    pub open spec fn next(self, taken: bool, token: Seq<char>) -> AllocatorView {
        if self.phase != AllocationPhase::Probing {
            self
        } else if !taken {
            AllocatorView { phase: AllocationPhase::Chosen, ..self }
        } else if self.attempt >= MAX_DIR_ATTEMPTS {
            AllocatorView { phase: AllocationPhase::Exhausted, ..self }
        } else {
            AllocatorView {
                candidate: work_dir_path(self.root, token),
                attempt: (self.attempt + 1) as usize,
                ..self
            }
        }
    }

    /// The state reached by the probes in `steps`: each step says whether
    /// the candidate was taken and names the candidate after it.
    pub open spec fn run(self, steps: Seq<(bool, Seq<char>)>) -> AllocatorView
        decreases steps.len(),
    {
        if steps.len() == 0 {
            self
        } else {
            self.run(steps.drop_last()).next(steps.last().0, steps.last().1)
        }
    }

    /// The token after which the candidate of the given probe, counted
    /// from one, is named in a run in which every earlier candidate was
    /// taken: the first token, then the token drawn after each probe.
    pub open spec fn token_tried(
        token: Seq<char>,
        steps: Seq<(bool, Seq<char>)>,
        probe: int,
    ) -> Seq<char> {
        if probe <= 1 {
            token
        } else {
            steps[probe - 2].1
        }
    }

    /// While a probe is due, every earlier candidate was taken. The probe
    /// in progress is one more than the steps taken and at most
    /// `MAX_DIR_ATTEMPTS`, and the candidate is named after the token drawn
    /// last.
    pub proof fn lemma_probing_follows_taken(
        root: Seq<char>,
        token: Seq<char>,
        steps: Seq<(bool, Seq<char>)>,
    )
        ensures
            Self::begin(root, token).run(steps).root == root,
            Self::begin(root, token).run(steps).phase == AllocationPhase::Probing ==> {
                &&& Self::begin(root, token).run(steps).attempt == steps.len() + 1
                &&& Self::begin(root, token).run(steps).candidate == work_dir_path(
                    root,
                    Self::token_tried(token, steps, steps.len() as int + 1),
                )
                &&& steps.len() < MAX_DIR_ATTEMPTS
                &&& forall|i: int| 0 <= i < steps.len() ==> (#[trigger] steps[i]).0
            },
        decreases steps.len(),
    {
        if steps.len() > 0 {
            let earlier = steps.drop_last();
            Self::lemma_probing_follows_taken(root, token, earlier);
            if Self::begin(root, token).run(steps).phase == AllocationPhase::Probing {
                assert forall|i: int| 0 <= i < steps.len() implies (#[trigger] steps[i]).0 by {
                    if i < earlier.len() {
                        assert(steps[i] == earlier[i]);
                    }
                }
            }
        }
    }

    /// Allocation never goes on forever: after `MAX_DIR_ATTEMPTS` probes,
    /// whatever they found, no further probe is due.
    pub proof fn lemma_settles_within_limit(
        root: Seq<char>,
        token: Seq<char>,
        steps: Seq<(bool, Seq<char>)>,
    )
        requires
            steps.len() >= MAX_DIR_ATTEMPTS,
        ensures
            Self::begin(root, token).run(steps).phase != AllocationPhase::Probing,
    {
        Self::lemma_probing_follows_taken(root, token, steps);
    }

    /// The directory that is chosen is one that the caller probed and found
    /// free, after every earlier candidate was taken: it lies under the
    /// root and is named after the token of that probe.
    pub proof fn lemma_chosen_was_free(
        root: Seq<char>,
        token: Seq<char>,
        steps: Seq<(bool, Seq<char>)>,
    )
        requires
            Self::begin(root, token).run(steps).phase == AllocationPhase::Chosen,
        ensures
            exists|k: int|
                {
                    &&& 0 <= k < steps.len()
                    &&& !(#[trigger] steps[k]).0
                    &&& forall|i: int| 0 <= i < k ==> (#[trigger] steps[i]).0
                    &&& Self::begin(root, token).run(steps).candidate == work_dir_path(
                        root,
                        Self::token_tried(token, steps, k + 1),
                    )
                },
        decreases steps.len(),
    {
        let earlier = steps.drop_last();
        let before = Self::begin(root, token).run(earlier);
        if before.phase == AllocationPhase::Chosen {
            Self::lemma_chosen_was_free(root, token, earlier);
            let k = choose|k: int|
                {
                    &&& 0 <= k < earlier.len()
                    &&& !(#[trigger] earlier[k]).0
                    &&& forall|i: int| 0 <= i < k ==> (#[trigger] earlier[i]).0
                    &&& before.candidate == work_dir_path(
                        root,
                        Self::token_tried(token, earlier, k + 1),
                    )
                };
            assert(steps[k] == earlier[k]);
            assert forall|i: int| 0 <= i < k implies (#[trigger] steps[i]).0 by {
                assert(steps[i] == earlier[i]);
            }
        } else {
            Self::lemma_probing_follows_taken(root, token, earlier);
            let k = steps.len() - 1;
            assert(!steps[k].0);
            assert forall|i: int| 0 <= i < k implies (#[trigger] steps[i]).0 by {
                assert(steps[i] == earlier[i]);
            }
        }
    }

    /// When `MAX_DIR_ATTEMPTS` candidates in a row are taken, allocation
    /// is exhausted; until then another probe is due.
    pub proof fn lemma_taken_names_exhaust(
        root: Seq<char>,
        token: Seq<char>,
        steps: Seq<(bool, Seq<char>)>,
    )
        requires
            forall|i: int| 0 <= i < steps.len() ==> (#[trigger] steps[i]).0,
        ensures
            steps.len() < MAX_DIR_ATTEMPTS ==> Self::begin(root, token).run(steps).phase
                == AllocationPhase::Probing,
            steps.len() == MAX_DIR_ATTEMPTS ==> Self::begin(root, token).run(steps).phase
                == AllocationPhase::Exhausted,
        decreases steps.len(),
    {
        if steps.len() > 0 {
            Self::lemma_taken_names_exhaust(root, token, steps.drop_last());
            Self::lemma_probing_follows_taken(root, token, steps.drop_last());
        }
    }

    /// What the allocation came to: the path chosen, the failure, or
    /// nothing yet.
    pub open spec fn result(self) -> Option<Result<Seq<char>, ErrorView>> {
        match self.phase {
            AllocationPhase::Probing => None,
            AllocationPhase::Chosen => Some(Ok(self.candidate)),
            AllocationPhase::Exhausted => Some(Err(ErrorView::CouldNotCreateShuffleDir)),
        }
    }
}

/// Where the choice of the working directory stands.
#[derive(Debug)]
pub struct WorkDirAllocator {
    root: String,
    candidate: String,
    attempt: usize,
    phase: AllocationPhase,
}

impl View for WorkDirAllocator {
    type V = AllocatorView;

    closed spec fn view(&self) -> AllocatorView {
        AllocatorView {
            root: self.root@,
            candidate: self.candidate@,
            attempt: self.attempt,
            phase: self.phase,
        }
    }
}

impl WorkDirAllocator {
    /// Begins under `root` with the directory named after `token`.
    pub fn start_with(root: String, token: &str) -> (allocator: Self)
        ensures
            allocator@ == AllocatorView::begin(root@, token@),
    {
        let candidate = work_dir_candidate(root.as_str(), token);
        WorkDirAllocator { root, candidate, attempt: 1, phase: AllocationPhase::Probing }
    }

    /// Begins under `root` with a directory named after a fresh random
    /// identifier.
    pub fn start(root: String) -> (allocator: Self)
        ensures
            exists|token: Seq<char>|
                is_token(token) && allocator@ == #[trigger] AllocatorView::begin(root@, token),
    {
        let token = random_token();
        Self::start_with(root, token.as_str())
    }

    /// Takes note of what the probe of the candidate found. `token` names
    /// the candidate to probe next, should another probe be due.
    pub fn advance_with(self, taken: bool, token: &str) -> (allocator: Self)
        ensures
            allocator@ == self@.next(taken, token@),
    {
        match self.phase {
            AllocationPhase::Probing => {
                if !taken {
                    WorkDirAllocator { phase: AllocationPhase::Chosen, ..self }
                } else if self.attempt >= MAX_DIR_ATTEMPTS {
                    WorkDirAllocator { phase: AllocationPhase::Exhausted, ..self }
                } else {
                    let candidate = work_dir_candidate(self.root.as_str(), token);
                    WorkDirAllocator {
                        root: self.root,
                        candidate,
                        attempt: self.attempt + 1,
                        phase: AllocationPhase::Probing,
                    }
                }
            },
            _ => self,
        }
    }

    /// Takes note of what the probe of the candidate found, and names the
    /// next candidate after a fresh random identifier where another probe
    /// is due.
    pub fn advance(self, taken: bool) -> (allocator: Self)
        ensures
            exists|token: Seq<char>|
                is_token(token) && allocator@ == #[trigger] self@.next(taken, token),
    {
        let due = match self.phase {
            AllocationPhase::Probing => taken && self.attempt < MAX_DIR_ATTEMPTS,
            _ => false,
        };
        if due {
            let token = random_token();
            self.advance_with(taken, token.as_str())
        } else {
            let allocator = self.advance_with(taken, "");
            proof {
                let unused = Seq::new(
                    36,
                    |i: int|
                        if i == 8 || i == 13 || i == 18 || i == 23 {
                            '-'
                        } else {
                            '0'
                        },
                );
                assert(allocator@ == self@.next(taken, unused));
            }
            allocator
        }
    }

    /// The path that the caller is to probe now, if a probe is due.
    pub fn candidate(&self) -> (path: Option<&str>)
        ensures
            match path {
                Some(path) => self@.phase == AllocationPhase::Probing && path@
                    == self@.candidate,
                None => self@.phase != AllocationPhase::Probing,
            },
    {
        match self.phase {
            AllocationPhase::Probing => Some(self.candidate.as_str()),
            _ => None,
        }
    }

    /// What the allocation came to: nothing while a probe is due, then the
    /// path of the working directory, which the caller is to create, or
    /// the failure to find one.
    pub fn outcome(&self) -> (outcome: Option<Result<String, ShuffleManagerError>>)
        ensures
            match outcome {
                None => self@.result() is None,
                Some(Ok(path)) => self@.result() == Some(Ok::<Seq<char>, ErrorView>(path@)),
                Some(Err(error)) => self@.result() == Some(Err::<Seq<char>, ErrorView>(error@)),
            },
    {
        match self.phase {
            AllocationPhase::Probing => None,
            AllocationPhase::Chosen => Some(Ok(self.candidate.clone())),
            AllocationPhase::Exhausted => Some(
                Err(ShuffleManagerError::CouldNotCreateShuffleDir),
            ),
        }
    }
}

} // verus!
