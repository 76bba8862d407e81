use vstd::prelude::*;
use crate::artifact::ResolvedArtifact;
use crate::error::InstallError;
use crate::manifest::views;

verus! {

/// What to do for one artifact.
#[derive(Debug, Clone)]
pub enum Fetch {
    /// The file is already on disk: no request is made and its path is the result.
    Cached { path: String },
    /// Create the parent directories of `path`, request `url`, write the body to `path`.
    Download { url: String, path: String },
}

/// Decides how to obtain an artifact, given whether its local file exists.
pub fn plan_fetch(artifact: &ResolvedArtifact, exists: bool) -> (r: Fetch)
    ensures
        exists ==> (r matches Fetch::Cached { path } && path@ == artifact.local_path@),
        !exists ==> (r matches Fetch::Download { url, path } && url@ == artifact.remote_url@
            && path@ == artifact.local_path@),
{
    if exists {
        Fetch::Cached { path: artifact.local_path.clone() }
    } else {
        Fetch::Download { url: artifact.remote_url.clone(), path: artifact.local_path.clone() }
    }
}

/// The state of one artifact within a batch.
#[derive(Debug, Clone, Copy, PartialEq, Eq, Structural)]
pub enum Slot {
    Waiting,
    Running,
    Done,
    Failed,
}

/// The number of running slots.
pub open spec fn running_count(slots: Seq<Slot>) -> nat
    decreases slots.len(),
{
    if slots.len() == 0 {
        0
    } else {
        running_count(slots.drop_last()) + if slots.last() == Slot::Running {
            1nat
        } else {
            0nat
        }
    }
}

pub proof fn lemma_running_count_update(slots: Seq<Slot>, i: int, x: Slot)
    requires
        0 <= i < slots.len(),
    ensures
        running_count(slots.update(i, x)) + (if slots[i] == Slot::Running {
            1nat
        } else {
            0nat
        }) == running_count(slots) + (if x == Slot::Running {
            1nat
        } else {
            0nat
        }),
    decreases slots.len(),
{
    let u = slots.update(i, x);
    if i < slots.len() - 1 {
        lemma_running_count_update(slots.drop_last(), i, x);
        assert(u.drop_last() =~= slots.drop_last().update(i, x));
    } else {
        assert(u.drop_last() =~= slots.drop_last());
    }
}

/// The abstract state of a batch: where each artifact stands, how far the
/// batch has got, and the first failure.
pub struct DownloadState {
    pub paths: Seq<Seq<char>>,
    pub slots: Seq<Slot>,
    pub next: nat,
    pub running: nat,
    pub max_parallel: nat,
    pub failure: Option<InstallError>,
}

impl DownloadState {
    pub open spec fn wf(self) -> bool {
        &&& self.slots.len() == self.paths.len()
        &&& self.next <= self.slots.len()
        &&& 0 < self.max_parallel
        &&& self.running == running_count(self.slots)
        &&& self.running <= self.max_parallel
        &&& forall|i: int| self.next <= i < self.slots.len() ==> #[trigger] self.slots[i] == Slot::Waiting
        &&& forall|i: int| 0 <= i < self.next ==> #[trigger] self.slots[i] != Slot::Waiting
    }

    /// The state after the artifact at `index` finished with `outcome`.
    pub open spec fn completed(self, index: int, outcome: Option<InstallError>) -> DownloadState {
        DownloadState {
            slots: self.slots.update(index, if outcome is None { Slot::Done } else { Slot::Failed }),
            running: (self.running - 1) as nat,
            failure: if self.failure is None { outcome } else { self.failure },
            ..self
        }
    }

    /// The state after asking the next artifact to start.
    pub open spec fn started(self) -> DownloadState {
        if self.can_start() {
            DownloadState {
                slots: self.slots.update(self.next as int, Slot::Running),
                next: self.next + 1,
                running: self.running + 1,
                ..self
            }
        } else {
            self
        }
    }

    /// The state after an event; a completion of an artifact that is not
    /// running changes nothing.
    pub open spec fn step(self, e: Event) -> DownloadState {
        match e {
            Event::Start => self.started(),
            Event::Complete(i, o) => if 0 <= i < self.slots.len() && self.slots[i] == Slot::Running {
                self.completed(i, o)
            } else {
                self
            },
        }
    }

    /// The next artifact may start: no failure yet, a free place, one left.
    pub open spec fn can_start(self) -> bool {
        self.failure is None && self.running < self.max_parallel && self.next < self.slots.len()
    }

    /// Nothing runs and nothing more will start.
    pub open spec fn finished(self) -> bool {
        self.running == 0 && (self.failure is Some || self.next == self.slots.len())
    }
}

/// A batch of artifact downloads with at most `max_parallel` in flight. Work is
/// started in input order; results are kept by position, so the paths handed
/// back follow the input order whatever order the downloads finish in. The
/// first failure stops new work from starting and becomes the batch's result.
pub struct Downloads {
    paths: Vec<String>,
    slots: Vec<Slot>,
    next: usize,
    running: usize,
    max_parallel: usize,
    failure: Option<InstallError>,
}

impl View for Downloads {
    type V = DownloadState;

    closed spec fn view(&self) -> DownloadState {
        DownloadState {
            paths: views(self.paths@),
            slots: self.slots@,
            next: self.next as nat,
            running: self.running as nat,
            max_parallel: self.max_parallel as nat,
            failure: self.failure,
        }
    }
}

/// The local paths of a list of artifacts, in order.
pub open spec fn local_paths(artifacts: Seq<ResolvedArtifact>) -> Seq<Seq<char>> {
    artifacts.map_values(|a: ResolvedArtifact| a.local_path@)
}

impl Downloads {
    /// A batch over `artifacts` with nothing started.
    pub fn new(artifacts: &Vec<ResolvedArtifact>, max_parallel: usize) -> (r: Downloads)
        requires
            max_parallel > 0,
        ensures
            r@.wf(),
            r@.paths == local_paths(artifacts@),
            r@.next == 0,
            r@.running == 0,
            forall|i: int| 0 <= i < r@.slots.len() ==> #[trigger] r@.slots[i] == Slot::Waiting,
            r@.max_parallel == max_parallel,
            r@.failure is None,
    {
        let mut paths: Vec<String> = Vec::new();
        let mut slots: Vec<Slot> = Vec::new();
        let mut i: usize = 0;
        while i < artifacts.len()
            invariant
                i <= artifacts.len(),
                views(paths@) == local_paths(artifacts@).take(i as int),
                slots@.len() == i,
                forall|j: int| 0 <= j < i ==> #[trigger] slots@[j] == Slot::Waiting,
                running_count(slots@) == 0,
            decreases artifacts.len() - i,
        {
            let ghost old_paths = paths@;
            paths.push(artifacts[i].local_path.clone());
            assert(paths@ == old_paths.push(artifacts@[i as int].local_path));
            assert(views(paths@) =~= views(old_paths).push(artifacts@[i as int].local_path@));
            let ghost before = slots@;
            slots.push(Slot::Waiting);
            assert(slots@.drop_last() =~= before);
            i = i + 1;
            assert(views(paths@) =~= local_paths(artifacts@).take(i as int));
        }
        assert(local_paths(artifacts@).take(i as int) =~= local_paths(artifacts@));
        Downloads { paths, slots, next: 0, running: 0, max_parallel, failure: None }
    }

    /// Number of artifacts in the batch.
    pub fn len(&self) -> (r: usize)
        ensures
            r == self@.slots.len(),
    {
        self.slots.len()
    }

    /// The local path of the artifact at `index`.
    pub fn path(&self, index: usize) -> (r: &String)
        requires
            self@.wf(),
            index < self@.slots.len(),
        ensures
            r@ == self@.paths[index as int],
    {
        &self.paths[index]
    }

    /// Whether the artifact at `index` has started and not yet finished.
    pub fn is_running(&self, index: usize) -> (r: bool)
        ensures
            r == (index < self@.slots.len() && self@.slots[index as int] == Slot::Running),
    {
        index < self.slots.len() && self.slots[index] == Slot::Running
    }

    /// Starts the next artifact in input order where that is allowed, and says which.
    pub fn start_next(&mut self) -> (r: Option<usize>)
        requires
            old(self)@.wf(),
        ensures
            final(self)@.wf(),
            final(self)@ == old(self)@.started(),
            old(self)@.can_start() ==> r == Some(old(self)@.next as usize),
            !old(self)@.can_start() ==> r is None,
    {
        if self.failure.is_none() && self.running < self.max_parallel && self.next < self.slots.len() {
            let i = self.next;
            proof {
                lemma_running_count_update(self.slots@, i as int, Slot::Running);
            }
            self.slots.set(i, Slot::Running);
            self.next = i + 1;
            self.running = self.running + 1;
            Some(i)
        } else {
            None
        }
    }

    /// Records that the artifact at `index` finished, successfully or not.
    pub fn complete(&mut self, index: usize, outcome: Result<(), InstallError>)
        requires
            old(self)@.wf(),
            index < old(self)@.slots.len(),
            old(self)@.slots[index as int] == Slot::Running,
        ensures
            final(self)@.wf(),
            final(self)@ == old(self)@.completed(
                index as int,
                match outcome {
                    Ok(_) => None,
                    Err(e) => Some(e),
                },
            ),
            final(self)@ == old(self)@.step(
                Event::Complete(
                    index as int,
                    match outcome {
                        Ok(_) => None,
                        Err(e) => Some(e),
                    },
                ),
            ),
    {
        let slot = match &outcome {
            Ok(_) => Slot::Done,
            Err(_) => Slot::Failed,
        };
        proof {
            lemma_running_count_update(self.slots@, index as int, slot);
        }
        self.slots.set(index, slot);
        self.running = self.running - 1;
        if self.failure.is_none() {
            match outcome {
                Ok(_) => {},
                Err(e) => {
                    self.failure = Some(e);
                },
            }
        }
    }

    /// Nothing runs and nothing more will start.
    pub fn is_finished(&self) -> (r: bool)
        ensures
            r == self@.finished(),
    {
        self.running == 0 && (self.failure.is_some() || self.next == self.slots.len())
    }

    /// The outcome of a finished batch: the first failure, or else the local
    /// paths in input order.
    pub fn finish(self) -> (r: Result<Vec<String>, InstallError>)
        requires
            self@.wf(),
            self@.finished(),
        ensures
            match self@.failure {
                Some(e) => r == Err::<Vec<String>, InstallError>(e),
                None => r matches Ok(v) && views(v@) == self@.paths,
            },
    {
        match self.failure {
            Some(e) => Err(e),
            None => Ok(self.paths),
        }
    }
}

/// The order in which downloads finish does not matter: completing two running
/// artifacts successfully in either order gives the same state, and so the
/// same result.
pub proof fn lemma_completion_order(s: DownloadState, i: int, j: int)
    requires
        s.wf(),
        0 <= i < s.slots.len(),
        0 <= j < s.slots.len(),
        i != j,
        s.slots[i] == Slot::Running,
        s.slots[j] == Slot::Running,
    ensures
        s.completed(i, None).completed(j, None) == s.completed(j, None).completed(i, None),
{
    assert(s.completed(i, None).completed(j, None).slots =~= s.completed(j, None).completed(
        i,
        None,
    ).slots);
}

/// Something that happens to a batch: the next artifact is asked to start, or
/// the artifact at an index finishes, successfully (`None`) or not.
pub enum Event {
    Start,
    Complete(int, Option<InstallError>),
}

/// The state after a sequence of events; events that do not apply change nothing.
pub open spec fn run(s: DownloadState, events: Seq<Event>) -> DownloadState
    decreases events.len(),
{
    if events.len() == 0 {
        s
    } else {
        run(s.step(events[0]), events.drop_first())
    }
}

/// Whatever the order in which downloads start and finish, a batch stays
/// well formed, never has more than its bound in flight, and keeps the local
/// paths in input order: a finished batch without failure hands back exactly
/// the input's paths, position by position.
pub proof fn lemma_order_preserved(s: DownloadState, events: Seq<Event>)
    requires
        s.wf(),
    ensures
        run(s, events).wf(),
        run(s, events).paths == s.paths,
        run(s, events).running <= run(s, events).max_parallel,
    decreases events.len(),
{
    if events.len() > 0 {
        let t = s.step(events[0]);
        match events[0] {
            Event::Start => {
                if s.can_start() {
                    lemma_running_count_update(s.slots, s.next as int, Slot::Running);
                }
            },
            Event::Complete(i, o) => {
                if 0 <= i < s.slots.len() && s.slots[i] == Slot::Running {
                    let x = if o is None { Slot::Done } else { Slot::Failed };
                    lemma_running_count_update(s.slots, i, x);
                }
            },
        }
        assert(t.wf());
        lemma_order_preserved(t, events.drop_first());
    }
}

} // verus!
