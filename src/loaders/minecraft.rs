use vstd::prelude::*;
use crate::error::InstallError;

verus! {

/// A game release as listed by a metadata service.
#[derive(Debug, Clone, PartialEq, Eq)]
pub struct Version {
    pub version: String,
    pub stable: bool,
}

impl Version {
    /// A copy of this release.
    pub fn duplicate(&self) -> (r: Version)
        ensures
            r == *self,
    {
        Version { version: self.version.clone(), stable: self.stable }
    }
}

/// `i` is the first stable release of `vs`.
pub open spec fn is_first_stable(vs: Seq<Version>, i: int) -> bool {
    &&& 0 <= i < vs.len()
    &&& vs[i].stable
    &&& forall|j: int| 0 <= j < i ==> !(#[trigger] vs[j]).stable
}

/// The release picked when none is selected: the first stable one, if any.
pub open spec fn default_release(vs: Seq<Version>) -> Option<Version> {
    if exists|i: int| is_first_stable(vs, i) {
        Some(vs[choose|i: int| is_first_stable(vs, i)])
    } else {
        None
    }
}

/// The first stable release of a list, if any.
pub fn first_stable(vs: &Vec<Version>) -> (r: Option<Version>)
    ensures
        r == default_release(vs@),
{
    let mut i: usize = 0;
    while i < vs.len()
        invariant
            i <= vs.len(),
            forall|j: int| 0 <= j < i ==> !(#[trigger] vs@[j]).stable,
        decreases vs.len() - i,
    {
        if vs[i].stable {
            proof {
                assert(is_first_stable(vs@, i as int));
                let k = choose|k: int| is_first_stable(vs@, k);
                if k < i {
                    assert(!vs@[k].stable);
                } else if i < k {
                    assert(!vs@[i as int].stable);
                }
            }
            return Some(vs[i].duplicate());
        }
        i = i + 1;
    }
    assert(!exists|k: int| is_first_stable(vs@, k));
    None
}

/// Something that happened outside the game-version panel.
#[derive(Debug)]
pub enum Message {
    Error(InstallError),
}

/// A choice made in the game-version panel.
#[derive(Debug, Clone)]
pub enum Interaction {
    SelectVersion(Version),
    ShowSnapshots(bool),
}

/// The game-version panel: the releases on offer, the selected one, and
/// whether snapshots are listed.
#[derive(Debug, Default)]
pub struct State {
    pub versions: Vec<Version>,
    pub selected_version: Option<Version>,
    pub show_snapshots: bool,
}

impl State {
    /// Applies a choice: select a release, or show or hide snapshots.
    pub fn update_interaction(&mut self, interaction: Interaction)
        ensures
            match interaction {
                Interaction::SelectVersion(v) => final(self).selected_version == Some(v)
                    && final(self).versions == old(self).versions
                    && final(self).show_snapshots == old(self).show_snapshots,
                Interaction::ShowSnapshots(b) => final(self).show_snapshots == b
                    && final(self).versions == old(self).versions
                    && final(self).selected_version == old(self).selected_version,
            },
    {
        match interaction {
            Interaction::SelectVersion(v) => self.selected_version = Some(v),
            Interaction::ShowSnapshots(b) => self.show_snapshots = b,
        }
    }

    /// Handles a message; the state does not change, and an error is handed
    /// back to be reported.
    pub fn update_message(&mut self, message: Message) -> (r: Option<InstallError>)
        ensures
            *final(self) == *old(self),
            match message {
                Message::Error(e) => r == Some(e),
            },
    {
        match message {
            Message::Error(e) => Some(e),
        }
    }

    /// Replaces the releases on offer; where none is selected yet, the first
    /// stable one becomes selected.
    pub fn set_versions(&mut self, versions: Vec<Version>)
        ensures
            final(self).versions == versions,
            final(self).show_snapshots == old(self).show_snapshots,
            final(self).selected_version == if old(self).selected_version is None {
                default_release(versions@)
            } else {
                old(self).selected_version
            },
    {
        self.versions = versions;
        if self.selected_version.is_none() {
            self.selected_version = first_stable(&self.versions);
        }
    }

    /// For each release, whether the panel lists it: all of them with
    /// snapshots shown, else the stable ones.
    pub fn shown(&self) -> (r: Vec<bool>)
        ensures
            r@.len() == self.versions@.len(),
            forall|i: int|
                0 <= i < r@.len() ==> #[trigger] r@[i] == (self.show_snapshots
                    || self.versions@[i].stable),
    {
        let mut r: Vec<bool> = Vec::new();
        let mut i: usize = 0;
        while i < self.versions.len()
            invariant
                i <= self.versions@.len(),
                r@.len() == i,
                forall|j: int|
                    0 <= j < i ==> #[trigger] r@[j] == (self.show_snapshots
                        || self.versions@[j].stable),
            decreases self.versions.len() - i,
        {
            r.push(self.show_snapshots || self.versions[i].stable);
            i = i + 1;
        }
        r
    }
}

} // verus!
