use vstd::prelude::*;
use crate::error::InstallError;
use crate::loaders::minecraft;
use crate::text::{
    chars_of, contains, contains_text, equals_range, find_from, first_index, lemma_first_absent,
    lemma_first_unique,
};

verus! {

/// Game-version list of the Quilt metadata service.
pub const GAME: &'static str = "https://meta.quiltmc.org/v3/versions/game";

/// Artifact repository of Quilt; the primary mirror for libraries.
pub const MAVEN: &'static str = "https://maven.quiltmc.org/repository/release";

/// Loader-version list of the Quilt metadata service.
pub const META: &'static str = "https://meta.quiltmc.org/v3/versions/loader";

/// Artifact name of the remapping library that clashes with the intermediary
/// mappings when both are on the classpath.
pub const CONFLICTING_ARTIFACT: &'static str = "hashed";

/// A library entry of a launch profile: a coordinate and its repository.
#[derive(Debug, Clone)]
pub struct Library {
    pub name: String,
    pub url: String,
}

/// A Quilt loader release.
#[derive(Debug, Clone, PartialEq, Eq)]
pub struct Version {
    pub separator: String,
    pub build: u32,
    pub maven: String,
    pub version: String,
}

/// The artifact field of a coordinate: the text after the first `:` up to the
/// second `:` or the end; `None` where there is no `:`.
pub open spec fn artifact_name(name: Seq<char>) -> Option<Seq<char>> {
    let i = first_index(name, ':');
    let rest = name.skip(i + 1);
    let k = first_index(rest, ':');
    if i < 0 {
        None
    } else if k < 0 {
        Some(rest)
    } else {
        Some(rest.take(k))
    }
}

/// Whether a library coordinate names the conflicting remapping library,
/// whatever its group and version.
pub open spec fn is_conflicting(name: Seq<char>) -> bool {
    artifact_name(name) == Some(CONFLICTING_ARTIFACT@)
}

pub open spec fn is_compatible(lib: Library) -> bool {
    !is_conflicting(lib.name@)
}

/// The libraries of `libs` that may share a classpath, in their order.
pub open spec fn compatible_libraries(libs: Seq<Library>) -> Seq<Library> {
    libs.filter(|l: Library| is_compatible(l))
}

/// Whether a library may stay on the classpath.
pub fn library_is_compatible(lib: &Library) -> (r: bool)
    ensures
        r == is_compatible(*lib),
{
    let s = chars_of(lib.name.as_str());
    let i = find_from(&s, ':', 0);
    proof {
        assert(s@.skip(0) =~= s@);
        if i < s.len() {
            lemma_first_unique(s@, ':', i as int);
        } else {
            lemma_first_absent(s@, ':');
        }
    }
    if i == s.len() {
        return true;
    }
    let k = find_from(&s, ':', i + 1);
    proof {
        let rest = s@.skip(i + 1);
        if k < s.len() {
            lemma_first_unique(rest, ':', k - (i + 1));
            assert(rest.take(k - (i + 1)) =~= s@.subrange(i + 1, k as int));
        } else {
            lemma_first_absent(rest, ':');
            assert(rest =~= s@.subrange(i + 1, k as int));
        }
    }
    let artifact = chars_of(CONFLICTING_ARTIFACT);
    !equals_range(&s, i + 1, k, &artifact)
}

/// Drops every library that would clash with the intermediary mappings,
/// keeping the order of the rest.
pub fn retain_compatible(libraries: Vec<Library>) -> (r: Vec<Library>)
    ensures
        r@ == compatible_libraries(libraries@),
{
    let ghost orig = libraries@;
    let mut rest = libraries;
    let mut r: Vec<Library> = Vec::new();
    while rest.len() > 0
        invariant
            orig.len() >= rest@.len(),
            orig == orig.take(orig.len() - rest@.len()) + rest@,
            r@ == compatible_libraries(orig.take(orig.len() - rest@.len())),
        decreases rest.len(),
    {
        let ghost done = orig.take(orig.len() - rest@.len());
        let lib = rest.remove(0);
        let ghost next = orig.take(orig.len() - rest@.len());
        assert(next.len() == done.len() + 1);
        assert(next.drop_last() =~= done);
        assert(next.last() == lib);
        assert(orig =~= next + rest@);
        let keep = library_is_compatible(&lib);
        proof {
            reveal(Seq::filter);
        }
        assert(compatible_libraries(next) == if is_compatible(lib) {
            compatible_libraries(done).push(lib)
        } else {
            compatible_libraries(done)
        });
        if keep {
            r.push(lib);
        }
    }
    assert(orig.take(orig.len() as int) =~= orig);
    r
}

impl Version {
    /// A copy of this release.
    pub fn duplicate(&self) -> (r: Version)
        ensures
            r == *self,
    {
        Version {
            separator: self.separator.clone(),
            build: self.build,
            maven: self.maven.clone(),
            version: self.version.clone(),
        }
    }
}

/// Marks a pre-release in a version string.
pub const BETA: &'static str = "beta";

pub open spec fn is_beta(v: Version) -> bool {
    contains_text(v.version@, BETA@)
}

/// `i` is the first release of `vs` that is not a beta.
pub open spec fn is_first_release(vs: Seq<Version>, i: int) -> bool {
    &&& 0 <= i < vs.len()
    &&& !is_beta(vs[i])
    &&& forall|j: int| 0 <= j < i ==> is_beta(#[trigger] vs[j])
}

/// The release picked when none is selected: the first that is not a beta.
pub open spec fn default_release(vs: Seq<Version>) -> Option<Version> {
    if exists|i: int| is_first_release(vs, i) {
        Some(vs[choose|i: int| is_first_release(vs, i)])
    } else {
        None
    }
}

fn version_is_beta(v: &Version) -> (r: bool)
    ensures
        r == is_beta(*v),
{
    let text = chars_of(v.version.as_str());
    let beta = chars_of(BETA);
    contains(&text, &beta)
}

/// The first release of a list that is not a beta, if any.
pub fn first_release(vs: &Vec<Version>) -> (r: Option<Version>)
    ensures
        r == default_release(vs@),
{
    let mut i: usize = 0;
    while i < vs.len()
        invariant
            i <= vs.len(),
            forall|j: int| 0 <= j < i ==> is_beta(#[trigger] vs@[j]),
        decreases vs.len() - i,
    {
        if !version_is_beta(&vs[i]) {
            proof {
                assert(is_first_release(vs@, i as int));
                let k = choose|k: int| is_first_release(vs@, k);
                if k < i {
                    assert(is_beta(vs@[k]));
                } else if i < k {
                    assert(is_beta(vs@[i as int]));
                }
            }
            return Some(vs[i].duplicate());
        }
        i = i + 1;
    }
    assert(!exists|k: int| is_first_release(vs@, k));
    None
}

/// Something that happened outside the Quilt panel: an error, news for the
/// game-version panel, or a fetched list of releases.
#[derive(Debug)]
pub enum Message {
    Error(InstallError),
    Minecraft(minecraft::Message),
    SetMinecraft(Result<Vec<minecraft::Version>, InstallError>),
    SetVersions(Result<Vec<Version>, InstallError>),
}

/// A choice made in the Quilt panel.
#[derive(Debug, Clone)]
pub enum Interaction {
    Minecraft(minecraft::Interaction),
    SelectVersion(Version),
    ShowBetas(bool),
}

/// The Quilt panel: the game-version panel, the loader releases on offer,
/// the selected one, and whether betas are listed.
#[derive(Debug, Default)]
pub struct State {
    pub minecraft: minecraft::State,
    pub versions: Vec<Version>,
    pub selected_version: Option<Version>,
    pub show_betas: bool,
}

impl State {
    pub fn selected_version(&self) -> (r: Option<Version>)
        ensures
            r == self.selected_version,
    {
        match &self.selected_version {
            Some(v) => Some(v.duplicate()),
            None => None,
        }
    }

    pub fn selected_minecraft(&self) -> (r: Option<minecraft::Version>)
        ensures
            r == self.minecraft.selected_version,
    {
        match &self.minecraft.selected_version {
            Some(v) => Some(v.duplicate()),
            None => None,
        }
    }

    /// Applies a choice made in the panel.
    pub fn update_interaction(&mut self, interaction: Interaction)
        ensures
            match interaction {
                Interaction::Minecraft(i) => final(self).versions == old(self).versions
                    && final(self).selected_version == old(self).selected_version
                    && final(self).show_betas == old(self).show_betas
                    && match i {
                    minecraft::Interaction::SelectVersion(v) => final(self).minecraft.selected_version == Some(v)
                        && final(self).minecraft.versions == old(self).minecraft.versions
                        && final(self).minecraft.show_snapshots == old(self).minecraft.show_snapshots,
                    minecraft::Interaction::ShowSnapshots(b) => final(self).minecraft.show_snapshots
                        == b && final(self).minecraft.versions == old(self).minecraft.versions
                        && final(self).minecraft.selected_version
                        == old(self).minecraft.selected_version,
                },
                Interaction::SelectVersion(v) => final(self).selected_version == Some(v)
                    && final(self).versions == old(self).versions
                    && final(self).show_betas == old(self).show_betas
                    && final(self).minecraft == old(self).minecraft,
                Interaction::ShowBetas(b) => final(self).show_betas == b
                    && final(self).versions == old(self).versions
                    && final(self).selected_version == old(self).selected_version
                    && final(self).minecraft == old(self).minecraft,
            },
    {
        match interaction {
            Interaction::Minecraft(i) => self.minecraft.update_interaction(i),
            Interaction::SelectVersion(v) => self.selected_version = Some(v),
            Interaction::ShowBetas(b) => self.show_betas = b,
        }
    }

    /// Handles a message and hands back the error it carries, if any, to be
    /// reported. A fetched list replaces the one on offer, and where nothing is
    /// selected yet the first stable game release, or the first loader release
    /// that is not a beta, becomes selected.
    pub fn update_message(&mut self, message: Message) -> (r: Option<InstallError>)
        ensures
            match message {
                Message::Error(e) => r == Some(e) && *final(self) == *old(self),
                Message::Minecraft(minecraft::Message::Error(e)) => r == Some(e) && *final(self)
                    == *old(self),
                Message::SetMinecraft(Err(e)) => r == Some(e) && *final(self) == *old(self),
                Message::SetVersions(Err(e)) => r == Some(e) && *final(self) == *old(self),
                Message::SetMinecraft(Ok(vs)) => r is None && final(self).minecraft.versions == vs
                    && final(self).minecraft.show_snapshots == old(self).minecraft.show_snapshots
                    && final(self).minecraft.selected_version == (if old(self).minecraft.selected_version is None {
                    minecraft::default_release(vs@)
                } else {
                    old(self).minecraft.selected_version
                }) && final(self).versions == old(self).versions && final(self).selected_version
                    == old(self).selected_version && final(self).show_betas == old(self).show_betas,
                Message::SetVersions(Ok(vs)) => r is None && final(self).versions == vs
                    && final(self).selected_version == (if old(self).selected_version is None {
                    default_release(vs@)
                } else {
                    old(self).selected_version
                }) && final(self).minecraft == old(self).minecraft && final(self).show_betas
                    == old(self).show_betas,
            },
    {
        match message {
            Message::Error(e) => Some(e),
            Message::Minecraft(m) => self.minecraft.update_message(m),
            Message::SetMinecraft(Ok(vs)) => {
                self.minecraft.set_versions(vs);
                None
            },
            Message::SetMinecraft(Err(e)) => Some(e),
            Message::SetVersions(Ok(vs)) => {
                self.versions = vs;
                if self.selected_version.is_none() {
                    self.selected_version = first_release(&self.versions);
                }
                None
            },
            Message::SetVersions(Err(e)) => Some(e),
        }
    }

    /// For each loader release, whether the panel lists it: all of them with
    /// betas shown, else those that are not betas.
    pub fn shown(&self) -> (r: Vec<bool>)
        ensures
            r@.len() == self.versions@.len(),
            forall|i: int|
                0 <= i < r@.len() ==> #[trigger] r@[i] == (self.show_betas || !is_beta(
                    self.versions@[i],
                )),
    {
        let mut r: Vec<bool> = Vec::new();
        let mut i: usize = 0;
        while i < self.versions.len()
            invariant
                i <= self.versions@.len(),
                r@.len() == i,
                forall|j: int|
                    0 <= j < i ==> #[trigger] r@[j] == (self.show_betas || !is_beta(
                        self.versions@[j],
                    )),
            decreases self.versions.len() - i,
        {
            let shown = self.show_betas || !version_is_beta(&self.versions[i]);
            r.push(shown);
            i = i + 1;
        }
        r
    }
}

} // verus!
