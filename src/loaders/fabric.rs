use vstd::prelude::*;
use crate::error::InstallError;
use crate::loaders::minecraft;

verus! {

/// Game-version list of the Fabric metadata service.
pub const GAME: &'static str = "https://meta.fabricmc.net/v2/versions/game";

/// Artifact repository of Fabric; the fallback mirror for libraries.
pub const MAVEN: &'static str = "https://maven.fabricmc.net/";

/// Loader-version list of the Fabric metadata service.
pub const META: &'static str = "https://meta.fabricmc.net/v2/versions/loader";

/// A Fabric loader release.
#[derive(Debug, Clone, PartialEq, Eq)]
pub struct Version {
    pub separator: String,
    pub build: i64,
    pub maven: String,
    pub version: String,
    pub stable: bool,
}

impl Version {
    /// A copy of this release.
    pub fn duplicate(&self) -> (r: Version)
        ensures
            r == *self,
    {
        Version {
            separator: self.separator.clone(),
            build: self.build,
            maven: self.maven.clone(),
            version: self.version.clone(),
            stable: self.stable,
        }
    }
}

/// Something that happened outside the Fabric panel: an error, news for the
/// game-version panel, or a fetched list of releases.
#[derive(Debug)]
pub enum Message {
    Error(InstallError),
    Minecraft(minecraft::Message),
    SetMinecraft(Result<Vec<minecraft::Version>, InstallError>),
    SetVersions(Result<Vec<Version>, InstallError>),
}

/// A choice made in the Fabric panel.
#[derive(Debug, Clone)]
pub enum Interaction {
    Minecraft(minecraft::Interaction),
    SelectVersion(Version),
}

/// The Fabric panel: the game-version panel, the loader releases on offer and
/// the selected one.
#[derive(Debug, Default)]
pub struct State {
    pub minecraft: minecraft::State,
    pub versions: Vec<Version>,
    pub selected_version: Option<Version>,
}

/// The release picked when none is selected: the first one listed.
pub open spec fn default_release(vs: Seq<Version>) -> Option<Version> {
    if vs.len() == 0 {
        None
    } else {
        Some(vs[0])
    }
}

impl State {
    pub fn selected_version(&self) -> (r: Option<Version>)
        ensures
            r == self.selected_version,
    {
        match &self.selected_version {
            Some(v) => Some(v.duplicate()),
            None => None,
        }
    }

    pub fn selected_minecraft(&self) -> (r: Option<minecraft::Version>)
        ensures
            r == self.minecraft.selected_version,
    {
        match &self.minecraft.selected_version {
            Some(v) => Some(v.duplicate()),
            None => None,
        }
    }

    /// Applies a choice made in the panel.
    pub fn update_interaction(&mut self, interaction: Interaction)
        ensures
            match interaction {
                Interaction::Minecraft(i) => final(self).versions == old(self).versions
                    && final(self).selected_version == old(self).selected_version
                    && match i {
                    minecraft::Interaction::SelectVersion(v) => final(self).minecraft.selected_version == Some(v)
                        && final(self).minecraft.versions == old(self).minecraft.versions
                        && final(self).minecraft.show_snapshots == old(self).minecraft.show_snapshots,
                    minecraft::Interaction::ShowSnapshots(b) => final(self).minecraft.show_snapshots == b
                        && final(self).minecraft.versions == old(self).minecraft.versions
                        && final(self).minecraft.selected_version == old(self).minecraft.selected_version,
                },
                Interaction::SelectVersion(v) => final(self).selected_version == Some(v)
                    && final(self).versions == old(self).versions
                    && final(self).minecraft == old(self).minecraft,
            },
    {
        match interaction {
            Interaction::Minecraft(i) => self.minecraft.update_interaction(i),
            Interaction::SelectVersion(v) => self.selected_version = Some(v),
        }
    }

    /// Handles a message and hands back the error it carries, if any, to be
    /// reported. A fetched list replaces the one on offer, and where nothing is
    /// selected yet the first stable game release, or the first loader
    /// release, becomes selected.
    pub fn update_message(&mut self, message: Message) -> (r: Option<InstallError>)
        ensures
            match message {
                Message::Error(e) => r == Some(e) && *final(self) == *old(self),
                Message::Minecraft(minecraft::Message::Error(e)) => r == Some(e) && *final(self) == *old(self),
                Message::SetMinecraft(Err(e)) => r == Some(e) && *final(self) == *old(self),
                Message::SetVersions(Err(e)) => r == Some(e) && *final(self) == *old(self),
                Message::SetMinecraft(Ok(vs)) => r is None && final(self).minecraft.versions == vs
                    && final(self).minecraft.show_snapshots == old(self).minecraft.show_snapshots
                    && final(self).minecraft.selected_version == (if old(self).minecraft.selected_version is None {
                    minecraft::default_release(vs@)
                } else {
                    old(self).minecraft.selected_version
                }) && final(self).versions == old(self).versions
                    && final(self).selected_version == old(self).selected_version,
                Message::SetVersions(Ok(vs)) => r is None && final(self).versions == vs
                    && final(self).selected_version == (if old(self).selected_version is None {
                    default_release(vs@)
                } else {
                    old(self).selected_version
                }) && final(self).minecraft == old(self).minecraft,
            },
    {
        match message {
            Message::Error(e) => Some(e),
            Message::Minecraft(m) => self.minecraft.update_message(m),
            Message::SetMinecraft(Ok(vs)) => {
                self.minecraft.set_versions(vs);
                None
            },
            Message::SetMinecraft(Err(e)) => Some(e),
            Message::SetVersions(Ok(vs)) => {
                self.versions = vs;
                if self.selected_version.is_none() && self.versions.len() > 0 {
                    self.selected_version = Some(self.versions[0].duplicate());
                }
                None
            },
            Message::SetVersions(Err(e)) => Some(e),
        }
    }
}

} // verus!
