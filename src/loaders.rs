use vstd::prelude::*;
use crate::error::InstallError;
use crate::text::{chars_of, extend_chars, path_join, push_path, string_of};

pub mod fabric;
pub mod forge;
pub mod minecraft;
pub mod quilt;

verus! {

/// Which half of the game an install targets.
#[derive(Debug, Clone, Copy, PartialEq, Eq, Structural)]
pub enum Side {
    Client,
    Server,
}

/// The mod loaders this installer knows about.
#[derive(Debug, Clone, Copy, PartialEq, Eq, Structural)]
pub enum Loader {
    Fabric,
    Forge,
    Quilt,
}

impl Default for Side {
    fn default() -> (r: Side)
        ensures
            r == Side::Client,
    {
        Side::Client
    }
}

impl Default for Loader {
    fn default() -> (r: Loader)
        ensures
            r == Loader::Quilt,
    {
        Loader::Quilt
    }
}

/// The side a tab index stands for; unknown indices fall back to the client.
pub open spec fn side_of_index(v: u8) -> Side {
    if v == 1 {
        Side::Server
    } else {
        Side::Client
    }
}

pub open spec fn side_index(s: Side) -> u8 {
    match s {
        Side::Client => 0,
        Side::Server => 1,
    }
}

/// The loader a tab index stands for; unknown indices fall back to Quilt.
pub open spec fn loader_of_index(v: u8) -> Loader {
    if v == 0 {
        Loader::Fabric
    } else if v == 1 {
        Loader::Forge
    } else {
        Loader::Quilt
    }
}

pub open spec fn loader_index(l: Loader) -> u8 {
    match l {
        Loader::Fabric => 0,
        Loader::Forge => 1,
        Loader::Quilt => 2,
    }
}

impl From<u8> for Side {
    fn from(v: u8) -> (r: Side) {
        if v == 1 {
            Side::Server
        } else {
            Side::Client
        }
    }
}

impl vstd::std_specs::convert::FromSpecImpl<u8> for Side {
    open spec fn obeys_from_spec() -> bool {
        true
    }

    open spec fn from_spec(v: u8) -> Side {
        side_of_index(v)
    }
}

impl From<Side> for u8 {
    fn from(s: Side) -> (r: u8) {
        match s {
            Side::Client => 0,
            Side::Server => 1,
        }
    }
}

impl vstd::std_specs::convert::FromSpecImpl<Side> for u8 {
    open spec fn obeys_from_spec() -> bool {
        true
    }

    open spec fn from_spec(s: Side) -> u8 {
        side_index(s)
    }
}

impl From<u8> for Loader {
    fn from(v: u8) -> (r: Loader) {
        if v == 0 {
            Loader::Fabric
        } else if v == 1 {
            Loader::Forge
        } else {
            Loader::Quilt
        }
    }
}

impl vstd::std_specs::convert::FromSpecImpl<u8> for Loader {
    open spec fn obeys_from_spec() -> bool {
        true
    }

    open spec fn from_spec(v: u8) -> Loader {
        loader_of_index(v)
    }
}

impl From<Loader> for u8 {
    fn from(l: Loader) -> (r: u8) {
        match l {
            Loader::Fabric => 0,
            Loader::Forge => 1,
            Loader::Quilt => 2,
        }
    }
}

impl vstd::std_specs::convert::FromSpecImpl<Loader> for u8 {
    open spec fn obeys_from_spec() -> bool {
        true
    }

    open spec fn from_spec(l: Loader) -> u8 {
        loader_index(l)
    }
}

/// A loader together with the release of it that is to be installed.
#[derive(Debug, Clone)]
pub enum LoaderVersion {
    Fabric(fabric::Version),
    Forge(bool),
    Quilt(quilt::Version),
}

/// The name under which a loader's artifacts and profiles are published.
pub open spec fn loader_name(l: Loader) -> Seq<char> {
    match l {
        Loader::Fabric => "fabric-loader"@,
        Loader::Forge => "forge"@,
        Loader::Quilt => "quilt-loader"@,
    }
}

/// The file name of a loader's branding image.
pub open spec fn icon_name(l: Loader) -> Seq<char> {
    match l {
        Loader::Fabric => "fabric.png"@,
        Loader::Forge => "forge.png"@,
        Loader::Quilt => "quilt.png"@,
    }
}

impl LoaderVersion {
    pub open spec fn kind(&self) -> Loader {
        match self {
            LoaderVersion::Fabric(_) => Loader::Fabric,
            LoaderVersion::Forge(_) => Loader::Forge,
            LoaderVersion::Quilt(_) => Loader::Quilt,
        }
    }

    /// The release as text: the version string, or the flag of a Forge selection.
    pub open spec fn version_text(&self) -> Seq<char> {
        match self {
            LoaderVersion::Fabric(v) => v.version@,
            LoaderVersion::Forge(b) => if *b {
                "true"@
            } else {
                "false"@
            },
            LoaderVersion::Quilt(v) => v.version@,
        }
    }

    pub fn name(&self) -> (r: &'static str)
        ensures
            r@ == loader_name(self.kind()),
    {
        match self {
            LoaderVersion::Fabric(_) => "fabric-loader",
            LoaderVersion::Forge(_) => "forge",
            LoaderVersion::Quilt(_) => "quilt-loader",
        }
    }

    pub fn loader(&self) -> (r: Loader)
        ensures
            r == self.kind(),
    {
        match self {
            LoaderVersion::Fabric(_) => Loader::Fabric,
            LoaderVersion::Forge(_) => Loader::Forge,
            LoaderVersion::Quilt(_) => Loader::Quilt,
        }
    }

    /// The file name of the loader's branding image.
    pub fn icon(&self) -> (r: &'static str)
        ensures
            r@ == icon_name(self.kind()),
    {
        match self.loader() {
            Loader::Fabric => "fabric.png",
            Loader::Forge => "forge.png",
            Loader::Quilt => "quilt.png",
        }
    }

    /// The release as text.
    pub fn to_string(&self) -> (r: String)
        ensures
            r@ == self.version_text(),
    {
        match self {
            LoaderVersion::Fabric(v) => v.version.clone(),
            LoaderVersion::Forge(b) => if *b {
                "true".to_string()
            } else {
                "false".to_string()
            },
            LoaderVersion::Quilt(v) => v.version.clone(),
        }
    }
}

/// One install request: what to install, for which side, where, for which
/// game release, and whether to register a launcher profile.
pub struct Install<V> {
    pub version: V,
    pub side: Side,
    pub dir: String,
    pub minecraft: minecraft::Version,
    pub generate: bool,
}

/// `{loader-name}-{loader-version}-{game-version}`.
pub open spec fn profile_id(v: LoaderVersion, game: Seq<char>) -> Seq<char> {
    loader_name(v.kind()) + seq!['-'] + v.version_text() + seq!['-'] + game
}

/// Root of the per-release documents of the Quilt metadata service.
pub const QUILT_LOADER_META: &'static str = "https://meta.quiltmc.org/v3/versions/loader/";

/// The URL of a Quilt launch-profile document for one side.
pub open spec fn quilt_profile_url(game: Seq<char>, loader: Seq<char>, side: Side) -> Seq<char> {
    QUILT_LOADER_META@ + game + seq!['/'] + loader + match side {
        Side::Client => "/profile/json"@,
        Side::Server => "/server/json"@,
    }
}

/// The file name of the server launch bundle.
pub const SERVER_BUNDLE: &'static str = "quilt-server-launch.jar";

/// The work of a client install: a fresh `profile_dir` holding an empty
/// `jar_path` and the filtered document from `profile_url` at `json_path`, and,
/// where `register` holds, a registry entry.
#[derive(Debug, Clone)]
pub struct ClientPlan {
    pub profile_id: String,
    pub profile_url: String,
    pub profile_dir: String,
    pub jar_path: String,
    pub json_path: String,
    pub register: bool,
}

/// The work of a server install: the document at `profile_url`, its libraries
/// cached under `libraries_dir`, and a launch bundle at `bundle_path` whose
/// classpath is relative to `dir`.
#[derive(Debug, Clone)]
pub struct ServerPlan {
    pub profile_url: String,
    pub dir: String,
    pub libraries_dir: String,
    pub bundle_path: String,
}

/// What an install request amounts to.
#[derive(Debug, Clone)]
pub enum InstallPlan {
    /// The loader has no installer yet: nothing is done.
    Nothing,
    Client(ClientPlan),
    Server(ServerPlan),
}

/// Whether `p` is the client plan for a Quilt release.
pub open spec fn is_client_plan(p: ClientPlan, v: LoaderVersion, dir: Seq<char>, game: Seq<char>, generate: bool) -> bool {
    let id = profile_id(v, game);
    let pdir = path_join(path_join(dir, "versions"@), id);
    &&& p.profile_id@ == id
    &&& p.profile_url@ == quilt_profile_url(game, v.version_text(), Side::Client)
    &&& p.profile_dir@ == pdir
    &&& p.jar_path@ == path_join(pdir, id + ".jar"@)
    &&& p.json_path@ == path_join(pdir, id + ".json"@)
    &&& p.register == generate
}

/// Whether `p` is the server plan for a Quilt release.
pub open spec fn is_server_plan(p: ServerPlan, v: LoaderVersion, dir: Seq<char>, game: Seq<char>) -> bool {
    &&& p.profile_url@ == quilt_profile_url(game, v.version_text(), Side::Server)
    &&& p.dir@ == dir
    &&& p.libraries_dir@ == path_join(dir, "libraries"@)
    &&& p.bundle_path@ == path_join(dir, SERVER_BUNDLE@)
}

fn joined_path(dir: &Vec<char>, name: &str) -> (r: Vec<char>)
    ensures
        r@ == path_join(dir@, name@),
{
    let mut r = dir.clone();
    push_path(&mut r, &chars_of(name));
    r
}

/// Builds the profile id of a release for a game version.
pub fn make_profile_id(version: &LoaderVersion, minecraft: &minecraft::Version) -> (r: String)
    ensures
        r@ == profile_id(*version, minecraft.version@),
{
    let mut id = chars_of(version.name());
    id.push('-');
    let v = version.to_string();
    extend_chars(&mut id, v.as_str());
    id.push('-');
    extend_chars(&mut id, minecraft.version.as_str());
    string_of(&id)
}

fn profile_url(game: &str, loader: &str, side: Side) -> (r: String)
    ensures
        r@ == quilt_profile_url(game@, loader@, side),
{
    let mut u = chars_of(QUILT_LOADER_META);
    extend_chars(&mut u, game);
    u.push('/');
    extend_chars(&mut u, loader);
    match side {
        Side::Client => extend_chars(&mut u, "/profile/json"),
        Side::Server => extend_chars(&mut u, "/server/json"),
    }
    string_of(&u)
}

/// Turns an install request into the work it asks for. A missing install
/// directory fails the request before any work is planned; Fabric and Forge
/// have no installer and plan nothing; Quilt plans the client or the server
/// install by `side`.
pub fn plan_install(request: &Install<LoaderVersion>, dir_exists: bool) -> (r: Result<
    InstallPlan,
    InstallError,
>)
    ensures
        !dir_exists ==> (r matches Err(InstallError::Validation(d)) && d@ == request.dir@),
        dir_exists && !(request.version is Quilt) ==> (r matches Ok(InstallPlan::Nothing)),
        dir_exists && request.version is Quilt && request.side == Side::Client ==> (r matches Ok(
            InstallPlan::Client(p),
        ) && is_client_plan(
            p,
            request.version,
            request.dir@,
            request.minecraft.version@,
            request.generate,
        )),
        dir_exists && request.version is Quilt && request.side == Side::Server ==> (r matches Ok(
            InstallPlan::Server(p),
        ) && is_server_plan(p, request.version, request.dir@, request.minecraft.version@)),
{
    let loader = &request.version;
    let side = request.side;
    let dir = request.dir.as_str();
    let minecraft = &request.minecraft;
    let generate = request.generate;
    if !dir_exists {
        return Err(InstallError::Validation(dir.to_string()));
    }
    match loader {
        LoaderVersion::Quilt(v) => {
            let base = chars_of(dir);
            match side {
                Side::Client => {
                    let id = make_profile_id(loader, minecraft);
                    let versions = joined_path(&base, "versions");
                    let pdir = joined_path(&versions, id.as_str());
                    let mut jar_name = chars_of(id.as_str());
                    extend_chars(&mut jar_name, ".jar");
                    let jar_name = string_of(&jar_name);
                    let mut json_name = chars_of(id.as_str());
                    extend_chars(&mut json_name, ".json");
                    let json_name = string_of(&json_name);
                    let jar = joined_path(&pdir, jar_name.as_str());
                    let json = joined_path(&pdir, json_name.as_str());
                    Ok(
                        InstallPlan::Client(
                            ClientPlan {
                                profile_id: id,
                                profile_url: profile_url(
                                    minecraft.version.as_str(),
                                    v.version.as_str(),
                                    Side::Client,
                                ),
                                profile_dir: string_of(&pdir),
                                jar_path: string_of(&jar),
                                json_path: string_of(&json),
                                register: generate,
                            },
                        ),
                    )
                },
                Side::Server => {
                    let libs = joined_path(&base, "libraries");
                    let bundle = joined_path(&base, SERVER_BUNDLE);
                    Ok(
                        InstallPlan::Server(
                            ServerPlan {
                                profile_url: profile_url(
                                    minecraft.version.as_str(),
                                    v.version.as_str(),
                                    Side::Server,
                                ),
                                dir: dir.to_string(),
                                libraries_dir: string_of(&libs),
                                bundle_path: string_of(&bundle),
                            },
                        ),
                    )
                },
            }
        },
        _ => Ok(InstallPlan::Nothing),
    }
}

} // verus!
