use anymc_installer::error::InstallError;
use anymc_installer::loaders::{
    fabric, forge, make_profile_id, minecraft, plan_install, quilt, Install, InstallPlan, Loader,
    LoaderVersion, Side,
};
use anymc_installer::utils::{LaunchProfiles, ProfileDescriptor};

fn quilt_version(v: &str) -> quilt::Version {
    quilt::Version {
        separator: ".".to_string(),
        build: 17,
        maven: format!("org.quiltmc:quilt-loader:{}", v),
        version: v.to_string(),
    }
}

fn fabric_version(v: &str, stable: bool) -> fabric::Version {
    fabric::Version {
        separator: ".".to_string(),
        build: 1,
        maven: format!("net.fabricmc:fabric-loader:{}", v),
        version: v.to_string(),
        stable,
    }
}

fn game(v: &str, stable: bool) -> minecraft::Version {
    minecraft::Version { version: v.to_string(), stable }
}

fn request(
    version: LoaderVersion,
    side: Side,
    dir: &str,
    minecraft: minecraft::Version,
    generate: bool,
) -> Install<LoaderVersion> {
    Install { version, side, dir: dir.to_string(), minecraft, generate }
}

#[test]
fn missing_directory_fails_validation() {
    let v = LoaderVersion::Quilt(quilt_version("0.17.0"));
    for side in [Side::Client, Side::Server] {
        let r = plan_install(&request(v.clone(), side, "/no/such/dir", game("1.19", true), true), false);
        assert_eq!(r.unwrap_err(), InstallError::Validation("/no/such/dir".to_string()));
    }
    let f = LoaderVersion::Fabric(fabric_version("0.14.8", true));
    assert!(matches!(
        plan_install(&request(f.clone(), Side::Client, "x", game("1.19", true), false), false),
        Err(InstallError::Validation(_))
    ));
}

#[test]
fn quilt_client_plan() {
    let v = LoaderVersion::Quilt(quilt_version("0.17.0"));
    match plan_install(&request(v.clone(), Side::Client, "/mc", game("1.19", true), true), true).unwrap() {
        InstallPlan::Client(p) => {
            assert_eq!(p.profile_id, "quilt-loader-0.17.0-1.19");
            assert_eq!(
                p.profile_url,
                "https://meta.quiltmc.org/v3/versions/loader/1.19/0.17.0/profile/json"
            );
            assert_eq!(p.profile_dir, "/mc/versions/quilt-loader-0.17.0-1.19");
            assert_eq!(p.jar_path, "/mc/versions/quilt-loader-0.17.0-1.19/quilt-loader-0.17.0-1.19.jar");
            assert_eq!(p.json_path, "/mc/versions/quilt-loader-0.17.0-1.19/quilt-loader-0.17.0-1.19.json");
            assert!(p.register);
        }
        other => panic!("unexpected plan {:?}", other),
    }
}

#[test]
fn quilt_server_plan() {
    let v = LoaderVersion::Quilt(quilt_version("0.17.0"));
    match plan_install(&request(v.clone(), Side::Server, "/srv", game("1.18.2", true), false), true).unwrap() {
        InstallPlan::Server(p) => {
            assert_eq!(
                p.profile_url,
                "https://meta.quiltmc.org/v3/versions/loader/1.18.2/0.17.0/server/json"
            );
            assert_eq!(p.dir, "/srv");
            assert_eq!(p.libraries_dir, "/srv/libraries");
            assert_eq!(p.bundle_path, "/srv/quilt-server-launch.jar");
        }
        other => panic!("unexpected plan {:?}", other),
    }
}

#[test]
fn trailing_slash_gives_a_relative_class_path() {
    let v = LoaderVersion::Quilt(quilt_version("2.0"));
    for dir in ["/d/", "/d"] {
        let plan = match plan_install(&request(v.clone(), Side::Server, dir, game("1.19", true), false), true).unwrap() {
            InstallPlan::Server(p) => p,
            other => panic!("unexpected plan {:?}", other),
        };
        assert_eq!(plan.libraries_dir, "/d/libraries");
        assert_eq!(plan.bundle_path, "/d/quilt-server-launch.jar");
        let libs = quilt::retain_compatible(vec![
            quilt::Library { name: "org.quiltmc:hashed:1.0".to_string(), url: String::new() },
            quilt::Library { name: "org.quiltmc:quilt-loader:2.0".to_string(), url: String::new() },
        ]);
        let paths: Vec<String> = libs
            .iter()
            .map(|l| anymc_installer::artifact::resolve(&l.name, &plan.libraries_dir).unwrap().local_path)
            .collect();
        let m = anymc_installer::manifest::launch_manifest(&plan.dir, "a.B", &paths).unwrap();
        assert!(m.ends_with("Class-Path: libraries/org/quiltmc/quilt-loader/2.0/quilt-loader-2.0.jar\n"));
    }
    let c = match plan_install(&request(v, Side::Client, "/mc/", game("1.19", true), true), true).unwrap() {
        InstallPlan::Client(p) => p,
        other => panic!("unexpected plan {:?}", other),
    };
    assert_eq!(c.profile_dir, "/mc/versions/quilt-loader-2.0-1.19");
}

#[test]
fn fabric_and_forge_plan_nothing() {
    let f = LoaderVersion::Fabric(fabric_version("0.14.8", true));
    assert!(matches!(
        plan_install(&request(f.clone(), Side::Server, "/srv", game("1.19", true), false), true),
        Ok(InstallPlan::Nothing)
    ));
    assert!(matches!(
        plan_install(&request(LoaderVersion::Forge(true), Side::Client, "/srv", game("1.19", true), true), true),
        Ok(InstallPlan::Nothing)
    ));
}

#[test]
fn loader_version_names_and_icons() {
    let q = LoaderVersion::Quilt(quilt_version("0.17.0"));
    let f = LoaderVersion::Fabric(fabric_version("0.14.8", true));
    let g = LoaderVersion::Forge(false);
    assert_eq!(q.name(), "quilt-loader");
    assert_eq!(f.name(), "fabric-loader");
    assert_eq!(g.name(), "forge");
    assert_eq!(q.loader(), Loader::Quilt);
    assert_eq!(f.loader(), Loader::Fabric);
    assert_eq!(g.loader(), Loader::Forge);
    assert_eq!(q.icon(), "quilt.png");
    assert_eq!(f.icon(), "fabric.png");
    assert_eq!(g.icon(), "forge.png");
    assert_eq!(q.to_string(), "0.17.0");
    assert_eq!(g.to_string(), "false");
    assert_eq!(make_profile_id(&f, &game("1.19", true)), "fabric-loader-0.14.8-1.19");
}

#[test]
fn tab_indices_map_to_loaders_and_sides() {
    assert_eq!(Loader::from(0u8), Loader::Fabric);
    assert_eq!(Loader::from(1u8), Loader::Forge);
    assert_eq!(Loader::from(2u8), Loader::Quilt);
    assert_eq!(Loader::from(9u8), Loader::Quilt);
    assert_eq!(u8::from(Loader::Forge), 1);
    assert_eq!(Side::from(0u8), Side::Client);
    assert_eq!(Side::from(1u8), Side::Server);
    assert_eq!(Side::from(7u8), Side::Client);
    assert_eq!(u8::from(Side::Server), 1);
    assert_eq!(Loader::default(), Loader::Quilt);
    assert_eq!(Side::default(), Side::Client);
}

fn registry(ids: &[&str]) -> LaunchProfiles<String> {
    LaunchProfiles {
        profiles: ids.iter().map(|id| (id.to_string(), format!("entry of {}", id))).collect(),
        settings: "settings".to_string(),
        version: 3,
    }
}

#[test]
fn inserting_a_new_profile_adds_one_entry() {
    let mut r = registry(&["a", "b", "c"]);
    r.insert_profile("d".to_string(), "new".to_string());
    assert_eq!(r.profiles.len(), 4);
    assert_eq!(r.profiles[3], ("d".to_string(), "new".to_string()));
    for (i, id) in ["a", "b", "c"].iter().enumerate() {
        assert_eq!(r.profiles[i], (id.to_string(), format!("entry of {}", id)));
    }
    assert_eq!(r.settings, "settings");
    assert_eq!(r.version, 3);
}

#[test]
fn inserting_an_existing_profile_overwrites_it() {
    let mut r = registry(&["a", "b", "c"]);
    r.insert_profile("b".to_string(), "new".to_string());
    assert_eq!(r.profiles.len(), 3);
    assert_eq!(r.profiles[0], ("a".to_string(), "entry of a".to_string()));
    assert_eq!(r.profiles[1], ("b".to_string(), "new".to_string()));
    assert_eq!(r.profiles[2], ("c".to_string(), "entry of c".to_string()));
}

#[test]
fn descriptor_of_a_quilt_profile() {
    let v = LoaderVersion::Quilt(quilt_version("0.17.0"));
    let d = ProfileDescriptor::new(&v, &game("1.19", true), "2022-06-01T00:00:00Z".to_string(), &[1, 2, 3, 255]);
    assert_eq!(d.name, "quilt-loader-1.19");
    assert_eq!(d.kind, "custom");
    assert_eq!(d.created, "2022-06-01T00:00:00Z");
    assert_eq!(d.last_version_id, "quilt-loader-0.17.0-1.19");
    assert_eq!(d.icon, "data:image/png;base64,AQID/w==");
    let now = ProfileDescriptor::now(&v, &game("1.19", true), &[]);
    assert_eq!(now.icon, "data:image/png;base64,");
    assert!(now.created.ends_with('Z'));
    assert!(now.created.contains('T'));
}

#[test]
fn game_panel_selects_first_stable_release() {
    let mut s = minecraft::State::default();
    s.set_versions(vec![game("22w24a", false), game("1.19", true), game("1.18.2", true)]);
    assert_eq!(s.selected_version, Some(game("1.19", true)));
    assert_eq!(s.shown(), vec![false, true, true]);
    s.update_interaction(minecraft::Interaction::ShowSnapshots(true));
    assert_eq!(s.shown(), vec![true, true, true]);
    s.update_interaction(minecraft::Interaction::SelectVersion(game("1.18.2", true)));
    s.set_versions(vec![game("1.19", true)]);
    assert_eq!(s.selected_version, Some(game("1.18.2", true)));
    let mut none = minecraft::State::default();
    none.set_versions(vec![game("22w24a", false)]);
    assert_eq!(none.selected_version, None);
}

#[test]
fn quilt_panel_selects_first_release_that_is_not_a_beta() {
    let mut s = quilt::State::default();
    let r = s.update_message(quilt::Message::SetVersions(Ok(vec![
        quilt_version("0.17.1-beta.4"),
        quilt_version("0.17.0"),
    ])));
    assert!(r.is_none());
    assert_eq!(s.selected_version(), Some(quilt_version("0.17.0")));
    assert_eq!(s.shown(), vec![false, true]);
    s.update_interaction(quilt::Interaction::ShowBetas(true));
    assert_eq!(s.shown(), vec![true, true]);
    let r = s.update_message(quilt::Message::SetMinecraft(Ok(vec![game("1.19", true)])));
    assert!(r.is_none());
    assert_eq!(s.selected_minecraft(), Some(game("1.19", true)));
    let err = s.update_message(quilt::Message::SetVersions(Err(InstallError::Network("down".to_string()))));
    assert_eq!(err, Some(InstallError::Network("down".to_string())));
    assert_eq!(s.versions.len(), 2);
}

#[test]
fn fabric_panel_selects_first_release() {
    let mut s = fabric::State::default();
    s.update_message(fabric::Message::SetVersions(Ok(vec![
        fabric_version("0.14.8", true),
        fabric_version("0.14.7", true),
    ])));
    assert_eq!(s.selected_version(), Some(fabric_version("0.14.8", true)));
    s.update_interaction(fabric::Interaction::SelectVersion(fabric_version("0.14.7", true)));
    assert_eq!(s.selected_version(), Some(fabric_version("0.14.7", true)));
    s.update_interaction(fabric::Interaction::Minecraft(minecraft::Interaction::SelectVersion(game("1.18", true))));
    assert_eq!(s.selected_minecraft(), Some(game("1.18", true)));
    let e = s.update_message(fabric::Message::Error(InstallError::Decode("bad".to_string())));
    assert_eq!(e, Some(InstallError::Decode("bad".to_string())));
}

#[test]
fn forge_panel_reports_errors() {
    let mut s = forge::State::default();
    let e = s.update_message(forge::Message::Error(InstallError::Io("disk".to_string())));
    assert_eq!(e, Some(InstallError::Io("disk".to_string())));
}
