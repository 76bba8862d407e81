use anymc_installer::artifact::{resolve, ResolvedArtifact};
use anymc_installer::download::{plan_fetch, Downloads, Fetch};
use anymc_installer::error::InstallError;
use anymc_installer::loaders::quilt::{retain_compatible, Library};

fn lib(name: &str) -> Library {
    Library { name: name.to_string(), url: "https://maven.quiltmc.org/repository/release/".to_string() }
}

fn artifact(name: &str) -> ResolvedArtifact {
    resolve(name, "/srv/mc/libraries").unwrap()
}

#[test]
fn resolves_quilt_coordinate_to_primary_mirror() {
    let a = resolve("org.quiltmc:quilt-loader:0.17.0", "/srv/mc/libraries").unwrap();
    assert_eq!(a.coordinate, "org.quiltmc:quilt-loader:0.17.0");
    assert_eq!(a.relative_path, "org/quiltmc/quilt-loader/0.17.0/quilt-loader-0.17.0.jar");
    assert_eq!(
        a.remote_url,
        "https://maven.quiltmc.org/repository/release/org/quiltmc/quilt-loader/0.17.0/quilt-loader-0.17.0.jar"
    );
    assert_eq!(
        a.local_path,
        "/srv/mc/libraries/org/quiltmc/quilt-loader/0.17.0/quilt-loader-0.17.0.jar"
    );
}

#[test]
fn resolves_other_coordinate_to_fallback_mirror() {
    let a = resolve("net.fabricmc:intermediary:1.19", "libs").unwrap();
    assert_eq!(a.relative_path, "net/fabricmc/intermediary/1.19/intermediary-1.19.jar");
    assert_eq!(
        a.remote_url,
        "https://maven.fabricmc.net//net/fabricmc/intermediary/1.19/intermediary-1.19.jar"
    );
    assert_eq!(a.local_path, "libs/net/fabricmc/intermediary/1.19/intermediary-1.19.jar");
    let b = resolve("net.fabricmc:intermediary:1.19", "libs/").unwrap();
    assert_eq!(b.local_path, "libs/net/fabricmc/intermediary/1.19/intermediary-1.19.jar");
}

#[test]
fn version_keeps_everything_after_second_colon() {
    let a = resolve("g.h:art:1.0:client", "d").unwrap();
    assert_eq!(a.relative_path, "g/h/art/1.0:client/art-1.0:client.jar");
}

#[test]
fn coordinate_with_too_few_parts_is_rejected() {
    assert_eq!(
        resolve("org.quiltmc:hashed", "d").unwrap_err(),
        InstallError::CoordinateParse("org.quiltmc:hashed".to_string())
    );
    assert_eq!(
        resolve("nothing", "d").unwrap_err(),
        InstallError::CoordinateParse("nothing".to_string())
    );
}

#[test]
fn resolution_is_deterministic() {
    let a = resolve("org.quiltmc:quilt-json5:1.0.1", "x").unwrap();
    let b = resolve("org.quiltmc:quilt-json5:1.0.1", "x").unwrap();
    assert_eq!(a.relative_path, b.relative_path);
    assert_eq!(a.remote_url, b.remote_url);
    assert_eq!(a.local_path, b.local_path);
}

#[test]
fn filtering_drops_hashed_library() {
    let kept = retain_compatible(vec![lib("org.quiltmc:hashed:1.0"), lib("org.quiltmc:quilt-loader:2.0")]);
    assert_eq!(kept.len(), 1);
    assert_eq!(kept[0].name, "org.quiltmc:quilt-loader:2.0");
    assert!(kept.iter().all(|l| !l.name.contains(":hashed:")));
}

#[test]
fn filtering_keeps_order_of_the_rest() {
    let kept = retain_compatible(vec![
        lib("a:b:1"),
        lib("org.quiltmc:hashed:1.19"),
        lib("c:d:2"),
        lib("e:f:3"),
    ]);
    let names: Vec<&str> = kept.iter().map(|l| l.name.as_str()).collect();
    assert_eq!(names, vec!["a:b:1", "c:d:2", "e:f:3"]);
}

#[test]
fn filtering_goes_by_artifact_name_in_any_group() {
    let kept = retain_compatible(vec![
        lib("com.example:hashed:1.0"),
        lib("net.example:hashed:2.0"),
        lib("org.quiltmc:hashedx:1"),
        lib("org.quiltmc:hashed"),
        lib("hashed"),
        lib("org.quiltmc:intermediary:1.19"),
    ]);
    let names: Vec<&str> = kept.iter().map(|l| l.name.as_str()).collect();
    assert_eq!(names, vec!["org.quiltmc:hashedx:1", "hashed", "org.quiltmc:intermediary:1.19"]);
    assert!(retain_compatible(Vec::new()).is_empty());
}

#[test]
fn existing_file_is_not_fetched() {
    let a = artifact("org.quiltmc:quilt-loader:0.17.0");
    match plan_fetch(&a, true) {
        Fetch::Cached { path } => assert_eq!(path, a.local_path),
        Fetch::Download { .. } => panic!("a present file must not be fetched"),
    }
    match plan_fetch(&a, false) {
        Fetch::Download { url, path } => {
            assert_eq!(url, a.remote_url);
            assert_eq!(path, a.local_path);
        }
        Fetch::Cached { .. } => panic!("a missing file must be fetched"),
    }
}

#[test]
fn results_follow_input_order_not_completion_order() {
    let arts = vec![artifact("a:one:1"), artifact("b:two:2"), artifact("c:three:3"), artifact("d:four:4")];
    let mut d = Downloads::new(&arts, 2);
    assert_eq!(d.len(), 4);
    assert_eq!(d.start_next(), Some(0));
    assert_eq!(d.start_next(), Some(1));
    assert_eq!(d.start_next(), None);
    assert!(d.is_running(1));
    assert!(!d.is_running(2));
    d.complete(1, Ok(()));
    assert!(!d.is_running(1));
    assert_eq!(d.start_next(), Some(2));
    d.complete(2, Ok(()));
    assert_eq!(d.start_next(), Some(3));
    d.complete(3, Ok(()));
    assert!(!d.is_finished());
    assert_eq!(d.start_next(), None);
    d.complete(0, Ok(()));
    assert!(d.is_finished());
    let paths = d.finish().unwrap();
    let expected: Vec<String> = arts.iter().map(|a| a.local_path.clone()).collect();
    assert_eq!(paths, expected);
}

#[test]
fn first_failure_stops_the_batch() {
    let arts = vec![artifact("a:one:1"), artifact("b:two:2"), artifact("c:three:3")];
    let mut d = Downloads::new(&arts, 2);
    assert_eq!(d.start_next(), Some(0));
    assert_eq!(d.start_next(), Some(1));
    d.complete(0, Err(InstallError::Download { status: 404 }));
    assert_eq!(d.start_next(), None);
    assert!(!d.is_finished());
    d.complete(1, Err(InstallError::Network("reset".to_string())));
    assert!(d.is_finished());
    assert_eq!(d.finish().unwrap_err(), InstallError::Download { status: 404 });
}

#[test]
fn empty_batch_is_finished_at_once() {
    let d = Downloads::new(&Vec::new(), 8);
    assert!(d.is_finished());
    assert!(d.finish().unwrap().is_empty());
}

#[test]
fn path_of_artifact_in_batch() {
    let arts = vec![artifact("a:one:1")];
    let d = Downloads::new(&arts, 1);
    assert_eq!(d.path(0), &arts[0].local_path);
}
