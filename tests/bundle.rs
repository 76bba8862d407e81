use std::io::Read;

use anymc_installer::error::InstallError;
use anymc_installer::manifest::{create_launch_jar, launch_manifest, wrap_line};

#[test]
fn wrapping_of_a_200_character_class_path() {
    let mut paths = String::new();
    let mut n = 0;
    while 12 + paths.len() < 200 {
        if !paths.is_empty() {
            paths.push(' ');
        }
        paths.push_str(&format!("libraries/lib{}.jar", n));
        n += 1;
    }
    paths.truncate(200 - 12);
    let line = format!("Class-Path: {}", paths);
    assert_eq!(line.len(), 200);
    let wrapped = wrap_line(&line);
    let lines: Vec<&str> = wrapped.split_terminator('\n').collect();
    assert_eq!(lines[0].len(), 72);
    assert_eq!(lines[0], &line[..72]);
    for l in &lines[1..] {
        assert!(l.starts_with(' '));
        assert!(l.len() - 1 <= 71);
    }
    assert_eq!(lines.len(), 3);
    let rebuilt: String = std::iter::once(lines[0].to_string())
        .chain(lines[1..].iter().map(|l| l[1..].to_string()))
        .collect();
    assert_eq!(rebuilt, line);
}

#[test]
fn manifest_with_main_class_and_wrapped_class_path() {
    let libs: Vec<String> = (0..10).map(|i| format!("/srv/mc/libraries/group/lib{}.jar", i)).collect();
    let m = launch_manifest("/srv/mc", "net.example.Main", &libs).unwrap();
    let joined: Vec<String> = (0..10).map(|i| format!("libraries/group/lib{}.jar", i)).collect();
    let class_path = format!("Class-Path: {}", joined.join(" "));
    let mut expected = String::from("Manifest-Version: 1.0\nMain-Class: net.example.Main\n");
    expected.push_str(&class_path[..72]);
    expected.push('\n');
    for chunk in class_path.as_bytes()[72..].chunks(71) {
        expected.push(' ');
        expected.push_str(std::str::from_utf8(chunk).unwrap());
        expected.push('\n');
    }
    assert_eq!(m, expected);
}

#[test]
fn manifest_with_no_libraries() {
    let m = launch_manifest("/srv/mc", "a.B", &Vec::new()).unwrap();
    assert_eq!(m, "Manifest-Version: 1.0\nMain-Class: a.B\nClass-Path: \n");
}

#[test]
fn manifest_with_one_library() {
    let m = launch_manifest("/srv/mc/", "a.B", &vec!["/srv/mc/libraries/x.jar".to_string()]).unwrap();
    assert_eq!(m, "Manifest-Version: 1.0\nMain-Class: a.B\nClass-Path: libraries/x.jar\n");
}

#[test]
fn backslashes_become_forward_slashes() {
    let m = launch_manifest("C:\\mc", "a.B", &vec!["C:\\mc\\libraries\\x.jar".to_string()]).unwrap();
    assert_eq!(m, "Manifest-Version: 1.0\nMain-Class: a.B\nClass-Path: libraries/x.jar\n");
}

#[test]
fn library_outside_the_bundle_directory_is_a_path_error() {
    let libs = vec!["/srv/mc/libraries/a.jar".to_string(), "/opt/other/b.jar".to_string()];
    assert_eq!(
        launch_manifest("/srv/mc", "a.B", &libs).unwrap_err(),
        InstallError::Path("/opt/other/b.jar".to_string())
    );
    let sibling = vec!["/srv/mcx/a.jar".to_string()];
    assert_eq!(
        launch_manifest("/srv/mc", "a.B", &sibling).unwrap_err(),
        InstallError::Path("/srv/mcx/a.jar".to_string())
    );
    assert_eq!(
        create_launch_jar("/srv/mc", "a.B", &libs).unwrap_err(),
        InstallError::Path("/opt/other/b.jar".to_string())
    );
}

#[test]
fn wrapping_never_splits_a_character() {
    let line = format!("Class-Path: {}é{}", "a".repeat(59), "b".repeat(100));
    let wrapped = wrap_line(&line);
    let lines: Vec<&str> = wrapped.split_terminator('\n').collect();
    assert_eq!(lines[0].len(), 71);
    assert_eq!(lines[0], &line[..71]);
    assert!(lines[1].starts_with(" é"));
    let rebuilt: String = std::iter::once(lines[0].to_string())
        .chain(lines[1..].iter().map(|l| l[1..].to_string()))
        .collect();
    assert_eq!(rebuilt, line);
}

#[test]
fn short_line_stays_on_one_line() {
    assert_eq!(wrap_line("Class-Path: a.jar"), "Class-Path: a.jar\n");
    assert_eq!(wrap_line(""), "\n");
}

#[test]
fn launch_jar_holds_the_manifest_only() {
    let libs: Vec<String> = (0..5).map(|i| format!("/srv/mc/libraries/lib{}.jar", i)).collect();
    let bytes = create_launch_jar("/srv/mc", "net.example.Main", &libs).unwrap();
    assert_eq!(&bytes[..2], b"PK");
    let mut archive = zip::ZipArchive::new(std::io::Cursor::new(bytes)).unwrap();
    assert_eq!(archive.len(), 1);
    let mut entry = archive.by_name("META-INF/MANIFEST.MF").unwrap();
    assert_eq!(entry.compression(), zip::CompressionMethod::Deflated);
    let mut text = String::new();
    entry.read_to_string(&mut text).unwrap();
    assert_eq!(text, launch_manifest("/srv/mc", "net.example.Main", &libs).unwrap());
}
