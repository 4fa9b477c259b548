use launcher_core::archive::{entry_actions, unzip};
use launcher_core::steps::Action;
use launcher_core::types::{Error, Platform};
use std::io::{Cursor, Write};
use zip::write::SimpleFileOptions;
use zip::ZipWriter;

fn s(text: &str) -> String {
    text.to_string()
}

fn bundle() -> Vec<u8> {
    let mut writer = ZipWriter::new(Cursor::new(Vec::new()));
    let options = SimpleFileOptions::default();
    writer.add_directory("META-INF", options).unwrap();
    writer.start_file("META-INF/MANIFEST.MF", options).unwrap();
    writer.write_all(b"Manifest-Version: 1.0\n").unwrap();
    writer.start_file("liblwjgl.so", options).unwrap();
    writer.write_all(&[0x7f, b'E', b'L', b'F', 0, 1, 2, 3]).unwrap();
    writer.start_file("../escape.txt", options).unwrap();
    writer.write_all(b"out").unwrap();
    writer.start_file("empty", options).unwrap();
    writer.finish().unwrap().into_inner()
}

#[test]
fn archive_is_unpacked_entry_by_entry() {
    let plan = unzip(bundle(), "root/versions/1.20.1/natives", Platform::Linux).unwrap();
    let dest = "root/versions/1.20.1/natives";
    assert_eq!(
        plan,
        vec![
            Action::CreateDirAll { path: format!("{dest}/META-INF") },
            Action::CreateDirAll { path: format!("{dest}/META-INF") },
            Action::WriteFile {
                path: format!("{dest}/META-INF/MANIFEST.MF"),
                data: b"Manifest-Version: 1.0\n".to_vec(),
            },
            Action::MakeExecutable { path: format!("{dest}/META-INF/MANIFEST.MF") },
            Action::CreateDirAll { path: format!("{dest}/") },
            Action::WriteFile {
                path: format!("{dest}/liblwjgl.so"),
                data: vec![0x7f, b'E', b'L', b'F', 0, 1, 2, 3],
            },
            Action::MakeExecutable { path: format!("{dest}/liblwjgl.so") },
            Action::CreateDirAll { path: format!("{dest}/") },
            Action::WriteFile { path: format!("{dest}/empty"), data: vec![] },
            Action::MakeExecutable { path: format!("{dest}/empty") },
        ]
    );
}

#[test]
fn entry_that_leaves_the_destination_is_skipped() {
    let plan = unzip(bundle(), "d", Platform::Darwin).unwrap();
    assert!(plan.iter().all(|a| match a {
        Action::WriteFile { path, .. } => !path.contains("escape"),
        _ => true,
    }));
}

#[test]
fn empty_archive_asks_for_nothing() {
    let bytes = ZipWriter::new(Cursor::new(Vec::new())).finish().unwrap().into_inner();
    assert_eq!(unzip(bytes, "d", Platform::Linux).unwrap(), vec![]);
}

#[test]
fn bytes_that_are_no_archive_are_refused() {
    assert!(matches!(unzip(b"this is no archive".to_vec(), "d", Platform::Linux), Err(Error::Zip(_))));
    assert!(matches!(unzip(vec![], "d", Platform::Windows), Err(Error::Zip(_))));
}

#[test]
fn truncated_archive_is_refused() {
    let mut bytes = bundle();
    bytes.truncate(bytes.len() / 2);
    assert!(matches!(unzip(bytes, "d", Platform::Linux), Err(Error::Zip(_))));
}

#[test]
fn directory_entry_creates_the_directory() {
    assert_eq!(
        entry_actions("lib/amd64", true, vec![1, 2, 3], "out", Platform::Linux),
        vec![Action::CreateDirAll { path: s("out/lib/amd64") }]
    );
}

#[test]
fn file_entry_is_written_and_marked_executable() {
    assert_eq!(
        entry_actions("lib/amd64/libjvm.so", false, vec![1, 2, 3], "out", Platform::Linux),
        vec![
            Action::CreateDirAll { path: s("out/lib/amd64") },
            Action::WriteFile { path: s("out/lib/amd64/libjvm.so"), data: vec![1, 2, 3] },
            Action::MakeExecutable { path: s("out/lib/amd64/libjvm.so") },
        ]
    );
}

#[test]
fn nothing_is_marked_executable_on_windows() {
    assert_eq!(
        entry_actions("lwjgl.dll", false, vec![9], "out", Platform::Windows),
        vec![
            Action::CreateDirAll { path: s("out/") },
            Action::WriteFile { path: s("out/lwjgl.dll"), data: vec![9] },
        ]
    );
    let plan = unzip(bundle(), "d", Platform::Windows).unwrap();
    assert!(plan.iter().all(|a| !matches!(a, Action::MakeExecutable { .. })));
    assert_eq!(plan.len(), 7);
}

fn stored(name: &str, content: &[u8]) -> Vec<u8> {
    let mut writer = ZipWriter::new(Cursor::new(Vec::new()));
    let options = SimpleFileOptions::default().compression_method(zip::CompressionMethod::Stored);
    writer.start_file(name, options).unwrap();
    writer.write_all(content).unwrap();
    writer.finish().unwrap().into_inner()
}

fn damage(mut bytes: Vec<u8>, content: &[u8]) -> Vec<u8> {
    let at = bytes.windows(content.len()).position(|w| w == content).unwrap();
    bytes[at] ^= 0xff;
    bytes
}

#[test]
fn entry_with_damaged_content_fails_the_whole_archive() {
    let content = b"PAYLOAD-0123456789";
    let good = stored("lib.so", content);
    assert_eq!(unzip(good.clone(), "d", Platform::Linux).unwrap().len(), 3);
    assert!(matches!(
        unzip(damage(good, content), "d", Platform::Linux),
        Err(Error::Zip(_))
    ));
}

#[test]
fn damaged_content_of_a_skipped_entry_is_never_read() {
    let content = b"PAYLOAD-0123456789";
    let bytes = damage(stored("../outside.so", content), content);
    assert_eq!(unzip(bytes, "d", Platform::Linux).unwrap(), vec![]);
}
