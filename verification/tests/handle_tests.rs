use serde_file::codec::DecodeError;
use serde_file::config::OpenConfig;
use serde_file::handle::reopen_content;
use serde_file::handle::SerdeFile;

#[test]
fn recipe_keeps_its_parts() {
    let c = OpenConfig::new().read(true).create(true);
    let f = SerdeFile::new(c, b"/tmp/data.bin".to_vec());
    assert_eq!(f.path(), &b"/tmp/data.bin".to_vec());
    assert_eq!(f.options(), &c);
    let (options, path) = f.into_inner();
    assert_eq!(options, c);
    assert_eq!(path, b"/tmp/data.bin".to_vec());
}

#[test]
fn recipe_round_trips_through_the_payload() {
    let c = OpenConfig::new().read(true).write(true).create(true);
    let f = SerdeFile::new(c, b"./a.txt".to_vec());
    let payload = f.to_payload();
    let g = SerdeFile::from_payload(&payload).unwrap();
    assert_eq!(g.options(), &c);
    assert_eq!(g.path(), &b"./a.txt".to_vec());
}

#[test]
fn from_payload_reports_framing_faults() {
    assert_eq!(
        SerdeFile::from_payload(&Vec::new()).unwrap_err(),
        DecodeError::Truncated
    );
    assert_eq!(
        SerdeFile::from_payload(&vec![9, 6, 0, 0, 0, 0, 0, 0]).unwrap_err(),
        DecodeError::UnsupportedTag
    );
}

#[test]
fn round_trip_preserves_content_without_truncate() {
    // Open "./a.txt" read+write+create, write "ksad", serialize, drop,
    // rehydrate: the fresh handle still observes "ksad".
    let c = OpenConfig::new().read(true).write(true).create(true);
    let f = SerdeFile::new(c, b"./a.txt".to_vec());
    let written: Vec<u8> = b"ksad".to_vec();
    let payload = f.to_payload();
    drop(f);
    let g = SerdeFile::from_payload(&payload).unwrap();
    assert_eq!(g.options(), &c);
    let observed = reopen_content(g.options(), Some(written.clone()));
    assert_eq!(observed, Some(written));
}

#[test]
fn round_trip_with_truncate_empties_the_file() {
    // Same run, but the configuration carries create+truncate: rehydration
    // reopens destructively and the fresh handle observes an empty file.
    let c = OpenConfig::new()
        .read(true)
        .write(true)
        .create(true)
        .truncate(true);
    let f = SerdeFile::new(c, b"./a.txt".to_vec());
    let payload = f.to_payload();
    drop(f);
    let g = SerdeFile::from_payload(&payload).unwrap();
    let observed = reopen_content(g.options(), Some(b"ksad".to_vec()));
    assert_eq!(observed, Some(Vec::new()));
}

#[test]
fn reopen_of_a_missing_file_fails_without_create() {
    let c = OpenConfig::new().read(true);
    assert_eq!(reopen_content(&c, None), None);
    let creating = c.create(true);
    assert_eq!(reopen_content(&creating, None), Some(Vec::new()));
}

#[test]
fn reopen_with_create_new_fails_on_an_existing_file() {
    let c = OpenConfig::new().write(true).create_new(true);
    assert_eq!(reopen_content(&c, Some(b"kept".to_vec())), None);
    assert_eq!(reopen_content(&c, None), Some(Vec::new()));
}

#[test]
fn rehydration_failure_message_carries_the_path() {
    let path = b"/no/such/dir/a.txt".to_vec();
    let c = OpenConfig::new().read(true);
    let f = SerdeFile::new(c, path.clone());
    let message = f.open_failure_message(&b"no such file or directory".to_vec());
    assert_eq!(&message[..path.len()], &path[..]);
    let mut expected = path.clone();
    expected.extend_from_slice(b": ");
    expected.extend_from_slice(b"no such file or directory");
    assert_eq!(message, expected);
}
