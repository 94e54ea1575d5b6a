use gotest_runner::locator::{EntryKind, Locator, WalkItem};
use gotest_runner::session::{RunError, Session, Stage};
use std::io::{Read, Write};
use tee::TeeReader;

#[test]
fn scenario_found_in_package() {
    let mut session = Session::new("Bar", None, None);
    assert_eq!(session.name, "TestBar");
    assert_eq!(session.log_path, "/tmp/test.log");
    assert_eq!(session.args, vec!["test", "-v", "-run", "^TestBar$"]);
    let mut loc = Locator::new();
    assert!(loc.offer(WalkItem::Entry {
        kind: EntryKind::File,
        path: "./pkg/foo_test.go".to_string(),
    }));
    let found = loc.report(true).unwrap();
    let dir = std::path::Path::new(&found).parent().unwrap();
    assert_eq!(dir, std::path::Path::new("./pkg"));
    assert!(session.on_located(true).is_ok());
    assert!(!session.may_start());
    assert!(session.on_log_created(true).is_ok());
    assert!(session.may_start());
    assert!(session.on_started(true).is_ok());
    assert_eq!(session.stage, Stage::Running);
}

#[test]
fn scenario_not_found() {
    let mut session = Session::new("TestBar", Some("/tmp/x.log"), Some("2"));
    assert_eq!(session.log_path, "/tmp/x.log");
    assert_eq!(session.args, vec!["test", "-v", "-count", "2", "-run", "^TestBar$"]);
    match session.on_located(false) {
        Err(e) => assert_eq!(e.message(), "test not found: TestBar"),
        Ok(()) => panic!("a missing test must fail"),
    }
    assert_eq!(session.stage, Stage::Failed);
    assert!(!session.may_start());
}

#[test]
fn scenario_log_dir_missing() {
    let mut session = Session::new("Bar", Some("/no/such/dir/test.log"), None);
    assert!(session.on_located(true).is_ok());
    match session.on_log_created(false) {
        Err(RunError::LogFile { path }) => assert_eq!(path, "/no/such/dir/test.log"),
        _ => panic!("a log file that cannot be created must fail"),
    }
    assert_eq!(session.stage, Stage::Failed);
    assert!(!session.may_start());
}

#[test]
fn spawn_failure_is_reported() {
    let mut session = Session::new("Bar", None, None);
    assert!(session.on_located(true).is_ok());
    assert!(session.on_log_created(true).is_ok());
    match session.on_started(false) {
        Err(e) => assert_eq!(e.message(), "attempted to exec 'go test'"),
        Ok(()) => panic!("a failed start must fail"),
    }
    assert_eq!(session.stage, Stage::Failed);
}

#[test]
fn log_error_message() {
    let e = RunError::LogFile { path: "/x".to_string() };
    assert_eq!(e.message(), "cannot create log file: /x");
}

fn tee_copy(data: &[u8], chunk: usize) -> (Vec<u8>, Vec<u8>) {
    struct Chunked<'a>(&'a [u8], usize);
    impl<'a> Read for Chunked<'a> {
        fn read(&mut self, buf: &mut [u8]) -> std::io::Result<usize> {
            let n = self.0.len().min(self.1).min(buf.len());
            buf[..n].copy_from_slice(&self.0[..n]);
            self.0 = &self.0[n..];
            Ok(n)
        }
    }
    let mut console = Vec::new();
    let mut log = Vec::new();
    let mut source = Chunked(data, chunk);
    std::io::copy(&mut TeeReader::new(&mut source, &mut console), &mut log).unwrap();
    log.flush().unwrap();
    (console, log)
}

#[test]
fn tee_copies_every_byte_to_both_sinks() {
    for data in [Vec::new(), b"ok\n".to_vec(), (0..3_000_000u32).map(|i| (i % 251) as u8).collect()] {
        for chunk in [1usize, 7, 1 << 20] {
            if data.len() > 100_000 && chunk < 1000 {
                continue;
            }
            let (console, log) = tee_copy(&data, chunk);
            assert_eq!(console, data);
            assert_eq!(log, data);
        }
    }
}
