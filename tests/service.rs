use std::path::PathBuf;

use clipboard::{ClipboardFile, CliprdrError, CliprdrServiceContext};

struct Recorder {
    stopped: bool,
    served: Vec<i32>,
}

impl CliprdrServiceContext for Recorder {
    fn set_is_stopped(&mut self) -> Result<(), CliprdrError> {
        self.stopped = true;
        Ok(())
    }

    fn empty_clipboard(&mut self, conn_id: i32) -> Result<bool, CliprdrError> {
        if conn_id < 0 {
            return Err(CliprdrError::InvalidRequest { description: "negative id".to_string() });
        }
        Ok(self.served.contains(&conn_id))
    }

    fn server_clip_file(&mut self, conn_id: i32, msg: ClipboardFile) -> Result<(), CliprdrError> {
        if self.stopped {
            return Err(CliprdrError::ClipboardOccupied);
        }
        match msg {
            ClipboardFile::FileContentsRequest { .. } => {
                self.served.push(conn_id);
                Ok(())
            }
            _ => Err(CliprdrError::Unknown(7)),
        }
    }
}

#[test]
fn backend_reports_through_error_kinds() {
    let mut backend = Recorder { stopped: false, served: vec![] };
    let service: &mut dyn CliprdrServiceContext = &mut backend;
    assert!(matches!(
        service.server_clip_file(1, ClipboardFile::MonitorReady),
        Err(CliprdrError::Unknown(7))
    ));
    assert!(matches!(service.empty_clipboard(1), Ok(false)));
    assert!(matches!(
        service.empty_clipboard(-1),
        Err(CliprdrError::InvalidRequest { .. })
    ));
    service.set_is_stopped().unwrap();
    service.set_is_stopped().unwrap();
    assert!(matches!(
        service.server_clip_file(1, ClipboardFile::MonitorReady),
        Err(CliprdrError::ClipboardOccupied)
    ));
}

#[test]
fn file_error_keeps_path_and_cause() {
    let e = CliprdrError::FileError {
        path: PathBuf::from("/tmp/a.txt"),
        err: std::io::Error::new(std::io::ErrorKind::NotFound, "gone"),
    };
    match e {
        CliprdrError::FileError { path, err } => {
            assert_eq!(path, PathBuf::from("/tmp/a.txt"));
            assert_eq!(err.kind(), std::io::ErrorKind::NotFound);
        }
        _ => panic!("wrong kind"),
    }
}

#[test]
fn unknown_error_keeps_raw_code() {
    let kinds = vec![
        CliprdrError::CliprdrName,
        CliprdrError::CliprdrInit,
        CliprdrError::CliprdrOutOfMemory,
        CliprdrError::ClipboardInternalError,
        CliprdrError::ClipboardOccupied,
        CliprdrError::ConversionFailure,
        CliprdrError::OpenClipboard,
        CliprdrError::Unknown(0xdead),
    ];
    assert_eq!(kinds.len(), 8);
    assert!(matches!(kinds[7], CliprdrError::Unknown(0xdead)));
}
