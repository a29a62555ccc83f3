use scribl::save_format::{save_format, FormatError, SaveFormat};
use scribl::status::{AsyncOpsStatus, EncodingStatus, FinishedStatus, StatusKind};

#[test]
fn encoding_progress() {
    let mut s = AsyncOpsStatus::default();
    assert_eq!(s.status_kind(), StatusKind::Empty);
    s.update_encoding_status(&EncodingStatus::Encoding { frame: 3, out_of: 10 });
    assert_eq!(s.in_progress.encoding, Some((3, 10)));
    assert_eq!(s.status_kind(), StatusKind::Encoding { frame: 3, out_of: 10 });
    s.update_encoding_status(&EncodingStatus::Finished("out.mp4".to_string()));
    assert_eq!(s.in_progress.encoding, None);
    assert!(matches!(&s.last_finished, Some(FinishedStatus::Encoded { path, .. }) if path == "out.mp4"));
    assert_eq!(s.status_kind(), StatusKind::Encoded("out.mp4".to_string()));
    s.update_encoding_status(&EncodingStatus::Error("oops".to_string()));
    assert_eq!(s.status_kind(), StatusKind::Error("oops".to_string()));
}

#[test]
fn in_progress_comes_first() {
    let mut s = AsyncOpsStatus::default();
    s.in_progress.loading = Some("a.scb".to_string());
    s.in_progress.saving = Some("b.scb".to_string());
    assert_eq!(s.status_kind(), StatusKind::Saving("b.scb".to_string()));
    s.update_save_status("b.scb".to_string(), None);
    assert_eq!(s.status_kind(), StatusKind::Loading("a.scb".to_string()));
    s.update_load_status("a.scb".to_string(), Some("bad file".to_string()));
    assert_eq!(s.status_kind(), StatusKind::Error("bad file".to_string()));
    s.update_load_status("c.scb".to_string(), None);
    assert_eq!(s.status_kind(), StatusKind::Loaded("c.scb".to_string()));
    s.update_save_status("d.scb".to_string(), None);
    assert_eq!(s.status_kind(), StatusKind::Saved("d.scb".to_string()));
}

#[test]
fn save_file_versions() {
    let mut bytes = vec![0xa2u8, 0x67, b'v', b'e', b'r', b's', b'i', b'o', b'n', 1];
    assert_eq!(save_format(&bytes), Ok(SaveFormat::V1));
    bytes[9] = 0;
    assert_eq!(save_format(&bytes), Ok(SaveFormat::V0));
    bytes[9] = 7;
    assert_eq!(save_format(&bytes), Err(FormatError::Unsupported(7)));
    assert_eq!(save_format(&bytes[..9]), Err(FormatError::TooShort));
}
