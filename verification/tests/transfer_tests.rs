use std::path::PathBuf;
use tsunagu::error::TransferError;
use tsunagu::error::TsunaguError;
use tsunagu::models::DeviceInfo;
use tsunagu::models::FileInfo;
use tsunagu::models::TransferInfo;
use tsunagu::models::TransferStatus;
use tsunagu::transfer::Chunk;
use tsunagu::transfer::FileTransfer;
use tsunagu::transfer::TcpFileTransfer;
use tsunagu::transfer::TransferEvent;
use tsunagu::transfer::CHUNK_SIZE;

fn device(name: &str) -> DeviceInfo {
    DeviceInfo::new(
        name.to_string(),
        "Test Model".to_string(),
        "127.0.0.1".to_string(),
        8000,
        "TestOS".to_string(),
        "1.0.0".to_string(),
    )
}

fn engine() -> TcpFileTransfer {
    TcpFileTransfer::new(device("Test Device"), PathBuf::from("/tmp/transfer"))
}

fn one_file(size: u64) -> Vec<FileInfo> {
    vec![FileInfo::new("a.txt".to_string(), size, "text/plain".to_string(), 0)]
}

fn progress(engine: &TcpFileTransfer, info: &TransferInfo) -> f64 {
    let record = engine.get_transfer(info).unwrap();
    record.transferred() as f64 / record.total_size() as f64
}

fn failed_with(status: &TransferStatus, reason: &str) -> bool {
    matches!(status, TransferStatus::Failed(r) if r == reason)
}

#[test]
fn test_tcp_file_transfer_creation() {
    let device_info = DeviceInfo::new(
        "Test Device".to_string(),
        "Test Model".to_string(),
        "127.0.0.1".to_string(),
        8000,
        "TestOS".to_string(),
        "1.0.0".to_string(),
    );
    let transfer_dir = PathBuf::from("/tmp/transfer");
    let tcp_transfer = TcpFileTransfer::new(device_info, transfer_dir);

    assert_eq!(tcp_transfer.local_device().name(), "Test Device");
    assert_eq!(*tcp_transfer.transfer_dir(), PathBuf::from("/tmp/transfer"));
    assert_eq!(tcp_transfer.transfer_count(), 0);
}

#[test]
fn init_transfer_yields_pending() {
    let mut engine = engine();
    let receiver = device("receiver");
    let info = engine.init_transfer(one_file(10), receiver.clone()).unwrap();
    assert!(matches!(info.status(), TransferStatus::Pending));
    assert_eq!(info.total_size(), 10);
    assert_eq!(info.transferred(), 0);
    assert_eq!(info.sender().name(), "Test Device");
    assert!(*info.receiver() == receiver);
    assert_eq!(info.files().len(), 1);
    assert_eq!(info.files()[0].name(), "a.txt");
    assert_eq!(engine.transfer_count(), 1);
    assert!(matches!(engine.get_transfer_status(&info).unwrap(), TransferStatus::Pending));
}

#[test]
fn init_transfer_refuses_bad_file_lists() {
    let mut engine = engine();
    assert_eq!(
        engine.init_transfer(Vec::new(), device("r")).unwrap_err(),
        TsunaguError::Transfer(TransferError::NoFiles)
    );
    let too_big = vec![
        FileInfo::new("a".to_string(), u64::MAX, "x".to_string(), 0),
        FileInfo::new("b".to_string(), 1, "x".to_string(), 0),
    ];
    assert_eq!(
        engine.init_transfer(too_big, device("r")).unwrap_err(),
        TsunaguError::Transfer(TransferError::SizeOverflow)
    );
    assert_eq!(engine.transfer_count(), 0);
}

#[test]
fn an_identifier_is_registered_once() {
    let mut engine = engine();
    let first = engine.init_transfer_with_id("t-1".to_string(), one_file(10), device("r")).unwrap();
    assert_eq!(first.id(), "t-1");
    assert_eq!(
        engine.init_transfer_with_id("t-1".to_string(), one_file(20), device("r")).unwrap_err(),
        TsunaguError::Transfer(TransferError::DuplicateTransfer)
    );
    assert_eq!(engine.transfer_count(), 1);
    assert_eq!(engine.get_transfer(&first).unwrap().total_size(), 10);
    // The checks come in order: an empty list is reported before the duplicate.
    assert_eq!(
        engine.init_transfer_with_id("t-1".to_string(), Vec::new(), device("r")).unwrap_err(),
        TsunaguError::Transfer(TransferError::NoFiles)
    );
}

#[test]
fn an_announced_transfer_is_accepted_with_this_device_as_receiver() {
    let mut engine = engine();
    let sender = device("sender");
    let info = engine.accept_transfer("t-9".to_string(), one_file(10), sender.clone()).unwrap();
    assert_eq!(info.id(), "t-9");
    assert!(*info.sender() == sender);
    assert_eq!(info.receiver().name(), "Test Device");
    assert!(matches!(info.status(), TransferStatus::Pending));
    assert_eq!(info.total_size(), 10);
    assert_eq!(
        engine.accept_transfer("t-9".to_string(), one_file(10), sender.clone()).unwrap_err(),
        TsunaguError::Transfer(TransferError::DuplicateTransfer)
    );
    assert_eq!(
        engine.accept_transfer("t-10".to_string(), Vec::new(), sender).unwrap_err(),
        TsunaguError::Transfer(TransferError::NoFiles)
    );
    engine.start_transfer(&info).unwrap();
    engine.report(&info, TransferEvent::ChunkTransferred(10)).unwrap();
    assert!(matches!(engine.get_transfer_status(&info).unwrap(), TransferStatus::Completed));
}

#[test]
fn end_to_end_exactly_ten_bytes_completes() {
    let mut engine = engine();
    let info = engine.init_transfer(one_file(10), device("receiver")).unwrap();
    assert!(matches!(engine.get_transfer_status(&info).unwrap(), TransferStatus::Pending));

    engine.start_transfer(&info).unwrap();
    assert!(matches!(engine.get_transfer_status(&info).unwrap(), TransferStatus::InProgress(0)));
    assert_eq!(engine.next_chunk(&info).unwrap(), Some(Chunk { file: 0, file_offset: 0, offset: 0, len: 10 }));

    engine.report(&info, TransferEvent::ChunkTransferred(10)).unwrap();
    assert!(matches!(engine.get_transfer_status(&info).unwrap(), TransferStatus::Completed));
    assert_eq!(progress(&engine, &info), 1.0);
    assert_eq!(engine.next_chunk(&info).unwrap(), None);
}

#[test]
fn end_to_end_five_bytes_then_close_fails_at_half() {
    let mut engine = engine();
    let info = engine.init_transfer(one_file(10), device("receiver")).unwrap();
    engine.start_transfer(&info).unwrap();

    engine.report(&info, TransferEvent::ChunkTransferred(5)).unwrap();
    assert!(matches!(engine.get_transfer_status(&info).unwrap(), TransferStatus::InProgress(5)));
    assert_eq!(progress(&engine, &info), 0.5);

    assert_eq!(
        engine.report(&info, TransferEvent::StreamEnded).unwrap_err(),
        TsunaguError::Transfer(TransferError::SizeMismatch)
    );
    let status = engine.get_transfer_status(&info).unwrap();
    assert!(failed_with(&status, "size mismatch: stream ended early"));
    assert_eq!(progress(&engine, &info), 0.5);

    // Terminal: nothing moves it any more, and progress stays frozen.
    assert_eq!(
        engine.report(&info, TransferEvent::ChunkTransferred(5)).unwrap_err(),
        TsunaguError::InvalidState
    );
    assert_eq!(engine.start_transfer(&info).unwrap_err(), TsunaguError::InvalidState);
    assert_eq!(progress(&engine, &info), 0.5);
}

#[test]
fn progress_never_decreases_chunk_by_chunk() {
    let mut engine = engine();
    let info = engine.init_transfer(one_file(3 * CHUNK_SIZE + 7), device("r")).unwrap();
    engine.start_transfer(&info).unwrap();
    let mut last = 0.0;
    let mut chunks: Vec<Chunk> = Vec::new();
    while let Some(chunk) = engine.next_chunk(&info).unwrap() {
        chunks.push(chunk);
        engine.report(&info, TransferEvent::ChunkTransferred(chunk.len)).unwrap();
        let now = progress(&engine, &info);
        assert!(now >= last);
        last = now;
    }
    assert_eq!(
        chunks,
        vec![
            Chunk { file: 0, file_offset: 0, offset: 0, len: CHUNK_SIZE },
            Chunk { file: 0, file_offset: CHUNK_SIZE, offset: CHUNK_SIZE, len: CHUNK_SIZE },
            Chunk { file: 0, file_offset: 2 * CHUNK_SIZE, offset: 2 * CHUNK_SIZE, len: CHUNK_SIZE },
            Chunk { file: 0, file_offset: 3 * CHUNK_SIZE, offset: 3 * CHUNK_SIZE, len: 7 },
        ]
    );
    assert!(matches!(engine.get_transfer_status(&info).unwrap(), TransferStatus::Completed));
    assert_eq!(last, 1.0);
}

#[test]
fn chunks_never_cross_a_file_boundary() {
    let mut engine = engine();
    let files = vec![
        FileInfo::new("a".to_string(), 10, "x".to_string(), 0),
        FileInfo::new("empty".to_string(), 0, "x".to_string(), 0),
        FileInfo::new("b".to_string(), CHUNK_SIZE + 5, "x".to_string(), 0),
        FileInfo::new("c".to_string(), 1, "x".to_string(), 0),
    ];
    let info = engine.init_transfer(files, device("r")).unwrap();
    assert_eq!(info.total_size(), CHUNK_SIZE + 16);
    engine.start_transfer(&info).unwrap();
    let mut chunks: Vec<Chunk> = Vec::new();
    while let Some(chunk) = engine.next_chunk(&info).unwrap() {
        chunks.push(chunk);
        engine.report(&info, TransferEvent::ChunkTransferred(chunk.len)).unwrap();
    }
    assert_eq!(
        chunks,
        vec![
            Chunk { file: 0, file_offset: 0, offset: 0, len: 10 },
            Chunk { file: 2, file_offset: 0, offset: 10, len: CHUNK_SIZE },
            Chunk { file: 2, file_offset: CHUNK_SIZE, offset: 10 + CHUNK_SIZE, len: 5 },
            Chunk { file: 3, file_offset: 0, offset: 15 + CHUNK_SIZE, len: 1 },
        ]
    );
    assert!(matches!(engine.get_transfer_status(&info).unwrap(), TransferStatus::Completed));
}

#[test]
fn a_chunk_starts_where_a_partial_one_ended() {
    let mut engine = engine();
    let files = vec![
        FileInfo::new("a".to_string(), 10, "x".to_string(), 0),
        FileInfo::new("b".to_string(), 10, "x".to_string(), 0),
    ];
    let info = engine.init_transfer(files, device("r")).unwrap();
    engine.start_transfer(&info).unwrap();
    engine.report(&info, TransferEvent::ChunkTransferred(4)).unwrap();
    assert_eq!(
        engine.next_chunk(&info).unwrap(),
        Some(Chunk { file: 0, file_offset: 4, offset: 4, len: 6 })
    );
    engine.report(&info, TransferEvent::ChunkTransferred(9)).unwrap();
    assert_eq!(
        engine.next_chunk(&info).unwrap(),
        Some(Chunk { file: 1, file_offset: 3, offset: 13, len: 7 })
    );
}

#[test]
fn every_byte_lies_in_one_file() {
    let files = vec![
        FileInfo::new("a".to_string(), 3, "x".to_string(), 0),
        FileInfo::new("empty".to_string(), 0, "x".to_string(), 0),
        FileInfo::new("b".to_string(), 2, "x".to_string(), 0),
    ];
    let info = TransferInfo::new(device("s"), device("r"), files);
    assert_eq!(info.locate(0), Some((0, 0)));
    assert_eq!(info.locate(2), Some((0, 2)));
    assert_eq!(info.locate(3), Some((2, 0)));
    assert_eq!(info.locate(4), Some((2, 1)));
    assert_eq!(info.locate(5), None);
    assert_eq!(info.locate(u64::MAX), None);
}

#[test]
fn a_received_chunk_has_the_planned_length() {
    let planned = Chunk { file: 0, file_offset: 0, offset: 0, len: 10 };
    assert!(matches!(
        TransferEvent::for_received(&planned, 10),
        Ok(TransferEvent::ChunkTransferred(10))
    ));
    for other in [0usize, 9, 11, 65536] {
        assert_eq!(
            TransferEvent::for_received(&planned, other).unwrap_err(),
            TsunaguError::Transfer(TransferError::ProtocolViolation)
        );
    }
}

#[test]
fn a_new_engine_registers_files_that_are_in_order() {
    for _ in 0..20 {
        let mut engine = engine();
        let info = engine.init_transfer(one_file(10), device("receiver")).unwrap();
        assert!(matches!(info.status(), TransferStatus::Pending));
        assert_eq!(info.files().len(), 1);
        assert_eq!(info.files()[0].name(), "a.txt");
        assert_eq!(info.total_size(), 10);
    }
}

#[test]
fn more_bytes_than_declared_is_a_hard_failure() {
    let mut engine = engine();
    let info = engine.init_transfer(one_file(10), device("r")).unwrap();
    engine.start_transfer(&info).unwrap();
    engine.report(&info, TransferEvent::ChunkTransferred(6)).unwrap();
    assert_eq!(
        engine.report(&info, TransferEvent::ChunkTransferred(6)).unwrap_err(),
        TsunaguError::Transfer(TransferError::SizeMismatch)
    );
    let status = engine.get_transfer_status(&info).unwrap();
    assert!(failed_with(&status, "size mismatch: more bytes than declared"));
    assert_eq!(engine.get_transfer(&info).unwrap().transferred(), 6);
}

#[test]
fn an_empty_file_completes_at_the_end_of_the_stream() {
    let mut engine = engine();
    let info = engine.init_transfer(one_file(0), device("r")).unwrap();
    engine.start_transfer(&info).unwrap();
    assert_eq!(engine.next_chunk(&info).unwrap(), None);
    engine.report(&info, TransferEvent::StreamEnded).unwrap();
    assert!(matches!(engine.get_transfer_status(&info).unwrap(), TransferStatus::Completed));
}

#[test]
fn pause_and_resume_keep_the_offset() {
    let mut engine = engine();
    let info = engine.init_transfer(one_file(100), device("r")).unwrap();
    assert_eq!(engine.pause_transfer(&info).unwrap_err(), TsunaguError::InvalidState);
    assert_eq!(engine.resume_transfer(&info).unwrap_err(), TsunaguError::InvalidState);
    engine.start_transfer(&info).unwrap();
    assert_eq!(engine.start_transfer(&info).unwrap_err(), TsunaguError::InvalidState);
    assert_eq!(engine.resume_transfer(&info).unwrap_err(), TsunaguError::InvalidState);
    engine.report(&info, TransferEvent::ChunkTransferred(40)).unwrap();

    engine.pause_transfer(&info).unwrap();
    assert!(matches!(engine.get_transfer_status(&info).unwrap(), TransferStatus::Paused(40)));
    assert_eq!(engine.next_chunk(&info).unwrap(), None);
    assert_eq!(
        engine.report(&info, TransferEvent::StreamEnded).unwrap_err(),
        TsunaguError::InvalidState
    );
    assert_eq!(engine.pause_transfer(&info).unwrap_err(), TsunaguError::InvalidState);

    engine.resume_transfer(&info).unwrap();
    assert!(matches!(engine.get_transfer_status(&info).unwrap(), TransferStatus::InProgress(40)));
    assert_eq!(engine.next_chunk(&info).unwrap(), Some(Chunk { file: 0, file_offset: 40, offset: 40, len: 60 }));

    engine.pause_transfer(&info).unwrap();
    engine.start_transfer(&info).unwrap();
    assert!(matches!(engine.get_transfer_status(&info).unwrap(), TransferStatus::InProgress(40)));
    engine.report(&info, TransferEvent::ChunkTransferred(60)).unwrap();
    assert!(matches!(engine.get_transfer_status(&info).unwrap(), TransferStatus::Completed));
}

#[test]
fn the_chunk_under_way_at_a_pause_is_counted() {
    let mut engine = engine();
    let info = engine.init_transfer(one_file(100), device("r")).unwrap();
    engine.start_transfer(&info).unwrap();
    let chunk = engine.next_chunk(&info).unwrap().unwrap();
    assert_eq!(chunk, Chunk { file: 0, file_offset: 0, offset: 0, len: 100 });
    // The pause comes while the chunk is on its way.
    engine.pause_transfer(&info).unwrap();
    engine.report(&info, TransferEvent::ChunkTransferred(30)).unwrap();
    assert!(matches!(engine.get_transfer_status(&info).unwrap(), TransferStatus::Paused(30)));
    assert_eq!(engine.next_chunk(&info).unwrap(), None);
    engine.resume_transfer(&info).unwrap();
    assert_eq!(engine.next_chunk(&info).unwrap(), Some(Chunk { file: 0, file_offset: 30, offset: 30, len: 70 }));

    engine.pause_transfer(&info).unwrap();
    engine.report(&info, TransferEvent::ChunkTransferred(70)).unwrap();
    assert!(matches!(engine.get_transfer_status(&info).unwrap(), TransferStatus::Completed));

    let over = engine.init_transfer(one_file(10), device("r")).unwrap();
    engine.start_transfer(&over).unwrap();
    engine.pause_transfer(&over).unwrap();
    assert_eq!(
        engine.report(&over, TransferEvent::ChunkTransferred(11)).unwrap_err(),
        TsunaguError::Transfer(TransferError::SizeMismatch)
    );
    let status = engine.get_transfer_status(&over).unwrap();
    assert!(failed_with(&status, "size mismatch: more bytes than declared"));
}

#[test]
fn resume_on_a_terminal_transfer_is_invalid() {
    let mut engine = engine();
    let done = engine.init_transfer(one_file(1), device("r")).unwrap();
    engine.start_transfer(&done).unwrap();
    engine.report(&done, TransferEvent::ChunkTransferred(1)).unwrap();
    assert_eq!(engine.resume_transfer(&done).unwrap_err(), TsunaguError::InvalidState);
    assert_eq!(engine.cancel_transfer(&done).unwrap_err(), TsunaguError::InvalidState);
    assert_eq!(engine.pause_transfer(&done).unwrap_err(), TsunaguError::InvalidState);
    assert!(matches!(engine.get_transfer_status(&done).unwrap(), TransferStatus::Completed));

    let failed = engine.init_transfer(one_file(1), device("r")).unwrap();
    engine.start_transfer(&failed).unwrap();
    engine.report(&failed, TransferEvent::IoError("connection reset".to_string())).unwrap();
    assert_eq!(engine.resume_transfer(&failed).unwrap_err(), TsunaguError::InvalidState);
    let status = engine.get_transfer_status(&failed).unwrap();
    assert!(failed_with(&status, "connection reset"));
}

#[test]
fn cancel_from_every_live_state_is_final() {
    // Pending
    let mut engine = engine();
    let pending = engine.init_transfer(one_file(10), device("r")).unwrap();
    engine.cancel_transfer(&pending).unwrap();
    assert!(failed_with(&engine.get_transfer_status(&pending).unwrap(), "cancelled"));

    // InProgress
    let active = engine.init_transfer(one_file(10), device("r")).unwrap();
    engine.start_transfer(&active).unwrap();
    engine.report(&active, TransferEvent::ChunkTransferred(3)).unwrap();
    engine.cancel_transfer(&active).unwrap();
    assert!(failed_with(&engine.get_transfer_status(&active).unwrap(), "cancelled"));
    assert_eq!(engine.next_chunk(&active).unwrap(), None);

    // Paused
    let paused = engine.init_transfer(one_file(10), device("r")).unwrap();
    engine.start_transfer(&paused).unwrap();
    engine.pause_transfer(&paused).unwrap();
    engine.cancel_transfer(&paused).unwrap();
    assert!(failed_with(&engine.get_transfer_status(&paused).unwrap(), "cancelled"));

    // Never reverts.
    for info in [&pending, &active, &paused] {
        assert_eq!(engine.start_transfer(info).unwrap_err(), TsunaguError::InvalidState);
        assert_eq!(engine.resume_transfer(info).unwrap_err(), TsunaguError::InvalidState);
        assert_eq!(engine.pause_transfer(info).unwrap_err(), TsunaguError::InvalidState);
        assert_eq!(engine.cancel_transfer(info).unwrap_err(), TsunaguError::InvalidState);
        assert_eq!(
            engine.report(info, TransferEvent::StreamEnded).unwrap_err(),
            TsunaguError::InvalidState
        );
        assert_eq!(
            engine.report(info, TransferEvent::IoError("late".to_string())).unwrap_err(),
            TsunaguError::InvalidState
        );
        assert!(failed_with(&engine.get_transfer_status(info).unwrap(), "cancelled"));
    }
    assert_eq!(engine.get_transfer(&active).unwrap().transferred(), 3);
}

#[test]
fn an_io_error_fails_a_paused_transfer_but_not_a_pending_one() {
    let mut engine = engine();
    let info = engine.init_transfer(one_file(10), device("r")).unwrap();
    assert_eq!(
        engine.report(&info, TransferEvent::IoError("early".to_string())).unwrap_err(),
        TsunaguError::InvalidState
    );
    engine.start_transfer(&info).unwrap();
    engine.pause_transfer(&info).unwrap();
    engine.report(&info, TransferEvent::IoError("disk full".to_string())).unwrap();
    assert!(failed_with(&engine.get_transfer_status(&info).unwrap(), "disk full"));
}

#[test]
fn unknown_transfers_are_reported() {
    let mut engine = engine();
    let mut other = TcpFileTransfer::new(device("other"), PathBuf::from("/tmp/other"));
    let foreign = other.init_transfer(one_file(10), device("r")).unwrap();
    let unknown = TsunaguError::Transfer(TransferError::UnknownTransfer);
    assert_eq!(engine.start_transfer(&foreign).unwrap_err(), unknown);
    assert_eq!(engine.pause_transfer(&foreign).unwrap_err(), unknown);
    assert_eq!(engine.resume_transfer(&foreign).unwrap_err(), unknown);
    assert_eq!(engine.cancel_transfer(&foreign).unwrap_err(), unknown);
    assert_eq!(engine.get_transfer_status(&foreign).unwrap_err(), unknown);
    assert_eq!(engine.next_chunk(&foreign).unwrap_err(), unknown);
    assert_eq!(engine.get_transfer(&foreign).unwrap_err(), unknown);
    assert_eq!(engine.report(&foreign, TransferEvent::StreamEnded).unwrap_err(), unknown);
}

#[test]
fn transfers_do_not_disturb_each_other() {
    let mut engine = engine();
    let a = engine.init_transfer(one_file(10), device("r")).unwrap();
    let b = engine.init_transfer(one_file(20), device("r")).unwrap();
    assert_ne!(a.id(), b.id());
    engine.start_transfer(&a).unwrap();
    engine.report(&a, TransferEvent::IoError("broken pipe".to_string())).unwrap();
    assert!(matches!(engine.get_transfer_status(&b).unwrap(), TransferStatus::Pending));
    engine.start_transfer(&b).unwrap();
    engine.report(&b, TransferEvent::ChunkTransferred(20)).unwrap();
    assert!(matches!(engine.get_transfer_status(&b).unwrap(), TransferStatus::Completed));
    assert!(failed_with(&engine.get_transfer_status(&a).unwrap(), "broken pipe"));
}
