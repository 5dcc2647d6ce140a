use std::path::PathBuf;
use toolza_sender::compression::{compress, decompress};
use toolza_sender::events::TransferEvent;
use toolza_sender::protocol::Message;
use toolza_sender::scanner::parse_subnets;
use toolza_sender::stats::format_speed;
use toolza_sender::sync::{compute_sync_diff, RemoteFileInfo, SyncFileInfo};
use toolza_sender::utils::format_size;

#[test]
fn test_compress_decompress() {
    let original = b"Hello, World! This is a test of LZ4 compression.";
    let compressed = compress(original);
    let decompressed = decompress(&compressed).unwrap();
    assert_eq!(original.as_slice(), decompressed.as_slice());
}

#[test]
fn test_protocol_roundtrip() {
    let messages = vec![
        Message::FileStart {
            filename: "test.txt".to_string(),
            size: 1024,
            compressed: true,
            offset: 0,
            quick_hash: 12345,
        },
        Message::FileChunk {
            data: vec![1, 2, 3, 4, 5],
            original_size: 5,
        },
        Message::FileEnd,
        Message::Ack,
        Message::ResumeAck { offset: 500 },
        Message::Error("Test error".to_string()),
        Message::Done,
    ];

    for msg in messages {
        let bytes = msg.to_bytes().expect("Serialization failed");
        let decoded = Message::from_bytes(&bytes[4..]).expect("Deserialization failed");

        // Проверяем что тип сообщения совпадает
        match (&msg, &decoded) {
            (Message::FileStart { .. }, Message::FileStart { .. }) => {}
            (Message::FileChunk { .. }, Message::FileChunk { .. }) => {}
            (Message::FileEnd, Message::FileEnd) => {}
            (Message::Ack, Message::Ack) => {}
            (Message::ResumeAck { .. }, Message::ResumeAck { .. }) => {}
            (Message::Error(_), Message::Error(_)) => {}
            (Message::Done, Message::Done) => {}
            _ => panic!("Message type mismatch"),
        }
    }
}

#[test]
fn test_compression_roundtrip() {

    let test_cases = vec![
        b"Hello, World!".to_vec(),
        vec![0u8; 1000], // Повторяющиеся данные (хорошо сжимаются)
        (0..255).collect::<Vec<u8>>(), // Случайные данные
        vec![], // Пустые данные
    ];

    for original in test_cases {
        let compressed = compress(&original);
        let decompressed = decompress(&compressed)
            .expect("Decompression failed");

        assert_eq!(original, decompressed, "Data mismatch after roundtrip");
    }
}

#[test]
fn test_subnet_parsing() {

    // Простые случаи
    let subnets = parse_subnets("192.168.1");
    assert_eq!(subnets.len(), 1);

    // Несколько подсетей
    let subnets = parse_subnets("192.168.1, 10.0.0, 172.16.0");
    assert_eq!(subnets.len(), 3);

    // С CIDR нотацией
    let subnets = parse_subnets("192.168.1.0/24");
    assert_eq!(subnets.len(), 1);

    // Невалидные подсети игнорируются
    let subnets = parse_subnets("192.168.1, invalid, 10.0.0");
    assert_eq!(subnets.len(), 2);

    // Пустая строка
    let subnets = parse_subnets("");
    assert!(subnets.is_empty());
}

#[test]
fn test_format_size() {

    assert!(format_size(0).contains("Б"));
    assert!(format_size(1024).contains("КБ"));
    assert!(format_size(1024 * 1024).contains("МБ"));
    assert!(format_size(1024 * 1024 * 1024).contains("ГБ"));
}

#[test]
fn test_format_speed() {

    assert!(format_speed(100).contains("B/s"));
    assert!(format_speed(1500).contains("KB/s"));
    assert!(format_speed(1500000).contains("MB/s"));
    assert!(format_speed(1500000000).contains("GB/s"));
}

#[test]
fn test_sync_diff() {

    let local = vec![
        SyncFileInfo {
            path: PathBuf::from("/new.txt"),
            relative_path: "new.txt".to_string(),
            size: 100,
            modified: 0,
            quick_hash: 111,
        },
        SyncFileInfo {
            path: PathBuf::from("/same.txt"),
            relative_path: "same.txt".to_string(),
            size: 200,
            modified: 0,
            quick_hash: 222,
        },
    ];

    let remote = vec![
        RemoteFileInfo {
            relative_path: "same.txt".to_string(),
            size: 200,
            modified: 0,
            quick_hash: 222,
        },
        RemoteFileInfo {
            relative_path: "old.txt".to_string(),
            size: 300,
            modified: 0,
            quick_hash: 333,
        },
    ];

    let diff = compute_sync_diff(&local, &remote);

    // new.txt должен передаваться (нет на remote)
    assert_eq!(diff.to_transfer.len(), 1);
    assert_eq!(diff.to_transfer[0].relative_path, "new.txt");

    // same.txt не изменился
    assert_eq!(diff.unchanged.len(), 1);

    // old.txt только на remote
    assert_eq!(diff.remote_only.len(), 1);
}

#[test]
fn test_compression_large_data() {

    // 1 MB повторяющихся данных (хорошо сжимается)
    let original: Vec<u8> = (0..1024*1024).map(|i| ((i / 1024) % 256) as u8).collect();

    let compressed = compress(&original);

    // Сжатые данные должны быть меньше
    assert!(compressed.len() < original.len());

    let decompressed = decompress(&compressed).unwrap();
    assert_eq!(original, decompressed);
}

#[test]
fn test_transfer_event_types() {
    let events = vec![
        TransferEvent::Connected(0, "addr".to_string()),
        TransferEvent::FileStarted(0, 0),
        TransferEvent::Progress(0, 0, 100, 200, 150),
        TransferEvent::FileCompleted(0, 0),
        TransferEvent::FileError(0, 0, "error".to_string()),
        TransferEvent::TargetCompleted(0),
        TransferEvent::AllCompleted,
        TransferEvent::ConnectionError(0, "error".to_string()),
        TransferEvent::FileSkipped(0, 0),
        TransferEvent::FileResumed(0, 0, 500),
        TransferEvent::Disconnected,
        TransferEvent::FileReceived("file".to_string(), 100),
        TransferEvent::ExtractionStarted("archive".to_string()),
        TransferEvent::ExtractionCompleted("archive".to_string(), 10, 1000),
        TransferEvent::ExtractionError("archive".to_string(), "error".to_string()),
        TransferEvent::ServerFound("addr".to_string()),
        TransferEvent::ScanProgress("ip".to_string(), 50),
        TransferEvent::ScanCompleted,
    ];

    // Просто проверяем что все типы существуют и создаются
    assert_eq!(events.len(), 18);
}
