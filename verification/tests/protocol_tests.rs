use toolza_sender::protocol::{FileStatus, Message, SyncFileEntry};

#[test]
fn test_message_file_start_serialization() {
    let msg = Message::FileStart {
        filename: "test.txt".to_string(),
        size: 1024,
        compressed: true,
        offset: 0,
        quick_hash: 12345,
    };

    let bytes = msg.to_bytes().unwrap();
    assert!(bytes.len() > 4); // Минимум 4 байта на длину

    // Проверяем что первые 4 байта - это длина
    let len = u32::from_le_bytes([bytes[0], bytes[1], bytes[2], bytes[3]]) as usize;
    assert_eq!(len, bytes.len() - 4);

    // Десериализуем обратно
    let decoded = Message::from_bytes(&bytes[4..]).unwrap();
    match decoded {
        Message::FileStart { filename, size, compressed, offset, quick_hash } => {
            assert_eq!(filename, "test.txt");
            assert_eq!(size, 1024);
            assert!(compressed);
            assert_eq!(offset, 0);
            assert_eq!(quick_hash, 12345);
        }
        _ => panic!("Wrong message type"),
    }
}

#[test]
fn test_message_file_chunk_serialization() {
    let data = vec![1, 2, 3, 4, 5, 6, 7, 8];
    let msg = Message::FileChunk {
        data: data.clone(),
        original_size: 8,
    };

    let bytes = msg.to_bytes().unwrap();
    let decoded = Message::from_bytes(&bytes[4..]).unwrap();

    match decoded {
        Message::FileChunk { data: decoded_data, original_size } => {
            assert_eq!(decoded_data, data);
            assert_eq!(original_size, 8);
        }
        _ => panic!("Wrong message type"),
    }
}

#[test]
fn test_message_ack_serialization() {
    let msg = Message::Ack;
    let bytes = msg.to_bytes().unwrap();
    let decoded = Message::from_bytes(&bytes[4..]).unwrap();
    assert!(matches!(decoded, Message::Ack));
}

#[test]
fn test_message_resume_ack_serialization() {
    let msg = Message::ResumeAck { offset: 5000 };
    let bytes = msg.to_bytes().unwrap();
    let decoded = Message::from_bytes(&bytes[4..]).unwrap();

    match decoded {
        Message::ResumeAck { offset } => assert_eq!(offset, 5000),
        _ => panic!("Wrong message type"),
    }
}

#[test]
fn test_message_error_serialization() {
    let msg = Message::Error("Test error".to_string());
    let bytes = msg.to_bytes().unwrap();
    let decoded = Message::from_bytes(&bytes[4..]).unwrap();

    match decoded {
        Message::Error(err) => assert_eq!(err, "Test error"),
        _ => panic!("Wrong message type"),
    }
}

#[test]
fn test_message_done_serialization() {
    let msg = Message::Done;
    let bytes = msg.to_bytes().unwrap();
    let decoded = Message::from_bytes(&bytes[4..]).unwrap();
    assert!(matches!(decoded, Message::Done));
}

#[test]
fn test_file_status_equality() {
    assert_eq!(FileStatus::Pending, FileStatus::Pending);
    assert_eq!(FileStatus::Transferring, FileStatus::Transferring);
    assert_eq!(FileStatus::Completed, FileStatus::Completed);
    assert_eq!(
        FileStatus::Error("test".to_string()),
        FileStatus::Error("test".to_string())
    );
    assert_ne!(FileStatus::Pending, FileStatus::Completed);
}

#[test]
fn test_sync_file_list_serialization() {
    let msg = Message::SyncFileList {
        files: vec![
            SyncFileEntry {
                relative_path: "file1.txt".to_string(),
                size: 100,
                quick_hash: 111,
            },
            SyncFileEntry {
                relative_path: "dir/file2.txt".to_string(),
                size: 200,
                quick_hash: 222,
            },
        ],
    };

    let bytes = msg.to_bytes().unwrap();
    let decoded = Message::from_bytes(&bytes[4..]).unwrap();

    match decoded {
        Message::SyncFileList { files } => {
            assert_eq!(files.len(), 2);
            assert_eq!(files[0].relative_path, "file1.txt");
            assert_eq!(files[1].size, 200);
        }
        _ => panic!("Wrong message type"),
    }
}
