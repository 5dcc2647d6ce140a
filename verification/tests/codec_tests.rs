use toolza_sender::protocol::{
    frame_length, roundtrip, DecodeError, EncodeError, Message, SyncFileEntry, DEFAULT_PORT,
    MAX_MESSAGE_SIZE, PROTOCOL_VERSION,
};

fn all_messages() -> Vec<Message> {
    vec![
        Message::FileStart {
            filename: "dir/файл.bin".to_string(),
            size: u64::MAX,
            compressed: false,
            offset: 7,
            quick_hash: 0xdead_beef,
        },
        Message::FileChunk { data: vec![0, 255, 1, 254], original_size: 4 },
        Message::FileChunk { data: vec![], original_size: 0 },
        Message::FileEnd,
        Message::Ack,
        Message::ResumeAck { offset: 500 },
        Message::Error(String::new()),
        Message::Error("что-то пошло не так".to_string()),
        Message::Done,
        Message::Cancel,
        Message::SyncRequest,
        Message::SyncFileList { files: vec![] },
        Message::SyncFileList {
            files: vec![
                SyncFileEntry { relative_path: "a.txt".to_string(), size: 1, quick_hash: 2 },
                SyncFileEntry { relative_path: String::new(), size: u64::MAX, quick_hash: 0 },
                SyncFileEntry { relative_path: "каталог/б".to_string(), size: 3, quick_hash: 4 },
            ],
        },
        Message::SpeedTestRequest { size: 10 * 1024 * 1024 },
        Message::SpeedTestReady,
        Message::SpeedTestData { data: vec![0xAB; 1000] },
        Message::SpeedTestEnd,
        Message::SpeedTestResult {
            upload_speed: 100.5f64.to_bits(),
            download_speed: 95.3f64.to_bits(),
            latency_ms: 0.5f64.to_bits(),
        },
    ]
}

#[test]
fn test_constants() {
    assert_eq!(PROTOCOL_VERSION, 2);
    assert_eq!(DEFAULT_PORT, 9527);
    assert_eq!(MAX_MESSAGE_SIZE, 16 * 1024 * 1024);
}

#[test]
fn test_decode_of_encode_is_identity() {
    for msg in all_messages() {
        let bytes = msg.to_bytes().unwrap();
        let len = u32::from_le_bytes([bytes[0], bytes[1], bytes[2], bytes[3]]) as usize;
        assert_eq!(len, bytes.len() - 4);
        assert_eq!(frame_length(&bytes[..4]), Ok(len));
        assert_eq!(Message::from_bytes(&bytes[4..]), Ok(msg.clone()));
        assert_eq!(bytes[4..], msg.payload_bytes()[..]);
        assert_eq!(roundtrip(&msg), Ok(msg));
    }
}

#[test]
fn test_ack_frame_bytes() {
    assert_eq!(Message::Ack.to_bytes().unwrap(), vec![4, 0, 0, 0, 3, 0, 0, 0]);
    assert_eq!(Message::FileEnd.to_bytes().unwrap(), vec![4, 0, 0, 0, 2, 0, 0, 0]);
    assert_eq!(Message::Done.to_bytes().unwrap(), vec![4, 0, 0, 0, 6, 0, 0, 0]);
    assert_eq!(Message::Cancel.to_bytes().unwrap(), vec![4, 0, 0, 0, 7, 0, 0, 0]);
}

#[test]
fn test_resume_ack_payload_bytes() {
    let payload = Message::ResumeAck { offset: 0x0102 }.payload_bytes();
    assert_eq!(payload, vec![4, 0, 0, 0, 2, 1, 0, 0, 0, 0, 0, 0]);
}

#[test]
fn test_payload_matches_bincode_layout() {
    let start = Message::FileStart {
        filename: "test.txt".to_string(),
        size: 1024,
        compressed: true,
        offset: 0,
        quick_hash: 12345,
    };
    let expected = bincode::serialize(&(0u32, "test.txt", 1024u64, true, 0u64, 12345u64)).unwrap();
    assert_eq!(start.payload_bytes(), expected);

    let chunk = Message::FileChunk { data: vec![1, 2, 3], original_size: 3 };
    let expected = bincode::serialize(&(1u32, vec![1u8, 2, 3], 3u64)).unwrap();
    assert_eq!(chunk.payload_bytes(), expected);

    let error = Message::Error("Test error".to_string());
    let expected = bincode::serialize(&(5u32, "Test error")).unwrap();
    assert_eq!(error.payload_bytes(), expected);

    let list = Message::SyncFileList {
        files: vec![
            SyncFileEntry { relative_path: "file1.txt".to_string(), size: 100, quick_hash: 111 },
            SyncFileEntry { relative_path: "dir/file2.txt".to_string(), size: 200, quick_hash: 222 },
        ],
    };
    let expected =
        bincode::serialize(&(9u32, vec![("file1.txt", 100u64, 111u64), ("dir/file2.txt", 200u64, 222u64)]))
            .unwrap();
    assert_eq!(list.payload_bytes(), expected);
    assert_eq!(Message::SyncRequest.payload_bytes(), bincode::serialize(&8u32).unwrap());

    let request = Message::SpeedTestRequest { size: 77 };
    let expected = bincode::serialize(&(10u32, 77u64)).unwrap();
    assert_eq!(request.payload_bytes(), expected);

    let result = Message::SpeedTestResult {
        upload_speed: 1.5f64.to_bits(),
        download_speed: 2.5f64.to_bits(),
        latency_ms: 0.25f64.to_bits(),
    };
    let expected = bincode::serialize(&(14u32, 1.5f64, 2.5f64, 0.25f64)).unwrap();
    assert_eq!(result.payload_bytes(), expected);
}

#[test]
fn test_decode_truncated() {
    assert_eq!(Message::from_bytes(&[]), Err(DecodeError::Truncated));
    assert_eq!(Message::from_bytes(&[3, 0, 0]), Err(DecodeError::Truncated));
    assert_eq!(Message::from_bytes(&[4, 0, 0, 0, 1, 2, 3]), Err(DecodeError::Truncated));
    let full = Message::FileStart {
        filename: "a".to_string(),
        size: 1,
        compressed: false,
        offset: 0,
        quick_hash: 9,
    }
    .payload_bytes();
    for cut in 0..full.len() {
        assert_eq!(Message::from_bytes(&full[..cut]), Err(DecodeError::Truncated));
    }
    // A buffer that announces more bytes than follow.
    let mut chunk = vec![1, 0, 0, 0];
    chunk.extend_from_slice(&5u64.to_le_bytes());
    chunk.extend_from_slice(&[1, 2, 3]);
    assert_eq!(Message::from_bytes(&chunk), Err(DecodeError::Truncated));
}

#[test]
fn test_decode_file_list_errors() {
    let list = Message::SyncFileList {
        files: vec![
            SyncFileEntry { relative_path: "a".to_string(), size: 1, quick_hash: 2 },
            SyncFileEntry { relative_path: "b".to_string(), size: 3, quick_hash: 4 },
        ],
    };
    let full = list.payload_bytes();
    for cut in 0..full.len() {
        assert_eq!(Message::from_bytes(&full[..cut]), Err(DecodeError::Truncated));
    }
    // A count far beyond what follows.
    let mut huge = vec![9, 0, 0, 0];
    huge.extend_from_slice(&u64::MAX.to_le_bytes());
    assert_eq!(Message::from_bytes(&huge), Err(DecodeError::Truncated));
    // The second name is not UTF-8.
    let mut broken = full.clone();
    let second_name = 4 + 8 + (8 + 1 + 16) + 8;
    assert_eq!(broken[second_name], b'b');
    broken[second_name] = 0xff;
    assert_eq!(Message::from_bytes(&broken), Err(DecodeError::InvalidValue));
}

#[test]
fn test_decode_unknown_tag() {
    assert_eq!(Message::from_bytes(&[99, 0, 0, 0]), Err(DecodeError::UnknownTag));
    assert_eq!(Message::from_bytes(&[15, 0, 0, 0]), Err(DecodeError::UnknownTag));
    assert_eq!(Message::from_bytes(&[3, 0, 0, 1]), Err(DecodeError::UnknownTag));
}

#[test]
fn test_decode_invalid_value() {
    let mut start = Message::FileStart {
        filename: "ab".to_string(),
        size: 1,
        compressed: true,
        offset: 0,
        quick_hash: 9,
    }
    .payload_bytes();
    // The flag sits after tag (4), length (8), name (2) and size (8).
    assert_eq!(start[22], 1);
    start[22] = 2;
    assert_eq!(Message::from_bytes(&start), Err(DecodeError::InvalidValue));
    start[22] = 1;
    // Break the name: 0xff never occurs in UTF-8.
    start[12] = 0xff;
    assert_eq!(Message::from_bytes(&start), Err(DecodeError::InvalidValue));
}

#[test]
fn test_decode_ignores_trailing_bytes() {
    let mut bytes = Message::ResumeAck { offset: 5000 }.payload_bytes();
    bytes.extend_from_slice(&[1, 2, 3]);
    assert_eq!(Message::from_bytes(&bytes), Ok(Message::ResumeAck { offset: 5000 }));
}

#[test]
fn test_frame_length_limits() {
    assert_eq!(frame_length(&[]), Err(DecodeError::Truncated));
    assert_eq!(frame_length(&[1, 2, 3]), Err(DecodeError::Truncated));
    assert_eq!(frame_length(&[0, 0, 0, 0]), Ok(0));
    assert_eq!(frame_length(&[0, 0, 0, 1]), Ok(16 * 1024 * 1024));
    assert_eq!(frame_length(&[1, 0, 0, 1]), Err(DecodeError::TooLarge));
    assert_eq!(frame_length(&[255, 255, 255, 255]), Err(DecodeError::TooLarge));
}

#[test]
fn test_encode_too_large() {
    let fits = Message::SpeedTestData { data: vec![0; MAX_MESSAGE_SIZE - 12] };
    assert_eq!(fits.to_bytes().unwrap().len(), MAX_MESSAGE_SIZE + 4);
    let too_big = Message::SpeedTestData { data: vec![0; MAX_MESSAGE_SIZE - 11] };
    assert_eq!(too_big.to_bytes(), Err(EncodeError::TooLarge));
}
