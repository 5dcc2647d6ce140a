use std::path::PathBuf;
use toolza_sender::hash::QuickHasher;
use toolza_sender::sync::{compute_sync_diff, RemoteFileInfo, SyncDiff, SyncFileInfo};

#[test]
fn test_quick_hasher_same_input() {
    let mut h1 = QuickHasher::new();
    h1.update(b"hello");

    let mut h2 = QuickHasher::new();
    h2.update(b"hello");

    assert_eq!(h1.finish(), h2.finish());
}

#[test]
fn test_quick_hasher_different_input() {
    let mut h1 = QuickHasher::new();
    h1.update(b"hello");

    let mut h2 = QuickHasher::new();
    h2.update(b"world");

    assert_ne!(h1.finish(), h2.finish());
}

#[test]
fn test_quick_hasher_incremental() {
    let mut h1 = QuickHasher::new();
    h1.update(b"hello");
    h1.update(b"world");

    let mut h2 = QuickHasher::new();
    h2.update(b"helloworld");

    assert_eq!(h1.finish(), h2.finish());
}

#[test]
fn test_quick_hasher_empty() {
    let h = QuickHasher::new();
    // Пустой хэш должен быть начальным значением FNV
    assert_eq!(h.finish(), 0xcbf29ce484222325);
}

#[test]
fn test_sync_file_info_needs_update_different_size() {
    let local = SyncFileInfo {
        path: PathBuf::from("/test"),
        relative_path: "test.txt".to_string(),
        size: 100,
        modified: 0,
        quick_hash: 12345,
    };

    let remote = RemoteFileInfo {
        relative_path: "test.txt".to_string(),
        size: 200, // Разный размер
        modified: 0,
        quick_hash: 12345,
    };

    assert!(local.needs_update(&remote));
}

#[test]
fn test_sync_file_info_needs_update_different_hash() {
    let local = SyncFileInfo {
        path: PathBuf::from("/test"),
        relative_path: "test.txt".to_string(),
        size: 100,
        modified: 0,
        quick_hash: 12345,
    };

    let remote = RemoteFileInfo {
        relative_path: "test.txt".to_string(),
        size: 100,
        modified: 0,
        quick_hash: 54321, // Разный хэш
    };

    assert!(local.needs_update(&remote));
}

#[test]
fn test_sync_file_info_no_update_needed() {
    let local = SyncFileInfo {
        path: PathBuf::from("/test"),
        relative_path: "test.txt".to_string(),
        size: 100,
        modified: 0,
        quick_hash: 12345,
    };

    let remote = RemoteFileInfo {
        relative_path: "test.txt".to_string(),
        size: 100,
        modified: 0,
        quick_hash: 12345, // Одинаковый хэш
    };

    assert!(!local.needs_update(&remote));
}

#[test]
fn test_sync_diff_transfer_size() {
    let diff = SyncDiff {
        to_transfer: vec![
            SyncFileInfo {
                path: PathBuf::from("/a"),
                relative_path: "a.txt".to_string(),
                size: 100,
                modified: 0,
                quick_hash: 0,
            },
            SyncFileInfo {
                path: PathBuf::from("/b"),
                relative_path: "b.txt".to_string(),
                size: 200,
                modified: 0,
                quick_hash: 0,
            },
        ],
        unchanged: vec![],
        remote_only: vec![],
    };

    assert_eq!(diff.transfer_size(), 300);
}

#[test]
fn test_sync_diff_empty() {
    let diff = SyncDiff {
        to_transfer: vec![],
        unchanged: vec![],
        remote_only: vec![],
    };

    assert_eq!(diff.transfer_size(), 0);
}

#[test]
fn test_compute_sync_diff_new_file() {
    let local = vec![SyncFileInfo {
        path: PathBuf::from("/new"),
        relative_path: "new.txt".to_string(),
        size: 100,
        modified: 0,
        quick_hash: 12345,
    }];

    let remote: Vec<RemoteFileInfo> = vec![];

    let diff = compute_sync_diff(&local, &remote);

    assert_eq!(diff.to_transfer.len(), 1);
    assert!(diff.unchanged.is_empty());
    assert!(diff.remote_only.is_empty());
}

#[test]
fn test_compute_sync_diff_unchanged() {
    let local = vec![SyncFileInfo {
        path: PathBuf::from("/file"),
        relative_path: "file.txt".to_string(),
        size: 100,
        modified: 0,
        quick_hash: 12345,
    }];

    let remote = vec![RemoteFileInfo {
        relative_path: "file.txt".to_string(),
        size: 100,
        modified: 0,
        quick_hash: 12345,
    }];

    let diff = compute_sync_diff(&local, &remote);

    assert!(diff.to_transfer.is_empty());
    assert_eq!(diff.unchanged.len(), 1);
    assert!(diff.remote_only.is_empty());
}

#[test]
fn test_compute_sync_diff_modified() {
    let local = vec![SyncFileInfo {
        path: PathBuf::from("/file"),
        relative_path: "file.txt".to_string(),
        size: 150, // Изменённый размер
        modified: 0,
        quick_hash: 99999,
    }];

    let remote = vec![RemoteFileInfo {
        relative_path: "file.txt".to_string(),
        size: 100,
        modified: 0,
        quick_hash: 12345,
    }];

    let diff = compute_sync_diff(&local, &remote);

    assert_eq!(diff.to_transfer.len(), 1);
    assert!(diff.unchanged.is_empty());
}

#[test]
fn test_compute_sync_diff_remote_only() {
    let local: Vec<SyncFileInfo> = vec![];

    let remote = vec![RemoteFileInfo {
        relative_path: "old.txt".to_string(),
        size: 100,
        modified: 0,
        quick_hash: 12345,
    }];

    let diff = compute_sync_diff(&local, &remote);

    assert!(diff.to_transfer.is_empty());
    assert!(diff.unchanged.is_empty());
    assert_eq!(diff.remote_only.len(), 1);
    assert_eq!(diff.remote_only[0], "old.txt");
}

#[test]
fn test_compute_sync_diff_complex() {
    let local = vec![
        SyncFileInfo {
            path: PathBuf::from("/new"),
            relative_path: "new.txt".to_string(),
            size: 100,
            modified: 0,
            quick_hash: 111,
        },
        SyncFileInfo {
            path: PathBuf::from("/same"),
            relative_path: "same.txt".to_string(),
            size: 200,
            modified: 0,
            quick_hash: 222,
        },
        SyncFileInfo {
            path: PathBuf::from("/changed"),
            relative_path: "changed.txt".to_string(),
            size: 350, // Изменён
            modified: 0,
            quick_hash: 999,
        },
    ];

    let remote = vec![
        RemoteFileInfo {
            relative_path: "same.txt".to_string(),
            size: 200,
            modified: 0,
            quick_hash: 222,
        },
        RemoteFileInfo {
            relative_path: "changed.txt".to_string(),
            size: 300,
            modified: 0,
            quick_hash: 333,
        },
        RemoteFileInfo {
            relative_path: "deleted.txt".to_string(),
            size: 400,
            modified: 0,
            quick_hash: 444,
        },
    ];

    let diff = compute_sync_diff(&local, &remote);

    // new.txt и changed.txt должны передаваться
    assert_eq!(diff.to_transfer.len(), 2);

    // same.txt не изменился
    assert_eq!(diff.unchanged.len(), 1);
    assert_eq!(diff.unchanged[0], "same.txt");

    // deleted.txt только на remote
    assert_eq!(diff.remote_only.len(), 1);
    assert_eq!(diff.remote_only[0], "deleted.txt");
}
