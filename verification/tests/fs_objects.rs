use radishlex::fs_objects::{
    is_private_directory, is_private_receipt_file, is_private_socket, is_same_directory,
    is_same_file, is_sticky_shared_directory, permissions_of,
};
use radishlex::install_receipt::is_operation_id;
use radishlex::install_switch::{
    is_private_transaction_directory, is_safe_target_parent, is_transaction_entry, BundleFacts,
};
use radishlex::upgrade_switch::{FileFacts, FileKind};

fn object(kind: FileKind, mode: u32) -> FileFacts {
    FileFacts { kind, device_id: 3, inode: 40, owner_id: 501, mode, link_count: 1, byte_len: 10 }
}

#[test]
fn private_objects_need_owner_kind_and_exact_permissions() {
    assert_eq!(permissions_of(&object(FileKind::Directory, 0o40700)), 0o700);
    assert!(is_private_directory(&object(FileKind::Directory, 0o40700), 501, 0o700));
    assert!(!is_private_directory(&object(FileKind::Directory, 0o40750), 501, 0o700));
    assert!(!is_private_directory(&object(FileKind::File, 0o100700), 501, 0o700));
    assert!(!is_private_directory(&object(FileKind::Directory, 0o40700), 502, 0o700));
    assert!(is_private_receipt_file(&object(FileKind::File, 0o100600), 501, 10));
    assert!(!is_private_receipt_file(&object(FileKind::File, 0o100600), 501, 9));
    assert!(!is_private_receipt_file(&object(FileKind::File, 0o100644), 501, 10));
    let linked = FileFacts { link_count: 2, ..object(FileKind::File, 0o100600) };
    assert!(!is_private_receipt_file(&linked, 501, 10));
    assert!(is_private_socket(&object(FileKind::Socket, 0o140600), 501));
    assert!(!is_private_socket(&object(FileKind::Socket, 0o140666), 501));
    let shared = FileFacts { owner_id: 0, ..object(FileKind::Directory, 0o41777) };
    assert!(is_sticky_shared_directory(&shared));
    assert!(!is_sticky_shared_directory(&object(FileKind::Directory, 0o41777)));
}

#[test]
fn repeated_reads_compare_identity_and_content_size() {
    let first = object(FileKind::File, 0o100600);
    assert!(is_same_file(&first, &FileFacts { mode: 0o600, ..first }));
    assert!(!is_same_file(&first, &FileFacts { byte_len: 11, ..first }));
    assert!(is_same_directory(&first, &FileFacts { byte_len: 11, ..first }));
    assert!(!is_same_directory(&first, &FileFacts { inode: 41, ..first }));
}

#[test]
fn program_directories_and_transaction_entries() {
    let parent = BundleFacts { is_directory: true, device_id: 3, inode: 9, owner_id: 501, mode: 0o40755 };
    assert!(is_safe_target_parent(&parent, 501));
    assert!(!is_safe_target_parent(&BundleFacts { mode: 0o40775, ..parent }, 501));
    assert!(!is_safe_target_parent(&BundleFacts { inode: 0, ..parent }, 501));
    let transaction = BundleFacts { mode: 0o40700, ..parent };
    assert!(is_private_transaction_directory(&transaction, 501, 3));
    assert!(!is_private_transaction_directory(&transaction, 501, 4));
    assert!(!is_private_transaction_directory(&parent, 501, 3));
    assert!(is_transaction_entry("staged.app"));
    assert!(is_transaction_entry("source-backup.app"));
    assert!(!is_transaction_entry("other.app"));
    assert!(is_operation_id("00112233445566778899aabbccddeeff"));
    assert!(!is_operation_id("00112233445566778899AABBCCDDEEFF"));
    assert!(!is_operation_id("0011"));
}
