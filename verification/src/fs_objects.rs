//! What the receipt stores accept of the objects they find: private state
//! directories, private receipt files, private guard sockets, and the shared
//! sticky directory that holds the guard sockets.

use vstd::prelude::*;

use crate::upgrade_switch::{permission_bits, FileFacts, FileKind};

verus! {

/// The permission bits of what was found.
pub fn permissions_of(f: &FileFacts) -> (r: u32)
    ensures
        r == permission_bits(f.mode),
{
    f.mode & 0o7777u32
}

/// A directory of the expected owner with exactly the expected permissions.
pub open spec fn private_directory(f: FileFacts, owner_id: u32, mode: u32) -> bool {
    f.kind == FileKind::Directory && f.owner_id == owner_id && permission_bits(f.mode) == mode && f.link_count != 0
}

pub fn is_private_directory(f: &FileFacts, owner_id: u32, mode: u32) -> (r: bool)
    ensures
        r == private_directory(*f, owner_id, mode),
{
    f.kind == FileKind::Directory && f.owner_id == owner_id && f.mode & 0o7777u32 == mode && f.link_count != 0
}

/// A regular file of the expected owner, mode `0600`, one link, at most `max_len` bytes.
pub open spec fn private_receipt_file(f: FileFacts, owner_id: u32, max_len: u64) -> bool {
    f.kind == FileKind::File && f.owner_id == owner_id && permission_bits(f.mode) == 0o600u32 && f.link_count == 1
        && f.byte_len <= max_len
}

pub fn is_private_receipt_file(f: &FileFacts, owner_id: u32, max_len: u64) -> (r: bool)
    ensures
        r == private_receipt_file(*f, owner_id, max_len),
{
    f.kind == FileKind::File && f.owner_id == owner_id && f.mode & 0o7777u32 == 0o600u32 && f.link_count == 1
        && f.byte_len <= max_len
}

/// A socket of the expected owner with mode `0600`.
pub open spec fn private_socket(f: FileFacts, owner_id: u32) -> bool {
    f.kind == FileKind::Socket && f.owner_id == owner_id && permission_bits(f.mode) == 0o600u32
}

pub fn is_private_socket(f: &FileFacts, owner_id: u32) -> (r: bool)
    ensures
        r == private_socket(*f, owner_id),
{
    f.kind == FileKind::Socket && f.owner_id == owner_id && f.mode & 0o7777u32 == 0o600u32
}

/// The shared directory for guard sockets: owned by the superuser, mode `1777`.
pub open spec fn sticky_shared_directory(f: FileFacts) -> bool {
    f.kind == FileKind::Directory && f.owner_id == 0 && permission_bits(f.mode) == 0o1777u32
}

pub fn is_sticky_shared_directory(f: &FileFacts) -> (r: bool)
    ensures
        r == sticky_shared_directory(*f),
{
    f.kind == FileKind::Directory && f.owner_id == 0 && f.mode & 0o7777u32 == 0o1777u32
}

/// Two reads of one directory find the same object with the same owner and permissions.
pub open spec fn same_directory(a: FileFacts, b: FileFacts) -> bool {
    a.device_id == b.device_id && a.inode == b.inode && a.owner_id == b.owner_id && permission_bits(a.mode)
        == permission_bits(b.mode)
}

pub fn is_same_directory(a: &FileFacts, b: &FileFacts) -> (r: bool)
    ensures
        r == same_directory(*a, *b),
{
    a.device_id == b.device_id && a.inode == b.inode && a.owner_id == b.owner_id && a.mode & 0o7777u32 == b.mode
        & 0o7777u32
}

/// Two reads of one file find the same object, unchanged in owner, permissions,
/// link count and length.
pub open spec fn same_file(a: FileFacts, b: FileFacts) -> bool {
    same_directory(a, b) && a.link_count == b.link_count && a.byte_len == b.byte_len
}

pub fn is_same_file(a: &FileFacts, b: &FileFacts) -> (r: bool)
    ensures
        r == same_file(*a, *b),
{
    is_same_directory(a, b) && a.link_count == b.link_count && a.byte_len == b.byte_len
}

} // verus!
