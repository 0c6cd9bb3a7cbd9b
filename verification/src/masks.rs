//! The bits by which the notification source says what happened, and the
//! bits by which it is told what to report.

use vstd::prelude::*;

verus! {

/// The bit that marks the creation of an entry in a watched directory.
pub const CREATE: u32 = 0x0000_0100;

/// The bit that marks a change of an entry's content.
pub const MODIFY: u32 = 0x0000_0002;

/// The bit that marks the removal of an entry from a watched directory.
pub const DELETE: u32 = 0x0000_0200;

/// The bit that marks the subject of a notification as a directory.
pub const ISDIR: u32 = 0x4000_0000;

/// Reads `inotify::EventMask::CREATE`. Not proved: that its bits are
/// those of `CREATE`.
#[verifier::external_body]
fn event_create_bits() -> (bits: u32)
    ensures
        bits == CREATE,
{
    inotify::EventMask::CREATE.bits()
}

/// Reads `inotify::EventMask::ISDIR`. Not proved: that its bits are those
/// of `ISDIR`.
#[verifier::external_body]
fn event_isdir_bits() -> (bits: u32)
    ensures
        bits == ISDIR,
{
    inotify::EventMask::ISDIR.bits()
}

/// Reads `inotify::WatchMask::CREATE`. Not proved: that its bits are those
/// of `CREATE`.
#[verifier::external_body]
fn watch_create_bits() -> (bits: u32)
    ensures
        bits == CREATE,
{
    inotify::WatchMask::CREATE.bits()
}

/// Reads `inotify::WatchMask::MODIFY`. Not proved: that its bits are those
/// of `MODIFY`.
#[verifier::external_body]
fn watch_modify_bits() -> (bits: u32)
    ensures
        bits == MODIFY,
{
    inotify::WatchMask::MODIFY.bits()
}

/// Reads `inotify::WatchMask::DELETE`. Not proved: that its bits are those
/// of `DELETE`.
#[verifier::external_body]
fn watch_delete_bits() -> (bits: u32)
    ensures
        bits == DELETE,
{
    inotify::WatchMask::DELETE.bits()
}

/// The mask of a notification that reports exactly the creation of a
/// directory.
pub open spec fn spec_dir_created_mask() -> u32 {
    0x4000_0100
}

/// The mask every watch is installed with: creation, modification and
/// removal of entries.
pub open spec fn spec_watch_mask() -> u32 {
    0x0000_0302
}

/// The mask of a notification that reports exactly the creation of a
/// directory.
pub fn dir_created_mask() -> (mask: u32)
    ensures
        mask == spec_dir_created_mask(),
        mask == CREATE | ISDIR,
{
    let create: u32 = event_create_bits();
    let isdir: u32 = event_isdir_bits();
    assert(0x0000_0100u32 | 0x4000_0000u32 == 0x4000_0100u32) by (bit_vector);
    create | isdir
}

/// The mask every watch is installed with: creation, modification and
/// removal of entries.
pub fn watch_mask() -> (mask: u32)
    ensures
        mask == spec_watch_mask(),
        mask == CREATE | MODIFY | DELETE,
{
    let create: u32 = watch_create_bits();
    let modify: u32 = watch_modify_bits();
    let delete: u32 = watch_delete_bits();
    assert(0x0000_0100u32 | 0x0000_0002u32 | 0x0000_0200u32 == 0x0000_0302u32) by (bit_vector);
    create | modify | delete
}

} // verus!
