//! Notification events and what kind of change each one reports.
//!
//! An event carries the raw mask of the notification facility. The mask is read through
//! the `inotify` crate, so a flag here means what it means there.

use inotify::EventMask;
use inotify::WatchMask;
use crate::path::bytes_of;
use vstd::prelude::*;

verus! {

/// The subject moved out of the watched directory.
pub const IN_MOVED_FROM: u32 = 0x0000_0040;

/// The subject moved into the watched directory.
pub const IN_MOVED_TO: u32 = 0x0000_0080;

/// The subject was created in the watched directory.
pub const IN_CREATE: u32 = 0x0000_0100;

/// Watch the path only if it is a directory.
pub const IN_ONLYDIR: u32 = 0x0100_0000;

/// The subject of the event is a directory.
pub const IN_ISDIR: u32 = 0x4000_0000;

/// The mask of the watch on the source directory: creations and both halves of a
/// move, on a directory only.
pub const WATCH_MASK: u32 = 0x0100_01c0;

/// Whether `mask` carries every bit of `flag`.
pub open spec fn has_flag(mask: u32, flag: u32) -> bool {
    mask & flag == flag
}

/// What an event reports, as far as routing cares.
#[derive(Debug, Clone, Copy, PartialEq, Eq, Structural)]
pub enum EventKind {
    /// A file appeared in the watched directory.
    FileCreated,
    /// A directory appeared in the watched directory.
    DirectoryCreated,
    /// A file left under the name the event carries.
    MoveAway,
    /// A file arrived under the name the event carries.
    MoveInto,
    /// Anything else, any other event about a directory included.
    Other,
}

/// The kind that a raw mask stands for.
///
/// The directory flag is looked at first and hides every other flag but creation;
/// after it creation goes before move-away, and move-away before move-into.
pub open spec fn kind_of(mask: u32) -> EventKind {
    if has_flag(mask, IN_ISDIR) {
        if has_flag(mask, IN_CREATE) {
            EventKind::DirectoryCreated
        } else {
            EventKind::Other
        }
    } else if has_flag(mask, IN_CREATE) {
        EventKind::FileCreated
    } else if has_flag(mask, IN_MOVED_FROM) {
        EventKind::MoveAway
    } else if has_flag(mask, IN_MOVED_TO) {
        EventKind::MoveInto
    } else {
        EventKind::Other
    }
}

/// One notification about the watched directory.
#[derive(Debug, Clone, PartialEq, Eq)]
pub struct Event {
    /// The raw event mask.
    pub mask: u32,
    /// The token that the facility gives to both halves of one move. It is carried
    /// along and never decides anything.
    pub cookie: u32,
    /// The bare file name the event is about, where it has one.
    pub name: Option<Vec<u8>>,
}

/// `EventMask::contains` with `EventMask::ISDIR`, on the mask that
/// `EventMask::from_bits_truncate` makes of `mask`: true exactly when the directory
/// bit is set. Truncation drops only bits that are no event flag.
#[verifier::external_body]
fn mask_is_dir(mask: u32) -> (set: bool)
    ensures
        set == has_flag(mask, IN_ISDIR),
{
    EventMask::from_bits_truncate(mask).contains(EventMask::ISDIR)
}

/// `EventMask::contains` with `EventMask::CREATE`, on the mask that
/// `EventMask::from_bits_truncate` makes of `mask`: true exactly when the creation
/// bit is set.
#[verifier::external_body]
fn mask_is_create(mask: u32) -> (set: bool)
    ensures
        set == has_flag(mask, IN_CREATE),
{
    EventMask::from_bits_truncate(mask).contains(EventMask::CREATE)
}

/// `EventMask::contains` with `EventMask::MOVED_FROM`, on the mask that
/// `EventMask::from_bits_truncate` makes of `mask`: true exactly when the move-away
/// bit is set.
#[verifier::external_body]
fn mask_is_moved_from(mask: u32) -> (set: bool)
    ensures
        set == has_flag(mask, IN_MOVED_FROM),
{
    EventMask::from_bits_truncate(mask).contains(EventMask::MOVED_FROM)
}

/// `EventMask::contains` with `EventMask::MOVED_TO`, on the mask that
/// `EventMask::from_bits_truncate` makes of `mask`: true exactly when the move-into
/// bit is set.
#[verifier::external_body]
fn mask_is_moved_to(mask: u32) -> (set: bool)
    ensures
        set == has_flag(mask, IN_MOVED_TO),
{
    EventMask::from_bits_truncate(mask).contains(EventMask::MOVED_TO)
}

/// `WatchMask::bits` of `WatchMask::CREATE`: the creation bit.
#[verifier::external_body]
fn watch_create() -> (bits: u32)
    ensures
        bits == IN_CREATE,
{
    WatchMask::CREATE.bits()
}

/// `WatchMask::bits` of `WatchMask::MOVE`: the move-away and the move-into bit.
#[verifier::external_body]
fn watch_move() -> (bits: u32)
    ensures
        bits == IN_MOVED_FROM | IN_MOVED_TO,
{
    WatchMask::MOVE.bits()
}

/// `WatchMask::bits` of `WatchMask::ONLYDIR`: the directory-only bit.
#[verifier::external_body]
fn watch_onlydir() -> (bits: u32)
    ensures
        bits == IN_ONLYDIR,
{
    WatchMask::ONLYDIR.bits()
}

/// The mask to register the watch on the source directory with.
pub fn watch_mask() -> (bits: u32)
    ensures
        bits == WATCH_MASK,
        bits == IN_CREATE | IN_MOVED_FROM | IN_MOVED_TO | IN_ONLYDIR,
{
    let create: u32 = watch_create();
    let moved: u32 = watch_move();
    let onlydir: u32 = watch_onlydir();
    assert(0x0000_0100u32 | (0x0000_0040u32 | 0x0000_0080u32) | 0x0100_0000u32 == 0x0100_01c0u32)
        by (bit_vector);
    assert(0x0000_0100u32 | 0x0000_0040u32 | 0x0000_0080u32 | 0x0100_0000u32 == 0x0100_01c0u32)
        by (bit_vector);
    create | moved | onlydir
}

impl Event {
    /// An event with the given mask, token and name.
    pub fn new(mask: u32, cookie: u32, name: Option<Vec<u8>>) -> (event: Event)
        ensures
            event.mask == mask,
            event.cookie == cookie,
            event.name == name,
    {
        Event { mask, cookie, name }
    }

    /// The bytes of the name, where the event has one.
    pub open spec fn name_bytes(&self) -> Option<Seq<u8>> {
        bytes_of(self.name)
    }

    /// The kind of this event.
    pub fn kind(&self) -> (kind: EventKind)
        ensures
            kind == kind_of(self.mask),
    {
        if mask_is_dir(self.mask) {
            if mask_is_create(self.mask) {
                EventKind::DirectoryCreated
            } else {
                EventKind::Other
            }
        } else if mask_is_create(self.mask) {
            EventKind::FileCreated
        } else if mask_is_moved_from(self.mask) {
            EventKind::MoveAway
        } else if mask_is_moved_to(self.mask) {
            EventKind::MoveInto
        } else {
            EventKind::Other
        }
    }
}

} // verus!
