//! The filter that a route runs with unless it is given another.
//!
//! A file that is still being written usually carries the extension `tmp`. Such a file
//! is left alone; it comes up again when it is renamed to its final name.

use crate::event::Event;
use crate::path::extension;
use crate::path::extension_of;
use crate::path::last_dot;
use crate::path::lemma_last_dot;
use crate::path::DOT;
use vstd::prelude::*;

verus! {

/// The extension of files that are not ready: the bytes of `tmp`.
pub open spec fn tmp() -> Seq<u8> {
    seq![0x74u8, 0x6du8, 0x70u8]
}

/// Whether a file name marks its file as not ready: its extension is exactly `tmp`,
/// in lower case.
pub open spec fn is_temporary(name: Seq<u8>) -> bool {
    extension(name) == Some(tmp())
}

/// Whether the default filter lets an event with this name through. An event
/// without a name passes, and so does a name without an extension.
pub open spec fn passes_default_filter(name: Option<Seq<u8>>) -> bool {
    match name {
        Some(name) => !is_temporary(name),
        None => true,
    }
}

/// The default filter: everything but files with the extension `tmp`.
pub fn default_filter(event: &Event) -> (accepted: bool)
    ensures
        accepted == passes_default_filter(event.name_bytes()),
{
    match &event.name {
        None => true,
        Some(name) => {
            match extension_of(name) {
                None => true,
                Some(ext) => {
                    let is_tmp = ext.len() == 3 && ext[0] == 0x74 && ext[1] == 0x6d && ext[2]
                        == 0x70;
                    assert(is_tmp == (ext@ =~= tmp()));
                    !is_tmp
                },
            }
        },
    }
}

/// A name is temporary exactly when it ends in `.tmp` and something stands before
/// that dot.
pub proof fn law_temporary_names_end_in_dot_tmp(name: Seq<u8>)
    ensures
        is_temporary(name) <==> name.len() > 4 && name.subrange(
            name.len() - 4,
            name.len() as int,
        ) == seq![DOT, 0x74u8, 0x6du8, 0x70u8],
{
    let len = name.len() as int;
    let dot = last_dot(name);
    let suffix = seq![DOT, 0x74u8, 0x6du8, 0x70u8];
    lemma_last_dot(name);
    if is_temporary(name) {
        let ext = name.subrange(dot + 1, len);
        assert(ext == tmp());
        assert(ext.len() == 3);
        assert(dot == len - 4);
        assert(name[len - 3] == ext[0] && name[len - 2] == ext[1] && name[len - 1] == ext[2]);
        assert(name.subrange(len - 4, len) =~= suffix);
    }
    if name.len() > 4 && name.subrange(len - 4, len) == suffix {
        let tail = name.subrange(len - 4, len);
        assert(tail[0] == DOT && tail[1] == 0x74u8 && tail[2] == 0x6du8 && tail[3] == 0x70u8);
        assert(name[len - 4] == tail[0]);
        assert(name[len - 3] == tail[1]);
        assert(name[len - 2] == tail[2]);
        assert(name[len - 1] == tail[3]);
        assert(dot >= len - 4);
        assert(dot == len - 4);
        assert(name != seq![DOT, DOT]);
        assert(name.subrange(dot + 1, len) =~= tmp());
    }
}

} // verus!
