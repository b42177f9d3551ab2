//! The playback orchestrator's computations: the title a queued URL is
//! displayed under, the status text shown in the player, the one-entry
//! playlist file handed to it, and that file's scratch name.  The caller
//! writes the file, sends the commands and cleans up; every byte it writes
//! or sends is computed and specified here.

use crate::wire::dec_bytes;
use vstd::prelude::*;
use vstd::string::StrSliceExecFns;
use vstd::string::StringSliceAdditionalSpecFns;
use vstd::utf8::encode_utf8;

verus! {

/// What the orchestrator may do after asking the supervisor for a session.
pub enum PlayGate {
    /// The session is guaranteed live: issue the playback commands.
    Proceed,
    /// The supervisor failed: report the distinct "player unavailable"
    /// failure and issue no command.
    PlayerUnavailable,
}

/// Commands are issued only after `ensure_running` succeeded; its failure is
/// reported as "player unavailable", never as a command failure.
pub fn gate_after_ensure(ensure_ok: bool) -> (g: PlayGate)
    ensures
        (g is Proceed) <==> ensure_ok,
{
    if ensure_ok {
        PlayGate::Proceed
    } else {
        PlayGate::PlayerUnavailable
    }
}

/// The displayed title: the title with the URL in parentheses, or the URL
/// alone where no title was given.
pub open spec fn spec_display_title(title: Seq<char>, url: Seq<char>) -> Seq<u8> {
    if title.len() == 0 {
        encode_utf8(url)
    } else {
        encode_utf8(title) + " (".spec_bytes() + encode_utf8(url) + ")".spec_bytes()
    }
}

pub fn display_title(title: &str, url: &str) -> (r: Vec<u8>)
    ensures
        r@ == spec_display_title(title@, url@),
{
    if title.unicode_len() == 0 {
        url.as_bytes_vec()
    } else {
        let mut out = title.as_bytes_vec();
        let mut open = " (".as_bytes_vec();
        out.append(&mut open);
        let mut mid = url.as_bytes_vec();
        out.append(&mut mid);
        let mut close = ")".as_bytes_vec();
        out.append(&mut close);
        proof {
            assert(out@ =~= spec_display_title(title@, url@));
        }
        out
    }
}

/// The status text shown in the player while an entry is queued.
pub open spec fn spec_status_text(display: Seq<u8>) -> Seq<u8> {
    "Adding to playlist: ".spec_bytes() + display
}

pub fn status_text(display: &Vec<u8>) -> (r: Vec<u8>)
    ensures
        r@ == spec_status_text(display@),
{
    let mut out = "Adding to playlist: ".as_bytes_vec();
    let mut d = display.clone();
    out.append(&mut d);
    proof {
        assert(out@ =~= spec_status_text(display@));
    }
    out
}

/// The one-entry playlist handed to the player: an extended M3U header, one
/// entry named by the displayed title, and the URL itself.
pub open spec fn spec_playlist_contents(display: Seq<u8>, url: Seq<char>) -> Seq<u8> {
    "#EXTM3U\n#EXTINF:-1,".spec_bytes() + display + "\n".spec_bytes() + encode_utf8(url)
}

pub fn playlist_contents(display: &Vec<u8>, url: &str) -> (r: Vec<u8>)
    ensures
        r@ == spec_playlist_contents(display@, url@),
{
    let mut out = "#EXTM3U\n#EXTINF:-1,".as_bytes_vec();
    let mut d = display.clone();
    out.append(&mut d);
    let mut nl = "\n".as_bytes_vec();
    out.append(&mut nl);
    let mut u = url.as_bytes_vec();
    out.append(&mut u);
    proof {
        assert(out@ =~= spec_playlist_contents(display@, url@));
    }
    out
}

/// The scratch playlist's file name, made unique by a fresh identifier.
pub open spec fn spec_playlist_file_name(id: u64) -> Seq<u8> {
    "managed-mpv-list-".spec_bytes() + dec_bytes(id as nat) + ".m3u".spec_bytes()
}

pub fn playlist_file_name(id: u64) -> (r: Vec<u8>)
    ensures
        r@ == spec_playlist_file_name(id),
{
    let mut out = "managed-mpv-list-".as_bytes_vec();
    crate::wire::push_dec(&mut out, id);
    let mut tail = ".m3u".as_bytes_vec();
    out.append(&mut tail);
    proof {
        assert(out@ =~= spec_playlist_file_name(id));
    }
    out
}

} // verus!
