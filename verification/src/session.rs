use vstd::prelude::*;

use crate::decode::{decode_utf8_lossy, spec_decode_utf8};

verus! {

/// What can go wrong while a shell session is set up or kept alive. Every
/// operating-system failure surfaces as one of these instead of aborting
/// the process.
#[derive(Clone, Copy, Debug, PartialEq, Eq, Structural)]
pub enum SessionError {
    /// The pseudo-terminal master could not be allocated.
    PtyAllocation,
    /// Granting or unlocking the slave side failed.
    PtySetup,
    /// The slave device could not be named or opened.
    SlaveOpen,
    /// The child process could not be forked.
    Fork,
    /// The slave could not be put into raw mode.
    RawMode,
    /// The shell image could not be executed.
    Exec,
    /// Reading from or writing to the master descriptor failed.
    MasterIo,
    /// The channel to the interpreter side is gone.
    ChannelClosed,
}

/// What the loop that owns the pseudo-terminal master observes in one
/// round.
pub enum PtyEvent {
    /// A translated keystroke chunk waits in the outbound queue.
    Outbound(Vec<u8>),
    /// The poll reports the master readable.
    PollReadable,
    /// The poll timed out with nothing to do.
    PollIdle,
    /// A read from the master returned this chunk of shell output.
    Input(Vec<u8>),
    /// A read from the master returned end of file: the shell is gone.
    Eof,
    /// An operating-system call failed.
    Failure(SessionError),
}

/// What the loop does next in response.
pub enum PtyAction {
    /// Write these bytes to the master.
    WriteMaster(Vec<u8>),
    /// Read whatever the master has.
    ReadMaster,
    /// Hand this decoded chunk to the interpreter, in arrival order.
    Forward(Vec<char>),
    /// Nothing to do this round; poll again.
    Idle,
    /// Leave the loop: close the master, reap the child, and report the
    /// error if there is one.
    Shutdown(Option<SessionError>),
}

/// The decision the session loop takes on one event: pending keystrokes are
/// written out, a readable master is read, shell output is decoded (never
/// fatally) and forwarded in order, end of file and failures end the
/// session explicitly.
pub fn session_step(ev: PtyEvent) -> (a: PtyAction)
    ensures
        ev matches PtyEvent::Outbound(b) ==> (a matches PtyAction::WriteMaster(w) && w@ == b@),
        ev is PollReadable ==> a is ReadMaster,
        ev is PollIdle ==> a is Idle,
        ev matches PtyEvent::Input(b) ==> (a matches PtyAction::Forward(cs) && cs@
            == spec_decode_utf8(b@, 0)),
        ev is Eof ==> (a matches PtyAction::Shutdown(e) && e is None),
        ev matches PtyEvent::Failure(err) ==> (a matches PtyAction::Shutdown(e) && e == Some(
            err,
        )),
{
    match ev {
        PtyEvent::Outbound(b) => PtyAction::WriteMaster(b),
        PtyEvent::PollReadable => PtyAction::ReadMaster,
        PtyEvent::PollIdle => PtyAction::Idle,
        PtyEvent::Input(b) => PtyAction::Forward(decode_utf8_lossy(b.as_slice())),
        PtyEvent::Eof => PtyAction::Shutdown(None),
        PtyEvent::Failure(err) => PtyAction::Shutdown(Some(err)),
    }
}

/// The window geometry reported to the pseudo-terminal, so the shell's own
/// line wrapping matches the grid.
#[derive(Clone, Copy, Debug, PartialEq, Eq, Structural)]
pub struct WindowSize {
    pub rows: u16,
    pub cols: u16,
    pub xpixel: u16,
    pub ypixel: u16,
}

/// Clamp a dimension into the 16-bit field the terminal interface carries.
pub open spec fn spec_dim16(v: u32) -> u16 {
    if v <= 0xFFFF {
        v as u16
    } else {
        0xFFFF
    }
}

/// The geometry to report after a resize: the cell and pixel dimensions,
/// each clamped into its 16-bit field.
pub fn window_size_for(width: u32, height: u32, px_width: u32, px_height: u32) -> (w: WindowSize)
    ensures
        w.cols == spec_dim16(width),
        w.rows == spec_dim16(height),
        w.xpixel == spec_dim16(px_width),
        w.ypixel == spec_dim16(px_height),
{
    WindowSize {
        rows: if height <= 0xFFFF {
            height as u16
        } else {
            0xFFFF
        },
        cols: if width <= 0xFFFF {
            width as u16
        } else {
            0xFFFF
        },
        xpixel: if px_width <= 0xFFFF {
            px_width as u16
        } else {
            0xFFFF
        },
        ypixel: if px_height <= 0xFFFF {
            px_height as u16
        } else {
            0xFFFF
        },
    }
}

} // verus!
