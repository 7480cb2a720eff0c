use vstd::prelude::*;

use crate::error::Error;

verus! {

/// Notification sent once the task dialog's window exists.
pub const TDN_CREATED: u32 = 0;

/// Notification sent when a button of the task dialog is clicked.
pub const TDN_BUTTON_CLICKED: u32 = 2;

/// Identifier of the Cancel button.
pub const IDCANCEL: i32 = 2;

/// Success.
pub const S_OK: i32 = 0;

/// Success, with the answer "no": a clicked button does not close the dialog.
pub const S_FALSE: i32 = 1;

/// Out of memory (`0x8007000E`).
pub const E_OUTOFMEMORY: i32 = -2147024882;

/// An argument was invalid (`0x80070057`).
pub const E_INVALIDARG: i32 = -2147024809;

/// Unspecified failure (`0x80004005`).
pub const E_FAIL: i32 = -2147467259;

/// The upper end of the progress bar's range: a resolution of a tenth of a
/// percent.
pub const PROGRESS_RANGE_MAX: u16 = 1000;

/// What the task dialog's callback does with one notification.
#[derive(Clone, Copy, Debug, PartialEq, Eq)]
pub struct CallbackReply {
    /// Publish the window handle and wake the thread waiting for it.
    pub signal_created: bool,
    /// The value the callback returns to the dialog.
    pub code: i32,
}

/// Decides the callback's answer to notification `msg`: the creation of the
/// window is published; a click closes the dialog only on Cancel; anything
/// else is acknowledged.
pub fn task_callback_reply(msg: u32, wparam: usize) -> (r: CallbackReply)
    ensures
        r.signal_created == (msg == TDN_CREATED),
        r.code == if msg == TDN_BUTTON_CLICKED && wparam != IDCANCEL as usize {
            S_FALSE
        } else {
            S_OK
        },
{
    if msg == TDN_CREATED {
        CallbackReply { signal_created: true, code: S_OK }
    } else if msg == TDN_BUTTON_CLICKED {
        if wparam == IDCANCEL as usize {
            CallbackReply { signal_created: false, code: S_OK }
        } else {
            CallbackReply { signal_created: false, code: S_FALSE }
        }
    } else {
        CallbackReply { signal_created: false, code: S_OK }
    }
}

/// The words that describe a failed task dialog's result code.
pub open spec fn failure_text(retval: i32) -> Seq<char> {
    if retval == E_OUTOFMEMORY {
        "Out of memory"@
    } else if retval == E_INVALIDARG {
        "Invalid argument"@
    } else if retval == E_FAIL {
        "Generic failure opening task dialog"@
    } else {
        "Unknown error"@
    }
}

/// Reads what the task dialog returned: on success, whether it was closed by
/// Cancel; otherwise an error describing the result code.
pub fn task_dialog_result(retval: i32, button: i32) -> (r: Result<bool, Error>)
    ensures
        retval == S_OK ==> r == Ok::<bool, Error>(button == IDCANCEL),
        retval != S_OK ==> (r matches Err(Error::ImplementationError(m)) && m@ == failure_text(
            retval,
        )),
{
    if retval == S_OK {
        Ok(button == IDCANCEL)
    } else if retval == E_OUTOFMEMORY {
        Err(Error::ImplementationError(String::from_str("Out of memory")))
    } else if retval == E_INVALIDARG {
        Err(Error::ImplementationError(String::from_str("Invalid argument")))
    } else if retval == E_FAIL {
        Err(Error::ImplementationError(String::from_str("Generic failure opening task dialog")))
    } else {
        Err(Error::ImplementationError(String::from_str("Unknown error")))
    }
}

/// What one look at the dialog thread's result channel found.
#[derive(Clone, Copy, Debug, PartialEq, Eq)]
pub enum CancelPoll {
    /// The dialog closed and sent whether it was cancelled.
    Received(bool),
    /// The dialog is still open.
    Empty,
    /// The dialog thread ended without sending.
    Disconnected,
}

/// Whether the progress dialog has been cancelled: the answer it sent, no
/// while it is open, and an error once its thread is gone.
pub fn cancel_status(poll: CancelPoll) -> (r: Result<bool, Error>)
    ensures
        match poll {
            CancelPoll::Received(c) => r == Ok::<bool, Error>(c),
            CancelPoll::Empty => r == Ok::<bool, Error>(false),
            CancelPoll::Disconnected => r matches Err(Error::ImplementationError(m)) && m@
                == "Window disconnected"@,
        },
{
    match poll {
        CancelPoll::Received(c) => Ok(c),
        CancelPoll::Empty => Ok(false),
        CancelPoll::Disconnected => Err(
            Error::ImplementationError(String::from_str("Window disconnected")),
        ),
    }
}

/// Packs two 16-bit words into a 32-bit value, `low` in the low half.
pub open spec fn make_long_spec(low: u16, high: u16) -> int {
    let v = low + high * 0x10000;
    if v < 0x8000_0000 {
        v
    } else {
        v - 0x1_0000_0000
    }
}

/// The message argument that sets the progress bar's range to
/// `0..=PROGRESS_RANGE_MAX`: both ends packed as by `MAKELONG`.
pub fn progress_range_lparam() -> (r: isize)
    ensures
        r == make_long_spec(0, PROGRESS_RANGE_MAX),
{
    let low: u32 = 0;
    let high: u32 = PROGRESS_RANGE_MAX as u32;
    assert(low | (high << 16u32) == 1000 * 0x10000) by (bit_vector)
        requires
            low == 0,
            high == 1000,
    ;
    ((low | (high << 16u32)) as i32) as isize
}

} // verus!
