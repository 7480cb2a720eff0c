//! Native message and progress dialogs: the decisions behind them.
//!
//! The library builds the argument lists handed to the `kdialog` and `zenity`
//! helpers, reads their exit status, and makes the choices that drive a
//! Windows task dialog (callback replies, result codes, cancellation polls,
//! wide-string encoding). Spawning processes and calling Win32 is left to the
//! caller.
mod error;
mod message;
mod task_dialog;
mod wide;

pub use error::Error;
pub use message::{
    escape_char, escape_pango, escape_pango_entities, exit_status_result, kdialog_args,
    kdialog_args_spec, kdialog_icon, lemma_escape_removes_markup, message_args, message_result,
    program_name, zenity_args, zenity_args_spec, zenity_kind, MessageAlert, MessageConfirm,
    MessageType, Params, UseCommand,
};
pub use wide::{lemma_terminator_unique, str_to_pointer, utf16_of, utf16_units};
pub use task_dialog::{
    cancel_status, failure_text, make_long_spec, progress_range_lparam, task_callback_reply,
    task_dialog_result, CallbackReply, CancelPoll, E_FAIL, E_INVALIDARG, E_OUTOFMEMORY, IDCANCEL,
    PROGRESS_RANGE_MAX, S_FALSE, S_OK, TDN_BUTTON_CLICKED, TDN_CREATED,
};
