use native_dialog::{
    cancel_status, progress_range_lparam, str_to_pointer, task_callback_reply,
    task_dialog_result, CallbackReply, CancelPoll, Error, E_FAIL, E_INVALIDARG, E_OUTOFMEMORY,
    IDCANCEL, S_FALSE, S_OK, TDN_BUTTON_CLICKED, TDN_CREATED,
};

#[test]
fn callback_signals_creation() {
    assert_eq!(
        task_callback_reply(TDN_CREATED, 0),
        CallbackReply { signal_created: true, code: S_OK }
    );
}

#[test]
fn callback_closes_only_on_cancel() {
    assert_eq!(task_callback_reply(TDN_BUTTON_CLICKED, IDCANCEL as usize).code, S_OK);
    assert_eq!(task_callback_reply(TDN_BUTTON_CLICKED, 1).code, S_FALSE);
    assert!(!task_callback_reply(TDN_BUTTON_CLICKED, 1).signal_created);
}

#[test]
fn callback_acknowledges_other_notifications() {
    assert_eq!(
        task_callback_reply(4, 7),
        CallbackReply { signal_created: false, code: S_OK }
    );
}

#[test]
fn dialog_result_codes() {
    assert_eq!(task_dialog_result(S_OK, IDCANCEL), Ok(true));
    assert_eq!(task_dialog_result(S_OK, 1), Ok(false));
    assert_eq!(
        task_dialog_result(E_OUTOFMEMORY, 0),
        Err(Error::ImplementationError("Out of memory".to_string()))
    );
    assert_eq!(
        task_dialog_result(E_INVALIDARG, 0),
        Err(Error::ImplementationError("Invalid argument".to_string()))
    );
    assert_eq!(
        task_dialog_result(E_FAIL, 0),
        Err(Error::ImplementationError("Generic failure opening task dialog".to_string()))
    );
    assert_eq!(
        task_dialog_result(S_FALSE, 0),
        Err(Error::ImplementationError("Unknown error".to_string()))
    );
}

#[test]
fn hresult_constants_match_windows() {
    assert_eq!(E_OUTOFMEMORY as u32, 0x8007000E);
    assert_eq!(E_INVALIDARG as u32, 0x80070057);
    assert_eq!(E_FAIL as u32, 0x80004005);
}

#[test]
fn cancel_polls() {
    assert_eq!(cancel_status(CancelPoll::Received(true)), Ok(true));
    assert_eq!(cancel_status(CancelPoll::Received(false)), Ok(false));
    assert_eq!(cancel_status(CancelPoll::Empty), Ok(false));
    assert_eq!(
        cancel_status(CancelPoll::Disconnected),
        Err(Error::ImplementationError("Window disconnected".to_string()))
    );
}

#[test]
fn progress_range_packs_words() {
    assert_eq!(progress_range_lparam(), 1000 << 16);
}

#[test]
fn wide_string_is_terminated() {
    assert_eq!(str_to_pointer(""), vec![0u16]);
    assert_eq!(str_to_pointer("Hi"), vec![0x48u16, 0x69, 0]);
}

#[test]
fn wide_string_uses_surrogates() {
    assert_eq!(str_to_pointer("é😀"), vec![0xE9u16, 0xD83D, 0xDE00, 0]);
    let w = str_to_pointer("copy ©");
    assert_eq!(w.iter().filter(|u| **u == 0).count(), 1);
}
