use wasm_streams::readable::pipe_options::PipeOptions;
use wasm_streams::readable::sys;

#[test]
fn blank_options_hold_nothing_back() {
    let raw = PipeOptions::<u32>::new().into_raw();
    assert_eq!(raw.prevent_close, None);
    assert_eq!(raw.prevent_cancel, None);
    assert_eq!(raw.prevent_abort, None);
    assert_eq!(raw.signal, None);
}

#[test]
fn default_options_are_blank() {
    let raw = PipeOptions::<u32>::default().into_raw();
    assert_eq!(raw.prevent_close, None);
    assert_eq!(raw.prevent_cancel, None);
    assert_eq!(raw.prevent_abort, None);
    assert_eq!(raw.signal, None);
}

#[test]
fn each_flag_is_set_by_itself() {
    let mut options = PipeOptions::<u32>::new();
    options.prevent_close(true);
    let raw = options.into_raw();
    assert_eq!((raw.prevent_close, raw.prevent_cancel, raw.prevent_abort), (Some(true), None, None));

    let mut options = PipeOptions::<u32>::new();
    options.prevent_cancel(true);
    let raw = options.into_raw();
    assert_eq!((raw.prevent_close, raw.prevent_cancel, raw.prevent_abort), (None, Some(true), None));

    let mut options = PipeOptions::<u32>::new();
    options.prevent_abort(false);
    let raw = options.into_raw();
    assert_eq!((raw.prevent_close, raw.prevent_cancel, raw.prevent_abort), (None, None, Some(false)));
}

#[test]
fn setters_chain() {
    let mut options = PipeOptions::new();
    options.prevent_close(true).prevent_cancel(false).prevent_abort(true).signal("stop");
    let raw = options.into_raw();
    assert_eq!(raw.prevent_close, Some(true));
    assert_eq!(raw.prevent_cancel, Some(false));
    assert_eq!(raw.prevent_abort, Some(true));
    assert_eq!(raw.signal, Some("stop"));
}

#[test]
fn later_setting_wins() {
    let mut options = PipeOptions::<u32>::new();
    options.prevent_close(true).prevent_close(false).signal(1).signal(2);
    let raw = options.into_raw();
    assert_eq!(raw.prevent_close, Some(false));
    assert_eq!(raw.signal, Some(2));
}

#[test]
fn raw_options_round_trip() {
    let raw = sys::PipeOptions {
        prevent_close: Some(true),
        prevent_cancel: None,
        prevent_abort: Some(false),
        signal: Some('s'),
    };
    let mut options = PipeOptions::from_raw(raw);
    options.prevent_cancel(true);
    let raw = options.into_raw();
    assert_eq!(raw.prevent_close, Some(true));
    assert_eq!(raw.prevent_cancel, Some(true));
    assert_eq!(raw.prevent_abort, Some(false));
    assert_eq!(raw.signal, Some('s'));
}
