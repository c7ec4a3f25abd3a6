//! Shell-side state and the rules that drive it: text-field editing, focus
//! navigation, protocol selection, log scrolling, and the start/stop toggle.
//!
//! Keystrokes arrive already reduced to [`Key`] commands; the surrounding
//! binary maps its terminal events onto them and renders widgets from the
//! plain values computed here.

use vstd::prelude::*;
use vstd::string::StringExecFns;

use crate::config::{Protocol, RunConfig};
use crate::logbuf::LOG_CAPACITY;
use crate::numtext::{
    dec_value, is_decimal_text, is_digit_char, parse_u64_or, parse_usize_or, spec_decimal,
    usize_to_decimal,
};
use crate::state::{logged, start_message, AppState, Snapshot};

verus! {

/// A keyboard command, one per keystroke the shell reacts to.
#[derive(Clone, Copy, PartialEq, Eq, Structural, Debug)]
pub enum Key {
    Char(char),
    Tab,
    BackTab,
    Enter,
    Esc,
    Backspace,
    Left,
    Right,
    Up,
    Down,
    PageUp,
    PageDown,
    Home,
    End,
    /// Any other keystroke; always ignored.
    Other,
}

/// Which text field, if any, keystrokes currently edit.
#[derive(Clone, Copy, PartialEq, Eq, Structural, Debug)]
pub enum InputMode {
    Normal,
    EditingDstUrl,
    EditingDelay,
    EditingHeaderSize,
    EditingIteration,
}

/// How many items the focus cycles through: the four text fields, the
/// protocol selector, the run button, and the log area.
pub const FOCUS_ITEMS: usize = 7;

/// The shell's own state: the text fields being edited, the focus, and the
/// copy of status and log it renders from.
pub struct App {
    pub dst_url: String,
    pub delay_ms: String,
    pub header_size_kb: String,
    pub iteration: String,
    /// Selected protocol: an index into `protocols`.
    pub protocol_index: usize,
    pub protocols: Vec<&'static str>,
    pub input_mode: InputMode,
    /// The log copy read from the last snapshot.
    pub logs: Vec<String>,
    /// Lines scrolled up from the log tail.
    pub log_scroll: usize,
    /// The `running` flag read from the last snapshot.
    pub running: bool,
    /// The focused item, in `0..FOCUS_ITEMS`.
    pub focused_item: usize,
}

impl App {
    /// Focus and selection stay within their ranges.
    pub open spec fn wf(&self) -> bool {
        &&& self.focused_item < FOCUS_ITEMS
        &&& self.protocols@.len() == 2
        &&& self.protocol_index < 2
    }

    /// The protocol mode the selector currently points at.
    pub open spec fn spec_selected_protocol(&self) -> Protocol {
        if self.protocol_index == 0 {
            Protocol::Http1
        } else {
            Protocol::Http2
        }
    }

    pub fn selected_protocol(&self) -> (p: Protocol)
        requires
            self.wf(),
        ensures
            p == self.spec_selected_protocol(),
    {
        if self.protocol_index == 0 {
            Protocol::Http1
        } else {
            Protocol::Http2
        }
    }

    /// Copies the latest consistent snapshot into the fields the renderer
    /// reads. Everything else is untouched.
    pub fn refresh_from(&mut self, snap: Snapshot)
        ensures
            *final(self) == (App {
                logs: final(self).logs,
                running: snap.running,
                ..*old(self)
            }),
            final(self).logs.deep_view() == snap.logs.deep_view(),
    {
        self.logs = snap.logs;
        self.running = snap.running;
    }
}

impl Default for App {
    /// The state the shell starts with: empty address, the documented
    /// defaults as field text, HTTP/1.1 selected, nothing running.
    fn default() -> (r: Self)
        ensures
            r.wf(),
            r.dst_url@ == Seq::<char>::empty(),
            r.delay_ms@ == "100"@,
            r.header_size_kb@ == "1"@,
            r.iteration@ == "1"@,
            r.protocol_index == 0,
            r.protocols@.len() == 2,
            r.protocols@[0]@ == "HTTP/1.1"@,
            r.protocols@[1]@ == "HTTP/2"@,
            r.input_mode == InputMode::Normal,
            r.logs@ == Seq::<String>::empty(),
            r.log_scroll == 0,
            !r.running,
            r.focused_item == 0,
    {
        Self {
            dst_url: String::new(),
            delay_ms: "100".to_owned(),
            header_size_kb: "1".to_owned(),
            iteration: "1".to_owned(),
            protocol_index: 0,
            protocols: vec!["HTTP/1.1", "HTTP/2"],
            input_mode: InputMode::Normal,
            logs: Vec::new(),
            log_scroll: 0,
            running: false,
            focused_item: 0,
        }
    }
}

/// Relies on std's `String::push`: appends exactly one character.
#[verifier::external_body]
fn string_push(s: &mut String, c: char)
    ensures
        final(s)@ == old(s)@.push(c),
{
    s.push(c);
}

/// Relies on std's `String::pop`: removes and returns the last character of
/// a non-empty string, and leaves an empty one alone.
#[verifier::external_body]
fn string_pop(s: &mut String) -> (r: Option<char>)
    ensures
        old(s)@.len() == 0 ==> final(s)@ == old(s)@ && r is None,
        old(s)@.len() > 0 ==> final(s)@ == old(s)@.drop_last() && r == Some(old(s)@.last()),
{
    s.pop()
}

/// What free-text editing makes of `s`: a character is appended, backspace
/// drops the last character, anything else leaves the text alone.
pub open spec fn edited_text(s: Seq<char>, key: Key) -> Seq<char> {
    match key {
        Key::Char(c) => s.push(c),
        Key::Backspace => if s.len() > 0 {
            s.drop_last()
        } else {
            s
        },
        _ => s,
    }
}

/// As `edited_text`, but only decimal digits are accepted.
pub open spec fn edited_num_text(s: Seq<char>, key: Key) -> Seq<char> {
    match key {
        Key::Char(c) => if is_digit_char(c) {
            s.push(c)
        } else {
            s
        },
        Key::Backspace => if s.len() > 0 {
            s.drop_last()
        } else {
            s
        },
        _ => s,
    }
}

/// Free-text field editing: append the typed character, or drop the last on
/// backspace.
pub fn input_handling(input: &mut String, key: Key)
    ensures
        final(input)@ == edited_text(old(input)@, key),
{
    match key {
        Key::Char(c) => {
            string_push(input, c);
        },
        Key::Backspace => {
            let _ = string_pop(input);
        },
        _ => {},
    }
}

/// Numeric field editing: as `input_handling`, but characters other than
/// decimal digits are ignored.
pub fn input_handling_num(input: &mut String, key: Key)
    ensures
        final(input)@ == edited_num_text(old(input)@, key),
{
    match key {
        Key::Char(c) => {
            let code = c as u32;
            if 48 <= code && code <= 57 {
                string_push(input, c);
            }
        },
        Key::Backspace => {
            let _ = string_pop(input);
        },
        _ => {},
    }
}

/// The content of one input-field widget, as plain values: the field's text
/// chosen by `index`, and whether border and text are highlighted.
pub struct InputWidget {
    pub text: String,
    pub title: String,
    /// The widget's field has the focus.
    pub border_highlight: bool,
    /// The widget's field is the one being edited.
    pub text_highlight: bool,
}

/// The text field `index` selects for display: the address, the delay, the
/// header size, or the iteration count.
pub open spec fn field_text(app: App, index: usize) -> Seq<char> {
    if index == 0 {
        app.dst_url@
    } else if index == 1 {
        app.delay_ms@
    } else if index == 2 {
        app.header_size_kb@
    } else {
        app.iteration@
    }
}

/// What one input-field widget shows: the selected field's text, the given
/// title, a highlighted border exactly when the field has the focus, and
/// highlighted text exactly when it is being edited.
pub fn input_widget_builder(app: &App, index: usize, title: &str, mode: InputMode) -> (w:
    InputWidget)
    ensures
        w.text@ == field_text(*app, index),
        w.title@ == title@,
        w.border_highlight == (app.focused_item == index),
        w.text_highlight == (app.input_mode == mode),
{
    let text = if index == 0 {
        self_clone(&app.dst_url)
    } else if index == 1 {
        self_clone(&app.delay_ms)
    } else if index == 2 {
        self_clone(&app.header_size_kb)
    } else {
        self_clone(&app.iteration)
    };
    InputWidget {
        text,
        title: title.to_owned(),
        border_highlight: app.focused_item == index,
        text_highlight: app.input_mode == mode,
    }
}

fn self_clone(s: &String) -> (r: String)
    ensures
        r@ == s@,
{
    s.clone()
}

/// The slice of the log that fits on screen: the last `visible_height` lines,
/// shifted up by the scroll position, clamped at the top.
pub fn visible_log_range(logs_count: usize, visible_height: usize, log_scroll: usize) -> (r: (
    usize,
    usize,
))
    ensures
        r.1 == logs_count,
        logs_count == 0 ==> r.0 == 0,
        logs_count > 0 ==> r.0 == logs_count.saturating_sub(visible_height).saturating_sub(
            log_scroll,
        ),
        r.0 <= r.1,
{
    let start = if logs_count > 0 {
        logs_count.saturating_sub(visible_height).saturating_sub(log_scroll)
    } else {
        0
    };
    (start, logs_count)
}

/// The log panel's title: scroll position over last line index while the log
/// area has the focus, plain otherwise.
pub fn log_title(focused: bool, log_scroll: usize, logs_count: usize) -> (r: String)
    ensures
        focused ==> r@ == "Log ["@ + spec_decimal(log_scroll as nat) + "/"@ + spec_decimal(
            logs_count.saturating_sub(1) as nat,
        ) + "]"@,
        !focused ==> r@ == "Log"@,
{
    if focused {
        let mut r = "Log [".to_owned();
        r.append(usize_to_decimal(log_scroll).as_str());
        r.append("/");
        r.append(usize_to_decimal(logs_count.saturating_sub(1)).as_str());
        r.append("]");
        r
    } else {
        "Log".to_owned()
    }
}

/// Whether the shell should exit after a command.
pub enum CommandOutcome {
    Quit,
    Continue,
}

/// The delay a run started now would use: the field's value, or the
/// documented 100ms default on non-numeric input.
pub open spec fn desired_delay_ms(app: App) -> u64 {
    if is_decimal_text(app.delay_ms@) && dec_value(app.delay_ms@) <= u64::MAX {
        dec_value(app.delay_ms@) as u64
    } else {
        100
    }
}

/// The payload size a run started now would use; 1kb default.
pub open spec fn desired_header_size_kb(app: App) -> usize {
    if is_decimal_text(app.header_size_kb@) && dec_value(app.header_size_kb@) <= usize::MAX {
        dec_value(app.header_size_kb@) as usize
    } else {
        1
    }
}

/// The iteration count a run started now would use; default 1.
pub open spec fn desired_iteration(app: App) -> usize {
    if is_decimal_text(app.iteration@) && dec_value(app.iteration@) <= usize::MAX {
        dec_value(app.iteration@) as usize
    } else {
        1
    }
}

/// The toggle either starts a run from the fields as they stand or stops the
/// active one: exactly what `toggle_run` promises below.
pub open spec fn toggled(o_app: App, o_state: AppState, n_state: AppState) -> bool {
    if o_state.running {
        &&& !n_state.running
        &&& n_state.completed_iterations == o_state.completed_iterations
        &&& n_state.config == o_state.config
        &&& logged(o_state.logs@, n_state.logs@, "Process Stopped by user"@)
    } else {
        &&& n_state.running
        &&& n_state.completed_iterations == 0
        &&& n_state.config.dst_url@ == o_app.dst_url@
        &&& n_state.config.delay_ms == desired_delay_ms(o_app)
        &&& n_state.config.header_size_kb == desired_header_size_kb(o_app)
        &&& n_state.config.protocol == o_app.spec_selected_protocol()
        &&& n_state.config.iteration == desired_iteration(o_app)
        &&& logged(
            o_state.logs@,
            n_state.logs@,
            start_message(
                desired_delay_ms(o_app),
                desired_header_size_kb(o_app),
                o_app.spec_selected_protocol(),
                desired_iteration(o_app),
            ),
        )
    }
}

/// The run button: stop the active run, or start one from the current field
/// values, substituting the documented defaults for non-numeric input.
fn toggle_run(app: &App, state: &mut AppState)
    requires
        app.wf(),
        old(state).inv(),
    ensures
        final(state).inv(),
        toggled(*app, *old(state), *final(state)),
{
    if state.running {
        state.stop();
    } else {
        let config = RunConfig {
            dst_url: self_clone(&app.dst_url),
            delay_ms: parse_u64_or(app.delay_ms.as_str(), 100),
            header_size_kb: parse_usize_or(app.header_size_kb.as_str(), 1),
            protocol: app.selected_protocol(),
            iteration: parse_usize_or(app.iteration.as_str(), 1),
        };
        state.start(config);
    }
}

/// Keys that act regardless of the input mode; everything else is editing
/// or focus-local.
pub open spec fn is_global_key(key: Key) -> bool {
    ||| key == Key::Char('q')
    ||| key is Tab
    ||| key is BackTab
    ||| key is Enter
    ||| key is Esc
}

/// The scroll position after a key acts on the log area.
pub open spec fn scrolled(log_scroll: usize, logs_count: usize, key: Key) -> int {
    let top: int = if logs_count > 0 {
        logs_count - 1
    } else {
        0
    };
    if key == Key::Down || key == Key::Char('j') {
        if log_scroll < top {
            log_scroll + 1
        } else {
            log_scroll as int
        }
    } else if key == Key::Up || key == Key::Char('k') {
        if log_scroll > 0 {
            log_scroll - 1
        } else {
            0
        }
    } else if key == Key::PageDown {
        if log_scroll + 10 <= top {
            log_scroll + 10
        } else {
            top
        }
    } else if key == Key::PageUp {
        if log_scroll >= 10 {
            log_scroll - 10
        } else {
            0
        }
    } else if key == Key::Home {
        0
    } else if key == Key::End {
        top
    } else {
        log_scroll as int
    }
}

/// One keyboard command against the shell state and the shared store,
/// exactly as the shell's main loop reacts to it: `q` always quits after
/// silently halting dispatch; tab keys move the focus; enter begins editing,
/// rotates the protocol, or toggles the run; escape leaves editing; and any
/// other key edits the focused field, rotates the selection, toggles the
/// run, or scrolls the log, according to the mode and the focus.
pub fn handle_command(app: &mut App, state: &mut AppState, key: Key) -> (r: CommandOutcome)
    requires
        old(app).wf(),
        old(state).inv(),
    ensures
        final(app).wf(),
        final(state).inv(),
        // `q` quits; dispatch is halted without a log line.
        key == Key::Char('q') ==> {
            &&& r is Quit
            &&& *final(app) == *old(app)
            &&& *final(state) == (AppState { running: false, ..*old(state) })
        },
        key != Key::Char('q') ==> r is Continue,
        // the focus moves forward or back, and landing on an input item
        // leaves editing
        key is Tab || key is BackTab ==> {
            &&& *final(state) == *old(state)
            &&& *final(app) == (App {
                focused_item: final(app).focused_item,
                input_mode: final(app).input_mode,
                ..*old(app)
            })
            &&& final(app).focused_item == (if key is Tab {
                (old(app).focused_item + 1) % FOCUS_ITEMS as int
            } else {
                (old(app).focused_item + FOCUS_ITEMS - 1) % FOCUS_ITEMS as int
            })
            &&& final(app).input_mode == (if final(app).focused_item <= 4 {
                InputMode::Normal
            } else {
                old(app).input_mode
            })
        },
        // enter: begin editing the focused field, rotate the protocol, or
        // toggle the run
        key is Enter ==> {
            &&& *final(app) == (App {
                input_mode: final(app).input_mode,
                protocol_index: final(app).protocol_index,
                ..*old(app)
            })
            &&& final(app).input_mode == (match old(app).focused_item {
                0 => InputMode::EditingDstUrl,
                1 => InputMode::EditingDelay,
                2 => InputMode::EditingHeaderSize,
                3 => InputMode::EditingIteration,
                _ => old(app).input_mode,
            })
            &&& final(app).protocol_index == (if old(app).focused_item == 4 {
                (old(app).protocol_index + 1) % 2
            } else {
                old(app).protocol_index as int
            })
            &&& old(app).focused_item == 5 ==> toggled(*old(app), *old(state), *final(state))
            &&& old(app).focused_item != 5 ==> *final(state) == *old(state)
        },
        key is Esc ==> {
            &&& *final(state) == *old(state)
            &&& *final(app) == (App { input_mode: InputMode::Normal, ..*old(app) })
        },
        // every other key goes to the field being edited, if any
        !is_global_key(key) ==> {
            &&& old(app).input_mode == InputMode::EditingDstUrl ==> {
                &&& *final(state) == *old(state)
                &&& *final(app) == (App { dst_url: final(app).dst_url, ..*old(app) })
                &&& final(app).dst_url@ == edited_text(old(app).dst_url@, key)
            }
            &&& old(app).input_mode == InputMode::EditingDelay ==> {
                &&& *final(state) == *old(state)
                &&& *final(app) == (App { delay_ms: final(app).delay_ms, ..*old(app) })
                &&& final(app).delay_ms@ == edited_num_text(old(app).delay_ms@, key)
            }
            &&& old(app).input_mode == InputMode::EditingHeaderSize ==> {
                &&& *final(state) == *old(state)
                &&& *final(app) == (App {
                    header_size_kb: final(app).header_size_kb,
                    ..*old(app)
                })
                &&& final(app).header_size_kb@ == edited_num_text(
                    old(app).header_size_kb@,
                    key,
                )
            }
            &&& old(app).input_mode == InputMode::EditingIteration ==> {
                &&& *final(state) == *old(state)
                &&& *final(app) == (App { iteration: final(app).iteration, ..*old(app) })
                &&& final(app).iteration@ == edited_num_text(old(app).iteration@, key)
            }
            // outside editing, the key acts on the focused item
            &&& old(app).input_mode == InputMode::Normal ==> {
                &&& old(app).focused_item == 4 ==> {
                    &&& *final(state) == *old(state)
                    &&& *final(app) == (App {
                        protocol_index: final(app).protocol_index,
                        ..*old(app)
                    })
                    &&& final(app).protocol_index == (if key == Key::Right || key == Key::Char(
                        'l',
                    ) || key == Key::Left || key == Key::Char('h') {
                        (old(app).protocol_index + 1) % 2
                    } else {
                        old(app).protocol_index as int
                    })
                }
                &&& old(app).focused_item == 5 ==> {
                    &&& *final(app) == *old(app)
                    &&& key == Key::Char(' ') ==> toggled(*old(app), *old(state), *final(state))
                    &&& key != Key::Char(' ') ==> *final(state) == *old(state)
                }
                &&& old(app).focused_item == 6 ==> {
                    &&& *final(state) == *old(state)
                    &&& *final(app) == (App { log_scroll: final(app).log_scroll, ..*old(app) })
                    &&& final(app).log_scroll == scrolled(
                        old(app).log_scroll,
                        old(app).logs@.len() as usize,
                        key,
                    )
                }
                &&& (old(app).focused_item != 4 && old(app).focused_item != 5 && old(
                    app,
                ).focused_item != 6) ==> {
                    &&& *final(state) == *old(state)
                    &&& *final(app) == *old(app)
                }
            }
        },
{
    match key {
        Key::Char('q') => {
            state.running = false;
            return CommandOutcome::Quit;
        },
        Key::Tab => {
            app.focused_item = (app.focused_item + 1) % FOCUS_ITEMS;
            if app.focused_item <= 4 {
                app.input_mode = InputMode::Normal;
            }
        },
        Key::BackTab => {
            app.focused_item = (app.focused_item + (FOCUS_ITEMS - 1)) % FOCUS_ITEMS;
            if app.focused_item <= 4 {
                app.input_mode = InputMode::Normal;
            }
        },
        Key::Enter => {
            match app.focused_item {
                0 => {
                    app.input_mode = InputMode::EditingDstUrl;
                },
                1 => {
                    app.input_mode = InputMode::EditingDelay;
                },
                2 => {
                    app.input_mode = InputMode::EditingHeaderSize;
                },
                3 => {
                    app.input_mode = InputMode::EditingIteration;
                },
                4 => {
                    app.protocol_index = (app.protocol_index + 1) % 2;
                },
                5 => {
                    toggle_run(app, state);
                },
                _ => {},
            }
        },
        Key::Esc => {
            app.input_mode = InputMode::Normal;
        },
        _ => {
            match app.input_mode {
                InputMode::EditingDstUrl => {
                    input_handling(&mut app.dst_url, key);
                },
                InputMode::EditingDelay => {
                    input_handling_num(&mut app.delay_ms, key);
                },
                InputMode::EditingHeaderSize => {
                    input_handling_num(&mut app.header_size_kb, key);
                },
                InputMode::EditingIteration => {
                    input_handling_num(&mut app.iteration, key);
                },
                InputMode::Normal => {
                    match app.focused_item {
                        4 => {
                            if matches!(key, Key::Right | Key::Char('l')) {
                                app.protocol_index = (app.protocol_index + 1) % 2;
                            } else if matches!(key, Key::Left | Key::Char('h')) {
                                app.protocol_index = (app.protocol_index + 1) % 2;
                            }
                        },
                        5 => {
                            if matches!(key, Key::Char(' ')) {
                                toggle_run(app, state);
                            }
                        },
                        6 => {
                            let logs_count = app.logs.len();
                            let top = logs_count.saturating_sub(1);
                            if matches!(key, Key::Down | Key::Char('j')) {
                                if app.log_scroll < top {
                                    app.log_scroll = app.log_scroll + 1;
                                }
                            } else if matches!(key, Key::Up | Key::Char('k')) {
                                if app.log_scroll > 0 {
                                    app.log_scroll = app.log_scroll - 1;
                                }
                            } else if matches!(key, Key::PageDown) {
                                let bumped = app.log_scroll.saturating_add(10);
                                app.log_scroll = if bumped <= top {
                                    bumped
                                } else {
                                    top
                                };
                            } else if matches!(key, Key::PageUp) {
                                app.log_scroll = app.log_scroll.saturating_sub(10);
                            } else if matches!(key, Key::Home) {
                                app.log_scroll = 0;
                            } else if matches!(key, Key::End) {
                                app.log_scroll = top;
                            }
                        },
                        _ => {},
                    }
                },
            }
        },
    }
    CommandOutcome::Continue
}

} // verus!
