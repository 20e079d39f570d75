use vstd::prelude::*;

verus! {

/// Number of event lines one page of scrolling moves, and the number of
/// events the log keeps in view at its bottom.
pub const EVENT_PAGE: usize = 10;

/// Rows of the screen above the event log (header and statistics).
pub const EVENTS_TOP_ROW: u16 = 13;

/// Rows of the screen below the event log (controls).
pub const CONTROLS_HEIGHT: u16 = 4;

/// Draws the simulation screen; holds no state of its own.
pub struct UIRenderer;

impl UIRenderer {
    pub fn new() -> (r: Self)
        ensures
            r == UIRenderer,
    {
        UIRenderer
    }
}

/// The first and one-past-last event shown in an event log panel of
/// `area_height` rows (two of which are border), scrolled to `scroll_offset`.
pub open spec fn spec_event_window(scroll_offset: nat, events_len: nat, area_height: nat) -> (nat, nat) {
    let visible: nat = if area_height >= 2 { (area_height - 2) as nat } else { 0 };
    let last_start: nat = if events_len >= visible { (events_len - visible) as nat } else { 0 };
    let start: nat = if scroll_offset < last_start { scroll_offset } else { last_start };
    let end: nat = if start + visible < events_len { start + visible } else { events_len };
    (start, end)
}

/// Which events an event log panel shows: it starts at the scroll offset but
/// never scrolls past the point where the last events fill the panel.
pub fn event_window(scroll_offset: usize, events_len: usize, area_height: u16) -> (window: (usize, usize))
    ensures
        (window.0 as nat, window.1 as nat) == spec_event_window(
            scroll_offset as nat,
            events_len as nat,
            area_height as nat,
        ),
        window.0 <= window.1 <= events_len,
        window.1 - window.0 <= area_height,
        window.0 <= scroll_offset,
        window.0 == scroll_offset || window.1 == events_len,
        area_height >= 2 ==> window.1 - window.0 == if area_height - 2 <= events_len - window.0 {
            area_height - 2
        } else {
            events_len - window.0
        },
        area_height < 2 ==> window.0 == window.1,
{
    let visible = area_height.saturating_sub(2) as usize;
    let start = if scroll_offset < events_len.saturating_sub(visible) {
        scroll_offset
    } else {
        events_len.saturating_sub(visible)
    };
    let end = if start + visible < events_len { start + visible } else { events_len };
    (start, end)
}

/// The largest scroll offset of an event log of `events_len` events.
pub open spec fn spec_max_scroll_offset(events_len: nat) -> nat {
    if events_len > EVENT_PAGE { (events_len - EVENT_PAGE) as nat } else { 0 }
}

/// The largest scroll offset of an event log: the last `EVENT_PAGE` events
/// stay in view.
pub fn max_scroll_offset(events_len: usize) -> (m: usize)
    ensures
        m == spec_max_scroll_offset(events_len as nat),
{
    if events_len > EVENT_PAGE { events_len - EVENT_PAGE } else { 0 }
}

/// A key as the simulation screen understands it.
#[derive(Clone, Copy, Debug, PartialEq, Eq, Structural)]
pub enum AppKey {
    Char(char),
    Up,
    Down,
    PageUp,
    PageDown,
    Home,
    End,
    Other,
}

/// A mouse button.
#[derive(Clone, Copy, Debug, PartialEq, Eq, Structural)]
pub enum Button {
    Left,
    Right,
    Middle,
}

/// What the simulation screen does in answer to an input.
#[derive(Clone, Copy, Debug, PartialEq, Eq, Structural)]
pub enum Command {
    /// Leave the simulator.
    Quit,
    /// Pause a running simulation, resume a paused one.
    TogglePause,
    /// Restart with a fresh seed; the event log scrolls back to the top
    /// when `scroll_to_top` holds.
    Reset { scroll_to_top: bool },
    /// Scroll the event log to the given offset.
    Scroll(usize),
    /// Nothing happens.
    Nothing,
}

/// The command that a key produces, with the event log scrolled at `offset`
/// over `events_len` events.
pub open spec fn spec_key_command(key: AppKey, offset: nat, events_len: nat) -> Command {
    let max = spec_max_scroll_offset(events_len);
    match key {
        AppKey::Char(c) => if c == 'q' {
            Command::Quit
        } else if c == 'p' {
            Command::TogglePause
        } else if c == 'r' {
            Command::Reset { scroll_to_top: false }
        } else {
            Command::Nothing
        },
        AppKey::Up => Command::Scroll(if offset > 0 { (offset - 1) as usize } else { offset as usize }),
        AppKey::Down => Command::Scroll(if offset < max { (offset + 1) as usize } else { offset as usize }),
        AppKey::PageUp => Command::Scroll(if offset >= EVENT_PAGE { (offset - EVENT_PAGE) as usize } else { 0 }),
        AppKey::PageDown => Command::Scroll(
            if offset + EVENT_PAGE < max { (offset + EVENT_PAGE) as usize } else { max as usize },
        ),
        AppKey::Home => Command::Scroll(0),
        AppKey::End => Command::Scroll(max as usize),
        AppKey::Other => Command::Nothing,
    }
}

/// Decides what a key press does: `q` quits, `p` pauses or resumes, `r`
/// resets, and the arrow, page, home and end keys scroll the event log.
pub fn key_command(key: AppKey, offset: usize, events_len: usize) -> (command: Command)
    requires
        key == AppKey::PageDown ==> offset + EVENT_PAGE <= usize::MAX,
    ensures
        command == spec_key_command(key, offset as nat, events_len as nat),
        key == AppKey::Up && offset > 0 ==> command == Command::Scroll((offset - 1) as usize),
        key == AppKey::Up && offset == 0 ==> command == Command::Scroll(0),
        key == AppKey::Down && offset + EVENT_PAGE < events_len ==> command == Command::Scroll((offset + 1) as usize),
        key == AppKey::Down && offset + EVENT_PAGE >= events_len ==> command == Command::Scroll(offset),
        key == AppKey::Home ==> command == Command::Scroll(0),
        key == AppKey::End ==> command == Command::Scroll(
            if events_len > EVENT_PAGE { (events_len - EVENT_PAGE) as usize } else { 0 },
        ),
        key == AppKey::Char('q') ==> command == Command::Quit,
        key == AppKey::Char('p') ==> command == Command::TogglePause,
        key == AppKey::Char('r') ==> command == (Command::Reset { scroll_to_top: false }),
{
    let max = max_scroll_offset(events_len);
    match key {
        AppKey::Char(c) => {
            if c == 'q' {
                Command::Quit
            } else if c == 'p' {
                Command::TogglePause
            } else if c == 'r' {
                Command::Reset { scroll_to_top: false }
            } else {
                Command::Nothing
            }
        },
        AppKey::Up => Command::Scroll(if offset > 0 { offset - 1 } else { offset }),
        AppKey::Down => Command::Scroll(if offset < max { offset + 1 } else { offset }),
        AppKey::PageUp => Command::Scroll(offset.saturating_sub(EVENT_PAGE)),
        AppKey::PageDown => {
            let target = offset + EVENT_PAGE;
            Command::Scroll(if target < max { target } else { max })
        },
        AppKey::Home => Command::Scroll(0),
        AppKey::End => Command::Scroll(max),
        AppKey::Other => Command::Nothing,
    }
}

/// The command that a click of `button` on row `row` of a screen of `height`
/// rows produces, with the event log scrolled at `offset` over `events_len`
/// events.
pub open spec fn spec_click_command(button: Button, row: nat, height: nat, offset: nat, events_len: nat) -> Command {
    let events_end: nat = if height >= CONTROLS_HEIGHT { (height - CONTROLS_HEIGHT) as nat } else { 0 };
    match button {
        Button::Left => if EVENTS_TOP_ROW <= row && row < events_end {
            if events_len == 0 {
                Command::Nothing
            } else {
                let target: nat = (row - EVENTS_TOP_ROW) as nat + offset;
                let target: nat = if target > usize::MAX { usize::MAX as nat } else { target };
                let max: nat = if events_len >= EVENT_PAGE { (events_len - EVENT_PAGE) as nat } else { 0 };
                Command::Scroll(if target < max { target as usize } else { max as usize })
            }
        } else if row >= events_end {
            Command::TogglePause
        } else {
            Command::Nothing
        },
        Button::Right => Command::Quit,
        Button::Middle => Command::Reset { scroll_to_top: true },
    }
}

/// Decides what a mouse click does: a left click in the event log scrolls it
/// to the clicked line, one on the controls pauses or resumes, a right click
/// quits and a middle click resets.
pub fn click_command(button: Button, row: u16, height: u16, offset: usize, events_len: usize) -> (command: Command)
    ensures
        command == spec_click_command(button, row as nat, height as nat, offset as nat, events_len as nat),
{
    let events_end = height.saturating_sub(CONTROLS_HEIGHT);
    match button {
        Button::Left => {
            if row >= EVENTS_TOP_ROW && row < events_end {
                if events_len == 0 {
                    Command::Nothing
                } else {
                    let click_position = (row - EVENTS_TOP_ROW) as usize;
                    let target = click_position.saturating_add(offset);
                    let max = events_len.saturating_sub(EVENT_PAGE);
                    Command::Scroll(if target < max { target } else { max })
                }
            } else if row >= height.saturating_sub(CONTROLS_HEIGHT) {
                Command::TogglePause
            } else {
                Command::Nothing
            }
        },
        Button::Right => Command::Quit,
        Button::Middle => Command::Reset { scroll_to_top: true },
    }
}

/// Keys and mouse clicks never scroll the event log past its last page, and
/// never leave the range it started in.
pub proof fn lemma_scrolling_stays_in_range(
    key: AppKey,
    button: Button,
    row: nat,
    height: nat,
    offset: nat,
    events_len: nat,
)
    requires
        offset <= spec_max_scroll_offset(events_len),
        events_len <= usize::MAX,
    ensures
        spec_key_command(key, offset, events_len) matches Command::Scroll(o) ==> o <= spec_max_scroll_offset(events_len),
        spec_click_command(button, row, height, offset, events_len) matches Command::Scroll(o)
            ==> o <= spec_max_scroll_offset(events_len),
{
}

/// The event log panel shows as many events as fit: every row inside its
/// border holds an event unless the log runs out first, and the window starts
/// at the scroll offset unless that would leave rows empty at the bottom.
pub proof fn lemma_event_window_fills_panel(scroll_offset: nat, events_len: nat, area_height: nat)
    requires
        area_height >= 2,
    ensures
        ({
            let (start, end) = spec_event_window(scroll_offset, events_len, area_height);
            let rows = (area_height - 2) as nat;
            &&& start <= end <= events_len
            &&& end - start == if rows <= events_len - start { rows as int } else { events_len - start }
            &&& start <= scroll_offset
            &&& (start == scroll_offset || end == events_len)
            &&& (events_len >= rows ==> end - start == rows)
        }),
{
}

/// Up and Down move the event log by exactly one line while there is room,
/// and Up undoes Down: from any offset short of the last page, Down then Up
/// comes back to the same offset, and from any positive offset within the
/// log, Up then Down does too.
pub proof fn lemma_arrows_move_one_line(offset: nat, events_len: nat)
    requires
        events_len <= usize::MAX,
        offset + 1 <= usize::MAX,
    ensures
        offset > 0 ==> spec_key_command(AppKey::Up, offset, events_len) == Command::Scroll((offset - 1) as usize),
        offset + EVENT_PAGE < events_len ==> spec_key_command(AppKey::Down, offset, events_len)
            == Command::Scroll((offset + 1) as usize),
        offset + EVENT_PAGE < events_len ==> spec_key_command(AppKey::Up, offset + 1, events_len)
            == Command::Scroll(offset as usize),
        0 < offset && offset + EVENT_PAGE <= events_len ==> spec_key_command(
            AppKey::Down,
            (offset - 1) as nat,
            events_len,
        ) == Command::Scroll(offset as usize),
        spec_key_command(AppKey::Home, offset, events_len) == Command::Scroll(0),
        spec_key_command(AppKey::End, offset, events_len) == Command::Scroll(
            if events_len > EVENT_PAGE { (events_len - EVENT_PAGE) as usize } else { 0 },
        ),
{
}

/// A key as the setup form understands it.
#[derive(Clone, Copy, Debug, PartialEq, Eq, Structural)]
pub enum FormKey {
    Char(char),
    Up,
    Down,
    Enter,
    Tab,
    Backspace,
    Other,
}

/// What the setup form does to the text of the selected field, or to the
/// form as a whole.
#[derive(Clone, Copy, Debug, PartialEq, Eq, Structural)]
pub enum FormEffect {
    /// Nothing beyond the cursor moves.
    Nothing,
    /// Start the simulation with the values entered.
    Start,
    /// Leave the program.
    Quit,
    /// Delete the last character of the selected field.
    DeleteChar,
    /// Append a character to the selected field.
    AppendChar(char),
}

/// Where the form's cursor stands after a key, and what else the key does.
#[derive(Clone, Copy, Debug, PartialEq, Eq, Structural)]
pub struct FormStep {
    pub selected: usize,
    pub editing: bool,
    pub effect: FormEffect,
}

/// Whether a typed character may go into a field: digits always, a decimal
/// point only into fields that are not integers.
pub open spec fn spec_accepts_char(c: char, is_integer: bool) -> bool {
    (('0' <= c && c <= '9') || c == '.') && (!is_integer || c != '.')
}

/// What a key does to the setup form with `field_count` fields, the cursor
/// on field `selected`, in editing mode when `editing` holds.
pub open spec fn spec_form_step(
    selected: nat,
    editing: bool,
    field_count: nat,
    selected_is_integer: bool,
    key: FormKey,
) -> FormStep {
    let stay = FormStep { selected: selected as usize, editing, effect: FormEffect::Nothing };
    match key {
        FormKey::Up => if !editing {
            FormStep { selected: (if selected > 0 { selected - 1 } else { selected as int }) as usize, ..stay }
        } else {
            stay
        },
        FormKey::Down => if !editing {
            FormStep { selected: (if selected + 1 < field_count { selected + 1 } else { selected }) as usize, ..stay }
        } else {
            stay
        },
        FormKey::Enter => FormStep { editing: !editing, ..stay },
        FormKey::Tab => if !editing {
            FormStep { selected: ((selected + 1) % field_count) as usize, ..stay }
        } else {
            stay
        },
        FormKey::Char(c) => if !editing && c == 's' {
            FormStep { effect: FormEffect::Start, ..stay }
        } else if !editing && c == 'q' {
            FormStep { effect: FormEffect::Quit, ..stay }
        } else if editing && spec_accepts_char(c, selected_is_integer) {
            FormStep { effect: FormEffect::AppendChar(c), ..stay }
        } else {
            stay
        },
        FormKey::Backspace => if editing {
            FormStep { effect: FormEffect::DeleteChar, ..stay }
        } else {
            stay
        },
        FormKey::Other => stay,
    }
}

/// Decides what a key does to the setup form: the arrows and Tab move the
/// cursor when not editing, Enter switches editing on and off, `s` starts and
/// `q` quits when not editing, and while editing Backspace deletes and digits
/// (and a point, in fields that are not integers) are typed.
pub fn form_step(
    selected: usize,
    editing: bool,
    field_count: usize,
    selected_is_integer: bool,
    key: FormKey,
) -> (step: FormStep)
    requires
        selected < field_count,
    ensures
        step == spec_form_step(selected as nat, editing, field_count as nat, selected_is_integer, key),
        step.selected < field_count,
        forall|c: char| key == FormKey::Char(c) && editing && '0' <= c <= '9'
            ==> step == (FormStep { selected, editing, effect: FormEffect::AppendChar(c) }),
        key == FormKey::Char('.') && editing ==> step.effect == if selected_is_integer {
            FormEffect::Nothing
        } else {
            FormEffect::AppendChar('.')
        },
        forall|c: char| key == FormKey::Char(c) && editing && !('0' <= c <= '9') && c != '.'
            ==> step.effect == FormEffect::Nothing,
{
    let stay = FormStep { selected, editing, effect: FormEffect::Nothing };
    match key {
        FormKey::Up => {
            if !editing && selected > 0 {
                FormStep { selected: selected - 1, ..stay }
            } else {
                stay
            }
        },
        FormKey::Down => {
            if !editing && selected < field_count - 1 {
                FormStep { selected: selected + 1, ..stay }
            } else {
                stay
            }
        },
        FormKey::Enter => FormStep { editing: !editing, ..stay },
        FormKey::Tab => {
            if !editing {
                FormStep { selected: (selected + 1) % field_count, ..stay }
            } else {
                stay
            }
        },
        FormKey::Char(c) => {
            if !editing && c == 's' {
                FormStep { effect: FormEffect::Start, ..stay }
            } else if !editing && c == 'q' {
                FormStep { effect: FormEffect::Quit, ..stay }
            } else if editing && (('0' <= c && c <= '9') || c == '.') && (!selected_is_integer || c != '.') {
                FormStep { effect: FormEffect::AppendChar(c), ..stay }
            } else {
                stay
            }
        },
        FormKey::Backspace => {
            if editing {
                FormStep { effect: FormEffect::DeleteChar, ..stay }
            } else {
                stay
            }
        },
        FormKey::Other => stay,
    }
}

/// Typing while editing: every decimal digit goes into the selected field,
/// a decimal point goes in exactly when the field is not an integer, and no
/// other character goes in; the cursor does not move.
pub proof fn lemma_typing_digits(
    selected: nat,
    field_count: nat,
    selected_is_integer: bool,
    c: char,
)
    requires
        selected < field_count,
        field_count <= usize::MAX,
    ensures
        ('0' <= c <= '9') ==> spec_form_step(selected, true, field_count, selected_is_integer, FormKey::Char(c))
            == (FormStep { selected: selected as usize, editing: true, effect: FormEffect::AppendChar(c) }),
        c == '.' ==> spec_form_step(selected, true, field_count, selected_is_integer, FormKey::Char(c)).effect
            == if selected_is_integer { FormEffect::Nothing } else { FormEffect::AppendChar('.') },
        !('0' <= c <= '9') && c != '.' ==> spec_form_step(
            selected,
            true,
            field_count,
            selected_is_integer,
            FormKey::Char(c),
        ).effect == FormEffect::Nothing,
{
}

/// The form's cursor never leaves the fields, whatever keys are pressed.
pub proof fn lemma_form_cursor_stays_on_fields(
    selected: nat,
    editing: bool,
    field_count: nat,
    selected_is_integer: bool,
    key: FormKey,
)
    requires
        selected < field_count,
        field_count <= usize::MAX,
    ensures
        spec_form_step(selected, editing, field_count, selected_is_integer, key).selected < field_count,
{
}

} // verus!
