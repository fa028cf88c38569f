use vstd::prelude::*;
use vstd::string::*;
use crate::command::GlCommand;

verus! {

/// A pair of unsigned dimensions, such as a window size in pixels.
#[derive(Clone, Copy, Debug)]
pub struct Vec2 {
    pub x: u32,
    pub y: u32,
}

/// The decimal digits of `d`, where `d < 10`.
pub open spec fn digit_char(d: nat) -> char {
    (('0' as u8) + (d as u8)) as char
}

/// The decimal notation of `n`: no sign, no leading zeros, "0" for zero.
pub open spec fn decimal(n: nat) -> Seq<char>
    decreases n,
{
    if n < 10 {
        seq![digit_char(n)]
    } else {
        decimal(n / 10).push(digit_char(n % 10))
    }
}

/// The text of a size: `{x, y}` with both components in decimal.
pub open spec fn vec2_text(x: nat, y: nat) -> Seq<char> {
    seq!['{'] + decimal(x) + seq![',', ' '] + decimal(y) + seq!['}']
}

/// Relies on `u32`'s `Display` through `ToString::to_string`: plain decimal
/// digits, without sign, padding or leading zeros.
#[verifier::external_body]
fn decimal_string(n: u32) -> (r: String)
    ensures
        r@ == decimal(n as nat),
{
    n.to_string()
}

impl Vec2 {
    pub fn new(x: u32, y: u32) -> (r: Vec2)
        ensures
            r.x == x,
            r.y == y,
    {
        Vec2 { x, y }
    }

    /// Converts a signed pair as a windowing backend reports it; both
    /// components must be non-negative.
    pub fn from(p: (i32, i32)) -> (r: Vec2)
        requires
            p.0 >= 0,
            p.1 >= 0,
        ensures
            r.x == p.0,
            r.y == p.1,
    {
        Vec2 { x: p.0 as u32, y: p.1 as u32 }
    }

    /// The size as text, `{x, y}`.
    pub fn to_string(&self) -> (r: String)
        ensures
            r@ == vec2_text(self.x as nat, self.y as nat),
    {
        let open = "{";
        let sep = ", ";
        let close = "}";
        proof {
            reveal_strlit("{");
            reveal_strlit(", ");
            reveal_strlit("}");
        }
        let r = String::from_str(open).concat(decimal_string(self.x).as_str()).concat(sep).concat(
            decimal_string(self.y).as_str(),
        ).concat(close);
        assert(r@ =~= vec2_text(self.x as nat, self.y as nat));
        r
    }
}

impl PartialEq for Vec2 {
    fn eq(&self, other: &Vec2) -> (r: bool) {
        (self.x == other.x) && (self.y == other.y)
    }
}

impl vstd::std_specs::cmp::PartialEqSpecImpl for Vec2 {
    open spec fn obeys_eq_spec() -> bool {
        true
    }

    open spec fn eq_spec(&self, other: &Vec2) -> bool {
        self.x == other.x && self.y == other.y
    }
}

/// A keyboard key, as far as the handler tells keys apart.
#[derive(Clone, Copy, Debug, PartialEq, Eq, Structural)]
pub enum Key {
    Escape,
    Other,
}

/// What happened to a key.
#[derive(Clone, Copy, Debug, PartialEq, Eq, Structural)]
pub enum Action {
    Press,
    Release,
    Repeat,
}

/// A window or input event as the event source delivers it.
#[derive(Clone, Copy, Debug, PartialEq, Eq, Structural)]
pub enum WindowEvent {
    /// A key changed state.
    Key(Key, Action),
    /// The drawable area changed to `width` by `height` pixels.
    Resize(i32, i32),
    /// The user asked the window to close.
    Close,
    /// Any event the handler does not act on.
    Other,
}

/// The window's size and whether the loop was asked to stop.
#[derive(Clone, Copy, Debug, PartialEq, Eq, Structural)]
pub struct WindowState {
    pub width: u32,
    pub height: u32,
    pub should_close: bool,
}

impl WindowState {
    pub fn new(width: u32, height: u32) -> (r: WindowState)
        ensures
            r == (WindowState { width, height, should_close: false }),
    {
        WindowState { width, height, should_close: false }
    }

    /// The current size.
    pub fn size(&self) -> (r: Vec2)
        ensures
            r.x == self.width,
            r.y == self.height,
    {
        Vec2::new(self.width, self.height)
    }
}

/// Whether an event asks the loop to stop: a close request, or the escape
/// key pressed.
pub open spec fn is_close_request(e: WindowEvent) -> bool {
    match e {
        WindowEvent::Close => true,
        WindowEvent::Key(Key::Escape, Action::Press) => true,
        _ => false,
    }
}

/// Whether an event is a well-formed resize (negative sizes are malformed).
pub open spec fn is_resize(e: WindowEvent) -> bool {
    match e {
        WindowEvent::Resize(w, h) => w >= 0 && h >= 0,
        _ => false,
    }
}

/// The window state after one event.
pub open spec fn window_after(w: WindowState, e: WindowEvent) -> WindowState {
    match e {
        WindowEvent::Resize(nw, nh) => if nw >= 0 && nh >= 0 {
            WindowState { width: nw as u32, height: nh as u32, ..w }
        } else {
            w
        },
        _ => if is_close_request(e) {
            WindowState { should_close: true, ..w }
        } else {
            w
        },
    }
}

/// The command an event asks of the context, if any: a well-formed resize
/// keeps the viewport in step with the new size.
pub open spec fn event_command(e: WindowEvent) -> Option<GlCommand> {
    match e {
        WindowEvent::Resize(nw, nh) => if nw >= 0 && nh >= 0 {
            Some(GlCommand::Viewport { width: nw, height: nh })
        } else {
            None
        },
        _ => None,
    }
}

/// Applies one event to the window state and returns the command it asks
/// for. Unrecognised and malformed events change nothing.
pub fn handle_window_event(state: &mut WindowState, event: WindowEvent) -> (r: Option<GlCommand>)
    ensures
        *final(state) == window_after(*old(state), event),
        r == event_command(event),
{
    match event {
        WindowEvent::Key(Key::Escape, Action::Press) | WindowEvent::Close => {
            state.should_close = true;
            None
        },
        WindowEvent::Resize(w, h) => {
            if w >= 0 && h >= 0 {
                state.width = w as u32;
                state.height = h as u32;
                Some(GlCommand::Viewport { width: w, height: h })
            } else {
                None
            }
        },
        _ => None,
    }
}

/// A resize sets the size to the reported values and leaves the close flag
/// as it was; a close request sets the flag and leaves the size as it was.
pub proof fn lemma_events_touch_only_their_fields(w: WindowState, e: WindowEvent)
    ensures
        is_resize(e) ==> window_after(w, e).should_close == w.should_close,
        is_resize(e) ==> (e matches WindowEvent::Resize(nw, nh) && window_after(w, e).width == nw
            && window_after(w, e).height == nh),
        is_close_request(e) ==> window_after(w, e) == (WindowState { should_close: true, ..w }),
        !is_resize(e) && !is_close_request(e) ==> window_after(w, e) == w,
{
}

} // verus!
