//! Wire encoding of the request bodies the engine sends.
//!
//! The event-ingest endpoint and the signed-URL endpoint both take small
//! JSON records. Every piece of text that can appear in them is produced
//! here from plain values: decimal renderings of the numeric fields, the
//! hyphenated lowercase-hex form of a 128-bit identifier, and the fixed
//! names of the action variants. Nothing embedded ever needs escaping, so
//! quoting a name is plain concatenation.

use vstd::prelude::*;

use crate::devents::{
    DeventRequest, DeventRequestWrapper, KeyboardAction, KeyboardActionKey, MouseAction,
    SaveRecordingRequest, ScrollAction,
};

verus! {

/// The character for one digit value below sixteen.
pub open spec fn digit_char(d: nat) -> char {
    if d == 0 {
        '0'
    } else if d == 1 {
        '1'
    } else if d == 2 {
        '2'
    } else if d == 3 {
        '3'
    } else if d == 4 {
        '4'
    } else if d == 5 {
        '5'
    } else if d == 6 {
        '6'
    } else if d == 7 {
        '7'
    } else if d == 8 {
        '8'
    } else if d == 9 {
        '9'
    } else if d == 10 {
        'a'
    } else if d == 11 {
        'b'
    } else if d == 12 {
        'c'
    } else if d == 13 {
        'd'
    } else if d == 14 {
        'e'
    } else {
        'f'
    }
}

/// Decimal rendering of a natural number, without leading zeros.
pub open spec fn spec_u64_str(n: nat) -> Seq<char>
    decreases n,
{
    if n < 10 {
        seq![digit_char(n)]
    } else {
        spec_u64_str(n / 10).push(digit_char(n % 10))
    }
}

/// Decimal rendering of an integer: a leading minus sign for negative
/// values, plain digits otherwise.
pub open spec fn spec_i64_str(i: int) -> Seq<char> {
    if i >= 0 {
        spec_u64_str(i as nat)
    } else {
        seq!['-'] + spec_u64_str((-i) as nat)
    }
}

/// Fixed-width lowercase-hex rendering of the low `width` hex digits of a
/// natural number, most significant digit first.
pub open spec fn spec_hex_str(n: nat, width: nat) -> Seq<char>
    decreases width,
{
    if width == 0 {
        Seq::empty()
    } else {
        spec_hex_str(n / 16, (width - 1) as nat).push(digit_char(n % 16))
    }
}

/// The hyphenated lowercase form of a 128-bit identifier: the 32 hex
/// digits in groups of 8, 4, 4, 4 and 12.
pub open spec fn spec_uuid_str(u: u128) -> Seq<char> {
    spec_hex_str(u as nat / 0x1000000000000000000000000, 8) + seq!['-'] + spec_hex_str(
        u as nat / 0x100000000000000000000,
        4,
    ) + seq!['-'] + spec_hex_str(u as nat / 0x10000000000000000, 4) + seq!['-'] + spec_hex_str(
        u as nat / 0x1000000000000,
        4,
    ) + seq!['-'] + spec_hex_str(u as nat, 12)
}

/// One string of the sixteen digit characters.
fn digit_str(d: u8) -> (r: &'static str)
    requires
        d < 16,
    ensures
        r@ == seq![digit_char(d as nat)],
{
    proof {
        reveal_strlit("0");
        reveal_strlit("1");
        reveal_strlit("2");
        reveal_strlit("3");
        reveal_strlit("4");
        reveal_strlit("5");
        reveal_strlit("6");
        reveal_strlit("7");
        reveal_strlit("8");
        reveal_strlit("9");
        reveal_strlit("a");
        reveal_strlit("b");
        reveal_strlit("c");
        reveal_strlit("d");
        reveal_strlit("e");
        reveal_strlit("f");
    }
    let r: &'static str = if d == 0 {
        "0"
    } else if d == 1 {
        "1"
    } else if d == 2 {
        "2"
    } else if d == 3 {
        "3"
    } else if d == 4 {
        "4"
    } else if d == 5 {
        "5"
    } else if d == 6 {
        "6"
    } else if d == 7 {
        "7"
    } else if d == 8 {
        "8"
    } else if d == 9 {
        "9"
    } else if d == 10 {
        "a"
    } else if d == 11 {
        "b"
    } else if d == 12 {
        "c"
    } else if d == 13 {
        "d"
    } else if d == 14 {
        "e"
    } else {
        "f"
    };
    proof {
        assert(r@ =~= seq![digit_char(d as nat)]);
    }
    r
}

/// Decimal rendering of an unsigned 64-bit value.
pub fn u64_str(n: u64) -> (r: String)
    ensures
        r@ == spec_u64_str(n as nat),
    decreases n,
{
    if n < 10 {
        String::from_str(digit_str(n as u8))
    } else {
        let mut s = u64_str(n / 10);
        s.append(digit_str((n % 10) as u8));
        proof {
            assert(s@ =~= spec_u64_str(n as nat));
        }
        s
    }
}

/// Decimal rendering of a signed 64-bit value.
pub fn i64_str(i: i64) -> (r: String)
    ensures
        r@ == spec_i64_str(i as int),
{
    if i >= 0 {
        u64_str(i as u64)
    } else {
        let mag: u64 = if i == i64::MIN {
            9223372036854775808u64
        } else {
            (-i) as u64
        };
        proof {
            reveal_strlit("-");
        }
        let mut s = String::from_str("-");
        let digits = u64_str(mag);
        s.append(digits.as_str());
        proof {
            assert(s@ =~= spec_i64_str(i as int));
        }
        s
    }
}

/// Decimal rendering of a signed 32-bit value.
pub fn i32_str(i: i32) -> (r: String)
    ensures
        r@ == spec_i64_str(i as int),
{
    i64_str(i as i64)
}

/// Fixed-width lowercase-hex rendering of the low `width` hex digits.
pub fn hex_str(n: u128, width: u8) -> (r: String)
    ensures
        r@ == spec_hex_str(n as nat, width as nat),
    decreases width,
{
    if width == 0 {
        String::new()
    } else {
        let mut s = hex_str(n / 16, width - 1);
        s.append(digit_str((n % 16) as u8));
        proof {
            assert(s@ =~= spec_hex_str(n as nat, width as nat));
        }
        s
    }
}

/// Hyphenated lowercase rendering of a 128-bit identifier.
pub fn uuid_str(u: u128) -> (r: String)
    ensures
        r@ == spec_uuid_str(u),
{
    proof {
        reveal_strlit("-");
    }
    let mut s = hex_str(u / 0x1000000000000000000000000, 8);
    s.append("-");
    let g2 = hex_str(u / 0x100000000000000000000, 4);
    s.append(g2.as_str());
    s.append("-");
    let g3 = hex_str(u / 0x10000000000000000, 4);
    s.append(g3.as_str());
    s.append("-");
    let g4 = hex_str(u / 0x1000000000000, 4);
    s.append(g4.as_str());
    s.append("-");
    let g5 = hex_str(u, 12);
    s.append(g5.as_str());
    proof {
        assert(s@ =~= spec_uuid_str(u));
    }
    s
}

/// The wire name of a symbolic key: the variant in lowercase, with an
/// underscore between words and digits for the number keys.
pub open spec fn spec_key_name(k: KeyboardActionKey) -> Seq<char> {
    match k {
        KeyboardActionKey::CapsLock => "caps_lock"@,
        KeyboardActionKey::Shift => "shift"@,
        KeyboardActionKey::Control => "control"@,
        KeyboardActionKey::Fn => "fn"@,
        KeyboardActionKey::Alt => "alt"@,
        KeyboardActionKey::Meta => "meta"@,
        KeyboardActionKey::F1 => "f1"@,
        KeyboardActionKey::F2 => "f2"@,
        KeyboardActionKey::F3 => "f3"@,
        KeyboardActionKey::F4 => "f4"@,
        KeyboardActionKey::F5 => "f5"@,
        KeyboardActionKey::F6 => "f6"@,
        KeyboardActionKey::F7 => "f7"@,
        KeyboardActionKey::F8 => "f8"@,
        KeyboardActionKey::F9 => "f9"@,
        KeyboardActionKey::F10 => "f10"@,
        KeyboardActionKey::F11 => "f11"@,
        KeyboardActionKey::F12 => "f12"@,
        KeyboardActionKey::A => "a"@,
        KeyboardActionKey::B => "b"@,
        KeyboardActionKey::C => "c"@,
        KeyboardActionKey::D => "d"@,
        KeyboardActionKey::E => "e"@,
        KeyboardActionKey::F => "f"@,
        KeyboardActionKey::G => "g"@,
        KeyboardActionKey::H => "h"@,
        KeyboardActionKey::I => "i"@,
        KeyboardActionKey::J => "j"@,
        KeyboardActionKey::K => "k"@,
        KeyboardActionKey::L => "l"@,
        KeyboardActionKey::M => "m"@,
        KeyboardActionKey::N => "n"@,
        KeyboardActionKey::O => "o"@,
        KeyboardActionKey::P => "p"@,
        KeyboardActionKey::Q => "q"@,
        KeyboardActionKey::R => "r"@,
        KeyboardActionKey::S => "s"@,
        KeyboardActionKey::T => "t"@,
        KeyboardActionKey::U => "u"@,
        KeyboardActionKey::V => "v"@,
        KeyboardActionKey::W => "w"@,
        KeyboardActionKey::X => "x"@,
        KeyboardActionKey::Y => "y"@,
        KeyboardActionKey::Z => "z"@,
        KeyboardActionKey::Num0 => "0"@,
        KeyboardActionKey::Num1 => "1"@,
        KeyboardActionKey::Num2 => "2"@,
        KeyboardActionKey::Num3 => "3"@,
        KeyboardActionKey::Num4 => "4"@,
        KeyboardActionKey::Num5 => "5"@,
        KeyboardActionKey::Num6 => "6"@,
        KeyboardActionKey::Num7 => "7"@,
        KeyboardActionKey::Num8 => "8"@,
        KeyboardActionKey::Num9 => "9"@,
        KeyboardActionKey::ArrowUp => "arrow_up"@,
        KeyboardActionKey::ArrowDown => "arrow_down"@,
        KeyboardActionKey::ArrowLeft => "arrow_left"@,
        KeyboardActionKey::ArrowRight => "arrow_right"@,
        KeyboardActionKey::Home => "home"@,
        KeyboardActionKey::End => "end"@,
        KeyboardActionKey::PageUp => "page_up"@,
        KeyboardActionKey::PageDown => "page_down"@,
        KeyboardActionKey::Escape => "escape"@,
        KeyboardActionKey::Enter => "enter"@,
        KeyboardActionKey::Tab => "tab"@,
        KeyboardActionKey::Space => "space"@,
        KeyboardActionKey::Backspace => "backspace"@,
        KeyboardActionKey::Insert => "insert"@,
        KeyboardActionKey::Delete => "delete"@,
        KeyboardActionKey::NumLock => "num_lock"@,
        KeyboardActionKey::ScrollLock => "scroll_lock"@,
        KeyboardActionKey::Pause => "pause"@,
        KeyboardActionKey::PrintScreen => "print_screen"@,
        KeyboardActionKey::Grave => "grave"@,
        KeyboardActionKey::Minus => "minus"@,
        KeyboardActionKey::Equal => "equal"@,
        KeyboardActionKey::BracketLeft => "bracket_left"@,
        KeyboardActionKey::BracketRight => "bracket_right"@,
        KeyboardActionKey::Semicolon => "semicolon"@,
        KeyboardActionKey::Quote => "quote"@,
        KeyboardActionKey::Comma => "comma"@,
        KeyboardActionKey::Period => "period"@,
        KeyboardActionKey::Slash => "slash"@,
        KeyboardActionKey::Backslash => "backslash"@,
        KeyboardActionKey::Unknown(_) => "unknown"@,
    }
}

/// JSON value of a symbolic key: the quoted wire name, except that an
/// unknown key is an object carrying its raw scan code.
pub open spec fn spec_key_json(k: KeyboardActionKey) -> Seq<char> {
    match k {
        KeyboardActionKey::Unknown(code) => "{\"unknown\":"@ + spec_u64_str(code as nat) + "}"@,
        _ => seq!['"'] + spec_key_name(k) + seq!['"'],
    }
}

/// JSON value of a mouse action: the quoted label, except that a
/// non-standard button is an object carrying its byte.
pub open spec fn spec_mouse_json(a: MouseAction) -> Seq<char> {
    match a {
        MouseAction::Other(byte) => "{\"other\":"@ + spec_u64_str(byte as nat) + "}"@,
        _ => seq!['"'] + crate::devents::spec_mouse_label(a) + seq!['"'],
    }
}

/// JSON value of a keyboard action.
pub open spec fn spec_keyboard_json(a: KeyboardAction) -> Seq<char> {
    "{\"key\":"@ + spec_key_json(a.key) + ",\"duration\":"@ + spec_i64_str(a.duration as int)
        + "}"@
}

/// JSON value of a scroll action.
pub open spec fn spec_scroll_json(a: ScrollAction) -> Seq<char> {
    "{\"x\":"@ + spec_i64_str(a.x as int) + ",\"y\":"@ + spec_i64_str(a.y as int) + "}"@
}

/// JSON value of an optional mouse action.
pub open spec fn spec_opt_mouse_json(a: Option<MouseAction>) -> Seq<char> {
    match a {
        Option::None => "null"@,
        Option::Some(m) => spec_mouse_json(m),
    }
}

/// JSON value of an optional keyboard action.
pub open spec fn spec_opt_keyboard_json(a: Option<KeyboardAction>) -> Seq<char> {
    match a {
        Option::None => "null"@,
        Option::Some(k) => spec_keyboard_json(k),
    }
}

/// JSON value of an optional scroll action.
pub open spec fn spec_opt_scroll_json(a: Option<ScrollAction>) -> Seq<char> {
    match a {
        Option::None => "null"@,
        Option::Some(s) => spec_scroll_json(s),
    }
}

/// JSON record of one recorded event, fields in declaration order.
pub open spec fn spec_devent_json(e: DeventRequest) -> Seq<char> {
    "{\"session_id\":\""@ + spec_uuid_str(e.session_id) + "\",\"mouse_action\":"@
        + spec_opt_mouse_json(e.mouse_action) + ",\"keyboard_action\":"@ + spec_opt_keyboard_json(
        e.keyboard_action,
    ) + ",\"scroll_action\":"@ + spec_opt_scroll_json(e.scroll_action) + ",\"mouse_x\":"@
        + spec_i64_str(e.mouse_x as int) + ",\"mouse_y\":"@ + spec_i64_str(e.mouse_y as int)
        + ",\"event_timestamp_nanos\":"@ + spec_i64_str(e.event_timestamp_nanos as int) + "}"@
}

/// The comma-separated JSON records of a sequence of events.
pub open spec fn spec_events_json(evs: Seq<DeventRequest>) -> Seq<char>
    decreases evs.len(),
{
    if evs.len() == 0 {
        Seq::empty()
    } else if evs.len() == 1 {
        spec_devent_json(evs[0])
    } else {
        spec_events_json(evs.drop_last()) + seq![','] + spec_devent_json(evs.last())
    }
}

/// JSON body of the event batch posted when a session stops.
pub open spec fn spec_wrapper_json(w: DeventRequestWrapper) -> Seq<char> {
    "{\"events\":["@ + spec_events_json(w.events@) + "]}"@
}

/// JSON body of the signed-URL request for one segment.
pub open spec fn spec_save_recording_json(r: SaveRecordingRequest) -> Seq<char> {
    "{\"recording_id\":\""@ + spec_uuid_str(r.recording_id) + "\",\"session_id\":\""@
        + spec_uuid_str(r.session_id) + "\",\"start_timestamp_nanos\":"@ + spec_i64_str(
        r.start_timestamp_nanos as int,
    ) + ",\"duration_ms\":"@ + spec_u64_str(r.duration_ms as nat) + "}"@
}

impl KeyboardActionKey {
    /// The wire name of the key.
    pub fn name(&self) -> (r: &'static str)
        ensures
            r@ == spec_key_name(*self),
    {
        match self {
            KeyboardActionKey::CapsLock => "caps_lock",
            KeyboardActionKey::Shift => "shift",
            KeyboardActionKey::Control => "control",
            KeyboardActionKey::Fn => "fn",
            KeyboardActionKey::Alt => "alt",
            KeyboardActionKey::Meta => "meta",
            KeyboardActionKey::F1 => "f1",
            KeyboardActionKey::F2 => "f2",
            KeyboardActionKey::F3 => "f3",
            KeyboardActionKey::F4 => "f4",
            KeyboardActionKey::F5 => "f5",
            KeyboardActionKey::F6 => "f6",
            KeyboardActionKey::F7 => "f7",
            KeyboardActionKey::F8 => "f8",
            KeyboardActionKey::F9 => "f9",
            KeyboardActionKey::F10 => "f10",
            KeyboardActionKey::F11 => "f11",
            KeyboardActionKey::F12 => "f12",
            KeyboardActionKey::A => "a",
            KeyboardActionKey::B => "b",
            KeyboardActionKey::C => "c",
            KeyboardActionKey::D => "d",
            KeyboardActionKey::E => "e",
            KeyboardActionKey::F => "f",
            KeyboardActionKey::G => "g",
            KeyboardActionKey::H => "h",
            KeyboardActionKey::I => "i",
            KeyboardActionKey::J => "j",
            KeyboardActionKey::K => "k",
            KeyboardActionKey::L => "l",
            KeyboardActionKey::M => "m",
            KeyboardActionKey::N => "n",
            KeyboardActionKey::O => "o",
            KeyboardActionKey::P => "p",
            KeyboardActionKey::Q => "q",
            KeyboardActionKey::R => "r",
            KeyboardActionKey::S => "s",
            KeyboardActionKey::T => "t",
            KeyboardActionKey::U => "u",
            KeyboardActionKey::V => "v",
            KeyboardActionKey::W => "w",
            KeyboardActionKey::X => "x",
            KeyboardActionKey::Y => "y",
            KeyboardActionKey::Z => "z",
            KeyboardActionKey::Num0 => "0",
            KeyboardActionKey::Num1 => "1",
            KeyboardActionKey::Num2 => "2",
            KeyboardActionKey::Num3 => "3",
            KeyboardActionKey::Num4 => "4",
            KeyboardActionKey::Num5 => "5",
            KeyboardActionKey::Num6 => "6",
            KeyboardActionKey::Num7 => "7",
            KeyboardActionKey::Num8 => "8",
            KeyboardActionKey::Num9 => "9",
            KeyboardActionKey::ArrowUp => "arrow_up",
            KeyboardActionKey::ArrowDown => "arrow_down",
            KeyboardActionKey::ArrowLeft => "arrow_left",
            KeyboardActionKey::ArrowRight => "arrow_right",
            KeyboardActionKey::Home => "home",
            KeyboardActionKey::End => "end",
            KeyboardActionKey::PageUp => "page_up",
            KeyboardActionKey::PageDown => "page_down",
            KeyboardActionKey::Escape => "escape",
            KeyboardActionKey::Enter => "enter",
            KeyboardActionKey::Tab => "tab",
            KeyboardActionKey::Space => "space",
            KeyboardActionKey::Backspace => "backspace",
            KeyboardActionKey::Insert => "insert",
            KeyboardActionKey::Delete => "delete",
            KeyboardActionKey::NumLock => "num_lock",
            KeyboardActionKey::ScrollLock => "scroll_lock",
            KeyboardActionKey::Pause => "pause",
            KeyboardActionKey::PrintScreen => "print_screen",
            KeyboardActionKey::Grave => "grave",
            KeyboardActionKey::Minus => "minus",
            KeyboardActionKey::Equal => "equal",
            KeyboardActionKey::BracketLeft => "bracket_left",
            KeyboardActionKey::BracketRight => "bracket_right",
            KeyboardActionKey::Semicolon => "semicolon",
            KeyboardActionKey::Quote => "quote",
            KeyboardActionKey::Comma => "comma",
            KeyboardActionKey::Period => "period",
            KeyboardActionKey::Slash => "slash",
            KeyboardActionKey::Backslash => "backslash",
            KeyboardActionKey::Unknown(_) => "unknown",
        }
    }

    /// JSON value of the key.
    pub fn to_json(&self) -> (r: String)
        ensures
            r@ == spec_key_json(*self),
    {
        match self {
            KeyboardActionKey::Unknown(code) => {
                let mut s = String::from_str("{\"unknown\":");
                let digits = u64_str(*code as u64);
                s.append(digits.as_str());
                s.append("}");
                proof {
                    assert(s@ =~= spec_key_json(*self));
                }
                s
            },
            _ => {
                let mut s = String::from_str("\"");
                s.append(self.name());
                s.append("\"");
                proof {
                    reveal_strlit("\"");
                    assert(s@ =~= spec_key_json(*self));
                }
                s
            },
        }
    }
}

impl MouseAction {
    /// JSON value of the action.
    pub fn to_json(&self) -> (r: String)
        ensures
            r@ == spec_mouse_json(*self),
    {
        match self {
            MouseAction::Other(byte) => {
                let mut s = String::from_str("{\"other\":");
                let digits = u64_str(*byte as u64);
                s.append(digits.as_str());
                s.append("}");
                proof {
                    assert(s@ =~= spec_mouse_json(*self));
                }
                s
            },
            _ => {
                let mut s = String::from_str("\"");
                s.append(self.label());
                s.append("\"");
                proof {
                    reveal_strlit("\"");
                    assert(s@ =~= spec_mouse_json(*self));
                }
                s
            },
        }
    }
}

impl KeyboardAction {
    /// JSON value of the action.
    pub fn to_json(&self) -> (r: String)
        ensures
            r@ == spec_keyboard_json(*self),
    {
        let mut s = String::from_str("{\"key\":");
        let key = self.key.to_json();
        s.append(key.as_str());
        s.append(",\"duration\":");
        let duration = i32_str(self.duration);
        s.append(duration.as_str());
        s.append("}");
        proof {
            assert(s@ =~= spec_keyboard_json(*self));
        }
        s
    }
}

impl ScrollAction {
    /// JSON value of the action.
    pub fn to_json(&self) -> (r: String)
        ensures
            r@ == spec_scroll_json(*self),
    {
        let mut s = String::from_str("{\"x\":");
        let x = i32_str(self.x);
        s.append(x.as_str());
        s.append(",\"y\":");
        let y = i32_str(self.y);
        s.append(y.as_str());
        s.append("}");
        proof {
            assert(s@ =~= spec_scroll_json(*self));
        }
        s
    }
}

impl DeventRequest {
    /// JSON record of the event.
    pub fn to_json(&self) -> (r: String)
        ensures
            r@ == spec_devent_json(*self),
    {
        let mut s = String::from_str("{\"session_id\":\"");
        let sid = uuid_str(self.session_id);
        s.append(sid.as_str());
        s.append("\",\"mouse_action\":");
        match &self.mouse_action {
            Option::Some(m) => {
                let v = m.to_json();
                s.append(v.as_str());
            },
            Option::None => {
                s.append("null");
            },
        }
        s.append(",\"keyboard_action\":");
        match &self.keyboard_action {
            Option::Some(k) => {
                let v = k.to_json();
                s.append(v.as_str());
            },
            Option::None => {
                s.append("null");
            },
        }
        s.append(",\"scroll_action\":");
        match &self.scroll_action {
            Option::Some(a) => {
                let v = a.to_json();
                s.append(v.as_str());
            },
            Option::None => {
                s.append("null");
            },
        }
        s.append(",\"mouse_x\":");
        let x = i32_str(self.mouse_x);
        s.append(x.as_str());
        s.append(",\"mouse_y\":");
        let y = i32_str(self.mouse_y);
        s.append(y.as_str());
        s.append(",\"event_timestamp_nanos\":");
        let t = i64_str(self.event_timestamp_nanos);
        s.append(t.as_str());
        s.append("}");
        proof {
            assert(s@ =~= spec_devent_json(*self));
        }
        s
    }
}

/// The comma-separated JSON records of the given events.
pub fn events_json(events: &Vec<DeventRequest>) -> (r: String)
    ensures
        r@ == spec_events_json(events@),
{
    let mut s = String::new();
    let mut i: usize = 0;
    while i < events.len()
        invariant
            i <= events.len(),
            s@ == spec_events_json(events@.subrange(0, i as int)),
        decreases events.len() - i,
    {
        if i > 0 {
            s.append(",");
            proof {
                reveal_strlit(",");
            }
        }
        let e = events[i].to_json();
        s.append(e.as_str());
        i = i + 1;
        proof {
            let prefix = events@.subrange(0, i as int);
            assert(prefix.drop_last() =~= events@.subrange(0, i - 1));
            assert(prefix.last() == events@[i - 1]);
            assert(s@ =~= spec_events_json(prefix));
        }
    }
    proof {
        assert(events@.subrange(0, events@.len() as int) =~= events@);
    }
    s
}

impl DeventRequestWrapper {
    /// JSON body of the batch.
    pub fn to_json(&self) -> (r: String)
        ensures
            r@ == spec_wrapper_json(*self),
    {
        let mut s = String::from_str("{\"events\":[");
        let body = events_json(&self.events);
        s.append(body.as_str());
        s.append("]}");
        proof {
            assert(s@ =~= spec_wrapper_json(*self));
        }
        s
    }
}

impl SaveRecordingRequest {
    /// JSON body of the signed-URL request.
    pub fn to_json(&self) -> (r: String)
        ensures
            r@ == spec_save_recording_json(*self),
    {
        let mut s = String::from_str("{\"recording_id\":\"");
        let rid = uuid_str(self.recording_id);
        s.append(rid.as_str());
        s.append("\",\"session_id\":\"");
        let sid = uuid_str(self.session_id);
        s.append(sid.as_str());
        s.append("\",\"start_timestamp_nanos\":");
        let t = i64_str(self.start_timestamp_nanos);
        s.append(t.as_str());
        s.append(",\"duration_ms\":");
        let d = u64_str(self.duration_ms);
        s.append(d.as_str());
        s.append("}");
        proof {
            assert(s@ =~= spec_save_recording_json(*self));
        }
        s
    }
}

} // verus!
