//! Key tracking for the Oxy demo window. Unlike the widget toolkit's keys,
//! these keys are driven by raw "is down" reports: a report of a key that is
//! not yet down is a press, a report of a key that is not up is a release.

use vstd::prelude::*;
use crate::input::key_state::Keycode;

verus! {

/// Where a key is in its press cycle.
#[derive(PartialEq, Eq, Debug, Clone, Copy, Structural)]
pub enum KeyState {
    Up,
    Pressed,
    Down,
    Released,
}

impl KeyState {
    /// The state a key moves to at the start of the next frame.
    pub open spec fn next_frame(self) -> KeyState {
        match self {
            KeyState::Pressed => KeyState::Down,
            KeyState::Released => KeyState::Up,
            other => other,
        }
    }

    /// The state of a key after SDL reported whether it is down.
    pub open spec fn after_report(self, is_down: bool) -> KeyState {
        if is_down {
            if self == KeyState::Down {
                KeyState::Down
            } else {
                KeyState::Pressed
            }
        } else if self == KeyState::Up {
            KeyState::Up
        } else {
            KeyState::Released
        }
    }
}

/// A key reported down is pressed or held, a key reported up is released
/// or up; a held key reported down again stays held and an up key reported
/// up again stays up.
pub proof fn lemma_report_cycle(s: KeyState, is_down: bool)
    ensures
        is_down ==> (s.after_report(true) == KeyState::Pressed || s.after_report(true) == KeyState::Down),
        !is_down ==> (s.after_report(false) == KeyState::Released || s.after_report(false) == KeyState::Up),
        KeyState::Down.after_report(true) == KeyState::Down,
        KeyState::Up.after_report(false) == KeyState::Up,
        s.after_report(true).next_frame() == KeyState::Down,
        s.after_report(false).next_frame() == KeyState::Up,
{
}

fn set(key: &mut KeyState, value: KeyState)
    ensures
        *final(key) == value,
{
    *key = value;
}

fn advance(key: &mut KeyState)
    ensures
        *final(key) == old(key).next_frame(),
{
    match key {
        KeyState::Pressed => {
            *key = KeyState::Down;
        },
        KeyState::Released => {
            *key = KeyState::Up;
        },
        _ => {},
    }
}

impl Keycode {
    /// The key codes the demo window keeps: the letters `a` to `x` and
    /// escape.
    pub open spec fn is_demo_key(self) -> bool {
        match self {
            Keycode::A | Keycode::B | Keycode::C | Keycode::D | Keycode::E | Keycode::F | Keycode::G | Keycode::H | Keycode::I | Keycode::J | Keycode::K | Keycode::L | Keycode::M | Keycode::N | Keycode::O | Keycode::P | Keycode::Q | Keycode::R | Keycode::S | Keycode::T | Keycode::U | Keycode::V | Keycode::W | Keycode::X | Keycode::Escape => true,
            _ => false,
        }
    }
}

/// The state of every key of the demo window.
#[derive(Debug)]
pub struct KeysState {
    pub a: KeyState,
    pub b: KeyState,
    pub c: KeyState,
    pub d: KeyState,
    pub e: KeyState,
    pub f: KeyState,
    pub g: KeyState,
    pub h: KeyState,
    pub i: KeyState,
    pub j: KeyState,
    pub k: KeyState,
    pub l: KeyState,
    pub m: KeyState,
    pub n: KeyState,
    pub o: KeyState,
    pub p: KeyState,
    pub q: KeyState,
    pub r: KeyState,
    pub s: KeyState,
    pub t: KeyState,
    pub u: KeyState,
    pub v: KeyState,
    pub w: KeyState,
    pub x: KeyState,
    pub up: KeyState,
    pub down: KeyState,
    pub left: KeyState,
    pub right: KeyState,
    pub _0: KeyState,
    pub _1: KeyState,
    pub _2: KeyState,
    pub _3: KeyState,
    pub _4: KeyState,
    pub _5: KeyState,
    pub _6: KeyState,
    pub _7: KeyState,
    pub _8: KeyState,
    pub _9: KeyState,
    pub space: KeyState,
    pub enter: KeyState,
    pub mouse_left: KeyState,
    pub mouse_right: KeyState,
    pub mouse_middle: KeyState,
    pub shift: KeyState,
    pub ctrl: KeyState,
    pub alt: KeyState,
    pub esc: KeyState,
}

/// Each kept key code reads and writes the key of its own name and no
/// other; every other key code leaves all keys as they were.
#[verifier::rlimit(100)]
#[verifier::spinoff_prover]
pub proof fn lemma_demo_keys_are_their_own(keys: KeysState, value: KeyState)
    ensures
        keys.slot(Keycode::A) == keys.a,
        keys.with_slot(Keycode::A, value) == (KeysState { a: value, ..keys }),
        keys.slot(Keycode::B) == keys.b,
        keys.with_slot(Keycode::B, value) == (KeysState { b: value, ..keys }),
        keys.slot(Keycode::C) == keys.c,
        keys.with_slot(Keycode::C, value) == (KeysState { c: value, ..keys }),
        keys.slot(Keycode::D) == keys.d,
        keys.with_slot(Keycode::D, value) == (KeysState { d: value, ..keys }),
        keys.slot(Keycode::E) == keys.e,
        keys.with_slot(Keycode::E, value) == (KeysState { e: value, ..keys }),
        keys.slot(Keycode::F) == keys.f,
        keys.with_slot(Keycode::F, value) == (KeysState { f: value, ..keys }),
        keys.slot(Keycode::G) == keys.g,
        keys.with_slot(Keycode::G, value) == (KeysState { g: value, ..keys }),
        keys.slot(Keycode::H) == keys.h,
        keys.with_slot(Keycode::H, value) == (KeysState { h: value, ..keys }),
        keys.slot(Keycode::I) == keys.i,
        keys.with_slot(Keycode::I, value) == (KeysState { i: value, ..keys }),
        keys.slot(Keycode::J) == keys.j,
        keys.with_slot(Keycode::J, value) == (KeysState { j: value, ..keys }),
        keys.slot(Keycode::K) == keys.k,
        keys.with_slot(Keycode::K, value) == (KeysState { k: value, ..keys }),
        keys.slot(Keycode::L) == keys.l,
        keys.with_slot(Keycode::L, value) == (KeysState { l: value, ..keys }),
        keys.slot(Keycode::M) == keys.m,
        keys.with_slot(Keycode::M, value) == (KeysState { m: value, ..keys }),
        keys.slot(Keycode::N) == keys.n,
        keys.with_slot(Keycode::N, value) == (KeysState { n: value, ..keys }),
        keys.slot(Keycode::O) == keys.o,
        keys.with_slot(Keycode::O, value) == (KeysState { o: value, ..keys }),
        keys.slot(Keycode::P) == keys.p,
        keys.with_slot(Keycode::P, value) == (KeysState { p: value, ..keys }),
        keys.slot(Keycode::Q) == keys.q,
        keys.with_slot(Keycode::Q, value) == (KeysState { q: value, ..keys }),
        keys.slot(Keycode::R) == keys.r,
        keys.with_slot(Keycode::R, value) == (KeysState { r: value, ..keys }),
        keys.slot(Keycode::S) == keys.s,
        keys.with_slot(Keycode::S, value) == (KeysState { s: value, ..keys }),
        keys.slot(Keycode::T) == keys.t,
        keys.with_slot(Keycode::T, value) == (KeysState { t: value, ..keys }),
        keys.slot(Keycode::U) == keys.u,
        keys.with_slot(Keycode::U, value) == (KeysState { u: value, ..keys }),
        keys.slot(Keycode::V) == keys.v,
        keys.with_slot(Keycode::V, value) == (KeysState { v: value, ..keys }),
        keys.slot(Keycode::W) == keys.w,
        keys.with_slot(Keycode::W, value) == (KeysState { w: value, ..keys }),
        keys.slot(Keycode::X) == keys.x,
        keys.with_slot(Keycode::X, value) == (KeysState { x: value, ..keys }),
        keys.slot(Keycode::Escape) == keys.esc,
        keys.with_slot(Keycode::Escape, value) == (KeysState { esc: value, ..keys }),
        forall|code: Keycode| !code.is_demo_key() ==> #[trigger] keys.with_slot(code, value) == keys,
{
    assert forall|code: Keycode| !code.is_demo_key() implies #[trigger] keys.with_slot(code, value)
        == keys by {
        assert(keys.with_slot(code, value) =~= keys);
    }
}

impl KeysState {
    /// Every key up.
    pub open spec fn all_up() -> KeysState {
        KeysState {
            a: KeyState::Up,
            b: KeyState::Up,
            c: KeyState::Up,
            d: KeyState::Up,
            e: KeyState::Up,
            f: KeyState::Up,
            g: KeyState::Up,
            h: KeyState::Up,
            i: KeyState::Up,
            j: KeyState::Up,
            k: KeyState::Up,
            l: KeyState::Up,
            m: KeyState::Up,
            n: KeyState::Up,
            o: KeyState::Up,
            p: KeyState::Up,
            q: KeyState::Up,
            r: KeyState::Up,
            s: KeyState::Up,
            t: KeyState::Up,
            u: KeyState::Up,
            v: KeyState::Up,
            w: KeyState::Up,
            x: KeyState::Up,
            up: KeyState::Up,
            down: KeyState::Up,
            left: KeyState::Up,
            right: KeyState::Up,
            _0: KeyState::Up,
            _1: KeyState::Up,
            _2: KeyState::Up,
            _3: KeyState::Up,
            _4: KeyState::Up,
            _5: KeyState::Up,
            _6: KeyState::Up,
            _7: KeyState::Up,
            _8: KeyState::Up,
            _9: KeyState::Up,
            space: KeyState::Up,
            enter: KeyState::Up,
            mouse_left: KeyState::Up,
            mouse_right: KeyState::Up,
            mouse_middle: KeyState::Up,
            shift: KeyState::Up,
            ctrl: KeyState::Up,
            alt: KeyState::Up,
            esc: KeyState::Up,
        }
    }

    /// Every key advanced by one frame.
    pub open spec fn next_frame(self) -> KeysState {
        KeysState {
            a: self.a.next_frame(),
            b: self.b.next_frame(),
            c: self.c.next_frame(),
            d: self.d.next_frame(),
            e: self.e.next_frame(),
            f: self.f.next_frame(),
            g: self.g.next_frame(),
            h: self.h.next_frame(),
            i: self.i.next_frame(),
            j: self.j.next_frame(),
            k: self.k.next_frame(),
            l: self.l.next_frame(),
            m: self.m.next_frame(),
            n: self.n.next_frame(),
            o: self.o.next_frame(),
            p: self.p.next_frame(),
            q: self.q.next_frame(),
            r: self.r.next_frame(),
            s: self.s.next_frame(),
            t: self.t.next_frame(),
            u: self.u.next_frame(),
            v: self.v.next_frame(),
            w: self.w.next_frame(),
            x: self.x.next_frame(),
            up: self.up.next_frame(),
            down: self.down.next_frame(),
            left: self.left.next_frame(),
            right: self.right.next_frame(),
            _0: self._0.next_frame(),
            _1: self._1.next_frame(),
            _2: self._2.next_frame(),
            _3: self._3.next_frame(),
            _4: self._4.next_frame(),
            _5: self._5.next_frame(),
            _6: self._6.next_frame(),
            _7: self._7.next_frame(),
            _8: self._8.next_frame(),
            _9: self._9.next_frame(),
            space: self.space.next_frame(),
            enter: self.enter.next_frame(),
            mouse_left: self.mouse_left.next_frame(),
            mouse_right: self.mouse_right.next_frame(),
            mouse_middle: self.mouse_middle.next_frame(),
            shift: self.shift.next_frame(),
            ctrl: self.ctrl.next_frame(),
            alt: self.alt.next_frame(),
            esc: self.esc.next_frame(),
        }
    }

    /// The state of the key behind `keycode`, for the keys kept.
    pub open spec fn slot(self, keycode: Keycode) -> KeyState {
        match keycode {
            Keycode::A => self.a,
            Keycode::B => self.b,
            Keycode::C => self.c,
            Keycode::D => self.d,
            Keycode::E => self.e,
            Keycode::F => self.f,
            Keycode::G => self.g,
            Keycode::H => self.h,
            Keycode::I => self.i,
            Keycode::J => self.j,
            Keycode::K => self.k,
            Keycode::L => self.l,
            Keycode::M => self.m,
            Keycode::N => self.n,
            Keycode::O => self.o,
            Keycode::P => self.p,
            Keycode::Q => self.q,
            Keycode::R => self.r,
            Keycode::S => self.s,
            Keycode::T => self.t,
            Keycode::U => self.u,
            Keycode::V => self.v,
            Keycode::W => self.w,
            Keycode::X => self.x,
            Keycode::Escape => self.esc,
            _ => KeyState::Up,
        }
    }

    /// The same keys with the state of the key behind `keycode` replaced by
    /// `value`; codes of keys that are not kept change nothing.
    pub open spec fn with_slot(self, keycode: Keycode, value: KeyState) -> KeysState {
        KeysState {
            a: if keycode == Keycode::A { value } else { self.a },
            b: if keycode == Keycode::B { value } else { self.b },
            c: if keycode == Keycode::C { value } else { self.c },
            d: if keycode == Keycode::D { value } else { self.d },
            e: if keycode == Keycode::E { value } else { self.e },
            f: if keycode == Keycode::F { value } else { self.f },
            g: if keycode == Keycode::G { value } else { self.g },
            h: if keycode == Keycode::H { value } else { self.h },
            i: if keycode == Keycode::I { value } else { self.i },
            j: if keycode == Keycode::J { value } else { self.j },
            k: if keycode == Keycode::K { value } else { self.k },
            l: if keycode == Keycode::L { value } else { self.l },
            m: if keycode == Keycode::M { value } else { self.m },
            n: if keycode == Keycode::N { value } else { self.n },
            o: if keycode == Keycode::O { value } else { self.o },
            p: if keycode == Keycode::P { value } else { self.p },
            q: if keycode == Keycode::Q { value } else { self.q },
            r: if keycode == Keycode::R { value } else { self.r },
            s: if keycode == Keycode::S { value } else { self.s },
            t: if keycode == Keycode::T { value } else { self.t },
            u: if keycode == Keycode::U { value } else { self.u },
            v: if keycode == Keycode::V { value } else { self.v },
            w: if keycode == Keycode::W { value } else { self.w },
            x: if keycode == Keycode::X { value } else { self.x },
            up: self.up,
            down: self.down,
            left: self.left,
            right: self.right,
            _0: self._0,
            _1: self._1,
            _2: self._2,
            _3: self._3,
            _4: self._4,
            _5: self._5,
            _6: self._6,
            _7: self._7,
            _8: self._8,
            _9: self._9,
            space: self.space,
            enter: self.enter,
            mouse_left: self.mouse_left,
            mouse_right: self.mouse_right,
            mouse_middle: self.mouse_middle,
            shift: self.shift,
            ctrl: self.ctrl,
            alt: self.alt,
            esc: if keycode == Keycode::Escape { value } else { self.esc },
        }
    }

    /// The keys after SDL reported whether the key behind `keycode` is
    /// down; only the letters `a` to `x` and escape are kept.
    pub open spec fn after_report(self, keycode: Keycode, is_down: bool) -> KeysState {
        self.with_slot(keycode, self.slot(keycode).after_report(is_down))
    }

    pub fn new() -> (r: Self)
        ensures
            r == KeysState::all_up(),
    {
        KeysState {
            a: KeyState::Up,
            b: KeyState::Up,
            c: KeyState::Up,
            d: KeyState::Up,
            e: KeyState::Up,
            f: KeyState::Up,
            g: KeyState::Up,
            h: KeyState::Up,
            i: KeyState::Up,
            j: KeyState::Up,
            k: KeyState::Up,
            l: KeyState::Up,
            m: KeyState::Up,
            n: KeyState::Up,
            o: KeyState::Up,
            p: KeyState::Up,
            q: KeyState::Up,
            r: KeyState::Up,
            s: KeyState::Up,
            t: KeyState::Up,
            u: KeyState::Up,
            v: KeyState::Up,
            w: KeyState::Up,
            x: KeyState::Up,
            up: KeyState::Up,
            down: KeyState::Up,
            left: KeyState::Up,
            right: KeyState::Up,
            _0: KeyState::Up,
            _1: KeyState::Up,
            _2: KeyState::Up,
            _3: KeyState::Up,
            _4: KeyState::Up,
            _5: KeyState::Up,
            _6: KeyState::Up,
            _7: KeyState::Up,
            _8: KeyState::Up,
            _9: KeyState::Up,
            space: KeyState::Up,
            enter: KeyState::Up,
            mouse_left: KeyState::Up,
            mouse_right: KeyState::Up,
            mouse_middle: KeyState::Up,
            shift: KeyState::Up,
            ctrl: KeyState::Up,
            alt: KeyState::Up,
            esc: KeyState::Up,
        }
    }

    fn get_key_state(key: &KeyState, is_down: bool) -> (r: KeyState)
        ensures
            r == key.after_report(is_down),
    {
        if is_down && *key != KeyState::Down {
            KeyState::Pressed
        } else if is_down {
            KeyState::Down
        } else if *key != KeyState::Up {
            KeyState::Released
        } else {
            KeyState::Up
        }
    }

    fn get_slot(&self, keycode: Keycode) -> (r: KeyState)
        ensures
            r == self.slot(keycode),
    {
        match keycode {
            Keycode::A => self.a,
            Keycode::B => self.b,
            Keycode::C => self.c,
            Keycode::D => self.d,
            Keycode::E => self.e,
            Keycode::F => self.f,
            Keycode::G => self.g,
            Keycode::H => self.h,
            Keycode::I => self.i,
            Keycode::J => self.j,
            Keycode::K => self.k,
            Keycode::L => self.l,
            Keycode::M => self.m,
            Keycode::N => self.n,
            Keycode::O => self.o,
            Keycode::P => self.p,
            Keycode::Q => self.q,
            Keycode::R => self.r,
            Keycode::S => self.s,
            Keycode::T => self.t,
            Keycode::U => self.u,
            Keycode::V => self.v,
            Keycode::W => self.w,
            Keycode::X => self.x,
            Keycode::Escape => self.esc,
            _ => KeyState::Up,
        }
    }

    fn set_slot(&mut self, keycode: Keycode, value: KeyState)
        ensures
            *final(self) == old(self).with_slot(keycode, value),
    {
        match keycode {
            Keycode::A => set(&mut self.a, value),
            Keycode::B => set(&mut self.b, value),
            Keycode::C => set(&mut self.c, value),
            Keycode::D => set(&mut self.d, value),
            Keycode::E => set(&mut self.e, value),
            Keycode::F => set(&mut self.f, value),
            Keycode::G => set(&mut self.g, value),
            Keycode::H => set(&mut self.h, value),
            Keycode::I => set(&mut self.i, value),
            Keycode::J => set(&mut self.j, value),
            Keycode::K => set(&mut self.k, value),
            Keycode::L => set(&mut self.l, value),
            Keycode::M => set(&mut self.m, value),
            Keycode::N => set(&mut self.n, value),
            Keycode::O => set(&mut self.o, value),
            Keycode::P => set(&mut self.p, value),
            Keycode::Q => set(&mut self.q, value),
            Keycode::R => set(&mut self.r, value),
            Keycode::S => set(&mut self.s, value),
            Keycode::T => set(&mut self.t, value),
            Keycode::U => set(&mut self.u, value),
            Keycode::V => set(&mut self.v, value),
            Keycode::W => set(&mut self.w, value),
            Keycode::X => set(&mut self.x, value),
            Keycode::Escape => set(&mut self.esc, value),
            _ => {},
        }
    }

    /// Records whether the key behind `keycode` is down. Returns whether the
    /// key is one of the keys kept; reports of other keys change nothing.
    pub fn set_key_state(&mut self, keycode: Keycode, is_down: bool) -> (known: bool)
        ensures
            *final(self) == old(self).after_report(keycode, is_down),
            known == keycode.is_demo_key(),
    {
        let value = Self::get_key_state(&self.get_slot(keycode), is_down);
        self.set_slot(keycode, value);
        match keycode {
            Keycode::A | Keycode::B | Keycode::C | Keycode::D | Keycode::E | Keycode::F | Keycode::G | Keycode::H | Keycode::I | Keycode::J | Keycode::K | Keycode::L | Keycode::M | Keycode::N | Keycode::O | Keycode::P | Keycode::Q | Keycode::R | Keycode::S | Keycode::T | Keycode::U | Keycode::V | Keycode::W | Keycode::X | Keycode::Escape => true,
            _ => false,
        }
    }

    /// Advances every key by one frame.
    pub fn update_all(&mut self)
        ensures
            *final(self) == old(self).next_frame(),
    {
        advance(&mut self.a);
        advance(&mut self.b);
        advance(&mut self.c);
        advance(&mut self.d);
        advance(&mut self.e);
        advance(&mut self.f);
        advance(&mut self.g);
        advance(&mut self.h);
        advance(&mut self.i);
        advance(&mut self.j);
        advance(&mut self.k);
        advance(&mut self.l);
        advance(&mut self.m);
        advance(&mut self.n);
        advance(&mut self.o);
        advance(&mut self.p);
        advance(&mut self.q);
        advance(&mut self.r);
        advance(&mut self.s);
        advance(&mut self.t);
        advance(&mut self.u);
        advance(&mut self.v);
        advance(&mut self.w);
        advance(&mut self.x);
        advance(&mut self.up);
        advance(&mut self.down);
        advance(&mut self.left);
        advance(&mut self.right);
        advance(&mut self._0);
        advance(&mut self._1);
        advance(&mut self._2);
        advance(&mut self._3);
        advance(&mut self._4);
        advance(&mut self._5);
        advance(&mut self._6);
        advance(&mut self._7);
        advance(&mut self._8);
        advance(&mut self._9);
        advance(&mut self.space);
        advance(&mut self.enter);
        advance(&mut self.mouse_left);
        advance(&mut self.mouse_right);
        advance(&mut self.mouse_middle);
        advance(&mut self.shift);
        advance(&mut self.ctrl);
        advance(&mut self.alt);
        advance(&mut self.esc);
    }
}

} // verus!

verus! {

/// The byte at the bottom of a key code, as SDL's numbering puts the
/// character of a printable key there.
pub open spec fn low_byte(code: int) -> int {
    code % 256
}

/// Whether a byte is an ASCII letter, digit, punctuation mark or white
/// space (space, tab, line feed, form feed or carriage return).
pub open spec fn is_typed_byte(b: int) -> bool {
    (33 <= b <= 126) || b == 32 || b == 9 || b == 10 || b == 12 || b == 13
}

/// The character a key press types in the demo window, if any: the low byte
/// of the key code, when it is printable ASCII or white space.
pub open spec fn typed_char(code: int) -> Option<char> {
    if is_typed_byte(low_byte(code)) {
        Some(low_byte(code) as char)
    } else {
        None
    }
}

fn low_byte_of(code: i32) -> (r: u8)
    ensures
        r == low_byte(code as int),
{
    if code >= 0 {
        (code % 256) as u8
    } else {
        let m: i64 = (-(code as i64)) % 256;
        if m == 0 {
            0
        } else {
            (256 - m) as u8
        }
    }
}

/// What the demo window knows about the keyboard in the current frame.
pub struct Input {
    pub should_quit: bool,
    pub keys_state: KeysState,
    /// The character typed during the frame, if any.
    pub last_char: Option<char>,
}

impl Input {
    /// No input yet.
    pub fn new() -> (r: Self)
        ensures
            !r.should_quit,
            r.keys_state == KeysState::all_up(),
            r.last_char is None,
    {
        Input { should_quit: false, keys_state: KeysState::new(), last_char: None }
    }

    /// Starts a new frame: the typed character is forgotten and every key
    /// advances one frame.
    pub fn begin_frame(&mut self)
        ensures
            final(self).should_quit == old(self).should_quit,
            final(self).keys_state == old(self).keys_state.next_frame(),
            final(self).last_char is None,
    {
        self.last_char = None;
        self.keys_state.update_all();
    }

    /// Takes one event of the frame into account. Returns whether the event
    /// reported a key the window does not keep.
    pub fn handle_event(&mut self, event: &crate::input::Event) -> (unknown_key: bool)
        ensures
            final(self).should_quit == (old(self).should_quit || *event is Quit),
            final(self).keys_state == match *event {
                crate::input::Event::KeyDown { keycode: Some(k) } => old(self).keys_state.after_report(k, true),
                crate::input::Event::KeyUp { keycode: Some(k) } => old(self).keys_state.after_report(k, false),
                _ => old(self).keys_state,
            },
            final(self).last_char == match *event {
                crate::input::Event::KeyDown { keycode: Some(k) } => match typed_char(k.code()) {
                    Some(c) => Some(c),
                    None => old(self).last_char,
                },
                _ => old(self).last_char,
            },
            unknown_key == match *event {
                crate::input::Event::KeyDown { keycode: Some(k) } => !k.is_demo_key(),
                crate::input::Event::KeyUp { keycode: Some(k) } => !k.is_demo_key(),
                _ => false,
            },
    {
        match event {
            crate::input::Event::Quit => {
                self.should_quit = true;
                false
            },
            crate::input::Event::KeyDown { keycode } => {
                match keycode {
                    Some(keycode) => {
                        let known = self.keys_state.set_key_state(*keycode, true);
                        let b = low_byte_of(keycode.to_code());
                        if (33 <= b && b <= 126) || b == 32 || b == 9 || b == 10 || b == 12 || b == 13 {
                            self.last_char = Some(b as char);
                        }
                        !known
                    },
                    None => false,
                }
            },
            crate::input::Event::KeyUp { keycode } => {
                match keycode {
                    Some(keycode) => !self.keys_state.set_key_state(*keycode, false),
                    None => false,
                }
            },
            _ => false,
        }
    }
}

} // verus!
