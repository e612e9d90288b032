use vstd::prelude::*;

verus! {

/// Where a key or button is in its press cycle. A press is reported for one
/// frame as `Pressed`, then the key stays `Down` until it is let go; the
/// release is reported for one frame as `Released`, then the key is `Up`.
#[derive(PartialEq, Eq, Debug, Clone, Copy, Structural)]
pub enum KeyState {
    Up,
    Pressed,
    Down,
    Released,
}

impl KeyState {
    /// The state a key moves to at the start of the next frame: the one-frame
    /// states `Pressed` and `Released` settle into `Down` and `Up`.
    pub open spec fn next_frame(self) -> KeyState {
        match self {
            KeyState::Pressed => KeyState::Down,
            KeyState::Released => KeyState::Up,
            other => other,
        }
    }

    /// A key that nobody has touched.
    pub fn new() -> (r: Self)
        ensures
            r == KeyState::Up,
    {
        Self::Up
    }

    /// Advances the key by one frame.
    pub fn update(&mut self)
        ensures
            *final(self) == old(self).next_frame(),
    {
        match self {
            Self::Pressed => {
                *self = Self::Down;
            },
            Self::Released => {
                *self = Self::Up;
            },
            _ => {},
        };
    }

    /// Records that the key went down during this frame.
    pub fn press(&mut self)
        ensures
            *final(self) == KeyState::Pressed,
    {
        *self = Self::Pressed
    }

    /// Records that the key went up during this frame.
    pub fn release(&mut self)
        ensures
            *final(self) == KeyState::Released,
    {
        *self = Self::Released
    }

    pub fn is_up(&self) -> (r: bool)
        ensures
            r == (*self == KeyState::Up),
    {
        *self == Self::Up
    }

    pub fn is_pressed(&self) -> (r: bool)
        ensures
            r == (*self == KeyState::Pressed),
    {
        *self == Self::Pressed
    }

    pub fn is_down(&self) -> (r: bool)
        ensures
            r == (*self == KeyState::Down),
    {
        *self == Self::Down
    }

    pub fn is_released(&self) -> (r: bool)
        ensures
            r == (*self == KeyState::Released),
    {
        *self == Self::Released
    }
}

/// After a frame has passed, a key is either up or down: the one-frame
/// states never last, and a further frame changes nothing.
pub proof fn lemma_next_frame_settles(s: KeyState)
    ensures
        s.next_frame() == KeyState::Up || s.next_frame() == KeyState::Down,
        s.next_frame().next_frame() == s.next_frame(),
{
}

/// A press is followed by the key being held, a release by the key being up.
pub proof fn lemma_press_then_hold(s: KeyState)
    ensures
        (s == KeyState::Pressed) ==> s.next_frame() == KeyState::Down,
        (s == KeyState::Released) ==> s.next_frame() == KeyState::Up,
{
}

/// The keys and buttons whose state is tracked.
#[derive(PartialEq, Eq, Debug, Clone, Copy, Structural)]
pub enum Key {
    A,
    B,
    C,
    D,
    E,
    F,
    G,
    H,
    I,
    J,
    K,
    L,
    M,
    N,
    O,
    P,
    Q,
    R,
    S,
    T,
    U,
    V,
    W,
    X,
    Up,
    Down,
    Left,
    Right,
    Space,
    Enter,
    MouseLeft,
    MouseRight,
    MouseMiddle,
    Shift,
    Ctrl,
    Alt,
    Escape,
    Backspace,
    Num0,
    Num1,
    Num2,
    Num3,
    Num4,
    Num5,
    Num6,
    Num7,
    Num8,
    Num9,
}

impl Key {
    /// The position of the key in `KeysState::as_mut_array`.
    pub open spec fn index(self) -> int {
        match self {
            Key::A => 0,
            Key::B => 1,
            Key::C => 2,
            Key::D => 3,
            Key::E => 4,
            Key::F => 5,
            Key::G => 6,
            Key::H => 7,
            Key::I => 8,
            Key::J => 9,
            Key::K => 10,
            Key::L => 11,
            Key::M => 12,
            Key::N => 13,
            Key::O => 14,
            Key::P => 15,
            Key::Q => 16,
            Key::R => 17,
            Key::S => 18,
            Key::T => 19,
            Key::U => 20,
            Key::V => 21,
            Key::W => 22,
            Key::X => 23,
            Key::Up => 24,
            Key::Down => 25,
            Key::Left => 26,
            Key::Right => 27,
            Key::Space => 28,
            Key::Enter => 29,
            Key::MouseLeft => 30,
            Key::MouseRight => 31,
            Key::MouseMiddle => 32,
            Key::Shift => 33,
            Key::Ctrl => 34,
            Key::Alt => 35,
            Key::Escape => 36,
            Key::Backspace => 37,
            Key::Num0 => 38,
            Key::Num1 => 39,
            Key::Num2 => 40,
            Key::Num3 => 41,
            Key::Num4 => 42,
            Key::Num5 => 43,
            Key::Num6 => 44,
            Key::Num7 => 45,
            Key::Num8 => 46,
            Key::Num9 => 47,
        }
    }
}

/// Two different keys sit at two different positions of the array.
pub proof fn lemma_key_index_injective(k1: Key, k2: Key)
    ensures
        0 <= k1.index() < 48,
        k1 != k2 ==> k1.index() != k2.index(),
{
}

/// A key code as reported by SDL. The codes this library reacts to have a
/// variant of their own; every other code is carried as `Other`.
#[derive(PartialEq, Eq, Debug, Clone, Copy, Structural)]
pub enum Keycode {
    Backspace,
    Return,
    Escape,
    Space,
    Num0,
    Num1,
    Num2,
    Num3,
    Num4,
    Num5,
    Num6,
    Num7,
    Num8,
    Num9,
    A,
    B,
    C,
    D,
    E,
    F,
    G,
    H,
    I,
    J,
    K,
    L,
    M,
    N,
    O,
    P,
    Q,
    R,
    S,
    T,
    U,
    V,
    W,
    X,
    Right,
    Left,
    Down,
    Up,
    LCtrl,
    RCtrl,
    Other(i32),
}

/// Whether `code` is the SDL code of one of the named key codes.
pub open spec fn is_named_code(code: int) -> bool {
    code == 8
        || code == 13
        || code == 27
        || code == 32
        || code == 48
        || code == 49
        || code == 50
        || code == 51
        || code == 52
        || code == 53
        || code == 54
        || code == 55
        || code == 56
        || code == 57
        || code == 97
        || code == 98
        || code == 99
        || code == 100
        || code == 101
        || code == 102
        || code == 103
        || code == 104
        || code == 105
        || code == 106
        || code == 107
        || code == 108
        || code == 109
        || code == 110
        || code == 111
        || code == 112
        || code == 113
        || code == 114
        || code == 115
        || code == 116
        || code == 117
        || code == 118
        || code == 119
        || code == 120
        || code == 1073741903
        || code == 1073741904
        || code == 1073741905
        || code == 1073741906
        || code == 1073742048
        || code == 1073742052
}

impl Keycode {
    /// The SDL number of the key code.
    pub open spec fn code(self) -> int {
        match self {
            Keycode::Backspace => 8,
            Keycode::Return => 13,
            Keycode::Escape => 27,
            Keycode::Space => 32,
            Keycode::Num0 => 48,
            Keycode::Num1 => 49,
            Keycode::Num2 => 50,
            Keycode::Num3 => 51,
            Keycode::Num4 => 52,
            Keycode::Num5 => 53,
            Keycode::Num6 => 54,
            Keycode::Num7 => 55,
            Keycode::Num8 => 56,
            Keycode::Num9 => 57,
            Keycode::A => 97,
            Keycode::B => 98,
            Keycode::C => 99,
            Keycode::D => 100,
            Keycode::E => 101,
            Keycode::F => 102,
            Keycode::G => 103,
            Keycode::H => 104,
            Keycode::I => 105,
            Keycode::J => 106,
            Keycode::K => 107,
            Keycode::L => 108,
            Keycode::M => 109,
            Keycode::N => 110,
            Keycode::O => 111,
            Keycode::P => 112,
            Keycode::Q => 113,
            Keycode::R => 114,
            Keycode::S => 115,
            Keycode::T => 116,
            Keycode::U => 117,
            Keycode::V => 118,
            Keycode::W => 119,
            Keycode::X => 120,
            Keycode::Right => 1073741903,
            Keycode::Left => 1073741904,
            Keycode::Down => 1073741905,
            Keycode::Up => 1073741906,
            Keycode::LCtrl => 1073742048,
            Keycode::RCtrl => 1073742052,
            Keycode::Other(c) => c as int,
        }
    }

    /// The tracked key that a key code drives, if any. Both control keys
    /// drive the space bar's state.
    pub open spec fn key(self) -> Option<Key> {
        match self {
            Keycode::Backspace => Some(Key::Backspace),
            Keycode::A => Some(Key::A),
            Keycode::B => Some(Key::B),
            Keycode::C => Some(Key::C),
            Keycode::D => Some(Key::D),
            Keycode::E => Some(Key::E),
            Keycode::F => Some(Key::F),
            Keycode::G => Some(Key::G),
            Keycode::H => Some(Key::H),
            Keycode::I => Some(Key::I),
            Keycode::J => Some(Key::J),
            Keycode::K => Some(Key::K),
            Keycode::L => Some(Key::L),
            Keycode::M => Some(Key::M),
            Keycode::N => Some(Key::N),
            Keycode::O => Some(Key::O),
            Keycode::P => Some(Key::P),
            Keycode::Q => Some(Key::Q),
            Keycode::R => Some(Key::R),
            Keycode::S => Some(Key::S),
            Keycode::T => Some(Key::T),
            Keycode::U => Some(Key::U),
            Keycode::V => Some(Key::V),
            Keycode::W => Some(Key::W),
            Keycode::X => Some(Key::X),
            Keycode::Escape => Some(Key::Escape),
            Keycode::Up => Some(Key::Up),
            Keycode::Down => Some(Key::Down),
            Keycode::Left => Some(Key::Left),
            Keycode::Right => Some(Key::Right),
            Keycode::Num0 => Some(Key::Num0),
            Keycode::Num1 => Some(Key::Num1),
            Keycode::Num2 => Some(Key::Num2),
            Keycode::Num3 => Some(Key::Num3),
            Keycode::Num4 => Some(Key::Num4),
            Keycode::Num5 => Some(Key::Num5),
            Keycode::Num6 => Some(Key::Num6),
            Keycode::Num7 => Some(Key::Num7),
            Keycode::Num8 => Some(Key::Num8),
            Keycode::Num9 => Some(Key::Num9),
            Keycode::Space => Some(Key::Space),
            Keycode::Return => Some(Key::Enter),
            Keycode::LCtrl => Some(Key::Space),
            Keycode::RCtrl => Some(Key::Space),
            _ => None,
        }
    }

    /// The key code with the given SDL number.
    pub fn from_code(code: i32) -> (r: Keycode)
        ensures
            r.code() == code,
            (r is Other) <==> !is_named_code(code as int),
    {
        match code {
            8 => Keycode::Backspace,
            13 => Keycode::Return,
            27 => Keycode::Escape,
            32 => Keycode::Space,
            48 => Keycode::Num0,
            49 => Keycode::Num1,
            50 => Keycode::Num2,
            51 => Keycode::Num3,
            52 => Keycode::Num4,
            53 => Keycode::Num5,
            54 => Keycode::Num6,
            55 => Keycode::Num7,
            56 => Keycode::Num8,
            57 => Keycode::Num9,
            97 => Keycode::A,
            98 => Keycode::B,
            99 => Keycode::C,
            100 => Keycode::D,
            101 => Keycode::E,
            102 => Keycode::F,
            103 => Keycode::G,
            104 => Keycode::H,
            105 => Keycode::I,
            106 => Keycode::J,
            107 => Keycode::K,
            108 => Keycode::L,
            109 => Keycode::M,
            110 => Keycode::N,
            111 => Keycode::O,
            112 => Keycode::P,
            113 => Keycode::Q,
            114 => Keycode::R,
            115 => Keycode::S,
            116 => Keycode::T,
            117 => Keycode::U,
            118 => Keycode::V,
            119 => Keycode::W,
            120 => Keycode::X,
            1073741903 => Keycode::Right,
            1073741904 => Keycode::Left,
            1073741905 => Keycode::Down,
            1073741906 => Keycode::Up,
            1073742048 => Keycode::LCtrl,
            1073742052 => Keycode::RCtrl,
            other => Keycode::Other(other),
        }
    }

    /// The SDL number of the key code.
    pub fn to_code(&self) -> (r: i32)
        ensures
            r == self.code(),
    {
        match self {
            Keycode::Backspace => 8,
            Keycode::Return => 13,
            Keycode::Escape => 27,
            Keycode::Space => 32,
            Keycode::Num0 => 48,
            Keycode::Num1 => 49,
            Keycode::Num2 => 50,
            Keycode::Num3 => 51,
            Keycode::Num4 => 52,
            Keycode::Num5 => 53,
            Keycode::Num6 => 54,
            Keycode::Num7 => 55,
            Keycode::Num8 => 56,
            Keycode::Num9 => 57,
            Keycode::A => 97,
            Keycode::B => 98,
            Keycode::C => 99,
            Keycode::D => 100,
            Keycode::E => 101,
            Keycode::F => 102,
            Keycode::G => 103,
            Keycode::H => 104,
            Keycode::I => 105,
            Keycode::J => 106,
            Keycode::K => 107,
            Keycode::L => 108,
            Keycode::M => 109,
            Keycode::N => 110,
            Keycode::O => 111,
            Keycode::P => 112,
            Keycode::Q => 113,
            Keycode::R => 114,
            Keycode::S => 115,
            Keycode::T => 116,
            Keycode::U => 117,
            Keycode::V => 118,
            Keycode::W => 119,
            Keycode::X => 120,
            Keycode::Right => 1073741903,
            Keycode::Left => 1073741904,
            Keycode::Down => 1073741905,
            Keycode::Up => 1073741906,
            Keycode::LCtrl => 1073742048,
            Keycode::RCtrl => 1073742052,
            Keycode::Other(c) => *c,
        }
    }

    /// Whether the key code drives a tracked key.
    pub fn is_tracked(&self) -> (r: bool)
        ensures
            r == self.key().is_some(),
    {
        match self.key_of() {
            Some(_) => true,
            None => false,
        }
    }

    fn key_of(&self) -> (r: Option<Key>)
        ensures
            r == self.key(),
    {
        match self {
            Keycode::Backspace => Some(Key::Backspace),
            Keycode::A => Some(Key::A),
            Keycode::B => Some(Key::B),
            Keycode::C => Some(Key::C),
            Keycode::D => Some(Key::D),
            Keycode::E => Some(Key::E),
            Keycode::F => Some(Key::F),
            Keycode::G => Some(Key::G),
            Keycode::H => Some(Key::H),
            Keycode::I => Some(Key::I),
            Keycode::J => Some(Key::J),
            Keycode::K => Some(Key::K),
            Keycode::L => Some(Key::L),
            Keycode::M => Some(Key::M),
            Keycode::N => Some(Key::N),
            Keycode::O => Some(Key::O),
            Keycode::P => Some(Key::P),
            Keycode::Q => Some(Key::Q),
            Keycode::R => Some(Key::R),
            Keycode::S => Some(Key::S),
            Keycode::T => Some(Key::T),
            Keycode::U => Some(Key::U),
            Keycode::V => Some(Key::V),
            Keycode::W => Some(Key::W),
            Keycode::X => Some(Key::X),
            Keycode::Escape => Some(Key::Escape),
            Keycode::Up => Some(Key::Up),
            Keycode::Down => Some(Key::Down),
            Keycode::Left => Some(Key::Left),
            Keycode::Right => Some(Key::Right),
            Keycode::Num0 => Some(Key::Num0),
            Keycode::Num1 => Some(Key::Num1),
            Keycode::Num2 => Some(Key::Num2),
            Keycode::Num3 => Some(Key::Num3),
            Keycode::Num4 => Some(Key::Num4),
            Keycode::Num5 => Some(Key::Num5),
            Keycode::Num6 => Some(Key::Num6),
            Keycode::Num7 => Some(Key::Num7),
            Keycode::Num8 => Some(Key::Num8),
            Keycode::Num9 => Some(Key::Num9),
            Keycode::Space => Some(Key::Space),
            Keycode::Return => Some(Key::Enter),
            Keycode::LCtrl => Some(Key::Space),
            Keycode::RCtrl => Some(Key::Space),
            _ => None,
        }
    }
}

/// The key codes carry SDL's numbers: a key that types a character has
/// that character's code point; any other key has its scancode with bit 30
/// set (the arrows are scancodes 79 to 82, the control keys 224 and 228).
pub proof fn lemma_codes_follow_sdl()
    ensures
        Keycode::A.code() == ('a' as int),
        Keycode::B.code() == ('b' as int),
        Keycode::C.code() == ('c' as int),
        Keycode::D.code() == ('d' as int),
        Keycode::E.code() == ('e' as int),
        Keycode::F.code() == ('f' as int),
        Keycode::G.code() == ('g' as int),
        Keycode::H.code() == ('h' as int),
        Keycode::I.code() == ('i' as int),
        Keycode::J.code() == ('j' as int),
        Keycode::K.code() == ('k' as int),
        Keycode::L.code() == ('l' as int),
        Keycode::M.code() == ('m' as int),
        Keycode::N.code() == ('n' as int),
        Keycode::O.code() == ('o' as int),
        Keycode::P.code() == ('p' as int),
        Keycode::Q.code() == ('q' as int),
        Keycode::R.code() == ('r' as int),
        Keycode::S.code() == ('s' as int),
        Keycode::T.code() == ('t' as int),
        Keycode::U.code() == ('u' as int),
        Keycode::V.code() == ('v' as int),
        Keycode::W.code() == ('w' as int),
        Keycode::X.code() == ('x' as int),
        Keycode::Num0.code() == ('0' as int),
        Keycode::Num1.code() == ('1' as int),
        Keycode::Num2.code() == ('2' as int),
        Keycode::Num3.code() == ('3' as int),
        Keycode::Num4.code() == ('4' as int),
        Keycode::Num5.code() == ('5' as int),
        Keycode::Num6.code() == ('6' as int),
        Keycode::Num7.code() == ('7' as int),
        Keycode::Num8.code() == ('8' as int),
        Keycode::Num9.code() == ('9' as int),
        Keycode::Backspace.code() == ('\u{8}' as int),
        Keycode::Return.code() == ('\r' as int),
        Keycode::Escape.code() == ('\u{1b}' as int),
        Keycode::Space.code() == (' ' as int),
        Keycode::Right.code() == 0x4000_0000 + 79,
        Keycode::Left.code() == 0x4000_0000 + 80,
        Keycode::Down.code() == 0x4000_0000 + 81,
        Keycode::Up.code() == 0x4000_0000 + 82,
        Keycode::LCtrl.code() == 0x4000_0000 + 224,
        Keycode::RCtrl.code() == 0x4000_0000 + 228,
{
}

/// The state of each key is the field of its own name.
pub proof fn lemma_state_is_own_field(keys: KeysState)
    ensures
        keys.state(Key::A) == keys.a,
        keys.state(Key::B) == keys.b,
        keys.state(Key::C) == keys.c,
        keys.state(Key::D) == keys.d,
        keys.state(Key::E) == keys.e,
        keys.state(Key::F) == keys.f,
        keys.state(Key::G) == keys.g,
        keys.state(Key::H) == keys.h,
        keys.state(Key::I) == keys.i,
        keys.state(Key::J) == keys.j,
        keys.state(Key::K) == keys.k,
        keys.state(Key::L) == keys.l,
        keys.state(Key::M) == keys.m,
        keys.state(Key::N) == keys.n,
        keys.state(Key::O) == keys.o,
        keys.state(Key::P) == keys.p,
        keys.state(Key::Q) == keys.q,
        keys.state(Key::R) == keys.r,
        keys.state(Key::S) == keys.s,
        keys.state(Key::T) == keys.t,
        keys.state(Key::U) == keys.u,
        keys.state(Key::V) == keys.v,
        keys.state(Key::W) == keys.w,
        keys.state(Key::X) == keys.x,
        keys.state(Key::Up) == keys.up,
        keys.state(Key::Down) == keys.down,
        keys.state(Key::Left) == keys.left,
        keys.state(Key::Right) == keys.right,
        keys.state(Key::Space) == keys.space,
        keys.state(Key::Enter) == keys.enter,
        keys.state(Key::MouseLeft) == keys.mouse_left,
        keys.state(Key::MouseRight) == keys.mouse_right,
        keys.state(Key::MouseMiddle) == keys.mouse_middle,
        keys.state(Key::Shift) == keys.shift,
        keys.state(Key::Ctrl) == keys.ctrl,
        keys.state(Key::Alt) == keys.alt,
        keys.state(Key::Escape) == keys.escape,
        keys.state(Key::Backspace) == keys.backspace,
        keys.state(Key::Num0) == keys._0,
        keys.state(Key::Num1) == keys._1,
        keys.state(Key::Num2) == keys._2,
        keys.state(Key::Num3) == keys._3,
        keys.state(Key::Num4) == keys._4,
        keys.state(Key::Num5) == keys._5,
        keys.state(Key::Num6) == keys._6,
        keys.state(Key::Num7) == keys._7,
        keys.state(Key::Num8) == keys._8,
        keys.state(Key::Num9) == keys._9,
{
}

/// Each named key code drives the key of its own name, and that key only:
/// recording a state for it changes the field of that name and leaves
/// every other field as it was. The two exceptions are the return key,
/// which drives `enter`, and both control keys, which drive `space`.
#[verifier::rlimit(100)]
#[verifier::spinoff_prover]
pub proof fn lemma_key_codes_drive_their_own_key(keys: KeysState, value: KeyState)
    ensures
        keys.with_key(Keycode::Backspace.key().unwrap(), value) == (KeysState { backspace: value, ..keys }),
        keys.with_key(Keycode::Return.key().unwrap(), value) == (KeysState { enter: value, ..keys }),
        keys.with_key(Keycode::Escape.key().unwrap(), value) == (KeysState { escape: value, ..keys }),
        keys.with_key(Keycode::Space.key().unwrap(), value) == (KeysState { space: value, ..keys }),
        keys.with_key(Keycode::Num0.key().unwrap(), value) == (KeysState { _0: value, ..keys }),
        keys.with_key(Keycode::Num1.key().unwrap(), value) == (KeysState { _1: value, ..keys }),
        keys.with_key(Keycode::Num2.key().unwrap(), value) == (KeysState { _2: value, ..keys }),
        keys.with_key(Keycode::Num3.key().unwrap(), value) == (KeysState { _3: value, ..keys }),
        keys.with_key(Keycode::Num4.key().unwrap(), value) == (KeysState { _4: value, ..keys }),
        keys.with_key(Keycode::Num5.key().unwrap(), value) == (KeysState { _5: value, ..keys }),
        keys.with_key(Keycode::Num6.key().unwrap(), value) == (KeysState { _6: value, ..keys }),
        keys.with_key(Keycode::Num7.key().unwrap(), value) == (KeysState { _7: value, ..keys }),
        keys.with_key(Keycode::Num8.key().unwrap(), value) == (KeysState { _8: value, ..keys }),
        keys.with_key(Keycode::Num9.key().unwrap(), value) == (KeysState { _9: value, ..keys }),
        keys.with_key(Keycode::A.key().unwrap(), value) == (KeysState { a: value, ..keys }),
        keys.with_key(Keycode::B.key().unwrap(), value) == (KeysState { b: value, ..keys }),
        keys.with_key(Keycode::C.key().unwrap(), value) == (KeysState { c: value, ..keys }),
        keys.with_key(Keycode::D.key().unwrap(), value) == (KeysState { d: value, ..keys }),
        keys.with_key(Keycode::E.key().unwrap(), value) == (KeysState { e: value, ..keys }),
        keys.with_key(Keycode::F.key().unwrap(), value) == (KeysState { f: value, ..keys }),
        keys.with_key(Keycode::G.key().unwrap(), value) == (KeysState { g: value, ..keys }),
        keys.with_key(Keycode::H.key().unwrap(), value) == (KeysState { h: value, ..keys }),
        keys.with_key(Keycode::I.key().unwrap(), value) == (KeysState { i: value, ..keys }),
        keys.with_key(Keycode::J.key().unwrap(), value) == (KeysState { j: value, ..keys }),
        keys.with_key(Keycode::K.key().unwrap(), value) == (KeysState { k: value, ..keys }),
        keys.with_key(Keycode::L.key().unwrap(), value) == (KeysState { l: value, ..keys }),
        keys.with_key(Keycode::M.key().unwrap(), value) == (KeysState { m: value, ..keys }),
        keys.with_key(Keycode::N.key().unwrap(), value) == (KeysState { n: value, ..keys }),
        keys.with_key(Keycode::O.key().unwrap(), value) == (KeysState { o: value, ..keys }),
        keys.with_key(Keycode::P.key().unwrap(), value) == (KeysState { p: value, ..keys }),
        keys.with_key(Keycode::Q.key().unwrap(), value) == (KeysState { q: value, ..keys }),
        keys.with_key(Keycode::R.key().unwrap(), value) == (KeysState { r: value, ..keys }),
        keys.with_key(Keycode::S.key().unwrap(), value) == (KeysState { s: value, ..keys }),
        keys.with_key(Keycode::T.key().unwrap(), value) == (KeysState { t: value, ..keys }),
        keys.with_key(Keycode::U.key().unwrap(), value) == (KeysState { u: value, ..keys }),
        keys.with_key(Keycode::V.key().unwrap(), value) == (KeysState { v: value, ..keys }),
        keys.with_key(Keycode::W.key().unwrap(), value) == (KeysState { w: value, ..keys }),
        keys.with_key(Keycode::X.key().unwrap(), value) == (KeysState { x: value, ..keys }),
        keys.with_key(Keycode::Right.key().unwrap(), value) == (KeysState { right: value, ..keys }),
        keys.with_key(Keycode::Left.key().unwrap(), value) == (KeysState { left: value, ..keys }),
        keys.with_key(Keycode::Down.key().unwrap(), value) == (KeysState { down: value, ..keys }),
        keys.with_key(Keycode::Up.key().unwrap(), value) == (KeysState { up: value, ..keys }),
        keys.with_key(Keycode::LCtrl.key().unwrap(), value) == (KeysState { space: value, ..keys }),
        keys.with_key(Keycode::RCtrl.key().unwrap(), value) == (KeysState { space: value, ..keys }),
{
}

/// The state of every tracked key and mouse button.
#[derive(Debug)]
pub struct KeysState {
    pub a: KeyState,
    pub b: KeyState,
    pub c: KeyState,
    pub d: KeyState,
    pub e: KeyState,
    pub f: KeyState,
    pub g: KeyState,
    pub h: KeyState,
    pub i: KeyState,
    pub j: KeyState,
    pub k: KeyState,
    pub l: KeyState,
    pub m: KeyState,
    pub n: KeyState,
    pub o: KeyState,
    pub p: KeyState,
    pub q: KeyState,
    pub r: KeyState,
    pub s: KeyState,
    pub t: KeyState,
    pub u: KeyState,
    pub v: KeyState,
    pub w: KeyState,
    pub x: KeyState,
    pub up: KeyState,
    pub down: KeyState,
    pub left: KeyState,
    pub right: KeyState,
    pub _0: KeyState,
    pub _1: KeyState,
    pub _2: KeyState,
    pub _3: KeyState,
    pub _4: KeyState,
    pub _5: KeyState,
    pub _6: KeyState,
    pub _7: KeyState,
    pub _8: KeyState,
    pub _9: KeyState,
    pub space: KeyState,
    pub enter: KeyState,
    pub mouse_left: KeyState,
    pub mouse_right: KeyState,
    pub mouse_middle: KeyState,
    pub shift: KeyState,
    pub ctrl: KeyState,
    pub alt: KeyState,
    pub escape: KeyState,
    pub backspace: KeyState,
}

impl KeysState {
    /// The state of one key.
    pub open spec fn state(self, key: Key) -> KeyState {
        match key {
            Key::A => self.a,
            Key::B => self.b,
            Key::C => self.c,
            Key::D => self.d,
            Key::E => self.e,
            Key::F => self.f,
            Key::G => self.g,
            Key::H => self.h,
            Key::I => self.i,
            Key::J => self.j,
            Key::K => self.k,
            Key::L => self.l,
            Key::M => self.m,
            Key::N => self.n,
            Key::O => self.o,
            Key::P => self.p,
            Key::Q => self.q,
            Key::R => self.r,
            Key::S => self.s,
            Key::T => self.t,
            Key::U => self.u,
            Key::V => self.v,
            Key::W => self.w,
            Key::X => self.x,
            Key::Up => self.up,
            Key::Down => self.down,
            Key::Left => self.left,
            Key::Right => self.right,
            Key::Space => self.space,
            Key::Enter => self.enter,
            Key::MouseLeft => self.mouse_left,
            Key::MouseRight => self.mouse_right,
            Key::MouseMiddle => self.mouse_middle,
            Key::Shift => self.shift,
            Key::Ctrl => self.ctrl,
            Key::Alt => self.alt,
            Key::Escape => self.escape,
            Key::Backspace => self.backspace,
            Key::Num0 => self._0,
            Key::Num1 => self._1,
            Key::Num2 => self._2,
            Key::Num3 => self._3,
            Key::Num4 => self._4,
            Key::Num5 => self._5,
            Key::Num6 => self._6,
            Key::Num7 => self._7,
            Key::Num8 => self._8,
            Key::Num9 => self._9,
        }
    }

    /// The same states with the state of `key` replaced by `value`.
    pub open spec fn with_key(self, key: Key, value: KeyState) -> KeysState {
        KeysState {
            a: if key == Key::A { value } else { self.a },
            b: if key == Key::B { value } else { self.b },
            c: if key == Key::C { value } else { self.c },
            d: if key == Key::D { value } else { self.d },
            e: if key == Key::E { value } else { self.e },
            f: if key == Key::F { value } else { self.f },
            g: if key == Key::G { value } else { self.g },
            h: if key == Key::H { value } else { self.h },
            i: if key == Key::I { value } else { self.i },
            j: if key == Key::J { value } else { self.j },
            k: if key == Key::K { value } else { self.k },
            l: if key == Key::L { value } else { self.l },
            m: if key == Key::M { value } else { self.m },
            n: if key == Key::N { value } else { self.n },
            o: if key == Key::O { value } else { self.o },
            p: if key == Key::P { value } else { self.p },
            q: if key == Key::Q { value } else { self.q },
            r: if key == Key::R { value } else { self.r },
            s: if key == Key::S { value } else { self.s },
            t: if key == Key::T { value } else { self.t },
            u: if key == Key::U { value } else { self.u },
            v: if key == Key::V { value } else { self.v },
            w: if key == Key::W { value } else { self.w },
            x: if key == Key::X { value } else { self.x },
            up: if key == Key::Up { value } else { self.up },
            down: if key == Key::Down { value } else { self.down },
            left: if key == Key::Left { value } else { self.left },
            right: if key == Key::Right { value } else { self.right },
            _0: if key == Key::Num0 { value } else { self._0 },
            _1: if key == Key::Num1 { value } else { self._1 },
            _2: if key == Key::Num2 { value } else { self._2 },
            _3: if key == Key::Num3 { value } else { self._3 },
            _4: if key == Key::Num4 { value } else { self._4 },
            _5: if key == Key::Num5 { value } else { self._5 },
            _6: if key == Key::Num6 { value } else { self._6 },
            _7: if key == Key::Num7 { value } else { self._7 },
            _8: if key == Key::Num8 { value } else { self._8 },
            _9: if key == Key::Num9 { value } else { self._9 },
            space: if key == Key::Space { value } else { self.space },
            enter: if key == Key::Enter { value } else { self.enter },
            mouse_left: if key == Key::MouseLeft { value } else { self.mouse_left },
            mouse_right: if key == Key::MouseRight { value } else { self.mouse_right },
            mouse_middle: if key == Key::MouseMiddle { value } else { self.mouse_middle },
            shift: if key == Key::Shift { value } else { self.shift },
            ctrl: if key == Key::Ctrl { value } else { self.ctrl },
            alt: if key == Key::Alt { value } else { self.alt },
            escape: if key == Key::Escape { value } else { self.escape },
            backspace: if key == Key::Backspace { value } else { self.backspace },
        }
    }

    /// Replacing the state of one key leaves every other key as it was.
    pub proof fn lemma_with_key(self, key: Key, value: KeyState, k: Key)
        ensures
            self.with_key(key, value).state(k) == if k == key {
                value
            } else {
                self.state(k)
            },
    {
        match k {
            Key::A => {},
            Key::B => {},
            Key::C => {},
            Key::D => {},
            Key::E => {},
            Key::F => {},
            Key::G => {},
            Key::H => {},
            Key::I => {},
            Key::J => {},
            Key::K => {},
            Key::L => {},
            Key::M => {},
            Key::N => {},
            Key::O => {},
            Key::P => {},
            Key::Q => {},
            Key::R => {},
            Key::S => {},
            Key::T => {},
            Key::U => {},
            Key::V => {},
            Key::W => {},
            Key::X => {},
            Key::Up => {},
            Key::Down => {},
            Key::Left => {},
            Key::Right => {},
            Key::Space => {},
            Key::Enter => {},
            Key::MouseLeft => {},
            Key::MouseRight => {},
            Key::MouseMiddle => {},
            Key::Shift => {},
            Key::Ctrl => {},
            Key::Alt => {},
            Key::Escape => {},
            Key::Backspace => {},
            Key::Num0 => {},
            Key::Num1 => {},
            Key::Num2 => {},
            Key::Num3 => {},
            Key::Num4 => {},
            Key::Num5 => {},
            Key::Num6 => {},
            Key::Num7 => {},
            Key::Num8 => {},
            Key::Num9 => {},
        }
    }

    /// Every key up.
    pub fn new() -> (r: Self)
        ensures
            forall|k: Key| #[trigger] r.state(k) == KeyState::Up,
    {
        KeysState {
            a: KeyState::new(),
            b: KeyState::new(),
            c: KeyState::new(),
            d: KeyState::new(),
            e: KeyState::new(),
            f: KeyState::new(),
            g: KeyState::new(),
            h: KeyState::new(),
            i: KeyState::new(),
            j: KeyState::new(),
            k: KeyState::new(),
            l: KeyState::new(),
            m: KeyState::new(),
            n: KeyState::new(),
            o: KeyState::new(),
            p: KeyState::new(),
            q: KeyState::new(),
            r: KeyState::new(),
            s: KeyState::new(),
            t: KeyState::new(),
            u: KeyState::new(),
            v: KeyState::new(),
            w: KeyState::new(),
            x: KeyState::new(),
            up: KeyState::new(),
            down: KeyState::new(),
            left: KeyState::new(),
            right: KeyState::new(),
            _0: KeyState::new(),
            _1: KeyState::new(),
            _2: KeyState::new(),
            _3: KeyState::new(),
            _4: KeyState::new(),
            _5: KeyState::new(),
            _6: KeyState::new(),
            _7: KeyState::new(),
            _8: KeyState::new(),
            _9: KeyState::new(),
            space: KeyState::new(),
            enter: KeyState::new(),
            mouse_left: KeyState::new(),
            mouse_right: KeyState::new(),
            mouse_middle: KeyState::new(),
            shift: KeyState::new(),
            ctrl: KeyState::new(),
            alt: KeyState::new(),
            escape: KeyState::new(),
            backspace: KeyState::new(),
        }
    }

    /// Records that the key behind `keycode` went down. Only tracked key
    /// codes may be reported.
    pub fn press_key(&mut self, keycode: Keycode)
        requires
            keycode.key() is Some,
        ensures
            *final(self) == old(self).with_key(keycode.key().unwrap(), KeyState::Pressed),
    {
        match keycode {
            Keycode::Backspace => self.backspace.press(),
            Keycode::A => self.a.press(),
            Keycode::B => self.b.press(),
            Keycode::C => self.c.press(),
            Keycode::D => self.d.press(),
            Keycode::E => self.e.press(),
            Keycode::F => self.f.press(),
            Keycode::G => self.g.press(),
            Keycode::H => self.h.press(),
            Keycode::I => self.i.press(),
            Keycode::J => self.j.press(),
            Keycode::K => self.k.press(),
            Keycode::L => self.l.press(),
            Keycode::M => self.m.press(),
            Keycode::N => self.n.press(),
            Keycode::O => self.o.press(),
            Keycode::P => self.p.press(),
            Keycode::Q => self.q.press(),
            Keycode::R => self.r.press(),
            Keycode::S => self.s.press(),
            Keycode::T => self.t.press(),
            Keycode::U => self.u.press(),
            Keycode::V => self.v.press(),
            Keycode::W => self.w.press(),
            Keycode::X => self.x.press(),
            Keycode::Escape => self.escape.press(),
            Keycode::Up => self.up.press(),
            Keycode::Down => self.down.press(),
            Keycode::Left => self.left.press(),
            Keycode::Right => self.right.press(),
            Keycode::Num0 => self._0.press(),
            Keycode::Num1 => self._1.press(),
            Keycode::Num2 => self._2.press(),
            Keycode::Num3 => self._3.press(),
            Keycode::Num4 => self._4.press(),
            Keycode::Num5 => self._5.press(),
            Keycode::Num6 => self._6.press(),
            Keycode::Num7 => self._7.press(),
            Keycode::Num8 => self._8.press(),
            Keycode::Num9 => self._9.press(),
            Keycode::Space => self.space.press(),
            Keycode::Return => self.enter.press(),
            Keycode::LCtrl => self.space.press(),
            Keycode::RCtrl => self.space.press(),
            Keycode::Other(_) => {},
        }
    }

    /// Records that the key behind `keycode` went up. Only tracked key
    /// codes may be reported.
    pub fn release_key(&mut self, keycode: Keycode)
        requires
            keycode.key() is Some,
        ensures
            *final(self) == old(self).with_key(keycode.key().unwrap(), KeyState::Released),
    {
        match keycode {
            Keycode::Backspace => self.backspace.release(),
            Keycode::A => self.a.release(),
            Keycode::B => self.b.release(),
            Keycode::C => self.c.release(),
            Keycode::D => self.d.release(),
            Keycode::E => self.e.release(),
            Keycode::F => self.f.release(),
            Keycode::G => self.g.release(),
            Keycode::H => self.h.release(),
            Keycode::I => self.i.release(),
            Keycode::J => self.j.release(),
            Keycode::K => self.k.release(),
            Keycode::L => self.l.release(),
            Keycode::M => self.m.release(),
            Keycode::N => self.n.release(),
            Keycode::O => self.o.release(),
            Keycode::P => self.p.release(),
            Keycode::Q => self.q.release(),
            Keycode::R => self.r.release(),
            Keycode::S => self.s.release(),
            Keycode::T => self.t.release(),
            Keycode::U => self.u.release(),
            Keycode::V => self.v.release(),
            Keycode::W => self.w.release(),
            Keycode::X => self.x.release(),
            Keycode::Escape => self.escape.release(),
            Keycode::Up => self.up.release(),
            Keycode::Down => self.down.release(),
            Keycode::Left => self.left.release(),
            Keycode::Right => self.right.release(),
            Keycode::Num0 => self._0.release(),
            Keycode::Num1 => self._1.release(),
            Keycode::Num2 => self._2.release(),
            Keycode::Num3 => self._3.release(),
            Keycode::Num4 => self._4.release(),
            Keycode::Num5 => self._5.release(),
            Keycode::Num6 => self._6.release(),
            Keycode::Num7 => self._7.release(),
            Keycode::Num8 => self._8.release(),
            Keycode::Num9 => self._9.release(),
            Keycode::Space => self.space.release(),
            Keycode::Return => self.enter.release(),
            Keycode::LCtrl => self.space.release(),
            Keycode::RCtrl => self.space.release(),
            Keycode::Other(_) => {},
        }
    }

    /// Advances every key by one frame.
    pub fn update_all(&mut self)
        ensures
            forall|k: Key| #[trigger] final(self).state(k) == old(self).state(k).next_frame(),
    {
        self.a.update();
        self.b.update();
        self.c.update();
        self.d.update();
        self.e.update();
        self.f.update();
        self.g.update();
        self.h.update();
        self.i.update();
        self.j.update();
        self.k.update();
        self.l.update();
        self.m.update();
        self.n.update();
        self.o.update();
        self.p.update();
        self.q.update();
        self.r.update();
        self.s.update();
        self.t.update();
        self.u.update();
        self.v.update();
        self.w.update();
        self.x.update();
        self.up.update();
        self.down.update();
        self.left.update();
        self.right.update();
        self._0.update();
        self._1.update();
        self._2.update();
        self._3.update();
        self._4.update();
        self._5.update();
        self._6.update();
        self._7.update();
        self._8.update();
        self._9.update();
        self.space.update();
        self.enter.update();
        self.mouse_left.update();
        self.mouse_right.update();
        self.mouse_middle.update();
        self.shift.update();
        self.ctrl.update();
        self.alt.update();
        self.escape.update();
        self.backspace.update();
    }

    /// A mutable reference to every key, in the order of `Key::index`.
    #[verifier::rlimit(100)]
    #[verifier::spinoff_prover]
    pub fn as_mut_array(&mut self) -> (r: [&mut KeyState; 48])
        ensures
            forall|k: Key| #[trigger] old(self).state(k) == *r[k.index()],
            forall|k: Key| #[trigger] final(self).state(k) == *final(r[k.index()]),
    {
        [
            &mut self.a,
            &mut self.b,
            &mut self.c,
            &mut self.d,
            &mut self.e,
            &mut self.f,
            &mut self.g,
            &mut self.h,
            &mut self.i,
            &mut self.j,
            &mut self.k,
            &mut self.l,
            &mut self.m,
            &mut self.n,
            &mut self.o,
            &mut self.p,
            &mut self.q,
            &mut self.r,
            &mut self.s,
            &mut self.t,
            &mut self.u,
            &mut self.v,
            &mut self.w,
            &mut self.x,
            &mut self.up,
            &mut self.down,
            &mut self.left,
            &mut self.right,
            &mut self.space,
            &mut self.enter,
            &mut self.mouse_left,
            &mut self.mouse_right,
            &mut self.mouse_middle,
            &mut self.shift,
            &mut self.ctrl,
            &mut self.alt,
            &mut self.escape,
            &mut self.backspace,
            &mut self._0,
            &mut self._1,
            &mut self._2,
            &mut self._3,
            &mut self._4,
            &mut self._5,
            &mut self._6,
            &mut self._7,
            &mut self._8,
            &mut self._9,
        ]
    }
}

} // verus!
