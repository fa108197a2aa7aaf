//! Hotkeys and controller-button combinations.
//!
//! A hotkey is written in configuration as `+`-separated key names,
//! case-insensitively: `"F2"`, `"rshift+f2"`.  A controller
//! combination is written the same way over button names: `"l3+r3"`.
//! Both parse into explicit code lists whose grammar is fully
//! specified here.

use vstd::prelude::*;

use crate::gate::PadState;

verus! {

/// One key of the keyboard, as named in configuration.
#[derive(Clone, Copy, PartialEq, Eq, Structural, Debug)]
pub enum KeyCode {
    /// A function key: `F1` .. `F12`.
    F1,
    F2,
    F3,
    F4,
    F5,
    F6,
    F7,
    F8,
    F9,
    F10,
    F11,
    F12,
    /// A letter or digit key, stored lower case.
    Printable(char),
    Ctrl,
    Shift,
    Alt,
    RShift,
    LShift,
    RCtrl,
    LCtrl,
    RAlt,
    LAlt,
    Space,
    Tab,
    Enter,
    Escape,
    /// A stick-press key of the controller, emitted by the radial
    /// menu.
    L3,
    R3,
}

/// Lower-cases one ASCII letter; every other character is unchanged.
pub open spec fn spec_lower(c: char) -> char {
    if 'A' <= c && c <= 'Z' {
        (((c as u32) + 32) as char)
    } else {
        c
    }
}

/// Lower-cases one ASCII letter; every other character is unchanged.
pub fn lower_char(c: char) -> (r: char)
    ensures
        r == spec_lower(c),
{
    if c >= 'A' && c <= 'Z' {
        (((c as u8) + 32) as char)
    } else {
        c
    }
}

/// The key a single (already lower-cased) token names, if any:
/// a named key, a function key, or one printable character.
pub open spec fn spec_key_name(tok: Seq<char>) -> Option<KeyCode> {
    if tok == "ctrl"@ {
        Some(KeyCode::Ctrl)
    } else if tok == "shift"@ {
        Some(KeyCode::Shift)
    } else if tok == "alt"@ {
        Some(KeyCode::Alt)
    } else if tok == "rshift"@ {
        Some(KeyCode::RShift)
    } else if tok == "lshift"@ {
        Some(KeyCode::LShift)
    } else if tok == "rctrl"@ {
        Some(KeyCode::RCtrl)
    } else if tok == "lctrl"@ {
        Some(KeyCode::LCtrl)
    } else if tok == "ralt"@ {
        Some(KeyCode::RAlt)
    } else if tok == "lalt"@ {
        Some(KeyCode::LAlt)
    } else if tok == "space"@ {
        Some(KeyCode::Space)
    } else if tok == "tab"@ {
        Some(KeyCode::Tab)
    } else if tok == "enter"@ {
        Some(KeyCode::Enter)
    } else if tok == "esc"@ {
        Some(KeyCode::Escape)
    } else if tok == "l3"@ {
        Some(KeyCode::L3)
    } else if tok == "r3"@ {
        Some(KeyCode::R3)
    } else if tok == "f1"@ {
        Some(KeyCode::F1)
    } else if tok == "f2"@ {
        Some(KeyCode::F2)
    } else if tok == "f3"@ {
        Some(KeyCode::F3)
    } else if tok == "f4"@ {
        Some(KeyCode::F4)
    } else if tok == "f5"@ {
        Some(KeyCode::F5)
    } else if tok == "f6"@ {
        Some(KeyCode::F6)
    } else if tok == "f7"@ {
        Some(KeyCode::F7)
    } else if tok == "f8"@ {
        Some(KeyCode::F8)
    } else if tok == "f9"@ {
        Some(KeyCode::F9)
    } else if tok == "f10"@ {
        Some(KeyCode::F10)
    } else if tok == "f11"@ {
        Some(KeyCode::F11)
    } else if tok == "f12"@ {
        Some(KeyCode::F12)
    } else if tok.len() == 1 && ('a' <= tok[0] && tok[0] <= 'z' || '0' <= tok[0] && tok[0]
        <= '9') {
        Some(KeyCode::Printable(tok[0]))
    } else {
        None
    }
}

/// Whether two strings are equal, character for character.
pub fn str_eq(a: &str, b: &str) -> (r: bool)
    ensures
        r == (a@ == b@),
{
    let n = a.unicode_len();
    if b.unicode_len() != n {
        proof {
            assert(a@.len() != b@.len());
        }
        return false;
    }
    let mut i: usize = 0;
    while i < n
        invariant
            i <= n,
            n == a@.len(),
            b@.len() == n,
            forall|j: int| 0 <= j < i ==> a@[j] == b@[j],
        decreases n - i,
    {
        if a.get_char(i) != b.get_char(i) {
            proof {
                assert(a@[i as int] != b@[i as int]);
            }
            return false;
        }
        i = i + 1;
    }
    proof {
        assert(a@ =~= b@);
    }
    true
}

/// Whether a token equals a name, character for character.
pub(crate) fn token_is(tok: &Vec<char>, name: &str) -> (r: bool)
    ensures
        r == (tok@ == name@),
{
    let n = name.unicode_len();
    if tok.len() != n {
        proof {
            assert(tok@.len() != name@.len());
        }
        return false;
    }
    let mut i: usize = 0;
    while i < n
        invariant
            i <= n,
            n == name@.len(),
            tok@.len() == n,
            forall|j: int| 0 <= j < i ==> tok@[j] == name@[j],
        decreases n - i,
    {
        if tok[i] != name.get_char(i) {
            proof {
                assert(tok@[i as int] != name@[i as int]);
            }
            return false;
        }
        i = i + 1;
    }
    proof {
        assert(tok@ =~= name@);
    }
    true
}

/// Resolves one (already lower-cased) token to the key it names.
fn key_name(tok: &Vec<char>) -> (r: Option<KeyCode>)
    ensures
        r == spec_key_name(tok@),
{
    if token_is(tok, "ctrl") {
        Some(KeyCode::Ctrl)
    } else if token_is(tok, "shift") {
        Some(KeyCode::Shift)
    } else if token_is(tok, "alt") {
        Some(KeyCode::Alt)
    } else if token_is(tok, "rshift") {
        Some(KeyCode::RShift)
    } else if token_is(tok, "lshift") {
        Some(KeyCode::LShift)
    } else if token_is(tok, "rctrl") {
        Some(KeyCode::RCtrl)
    } else if token_is(tok, "lctrl") {
        Some(KeyCode::LCtrl)
    } else if token_is(tok, "ralt") {
        Some(KeyCode::RAlt)
    } else if token_is(tok, "lalt") {
        Some(KeyCode::LAlt)
    } else if token_is(tok, "space") {
        Some(KeyCode::Space)
    } else if token_is(tok, "tab") {
        Some(KeyCode::Tab)
    } else if token_is(tok, "enter") {
        Some(KeyCode::Enter)
    } else if token_is(tok, "esc") {
        Some(KeyCode::Escape)
    } else if token_is(tok, "l3") {
        Some(KeyCode::L3)
    } else if token_is(tok, "r3") {
        Some(KeyCode::R3)
    } else if token_is(tok, "f1") {
        Some(KeyCode::F1)
    } else if token_is(tok, "f2") {
        Some(KeyCode::F2)
    } else if token_is(tok, "f3") {
        Some(KeyCode::F3)
    } else if token_is(tok, "f4") {
        Some(KeyCode::F4)
    } else if token_is(tok, "f5") {
        Some(KeyCode::F5)
    } else if token_is(tok, "f6") {
        Some(KeyCode::F6)
    } else if token_is(tok, "f7") {
        Some(KeyCode::F7)
    } else if token_is(tok, "f8") {
        Some(KeyCode::F8)
    } else if token_is(tok, "f9") {
        Some(KeyCode::F9)
    } else if token_is(tok, "f10") {
        Some(KeyCode::F10)
    } else if token_is(tok, "f11") {
        Some(KeyCode::F11)
    } else if token_is(tok, "f12") {
        Some(KeyCode::F12)
    } else if tok.len() == 1 && ('a' <= tok[0] && tok[0] <= 'z' || '0' <= tok[0] && tok[0]
        <= '9') {
        Some(KeyCode::Printable(tok[0]))
    } else {
        None
    }
}

/// The keys a `+`-separated string names from position `i` on, with
/// `cur` the token read so far: `None` if any token is not a key name.
pub open spec fn spec_parse_keys_from(s: Seq<char>, cur: Seq<char>) -> Option<Seq<KeyCode>>
    decreases s.len(),
{
    if s.len() == 0 {
        match spec_key_name(cur) {
            Some(c) => Some(seq![c]),
            None => None,
        }
    } else if s[0] == '+' {
        match spec_key_name(cur) {
            Some(c) => match spec_parse_keys_from(s.skip(1), Seq::empty()) {
                Some(rest) => Some(seq![c] + rest),
                None => None,
            },
            None => None,
        }
    } else {
        spec_parse_keys_from(s.skip(1), cur.push(spec_lower(s[0])))
    }
}

/// The key codes a hotkey string names, if it is well formed.
pub open spec fn spec_parse_keys(s: Seq<char>) -> Option<Seq<KeyCode>> {
    spec_parse_keys_from(s, Seq::empty())
}

fn parse_keys_from(chars: &Vec<char>, i: usize, cur: Vec<char>) -> (r: Option<Vec<KeyCode>>)
    requires
        i <= chars@.len(),
    ensures
        match (r, spec_parse_keys_from(chars@.skip(i as int), cur@)) {
            (Some(v), Some(s)) => v@ == s,
            (None, None) => true,
            _ => false,
        },
    decreases chars@.len() - i,
{
    if i == chars.len() {
        proof {
            assert(chars@.skip(i as int) =~= Seq::<char>::empty());
        }
        match key_name(&cur) {
            Some(c) => {
                let mut v: Vec<KeyCode> = Vec::new();
                v.push(c);
                proof {
                    assert(v@ =~= seq![c]);
                }
                Some(v)
            },
            None => None,
        }
    } else {
        let ch = chars[i];
        proof {
            assert(chars@.skip(i as int)[0] == chars@[i as int]);
            assert(chars@.skip(i as int).skip(1) =~= chars@.skip(i as int + 1));
        }
        if ch == '+' {
            match key_name(&cur) {
                Some(c) => {
                    match parse_keys_from(chars, i + 1, Vec::new()) {
                        Some(mut rest) => {
                            let mut v: Vec<KeyCode> = Vec::new();
                            v.push(c);
                            v.append(&mut rest);
                            proof {
                                assert(v@ =~= seq![c] + spec_parse_keys_from(
                                    chars@.skip(i as int).skip(1),
                                    Seq::empty(),
                                ).unwrap());
                            }
                            Some(v)
                        },
                        None => None,
                    }
                },
                None => None,
            }
        } else {
            let mut cur2 = cur;
            cur2.push(lower_char(ch));
            parse_keys_from(chars, i + 1, cur2)
        }
    }
}

/// The characters of a string, in order.
pub fn string_chars(s: &String) -> (r: Vec<char>)
    ensures
        r@ == s@,
{
    let n = s.as_str().unicode_len();
    let mut r: Vec<char> = Vec::new();
    let mut i: usize = 0;
    while i < n
        invariant
            i <= n,
            n == s@.len(),
            r@ =~= s@.take(i as int),
        decreases n - i,
    {
        r.push(s.as_str().get_char(i));
        proof {
            assert(r@ =~= s@.take(i as int + 1));
        }
        i = i + 1;
    }
    proof {
        assert(s@.take(n as int) =~= s@);
    }
    r
}

/// A hotkey: one or more keys that must be held together, the last
/// of which must be freshly struck.
#[derive(Debug)]
pub struct Key {
    pub codes: Vec<KeyCode>,
}

impl View for Key {
    type V = Seq<KeyCode>;

    open spec fn view(&self) -> Seq<KeyCode> {
        self.codes@
    }
}

impl Clone for Key {
    /// A clone names the same keys.
    fn clone(&self) -> (r: Key)
        ensures
            r@ == self@,
    {
        let mut codes: Vec<KeyCode> = Vec::new();
        let mut i: usize = 0;
        while i < self.codes.len()
            invariant
                i <= self.codes@.len(),
                codes@ =~= self.codes@.take(i as int),
            decreases self.codes@.len() - i,
        {
            codes.push(self.codes[i]);
            proof {
                assert(codes@ =~= self.codes@.take(i as int + 1));
            }
            i = i + 1;
        }
        proof {
            assert(self.codes@.take(self.codes@.len() as int) =~= self.codes@);
        }
        Key { codes }
    }
}

/// The keys an optional hotkey names: none when no hotkey is bound.
pub open spec fn okey_view(k: Option<Key>) -> Option<Seq<KeyCode>> {
    match k {
        Some(key) => Some(key@),
        None => None,
    }
}

/// Clones an optional hotkey.
pub fn clone_okey(k: &Option<Key>) -> (r: Option<Key>)
    ensures
        okey_view(r) == okey_view(*k),
{
    match k {
        Some(key) => Some(key.clone()),
        None => None,
    }
}

/// A snapshot of keyboard input for one frame: the keys currently
/// held, and those that went down this very frame.
pub struct KeyboardFrame {
    pub held: Vec<KeyCode>,
    pub fresh: Vec<KeyCode>,
}

/// Whether a code list is pressed under a keyboard snapshot: every
/// code held, and the last one freshly struck this frame.
pub open spec fn spec_pressed(codes: Seq<KeyCode>, kb: KeyboardFrame) -> bool {
    codes.len() > 0 && (forall|j: int| 0 <= j < codes.len() ==> kb.held@.contains(codes[j]))
        && kb.fresh@.contains(codes[codes.len() - 1])
}

/// Whether `v` holds the code `c`.
fn vec_has_code(v: &Vec<KeyCode>, c: KeyCode) -> (r: bool)
    ensures
        r == v@.contains(c),
{
    let mut i: usize = 0;
    while i < v.len()
        invariant
            i <= v@.len(),
            forall|j: int| 0 <= j < i ==> v@[j] != c,
        decreases v@.len() - i,
    {
        if v[i] == c {
            return true;
        }
        i = i + 1;
    }
    false
}

impl Key {
    /// Parses a hotkey string; fails exactly when the string is not
    /// a well-formed `+`-separated list of key names.
    pub fn try_from(s: &String) -> (r: Option<Key>)
        ensures
            match (r, spec_parse_keys(s@)) {
                (Some(k), Some(codes)) => k.codes@ == codes && codes.len() > 0,
                (None, None) => true,
                _ => false,
            },
    {
        let chars = string_chars(s);
        proof {
            assert(chars@.skip(0) =~= chars@);
        }
        match parse_keys_from(&chars, 0, Vec::new()) {
            Some(codes) => {
                proof {
                    lemma_parse_nonempty(s@, Seq::empty());
                }
                Some(Key { codes })
            },
            None => None,
        }
    }

    /// Whether this hotkey is pressed under a keyboard snapshot.
    pub fn is_pressed(&self, kb: &KeyboardFrame) -> (r: bool)
        ensures
            r == spec_pressed(self.codes@, *kb),
    {
        if self.codes.len() == 0 {
            return false;
        }
        let mut i: usize = 0;
        while i < self.codes.len()
            invariant
                i <= self.codes@.len(),
                forall|j: int| 0 <= j < i ==> kb.held@.contains(self.codes@[j]),
            decreases self.codes@.len() - i,
        {
            if !vec_has_code(&kb.held, self.codes[i]) {
                return false;
            }
            i = i + 1;
        }
        vec_has_code(&kb.fresh, self.codes[self.codes.len() - 1])
    }

    /// Appends this hotkey's codes to a queue, in order.
    pub fn keys(&self, out: &mut Vec<KeyCode>)
        ensures
            final(out)@ == old(out)@ + self.codes@,
    {
        let mut i: usize = 0;
        while i < self.codes.len()
            invariant
                i <= self.codes@.len(),
                out@ =~= old(out)@ + self.codes@.take(i as int),
            decreases self.codes@.len() - i,
        {
            out.push(self.codes[i]);
            proof {
                assert(old(out)@ + self.codes@.take(i as int + 1) =~= (old(out)@
                    + self.codes@.take(i as int)).push(self.codes@[i as int]));
            }
            i = i + 1;
        }
        proof {
            assert(self.codes@.take(self.codes@.len() as int) =~= self.codes@);
        }
    }
}

/// A successful parse always yields at least one key code.
proof fn lemma_parse_nonempty(s: Seq<char>, cur: Seq<char>)
    ensures
        spec_parse_keys_from(s, cur) is Some ==> spec_parse_keys_from(s, cur).unwrap().len() > 0,
    decreases s.len(),
{
    if s.len() == 0 {
    } else if s[0] == '+' {
        lemma_parse_nonempty(s.skip(1), Seq::empty());
    } else {
        lemma_parse_nonempty(s.skip(1), cur.push(spec_lower(s[0])));
    }
}

/// The controller button held down with a stick press of the left
/// thumb, and its right counterpart, with the other buttons of the
/// pad, as bits of the poll's button mask.
pub const PAD_UP: u16 = 0x0001;

pub const PAD_DOWN: u16 = 0x0002;

pub const PAD_LEFT: u16 = 0x0004;

pub const PAD_RIGHT: u16 = 0x0008;

pub const PAD_START: u16 = 0x0010;

pub const PAD_BACK: u16 = 0x0020;

pub const PAD_L3: u16 = 0x0040;

pub const PAD_R3: u16 = 0x0080;

pub const PAD_LB: u16 = 0x0100;

pub const PAD_RB: u16 = 0x0200;

pub const PAD_A: u16 = 0x1000;

pub const PAD_B: u16 = 0x2000;

pub const PAD_X: u16 = 0x4000;

pub const PAD_Y: u16 = 0x8000;

/// The button a single (already lower-cased) token names, if any,
/// as its bit in the poll's button mask.
pub open spec fn spec_button_name(tok: Seq<char>) -> Option<u16> {
    if tok == "up"@ {
        Some(PAD_UP)
    } else if tok == "down"@ {
        Some(PAD_DOWN)
    } else if tok == "left"@ {
        Some(PAD_LEFT)
    } else if tok == "right"@ {
        Some(PAD_RIGHT)
    } else if tok == "start"@ {
        Some(PAD_START)
    } else if tok == "back"@ {
        Some(PAD_BACK)
    } else if tok == "l3"@ {
        Some(PAD_L3)
    } else if tok == "r3"@ {
        Some(PAD_R3)
    } else if tok == "l1"@ {
        Some(PAD_LB)
    } else if tok == "r1"@ {
        Some(PAD_RB)
    } else if tok == "a"@ {
        Some(PAD_A)
    } else if tok == "b"@ {
        Some(PAD_B)
    } else if tok == "x"@ {
        Some(PAD_X)
    } else if tok == "y"@ {
        Some(PAD_Y)
    } else {
        None
    }
}

fn button_name(tok: &Vec<char>) -> (r: Option<u16>)
    ensures
        r == spec_button_name(tok@),
{
    if token_is(tok, "up") {
        Some(PAD_UP)
    } else if token_is(tok, "down") {
        Some(PAD_DOWN)
    } else if token_is(tok, "left") {
        Some(PAD_LEFT)
    } else if token_is(tok, "right") {
        Some(PAD_RIGHT)
    } else if token_is(tok, "start") {
        Some(PAD_START)
    } else if token_is(tok, "back") {
        Some(PAD_BACK)
    } else if token_is(tok, "l3") {
        Some(PAD_L3)
    } else if token_is(tok, "r3") {
        Some(PAD_R3)
    } else if token_is(tok, "l1") {
        Some(PAD_LB)
    } else if token_is(tok, "r1") {
        Some(PAD_RB)
    } else if token_is(tok, "a") {
        Some(PAD_A)
    } else if token_is(tok, "b") {
        Some(PAD_B)
    } else if token_is(tok, "x") {
        Some(PAD_X)
    } else if token_is(tok, "y") {
        Some(PAD_Y)
    } else {
        None
    }
}

/// The button mask a `+`-separated string names from the front, with
/// `cur` the token read so far: `None` if any token is not a button.
pub open spec fn spec_parse_buttons_from(s: Seq<char>, cur: Seq<char>) -> Option<u16>
    decreases s.len(),
{
    if s.len() == 0 {
        spec_button_name(cur)
    } else if s[0] == '+' {
        match spec_button_name(cur) {
            Some(m) => match spec_parse_buttons_from(s.skip(1), Seq::empty()) {
                Some(rest) => Some(m | rest),
                None => None,
            },
            None => None,
        }
    } else {
        spec_parse_buttons_from(s.skip(1), cur.push(spec_lower(s[0])))
    }
}

/// The button mask a combination string names, if it is well formed.
pub open spec fn spec_parse_buttons(s: Seq<char>) -> Option<u16> {
    spec_parse_buttons_from(s, Seq::empty())
}

fn parse_buttons_from(chars: &Vec<char>, i: usize, cur: Vec<char>) -> (r: Option<u16>)
    requires
        i <= chars@.len(),
    ensures
        r == spec_parse_buttons_from(chars@.skip(i as int), cur@),
    decreases chars@.len() - i,
{
    if i == chars.len() {
        proof {
            assert(chars@.skip(i as int) =~= Seq::<char>::empty());
        }
        button_name(&cur)
    } else {
        let ch = chars[i];
        proof {
            assert(chars@.skip(i as int)[0] == chars@[i as int]);
            assert(chars@.skip(i as int).skip(1) =~= chars@.skip(i as int + 1));
        }
        if ch == '+' {
            match button_name(&cur) {
                Some(m) => {
                    match parse_buttons_from(chars, i + 1, Vec::new()) {
                        Some(rest) => Some(m | rest),
                        None => None,
                    }
                },
                None => None,
            }
        } else {
            let mut cur2 = cur;
            cur2.push(lower_char(ch));
            parse_buttons_from(chars, i + 1, cur2)
        }
    }
}

/// A combination of controller buttons that must all be held at once.
#[derive(Clone, Copy, PartialEq, Eq, Structural, Debug)]
pub struct ControllerCombination {
    pub mask: u16,
}

impl ControllerCombination {
    /// Parses a combination string; fails exactly when the string is
    /// not a well-formed `+`-separated list of button names.
    pub fn try_from(s: &String) -> (r: Option<ControllerCombination>)
        ensures
            match (r, spec_parse_buttons(s@)) {
                (Some(c), Some(m)) => c.mask == m,
                (None, None) => true,
                _ => false,
            },
    {
        let chars = string_chars(s);
        proof {
            assert(chars@.skip(0) =~= chars@);
        }
        match parse_buttons_from(&chars, 0, Vec::new()) {
            Some(mask) => Some(ControllerCombination { mask }),
            None => None,
        }
    }

    /// Whether every button of the combination is held in `pad`.
    pub fn is_pressed(&self, pad: &PadState) -> (r: bool)
        ensures
            r == pad.spec_holds_mask(self.mask),
    {
        pad.holds_mask(self.mask)
    }
}

} // verus!
