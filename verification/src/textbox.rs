//! The text box: a line of text typed with the encoder on a reel of characters, shown as a
//! short preview in its menu.
use vstd::prelude::*;
use crate::menu::HandlerResult;
use crate::text::concat_str;
use vstd::string::StringSliceAdditionalSpecFns;

verus! {

/// The reels of the keyboard.
#[derive(Debug, Clone, Copy, PartialEq, Eq, Structural)]
pub enum TextSelectorLayer {
    Lowercase,
    Uppercase,
    Symbol,
}

/// What choosing an option of a reel does.
#[derive(Debug, Clone, Copy, PartialEq, Eq, Structural)]
pub enum TextAction {
    Left,
    Right,
    Confirm,
    Backspace,
    ToLayer(TextSelectorLayer),
    Type(char),
}

/// An option of a reel: the symbol shown and what it does.
#[derive(Debug, Clone, Copy, PartialEq, Eq, Structural)]
pub struct TextSelectorOption {
    pub symbol: char,
    pub action: TextAction,
}

/// The number of options of a reel.
pub open spec fn reel_len(l: TextSelectorLayer) -> nat {
    match l {
        TextSelectorLayer::Lowercase => 31,
        TextSelectorLayer::Uppercase => 31,
        TextSelectorLayer::Symbol => 35,
    }
}

/// What a reel's options type is a plain ASCII character.
pub open spec fn reel_types_ascii(r: Seq<TextSelectorOption>) -> bool {
    forall|i: int| 0 <= i < r.len() ==> ((#[trigger] r[i]).action matches TextAction::Type(c) ==> (c as u32) < 128)
}

/// The options of each reel, in order.
pub open spec fn spec_reel(l: TextSelectorLayer) -> Seq<TextSelectorOption> {
    match l {
        TextSelectorLayer::Lowercase => seq![
            TextSelectorOption { symbol: 'a', action: TextAction::Type('a') },
            TextSelectorOption { symbol: 'b', action: TextAction::Type('b') },
            TextSelectorOption { symbol: 'c', action: TextAction::Type('c') },
            TextSelectorOption { symbol: 'd', action: TextAction::Type('d') },
            TextSelectorOption { symbol: 'e', action: TextAction::Type('e') },
            TextSelectorOption { symbol: 'f', action: TextAction::Type('f') },
            TextSelectorOption { symbol: 'g', action: TextAction::Type('g') },
            TextSelectorOption { symbol: 'h', action: TextAction::Type('h') },
            TextSelectorOption { symbol: 'i', action: TextAction::Type('i') },
            TextSelectorOption { symbol: 'j', action: TextAction::Type('j') },
            TextSelectorOption { symbol: 'k', action: TextAction::Type('k') },
            TextSelectorOption { symbol: 'l', action: TextAction::Type('l') },
            TextSelectorOption { symbol: 'm', action: TextAction::Type('m') },
            TextSelectorOption { symbol: 'n', action: TextAction::Type('n') },
            TextSelectorOption { symbol: 'o', action: TextAction::Type('o') },
            TextSelectorOption { symbol: 'p', action: TextAction::Type('p') },
            TextSelectorOption { symbol: 'q', action: TextAction::Type('q') },
            TextSelectorOption { symbol: 'r', action: TextAction::Type('r') },
            TextSelectorOption { symbol: 's', action: TextAction::Type('s') },
            TextSelectorOption { symbol: 't', action: TextAction::Type('t') },
            TextSelectorOption { symbol: 'u', action: TextAction::Type('u') },
            TextSelectorOption { symbol: 'v', action: TextAction::Type('v') },
            TextSelectorOption { symbol: 'w', action: TextAction::Type('w') },
            TextSelectorOption { symbol: 'x', action: TextAction::Type('x') },
            TextSelectorOption { symbol: 'y', action: TextAction::Type('y') },
            TextSelectorOption { symbol: 'z', action: TextAction::Type('z') },
            TextSelectorOption { symbol: '_', action: TextAction::Type(' ') },
            TextSelectorOption { symbol: '✓', action: TextAction::Confirm },
            TextSelectorOption { symbol: 'A', action: TextAction::ToLayer(TextSelectorLayer::Uppercase) },
            TextSelectorOption { symbol: '@', action: TextAction::ToLayer(TextSelectorLayer::Symbol) },
            TextSelectorOption { symbol: '⌫', action: TextAction::Backspace },
        ],
        TextSelectorLayer::Uppercase => seq![
            TextSelectorOption { symbol: 'A', action: TextAction::Type('A') },
            TextSelectorOption { symbol: 'B', action: TextAction::Type('B') },
            TextSelectorOption { symbol: 'C', action: TextAction::Type('C') },
            TextSelectorOption { symbol: 'D', action: TextAction::Type('D') },
            TextSelectorOption { symbol: 'E', action: TextAction::Type('E') },
            TextSelectorOption { symbol: 'F', action: TextAction::Type('F') },
            TextSelectorOption { symbol: 'G', action: TextAction::Type('G') },
            TextSelectorOption { symbol: 'H', action: TextAction::Type('H') },
            TextSelectorOption { symbol: 'I', action: TextAction::Type('I') },
            TextSelectorOption { symbol: 'J', action: TextAction::Type('J') },
            TextSelectorOption { symbol: 'K', action: TextAction::Type('K') },
            TextSelectorOption { symbol: 'L', action: TextAction::Type('L') },
            TextSelectorOption { symbol: 'M', action: TextAction::Type('M') },
            TextSelectorOption { symbol: 'N', action: TextAction::Type('N') },
            TextSelectorOption { symbol: 'O', action: TextAction::Type('O') },
            TextSelectorOption { symbol: 'P', action: TextAction::Type('P') },
            TextSelectorOption { symbol: 'Q', action: TextAction::Type('Q') },
            TextSelectorOption { symbol: 'R', action: TextAction::Type('R') },
            TextSelectorOption { symbol: 'S', action: TextAction::Type('S') },
            TextSelectorOption { symbol: 'T', action: TextAction::Type('T') },
            TextSelectorOption { symbol: 'U', action: TextAction::Type('U') },
            TextSelectorOption { symbol: 'V', action: TextAction::Type('V') },
            TextSelectorOption { symbol: 'W', action: TextAction::Type('W') },
            TextSelectorOption { symbol: 'X', action: TextAction::Type('X') },
            TextSelectorOption { symbol: 'Y', action: TextAction::Type('Y') },
            TextSelectorOption { symbol: 'Z', action: TextAction::Type('Z') },
            TextSelectorOption { symbol: '_', action: TextAction::Type(' ') },
            TextSelectorOption { symbol: 'a', action: TextAction::ToLayer(TextSelectorLayer::Lowercase) },
            TextSelectorOption { symbol: '@', action: TextAction::ToLayer(TextSelectorLayer::Symbol) },
            TextSelectorOption { symbol: '✓', action: TextAction::Confirm },
            TextSelectorOption { symbol: '⌫', action: TextAction::Backspace },
        ],
        TextSelectorLayer::Symbol => seq![
            TextSelectorOption { symbol: '?', action: TextAction::Type('?') },
            TextSelectorOption { symbol: '!', action: TextAction::Type('!') },
            TextSelectorOption { symbol: '"', action: TextAction::Type('"') },
            TextSelectorOption { symbol: '#', action: TextAction::Type('#') },
            TextSelectorOption { symbol: '$', action: TextAction::Type('$') },
            TextSelectorOption { symbol: '%', action: TextAction::Type('%') },
            TextSelectorOption { symbol: '&', action: TextAction::Type('&') },
            TextSelectorOption { symbol: '\'', action: TextAction::Type('\'') },
            TextSelectorOption { symbol: '(', action: TextAction::Type('(') },
            TextSelectorOption { symbol: ')', action: TextAction::Type(')') },
            TextSelectorOption { symbol: '*', action: TextAction::Type('*') },
            TextSelectorOption { symbol: '+', action: TextAction::Type('+') },
            TextSelectorOption { symbol: ',', action: TextAction::Type(',') },
            TextSelectorOption { symbol: '-', action: TextAction::Type('-') },
            TextSelectorOption { symbol: '.', action: TextAction::Type('.') },
            TextSelectorOption { symbol: '/', action: TextAction::Type('/') },
            TextSelectorOption { symbol: '0', action: TextAction::Type('0') },
            TextSelectorOption { symbol: '1', action: TextAction::Type('1') },
            TextSelectorOption { symbol: '2', action: TextAction::Type('2') },
            TextSelectorOption { symbol: '3', action: TextAction::Type('3') },
            TextSelectorOption { symbol: '4', action: TextAction::Type('4') },
            TextSelectorOption { symbol: '5', action: TextAction::Type('5') },
            TextSelectorOption { symbol: '6', action: TextAction::Type('6') },
            TextSelectorOption { symbol: '7', action: TextAction::Type('7') },
            TextSelectorOption { symbol: '8', action: TextAction::Type('8') },
            TextSelectorOption { symbol: '9', action: TextAction::Type('9') },
            TextSelectorOption { symbol: ':', action: TextAction::Type(':') },
            TextSelectorOption { symbol: ';', action: TextAction::Type(';') },
            TextSelectorOption { symbol: '<', action: TextAction::Type('<') },
            TextSelectorOption { symbol: '=', action: TextAction::Type('=') },
            TextSelectorOption { symbol: '>', action: TextAction::Type('>') },
            TextSelectorOption { symbol: 'a', action: TextAction::ToLayer(TextSelectorLayer::Lowercase) },
            TextSelectorOption { symbol: 'A', action: TextAction::ToLayer(TextSelectorLayer::Uppercase) },
            TextSelectorOption { symbol: '✓', action: TextAction::Confirm },
            TextSelectorOption { symbol: '⌫', action: TextAction::Backspace },
        ],
    }
}

/// What the option `i` of a reel does.
pub open spec fn reel_action(l: TextSelectorLayer, i: int) -> TextAction {
    spec_reel(l)[i].action
}

/// No reel holds the left and right options, and every character typed is ASCII.
pub proof fn lemma_reel_actions(l: TextSelectorLayer)
    ensures
        spec_reel(l).len() == reel_len(l),
        forall|i: int| 0 <= i < spec_reel(l).len() ==> !((#[trigger] spec_reel(l)[i]).action is Left || spec_reel(l)[i].action is Right),
        reel_types_ascii(spec_reel(l)),
{
}

/// Every key of a reel that types a character types the character it shows, but for the key
/// shown as `_`, which types a space; every key that shows a letter of its own reel's case types
/// it, and the letter keys come in alphabetical order from the first key.
pub proof fn lemma_reel_types_shown(l: TextSelectorLayer)
    ensures
        forall|i: int| 0 <= i < spec_reel(l).len() ==> ((#[trigger] spec_reel(l)[i]).action matches TextAction::Type(c)
            ==> (if spec_reel(l)[i].symbol == '_' { c == ' ' } else { c == spec_reel(l)[i].symbol })),
        forall|i: int| 0 <= i < spec_reel(l).len() && (#[trigger] spec_reel(l)[i]).symbol == '_'
            ==> spec_reel(l)[i].action == TextAction::Type(' '),
        l == TextSelectorLayer::Lowercase ==> forall|i: int| 0 <= i < 26 ==> #[trigger] spec_reel(l)[i] == (TextSelectorOption {
            symbol: ((97 + i) as u32) as char,
            action: TextAction::Type(((97 + i) as u32) as char),
        }),
        l == TextSelectorLayer::Uppercase ==> forall|i: int| 0 <= i < 26 ==> #[trigger] spec_reel(l)[i] == (TextSelectorOption {
            symbol: ((65 + i) as u32) as char,
            action: TextAction::Type(((65 + i) as u32) as char),
        }),
{
}

/// The options of a reel: the letters (or the symbols and digits), a space, and the options
/// that confirm, erase and switch reels.
pub fn reel(l: TextSelectorLayer) -> (r: Vec<TextSelectorOption>)
    ensures
        r@ == spec_reel(l),
{
    let mut r: Vec<TextSelectorOption> = Vec::new();
    match l {
        TextSelectorLayer::Lowercase => {
        r.push(TextSelectorOption { symbol: 'a', action: TextAction::Type('a') });
        r.push(TextSelectorOption { symbol: 'b', action: TextAction::Type('b') });
        r.push(TextSelectorOption { symbol: 'c', action: TextAction::Type('c') });
        r.push(TextSelectorOption { symbol: 'd', action: TextAction::Type('d') });
        r.push(TextSelectorOption { symbol: 'e', action: TextAction::Type('e') });
        r.push(TextSelectorOption { symbol: 'f', action: TextAction::Type('f') });
        r.push(TextSelectorOption { symbol: 'g', action: TextAction::Type('g') });
        r.push(TextSelectorOption { symbol: 'h', action: TextAction::Type('h') });
        r.push(TextSelectorOption { symbol: 'i', action: TextAction::Type('i') });
        r.push(TextSelectorOption { symbol: 'j', action: TextAction::Type('j') });
        r.push(TextSelectorOption { symbol: 'k', action: TextAction::Type('k') });
        r.push(TextSelectorOption { symbol: 'l', action: TextAction::Type('l') });
        r.push(TextSelectorOption { symbol: 'm', action: TextAction::Type('m') });
        r.push(TextSelectorOption { symbol: 'n', action: TextAction::Type('n') });
        r.push(TextSelectorOption { symbol: 'o', action: TextAction::Type('o') });
        r.push(TextSelectorOption { symbol: 'p', action: TextAction::Type('p') });
        r.push(TextSelectorOption { symbol: 'q', action: TextAction::Type('q') });
        r.push(TextSelectorOption { symbol: 'r', action: TextAction::Type('r') });
        r.push(TextSelectorOption { symbol: 's', action: TextAction::Type('s') });
        r.push(TextSelectorOption { symbol: 't', action: TextAction::Type('t') });
        r.push(TextSelectorOption { symbol: 'u', action: TextAction::Type('u') });
        r.push(TextSelectorOption { symbol: 'v', action: TextAction::Type('v') });
        r.push(TextSelectorOption { symbol: 'w', action: TextAction::Type('w') });
        r.push(TextSelectorOption { symbol: 'x', action: TextAction::Type('x') });
        r.push(TextSelectorOption { symbol: 'y', action: TextAction::Type('y') });
        r.push(TextSelectorOption { symbol: 'z', action: TextAction::Type('z') });
        r.push(TextSelectorOption { symbol: '_', action: TextAction::Type(' ') });
        r.push(TextSelectorOption { symbol: '✓', action: TextAction::Confirm });
        r.push(TextSelectorOption { symbol: 'A', action: TextAction::ToLayer(TextSelectorLayer::Uppercase) });
        r.push(TextSelectorOption { symbol: '@', action: TextAction::ToLayer(TextSelectorLayer::Symbol) });
        r.push(TextSelectorOption { symbol: '⌫', action: TextAction::Backspace });
        },
        TextSelectorLayer::Uppercase => {
        r.push(TextSelectorOption { symbol: 'A', action: TextAction::Type('A') });
        r.push(TextSelectorOption { symbol: 'B', action: TextAction::Type('B') });
        r.push(TextSelectorOption { symbol: 'C', action: TextAction::Type('C') });
        r.push(TextSelectorOption { symbol: 'D', action: TextAction::Type('D') });
        r.push(TextSelectorOption { symbol: 'E', action: TextAction::Type('E') });
        r.push(TextSelectorOption { symbol: 'F', action: TextAction::Type('F') });
        r.push(TextSelectorOption { symbol: 'G', action: TextAction::Type('G') });
        r.push(TextSelectorOption { symbol: 'H', action: TextAction::Type('H') });
        r.push(TextSelectorOption { symbol: 'I', action: TextAction::Type('I') });
        r.push(TextSelectorOption { symbol: 'J', action: TextAction::Type('J') });
        r.push(TextSelectorOption { symbol: 'K', action: TextAction::Type('K') });
        r.push(TextSelectorOption { symbol: 'L', action: TextAction::Type('L') });
        r.push(TextSelectorOption { symbol: 'M', action: TextAction::Type('M') });
        r.push(TextSelectorOption { symbol: 'N', action: TextAction::Type('N') });
        r.push(TextSelectorOption { symbol: 'O', action: TextAction::Type('O') });
        r.push(TextSelectorOption { symbol: 'P', action: TextAction::Type('P') });
        r.push(TextSelectorOption { symbol: 'Q', action: TextAction::Type('Q') });
        r.push(TextSelectorOption { symbol: 'R', action: TextAction::Type('R') });
        r.push(TextSelectorOption { symbol: 'S', action: TextAction::Type('S') });
        r.push(TextSelectorOption { symbol: 'T', action: TextAction::Type('T') });
        r.push(TextSelectorOption { symbol: 'U', action: TextAction::Type('U') });
        r.push(TextSelectorOption { symbol: 'V', action: TextAction::Type('V') });
        r.push(TextSelectorOption { symbol: 'W', action: TextAction::Type('W') });
        r.push(TextSelectorOption { symbol: 'X', action: TextAction::Type('X') });
        r.push(TextSelectorOption { symbol: 'Y', action: TextAction::Type('Y') });
        r.push(TextSelectorOption { symbol: 'Z', action: TextAction::Type('Z') });
        r.push(TextSelectorOption { symbol: '_', action: TextAction::Type(' ') });
        r.push(TextSelectorOption { symbol: 'a', action: TextAction::ToLayer(TextSelectorLayer::Lowercase) });
        r.push(TextSelectorOption { symbol: '@', action: TextAction::ToLayer(TextSelectorLayer::Symbol) });
        r.push(TextSelectorOption { symbol: '✓', action: TextAction::Confirm });
        r.push(TextSelectorOption { symbol: '⌫', action: TextAction::Backspace });
        },
        TextSelectorLayer::Symbol => {
        r.push(TextSelectorOption { symbol: '?', action: TextAction::Type('?') });
        r.push(TextSelectorOption { symbol: '!', action: TextAction::Type('!') });
        r.push(TextSelectorOption { symbol: '"', action: TextAction::Type('"') });
        r.push(TextSelectorOption { symbol: '#', action: TextAction::Type('#') });
        r.push(TextSelectorOption { symbol: '$', action: TextAction::Type('$') });
        r.push(TextSelectorOption { symbol: '%', action: TextAction::Type('%') });
        r.push(TextSelectorOption { symbol: '&', action: TextAction::Type('&') });
        r.push(TextSelectorOption { symbol: '\'', action: TextAction::Type('\'') });
        r.push(TextSelectorOption { symbol: '(', action: TextAction::Type('(') });
        r.push(TextSelectorOption { symbol: ')', action: TextAction::Type(')') });
        r.push(TextSelectorOption { symbol: '*', action: TextAction::Type('*') });
        r.push(TextSelectorOption { symbol: '+', action: TextAction::Type('+') });
        r.push(TextSelectorOption { symbol: ',', action: TextAction::Type(',') });
        r.push(TextSelectorOption { symbol: '-', action: TextAction::Type('-') });
        r.push(TextSelectorOption { symbol: '.', action: TextAction::Type('.') });
        r.push(TextSelectorOption { symbol: '/', action: TextAction::Type('/') });
        r.push(TextSelectorOption { symbol: '0', action: TextAction::Type('0') });
        r.push(TextSelectorOption { symbol: '1', action: TextAction::Type('1') });
        r.push(TextSelectorOption { symbol: '2', action: TextAction::Type('2') });
        r.push(TextSelectorOption { symbol: '3', action: TextAction::Type('3') });
        r.push(TextSelectorOption { symbol: '4', action: TextAction::Type('4') });
        r.push(TextSelectorOption { symbol: '5', action: TextAction::Type('5') });
        r.push(TextSelectorOption { symbol: '6', action: TextAction::Type('6') });
        r.push(TextSelectorOption { symbol: '7', action: TextAction::Type('7') });
        r.push(TextSelectorOption { symbol: '8', action: TextAction::Type('8') });
        r.push(TextSelectorOption { symbol: '9', action: TextAction::Type('9') });
        r.push(TextSelectorOption { symbol: ':', action: TextAction::Type(':') });
        r.push(TextSelectorOption { symbol: ';', action: TextAction::Type(';') });
        r.push(TextSelectorOption { symbol: '<', action: TextAction::Type('<') });
        r.push(TextSelectorOption { symbol: '=', action: TextAction::Type('=') });
        r.push(TextSelectorOption { symbol: '>', action: TextAction::Type('>') });
        r.push(TextSelectorOption { symbol: 'a', action: TextAction::ToLayer(TextSelectorLayer::Lowercase) });
        r.push(TextSelectorOption { symbol: 'A', action: TextAction::ToLayer(TextSelectorLayer::Uppercase) });
        r.push(TextSelectorOption { symbol: '✓', action: TextAction::Confirm });
        r.push(TextSelectorOption { symbol: '⌫', action: TextAction::Backspace });
        },
    }
    assert(r@ =~= spec_reel(l));
    r
}

/// The reel of the keyboard and the option under the cursor.
#[derive(Debug, Clone, Copy, PartialEq, Eq, Structural)]
pub struct TextSelectorState {
    pub selection: usize,
    pub layer: TextSelectorLayer,
}

/// The first of the seven options shown around the cursor, three on each side.
pub open spec fn window_start(selection: nat, n: nat) -> nat {
    ((selection + n - 3) % (n as int)) as nat
}

impl TextSelectorState {
    /// The first option of the lowercase reel.
    pub fn new() -> (s: TextSelectorState)
        ensures
            s.selection == 0,
            s.layer == TextSelectorLayer::Lowercase,
    {
        TextSelectorState { selection: 0, layer: TextSelectorLayer::Lowercase }
    }

    /// The number of options of the current reel.
    pub fn num_options(&self) -> (n: usize)
        ensures
            n == reel_len(self.layer),
    {
        match self.layer {
            TextSelectorLayer::Lowercase => 31,
            TextSelectorLayer::Uppercase => 31,
            TextSelectorLayer::Symbol => 35,
        }
    }

    /// Moves the cursor to the previous option, wrapping around.
    pub fn prev(&mut self)
        requires
            old(self).selection < reel_len(old(self).layer) + 3,
        ensures
            final(self).layer == old(self).layer,
            final(self).selection == (old(self).selection + reel_len(old(self).layer) - 1) % (reel_len(old(self).layer) as int),
    {
        let n = self.num_options();
        self.selection = (self.selection + n - 1) % n;
    }

    /// Moves the cursor to the next option, wrapping around.
    pub fn next(&mut self)
        requires
            old(self).selection < reel_len(old(self).layer) + 3,
        ensures
            final(self).layer == old(self).layer,
            final(self).selection == (old(self).selection + 1) % (reel_len(old(self).layer) as int),
    {
        let n = self.num_options();
        self.selection = (self.selection + 1) % n;
    }

    /// The positions of the seven options shown, from three before the cursor to three after.
    pub fn window(&self) -> (w: Vec<usize>)
        requires
            self.selection < reel_len(self.layer),
        ensures
            w@.len() == 7,
            forall|i: int| 0 <= i < 7 ==> #[trigger] w@[i] == (window_start(self.selection as nat, reel_len(self.layer)) + i) % (reel_len(self.layer) as int),
    {
        let n = self.num_options();
        let start = (self.selection + n - 3) % n;
        let mut w: Vec<usize> = Vec::new();
        let mut i: usize = 0;
        while i < 7
            invariant
                n == reel_len(self.layer),
                start == window_start(self.selection as nat, n as nat),
                start < n,
                i <= 7,
                w@.len() == i,
                forall|k: int| 0 <= k < i ==> #[trigger] w@[k] == (start + k) % (n as int),
            decreases 7 - i,
        {
            w.push((start + i) % n);
            i = i + 1;
        }
        w
    }
}

/// A text box: its highlight, the text typed so far, whether its keyboard is open, the
/// keyboard, and the most bytes the text may take.
#[derive(Debug, Clone)]
pub struct TextBoxState {
    pub highlighted: bool,
    pub entry: Vec<char>,
    pub sub_menu_open: bool,
    pub selector: TextSelectorState,
    pub max_length: usize,
}

/// The number of bytes that `c` takes in UTF-8.
pub open spec fn char_width(c: char) -> nat {
    vstd::utf8::encode_scalar(c as u32).len()
}

/// The number of bytes of the text in UTF-8.
pub open spec fn text_bytes(t: Seq<char>) -> nat {
    vstd::utf8::encode_utf8(t).len()
}

proof fn lemma_text_bytes_push(t: Seq<char>, c: char)
    ensures
        text_bytes(t.push(c)) == text_bytes(t) + char_width(c),
{
    crate::text::lemma_encode_concat(t, seq![c]);
    assert(t + seq![c] =~= t.push(c));
    assert(seq![c].drop_first() =~= Seq::<char>::empty());
    assert(seq![c][0] == c);
    assert(vstd::utf8::encode_utf8(Seq::<char>::empty()) =~= Seq::<u8>::empty());
    assert(vstd::utf8::encode_utf8(seq![c]) =~= vstd::utf8::encode_scalar(c as u32) + Seq::<u8>::empty());
}

/// The number of bytes that `c` takes in UTF-8.
fn utf8_width(c: char) -> (w: usize)
    ensures
        w == char_width(c),
{
    let v = c as u32;
    proof {
        vstd::utf8::char_is_scalar(c);
    }
    if v <= 0x7f { 1 } else if v <= 0x7ff { 2 } else if v <= 0xffff { 3 } else { 4 }
}

/// The number of bytes of the text in UTF-8.
pub fn entry_bytes(t: &Vec<char>) -> (n: usize)
    requires
        text_bytes(t@) <= usize::MAX,
    ensures
        n == text_bytes(t@),
{
    let mut n: usize = 0;
    let mut i: usize = 0;
    while i < t.len()
        invariant
            i <= t@.len(),
            text_bytes(t@) <= usize::MAX,
            n == text_bytes(t@.take(i as int)),
        decreases t@.len() - i,
    {
        proof {
            lemma_text_bytes_push(t@.take(i as int), t@[i as int]);
            assert(t@.take(i as int).push(t@[i as int]) =~= t@.take(i + 1));
            lemma_text_bytes_prefix(t@, i + 1);
        }
        n = n + utf8_width(t[i]);
        i = i + 1;
    }
    assert(t@.take(t@.len() as int) =~= t@);
    n
}

proof fn lemma_text_bytes_prefix(t: Seq<char>, i: int)
    requires
        0 <= i <= t.len(),
    ensures
        text_bytes(t.take(i)) <= text_bytes(t),
    decreases t.len() - i,
{
    if i < t.len() {
        lemma_text_bytes_prefix(t, i + 1);
        lemma_text_bytes_push(t.take(i), t[i]);
        assert(t.take(i).push(t[i]) =~= t.take(i + 1));
    } else {
        assert(t.take(i) =~= t);
    }
}

/// What a click on a text box did.
#[derive(Debug, Clone, Copy, PartialEq, Eq, Structural)]
pub enum TextBoxClick {
    /// The keyboard opened: clear the screen, draw the text and the keyboard.
    Opened,
    /// The text was confirmed: the keyboard closed; clear the screen, run the box's submit
    /// handler on the text, and redraw the menu.
    Submitted,
    /// The last character was erased (if there was one to erase).
    Erased(bool),
    /// The character was typed (if there was room for it).
    Typed(char, bool),
    /// The keyboard switched to another reel.
    Switched,
}

/// The text box after a click, and what happened.
pub open spec fn spec_textbox_click(s: TextBoxState, entry: Seq<char>, action: TextAction) -> (bool, Seq<char>, TextSelectorLayer, TextBoxClick) {
    if !s.sub_menu_open {
        (true, entry, s.selector.layer, TextBoxClick::Opened)
    } else {
        match action {
            TextAction::Confirm => (false, entry, s.selector.layer, TextBoxClick::Submitted),
            TextAction::Backspace => if entry.len() > 0 {
                (true, entry.drop_last(), s.selector.layer, TextBoxClick::Erased(true))
            } else {
                (true, entry, s.selector.layer, TextBoxClick::Erased(false))
            },
            TextAction::Type(c) => if text_bytes(entry) < s.max_length {
                (true, entry.push(c), s.selector.layer, TextBoxClick::Typed(c, true))
            } else {
                (true, entry, s.selector.layer, TextBoxClick::Typed(c, false))
            },
            TextAction::ToLayer(l) => (true, entry, l, TextBoxClick::Switched),
            _ => (true, entry, s.selector.layer, TextBoxClick::Opened),
        }
    }
}

impl TextBoxState {
    /// A box with the text `entry`, its keyboard closed.
    pub fn new(entry: Vec<char>, max_length: usize) -> (s: TextBoxState)
        ensures
            s.entry@ == entry@,
            s.max_length == max_length,
            !s.highlighted,
            !s.sub_menu_open,
            s.selector == (TextSelectorState { selection: 0, layer: TextSelectorLayer::Lowercase }),
    {
        TextBoxState { highlighted: false, entry, sub_menu_open: false, selector: TextSelectorState { selection: 0, layer: TextSelectorLayer::Lowercase }, max_length }
    }

    /// A turn to the left moves the keyboard's cursor back, when the keyboard is open.
    pub fn left(&mut self) -> (r: HandlerResult)
        requires
            old(self).selector.selection < reel_len(old(self).selector.layer) + 3,
        ensures
            r == HandlerResult::Idle,
            final(self).entry@ == old(self).entry@,
            final(self).sub_menu_open == old(self).sub_menu_open,
            final(self).selector.layer == old(self).selector.layer,
            final(self).selector.selection == if old(self).sub_menu_open {
                ((old(self).selector.selection + reel_len(old(self).selector.layer) - 1) % (reel_len(old(self).selector.layer) as int)) as usize
            } else {
                old(self).selector.selection
            },
    {
        if self.sub_menu_open {
            self.selector.prev();
        }
        HandlerResult::Idle
    }

    /// A turn to the right moves the keyboard's cursor on, when the keyboard is open.
    pub fn right(&mut self) -> (r: HandlerResult)
        requires
            old(self).selector.selection < reel_len(old(self).selector.layer) + 3,
        ensures
            r == HandlerResult::Idle,
            final(self).entry@ == old(self).entry@,
            final(self).sub_menu_open == old(self).sub_menu_open,
            final(self).selector.layer == old(self).selector.layer,
            final(self).selector.selection == if old(self).sub_menu_open {
                ((old(self).selector.selection + 1) % (reel_len(old(self).selector.layer) as int)) as usize
            } else {
                old(self).selector.selection
            },
    {
        if self.sub_menu_open {
            self.selector.next();
        }
        HandlerResult::Idle
    }

    /// A click opens the keyboard; once open, it does what the option under the cursor says:
    /// confirm the text, erase its last character, type a character while the text is shorter
    /// than its limit, or switch reels. The cursor must be on an option of its reel, and the
    /// left and right options (which no reel holds) are not taken.
    pub fn click(&mut self) -> (c: TextBoxClick)
        requires
            old(self).sub_menu_open ==> old(self).selector.selection < reel_len(old(self).selector.layer),
            text_bytes(old(self).entry@) <= usize::MAX,
        ensures
            final(self).max_length == old(self).max_length,
            final(self).highlighted == old(self).highlighted,
            final(self).selector.selection == old(self).selector.selection,
            !old(self).sub_menu_open ==> (final(self).sub_menu_open && final(self).entry@ == old(self).entry@
                && final(self).selector.layer == old(self).selector.layer && c == TextBoxClick::Opened),
            old(self).sub_menu_open ==> {
                let a = reel_action(old(self).selector.layer, old(self).selector.selection as int);
                &&& !(a is Left || a is Right)
                &&& (final(self).sub_menu_open, final(self).entry@, final(self).selector.layer, c)
                    == spec_textbox_click(*old(self), old(self).entry@, a)
            },
    {
        if !self.sub_menu_open {
            self.sub_menu_open = true;
            return TextBoxClick::Opened;
        }
        let r = reel(self.selector.layer);
        proof {
            lemma_reel_actions(self.selector.layer);
        }
        let a = r[self.selector.selection].action;
        match a {
            TextAction::Confirm => {
                self.sub_menu_open = false;
                TextBoxClick::Submitted
            },
            TextAction::Backspace => {
                let removed = self.entry.pop().is_some();
                TextBoxClick::Erased(removed)
            },
            TextAction::Type(ch) => {
                if entry_bytes(&self.entry) < self.max_length {
                    self.entry.push(ch);
                    TextBoxClick::Typed(ch, true)
                } else {
                    TextBoxClick::Typed(ch, false)
                }
            },
            TextAction::ToLayer(l) => {
                self.selector.layer = l;
                TextBoxClick::Switched
            },
            _ => TextBoxClick::Opened,
        }
    }
}

/// With the keyboard open and room left in the text, clicking a typing key appends the symbol
/// the key shows (a space for `_`) and keeps the keyboard open; erasing right after gives the
/// text back as it was.
pub proof fn lemma_click_types_shown(s: TextBoxState, entry: Seq<char>, i: int)
    requires
        s.sub_menu_open,
        0 <= i < spec_reel(s.selector.layer).len(),
        spec_reel(s.selector.layer)[i].action is Type,
        text_bytes(entry) < s.max_length,
    ensures
        ({
            let key = spec_reel(s.selector.layer)[i];
            let shown = if key.symbol == '_' { ' ' } else { key.symbol };
            let (open, typed, layer, c) = spec_textbox_click(s, entry, key.action);
            &&& open
            &&& typed == entry.push(shown)
            &&& layer == s.selector.layer
            &&& c == TextBoxClick::Typed(shown, true)
            &&& spec_textbox_click(s, typed, TextAction::Backspace).1 == entry
        }),
{
    lemma_reel_types_shown(s.selector.layer);
    let key = spec_reel(s.selector.layer)[i];
    let shown = if key.symbol == '_' { ' ' } else { key.symbol };
    assert(entry.push(shown).drop_last() =~= entry);
}

/// The text a box shows for `text`: `empty_text` when there is none, the text itself when it
/// is shorter than `preview_chars` bytes, else its first `preview_chars` bytes and "...".
pub open spec fn spec_preview(text: Seq<char>, empty_text: Seq<char>, preview_chars: nat) -> Seq<char> {
    let b = vstd::utf8::encode_utf8(text);
    if text.len() == 0 {
        empty_text
    } else if b.len() < preview_chars {
        text
    } else {
        vstd::utf8::decode_utf8(b.take(preview_chars as int)) + "..."@
    }
}

/// The text a box shows. A text cut short must be cut at the start of a character.
pub fn get_preview(text: &str, empty_text: &str, preview_chars: usize) -> (p: String)
    requires
        vstd::utf8::encode_utf8(text@).len() >= preview_chars ==> vstd::utf8::is_char_boundary(vstd::utf8::encode_utf8(text@), preview_chars as int),
    ensures
        p@ == spec_preview(text@, empty_text@, preview_chars as nat),
{
    if text.is_empty() {
        let r = empty_text.to_owned();
        assert(r@ == spec_preview(text@, empty_text@, preview_chars as nat));
        r
    } else if text.as_bytes().len() < preview_chars {
        let r = text.to_owned();
        assert(text.spec_bytes() == vstd::utf8::encode_utf8(text@));
        assert(r@ == spec_preview(text@, empty_text@, preview_chars as nat));
        r
    } else {
        let (head, _) = text.split_at(preview_chars);
        proof {
            vstd::utf8::encode_utf8_decode_utf8(head@);
            assert(head.spec_bytes() == vstd::utf8::encode_utf8(head@));
            assert(text.spec_bytes() == vstd::utf8::encode_utf8(text@));
            assert(vstd::utf8::encode_utf8(text@).subrange(0, preview_chars as int) =~= vstd::utf8::encode_utf8(text@).take(preview_chars as int));
        }
        let r = concat_str(head, "...");
        assert(r@ == spec_preview(text@, empty_text@, preview_chars as nat));
        r
    }
}

} // verus!
