//! Key chords, per-action bindings and the runtime configuration.
use vstd::prelude::*;

use crate::text::{is_white_space, lower_of, lowercase, push_char, white_space};

verus! {

/// The logical modifier set of a chord.
#[derive(Clone, Copy, Debug, PartialEq, Eq, Structural)]
pub struct Modifiers {
    pub alt: bool,
    pub ctrl: bool,
    pub shift: bool,
    pub super_key: bool,
}

/// The empty modifier set.
pub open spec fn no_modifiers() -> Modifiers {
    Modifiers { alt: false, ctrl: false, shift: false, super_key: false }
}

impl Default for Modifiers {
    fn default() -> (r: Self)
        ensures
            r == no_modifiers(),
    {
        Modifiers { alt: false, ctrl: false, shift: false, super_key: false }
    }
}

/// Why a chord such as `"A-M-c"` was refused.
#[derive(Clone, Debug)]
pub enum ChordError {
    /// A token before the key is not one of `A`, `C`, `S`, `M`.
    UnknownModifier(String),
    /// Nothing follows the last `-`.
    EmptyKey,
}

/// A key name together with the exact modifier set that must be held.
#[derive(Clone, Debug, Eq)]
pub struct KeyBinding {
    pub modifiers: Modifiers,
    pub key: String,
}

impl PartialEq for KeyBinding {
    fn eq(&self, other: &KeyBinding) -> (r: bool) {
        self.modifiers == other.modifiers && self.key == other.key
    }
}

impl vstd::std_specs::cmp::PartialEqSpecImpl for KeyBinding {
    open spec fn obeys_eq_spec() -> bool {
        true
    }

    open spec fn eq_spec(&self, other: &KeyBinding) -> bool {
        self.modifiers == other.modifiers && self.key@ == other.key@
    }
}

/// `s` cut at every `sep`; there is always at least one piece.
pub open spec fn split_on(s: Seq<char>, sep: char) -> Seq<Seq<char>>
    decreases s.len(),
{
    if s.len() == 0 {
        seq![Seq::<char>::empty()]
    } else {
        let pieces = split_on(s.drop_last(), sep);
        if s.last() == sep {
            pieces.push(Seq::<char>::empty())
        } else {
            pieces.update(pieces.len() - 1, pieces.last().push(s.last()))
        }
    }
}

/// The four single-letter modifier codes: Alt, Control, Shift, Meta.
pub open spec fn is_modifier_token(t: Seq<char>) -> bool {
    t == seq!['A'] || t == seq!['C'] || t == seq!['S'] || t == seq!['M']
}

/// The modifier set named by a list of modifier tokens.
pub open spec fn modifiers_of(tokens: Seq<Seq<char>>) -> Modifiers {
    Modifiers {
        alt: tokens.contains(seq!['A']),
        ctrl: tokens.contains(seq!['C']),
        shift: tokens.contains(seq!['S']),
        super_key: tokens.contains(seq!['M']),
    }
}

/// The pieces of a chord: modifier tokens, then the key.
pub open spec fn chord_tokens(s: Seq<char>) -> Seq<Seq<char>> {
    split_on(s, '-')
}

/// Every token before the last is a modifier code.
pub open spec fn modifiers_known(tokens: Seq<Seq<char>>) -> bool {
    forall|j: int| 0 <= j < tokens.len() - 1 ==> is_modifier_token(#[trigger] tokens[j])
}

/// Token `k` is the first token before the key that is no modifier code.
pub open spec fn first_unknown_modifier(tokens: Seq<Seq<char>>, k: int) -> bool {
    &&& 0 <= k < tokens.len() - 1
    &&& !is_modifier_token(tokens[k])
    &&& forall|j: int| 0 <= j < k ==> is_modifier_token(#[trigger] tokens[j])
}

/// A chord parses when every modifier code is known and the key is not empty.
pub open spec fn chord_is_valid(s: Seq<char>) -> bool {
    modifiers_known(chord_tokens(s)) && chord_tokens(s).last().len() > 0
}

proof fn lemma_split_nonempty(s: Seq<char>, sep: char)
    ensures
        split_on(s, sep).len() >= 1,
    decreases s.len(),
{
    if s.len() > 0 {
        lemma_split_nonempty(s.drop_last(), sep);
    }
}

/// Pieces that are complete in a prefix stay as they are in a longer prefix.
proof fn lemma_split_prefix(s: Seq<char>, sep: char, m: int, n: int)
    requires
        0 <= m <= n <= s.len(),
    ensures
        split_on(s.take(n), sep).len() >= split_on(s.take(m), sep).len(),
        forall|j: int|
            0 <= j < split_on(s.take(m), sep).len() - 1 ==> split_on(s.take(n), sep)[j]
                == split_on(s.take(m), sep)[j],
    decreases n - m,
{
    if n > m {
        lemma_split_prefix(s, sep, m, n - 1);
        assert(s.take(n).drop_last() =~= s.take(n - 1));
        lemma_split_nonempty(s.take(n - 1), sep);
    }
}

/// `kb` is what chord `s` parses to.
pub open spec fn parsed_as(s: Seq<char>, kb: KeyBinding) -> bool {
    &&& chord_is_valid(s)
    &&& kb.modifiers == modifiers_of(chord_tokens(s).drop_last())
    &&& kb.key@ == lower_of(chord_tokens(s).last())
}

impl KeyBinding {
    /// Parses a chord such as `"A-M-c"`: tokens are separated by `-`, the last
    /// one is the key (lowercased), every earlier one must be `A`, `C`, `S` or
    /// `M` (Alt, Control, Shift, Meta).
    pub fn parse(s: &str) -> (r: Result<KeyBinding, ChordError>)
        ensures
            r is Ok <==> chord_is_valid(s@),
            r matches Ok(kb) ==> parsed_as(s@, kb),
            r matches Err(ChordError::UnknownModifier(t)) ==> exists|k: int|
                first_unknown_modifier(chord_tokens(s@), k) && t@ == chord_tokens(s@)[k],
            r matches Err(ChordError::EmptyKey) ==> modifiers_known(chord_tokens(s@))
                && chord_tokens(s@).last().len() == 0,
    {
        let n = s.unicode_len();
        let mut mods = Modifiers { alt: false, ctrl: false, shift: false, super_key: false };
        let mut cur = String::new();
        let mut i: usize = 0;
        proof {
            assert(s@.take(0) =~= Seq::<char>::empty());
            assert(modifiers_of(Seq::<Seq<char>>::empty()) == mods);
            assert(split_on(s@.take(0), '-').drop_last() =~= Seq::<Seq<char>>::empty());
        }
        while i < n
            invariant
                n == s@.len(),
                i <= n,
                split_on(s@.take(i as int), '-').len() >= 1,
                cur@ == split_on(s@.take(i as int), '-').last(),
                modifiers_known(split_on(s@.take(i as int), '-')),
                mods == modifiers_of(split_on(s@.take(i as int), '-').drop_last()),
            decreases n - i,
        {
            let c = s.get_char(i);
            let ghost pieces = split_on(s@.take(i as int), '-');
            proof {
                assert(s@.take(i + 1).drop_last() =~= s@.take(i as int));
                assert(s@.take(i + 1).last() == c);
            }
            if c == '-' {
                let is_single = cur.as_str().unicode_len() == 1;
                let first = if is_single { cur.as_str().get_char(0) } else { ' ' };
                proof {
                    if is_single {
                        assert(cur@ == seq!['A'] ==> first == 'A');
                        assert(first == 'A' ==> cur@ =~= seq!['A']);
                        assert(first == 'C' ==> cur@ =~= seq!['C']);
                        assert(first == 'S' ==> cur@ =~= seq!['S']);
                        assert(first == 'M' ==> cur@ =~= seq!['M']);
                    }
                }
                if is_single && first == 'A' {
                    mods.alt = true;
                } else if is_single && first == 'C' {
                    mods.ctrl = true;
                } else if is_single && first == 'S' {
                    mods.shift = true;
                } else if is_single && first == 'M' {
                    mods.super_key = true;
                } else {
                    proof {
                        assert(!is_modifier_token(cur@));
                        let next = split_on(s@.take(i + 1), '-');
                        assert(next == pieces.push(Seq::<char>::empty()));
                        lemma_split_prefix(s@, '-', i + 1, n as int);
                        assert(s@.take(n as int) =~= s@);
                        let k = pieces.len() - 1;
                        assert(chord_tokens(s@)[k] == next[k]);
                        assert(first_unknown_modifier(chord_tokens(s@), k));
                    }
                    return Err(ChordError::UnknownModifier(cur));
                }
                proof {
                    let next = split_on(s@.take(i + 1), '-');
                    assert(next == pieces.push(Seq::<char>::empty()));
                    assert(next.drop_last() =~= pieces.drop_last().push(pieces.last()));
                    assert(forall|t: Seq<char>| #[trigger]
                        next.drop_last().contains(t) <==> (pieces.drop_last().contains(t)
                            || t == pieces.last())) by {
                        assert forall|t: Seq<char>| #[trigger]
                            next.drop_last().contains(t) implies (pieces.drop_last().contains(t)
                                || t == pieces.last()) by {
                            let j = choose|j: int|
                                0 <= j < next.drop_last().len() && next.drop_last()[j] == t;
                            if j < pieces.len() - 1 {
                                assert(pieces.drop_last()[j] == t);
                            }
                        }
                        assert forall|t: Seq<char>|
                            (pieces.drop_last().contains(t) || t == pieces.last()) implies
                            #[trigger] next.drop_last().contains(t) by {
                            if t == pieces.last() {
                                assert(next.drop_last()[pieces.len() - 1] == t);
                            } else {
                                let j = choose|j: int|
                                    0 <= j < pieces.drop_last().len() && pieces.drop_last()[j] == t;
                                assert(next.drop_last()[j] == t);
                            }
                        }
                    }
                    assert(modifiers_known(next));
                }
                cur = String::new();
            } else {
                push_char(&mut cur, c);
                proof {
                    let next = split_on(s@.take(i + 1), '-');
                    assert(next.drop_last() =~= pieces.drop_last());
                    assert(modifiers_known(next)) by {
                        assert forall|j: int| 0 <= j < next.len() - 1 implies is_modifier_token(
                            #[trigger] next[j],
                        ) by {
                            assert(next[j] == pieces[j]);
                        }
                    }
                }
            }
            i = i + 1;
        }
        proof {
            assert(s@.take(n as int) =~= s@);
        }
        if cur.as_str().unicode_len() == 0 {
            return Err(ChordError::EmptyKey);
        }
        let key = lowercase(cur.as_str());
        Ok(KeyBinding { modifiers: mods, key })
    }
}

/// Keys that click the three mouse buttons.
#[derive(Clone, Debug)]
pub struct MouseButtons {
    pub left: String,
    pub middle: String,
    pub right: String,
}

impl Default for MouseButtons {
    fn default() -> (r: Self)
        ensures
            r.left@ == "m"@,
            r.middle@ == ","@,
            r.right@ == "."@,
    {
        MouseButtons { left: "m".to_string(), middle: ",".to_string(), right: ".".to_string() }
    }
}

/// Validated configuration, read-only once loaded.
#[derive(Clone, Debug)]
pub struct Config {
    pub hint_activation_key: KeyBinding,
    pub activation_key: KeyBinding,
    pub exit: String,
    pub drag: String,
    pub copy_and_exit: String,
    pub hint: String,
    pub accelerator: String,
    pub decelerator: String,
    pub buttons: MouseButtons,
    pub left: String,
    pub down: String,
    pub up: String,
    pub right: String,
    pub scroll_down: String,
    pub scroll_up: String,
    /// RGBA.
    pub cursor_color: u32,
    pub cursor_size: u32,
    pub speed: u32,
    pub max_speed: u32,
    pub decelerator_speed: u32,
    pub acceleration: u32,
    pub accelerator_acceleration: u32,
    pub hint_chars: String,
    pub hint_size: u32,
    pub hint_exit: String,
    pub scroll_speed: u32,
    pub scroll_max_speed: u32,
    pub scroll_acceleration: u32,
    pub scroll_deceleration: i32,
}

impl Default for Config {
    /// Alt+Meta+x enters hint mode, Alt+Meta+c normal mode; h/j/k/l move.
    fn default() -> (r: Self)
        ensures
            r.hint_activation_key.modifiers == (Modifiers {
                alt: true,
                ctrl: false,
                shift: false,
                super_key: true,
            }),
            r.hint_activation_key.key@ == "x"@,
            r.activation_key.modifiers == (Modifiers {
                alt: true,
                ctrl: false,
                shift: false,
                super_key: true,
            }),
            r.activation_key.key@ == "c"@,
            r.exit@ == "esc"@,
            r.drag@ == "v"@,
            r.copy_and_exit@ == "c"@,
            r.hint@ == "x"@,
            r.accelerator@ == "a"@,
            r.decelerator@ == "d"@,
            r.buttons.left@ == "m"@,
            r.buttons.middle@ == ","@,
            r.buttons.right@ == "."@,
            r.left@ == "h"@,
            r.down@ == "j"@,
            r.up@ == "k"@,
            r.right@ == "l"@,
            r.scroll_down@ == "e"@,
            r.scroll_up@ == "r"@,
            r.cursor_color == 0xFF4500FF,
            r.cursor_size == 7,
            r.speed == 220,
            r.max_speed == 1600,
            r.decelerator_speed == 50,
            r.acceleration == 700,
            r.accelerator_acceleration == 2900,
            r.hint_chars@ == "abcdefghijklmnopqrstuvwxyz"@,
            r.hint_size == 20,
            r.hint_exit@ == "esc"@,
            r.scroll_speed == 300,
            r.scroll_max_speed == 9000,
            r.scroll_acceleration == 1600,
            r.scroll_deceleration == -3400,
    {
        let alt_meta = Modifiers { alt: true, ctrl: false, shift: false, super_key: true };
        Config {
            hint_activation_key: KeyBinding { modifiers: alt_meta, key: "x".to_string() },
            activation_key: KeyBinding { modifiers: alt_meta, key: "c".to_string() },
            exit: "esc".to_string(),
            drag: "v".to_string(),
            copy_and_exit: "c".to_string(),
            hint: "x".to_string(),
            accelerator: "a".to_string(),
            decelerator: "d".to_string(),
            buttons: MouseButtons::default(),
            left: "h".to_string(),
            down: "j".to_string(),
            up: "k".to_string(),
            right: "l".to_string(),
            scroll_down: "e".to_string(),
            scroll_up: "r".to_string(),
            cursor_color: 0xFF4500FF,
            cursor_size: 7,
            speed: 220,
            max_speed: 1600,
            decelerator_speed: 50,
            acceleration: 700,
            accelerator_acceleration: 2900,
            hint_chars: "abcdefghijklmnopqrstuvwxyz".to_string(),
            hint_size: 20,
            hint_exit: "esc".to_string(),
            scroll_speed: 300,
            scroll_max_speed: 9000,
            scroll_acceleration: 1600,
            scroll_deceleration: -3400,
        }
    }
}

/// Why a colour such as `"#FF4500"` was refused.
#[derive(Clone, Copy, Debug, PartialEq, Eq, Structural)]
pub enum ColorError {
    /// Not 6 or 8 characters after the leading `#`s.
    WrongLength,
    /// A character that is no hexadecimal digit.
    InvalidDigit,
}

/// The value of a hexadecimal digit.
pub open spec fn hex_digit(c: char) -> Option<nat> {
    if '0' <= c && c <= '9' {
        Some((c as nat - '0' as nat) as nat)
    } else if 'a' <= c && c <= 'f' {
        Some((c as nat - 'a' as nat + 10) as nat)
    } else if 'A' <= c && c <= 'F' {
        Some((c as nat - 'A' as nat + 10) as nat)
    } else {
        None
    }
}

/// Every character is a hexadecimal digit.
pub open spec fn all_hex(s: Seq<char>) -> bool {
    forall|i: int| 0 <= i < s.len() ==> (#[trigger] hex_digit(s[i])) is Some
}

/// The number the hexadecimal digits `s` spell.
pub open spec fn hex_value(s: Seq<char>) -> nat
    decreases s.len(),
{
    if s.len() == 0 {
        0
    } else {
        16 * hex_value(s.drop_last()) + hex_digit(s.last()).unwrap_or(0)
    }
}

/// The digits of a number: a leading `+` is allowed, as for unsigned parsing.
pub open spec fn unsigned_digits(s: Seq<char>) -> Seq<char> {
    if s.len() > 0 && s[0] == '+' {
        s.drop_first()
    } else {
        s
    }
}

/// A hexadecimal number: digits after an optional `+`, at least one.
pub open spec fn hex_number_ok(s: Seq<char>) -> bool {
    unsigned_digits(s).len() > 0 && all_hex(unsigned_digits(s))
}

/// `s` without its leading `#` characters.
pub open spec fn strip_hashes(s: Seq<char>) -> Seq<char>
    decreases s.len(),
{
    if s.len() > 0 && s[0] == '#' {
        strip_hashes(s.drop_first())
    } else {
        s
    }
}

/// The RGBA value of a colour: six digits get a full alpha byte, eight are
/// taken as they are.
pub open spec fn color_value(s: Seq<char>) -> Result<u32, ColorError> {
    let d = strip_hashes(s);
    if d.len() != 6 && d.len() != 8 {
        Err(ColorError::WrongLength)
    } else if !hex_number_ok(d) {
        Err(ColorError::InvalidDigit)
    } else if d.len() == 6 {
        Ok((hex_value(unsigned_digits(d)) * 256 + 255) as u32)
    } else {
        Ok(hex_value(unsigned_digits(d)) as u32)
    }
}

proof fn lemma_hex_value_bound(s: Seq<char>)
    requires
        all_hex(s),
    ensures
        hex_value(s) < pow16(s.len()),
    decreases s.len(),
{
    if s.len() > 0 {
        assert(all_hex(s.drop_last())) by {
            assert forall|i: int| 0 <= i < s.drop_last().len() implies (#[trigger] hex_digit(
                s.drop_last()[i],
            )) is Some by {
                assert(s.drop_last()[i] == s[i]);
            }
        }
        lemma_hex_value_bound(s.drop_last());
        assert(hex_digit(s[s.len() - 1]) is Some);
    }
}

/// 16 to the power `n`.
pub open spec fn pow16(n: nat) -> nat
    decreases n,
{
    if n == 0 {
        1
    } else {
        16 * pow16((n - 1) as nat)
    }
}

proof fn lemma_strip_hashes(s: Seq<char>, k: int)
    requires
        0 <= k <= s.len(),
        forall|i: int| 0 <= i < k ==> s[i] == '#',
        k == s.len() || s[k] != '#',
    ensures
        strip_hashes(s) == s.subrange(k, s.len() as int),
    decreases k,
{
    if k == 0 {
        assert(s.subrange(0, s.len() as int) =~= s);
    } else {
        lemma_strip_hashes(s.drop_first(), k - 1);
        assert(s.drop_first().subrange(k - 1, s.len() - 1) =~= s.subrange(k, s.len() as int));
    }
}

fn hex_digit_exec(c: char) -> (r: Option<u32>)
    ensures
        r matches Some(v) ==> hex_digit(c) == Some(v as nat) && v < 16,
        r is None ==> hex_digit(c) is None,
{
    if '0' <= c && c <= '9' {
        Some(c as u32 - '0' as u32)
    } else if 'a' <= c && c <= 'f' {
        Some(c as u32 - 'a' as u32 + 10)
    } else if 'A' <= c && c <= 'F' {
        Some(c as u32 - 'A' as u32 + 10)
    } else {
        None
    }
}

/// Parses a colour such as `"#FF4500"` (alpha `FF` added) or `"#FF450080"`
/// into RGBA.
pub fn parse_color(s: &str) -> (r: Result<u32, ColorError>)
    ensures
        r == color_value(s@),
{
    let n = s.unicode_len();
    let mut k: usize = 0;
    while k < n && s.get_char(k) == '#'
        invariant
            n == s@.len(),
            k <= n,
            forall|i: int| 0 <= i < k ==> s@[i] == '#',
        decreases n - k,
    {
        k = k + 1;
    }
    proof {
        lemma_strip_hashes(s@, k as int);
    }
    let ghost d = strip_hashes(s@);
    let len = n - k;
    if len != 6 && len != 8 {
        return Err(ColorError::WrongLength);
    }
    let mut start = k;
    if s.get_char(k) == '+' {
        start = k + 1;
    }
    let ghost digits = unsigned_digits(d);
    proof {
        assert(digits =~= s@.subrange(start as int, n as int));
    }
    let mut value: u64 = 0;
    let mut i = start;
    while i < n
        invariant
            n == s@.len(),
            start <= i <= n,
            n - start <= 8,
            digits == s@.subrange(start as int, n as int),
            digits == unsigned_digits(d),
            d == s@.subrange(k as int, n as int),
            d == strip_hashes(s@),
            len == n - k,
            len == 6 || len == 8,
            all_hex(digits.take(i - start)),
            value == hex_value(digits.take(i - start)),
            value < pow16((i - start) as nat),
        decreases n - i,
    {
        let c = s.get_char(i);
        match hex_digit_exec(c) {
            Some(v) => {
                proof {
                    let t = digits.take(i - start + 1);
                    assert(t.drop_last() =~= digits.take(i - start));
                    assert(t.last() == c);
                    assert(all_hex(t)) by {
                        assert forall|j: int| 0 <= j < t.len() implies (#[trigger] hex_digit(t[j])) is Some by {
                            if j < t.len() - 1 {
                                assert(t[j] == digits.take(i - start)[j]);
                            }
                        }
                    }
                    assert(pow16((i - start + 1) as nat) == 16 * pow16((i - start) as nat));
                    lemma_pow16_values();
                    assert(pow16((i - start) as nat) <= pow16(7)) by {
                        lemma_pow16_mono((i - start) as nat, 7);
                    }
                }
                value = value * 16 + v as u64;
            },
            None => {
                proof {
                    assert(digits[i - start] == c);
                    assert(!all_hex(digits));
                    assert(d.len() == len);
                    assert(!hex_number_ok(d));
                }
                return Err(ColorError::InvalidDigit);
            },
        }
        i = i + 1;
    }
    proof {
        assert(digits.take(n - start) =~= digits);
    }
    if start == n {
        return Err(ColorError::InvalidDigit);
    }
    proof {
        lemma_pow16_values();
        lemma_hex_value_bound(digits);
    }
    if len == 6 {
        proof {
            if start == k {
                assert(pow16(digits.len()) == pow16(6));
            } else {
                assert(pow16(digits.len()) <= pow16(6)) by {
                    lemma_pow16_mono(digits.len(), 6);
                }
            }
        }
        Ok((value * 256 + 255) as u32)
    } else {
        proof {
            lemma_pow16_mono(digits.len(), 8);
        }
        Ok(value as u32)
    }
}

proof fn lemma_pow16_values()
    ensures
        pow16(6) == 16777216,
        pow16(7) == 268435456,
        pow16(8) == 4294967296,
{
    reveal_with_fuel(pow16, 9);
}

proof fn lemma_pow16_mono(a: nat, b: nat)
    requires
        a <= b,
    ensures
        pow16(a) <= pow16(b),
    decreases b,
{
    if a < b {
        lemma_pow16_mono(a, (b - 1) as nat);
    }
}

/// The words of `s`: maximal runs of characters that are not white space.
pub open spec fn words(s: Seq<char>) -> Seq<Seq<char>>
    decreases s.len(),
{
    if s.len() == 0 {
        Seq::empty()
    } else {
        let w = words(s.drop_last());
        if white_space(s.last()) {
            w
        } else if s.len() >= 2 && !white_space(s[s.len() - 2]) {
            w.update(w.len() - 1, w.last().push(s.last()))
        } else {
            w.push(seq![s.last()])
        }
    }
}

proof fn lemma_words_nonempty(s: Seq<char>)
    requires
        s.len() > 0,
        !white_space(s.last()),
    ensures
        words(s).len() > 0,
    decreases s.len(),
{
    if s.len() >= 2 && !white_space(s[s.len() - 2]) {
        lemma_words_nonempty(s.drop_last());
    }
}

/// Splits `s` at white space, dropping empty pieces.
fn split_words(s: &str) -> (r: Vec<String>)
    ensures
        r@.map_values(|w: String| w@) == words(s@),
{
    let n = s.unicode_len();
    let mut done: Vec<String> = Vec::new();
    let mut cur = String::new();
    let mut i: usize = 0;
    while i < n
        invariant
            n == s@.len(),
            i <= n,
            cur@.len() > 0 <==> (i > 0 && !white_space(s@[i - 1])),
            words(s@.take(i as int)) == done@.map_values(|w: String| w@) + (if cur@.len() > 0 {
                seq![cur@]
            } else {
                Seq::empty()
            }),
        decreases n - i,
    {
        let c = s.get_char(i);
        let ghost before = s@.take(i as int);
        proof {
            assert(s@.take(i + 1).drop_last() =~= before);
            assert(s@.take(i + 1).last() == c);
            if i >= 1 {
                assert(s@.take(i + 1)[i - 1] == s@[i - 1]);
            }
        }
        if is_white_space(c) {
            if cur.as_str().unicode_len() > 0 {
                let ghost old_done = done@;
                done.push(cur);
                cur = String::new();
                proof {
                    assert(done@.map_values(|w: String| w@) =~= old_done.map_values(|w: String| w@)
                        + seq![done@.last()@]);
                    assert(words(s@.take(i + 1)) =~= done@.map_values(|w: String| w@));
                }
            } else {
                proof {
                    assert(words(s@.take(i + 1)) =~= done@.map_values(|w: String| w@));
                }
            }
        } else {
            let ghost was = cur@;
            push_char(&mut cur, c);
            proof {
                if was.len() > 0 {
                    lemma_words_nonempty(before);
                    assert(words(s@.take(i + 1)) =~= done@.map_values(|w: String| w@) + seq![cur@]);
                } else {
                    assert(cur@ =~= seq![c]);
                    assert(words(before) =~= done@.map_values(|w: String| w@));
                    assert(words(s@.take(i + 1)) =~= done@.map_values(|w: String| w@) + seq![cur@]);
                }
            }
        }
        i = i + 1;
    }
    proof {
        assert(s@.take(n as int) =~= s@);
    }
    if cur.as_str().unicode_len() > 0 {
        let ghost old_done = done@;
        done.push(cur);
        proof {
            assert(done@.map_values(|w: String| w@) =~= old_done.map_values(|w: String| w@) + seq![
                done@.last()@
            ]);
        }
    } else {
        proof {
            assert(words(s@) =~= done@.map_values(|w: String| w@));
        }
    }
    done
}

/// Configuration as read from the file: every option may be missing.
#[derive(Clone, Debug)]
pub struct RawConfig {
    pub hint_activation_key: Option<String>,
    pub activation_key: Option<String>,
    pub exit: Option<String>,
    pub drag: Option<String>,
    pub copy_and_exit: Option<String>,
    pub hint: Option<String>,
    pub accelerator: Option<String>,
    pub decelerator: Option<String>,
    /// Three keys separated by white space: left, middle, right.
    pub buttons: Option<String>,
    pub left: Option<String>,
    pub down: Option<String>,
    pub up: Option<String>,
    pub right: Option<String>,
    pub scroll_down: Option<String>,
    pub scroll_up: Option<String>,
    pub cursor_color: Option<String>,
    pub cursor_size: Option<u32>,
    pub speed: Option<u32>,
    pub max_speed: Option<u32>,
    pub decelerator_speed: Option<u32>,
    pub acceleration: Option<u32>,
    pub accelerator_acceleration: Option<u32>,
    pub hint_chars: Option<String>,
    pub hint_size: Option<u32>,
    pub hint_exit: Option<String>,
    pub scroll_speed: Option<u32>,
    pub scroll_max_speed: Option<u32>,
    pub scroll_acceleration: Option<u32>,
    pub scroll_deceleration: Option<i32>,
}

impl Default for RawConfig {
    /// No option given.
    fn default() -> (r: Self)
        ensures
            r.hint_activation_key is None,
            r.activation_key is None,
            r.exit is None,
            r.drag is None,
            r.copy_and_exit is None,
            r.hint is None,
            r.accelerator is None,
            r.decelerator is None,
            r.buttons is None,
            r.left is None,
            r.down is None,
            r.up is None,
            r.right is None,
            r.scroll_down is None,
            r.scroll_up is None,
            r.cursor_color is None,
            r.cursor_size is None,
            r.speed is None,
            r.max_speed is None,
            r.decelerator_speed is None,
            r.acceleration is None,
            r.accelerator_acceleration is None,
            r.hint_chars is None,
            r.hint_size is None,
            r.hint_exit is None,
            r.scroll_speed is None,
            r.scroll_max_speed is None,
            r.scroll_acceleration is None,
            r.scroll_deceleration is None,
    {
        RawConfig {
            hint_activation_key: None,
            activation_key: None,
            exit: None,
            drag: None,
            copy_and_exit: None,
            hint: None,
            accelerator: None,
            decelerator: None,
            buttons: None,
            left: None,
            down: None,
            up: None,
            right: None,
            scroll_down: None,
            scroll_up: None,
            cursor_color: None,
            cursor_size: None,
            speed: None,
            max_speed: None,
            decelerator_speed: None,
            acceleration: None,
            accelerator_acceleration: None,
            hint_chars: None,
            hint_size: None,
            hint_exit: None,
            scroll_speed: None,
            scroll_max_speed: None,
            scroll_acceleration: None,
            scroll_deceleration: None,
        }
    }
}

/// Which option of a configuration was malformed.
#[derive(Clone, Debug)]
pub enum ConfigError {
    HintActivationKey(ChordError),
    ActivationKey(ChordError),
    CursorColor(ColorError),
}

/// The option's text, or the default.
pub open spec fn text_or(o: Option<String>, d: Seq<char>) -> Seq<char> {
    match o {
        Some(v) => v@,
        None => d,
    }
}

/// The option's number, or the default.
pub open spec fn num_or<T>(o: Option<T>, d: T) -> T {
    match o {
        Some(v) => v,
        None => d,
    }
}

/// An optional chord is absent or parses.
pub open spec fn chord_ok(o: Option<String>) -> bool {
    o matches Some(s) ==> chord_is_valid(s@)
}

/// `kb` is what the optional chord gives: its parse, or Alt+Meta and `key`.
pub open spec fn chord_or(o: Option<String>, kb: KeyBinding, key: Seq<char>) -> bool {
    match o {
        Some(s) => parsed_as(s@, kb),
        None => kb.modifiers == (Modifiers { alt: true, ctrl: false, shift: false, super_key: true })
            && kb.key@ == key,
    }
}

/// An optional colour is absent or parses.
pub open spec fn color_ok(o: Option<String>) -> bool {
    o matches Some(s) ==> color_value(s@) is Ok
}

/// An optional colour is present and fails with `e`.
pub open spec fn color_fails_with(o: Option<String>, e: ColorError) -> bool {
    o matches Some(s) && color_value(s@) == Err::<u32, ColorError>(e)
}

/// The button keys: the first three words of the option when it has that
/// many, else `m`, `,` and `.`.
pub open spec fn buttons_from(o: Option<String>, mb: MouseButtons) -> bool {
    match o {
        Some(b) if words(b@).len() >= 3 => {
            &&& mb.left@ == words(b@)[0]
            &&& mb.middle@ == words(b@)[1]
            &&& mb.right@ == words(b@)[2]
        },
        _ => {
            &&& mb.left@ == "m"@
            &&& mb.middle@ == ","@
            &&& mb.right@ == "."@
        },
    }
}

impl Config {
    /// Merges the options that are present over the defaults. A chord or
    /// colour that does not parse is an error, checked in the order hint
    /// activation chord, activation chord, cursor colour. The button keys are
    /// taken when the option has at least three words.
    pub fn from_raw(raw: RawConfig) -> (r: Result<Config, ConfigError>)
        ensures
            r is Ok <==> chord_ok(raw.hint_activation_key) && chord_ok(raw.activation_key) && color_ok(
                raw.cursor_color,
            ),
            r matches Err(ConfigError::HintActivationKey(_)) ==> !chord_ok(raw.hint_activation_key),
            r matches Err(ConfigError::ActivationKey(_)) ==> chord_ok(raw.hint_activation_key)
                && !chord_ok(raw.activation_key),
            r matches Err(ConfigError::CursorColor(e)) ==> chord_ok(raw.hint_activation_key)
                && chord_ok(raw.activation_key) && color_fails_with(raw.cursor_color, e),
            r matches Ok(c) ==> {
                &&& chord_or(raw.hint_activation_key, c.hint_activation_key, "x"@)
                &&& chord_or(raw.activation_key, c.activation_key, "c"@)
                &&& c.exit@ == text_or(raw.exit, "esc"@)
                &&& c.drag@ == text_or(raw.drag, "v"@)
                &&& c.copy_and_exit@ == text_or(raw.copy_and_exit, "c"@)
                &&& c.hint@ == text_or(raw.hint, "x"@)
                &&& c.accelerator@ == text_or(raw.accelerator, "a"@)
                &&& c.decelerator@ == text_or(raw.decelerator, "d"@)
                &&& c.left@ == text_or(raw.left, "h"@)
                &&& c.down@ == text_or(raw.down, "j"@)
                &&& c.up@ == text_or(raw.up, "k"@)
                &&& c.right@ == text_or(raw.right, "l"@)
                &&& c.scroll_down@ == text_or(raw.scroll_down, "e"@)
                &&& c.scroll_up@ == text_or(raw.scroll_up, "r"@)
                &&& c.hint_chars@ == text_or(raw.hint_chars, "abcdefghijklmnopqrstuvwxyz"@)
                &&& c.hint_exit@ == text_or(raw.hint_exit, "esc"@)
                &&& buttons_from(raw.buttons, c.buttons)
                &&& c.cursor_color == (match raw.cursor_color {
                    Some(s) => color_value(s@)->Ok_0,
                    None => 0xFF4500FFu32,
                })
                &&& c.cursor_size == num_or(raw.cursor_size, 7u32)
                &&& c.speed == num_or(raw.speed, 220u32)
                &&& c.max_speed == num_or(raw.max_speed, 1600u32)
                &&& c.decelerator_speed == num_or(raw.decelerator_speed, 50u32)
                &&& c.acceleration == num_or(raw.acceleration, 700u32)
                &&& c.accelerator_acceleration == num_or(raw.accelerator_acceleration, 2900u32)
                &&& c.hint_size == num_or(raw.hint_size, 20u32)
                &&& c.scroll_speed == num_or(raw.scroll_speed, 300u32)
                &&& c.scroll_max_speed == num_or(raw.scroll_max_speed, 9000u32)
                &&& c.scroll_acceleration == num_or(raw.scroll_acceleration, 1600u32)
                &&& c.scroll_deceleration == num_or(raw.scroll_deceleration, -3400i32)
            },
    {
        let Config {
            hint_activation_key: default_hint_activation_key,
            activation_key: default_activation_key,
            exit: default_exit,
            drag: default_drag,
            copy_and_exit: default_copy_and_exit,
            hint: default_hint,
            accelerator: default_accelerator,
            decelerator: default_decelerator,
            buttons: default_buttons,
            left: default_left,
            down: default_down,
            up: default_up,
            right: default_right,
            scroll_down: default_scroll_down,
            scroll_up: default_scroll_up,
            cursor_color: default_cursor_color,
            hint_chars: default_hint_chars,
            hint_exit: default_hint_exit,
            ..
        } = Config::default();
        let hint_activation_key = match chord_option(&raw.hint_activation_key, default_hint_activation_key) {
            Ok(kb) => kb,
            Err(e) => return Err(ConfigError::HintActivationKey(e)),
        };
        let activation_key = match chord_option(&raw.activation_key, default_activation_key) {
            Ok(kb) => kb,
            Err(e) => return Err(ConfigError::ActivationKey(e)),
        };
        let cursor_color = match &raw.cursor_color {
            Some(s) => match parse_color(s.as_str()) {
                Ok(v) => v,
                Err(e) => return Err(ConfigError::CursorColor(e)),
            },
            None => default_cursor_color,
        };
        let buttons = buttons_option(&raw.buttons, default_buttons);
        Ok(Config {
            hint_activation_key,
            activation_key,
            exit: or_default(raw.exit, default_exit),
            drag: or_default(raw.drag, default_drag),
            copy_and_exit: or_default(raw.copy_and_exit, default_copy_and_exit),
            hint: or_default(raw.hint, default_hint),
            accelerator: or_default(raw.accelerator, default_accelerator),
            decelerator: or_default(raw.decelerator, default_decelerator),
            buttons,
            left: or_default(raw.left, default_left),
            down: or_default(raw.down, default_down),
            up: or_default(raw.up, default_up),
            right: or_default(raw.right, default_right),
            scroll_down: or_default(raw.scroll_down, default_scroll_down),
            scroll_up: or_default(raw.scroll_up, default_scroll_up),
            cursor_color,
            cursor_size: or_default(raw.cursor_size, 7),
            speed: or_default(raw.speed, 220),
            max_speed: or_default(raw.max_speed, 1600),
            decelerator_speed: or_default(raw.decelerator_speed, 50),
            acceleration: or_default(raw.acceleration, 700),
            accelerator_acceleration: or_default(raw.accelerator_acceleration, 2900),
            hint_chars: or_default(raw.hint_chars, default_hint_chars),
            hint_size: or_default(raw.hint_size, 20),
            hint_exit: or_default(raw.hint_exit, default_hint_exit),
            scroll_speed: or_default(raw.scroll_speed, 300),
            scroll_max_speed: or_default(raw.scroll_max_speed, 9000),
            scroll_acceleration: or_default(raw.scroll_acceleration, 1600),
            scroll_deceleration: or_default(raw.scroll_deceleration, -3400),
        })
    }
}

/// The option's value, or `d`.
fn or_default<T>(o: Option<T>, d: T) -> (r: T)
    ensures
        r == num_or(o, d),
{
    match o {
        Some(v) => v,
        None => d,
    }
}

/// The optional chord parsed, or `d` when absent.
fn chord_option(o: &Option<String>, d: KeyBinding) -> (r: Result<KeyBinding, ChordError>)
    ensures
        r is Ok <==> chord_ok(*o),
        o is None ==> r == Ok::<KeyBinding, ChordError>(d),
        r matches Ok(kb) ==> (o matches Some(s) ==> parsed_as(s@, kb)),
{
    match o {
        Some(s) => KeyBinding::parse(s.as_str()),
        None => Ok(d),
    }
}

/// The button keys from the optional option, or `d`.
fn buttons_option(o: &Option<String>, d: MouseButtons) -> (r: MouseButtons)
    requires
        d.left@ == "m"@,
        d.middle@ == ","@,
        d.right@ == "."@,
    ensures
        buttons_from(*o, r),
{
    if let Some(b) = o {
        let parts = split_words(b.as_str());
        if parts.len() >= 3 {
            proof {
                assert(parts@.map_values(|w: String| w@)[0] == parts@[0]@);
                assert(parts@.map_values(|w: String| w@)[1] == parts@[1]@);
                assert(parts@.map_values(|w: String| w@)[2] == parts@[2]@);
            }
            return MouseButtons {
                left: parts[0].clone(),
                middle: parts[1].clone(),
                right: parts[2].clone(),
            };
        }
    }
    d
}

/// A chord with a token before the key that is not one of the four modifier
/// codes does not parse.
pub proof fn lemma_unknown_modifier_rejected(s: Seq<char>, k: int)
    requires
        0 <= k < chord_tokens(s).len() - 1,
        !is_modifier_token(chord_tokens(s)[k]),
    ensures
        !chord_is_valid(s),
{
}

} // verus!
