//! Editor navigation bindings: normalized key names, key chords parsed from
//! `modifier+key` strings, and the shortcut sets for zoom and pan.

use vstd::prelude::*;
use vstd::string::StrSliceExecFns;
use vstd::string::StringExecFns;

use crate::strings::{lowered, spec_lowered, spec_trimmed, str_eq, trimmed};

verus! {

/// A keyboard modifier snapshot.
#[derive(Clone, Copy, Debug, PartialEq, Eq, Structural)]
pub struct ModifierState {
    pub ctrl: bool,
    pub shift: bool,
    pub alt: bool,
    pub super_key: bool,
}

impl Default for ModifierState {
    fn default() -> (r: Self)
        ensures
            r == (ModifierState { ctrl: false, shift: false, alt: false, super_key: false }),
    {
        ModifierState { ctrl: false, shift: false, alt: false, super_key: false }
    }
}

/// The canonical spelling of a lowered key name: modifier aliases collapse,
/// and shifted digit symbols map back to their digits.
pub open spec fn spec_canonical_key(t: Seq<char>) -> Seq<char> {
    if t == "ctrl"@ || t == "control"@ || t == "control_l"@ || t == "control_r"@ {
        "control"@
    } else if t == "shift_l"@ || t == "shift_r"@ {
        "shift"@
    } else if t == "alt_l"@ || t == "alt_r"@ || t == "option"@ || t == "option_l"@ || t
        == "option_r"@ {
        "alt"@
    } else if t == "super_l"@ || t == "super_r"@ || t == "meta"@ || t == "meta_l"@ || t
        == "meta_r"@ || t == "cmd"@ || t == "command"@ || t == "win"@ {
        "super"@
    } else if t == "exclam"@ {
        "1"@
    } else if t == "at"@ {
        "2"@
    } else if t == "numbersign"@ {
        "3"@
    } else if t == "dollar"@ {
        "4"@
    } else if t == "percent"@ {
        "5"@
    } else if t == "asciicircum"@ {
        "6"@
    } else if t == "ampersand"@ {
        "7"@
    } else if t == "asterisk"@ {
        "8"@
    } else if t == "parenleft"@ {
        "9"@
    } else if t == "parenright"@ {
        "0"@
    } else {
        t
    }
}

/// A key name normalized: trimmed, ASCII-lowered and made canonical; `None`
/// when nothing is left.
pub open spec fn spec_normalize_key(raw: Seq<char>) -> Option<Seq<char>> {
    let t = spec_lowered(spec_trimmed(raw));
    if t.len() == 0 {
        None
    } else {
        Some(spec_canonical_key(t))
    }
}

pub fn normalize_key_name(raw: &str) -> (r: Option<String>)
    ensures
        ({
            match spec_normalize_key(raw@) {
                Some(t) => r matches Some(v) && v@ == t,
                None => r is None,
            }
        }),
{
    let trimmed_raw = trimmed(raw);
    let normalized = lowered(trimmed_raw.as_str());
    if normalized.as_str().unicode_len() == 0 {
        return None;
    }
    let t = normalized.as_str();
    let canonical: &str = if str_eq(t, "ctrl") || str_eq(t, "control") || str_eq(t, "control_l")
        || str_eq(t, "control_r") {
        "control"
    } else if str_eq(t, "shift_l") || str_eq(t, "shift_r") {
        "shift"
    } else if str_eq(t, "alt_l") || str_eq(t, "alt_r") || str_eq(t, "option") || str_eq(
        t,
        "option_l",
    ) || str_eq(t, "option_r") {
        "alt"
    } else if str_eq(t, "super_l") || str_eq(t, "super_r") || str_eq(t, "meta") || str_eq(
        t,
        "meta_l",
    ) || str_eq(t, "meta_r") || str_eq(t, "cmd") || str_eq(t, "command") || str_eq(t, "win") {
        "super"
    } else if str_eq(t, "exclam") {
        "1"
    } else if str_eq(t, "at") {
        "2"
    } else if str_eq(t, "numbersign") {
        "3"
    } else if str_eq(t, "dollar") {
        "4"
    } else if str_eq(t, "percent") {
        "5"
    } else if str_eq(t, "asciicircum") {
        "6"
    } else if str_eq(t, "ampersand") {
        "7"
    } else if str_eq(t, "asterisk") {
        "8"
    } else if str_eq(t, "parenleft") {
        "9"
    } else if str_eq(t, "parenright") {
        "0"
    } else {
        t
    };
    Some(canonical.to_owned())
}

/// One key chord: a key name plus required modifiers.
#[derive(Debug, Clone)]
pub struct KeyChord {
    pub key_name: String,
    pub ctrl: bool,
    pub shift: bool,
    pub alt: bool,
    pub super_key: bool,
}

/// The ghost image of a chord, with the key name as a character sequence.
pub ghost struct ChordSpec {
    pub key_name: Seq<char>,
    pub ctrl: bool,
    pub shift: bool,
    pub alt: bool,
    pub super_key: bool,
}

impl KeyChord {
    pub open spec fn view_spec(self) -> ChordSpec {
        ChordSpec {
            key_name: self.key_name@,
            ctrl: self.ctrl,
            shift: self.shift,
            alt: self.alt,
            super_key: self.super_key,
        }
    }
}

/// The index of the first `+` in `s`, or `s.len()` when there is none.
pub open spec fn spec_find_plus(s: Seq<char>) -> int
    decreases s.len(),
{
    if s.len() == 0 {
        0
    } else if s[0] == '+' {
        0
    } else {
        1 + spec_find_plus(s.drop_first())
    }
}

proof fn lemma_find_plus(s: Seq<char>)
    ensures
        0 <= spec_find_plus(s) <= s.len(),
        spec_find_plus(s) < s.len() ==> s[spec_find_plus(s)] == '+',
        forall|j: int| 0 <= j < spec_find_plus(s) ==> s[j] != '+',
    decreases s.len(),
{
    if s.len() > 0 && s[0] != '+' {
        let t = s.drop_first();
        lemma_find_plus(t);
        let f = spec_find_plus(s);
        if f < s.len() {
            assert(t[f - 1] == s[f]);
        }
        assert forall|j: int| 0 <= j < f implies s[j] != '+' by {
            if j > 0 {
                assert(t[j - 1] == s[j]);
            }
        }
    }
}

/// Scanning past non-`+` characters never passes the first `+`.
proof fn lemma_find_plus_min(s: Seq<char>, k: int)
    requires
        0 <= k <= s.len(),
        forall|j: int| 0 <= j < k ==> s[j] != '+',
    ensures
        k <= spec_find_plus(s),
    decreases k,
{
    if k > 0 {
        let t = s.drop_first();
        assert forall|j: int| 0 <= j < k - 1 implies t[j] != '+' by {
            assert(t[j] == s[j + 1]);
        }
        lemma_find_plus_min(t, k - 1);
        assert(spec_find_plus(s) == 1 + spec_find_plus(t));
    } else {
        lemma_find_plus(s);
    }
}

/// The parts of `s` split on `+` separators.
pub open spec fn spec_split_plus(s: Seq<char>) -> Seq<Seq<char>>
    decreases s.len(),
{
    let f = spec_find_plus(s);
    if 0 <= f < s.len() {
        seq![s.subrange(0, f)] + spec_split_plus(s.subrange(f + 1, s.len() as int))
    } else {
        seq![s]
    }
}

/// The parts of `s` split on `+`.
fn split_plus(s: &str) -> (r: Vec<String>)
    ensures
        r@.map_values(|p: String| p@) == spec_split_plus(s@),
        r@.len() > 0,
{
    let n = s.unicode_len();
    let r = split_plus_from(s, 0);
    proof {
        assert(s@.subrange(0, s@.len() as int) =~= s@);
    }
    r
}

/// The parts of the suffix of `s` starting at `start`, split on `+`.
fn split_plus_from(s: &str, start: usize) -> (r: Vec<String>)
    requires
        start <= s@.len(),
    ensures
        r@.map_values(|p: String| p@) == spec_split_plus(s@.subrange(start as int, s@.len() as int)),
        r@.len() > 0,
    decreases s@.len() - start,
{
    let ghost suffix = s@.subrange(start as int, s@.len() as int);
    proof {
        lemma_find_plus(suffix);
    }
    let n = s.unicode_len();
    let mut i: usize = start;
    while i < n && s.get_char(i) != '+'
        invariant
            start <= i <= n,
            n == s@.len(),
            forall|j: int| start <= j < i ==> s@[j] != '+',
        decreases n - i,
    {
        i += 1;
    }
    proof {
        assert forall|j: int| 0 <= j < i - start implies suffix[j] != '+' by {
            assert(suffix[j] == s@[start + j]);
        }
        lemma_find_plus_min(suffix, i as int - start as int);
        if i < n {
            assert(suffix[i - start] == s@[i as int]);
        }
        assert(spec_find_plus(suffix) == i - start);
    }
    if i >= n {
        let mut out: Vec<String> = Vec::new();
        out.push(s.substring_char(start, n).to_owned());
        proof {
            assert(out@.map_values(|p: String| p@) =~~= spec_split_plus(suffix));
        }
        out
    } else {
        let head = s.substring_char(start, i).to_owned();
        let rest = split_plus_from(s, i + 1);
        let mut out: Vec<String> = Vec::new();
        out.push(head);
        let mut k: usize = 0;
        while k < rest.len()
            invariant
                k <= rest@.len(),
                out@.len() == k + 1,
                out@[0]@ == suffix.subrange(0, spec_find_plus(suffix)),
                forall|j: int| 0 <= j < k ==> (#[trigger] out@[j + 1])@ == rest@[j]@,
            decreases rest@.len() - k,
        {
            out.push(rest[k].clone());
            k += 1;
        }
        proof {
            let f = spec_find_plus(suffix);
            assert(s@.subrange(i + 1, s@.len() as int) =~= suffix.subrange(
                f + 1,
                suffix.len() as int,
            ));
            assert(s@.subrange(start as int, i as int) =~= suffix.subrange(0, f));
            let m = out@.map_values(|p: String| p@);
            let sp = spec_split_plus(suffix);
            assert(sp == seq![suffix.subrange(0, f)] + spec_split_plus(
                suffix.subrange(f + 1, suffix.len() as int),
            ));
            assert(m.len() == sp.len());
            assert forall|j: int| 0 <= j < m.len() implies m[j] == sp[j] by {
                if j == 0 {
                    assert(m[0] == out@[0]@);
                    assert(sp[0] == suffix.subrange(0, f));
                } else {
                    assert(m[j] == out@[j]@);
                    assert(out@[(j - 1) + 1]@ == rest@[j - 1]@);
                    assert(rest@.map_values(|p: String| p@)[j - 1] == rest@[j - 1]@);
                    assert(sp[j] == spec_split_plus(
                        suffix.subrange(f + 1, suffix.len() as int),
                    )[j - 1]);
                }
            }
            assert(m =~= sp);
        }
        out
    }
}

/// Folding the tokens of a chord string into modifiers and one key name;
/// `None` when a token is empty or a second key name appears.
pub open spec fn spec_chord_fold(tokens: Seq<Seq<char>>, acc: ChordSpec, seen_key: bool) -> Option<
    (ChordSpec, bool),
>
    decreases tokens.len(),
{
    if tokens.len() == 0 {
        Some((acc, seen_key))
    } else {
        match spec_normalize_key(tokens[0]) {
            None => None,
            Some(t) => {
                if t == "ctrl"@ || t == "control"@ {
                    spec_chord_fold(tokens.drop_first(), ChordSpec { ctrl: true, ..acc }, seen_key)
                } else if t == "shift"@ {
                    spec_chord_fold(tokens.drop_first(), ChordSpec { shift: true, ..acc }, seen_key)
                } else if t == "alt"@ || t == "option"@ {
                    spec_chord_fold(tokens.drop_first(), ChordSpec { alt: true, ..acc }, seen_key)
                } else if t == "super"@ || t == "meta"@ || t == "cmd"@ || t == "command"@ || t
                    == "win"@ {
                    spec_chord_fold(
                        tokens.drop_first(),
                        ChordSpec { super_key: true, ..acc },
                        seen_key,
                    )
                } else if seen_key {
                    None
                } else {
                    spec_chord_fold(tokens.drop_first(), ChordSpec { key_name: t, ..acc }, true)
                }
            },
        }
    }
}

/// A chord parsed from a `modifier+key` string.
pub open spec fn spec_parse_chord(raw: Seq<char>) -> Option<ChordSpec> {
    let start = ChordSpec {
        key_name: Seq::empty(),
        ctrl: false,
        shift: false,
        alt: false,
        super_key: false,
    };
    match spec_chord_fold(spec_split_plus(raw), start, false) {
        None => None,
        Some((c, seen)) => if seen {
            Some(c)
        } else {
            None
        },
    }
}

impl KeyChord {
    /// Parse a `modifier+key` string into a chord.
    pub fn parse(raw: &str) -> (r: Option<KeyChord>)
        ensures
            ({
                match spec_parse_chord(raw@) {
                    Some(c) => r matches Some(v) && v.view_spec() == c,
                    None => r is None,
                }
            }),
    {
        let tokens = split_plus(raw);
        let mut chord = KeyChord {
            key_name: String::new(),
            ctrl: false,
            shift: false,
            alt: false,
            super_key: false,
        };
        let mut seen_key = false;
        let mut i: usize = 0;
        proof {
            assert(tokens@.map_values(|p: String| p@).skip(0) =~= tokens@.map_values(
                |p: String| p@,
            ));
        }
        while i < tokens.len()
            invariant
                i <= tokens@.len(),
                tokens@.map_values(|p: String| p@) == spec_split_plus(raw@),
                spec_chord_fold(
                    tokens@.map_values(|p: String| p@),
                    ChordSpec {
                        key_name: Seq::empty(),
                        ctrl: false,
                        shift: false,
                        alt: false,
                        super_key: false,
                    },
                    false,
                ) == spec_chord_fold(
                    tokens@.map_values(|p: String| p@).skip(i as int),
                    chord.view_spec(),
                    seen_key,
                ),
            decreases tokens@.len() - i,
        {
            proof {
                assert(tokens@.map_values(|p: String| p@).skip(i as int)[0] == tokens@[i as int]@);
                assert(tokens@.map_values(|p: String| p@).skip(i as int).drop_first()
                    =~= tokens@.map_values(|p: String| p@).skip(i as int + 1));
            }
            let token = match normalize_key_name(tokens[i].as_str()) {
                Some(t) => t,
                None => {
                    proof {
                        let toks = tokens@.map_values(|p: String| p@);
                        assert(spec_chord_fold(toks.skip(i as int), chord.view_spec(), seen_key)
                            is None);
                    }
                    return None;
                },
            };
            let ts = token.as_str();
            if str_eq(ts, "ctrl") || str_eq(ts, "control") {
                chord.ctrl = true;
            } else if str_eq(ts, "shift") {
                chord.shift = true;
            } else if str_eq(ts, "alt") || str_eq(ts, "option") {
                chord.alt = true;
            } else if str_eq(ts, "super") || str_eq(ts, "meta") || str_eq(ts, "cmd") || str_eq(
                ts,
                "command",
            ) || str_eq(ts, "win") {
                chord.super_key = true;
            } else {
                if seen_key {
                    proof {
                        let toks = tokens@.map_values(|p: String| p@);
                        assert(spec_chord_fold(toks.skip(i as int), chord.view_spec(), seen_key)
                            is None);
                    }
                    return None;
                }
                chord.key_name = token;
                seen_key = true;
            }
            i += 1;
        }
        proof {
            assert(tokens@.map_values(|p: String| p@).skip(tokens@.len() as int)
                =~= Seq::<Seq<char>>::empty());
            assert(spec_chord_fold(
                tokens@.map_values(|p: String| p@).skip(tokens@.len() as int),
                chord.view_spec(),
                seen_key,
            ) == Some((chord.view_spec(), seen_key)));
        }
        if !seen_key {
            return None;
        }
        Some(chord)
    }

    /// Whether a pressed key with the given modifiers triggers this chord.
    /// Shift is permissive unless the chord requires it, so symbol keys that
    /// arrive with shifted keyvals still match.
    pub open spec fn spec_matches(self, key_name: Option<&str>, state: ModifierState) -> bool {
        match key_name {
            None => false,
            Some(k) => match spec_normalize_key(k@) {
                None => false,
                Some(n) => {
                    &&& n == self.key_name@
                    &&& self.ctrl == state.ctrl
                    &&& self.alt == state.alt
                    &&& self.super_key == state.super_key
                    &&& (!self.shift || state.shift)
                },
            },
        }
    }

    pub fn matches(&self, key_name: Option<&str>, state: ModifierState) -> (r: bool)
        ensures
            r == self.spec_matches(key_name, state),
    {
        let k = match key_name {
            Some(k) => k,
            None => {
                return false;
            },
        };
        let normalized = match normalize_key_name(k) {
            Some(n) => n,
            None => {
                return false;
            },
        };
        if !str_eq(normalized.as_str(), self.key_name.as_str()) {
            return false;
        }
        let shift_matches = !self.shift || state.shift;
        self.ctrl == state.ctrl && self.alt == state.alt && self.super_key == state.super_key
            && shift_matches
    }

    /// The chord rendered back as a `modifier+key` string.
    pub open spec fn spec_as_string(self) -> Seq<char> {
        (if self.ctrl {
            "ctrl+"@
        } else {
            Seq::empty()
        }) + (if self.shift {
            "shift+"@
        } else {
            Seq::empty()
        }) + (if self.alt {
            "alt+"@
        } else {
            Seq::empty()
        }) + (if self.super_key {
            "super+"@
        } else {
            Seq::empty()
        }) + self.key_name@
    }

    pub fn as_string(&self) -> (r: String)
        ensures
            r@ == self.spec_as_string(),
    {
        let mut out = String::new();
        if self.ctrl {
            out.append("ctrl+");
        }
        if self.shift {
            out.append("shift+");
        }
        if self.alt {
            out.append("alt+");
        }
        if self.super_key {
            out.append("super+");
        }
        out.append(self.key_name.as_str());
        proof {
            assert(out@ =~= self.spec_as_string());
        }
        out
    }
}

/// Which modifier gates zoom-by-scroll.
#[derive(Clone, Copy, Debug, PartialEq, Eq, Structural)]
pub enum ZoomScrollModifier {
    Disabled,
    Control,
    Shift,
    Alt,
    Super,
}

impl Default for ZoomScrollModifier {
    fn default() -> (r: Self)
        ensures
            r is Control,
    {
        ZoomScrollModifier::Control
    }
}

impl ZoomScrollModifier {
    pub fn as_str(self) -> (r: &'static str)
        ensures
            match self {
                ZoomScrollModifier::Disabled => r@ == "none"@,
                ZoomScrollModifier::Control => r@ == "control"@,
                ZoomScrollModifier::Shift => r@ == "shift"@,
                ZoomScrollModifier::Alt => r@ == "alt"@,
                ZoomScrollModifier::Super => r@ == "super"@,
            },
    {
        match self {
            ZoomScrollModifier::Disabled => "none",
            ZoomScrollModifier::Control => "control",
            ZoomScrollModifier::Shift => "shift",
            ZoomScrollModifier::Alt => "alt",
            ZoomScrollModifier::Super => "super",
        }
    }

    pub open spec fn spec_matches(self, state: ModifierState) -> bool {
        match self {
            ZoomScrollModifier::Disabled => true,
            ZoomScrollModifier::Control => state.ctrl,
            ZoomScrollModifier::Shift => state.shift,
            ZoomScrollModifier::Alt => state.alt,
            ZoomScrollModifier::Super => state.super_key,
        }
    }

    pub fn matches(self, state: ModifierState) -> (r: bool)
        ensures
            r == self.spec_matches(state),
    {
        match self {
            ZoomScrollModifier::Disabled => true,
            ZoomScrollModifier::Control => state.ctrl,
            ZoomScrollModifier::Shift => state.shift,
            ZoomScrollModifier::Alt => state.alt,
            ZoomScrollModifier::Super => state.super_key,
        }
    }
}

/// A keybinding validation failure.
#[derive(Debug, Clone)]
pub enum KeybindingError {
    InvalidPanHoldKey { value: String },
    EmptyEditorNavigationShortcutList { field: String },
    InvalidEditorNavigationShortcut { field: String, value: String },
}

/// The navigation binding fields as they arrive from a configuration file.
#[derive(Debug, Clone)]
pub struct EditorNavigationBindingConfigFile {
    pub pan_hold_key: String,
    pub zoom_scroll_modifier: ZoomScrollModifier,
    pub zoom_in_shortcuts: Vec<String>,
    pub zoom_out_shortcuts: Vec<String>,
    pub actual_size_shortcuts: Vec<String>,
    pub fit_shortcuts: Vec<String>,
}

/// The resolved editor navigation bindings.
#[derive(Debug, Clone)]
pub struct EditorNavigationBindings {
    pub pan_hold_key: String,
    pub zoom_scroll_modifier: ZoomScrollModifier,
    pub zoom_in_shortcuts: Vec<KeyChord>,
    pub zoom_out_shortcuts: Vec<KeyChord>,
    pub actual_size_shortcuts: Vec<KeyChord>,
    pub fit_shortcuts: Vec<KeyChord>,
}

/// Whether some chord of the list matches the pressed key.
pub open spec fn spec_any_matches(
    chords: Seq<KeyChord>,
    key_name: Option<&str>,
    state: ModifierState,
) -> bool {
    exists|i: int| 0 <= i < chords.len() && (#[trigger] chords[i]).spec_matches(key_name, state)
}

fn any_matches(chords: &Vec<KeyChord>, key_name: Option<&str>, state: ModifierState) -> (r: bool)
    ensures
        r == spec_any_matches(chords@, key_name, state),
{
    let mut i: usize = 0;
    while i < chords.len()
        invariant
            i <= chords@.len(),
            forall|j: int| 0 <= j < i ==> !(#[trigger] chords@[j]).spec_matches(key_name, state),
        decreases chords@.len() - i,
    {
        if chords[i].matches(key_name, state) {
            return true;
        }
        i += 1;
    }
    false
}

/// The chord strings of a list joined with `", "`.
pub open spec fn spec_joined_chords(chords: Seq<KeyChord>) -> Seq<char>
    decreases chords.len(),
{
    if chords.len() == 0 {
        Seq::empty()
    } else if chords.len() == 1 {
        chords[0].spec_as_string()
    } else {
        spec_joined_chords(chords.drop_last()) + ", "@ + chords.last().spec_as_string()
    }
}

fn joined_chords(chords: &Vec<KeyChord>) -> (r: String)
    ensures
        r@ == spec_joined_chords(chords@),
{
    let mut out = String::new();
    let mut i: usize = 0;
    while i < chords.len()
        invariant
            i <= chords@.len(),
            out@ == spec_joined_chords(chords@.subrange(0, i as int)),
        decreases chords@.len() - i,
    {
        if i > 0 {
            out.append(", ");
        }
        let part = chords[i].as_string();
        out.append(part.as_str());
        i += 1;
        proof {
            assert(chords@.subrange(0, i as int).drop_last() =~= chords@.subrange(0, i as int - 1));
            assert(chords@.subrange(0, i as int).last() == chords@[i - 1]);
            if i == 1 {
                assert(out@ =~= spec_joined_chords(chords@.subrange(0, 1)));
            }
        }
    }
    proof {
        assert(chords@.subrange(0, chords@.len() as int) =~= chords@);
    }
    out
}

fn chord(key_name: &str, ctrl: bool, shift: bool, alt: bool, super_key: bool) -> (r: KeyChord)
    ensures
        r.view_spec() == (ChordSpec { key_name: key_name@, ctrl, shift, alt, super_key }),
{
    KeyChord { key_name: key_name.to_owned(), ctrl, shift, alt, super_key }
}

impl Default for EditorNavigationBindings {
    /// The built-in bindings: space-pan, control-scroll zoom, and the
    /// standard zoom / fit shortcuts.
    fn default() -> (r: Self)
        ensures
            r.pan_hold_key@ == "space"@,
            r.zoom_scroll_modifier is Control,
            r.zoom_in_shortcuts@.len() == 3,
            r.zoom_out_shortcuts@.len() == 3,
            r.actual_size_shortcuts@.len() == 2,
            r.fit_shortcuts@.len() == 1,
            r.zoom_in_shortcuts@[0].view_spec() == (ChordSpec {
                key_name: "plus"@,
                ctrl: true,
                shift: false,
                alt: false,
                super_key: false,
            }),
            r.zoom_in_shortcuts@[1].view_spec() == (ChordSpec {
                key_name: "equal"@,
                ctrl: true,
                shift: false,
                alt: false,
                super_key: false,
            }),
            r.zoom_in_shortcuts@[2].view_spec() == (ChordSpec {
                key_name: "kp_add"@,
                ctrl: true,
                shift: false,
                alt: false,
                super_key: false,
            }),
            r.zoom_out_shortcuts@[0].view_spec() == (ChordSpec {
                key_name: "minus"@,
                ctrl: true,
                shift: false,
                alt: false,
                super_key: false,
            }),
            r.zoom_out_shortcuts@[1].view_spec() == (ChordSpec {
                key_name: "underscore"@,
                ctrl: true,
                shift: false,
                alt: false,
                super_key: false,
            }),
            r.zoom_out_shortcuts@[2].view_spec() == (ChordSpec {
                key_name: "kp_subtract"@,
                ctrl: true,
                shift: false,
                alt: false,
                super_key: false,
            }),
            r.actual_size_shortcuts@[0].view_spec() == (ChordSpec {
                key_name: "0"@,
                ctrl: true,
                shift: false,
                alt: false,
                super_key: false,
            }),
            r.actual_size_shortcuts@[1].view_spec() == (ChordSpec {
                key_name: "kp_0"@,
                ctrl: true,
                shift: false,
                alt: false,
                super_key: false,
            }),
            r.fit_shortcuts@[0].view_spec() == (ChordSpec {
                key_name: "1"@,
                ctrl: false,
                shift: true,
                alt: false,
                super_key: false,
            }),
    {
        let mut zoom_in: Vec<KeyChord> = Vec::new();
        zoom_in.push(chord("plus", true, false, false, false));
        zoom_in.push(chord("equal", true, false, false, false));
        zoom_in.push(chord("kp_add", true, false, false, false));
        let mut zoom_out: Vec<KeyChord> = Vec::new();
        zoom_out.push(chord("minus", true, false, false, false));
        zoom_out.push(chord("underscore", true, false, false, false));
        zoom_out.push(chord("kp_subtract", true, false, false, false));
        let mut actual_size: Vec<KeyChord> = Vec::new();
        actual_size.push(chord("0", true, false, false, false));
        actual_size.push(chord("kp_0", true, false, false, false));
        let mut fit: Vec<KeyChord> = Vec::new();
        fit.push(chord("1", false, true, false, false));
        EditorNavigationBindings {
            pan_hold_key: "space".to_owned(),
            zoom_scroll_modifier: ZoomScrollModifier::Control,
            zoom_in_shortcuts: zoom_in,
            zoom_out_shortcuts: zoom_out,
            actual_size_shortcuts: actual_size,
            fit_shortcuts: fit,
        }
    }
}

impl EditorNavigationBindings {
    /// Parse a non-empty shortcut list; any unparsable entry fails the whole
    /// list.
    pub fn parse_shortcuts(field: &str, values: &Vec<String>) -> (r: Result<
        Vec<KeyChord>,
        KeybindingError,
    >)
        ensures
            ({
                match r {
                    Ok(chords) => {
                        &&& values@.len() > 0
                        &&& chords@.len() == values@.len()
                        &&& forall|i: int|
                            0 <= i < values@.len() ==> spec_parse_chord((#[trigger] values@[i])@)
                                == Some((#[trigger] chords@[i]).view_spec())
                    },
                    Err(e) => {
                        ||| values@.len() == 0 && (e matches
                            KeybindingError::EmptyEditorNavigationShortcutList { field: f } && f@
                            == field@)
                        ||| exists|i: int|
                            0 <= i < values@.len() && spec_parse_chord((#[trigger] values@[i])@)
                                is None
                    },
                }
            }),
    {
        if values.len() == 0 {
            return Err(
                KeybindingError::EmptyEditorNavigationShortcutList { field: field.to_owned() },
            );
        }
        let mut parsed: Vec<KeyChord> = Vec::new();
        let mut i: usize = 0;
        while i < values.len()
            invariant
                i <= values@.len(),
                parsed@.len() == i,
                forall|j: int|
                    0 <= j < i ==> spec_parse_chord((#[trigger] values@[j])@) == Some(
                        (#[trigger] parsed@[j]).view_spec(),
                    ),
            decreases values@.len() - i,
        {
            match KeyChord::parse(values[i].as_str()) {
                Some(c) => {
                    parsed.push(c);
                },
                None => {
                    return Err(
                        KeybindingError::InvalidEditorNavigationShortcut {
                            field: field.to_owned(),
                            value: values[i].clone(),
                        },
                    );
                },
            }
            i += 1;
        }
        Ok(parsed)
    }

    /// Resolve a configuration file into bindings, validating every field.
    pub fn from_file_config(config: EditorNavigationBindingConfigFile) -> (r: Result<
        Self,
        KeybindingError,
    >)
        ensures
            r matches Ok(b) ==> {
                &&& spec_normalize_key(config.pan_hold_key@) == Some(b.pan_hold_key@)
                &&& b.zoom_scroll_modifier == config.zoom_scroll_modifier
                &&& b.zoom_in_shortcuts@.len() == config.zoom_in_shortcuts@.len()
                &&& forall|i: int|
                    0 <= i < config.zoom_in_shortcuts@.len() ==> spec_parse_chord(
                        (#[trigger] config.zoom_in_shortcuts@[i])@,
                    ) == Some((#[trigger] b.zoom_in_shortcuts@[i]).view_spec())
                &&& b.zoom_out_shortcuts@.len() == config.zoom_out_shortcuts@.len()
                &&& forall|i: int|
                    0 <= i < config.zoom_out_shortcuts@.len() ==> spec_parse_chord(
                        (#[trigger] config.zoom_out_shortcuts@[i])@,
                    ) == Some((#[trigger] b.zoom_out_shortcuts@[i]).view_spec())
                &&& b.actual_size_shortcuts@.len() == config.actual_size_shortcuts@.len()
                &&& forall|i: int|
                    0 <= i < config.actual_size_shortcuts@.len() ==> spec_parse_chord(
                        (#[trigger] config.actual_size_shortcuts@[i])@,
                    ) == Some((#[trigger] b.actual_size_shortcuts@[i]).view_spec())
                &&& b.fit_shortcuts@.len() == config.fit_shortcuts@.len()
                &&& forall|i: int|
                    0 <= i < config.fit_shortcuts@.len() ==> spec_parse_chord(
                        (#[trigger] config.fit_shortcuts@[i])@,
                    ) == Some((#[trigger] b.fit_shortcuts@[i]).view_spec())
            },
            spec_normalize_key(config.pan_hold_key@) is None ==> (r matches Err(
                KeybindingError::InvalidPanHoldKey { value: v },
            ) && v@ == config.pan_hold_key@),
            ({
                let all_valid = {
                    &&& spec_normalize_key(config.pan_hold_key@) is Some
                    &&& config.zoom_in_shortcuts@.len() > 0
                    &&& forall|i: int|
                        0 <= i < config.zoom_in_shortcuts@.len() ==> spec_parse_chord(
                            (#[trigger] config.zoom_in_shortcuts@[i])@,
                        ) is Some
                    &&& config.zoom_out_shortcuts@.len() > 0
                    &&& forall|i: int|
                        0 <= i < config.zoom_out_shortcuts@.len() ==> spec_parse_chord(
                            (#[trigger] config.zoom_out_shortcuts@[i])@,
                        ) is Some
                    &&& config.actual_size_shortcuts@.len() > 0
                    &&& forall|i: int|
                        0 <= i < config.actual_size_shortcuts@.len() ==> spec_parse_chord(
                            (#[trigger] config.actual_size_shortcuts@[i])@,
                        ) is Some
                    &&& config.fit_shortcuts@.len() > 0
                    &&& forall|i: int|
                        0 <= i < config.fit_shortcuts@.len() ==> spec_parse_chord(
                            (#[trigger] config.fit_shortcuts@[i])@,
                        ) is Some
                };
                all_valid ==> r is Ok
            }),
    {
        let pan_hold_key = match normalize_key_name(config.pan_hold_key.as_str()) {
            Some(k) => k,
            None => {
                return Err(
                    KeybindingError::InvalidPanHoldKey { value: config.pan_hold_key.clone() },
                );
            },
        };
        let zoom_in_shortcuts = match Self::parse_shortcuts(
            "zoom_in_shortcuts",
            &config.zoom_in_shortcuts,
        ) {
            Ok(v) => v,
            Err(e) => {
                return Err(e);
            },
        };
        let zoom_out_shortcuts = match Self::parse_shortcuts(
            "zoom_out_shortcuts",
            &config.zoom_out_shortcuts,
        ) {
            Ok(v) => v,
            Err(e) => {
                return Err(e);
            },
        };
        let actual_size_shortcuts = match Self::parse_shortcuts(
            "actual_size_shortcuts",
            &config.actual_size_shortcuts,
        ) {
            Ok(v) => v,
            Err(e) => {
                return Err(e);
            },
        };
        let fit_shortcuts = match Self::parse_shortcuts("fit_shortcuts", &config.fit_shortcuts) {
            Ok(v) => v,
            Err(e) => {
                return Err(e);
            },
        };
        Ok(
            EditorNavigationBindings {
                pan_hold_key,
                zoom_scroll_modifier: config.zoom_scroll_modifier,
                zoom_in_shortcuts,
                zoom_out_shortcuts,
                actual_size_shortcuts,
                fit_shortcuts,
            },
        )
    }

    pub fn pan_hold_key_name(&self) -> (r: &str)
        ensures
            r@ == self.pan_hold_key@,
    {
        self.pan_hold_key.as_str()
    }

    pub fn zoom_scroll_modifier(&self) -> (r: ZoomScrollModifier)
        ensures
            r == self.zoom_scroll_modifier,
    {
        self.zoom_scroll_modifier
    }

    /// Whether the pressed key is the pan-hold key, after normalization.
    pub fn matches_pan_hold_key_name(&self, key_name: Option<&str>) -> (r: bool)
        ensures
            r == match key_name {
                None => false,
                Some(k) => spec_normalize_key(k@) == Some(self.pan_hold_key@),
            },
    {
        match key_name {
            None => false,
            Some(k) => match normalize_key_name(k) {
                Some(v) => str_eq(v.as_str(), self.pan_hold_key.as_str()),
                None => false,
            },
        }
    }

    pub fn matches_zoom_scroll_modifier(&self, state: ModifierState) -> (r: bool)
        ensures
            r == self.zoom_scroll_modifier.spec_matches(state),
    {
        self.zoom_scroll_modifier.matches(state)
    }

    pub fn matches_zoom_in_shortcut(&self, key_name: Option<&str>, state: ModifierState) -> (r:
        bool)
        ensures
            r == spec_any_matches(self.zoom_in_shortcuts@, key_name, state),
    {
        any_matches(&self.zoom_in_shortcuts, key_name, state)
    }

    pub fn matches_zoom_out_shortcut(&self, key_name: Option<&str>, state: ModifierState) -> (r:
        bool)
        ensures
            r == spec_any_matches(self.zoom_out_shortcuts@, key_name, state),
    {
        any_matches(&self.zoom_out_shortcuts, key_name, state)
    }

    pub fn matches_actual_size_shortcut(&self, key_name: Option<&str>, state: ModifierState) -> (r:
        bool)
        ensures
            r == spec_any_matches(self.actual_size_shortcuts@, key_name, state),
    {
        any_matches(&self.actual_size_shortcuts, key_name, state)
    }

    pub fn matches_fit_shortcut(&self, key_name: Option<&str>, state: ModifierState) -> (r: bool)
        ensures
            r == spec_any_matches(self.fit_shortcuts@, key_name, state),
    {
        any_matches(&self.fit_shortcuts, key_name, state)
    }

    pub fn zoom_in_shortcuts(&self) -> (r: String)
        ensures
            r@ == spec_joined_chords(self.zoom_in_shortcuts@),
    {
        joined_chords(&self.zoom_in_shortcuts)
    }

    pub fn zoom_out_shortcuts(&self) -> (r: String)
        ensures
            r@ == spec_joined_chords(self.zoom_out_shortcuts@),
    {
        joined_chords(&self.zoom_out_shortcuts)
    }

    pub fn actual_size_shortcuts(&self) -> (r: String)
        ensures
            r@ == spec_joined_chords(self.actual_size_shortcuts@),
    {
        joined_chords(&self.actual_size_shortcuts)
    }

    pub fn fit_shortcuts(&self) -> (r: String)
        ensures
            r@ == spec_joined_chords(self.fit_shortcuts@),
    {
        joined_chords(&self.fit_shortcuts)
    }
}

} // verus!
