//! Theme colours: parsing `#rrggbb` values and looking them up by key.

use vstd::prelude::*;
use vstd::utf8::*;
use vstd::string::StringSliceAdditionalSpecFns;

verus! {

/// A colour as the panes use it: the terminal's own default, or an RGB triple.
#[derive(Clone, Copy, Debug, PartialEq, Eq, Structural)]
pub enum ThemeColor {
    Reset,
    Rgb(u8, u8, u8),
}

/// `s` without its leading `'#'` characters (all of them).
pub open spec fn trim_hashes(s: Seq<char>) -> Seq<char>
    decreases s.len(),
{
    if s.len() > 0 && s[0] == '#' {
        trim_hashes(s.drop_first())
    } else {
        s
    }
}

/// The value of an ASCII hexadecimal digit byte.
pub open spec fn hex_digit(b: u8) -> Option<u8> {
    if 0x30 <= b <= 0x39 {
        Some((b - 0x30) as u8)
    } else if 0x61 <= b <= 0x66 {
        Some((b - 0x61 + 10) as u8)
    } else if 0x41 <= b <= 0x46 {
        Some((b - 0x41 + 10) as u8)
    } else {
        None
    }
}

/// What base-16 parsing into a `u8` gives for a string of the two bytes
/// `b0 b1`: an optional `'+'` sign followed by hexadecimal digits.
pub open spec fn hex_pair(b0: u8, b1: u8) -> Option<u8> {
    if b0 == 0x2b {
        hex_digit(b1)
    } else {
        match (hex_digit(b0), hex_digit(b1)) {
            (Some(h), Some(l)) => Some((h * 16 + l) as u8),
            _ => None,
        }
    }
}

/// The colour that a theme value denotes: after its leading `'#'`s it must be
/// six bytes long, and each pair of bytes must parse as a base-16 `u8`.
pub open spec fn hex_color(hex: Seq<char>) -> Option<ThemeColor> {
    let b = encode_utf8(trim_hashes(hex));
    if b.len() == 6 {
        match (hex_pair(b[0], b[1]), hex_pair(b[2], b[3]), hex_pair(b[4], b[5])) {
            (Some(r), Some(g), Some(bl)) => Some(ThemeColor::Rgb(r, g, bl)),
            _ => None,
        }
    } else {
        None
    }
}

/// True when cutting the six bytes after the leading `'#'`s into pairs would
/// split a multi-byte character, on which slicing a `str` panics.
pub open spec fn hex_color_splits_char(hex: Seq<char>) -> bool {
    let b = encode_utf8(trim_hashes(hex));
    b.len() == 6 && !(is_char_boundary(b, 2) && is_char_boundary(b, 4))
}

/// `u8::from_str_radix(s, 16)` on a string of two bytes. std documents the
/// accepted form as an optional `+` followed by digits of the radix (`0-9`,
/// `a-f`, `A-F`); this contract states that result, read off the two bytes.
#[verifier::external_body]
fn u8_from_hex_str(s: &str) -> (res: Option<u8>)
    requires
        s.spec_bytes().len() == 2,
    ensures
        res == hex_pair(s.spec_bytes()[0], s.spec_bytes()[1]),
{
    u8::from_str_radix(s, 16).ok()
}

proof fn lemma_trim_hashes_skip(s: Seq<char>, i: int)
    requires
        0 <= i <= s.len(),
        forall|j: int| 0 <= j < i ==> s[j] == '#',
    ensures
        trim_hashes(s) == trim_hashes(s.skip(i)),
    decreases i,
{
    if i > 0 {
        lemma_trim_hashes_skip(s.drop_first(), i - 1);
        assert(s.drop_first().skip(i - 1) =~= s.skip(i));
    } else {
        assert(s.skip(0) =~= s);
    }
}

proof fn lemma_boundary_in_rest(b: Seq<u8>)
    requires
        valid_utf8(b),
        b.len() == 6,
        is_char_boundary(b, 2),
        is_char_boundary(b, 4),
    ensures
        valid_utf8(b.subrange(2, 6)),
        is_char_boundary(b.subrange(2, 6), 2),
{
    valid_utf8_split(b, 2);
    let r = b.subrange(2, 6);
    assert(r =~= b.subrange(2, b.len() as int));
    is_char_boundary_iff_not_is_continuation_byte(b, 4);
    is_char_boundary_iff_not_is_continuation_byte(r, 2);
}

/// Parses a theme value such as `#9ccfd8` into a colour; `None` for any value
/// that is not six hexadecimal byte pairs after its leading `'#'`s.
pub fn parse_hex_color(hex: &str) -> (res: Option<ThemeColor>)
    requires
        !hex_color_splits_char(hex@),
    ensures
        res == hex_color(hex@),
{
    let n = hex.unicode_len();
    let i = hash_prefix_len(hex);
    let trimmed = hex.substring_char(i, n);
    assert(trimmed@ =~= trim_hashes(hex@));
    if trimmed.as_bytes().len() == 6 {
        let ghost b = trimmed.spec_bytes();
        proof {
            encode_utf8_valid_utf8(trimmed@);
            lemma_boundary_in_rest(b);
        }
        let (red, rest) = trimmed.split_at(2);
        let (green, blue) = rest.split_at(2);
        assert(red.spec_bytes() =~= b.subrange(0, 2));
        assert(green.spec_bytes() =~= b.subrange(2, 4));
        assert(blue.spec_bytes() =~= b.subrange(4, 6));
        let r = u8_from_hex_str(red);
        let g = u8_from_hex_str(green);
        let bl = u8_from_hex_str(blue);
        match (r, g, bl) {
            (Some(r), Some(g), Some(bl)) => Some(ThemeColor::Rgb(r, g, bl)),
            _ => None,
        }
    } else {
        None
    }
}

/// The prefix of `hex` that `parse_hex_color` reads: the index of its first
/// character that is not `'#'`.
fn hash_prefix_len(hex: &str) -> (i: usize)
    ensures
        i <= hex@.len(),
        hex@.skip(i as int) == trim_hashes(hex@),
{
    let n = hex.unicode_len();
    let mut i: usize = 0;
    while i < n && hex.get_char(i) == '#'
        invariant
            i <= n,
            n == hex@.len(),
            forall|j: int| 0 <= j < i ==> hex@[j] == '#',
        decreases n - i,
    {
        i = i + 1;
    }
    proof {
        lemma_trim_hashes_skip(hex@, i as int);
        assert(trim_hashes(hex@.skip(i as int)) == hex@.skip(i as int));
    }
    i
}

/// Tells whether `parse_hex_color` would have to cut a multi-byte character
/// in `hex`, the one input on which it cannot run.
pub fn hex_color_would_split_char(hex: &str) -> (res: bool)
    ensures
        res == hex_color_splits_char(hex@),
{
    let i = hash_prefix_len(hex);
    let trimmed = hex.substring_char(i, hex.unicode_len());
    assert(trimmed@ =~= trim_hashes(hex@));
    if trimmed.as_bytes().len() == 6 {
        !(trimmed.is_char_boundary(2) && trimmed.is_char_boundary(4))
    } else {
        false
    }
}

/// A theme's key may be looked up when its value, if any, can be parsed.
pub open spec fn color_lookup_safe(colors: Map<Seq<char>, Seq<char>>, key: Seq<char>) -> bool {
    colors.contains_key(key) ==> !hex_color_splits_char(colors[key])
}

/// The colour a theme gives for `key`: the parsed value, if there is one.
pub open spec fn color_for(colors: Map<Seq<char>, Seq<char>>, key: Seq<char>) -> Option<ThemeColor> {
    if colors.contains_key(key) {
        hex_color(colors[key])
    } else {
        None
    }
}

/// The colour a theme gives for `key`, or `default` where it gives none.
pub open spec fn color_or(colors: Map<Seq<char>, Seq<char>>, key: Seq<char>, default: ThemeColor) -> ThemeColor {
    match color_for(colors, key) {
        Some(c) => c,
        None => default,
    }
}

/// The colours of the theme used when no theme file can be read: the
/// background `Reset` (written as ratatui writes the reset colour) and the
/// title `#9ccfd8`.
pub open spec fn default_colors() -> Map<Seq<char>, Seq<char>> {
    map![
        seq!['T', 'H', 'E', 'M', 'E', '_', 'B', 'G'] => color_name(ThemeColor::Reset),
        seq!['T', 'H', 'E', 'M', 'E', '_', 'T', 'I', 'T', 'L', 'E', '_', 'F', 'G']
            => seq!['#', '9', 'c', 'c', 'f', 'd', '8'],
    ]
}

/// The colours of a theme: a value (such as `#9ccfd8`) for each key (such as
/// `THEME_TITLE_FG`).
pub struct ThemeColors {
    entries: Vec<(String, String)>,
}

impl ThemeColors {
    /// No key occurs twice.
    #[verifier::type_invariant]
    spec fn keys_distinct(self) -> bool {
        forall|i: int, j: int|
            0 <= i < j < self.entries@.len() ==> #[trigger] self.entries@[i].0@
                != #[trigger] self.entries@[j].0@
    }

    spec fn has_key_at(self, key: Seq<char>) -> bool {
        exists|i: int| 0 <= i < self.entries@.len() && self.entries@[i].0@ == key
    }
}

impl View for ThemeColors {
    type V = Map<Seq<char>, Seq<char>>;

    closed spec fn view(&self) -> Map<Seq<char>, Seq<char>> {
        Map::new(
            |k: Seq<char>| self.has_key_at(k),
            |k: Seq<char>|
                self.entries@[choose|i: int|
                    0 <= i < self.entries@.len() && self.entries@[i].0@ == k].1@,
        )
    }
}

impl ThemeColors {
    proof fn lemma_value_at(&self, i: int)
        requires
            self.keys_distinct(),
            0 <= i < self.entries@.len(),
        ensures
            self@.contains_key(self.entries@[i].0@),
            self@[self.entries@[i].0@] == self.entries@[i].1@,
    {
        let k = self.entries@[i].0@;
        assert(self.has_key_at(k));
        let j = choose|j: int| 0 <= j < self.entries@.len() && self.entries@[j].0@ == k;
        if j < i {
            assert(self.entries@[j].0@ != self.entries@[i].0@);
        } else if i < j {
            assert(self.entries@[i].0@ != self.entries@[j].0@);
        }
    }

    /// A theme with no colours.
    pub fn new() -> (res: Self)
        ensures
            res@ == Map::<Seq<char>, Seq<char>>::empty(),
    {
        let res = ThemeColors { entries: Vec::new() };
        assert(res@ =~= Map::<Seq<char>, Seq<char>>::empty());
        res
    }

    /// The index of `key` among the entries, if it is there.
    fn find(&self, key: &String) -> (res: Option<usize>)
        ensures
            match res {
                Some(i) => i < self.entries@.len() && self.entries@[i as int].0@ == key@,
                None => !self@.contains_key(key@),
            },
    {
        let mut i: usize = 0;
        while i < self.entries.len()
            invariant
                i <= self.entries@.len(),
                forall|j: int| 0 <= j < i ==> self.entries@[j].0@ != key@,
            decreases self.entries@.len() - i,
        {
            if self.entries[i].0 == *key {
                return Some(i);
            }
            i = i + 1;
        }
        None
    }

    /// Sets the value of `key`, replacing the one it had.
    pub fn insert(&mut self, key: String, value: String)
        ensures
            final(self)@ == old(self)@.insert(key@, value@),
    {
        proof {
            use_type_invariant(&*self);
        }
        let ghost before = *self;
        let found = self.find(&key);
        let mut entries: Vec<(String, String)> = Vec::new();
        std::mem::swap(&mut entries, &mut self.entries);
        let ghost old_entries = entries@;
        match found {
            Some(i) => {
                entries.set(i, (key, value));
            },
            None => {
                entries.push((key, value));
            },
        }
        let ghost new_entries = entries@;
        proof {
            assert forall|a: int, b: int|
                0 <= a < b < new_entries.len() implies #[trigger] new_entries[a].0@
                    != #[trigger] new_entries[b].0@ by {
                match found {
                    Some(i) => {
                        if a == i as int {
                            assert(old_entries[a].0@ != old_entries[b].0@);
                        } else if b == i as int {
                            assert(old_entries[a].0@ != old_entries[b].0@);
                        } else {
                            assert(old_entries[a].0@ != old_entries[b].0@);
                        }
                    },
                    None => {
                        if b == old_entries.len() {
                            assert(before.has_key_at(old_entries[a].0@));
                        } else {
                            assert(old_entries[a].0@ != old_entries[b].0@);
                        }
                    },
                }
            }
        }
        self.entries = entries;
        proof {
            let after = *self;
            assert forall|k: Seq<char>| #[trigger] after@.contains_key(k) == before@.insert(key@, value@).contains_key(k) by {
                if k == key@ {
                    match found {
                        Some(i) => {
                            assert(new_entries[i as int].0@ == k);
                        },
                        None => {
                            assert(new_entries[old_entries.len() as int].0@ == k);
                        },
                    }
                    assert(after.has_key_at(k));
                } else {
                    if before.has_key_at(k) {
                        let j = choose|j: int| 0 <= j < old_entries.len() && old_entries[j].0@ == k;
                        assert(new_entries[j].0@ == k);
                        assert(after.has_key_at(k));
                    }
                    if after.has_key_at(k) {
                        let j = choose|j: int| 0 <= j < new_entries.len() && new_entries[j].0@ == k;
                        assert(old_entries[j].0@ == k);
                        assert(before.has_key_at(k));
                    }
                }
            }
            assert forall|k: Seq<char>| #[trigger] after@.contains_key(k) implies after@[k] == before@.insert(key@, value@)[k] by {
                let j = choose|j: int| 0 <= j < new_entries.len() && new_entries[j].0@ == k;
                after.lemma_value_at(j);
                if k != key@ {
                    before.lemma_value_at(j);
                }
            }
            assert(after@ =~= before@.insert(key@, value@));
        }
    }

    /// The colour the theme gives for `key`; `None` when the key is missing or
    /// its value is not a `#rrggbb` colour.
    pub fn get_color(&self, key: &str) -> (res: Option<ThemeColor>)
        requires
            color_lookup_safe(self@, key@),
        ensures
            res == color_for(self@, key@),
    {
        proof {
            use_type_invariant(self);
        }
        let key = String::from_str(key);
        match self.find(&key) {
            Some(i) => {
                proof {
                    self.lemma_value_at(i as int);
                }
                parse_hex_color(self.entries[i].1.as_str())
            },
            None => None,
        }
    }

    /// Tells whether every value of the theme can be parsed, so that any key
    /// may be looked up.
    pub fn lookups_are_safe(&self) -> (res: bool)
        ensures
            res == (forall|k: Seq<char>| #[trigger] color_lookup_safe(self@, k)),
    {
        proof {
            use_type_invariant(self);
        }
        let mut i: usize = 0;
        while i < self.entries.len()
            invariant
                i <= self.entries@.len(),
                self.keys_distinct(),
                forall|j: int| 0 <= j < i ==> !hex_color_splits_char(#[trigger] self.entries@[j].1@),
            decreases self.entries@.len() - i,
        {
            if hex_color_would_split_char(self.entries[i].1.as_str()) {
                proof {
                    self.lemma_value_at(i as int);
                    assert(!color_lookup_safe(self@, self.entries@[i as int].0@));
                }
                return false;
            }
            i = i + 1;
        }
        proof {
            assert forall|k: Seq<char>| #[trigger] color_lookup_safe(self@, k) by {
                if self@.contains_key(k) {
                    let j = choose|j: int| 0 <= j < self.entries@.len() && self.entries@[j].0@ == k;
                    self.lemma_value_at(j);
                }
            }
        }
        true
    }

    /// The key and value pairs of the theme, each key once, in no particular
    /// order.
    pub fn to_pairs(&self) -> (res: Vec<(String, String)>)
        ensures
            forall|i: int|
                0 <= i < res@.len() ==> self@.contains_key((#[trigger] res@[i]).0@) && self@[res@[i].0@]
                    == res@[i].1@,
            forall|k: Seq<char>|
                #[trigger] self@.contains_key(k) ==> exists|i: int| 0 <= i < res@.len() && res@[i].0@ == k,
            forall|i: int, j: int| 0 <= i < j < res@.len() ==> (#[trigger] res@[i]).0@ != (#[trigger] res@[j]).0@,
    {
        proof {
            use_type_invariant(self);
        }
        let mut res: Vec<(String, String)> = Vec::new();
        let mut i: usize = 0;
        while i < self.entries.len()
            invariant
                i <= self.entries@.len(),
                self.keys_distinct(),
                res@.len() == i,
                forall|j: int| 0 <= j < i ==> (#[trigger] res@[j]).0@ == self.entries@[j].0@ && res@[j].1@
                    == self.entries@[j].1@,
            decreases self.entries@.len() - i,
        {
            let key = self.entries[i].0.clone();
            let value = self.entries[i].1.clone();
            res.push((key, value));
            i = i + 1;
        }
        proof {
            assert forall|j: int| 0 <= j < res@.len() implies self@.contains_key((#[trigger] res@[j]).0@)
                && self@[res@[j].0@] == res@[j].1@ by {
                self.lemma_value_at(j);
            }
            assert forall|k: Seq<char>| #[trigger] self@.contains_key(k) implies exists|j: int|
                0 <= j < res@.len() && res@[j].0@ == k by {
                let j = choose|j: int| 0 <= j < self.entries@.len() && self.entries@[j].0@ == k;
                assert(res@[j].0@ == k);
            }
            assert forall|a: int, b: int| 0 <= a < b < res@.len() implies (#[trigger] res@[a]).0@
                != (#[trigger] res@[b]).0@ by {
                assert(self.entries@[a].0@ != self.entries@[b].0@);
            }
        }
        res
    }

    /// The theme used when no theme file can be read: a reset background and
    /// a light teal title.
    pub fn default() -> (res: Self)
        ensures
            res@ == default_colors(),
    {
        let mut colors = ThemeColors::new();
        let bg = String::from_str("THEME_BG");
        let title = String::from_str("THEME_TITLE_FG");
        let title_value = String::from_str("#9ccfd8");
        proof {
            reveal_strlit("THEME_BG");
            reveal_strlit("THEME_TITLE_FG");
            reveal_strlit("#9ccfd8");
            assert(bg@ =~= seq!['T', 'H', 'E', 'M', 'E', '_', 'B', 'G']);
            assert(title@ =~= seq!['T', 'H', 'E', 'M', 'E', '_', 'T', 'I', 'T', 'L', 'E', '_', 'F', 'G']);
            assert(title_value@ =~= seq!['#', '9', 'c', 'c', 'f', 'd', '8']);
        }
        colors.insert(bg, color_to_string(ThemeColor::Reset));
        colors.insert(title, title_value);
        proof {
            assert(colors@ =~= default_colors());
        }
        colors
    }
}

/// The colour the theme gives for `key`, or `default` where it gives none.
pub fn get_theme_color(theme: &ThemeColors, key: &str, default: ThemeColor) -> (res: ThemeColor)
    requires
        color_lookup_safe(theme@, key@),
    ensures
        res == color_or(theme@, key@, default),
{
    match theme.get_color(key) {
        Some(color) => color,
        None => default,
    }
}

/// The upper-case hexadecimal digit of `d`.
pub open spec fn hex_upper(d: nat) -> char {
    if d < 10 {
        ((d + 0x30) as u8) as char
    } else {
        ((d - 10 + 0x41) as u8) as char
    }
}

/// How a colour is written out: `Reset`, or `#RRGGBB` in upper-case hexadecimal.
pub open spec fn color_name(c: ThemeColor) -> Seq<char> {
    match c {
        ThemeColor::Reset => seq!['R', 'e', 's', 'e', 't'],
        ThemeColor::Rgb(r, g, b) => seq![
            '#',
            hex_upper(r as nat / 16),
            hex_upper(r as nat % 16),
            hex_upper(g as nat / 16),
            hex_upper(g as nat % 16),
            hex_upper(b as nat / 16),
            hex_upper(b as nat % 16),
        ],
    }
}

/// `ToString` of `ratatui::style::Color` (its `Display`) on the colour that
/// `c` stands for. ratatui 0.26 writes the reset colour as `Reset` and an RGB
/// colour as `#` and three upper-case, zero-padded hex pairs (`{r:02X}`).
#[verifier::external_body]
fn color_to_string(c: ThemeColor) -> (res: String)
    ensures
        res@ == color_name(c),
{
    let color = match c {
        ThemeColor::Reset => ratatui::style::Color::Reset,
        ThemeColor::Rgb(r, g, b) => ratatui::style::Color::Rgb(r, g, b),
    };
    color.to_string()
}

/// Where the theme file is read from.
#[derive(Clone, Copy, Debug, PartialEq, Eq, Structural)]
pub enum ThemeLocation {
    /// `roon-tui/theme.yml` under the user's data directory.
    DataDir,
    /// `roon-tui/theme.yml` under the user's configuration directory.
    ConfigDir,
    /// `theme.yml` in the current directory.
    CurrentDir,
}

/// Picks the theme file: the first that exists of the one in the data
/// directory, the one in the configuration directory and the one in the
/// current directory; when none exists, the data directory's (if the system
/// has a data directory), else the current directory's. `data_dir` and
/// `config_dir` are `None` where the system has no such directory, else
/// whether the theme file exists there.
pub fn choose_theme_location(data_dir: Option<bool>, config_dir: Option<bool>, local_exists: bool) -> (res: ThemeLocation)
    ensures
        res == (if data_dir == Some(true) {
            ThemeLocation::DataDir
        } else if config_dir == Some(true) {
            ThemeLocation::ConfigDir
        } else if local_exists {
            ThemeLocation::CurrentDir
        } else if data_dir is Some {
            ThemeLocation::DataDir
        } else {
            ThemeLocation::CurrentDir
        }),
{
    if let Some(exists) = data_dir {
        if exists {
            return ThemeLocation::DataDir;
        }
    }
    if let Some(exists) = config_dir {
        if exists {
            return ThemeLocation::ConfigDir;
        }
    }
    if local_exists {
        return ThemeLocation::CurrentDir;
    }
    if data_dir.is_some() {
        return ThemeLocation::DataDir;
    }
    ThemeLocation::CurrentDir
}

proof fn lemma_hex_upper(d: nat)
    requires
        d < 16,
    ensures
        hex_digit(hex_upper(d) as u8) == Some(d as u8),
        '\0' <= hex_upper(d) <= '\u{7f}',
        hex_upper(d) != '#',
        hex_upper(d) as u8 != 0x2b,
{
}

proof fn lemma_ascii_bytes(s: Seq<char>)
    requires
        is_ascii_chars(s),
    ensures
        encode_utf8(s).len() == s.len(),
        forall|i: int| 0 <= i < s.len() ==> encode_utf8(s)[i] == s[i] as u8,
        forall|i: int| 0 <= i < s.len() ==> encode_utf8(s)[i] < 0x80,
{
    is_ascii_chars_encode_utf8(s);
    assert forall|i: int| 0 <= i < s.len() implies encode_utf8(s)[i] < 0x80 by {
        assert('\0' <= s[i] <= '\u{7f}');
    }
}

/// A value that starts with `'#'` denotes the same colour as the value
/// without it: any number of leading `'#'`s is accepted.
pub proof fn law_leading_hash_ignored(s: Seq<char>)
    ensures
        hex_color(seq!['#'] + s) == hex_color(s),
        hex_color_splits_char(seq!['#'] + s) == hex_color_splits_char(s),
{
    let t = seq!['#'] + s;
    assert(t.drop_first() =~= s);
}

/// Writing an RGB colour out (as ratatui writes it, `#RRGGBB`) and parsing
/// the text back gives the colour again; the reset colour's name is no colour.
pub proof fn law_color_name_round_trip(c: ThemeColor)
    ensures
        !hex_color_splits_char(color_name(c)),
        hex_color(color_name(c)) == (match c {
            ThemeColor::Reset => None,
            ThemeColor::Rgb(r, g, b) => Some(c),
        }),
{
    let s = color_name(c);
    match c {
        ThemeColor::Reset => {
            assert(trim_hashes(s) == s);
            assert(is_ascii_chars(s));
            lemma_ascii_bytes(s);
        },
        ThemeColor::Rgb(r, g, b) => {
            lemma_hex_upper(r as nat / 16);
            lemma_hex_upper(r as nat % 16);
            lemma_hex_upper(g as nat / 16);
            lemma_hex_upper(g as nat % 16);
            lemma_hex_upper(b as nat / 16);
            lemma_hex_upper(b as nat % 16);
            let t = s.drop_first();
            assert(trim_hashes(t) == t);
            assert(trim_hashes(s) == t);
            assert(is_ascii_chars(t));
            lemma_ascii_bytes(t);
            let bytes = encode_utf8(t);
            encode_utf8_valid_utf8(t);
            is_char_boundary_iff_not_is_continuation_byte(bytes, 2);
            is_char_boundary_iff_not_is_continuation_byte(bytes, 4);
            assert(hex_pair(bytes[0], bytes[1]) == Some(r));
            assert(hex_pair(bytes[2], bytes[3]) == Some(g));
            assert(hex_pair(bytes[4], bytes[5]) == Some(b));
        },
    }
}

/// A colour read from a theme is always an RGB colour.
pub proof fn law_parsed_color_is_rgb(hex: Seq<char>)
    ensures
        hex_color(hex) != Some(ThemeColor::Reset),
{
}

/// Setting a key's value and then looking the key up gives the colour of the
/// value set; looking up any other key gives what it gave before.
pub proof fn law_lookup_after_insert(
    colors: Map<Seq<char>, Seq<char>>,
    key: Seq<char>,
    value: Seq<char>,
    other: Seq<char>,
)
    requires
        other != key,
    ensures
        color_for(colors.insert(key, value), key) == hex_color(value),
        color_for(colors.insert(key, value), other) == color_for(colors, other),
{
}

/// A key that the theme lacks, or whose value is no colour, gives the default.
pub proof fn law_missing_key_gives_default(
    colors: Map<Seq<char>, Seq<char>>,
    key: Seq<char>,
    default: ThemeColor,
)
    requires
        !colors.contains_key(key) || hex_color(colors[key]) is None,
    ensures
        color_or(colors, key, default) == default,
{
}

/// In the default theme the background gives no colour, so the terminal's
/// own background stays; the title is light teal `#9ccfd8`; every key may be
/// looked up.
pub proof fn law_default_theme(key: Seq<char>, default: ThemeColor)
    ensures
        color_or(default_colors(), seq!['T', 'H', 'E', 'M', 'E', '_', 'B', 'G'], default) == default,
        color_for(
            default_colors(),
            seq!['T', 'H', 'E', 'M', 'E', '_', 'T', 'I', 'T', 'L', 'E', '_', 'F', 'G'],
        ) == Some(ThemeColor::Rgb(0x9c, 0xcf, 0xd8)),
        color_lookup_safe(default_colors(), key),
{
    let bg = seq!['T', 'H', 'E', 'M', 'E', '_', 'B', 'G'];
    let title = seq!['T', 'H', 'E', 'M', 'E', '_', 'T', 'I', 'T', 'L', 'E', '_', 'F', 'G'];
    assert(bg != title) by {
        assert(bg.len() != title.len());
    }
    law_color_name_round_trip(ThemeColor::Reset);
    let v = seq!['#', '9', 'c', 'c', 'f', 'd', '8'];
    let t = v.drop_first();
    assert(trim_hashes(t) == t);
    assert(trim_hashes(v) == t);
    assert(is_ascii_chars(t));
    lemma_ascii_bytes(t);
    let bytes = encode_utf8(t);
    encode_utf8_valid_utf8(t);
    is_char_boundary_iff_not_is_continuation_byte(bytes, 2);
    is_char_boundary_iff_not_is_continuation_byte(bytes, 4);
    assert(default_colors()[title] == v);
    assert(default_colors()[bg] == color_name(ThemeColor::Reset));
}

} // verus!
