//! Configuration model: profiles, hotkey tables, colors, and the string
//! processing behind them (tilde expansion, comment stripping, title
//! expansion). Reading files, probing directories and asking for the home
//! directory are the host's side; every function here works on the plain
//! values the host hands in.

use vstd::prelude::*;
use crate::strutil::{chars_of, str_eq_str, string_from_chars};

verus! {

/// Background color used when the configuration gives none.
pub const DEFAULT_BACKGROUND_COLOR: u32 = 0x1a1b26;

/// Tab icon used when a profile gives none.
pub fn default_icon() -> (r: &'static str)
    ensures
        r@ == "neovide.png"@,
{
    "neovide.png"
}

/// The application window's own icon file.
pub fn app_icon() -> (r: &'static str)
    ensures
        r@ == "neovide-tabs.png"@,
{
    "neovide-tabs.png"
}

/// Name of the built-in profile.
pub fn default_profile_name() -> (r: &'static str)
    ensures
        r@ == "Default"@,
{
    "Default"
}

/// Hotkey of the built-in profile.
pub fn default_profile_hotkey() -> (r: &'static str)
    ensures
        r@ == "Ctrl+Shift+F1"@,
{
    "Ctrl+Shift+F1"
}

/// Title format used when a profile gives none: the content window's
/// title.
pub fn default_title_format() -> (r: &'static str)
    ensures
        r@ == "%t"@,
{
    "%t"
}

/// A tab profile with resolved values.
#[derive(Clone, Debug)]
pub struct Profile {
    /// Profile name.
    pub name: String,
    /// Icon file name or full path.
    pub icon: String,
    /// Working directory, tilde-expanded.
    pub working_directory: String,
    /// Global hotkey for this profile, if any.
    pub hotkey: Option<String>,
    /// Tab title format string, with `%p`, `%w`, `%t` tokens.
    pub title: String,
}

impl Profile {
    /// The built-in profile. The working directory is `.` here: only the
    /// host knows the real home directory and substitutes it when it
    /// builds profiles from the environment.
    pub fn default_profile() -> (r: Self)
        ensures
            r.name@ == "Default"@,
            r.icon@ == "neovide.png"@,
            r.working_directory@ == "."@,
            r.hotkey matches Some(h) && h@ == "Ctrl+Shift+F1"@,
            r.title@ == "%t"@,
    {
        Profile {
            name: String::from_str(default_profile_name()),
            icon: String::from_str(default_icon()),
            working_directory: String::from_str("."),
            hotkey: Some(String::from_str(default_profile_hotkey())),
            title: String::from_str(default_title_format()),
        }
    }
}

/// An ordered table from hotkey strings to 1-based tab numbers, with each
/// key held once.
#[derive(Clone, Debug)]
pub struct HotkeyMap {
    pub entries: Vec<(String, u32)>,
}

/// What a key maps to: the value beside its first occurrence.
pub open spec fn spec_lookup(entries: Seq<(String, u32)>, key: Seq<char>) -> Option<u32>
    decreases entries.len(),
{
    if entries.len() == 0 {
        None
    } else if entries.first().0@ == key {
        Some(entries.first().1)
    } else {
        spec_lookup(entries.drop_first(), key)
    }
}

impl HotkeyMap {
    /// An empty table.
    pub fn new() -> (r: Self)
        ensures
            r.entries@.len() == 0,
    {
        HotkeyMap { entries: Vec::new() }
    }

    /// How many hotkeys the table holds.
    pub fn len(&self) -> (r: usize)
        ensures
            r == self.entries@.len(),
    {
        self.entries.len()
    }

    /// Whether the table holds no hotkeys.
    pub fn is_empty(&self) -> (r: bool)
        ensures
            r == (self.entries@.len() == 0),
    {
        self.entries.len() == 0
    }

    /// The tab number bound to this hotkey string, if any.
    pub fn get(&self, key: &str) -> (r: Option<u32>)
        ensures
            r == spec_lookup(self.entries@, key@),
    {
        proof {
            assert(self.entries@.skip(0) =~= self.entries@);
        }
        let mut i: usize = 0;
        while i < self.entries.len()
            invariant
                i <= self.entries@.len(),
                spec_lookup(self.entries@, key@)
                    == spec_lookup(self.entries@.skip(i as int), key@),
            decreases self.entries@.len() - i,
        {
            proof {
                assert(self.entries@.skip(i as int).drop_first()
                    =~= self.entries@.skip(i + 1 as int));
            }
            if str_eq_str(self.entries[i].0.as_str(), key) {
                return Some(self.entries[i].1);
            }
            i += 1;
        }
        None
    }

    /// Bind a hotkey string to a tab number; an existing binding for the
    /// same string stays as it is.
    pub fn insert(&mut self, key: String, value: u32)
        ensures
            spec_lookup(old(self).entries@, key@) is Some
                ==> final(self).entries@ == old(self).entries@,
            spec_lookup(old(self).entries@, key@) is None
                ==> (final(self).entries@ == old(self).entries@.push((key, value))
                    && spec_lookup(final(self).entries@, key@) == Some(value)),
    {
        let existing = self.get(key.as_str());
        match existing {
            Some(_) => {}
            None => {
                let ghost old_entries = self.entries@;
                let ghost k = key@;
                self.entries.push((key, value));
                proof {
                    lemma_lookup_push(old_entries, self.entries@[old_entries.len() as int], k);
                }
            }
        }
    }
}

/// How a lookup behaves across appending one entry: a hit stays as it
/// was, and a miss is resolved exactly when the new entry carries the
/// key.
proof fn lemma_lookup_push(entries: Seq<(String, u32)>, entry: (String, u32), key: Seq<char>)
    ensures
        spec_lookup(entries, key) is Some
            ==> spec_lookup(entries.push(entry), key) == spec_lookup(entries, key),
        spec_lookup(entries, key) is None && entry.0@ == key
            ==> spec_lookup(entries.push(entry), key) == Some(entry.1),
        spec_lookup(entries, key) is None && entry.0@ != key
            ==> spec_lookup(entries.push(entry), key) is None,
    decreases entries.len(),
{
    if entries.len() > 0 {
        assert(entries.push(entry).first() == entries.first());
        assert(entries.push(entry).drop_first() =~= entries.drop_first().push(entry));
        lemma_lookup_push(entries.drop_first(), entry, key);
    } else {
        assert(entries.push(entry).first() == entry);
        assert(entries.push(entry).drop_first() =~= Seq::<(String, u32)>::empty());
        assert(spec_lookup(entries.push(entry).drop_first(), key) is None);
        if entry.0@ != key {
            assert(spec_lookup(entries.push(entry), key)
                == spec_lookup(entries.push(entry).drop_first(), key));
        }
    }
}

/// The built-in tab hotkeys: Ctrl+Shift+1 through Ctrl+Shift+9 for tabs 1
/// to 9, and Ctrl+Shift+0 for tab 10.
pub fn default_tab_hotkeys() -> (r: HotkeyMap)
    ensures
        r.entries@.len() == 10,
        r.entries@[0].0@ == "Ctrl+Shift+1"@ && r.entries@[0].1 == 1,
        r.entries@[1].0@ == "Ctrl+Shift+2"@ && r.entries@[1].1 == 2,
        r.entries@[2].0@ == "Ctrl+Shift+3"@ && r.entries@[2].1 == 3,
        r.entries@[3].0@ == "Ctrl+Shift+4"@ && r.entries@[3].1 == 4,
        r.entries@[4].0@ == "Ctrl+Shift+5"@ && r.entries@[4].1 == 5,
        r.entries@[5].0@ == "Ctrl+Shift+6"@ && r.entries@[5].1 == 6,
        r.entries@[6].0@ == "Ctrl+Shift+7"@ && r.entries@[6].1 == 7,
        r.entries@[7].0@ == "Ctrl+Shift+8"@ && r.entries@[7].1 == 8,
        r.entries@[8].0@ == "Ctrl+Shift+9"@ && r.entries@[8].1 == 9,
        r.entries@[9].0@ == "Ctrl+Shift+0"@ && r.entries@[9].1 == 10,
{
    let mut entries: Vec<(String, u32)> = Vec::new();
    entries.push((String::from_str("Ctrl+Shift+1"), 1));
    entries.push((String::from_str("Ctrl+Shift+2"), 2));
    entries.push((String::from_str("Ctrl+Shift+3"), 3));
    entries.push((String::from_str("Ctrl+Shift+4"), 4));
    entries.push((String::from_str("Ctrl+Shift+5"), 5));
    entries.push((String::from_str("Ctrl+Shift+6"), 6));
    entries.push((String::from_str("Ctrl+Shift+7"), 7));
    entries.push((String::from_str("Ctrl+Shift+8"), 8));
    entries.push((String::from_str("Ctrl+Shift+9"), 9));
    entries.push((String::from_str("Ctrl+Shift+0"), 10));
    HotkeyMap { entries }
}

/// Hotkey configuration after validation.
#[derive(Clone, Debug)]
pub struct HotkeyConfig {
    /// Tab hotkeys: hotkey string to 1-based tab number.
    pub tab: HotkeyMap,
}

impl Default for HotkeyConfig {
    /// The built-in tab hotkeys.
    fn default() -> (r: Self)
        ensures
            r.tab.entries@.len() == 10,
    {
        HotkeyConfig { tab: default_tab_hotkeys() }
    }
}

/// A profile as the configuration file gives it, before validation.
#[derive(Clone, Debug)]
pub struct ProfileFile {
    pub name: String,
    pub icon: Option<String>,
    pub working_directory: Option<String>,
    pub hotkey: Option<String>,
    pub title: Option<String>,
}

/// The hotkey section as the configuration file gives it.
#[derive(Clone, Debug)]
pub struct HotkeyConfigFile {
    pub tab: Option<HotkeyMap>,
}

/// A whole configuration file, parsed but not yet validated.
#[derive(Clone, Debug)]
pub struct ConfigFile {
    pub background_color: Option<String>,
    pub profiles: Option<Vec<ProfileFile>>,
    pub hotkeys: Option<HotkeyConfigFile>,
}

/// The validated application configuration.
#[derive(Clone, Debug)]
pub struct Config {
    /// Background color in `0x00RRGGBB` form.
    pub background_color: u32,
    /// The profiles, always at least one.
    pub profiles: Vec<Profile>,
    /// Hotkey configuration.
    pub hotkeys: HotkeyConfig,
}

impl Default for Config {
    /// Default color, the built-in profile, the built-in hotkeys.
    fn default() -> (r: Self)
        ensures
            r.background_color == DEFAULT_BACKGROUND_COLOR,
            r.profiles@.len() == 1,
            r.profiles@[0].name@ == "Default"@,
            r.profiles@[0].icon@ == "neovide.png"@,
            r.profiles@[0].hotkey matches Some(h) && h@ == "Ctrl+Shift+F1"@,
            r.profiles@[0].title@ == "%t"@,
            r.hotkeys.tab.entries@.len() == 10,
    {
        let mut profiles: Vec<Profile> = Vec::new();
        profiles.push(Profile::default_profile());
        Config {
            background_color: DEFAULT_BACKGROUND_COLOR,
            profiles,
            hotkeys: HotkeyConfig::default(),
        }
    }
}

impl Config {
    /// At least one profile is present; every constructor gives this.
    pub open spec fn wf(self) -> bool {
        self.profiles@.len() >= 1
    }

    /// The first profile, used for the initial tab.
    pub fn default_profile(&self) -> (r: &Profile)
        requires
            self.wf(),
        ensures
            *r == self.profiles@[0],
    {
        &self.profiles[0]
    }

    /// The profile at this index, if there is one.
    pub fn get_profile(&self, index: usize) -> (r: Option<&Profile>)
        ensures
            index < self.profiles@.len() ==> (r matches Some(p) && *p == self.profiles@[index as int]),
            index >= self.profiles@.len() ==> r is None,
    {
        if index < self.profiles.len() {
            Some(&self.profiles[index])
        } else {
            None
        }
    }
}

/// Validate the hotkey section: a present section counts, even when its
/// table is empty (that turns every tab hotkey off); a missing section
/// falls back to the built-in hotkeys.
pub fn parse_hotkey_config(config_opt: Option<HotkeyConfigFile>) -> (r: HotkeyConfig)
    ensures
        config_opt matches Some(c) ==> (c.tab matches Some(t) ==> r.tab.entries@ == t.entries@)
            && (c.tab is None ==> r.tab.entries@.len() == 0),
        config_opt is None ==> r.tab.entries@.len() == 10,
{
    match config_opt {
        Some(config) => {
            let tab = match config.tab {
                Some(t) => t,
                None => HotkeyMap::new(),
            };
            HotkeyConfig { tab }
        }
        None => HotkeyConfig::default(),
    }
}

/// Expanding a leading tilde: `~` alone becomes the home directory, and
/// `~/rest` or `~\rest` becomes the home directory, a slash, and the
/// rest; anything else is left alone.
pub open spec fn spec_expand_tilde(p: Seq<char>, home: Seq<char>) -> Seq<char> {
    if p.len() > 0 && p[0] == '~' {
        let rest = p.drop_first();
        let rest2 = if rest.len() > 0 && (rest[0] == '/' || rest[0] == '\\') {
            rest.drop_first()
        } else {
            rest
        };
        if rest2.len() == 0 {
            home
        } else {
            home + "/"@ + rest2
        }
    } else {
        p
    }
}

/// Expand `~` at the start of a path to the home directory.
pub fn expand_tilde(path_str: &str, home_dir: &str) -> (r: String)
    ensures
        r@ == spec_expand_tilde(path_str@, home_dir@),
{
    let p = chars_of(path_str);
    if p.len() > 0 && p[0] == '~' {
        let h = chars_of(home_dir);
        let start: usize = if p.len() > 1 && (p[1] == '/' || p[1] == '\\') { 2 } else { 1 };
        if p.len() == start {
            proof {
                reveal_strlit("/");
            }
            return string_from_chars(&h);
        }
        let mut out: Vec<char> = h;
        out.push('/');
        let mut i: usize = start;
        while i < p.len()
            invariant
                start <= i <= p@.len(),
                out@ == home_dir@ + seq!['/'] + p@.subrange(start as int, i as int),
            decreases p@.len() - i,
        {
            out.push(p[i]);
            proof {
                assert(out@ =~= home_dir@ + seq!['/'] + p@.subrange(start as int, i + 1 as int));
            }
            i += 1;
        }
        proof {
            reveal_strlit("/");
            assert("/"@ =~= seq!['/']);
            assert(p@.subrange(start as int, p@.len() as int) =~= (if start == 2 {
                p@.drop_first().drop_first()
            } else {
                p@.drop_first()
            }));
        }
        string_from_chars(&out)
    } else {
        let out = chars_of(path_str);
        string_from_chars(&out)
    }
}

/// Resolve a profile's icon entry: a missing entry is the default icon, a
/// leading tilde is expanded, and anything else is taken as given.
pub fn resolve_icon_path(icon_opt: Option<String>, home_dir: &str) -> (r: String)
    ensures
        icon_opt matches Some(ic) ==> (
            (ic@.len() > 0 && ic@[0] == '~' ==> r@ == spec_expand_tilde(ic@, home_dir@))
            && (!(ic@.len() > 0 && ic@[0] == '~') ==> r@ == ic@)
        ),
        icon_opt is None ==> r@ == "neovide.png"@,
{
    match icon_opt {
        Some(icon_str) => {
            let v = chars_of(icon_str.as_str());
            if v.len() > 0 && v[0] == '~' {
                expand_tilde(icon_str.as_str(), home_dir)
            } else {
                icon_str
            }
        }
        None => String::from_str(default_icon()),
    }
}

/// The configuration directory under the home directory.
pub fn config_dir_path(home_dir: &str) -> (r: String)
    ensures
        r@ == home_dir@ + "/.config/neovide-tabs"@,
{
    let mut out = String::from_str(home_dir);
    out.append("/.config/neovide-tabs");
    out
}

/// The preferred configuration file.
pub fn config_file_path_jsonc(home_dir: &str) -> (r: String)
    ensures
        r@ == home_dir@ + "/.config/neovide-tabs/config.jsonc"@,
{
    let mut out = String::from_str(home_dir);
    out.append("/.config/neovide-tabs/config.jsonc");
    out
}

/// The fallback configuration file.
pub fn config_file_path_json(home_dir: &str) -> (r: String)
    ensures
        r@ == home_dir@ + "/.config/neovide-tabs/config.json"@,
{
    let mut out = String::from_str(home_dir);
    out.append("/.config/neovide-tabs/config.json");
    out
}

/// The data directory under the home directory.
pub fn data_dir_path(home_dir: &str) -> (r: String)
    ensures
        r@ == home_dir@ + "/.local/share/neovide-tabs"@,
{
    let mut out = String::from_str(home_dir);
    out.append("/.local/share/neovide-tabs");
    out
}

/// Pick the configuration file to load, from the host's report of which
/// ones exist: the `.jsonc` file wins over the `.json` one, and neither
/// existing means none.
pub fn find_config_file(home_dir: &str, jsonc_exists: bool, json_exists: bool) -> (r: Option<String>)
    ensures
        jsonc_exists ==> (r matches Some(p)
            && p@ == home_dir@ + "/.config/neovide-tabs/config.jsonc"@),
        !jsonc_exists && json_exists ==> (r matches Some(p)
            && p@ == home_dir@ + "/.config/neovide-tabs/config.json"@),
        !jsonc_exists && !json_exists ==> r is None,
{
    if jsonc_exists {
        Some(config_file_path_jsonc(home_dir))
    } else if json_exists {
        Some(config_file_path_json(home_dir))
    } else {
        None
    }
}

/// Whether a character is a hexadecimal digit.
pub open spec fn spec_is_hex_digit(c: char) -> bool {
    ('0' <= c <= '9') || ('a' <= c <= 'f') || ('A' <= c <= 'F')
}

/// The value of one hexadecimal digit.
pub open spec fn spec_hex_digit_val(c: char) -> int {
    if '0' <= c <= '9' {
        c as int - '0' as int
    } else if 'a' <= c <= 'f' {
        c as int - 'a' as int + 10
    } else if 'A' <= c <= 'F' {
        c as int - 'A' as int + 10
    } else {
        0
    }
}

/// The value of a string of hexadecimal digits, most significant first.
pub open spec fn spec_hex_value(s: Seq<char>) -> int
    decreases s.len(),
{
    if s.len() == 0 {
        0
    } else {
        spec_hex_value(s.drop_last()) * 16 + spec_hex_digit_val(s.last())
    }
}

/// Whether every character of a string is a hexadecimal digit.
pub open spec fn spec_all_hex(s: Seq<char>) -> bool {
    forall|i: int| 0 <= i < s.len() ==> spec_is_hex_digit(#[trigger] s[i])
}

/// What parsing a hex color yields: after an optional `#`, exactly six
/// hex digits, read as one number; anything else is rejected.
pub open spec fn spec_parse_hex_color(s: Seq<char>) -> Option<u32> {
    let hex = if s.len() > 0 && s[0] == '#' {
        s.drop_first()
    } else {
        s
    };
    if hex.len() == 6 && spec_all_hex(hex) {
        Some(spec_hex_value(hex) as u32)
    } else {
        None
    }
}

/// A string of hex digits is bounded by the corresponding power of 16.
proof fn lemma_hex_value_bound(s: Seq<char>)
    requires
        forall|i: int| 0 <= i < s.len() ==> spec_is_hex_digit(#[trigger] s[i]),
        s.len() <= 6,
    ensures
        0 <= spec_hex_value(s),
        s.len() == 6 ==> spec_hex_value(s) < 0x1000000,
        s.len() <= 5 ==> spec_hex_value(s) < 0x100000,
        s.len() <= 4 ==> spec_hex_value(s) < 0x10000,
        s.len() <= 3 ==> spec_hex_value(s) < 0x1000,
        s.len() <= 2 ==> spec_hex_value(s) < 0x100,
        s.len() <= 1 ==> spec_hex_value(s) < 0x10,
    decreases s.len(),
{
    if s.len() > 0 {
        lemma_hex_value_bound(s.drop_last());
    }
}

/// Parse a hex color string, with or without a `#` prefix, to a packed
/// `0x00RRGGBB` value; exactly the strings of six hex digits succeed.
pub fn parse_hex_color(s: &str) -> (r: Option<u32>)
    ensures
        r == spec_parse_hex_color(s@),
{
    let v = chars_of(s);
    let start: usize = if v.len() > 0 && v[0] == '#' { 1 } else { 0 };
    let ghost hex = if start == 1 { s@.drop_first() } else { s@ };
    proof {
        assert(hex =~= s@.subrange(start as int, s@.len() as int));
    }
    if v.len() - start != 6 {
        return None;
    }
    let mut acc: u32 = 0;
    let mut i: usize = 0;
    while i < 6
        invariant
            0 <= i <= 6,
            v@ == s@,
            start + 6 == v@.len(),
            start == 0 || start == 1,
            (start == 1) == (s@.len() > 0 && s@[0] == '#'),
            hex == s@.subrange(start as int, s@.len() as int),
            hex.len() == 6,
            forall|j: int| 0 <= j < i ==> spec_is_hex_digit(#[trigger] hex[j]),
            acc == spec_hex_value(hex.take(i as int)),
            acc < 0x1000000,
        decreases 6 - i,
    {
        let c = v[start + i];
        proof {
            assert(hex[i as int] == v@[start + i as int]);
        }
        let d: u32 = if '0' <= c && c <= '9' {
            (c as u32) - ('0' as u32)
        } else if 'a' <= c && c <= 'f' {
            (c as u32) - ('a' as u32) + 10
        } else if 'A' <= c && c <= 'F' {
            (c as u32) - ('A' as u32) + 10
        } else {
            proof {
                assert(!spec_is_hex_digit(hex[i as int]));
                let shex = if s@.len() > 0 && s@[0] == '#' {
                    s@.drop_first()
                } else {
                    s@
                };
                assert(shex =~= hex);
                assert(!spec_all_hex(shex)) by {
                    if spec_all_hex(shex) {
                        assert(spec_is_hex_digit(shex[i as int]));
                    }
                };
                assert(spec_parse_hex_color(s@) is None);
            }
            return None;
        };
        proof {
            lemma_hex_value_bound(hex.take(i as int));
            assert(hex.take(i + 1 as int).drop_last() =~= hex.take(i as int));
            assert(hex.take(i + 1 as int).last() == hex[i as int]);
        }
        acc = acc * 16 + d;
        i += 1;
    }
    proof {
        assert(hex.take(6) =~= hex);
        assert(spec_all_hex(hex));
        lemma_hex_value_bound(hex);
        let shex = if s@.len() > 0 && s@[0] == '#' {
            s@.drop_first()
        } else {
            s@
        };
        assert(shex =~= hex);
    }
    Some(acc)
}


/// A character stripped from a title's ends: space, tab, dash.
pub open spec fn spec_is_strip_char(c: char) -> bool {
    c == ' ' || c == '\t' || c == '-'
}

/// The string with stripped characters removed from its start.
pub open spec fn spec_trim_start(s: Seq<char>) -> Seq<char>
    decreases s.len(),
{
    if s.len() > 0 && spec_is_strip_char(s.first()) {
        spec_trim_start(s.drop_first())
    } else {
        s
    }
}

/// The string with stripped characters removed from its end.
pub open spec fn spec_trim_end(s: Seq<char>) -> Seq<char>
    decreases s.len(),
{
    if s.len() > 0 && spec_is_strip_char(s.last()) {
        spec_trim_end(s.drop_last())
    } else {
        s
    }
}

/// A title with whitespace, tabs and dashes stripped from both ends.
pub open spec fn spec_sanitize_title(s: Seq<char>) -> Seq<char> {
    spec_trim_end(spec_trim_start(s))
}

/// Whether this character is stripped from a title's ends.
fn is_strip_char(c: char) -> (r: bool)
    ensures
        r == spec_is_strip_char(c),
{
    c == ' ' || c == '\t' || c == '-'
}

/// Strip leading and trailing whitespace, tabs and dashes from a title.
pub fn sanitize_title(title: &str) -> (r: String)
    ensures
        r@ == spec_sanitize_title(title@),
{
    let v = chars_of(title);
    let n = v.len();
    proof {
        assert(title@.skip(0) =~= title@);
    }
    let mut start: usize = 0;
    while start < n && is_strip_char(v[start])
        invariant
            start <= n,
            n == v@.len(),
            v@ == title@,
            spec_trim_start(title@) == spec_trim_start(title@.skip(start as int)),
        decreases n - start,
    {
        proof {
            assert(title@.skip(start as int).drop_first() =~= title@.skip(start + 1 as int));
        }
        start += 1;
    }
    proof {
        if start == n {
            assert(title@.skip(start as int) =~= Seq::<char>::empty());
        }
        assert(spec_trim_start(title@) == title@.skip(start as int));
        assert(title@.skip(start as int) =~= title@.subrange(start as int, n as int));
    }
    let mut end: usize = n;
    while end > start && is_strip_char(v[end - 1])
        invariant
            start <= end <= n,
            n == v@.len(),
            v@ == title@,
            spec_trim_end(title@.subrange(start as int, n as int))
                == spec_trim_end(title@.subrange(start as int, end as int)),
        decreases end,
    {
        proof {
            assert(title@.subrange(start as int, end as int).drop_last()
                =~= title@.subrange(start as int, end - 1 as int));
        }
        end -= 1;
    }
    proof {
        if end == start {
            assert(title@.subrange(start as int, end as int) =~= Seq::<char>::empty());
        }
        assert(spec_trim_end(title@.subrange(start as int, n as int))
            == title@.subrange(start as int, end as int));
    }
    let mut out: Vec<char> = Vec::new();
    let mut i: usize = start;
    while i < end
        invariant
            start <= i <= end <= n,
            n == v@.len(),
            v@ == title@,
            out@ == title@.subrange(start as int, i as int),
        decreases end - i,
    {
        out.push(v[i]);
        proof {
            assert(out@ =~= title@.subrange(start as int, i + 1 as int));
        }
        i += 1;
    }
    string_from_chars(&out)
}

/// Backslashes turned into forward slashes, for display.
pub open spec fn spec_flip_slashes(s: Seq<char>) -> Seq<char> {
    s.map_values(|c: char| if c == '\\' { '/' } else { c })
}

/// Whether `home` is a path prefix of `path`: the whole of it, followed
/// by nothing or by a separator.
pub open spec fn spec_home_prefix(path: Seq<char>, home: Seq<char>) -> bool {
    &&& path.len() >= home.len()
    &&& path.take(home.len() as int) == home
    &&& (path.len() == home.len()
        || path[home.len() as int] == '/' || path[home.len() as int] == '\\')
}

/// A working directory as the title shows it: under the home directory
/// it is shortened to `~` or `~/rest`, otherwise shown whole; separators
/// are shown as forward slashes either way.
pub open spec fn spec_format_working_directory(path: Seq<char>, home: Option<Seq<char>>) -> Seq<char> {
    match home {
        Some(h) => {
            if spec_home_prefix(path, h) {
                if path.len() <= h.len() + 1 {
                    "~"@
                } else {
                    "~/"@ + spec_flip_slashes(path.skip(h.len() as int + 1))
                }
            } else {
                spec_flip_slashes(path)
            }
        }
        None => spec_flip_slashes(path),
    }
}

/// Flip backslashes in part of a character vector, appending to `out`.
fn append_flipped(out: &mut Vec<char>, v: &Vec<char>, from: usize, to: usize)
    requires
        from <= to <= v@.len(),
    ensures
        final(out)@ == old(out)@ + spec_flip_slashes(v@.subrange(from as int, to as int)),
{
    let mut i: usize = from;
    proof {
        assert(old(out)@ + spec_flip_slashes(v@.subrange(from as int, from as int)) =~= old(out)@);
    }
    while i < to
        invariant
            from <= i <= to <= v@.len(),
            out@ == old(out)@ + spec_flip_slashes(v@.subrange(from as int, i as int)),
        decreases to - i,
    {
        let c = v[i];
        if c == '\\' {
            out.push('/');
        } else {
            out.push(c);
        }
        proof {
            assert(out@ =~= old(out)@ + spec_flip_slashes(v@.subrange(from as int, i + 1 as int)));
        }
        i += 1;
    }
}

/// Show a working directory, shortening a home-directory prefix to `~`.
pub fn format_working_directory(path: &str, home_dir: Option<&str>) -> (r: String)
    ensures
        home_dir matches Some(h) ==> r@ == spec_format_working_directory(path@, Some(h@)),
        home_dir is None ==> r@ == spec_format_working_directory(path@, None),
{
    let v = chars_of(path);
    match home_dir {
        Some(home) => {
            let h = chars_of(home);
            let mut is_prefix = v.len() >= h.len();
            if is_prefix {
                let mut i: usize = 0;
                let mut same = true;
                while i < h.len()
                    invariant
                        i <= h@.len() <= v@.len(),
                        v@ == path@,
                        h@ == home@,
                        same ==> forall|j: int| 0 <= j < i ==> path@[j] == home@[j],
                        !same ==> exists|j: int| 0 <= j < i && path@[j] != home@[j],
                    decreases h@.len() - i,
                {
                    if v[i] != h[i] {
                        same = false;
                    }
                    i += 1;
                }
                is_prefix = same;
                if is_prefix && v.len() > h.len() {
                    let sep = v[h.len()];
                    if !(sep == '/' || sep == '\\') {
                        is_prefix = false;
                    }
                }
                proof {
                    if !same {
                        let j = choose|j: int| 0 <= j < h@.len() && path@[j] != home@[j];
                        assert(path@.take(home@.len() as int)[j] == path@[j]);
                        assert(path@.take(home@.len() as int) != home@);
                    }
                }
            }
            proof {
                if is_prefix {
                    assert(path@.take(home@.len() as int) =~= home@);
                }
            }
            if is_prefix {
                if v.len() - h.len() <= 1 {
                    proof {
                        reveal_strlit("~");
                    }
                    let mut out: Vec<char> = Vec::new();
                    out.push('~');
                    proof {
                        assert(out@ =~= "~"@);
                    }
                    return string_from_chars(&out);
                }
                proof {
                    reveal_strlit("~/");
                }
                let mut out: Vec<char> = Vec::new();
                out.push('~');
                out.push('/');
                proof {
                    assert(out@ =~= "~/"@);
                }
                append_flipped(&mut out, &v, h.len() + 1, v.len());
                proof {
                    assert(path@.subrange(home@.len() as int + 1, path@.len() as int)
                        =~= path@.skip(home@.len() as int + 1));
                }
                string_from_chars(&out)
            } else {
                let mut out: Vec<char> = Vec::new();
                append_flipped(&mut out, &v, 0, v.len());
                proof {
                    assert(path@.subrange(0, path@.len() as int) =~= path@);
                }
                string_from_chars(&out)
            }
        }
        None => {
            let mut out: Vec<char> = Vec::new();
            append_flipped(&mut out, &v, 0, v.len());
            proof {
                assert(path@.subrange(0, path@.len() as int) =~= path@);
            }
            string_from_chars(&out)
        }
    }
}


/// The strings a title format draws from: the profile's name, the tab's
/// working directory, and the content window's current title.
pub struct TitleContext<'a> {
    /// Profile name, for `%p`.
    pub profile_name: &'a str,
    /// Working directory, for `%w`.
    pub working_directory: &'a str,
    /// Content window title, for `%t`.
    pub window_title: &'a str,
}

/// A format string expanded token by token: `%p`, `%w` and `%t` become
/// the given strings, `%%` becomes `%`, an unknown token keeps its `%`,
/// and every other character stands for itself.
pub open spec fn spec_expand_raw(f: Seq<char>, p: Seq<char>, w: Seq<char>, t: Seq<char>) -> Seq<char>
    decreases f.len(),
{
    if f.len() == 0 {
        Seq::empty()
    } else if f.first() == '%' {
        if f.len() == 1 {
            seq!['%']
        } else if f[1] == 'p' {
            p + spec_expand_raw(f.skip(2), p, w, t)
        } else if f[1] == 'w' {
            w + spec_expand_raw(f.skip(2), p, w, t)
        } else if f[1] == 't' {
            t + spec_expand_raw(f.skip(2), p, w, t)
        } else if f[1] == '%' {
            seq!['%'] + spec_expand_raw(f.skip(2), p, w, t)
        } else {
            seq!['%'] + spec_expand_raw(f.skip(1), p, w, t)
        }
    } else {
        seq![f.first()] + spec_expand_raw(f.skip(1), p, w, t)
    }
}

/// A fully expanded title: the format expanded against the profile name,
/// the displayed working directory and the window title, then stripped
/// at both ends.
pub open spec fn spec_expand_title(
    f: Seq<char>,
    profile_name: Seq<char>,
    working_directory: Seq<char>,
    window_title: Seq<char>,
    home: Option<Seq<char>>,
) -> Seq<char> {
    spec_sanitize_title(spec_expand_raw(
        f,
        profile_name,
        spec_format_working_directory(working_directory, home),
        window_title,
    ))
}

/// Append one vector of characters to another.
fn append_chars(dst: &mut Vec<char>, src: &Vec<char>)
    ensures
        final(dst)@ == old(dst)@ + src@,
{
    let mut i: usize = 0;
    proof {
        assert(old(dst)@ + src@.subrange(0, 0) =~= old(dst)@);
    }
    while i < src.len()
        invariant
            i <= src@.len(),
            dst@ == old(dst)@ + src@.subrange(0, i as int),
        decreases src@.len() - i,
    {
        dst.push(src[i]);
        proof {
            assert(dst@ =~= old(dst)@ + src@.subrange(0, i + 1 as int));
        }
        i += 1;
    }
    proof {
        assert(old(dst)@ + src@.subrange(0, src@.len() as int) =~= old(dst)@ + src@);
    }
}

/// Expand a title format string using the given context and home
/// directory, and strip the result at both ends.
pub fn expand_title(format: &str, context: &TitleContext, home_dir: Option<&str>) -> (r: String)
    ensures
        home_dir matches Some(hd) ==> r@ == spec_expand_title(
            format@, context.profile_name@, context.working_directory@,
            context.window_title@, Some(hd@)),
        home_dir is None ==> r@ == spec_expand_title(
            format@, context.profile_name@, context.working_directory@,
            context.window_title@, None),
{
    let f = chars_of(format);
    let p = chars_of(context.profile_name);
    let t = chars_of(context.window_title);
    let w_string = format_working_directory(context.working_directory, home_dir);
    let w = chars_of(w_string.as_str());
    let ghost pp = context.profile_name@;
    let ghost ww = w@;
    let ghost tt = context.window_title@;
    let n = f.len();
    let mut out: Vec<char> = Vec::new();
    let mut i: usize = 0;
    proof {
        assert(f@.skip(0) =~= f@);
    }
    while i < n
        invariant
            i <= n,
            n == f@.len(),
            f@ == format@,
            p@ == pp,
            w@ == ww,
            t@ == tt,
            spec_expand_raw(format@, pp, ww, tt)
                == out@ + spec_expand_raw(format@.skip(i as int), pp, ww, tt),
        decreases n - i,
    {
        let ghost rest = format@.skip(i as int);
        proof {
            assert(rest.first() == format@[i as int]);
            assert(rest.skip(1) =~= format@.skip(i + 1 as int));
            if (i + 2) as int <= n as int {
                assert(rest.skip(2) =~= format@.skip(i + 2 as int));
                assert(rest[1] == format@[i + 1 as int]);
            }
        }
        let c = f[i];
        if c == '%' {
            if i + 1 < n {
                let nx = f[i + 1];
                if nx == 'p' {
                    append_chars(&mut out, &p);
                    proof {
                        assert((out@ + spec_expand_raw(format@.skip(i + 2 as int), pp, ww, tt))
                            =~= (out@.subrange(0, out@.len() - pp.len() as int)
                                + (pp + spec_expand_raw(format@.skip(i + 2 as int), pp, ww, tt))));
                    }
                    i += 2;
                } else if nx == 'w' {
                    append_chars(&mut out, &w);
                    proof {
                        assert((out@ + spec_expand_raw(format@.skip(i + 2 as int), pp, ww, tt))
                            =~= (out@.subrange(0, out@.len() - ww.len() as int)
                                + (ww + spec_expand_raw(format@.skip(i + 2 as int), pp, ww, tt))));
                    }
                    i += 2;
                } else if nx == 't' {
                    append_chars(&mut out, &t);
                    proof {
                        assert((out@ + spec_expand_raw(format@.skip(i + 2 as int), pp, ww, tt))
                            =~= (out@.subrange(0, out@.len() - tt.len() as int)
                                + (tt + spec_expand_raw(format@.skip(i + 2 as int), pp, ww, tt))));
                    }
                    i += 2;
                } else if nx == '%' {
                    out.push('%');
                    proof {
                        assert((out@ + spec_expand_raw(format@.skip(i + 2 as int), pp, ww, tt))
                            =~= (out@.subrange(0, out@.len() - 1)
                                + (seq!['%'] + spec_expand_raw(format@.skip(i + 2 as int), pp, ww, tt))));
                    }
                    i += 2;
                } else {
                    out.push('%');
                    proof {
                        assert((out@ + spec_expand_raw(format@.skip(i + 1 as int), pp, ww, tt))
                            =~= (out@.subrange(0, out@.len() - 1)
                                + (seq!['%'] + spec_expand_raw(format@.skip(i + 1 as int), pp, ww, tt))));
                    }
                    i += 1;
                }
            } else {
                out.push('%');
                proof {
                    assert(format@.skip(i + 1 as int) =~= Seq::<char>::empty());
                    assert(spec_expand_raw(format@.skip(i + 1 as int), pp, ww, tt)
                        =~= Seq::<char>::empty());
                    assert((out@ + spec_expand_raw(format@.skip(i + 1 as int), pp, ww, tt))
                        =~= (out@.subrange(0, out@.len() - 1) + seq!['%']));
                }
                i += 1;
            }
        } else {
            out.push(c);
            proof {
                assert((out@ + spec_expand_raw(format@.skip(i + 1 as int), pp, ww, tt))
                    =~= (out@.subrange(0, out@.len() - 1)
                        + (seq![format@[i as int]] + spec_expand_raw(format@.skip(i + 1 as int), pp, ww, tt))));
            }
            i += 1;
        }
    }
    proof {
        assert(format@.skip(n as int) =~= Seq::<char>::empty());
        assert(out@ + spec_expand_raw(format@.skip(n as int), pp, ww, tt) =~= out@);
    }
    let raw = string_from_chars(&out);
    sanitize_title(raw.as_str())
}


/// A JSONC text with its line comments removed, from a position in the
/// ordinary state: inside a string, characters pass through (tracking
/// escapes and closing quotes); outside one, a `//` starts a comment.
pub open spec fn spec_strip_jsonc(s: Seq<char>, in_string: bool, escape_next: bool) -> Seq<char>
    decreases s.len(), 1int,
{
    if s.len() == 0 {
        Seq::empty()
    } else {
        let c = s.first();
        let rest = s.drop_first();
        if escape_next {
            seq![c] + spec_strip_jsonc(rest, in_string, false)
        } else if c == '\\' && in_string {
            seq![c] + spec_strip_jsonc(rest, in_string, true)
        } else if c == '"' {
            seq![c] + spec_strip_jsonc(rest, !in_string, false)
        } else if !in_string && c == '/' && rest.len() > 0 && rest.first() == '/' {
            spec_skip_comment(rest.drop_first())
        } else {
            seq![c] + spec_strip_jsonc(rest, in_string, false)
        }
    }
}

/// The rest of a line comment: everything up to and excluding the next
/// newline vanishes; the newline itself is kept and the ordinary state
/// resumes after it.
pub open spec fn spec_skip_comment(s: Seq<char>) -> Seq<char>
    decreases s.len(), 0int,
{
    if s.len() == 0 {
        Seq::empty()
    } else if s.first() == '\n' {
        seq!['\n'] + spec_strip_jsonc(s.drop_first(), false, false)
    } else {
        spec_skip_comment(s.drop_first())
    }
}

/// Strip `//` line comments from JSONC text, leaving valid JSON.
/// Comment markers inside strings are kept; the newline that ends a
/// comment is kept.
pub fn strip_jsonc_comments(content: &str) -> (r: String)
    ensures
        r@ == spec_strip_jsonc(content@, false, false),
{
    let v = chars_of(content);
    let n = v.len();
    let mut out: Vec<char> = Vec::new();
    let mut in_string = false;
    let mut escape_next = false;
    let mut in_comment = false;
    let mut i: usize = 0;
    proof {
        assert(content@.skip(0) =~= content@);
    }
    while i < n
        invariant
            i <= n,
            n == v@.len(),
            v@ == content@,
            in_comment ==> !in_string && !escape_next,
            escape_next ==> in_string,
            spec_strip_jsonc(content@, false, false) == out@ + (if in_comment {
                spec_skip_comment(content@.skip(i as int))
            } else {
                spec_strip_jsonc(content@.skip(i as int), in_string, escape_next)
            }),
        decreases n - i,
    {
        let ghost rest = content@.skip(i as int);
        proof {
            assert(rest.first() == content@[i as int]);
            assert(rest.drop_first() =~= content@.skip(i + 1 as int));
            if (i + 2) as int <= n as int {
                assert(rest.drop_first().first() == content@[i + 1 as int]);
                assert(rest.drop_first().drop_first() =~= content@.skip(i + 2 as int));
            }
        }
        let c = v[i];
        if in_comment {
            if c == '\n' {
                out.push('\n');
                in_comment = false;
                proof {
                    assert((out@ + spec_strip_jsonc(content@.skip(i + 1 as int), false, false))
                        =~= (out@.subrange(0, out@.len() - 1)
                            + (seq!['\n'] + spec_strip_jsonc(content@.skip(i + 1 as int), false, false))));
                }
            }
            i += 1;
        } else if escape_next {
            out.push(c);
            escape_next = false;
            proof {
                assert((out@ + spec_strip_jsonc(content@.skip(i + 1 as int), in_string, false))
                    =~= (out@.subrange(0, out@.len() - 1)
                        + (seq![content@[i as int]]
                            + spec_strip_jsonc(content@.skip(i + 1 as int), in_string, false))));
            }
            i += 1;
        } else if c == '\\' && in_string {
            out.push(c);
            escape_next = true;
            proof {
                assert((out@ + spec_strip_jsonc(content@.skip(i + 1 as int), in_string, true))
                    =~= (out@.subrange(0, out@.len() - 1)
                        + (seq![content@[i as int]]
                            + spec_strip_jsonc(content@.skip(i + 1 as int), in_string, true))));
            }
            i += 1;
        } else if c == '"' {
            out.push(c);
            in_string = !in_string;
            proof {
                assert((out@ + spec_strip_jsonc(content@.skip(i + 1 as int), in_string, false))
                    =~= (out@.subrange(0, out@.len() - 1)
                        + (seq![content@[i as int]]
                            + spec_strip_jsonc(content@.skip(i + 1 as int), in_string, false))));
            }
            i += 1;
        } else if !in_string && c == '/' && i + 1 < n && v[i + 1] == '/' {
            in_comment = true;
            i += 2;
        } else {
            out.push(c);
            proof {
                assert((out@ + spec_strip_jsonc(content@.skip(i + 1 as int), in_string, false))
                    =~= (out@.subrange(0, out@.len() - 1)
                        + (seq![content@[i as int]]
                            + spec_strip_jsonc(content@.skip(i + 1 as int), in_string, false))));
            }
            i += 1;
        }
    }
    proof {
        assert(content@.skip(n as int) =~= Seq::<char>::empty());
        if in_comment {
            assert(out@ + spec_skip_comment(content@.skip(n as int)) =~= out@);
        } else {
            assert(out@ + spec_strip_jsonc(content@.skip(n as int), in_string, escape_next) =~= out@);
        }
    }
    string_from_chars(&out)
}


/// What a profile's icon entry resolves to.
pub open spec fn spec_resolved_icon(icon: Option<String>, home: Seq<char>) -> Seq<char> {
    match icon {
        Some(ic) => if ic@.len() > 0 && ic@[0] == '~' {
            spec_expand_tilde(ic@, home)
        } else {
            ic@
        },
        None => "neovide.png"@,
    }
}

/// What a profile's working-directory entry resolves to. Whether the
/// directory exists is the host's concern: it swaps a missing one for
/// the home directory before the profile is used.
pub open spec fn spec_resolved_wd(wd: Option<String>, home: Seq<char>) -> Seq<char> {
    match wd {
        Some(w) => spec_expand_tilde(w@, home),
        None => home,
    }
}

/// What a profile's title entry resolves to.
pub open spec fn spec_resolved_title(title: Option<String>) -> Seq<char> {
    match title {
        Some(t) => t@,
        None => "%t"@,
    }
}

/// How one raw profile resolves against a home directory.
pub open spec fn spec_resolved_profile(pf: ProfileFile, p: Profile, home: Seq<char>) -> bool {
    &&& p.name@ == pf.name@
    &&& p.icon@ == spec_resolved_icon(pf.icon, home)
    &&& p.working_directory@ == spec_resolved_wd(pf.working_directory, home)
    &&& (p.hotkey is Some <==> pf.hotkey is Some)
    &&& (pf.hotkey is Some ==> p.hotkey.unwrap()@ == pf.hotkey.unwrap()@)
    &&& p.title@ == spec_resolved_title(pf.title)
}

/// Whether a profile is the built-in one bound to this home directory.
pub open spec fn spec_default_profile_for(p: Profile, home: Seq<char>) -> bool {
    &&& p.name@ == "Default"@
    &&& p.icon@ == "neovide.png"@
    &&& p.working_directory@ == home
    &&& p.hotkey is Some && p.hotkey.unwrap()@ == "Ctrl+Shift+F1"@
    &&& p.title@ == "%t"@
}

/// Resolve the configuration file's profiles against the home directory:
/// each given profile keeps its order and has its icon and working
/// directory expanded; no profiles, or an empty list, falls back to the
/// built-in profile rooted at the home directory.
pub fn parse_profiles(profiles_opt: Option<Vec<ProfileFile>>, home_dir: &str) -> (r: Vec<Profile>)
    ensures
        r@.len() >= 1,
        (match profiles_opt {
            Some(pfs) => pfs@.len() > 0,
            None => false,
        }) ==> (match profiles_opt {
            Some(pfs) => r@.len() == pfs@.len()
                && forall|i: int| 0 <= i < pfs@.len()
                    ==> spec_resolved_profile(pfs@[i], #[trigger] r@[i], home_dir@),
            None => true,
        }),
        !(match profiles_opt {
            Some(pfs) => pfs@.len() > 0,
            None => false,
        }) ==> r@.len() == 1 && spec_default_profile_for(r@[0], home_dir@),
{
    match profiles_opt {
        Some(mut profile_files) if profile_files.len() > 0 => {
            let ghost orig = profile_files@;
            let total = profile_files.len();
            let mut out: Vec<Profile> = Vec::new();
            let mut j: usize = 0;
            proof {
                assert(profile_files@ =~= orig.skip(0));
            }
            while j < total
                invariant
                    j <= total,
                    total == orig.len(),
                    profile_files@ =~= orig.skip(j as int),
                    out@.len() == j,
                    forall|k: int| 0 <= k < j
                        ==> spec_resolved_profile(orig[k], #[trigger] out@[k], home_dir@),
                decreases total - j,
            {
                let pf = profile_files.remove(0);
                proof {
                    assert(orig.skip(j as int)[0] == orig[j as int]);
                    assert(orig.skip(j as int).remove(0) =~= orig.skip(j + 1 as int));
                }
                let working_directory = match pf.working_directory {
                    Some(wd) => expand_tilde(wd.as_str(), home_dir),
                    None => String::from_str(home_dir),
                };
                let icon = resolve_icon_path(pf.icon, home_dir);
                let title = match pf.title {
                    Some(t) => t,
                    None => String::from_str(default_title_format()),
                };
                out.push(Profile {
                    name: pf.name,
                    icon,
                    working_directory,
                    hotkey: pf.hotkey,
                    title,
                });
                j += 1;
            }
            out
        }
        _ => {
            let mut out: Vec<Profile> = Vec::new();
            out.push(Profile {
                name: String::from_str(default_profile_name()),
                icon: String::from_str(default_icon()),
                working_directory: String::from_str(home_dir),
                hotkey: Some(String::from_str(default_profile_hotkey())),
                title: String::from_str(default_title_format()),
            });
            out
        }
    }
}

/// What the background-color entry resolves to: a parsed hex color, or
/// the default color when the entry is missing or malformed.
pub open spec fn spec_resolved_background(bc: Option<String>) -> u32 {
    match bc {
        Some(s) => match spec_parse_hex_color(s@) {
            Some(c) => c,
            None => DEFAULT_BACKGROUND_COLOR,
        },
        None => DEFAULT_BACKGROUND_COLOR,
    }
}

impl Config {
    /// Validate a parsed configuration file against the home directory:
    /// color, profiles and hotkeys each fall back to their defaults where
    /// the file leaves them out or malformed.
    pub fn from_config_file(file: ConfigFile, home_dir: &str) -> (r: Config)
        ensures
            r.wf(),
            r.background_color == spec_resolved_background(file.background_color),
            (match file.profiles {
                Some(pfs) => pfs@.len() > 0,
                None => false,
            }) ==> (match file.profiles {
                Some(pfs) => r.profiles@.len() == pfs@.len()
                    && forall|i: int| 0 <= i < pfs@.len()
                        ==> spec_resolved_profile(pfs@[i], #[trigger] r.profiles@[i], home_dir@),
                None => true,
            }),
            !(match file.profiles {
                Some(pfs) => pfs@.len() > 0,
                None => false,
            }) ==> r.profiles@.len() == 1 && spec_default_profile_for(r.profiles@[0], home_dir@),
            (match file.hotkeys {
                Some(c) => (c.tab matches Some(t) ==> r.hotkeys.tab.entries@ == t.entries@)
                    && (c.tab is None ==> r.hotkeys.tab.entries@.len() == 0),
                None => r.hotkeys.tab.entries@.len() == 10,
            }),
    {
        let background_color = match file.background_color {
            Some(s) => match parse_hex_color(s.as_str()) {
                Some(c) => c,
                None => DEFAULT_BACKGROUND_COLOR,
            },
            None => DEFAULT_BACKGROUND_COLOR,
        };
        let profiles = parse_profiles(file.profiles, home_dir);
        let hotkeys = parse_hotkey_config(file.hotkeys);
        Config { background_color, profiles, hotkeys }
    }
}

/// The documented configuration template written out for a first run:
/// JSONC with commented-out examples and one ready profile.
pub fn generate_default_config() -> (r: &'static str)
    ensures
        r@ == DEFAULT_CONFIG_TEMPLATE@,
{
    DEFAULT_CONFIG_TEMPLATE
}

pub const DEFAULT_CONFIG_TEMPLATE: &'static str = r##"// neovide-tabs configuration file
// Uncomment and modify options below to customize behavior.
// See https://github.com/your-repo/neovide-tabs for documentation.

{
    // Background color for the window (hex format, with or without # prefix)
    // This color is used for the title bar and to fill exposed areas during resize
    // "background_color": "#1a1b26",

    // Hotkey configuration
    // "hotkeys": {
    //     // Tab switching hotkeys: maps key combination to tab number (1-based)
    //     // Default: Ctrl+Shift+1-9 for tabs 1-9, Ctrl+Shift+0 for tab 10
    //     // Set to empty object {} to disable all tab hotkeys
    //     "tab": {
    //         "Ctrl+Shift+1": 1,
    //         "Ctrl+Shift+2": 2,
    //         "Ctrl+Shift+3": 3,
    //         "Ctrl+Shift+4": 4,
    //         "Ctrl+Shift+5": 5,
    //         "Ctrl+Shift+6": 6,
    //         "Ctrl+Shift+7": 7,
    //         "Ctrl+Shift+8": 8,
    //         "Ctrl+Shift+9": 9,
    //         "Ctrl+Shift+0": 10
    //     }
    // },

    // Profile definitions for tabs
    // Each profile can specify a name, icon, working directory, and hotkey
    // The first profile is used for the initial tab when the application starts
    "profiles": [
        {
            // Default profile - used for the initial tab
            "name": "Neovim",
            // Uses default icon (neovide.png) and home directory
            "hotkey": "Ctrl+Shift+F1"
        }
        // Example: Additional profile with all options
        // {
        //     // Profile name (required) - displayed in the tab
        //     "name": "Work",
        //     // Icon file path (optional) - full path to a PNG file
        //     // Defaults to neovide.png in the data directory
        //     "icon": "C:/path/to/icon.png",
        //     // Working directory (optional) - where Neovide starts
        //     // Supports ~ for home directory. Defaults to home directory
        //     "working_directory": "~/projects/work",
        //     // Global hotkey (optional) - opens or activates a tab with this profile
        //     // Format: Modifier+Key (e.g., Ctrl+Shift+F2, Alt+Shift+W)
        //     "hotkey": "Ctrl+Shift+F2",
        //     // Tab title format (optional) - dynamic tab title with token expansion
        //     // Supported tokens:
        //     //   %p - Profile name
        //     //   %w - Working directory (uses ~/xxx for paths under home)
        //     //   %t - Neovide window title (current file/buffer)
        //     // Defaults to "%t" (Neovide window title)
        //     // Examples: "%t", "%p: %w", "%p - %t"
        //     "title": "%t"
        // },
        // {
        //     // Minimal profile example - only name is required
        //     "name": "Personal"
        // }
    ]
}
"##;

} // verus!
