//! Global hotkey identifiers and the hotkey-string parser.
//!
//! A hotkey string such as `Ctrl+Shift+F1` is a `+`-separated list of
//! modifier names and exactly one key name; parsing yields the modifier
//! bit mask and the key's virtual-key code. Registering the hotkeys with
//! the OS is the host's side.

use vstd::prelude::*;
use crate::strutil::{
    ascii_upper, chars_of, spec_ascii_upper_seq, spec_trim_blank, str_eq_str, string_from_chars,
    to_ascii_upper, trim_blank,
};

verus! {

/// First identifier for tab hotkeys: ids 1 to 10 select tabs 1 to 10.
pub const TAB_HOTKEY_BASE: i32 = 1;

/// First identifier for profile hotkeys: the profile at index `i` gets
/// id `PROFILE_HOTKEY_BASE + i`.
pub const PROFILE_HOTKEY_BASE: i32 = 101;

/// Modifier bit for the Alt key.
pub const MOD_ALT: u32 = 0x1;

/// Modifier bit for the Control key.
pub const MOD_CONTROL: u32 = 0x2;

/// Modifier bit for the Shift key.
pub const MOD_SHIFT: u32 = 0x4;

/// Modifier bit for the OS key.
pub const MOD_WIN: u32 = 0x8;

/// A parsed hotkey: modifier bits plus a virtual-key code.
#[derive(Debug, Clone, Copy, PartialEq, Eq, Structural)]
pub struct ParsedHotkey {
    pub modifiers: u32,
    pub vk: u32,
}

/// A string split at a separator, built left to right with the part
/// collected so far; splitting never yields an empty list.
pub open spec fn spec_split_acc(s: Seq<char>, sep: char, cur: Seq<char>) -> Seq<Seq<char>>
    decreases s.len(),
{
    if s.len() == 0 {
        seq![cur]
    } else if s.first() == sep {
        seq![cur] + spec_split_acc(s.drop_first(), sep, Seq::empty())
    } else {
        spec_split_acc(s.drop_first(), sep, cur.push(s.first()))
    }
}

/// The `+`-separated parts of a hotkey string, each trimmed of blanks.
pub open spec fn spec_hotkey_parts(s: Seq<char>) -> Seq<Seq<char>> {
    spec_split_acc(s, '+', Seq::empty()).map_values(|p: Seq<char>| spec_trim_blank(p))
}

/// The modifier bit a part names, if it names one; matching is
/// case-insensitive over the plain letters.
pub open spec fn spec_modifier_of(part: Seq<char>) -> Option<u32> {
    let pu = spec_ascii_upper_seq(part);
    if pu == "CTRL"@ || pu == "CONTROL"@ {
        Some(MOD_CONTROL)
    } else if pu == "ALT"@ {
        Some(MOD_ALT)
    } else if pu == "SHIFT"@ {
        Some(MOD_SHIFT)
    } else if pu == "WIN"@ || pu == "WINDOWS"@ || pu == "SUPER"@ {
        Some(MOD_WIN)
    } else {
        None
    }
}

/// Fold the parts into collected modifier bits and the single key part;
/// a second non-modifier part makes the whole string invalid.
pub open spec fn spec_fold_parts(
    parts: Seq<Seq<char>>,
    mods: u32,
    key: Option<Seq<char>>,
) -> Option<(u32, Option<Seq<char>>)>
    decreases parts.len(),
{
    if parts.len() == 0 {
        Some((mods, key))
    } else {
        match spec_modifier_of(parts.first()) {
            Some(m) => spec_fold_parts(parts.drop_first(), mods | m, key),
            None => {
                if key is Some {
                    None
                } else {
                    spec_fold_parts(parts.drop_first(), mods, Some(parts.first()))
                }
            }
        }
    }
}

/// Whether every character of a string is a decimal digit.
pub open spec fn spec_all_dec_digits(s: Seq<char>) -> bool {
    forall|i: int| 0 <= i < s.len() ==> '0' <= #[trigger] s[i] <= '9'
}

/// The value of a string of decimal digits, most significant first.
pub open spec fn spec_dec_value(s: Seq<char>) -> int
    decreases s.len(),
{
    if s.len() == 0 {
        0
    } else {
        spec_dec_value(s.drop_last()) * 10 + (s.last() as int - '0' as int)
    }
}

/// The virtual-key code a key name stands for: `F1` to `F12` (any string
/// of digits valued 1 to 12 after the `F`), a single digit, or a single
/// letter of either case. Anything else is unknown.
pub open spec fn spec_key_vk(k: Seq<char>) -> Option<u32> {
    let ku = spec_ascii_upper_seq(k);
    if ku.len() >= 2 && ku[0] == 'F' && spec_all_dec_digits(ku.skip(1)) {
        let v = spec_dec_value(ku.skip(1));
        if 1 <= v <= 12 {
            Some((0x6F + v) as u32)
        } else {
            None
        }
    } else if k.len() == 1 {
        let c = ku[0];
        if '0' <= c <= '9' {
            Some(c as u32)
        } else if 'A' <= c <= 'Z' {
            Some(c as u32)
        } else {
            None
        }
    } else {
        None
    }
}

/// What parsing a hotkey string yields: the collected modifier bits and
/// the key's code; a string with no modifier, no key, two keys, or an
/// unknown key is invalid.
pub open spec fn spec_parse_hotkey(s: Seq<char>) -> Option<ParsedHotkey> {
    match spec_fold_parts(spec_hotkey_parts(s), 0, None) {
        None => None,
        Some((mods, key)) => {
            if mods == 0 {
                None
            } else {
                match key {
                    None => None,
                    Some(k) => match spec_key_vk(k) {
                        None => None,
                        Some(vk) => Some(ParsedHotkey { modifiers: mods, vk }),
                    },
                }
            }
        }
    }
}

/// A value clamped just past the largest function-key number, so digit
/// strings of any length can be folded without growing.
pub open spec fn spec_clamp13(v: int) -> int {
    if v > 13 {
        13
    } else {
        v
    }
}

/// Parse a key name to its virtual-key code.
fn parse_key_name(key: &str) -> (r: Option<u32>)
    ensures
        r == spec_key_vk(key@),
{
    let k = chars_of(key);
    let n = k.len();
    let mut ku: Vec<char> = Vec::new();
    let mut i: usize = 0;
    while i < n
        invariant
            i <= n,
            n == k@.len(),
            k@ == key@,
            ku@ == spec_ascii_upper_seq(key@.subrange(0, i as int)),
        decreases n - i,
    {
        ku.push(ascii_upper(k[i]));
        proof {
            assert(ku@ =~= spec_ascii_upper_seq(key@.subrange(0, i + 1 as int)));
        }
        i += 1;
    }
    proof {
        assert(key@.subrange(0, n as int) =~= key@);
    }
    let ghost kus = spec_ascii_upper_seq(key@);

    if ku.len() >= 2 && ku[0] == 'F' {
        let mut all_digits = true;
        let mut acc: u32 = 0;
        let mut j: usize = 1;
        proof {
            assert(kus.subrange(1, 1) =~= Seq::<char>::empty());
        }
        while j < n
            invariant
                1 <= j <= n,
                n == ku@.len(),
                ku@ == kus,
                all_digits == spec_all_dec_digits(kus.subrange(1, j as int)),
                all_digits ==> acc == spec_clamp13(spec_dec_value(kus.subrange(1, j as int))),
                acc <= 13,
            decreases n - j,
        {
            let c = ku[j];
            let ghost pre = kus.subrange(1, j as int);
            let ghost post = kus.subrange(1, j + 1 as int);
            proof {
                assert(post.drop_last() =~= pre);
                assert(post.last() == kus[j as int]);
            }
            if all_digits {
                if '0' <= c && c <= '9' {
                    let d = (c as u32) - ('0' as u32);
                    let grown = acc * 10 + d;
                    let clamped = if grown > 13 { 13 } else { grown };
                    proof {
                        let v = spec_dec_value(pre);
                        let v2 = spec_dec_value(post);
                        assert(v2 == v * 10 + d);
                        assert(spec_clamp13(v2) == (if spec_clamp13(v) * 10 + d > 13 {
                            13int
                        } else {
                            spec_clamp13(v) * 10 + d
                        })) by (nonlinear_arith)
                            requires v2 == v * 10 + d, 0 <= d <= 9, v >= 0;
                        lemma_dec_value_nonneg(pre);
                        lemma_dec_value_nonneg(post);
                    }
                    acc = clamped;
                } else {
                    all_digits = false;
                    proof {
                        assert(!('0' <= post[j - 1] <= '9'));
                        assert(!spec_all_dec_digits(post)) by {
                            if spec_all_dec_digits(post) {
                                assert('0' <= post[j - 1] <= '9');
                            }
                        };
                    }
                }
            } else {
                proof {
                    let m = choose|m: int| 0 <= m < pre.len() && !('0' <= #[trigger] pre[m] <= '9');
                    assert(!spec_all_dec_digits(post)) by {
                        if spec_all_dec_digits(post) {
                            assert('0' <= post[m] <= '9');
                        }
                    };
                }
            }
            j += 1;
        }
        proof {
            assert(kus.subrange(1, n as int) =~= kus.skip(1));
        }
        if all_digits {
            proof {
                lemma_dec_value_nonneg(kus.skip(1));
            }
            if 1 <= acc && acc <= 12 {
                return Some(0x6F + acc);
            } else {
                return None;
            }
        }
    }

    if n == 1 {
        let c = ku[0];
        if '0' <= c && c <= '9' {
            return Some(c as u32);
        }
        if 'A' <= c && c <= 'Z' {
            return Some(c as u32);
        }
        return None;
    }
    None
}

/// The value of a digit string is never negative.
proof fn lemma_dec_value_nonneg(s: Seq<char>)
    requires
        spec_all_dec_digits(s),
    ensures
        spec_dec_value(s) >= 0,
    decreases s.len(),
{
    if s.len() > 0 {
        assert(spec_all_dec_digits(s.drop_last())) by {
            assert forall|i: int| 0 <= i < s.drop_last().len()
                implies '0' <= #[trigger] s.drop_last()[i] <= '9'
            by {
                assert(s.drop_last()[i] == s[i]);
            }
        };
        lemma_dec_value_nonneg(s.drop_last());
        assert(spec_dec_value(s.drop_last()) * 10 >= 0) by (nonlinear_arith)
            requires spec_dec_value(s.drop_last()) >= 0;
    }
}

/// Parse a hotkey string such as `Ctrl+Shift+F1` into modifier bits and
/// a virtual-key code; exactly the strings with at least one modifier
/// and exactly one known key name parse.
pub fn parse_hotkey_string(s: &str) -> (r: Option<ParsedHotkey>)
    ensures
        r == spec_parse_hotkey(s@),
{
    let v = chars_of(s);
    let n = v.len();
    let mut parts: Vec<Vec<char>> = Vec::new();
    let mut cur: Vec<char> = Vec::new();
    let mut i: usize = 0;
    proof {
        assert(s@.skip(0) =~= s@);
        assert(parts@.map_values(|p: Vec<char>| p@) =~= Seq::<Seq<char>>::empty());
    }
    while i < n
        invariant
            i <= n,
            n == v@.len(),
            v@ == s@,
            spec_split_acc(s@, '+', Seq::empty())
                == parts@.map_values(|p: Vec<char>| p@)
                    + spec_split_acc(s@.skip(i as int), '+', cur@),
        decreases n - i,
    {
        let ghost rest = s@.skip(i as int);
        proof {
            assert(rest.first() == s@[i as int]);
            assert(rest.drop_first() =~= s@.skip(i + 1 as int));
        }
        let c = v[i];
        if c == '+' {
            let ghost old_parts = parts@;
            let ghost old_cur = cur@;
            parts.push(cur);
            cur = Vec::new();
            proof {
                assert(parts@.map_values(|p: Vec<char>| p@)
                    =~= old_parts.map_values(|p: Vec<char>| p@) + seq![old_cur]);
                assert(old_parts.map_values(|p: Vec<char>| p@)
                    + (seq![old_cur] + spec_split_acc(s@.skip(i + 1 as int), '+', Seq::empty()))
                    =~= parts@.map_values(|p: Vec<char>| p@)
                        + spec_split_acc(s@.skip(i + 1 as int), '+', cur@));
            }
        } else {
            cur.push(c);
        }
        i += 1;
    }
    let ghost old_parts = parts@;
    let ghost old_cur = cur@;
    parts.push(cur);
    proof {
        assert(s@.skip(n as int) =~= Seq::<char>::empty());
        assert(parts@.map_values(|p: Vec<char>| p@)
            =~= old_parts.map_values(|p: Vec<char>| p@) + seq![old_cur]);
        assert(spec_split_acc(s@, '+', Seq::empty()) =~= parts@.map_values(|p: Vec<char>| p@));
    }

    let total = parts.len();
    let mut modifiers: u32 = 0;
    let mut key_part: Option<Vec<char>> = None;
    let mut j: usize = 0;
    proof {
        assert(spec_hotkey_parts(s@) =~= spec_split_acc(s@, '+', Seq::empty())
            .map_values(|p: Seq<char>| spec_trim_blank(p)));
        assert(spec_hotkey_parts(s@).skip(0) =~= spec_hotkey_parts(s@));
    }
    while j < total
        invariant
            j <= total,
            total == parts@.len(),
            spec_hotkey_parts(s@).len() == total,
            forall|m: int| 0 <= m < total ==> spec_hotkey_parts(s@)[m]
                == spec_trim_blank(#[trigger] parts@[m]@),
            spec_fold_parts(spec_hotkey_parts(s@), 0, None)
                == spec_fold_parts(spec_hotkey_parts(s@).skip(j as int), modifiers,
                    match key_part {
                        Some(kp) => Some(kp@),
                        None => None,
                    }),
        decreases total - j,
    {
        let ghost prest = spec_hotkey_parts(s@).skip(j as int);
        proof {
            assert(prest.first() == spec_hotkey_parts(s@)[j as int]);
            assert(prest.drop_first() =~= spec_hotkey_parts(s@).skip(j + 1 as int));
        }
        let trimmed = trim_blank(&parts[j]);
        let pstr = string_from_chars(&trimmed);
        let upper = to_ascii_upper(pstr.as_str());
        let u = upper.as_str();
        if str_eq_str(u, "CTRL") || str_eq_str(u, "CONTROL") {
            modifiers = modifiers | MOD_CONTROL;
        } else if str_eq_str(u, "ALT") {
            modifiers = modifiers | MOD_ALT;
        } else if str_eq_str(u, "SHIFT") {
            modifiers = modifiers | MOD_SHIFT;
        } else if str_eq_str(u, "WIN") || str_eq_str(u, "WINDOWS") || str_eq_str(u, "SUPER") {
            modifiers = modifiers | MOD_WIN;
        } else {
            if key_part.is_some() {
                return None;
            }
            key_part = Some(trimmed);
        }
        j += 1;
    }
    proof {
        assert(spec_hotkey_parts(s@).skip(total as int) =~= Seq::<Seq<char>>::empty());
    }

    if modifiers == 0 {
        return None;
    }
    match key_part {
        None => None,
        Some(k) => {
            let kstr = string_from_chars(&k);
            match parse_key_name(kstr.as_str()) {
                None => None,
                Some(vk) => Some(ParsedHotkey { modifiers, vk }),
            }
        }
    }
}

/// Whether a hotkey id selects a tab.
pub fn is_tab_hotkey(id: i32) -> (r: bool)
    ensures
        r == (1 <= id <= 10),
{
    1 <= id && id <= 10
}

/// Whether a hotkey id activates or creates a profile's tab.
pub fn is_profile_hotkey(id: i32) -> (r: bool)
    ensures
        r == (id >= PROFILE_HOTKEY_BASE),
{
    id >= PROFILE_HOTKEY_BASE
}

/// The 0-based tab index a tab hotkey id selects.
pub fn tab_index_from_hotkey_id(id: i32) -> (r: Option<usize>)
    ensures
        1 <= id <= 10 ==> r == Some((id - 1) as usize),
        !(1 <= id <= 10) ==> r is None,
{
    if 1 <= id && id <= 10 {
        Some((id - 1) as usize)
    } else {
        None
    }
}

/// The profile index a profile hotkey id names.
pub fn profile_index_from_hotkey_id(id: i32) -> (r: Option<usize>)
    ensures
        id >= PROFILE_HOTKEY_BASE ==> r == Some((id - PROFILE_HOTKEY_BASE) as usize),
        id < PROFILE_HOTKEY_BASE ==> r is None,
{
    if id >= PROFILE_HOTKEY_BASE {
        Some((id - PROFILE_HOTKEY_BASE) as usize)
    } else {
        None
    }
}

} // verus!
