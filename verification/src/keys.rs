//! Key bindings as the script writes them: a list of modifier names and the
//! name of a key, turned into modifiers and a key symbol.

use crate::config::{ConfigMapKey, Mods};
use vstd::prelude::*;

verus! {

/// The key symbol of the cursor key that points left.
pub const KEY_LEFT: u32 = 0xff51;

/// The key symbol of the cursor key that points up.
pub const KEY_UP: u32 = 0xff52;

/// The key symbol of the cursor key that points right.
pub const KEY_RIGHT: u32 = 0xff53;

/// The key symbol of the cursor key that points down.
pub const KEY_DOWN: u32 = 0xff54;

/// The key symbol that stands for the character `c`.
pub uninterp spec fn keysym_of_char(c: char) -> u32;

/// Whether the character `c` is an upper-case letter.
pub uninterp spec fn char_is_uppercase(c: char) -> bool;

/// The upper-case form of `c`, which may take more than one character.
pub uninterp spec fn char_uppercase(c: char) -> Seq<char>;

/// The key symbol of a character, as `xkeysym::Keysym::from_char` gives it.
/// Nothing is proved of the table that it looks the character up in; of its
/// result it is only said that the printable characters of Latin-1 stand for
/// themselves.
#[verifier::external_body]
fn keysym_from_char(c: char) -> (k: u32)
    ensures
        k == keysym_of_char(c),
        0x20 <= c as u32 <= 0x7e || 0xa0 <= c as u32 <= 0xff ==> k == c as u32,
{
    xkeysym::Keysym::from_char(c).raw()
}

/// Whether a character is an upper-case letter, as `char::is_uppercase`
/// says.
#[verifier::external_body]
fn is_uppercase(c: char) -> (b: bool)
    ensures
        b == char_is_uppercase(c),
{
    c.is_uppercase()
}

/// The characters that `char::to_uppercase` gives for a character, of which
/// it is only said that there is one at least.
#[verifier::external_body]
fn to_uppercase(c: char) -> (u: Vec<char>)
    ensures
        u@ == char_uppercase(c),
        u@.len() >= 1,
{
    c.to_uppercase().collect()
}

/// The characters from `a` up to `b` are one name of a list whose names
/// stand between bars.
pub open spec fn is_token(s: Seq<char>, a: int, b: int) -> bool {
    &&& 0 <= a <= b <= s.len()
    &&& (a == 0 || s[a - 1] == '|')
    &&& (b == s.len() || s[b] == '|')
    &&& forall|k: int| a <= k < b ==> s[k] != '|'
}

/// The list `s` holds the name `t`, ending before `upto`.
pub open spec fn has_token(s: Seq<char>, t: Seq<char>, upto: int) -> bool {
    exists|a: int, b: int| is_token(s, a, b) && b < upto && #[trigger] s.subrange(a, b) == t
}

/// The list `s` holds the name `t`.
pub open spec fn names(s: Seq<char>, t: Seq<char>) -> bool {
    has_token(s, t, s.len() as int + 1)
}

/// The modifiers that the list `s` names. A name that is none of a modifier
/// counts for nothing.
pub open spec fn mods_of(s: Seq<char>) -> Mods {
    Mods {
        shift: names(s, "shift"@),
        logo: names(s, "logo"@) || names(s, "super"@),
        ctrl: names(s, "ctrl"@),
        alt: names(s, "alt"@),
    }
}

/// The key symbol of a cursor key, by its name.
pub open spec fn named_key(key: Seq<char>) -> Option<u32> {
    if key == "Left"@ {
        Some(KEY_LEFT)
    } else if key == "Right"@ {
        Some(KEY_RIGHT)
    } else if key == "Up"@ {
        Some(KEY_UP)
    } else if key == "Down"@ {
        Some(KEY_DOWN)
    } else {
        None
    }
}

/// The binding that the modifiers `mods` and the key `key` make: a cursor
/// key by its name; else the key of the first character, which with shift is
/// taken in upper case, by the first character of that form, and which in
/// upper case asks for shift. A key without a name makes no binding.
pub open spec fn binding_of(mods: Mods, key: Seq<char>, callback: u64) -> Option<ConfigMapKey> {
    match named_key(key) {
        Some(k) => Some(ConfigMapKey { key: k, mods, callback }),
        None => if key.len() == 0 {
            None
        } else {
            let shifted = with_shift(mods, char_is_uppercase(key[0]));
            let c = in_case(shifted.shift, key[0], char_uppercase(key[0]));
            Some(ConfigMapKey { key: keysym_of_char(c), mods: shifted, callback })
        },
    }
}

/// `mods` with shift added where the key is written in upper case.
pub open spec fn with_shift(mods: Mods, upper: bool) -> Mods {
    Mods { shift: mods.shift || upper, ..mods }
}

/// The character that a key written as `c` stands for: with shift the first
/// character of its upper-case form `upper`, if it has one, else itself.
pub open spec fn in_case(shift: bool, c: char, upper: Seq<char>) -> char {
    if shift && upper.len() >= 1 {
        upper[0]
    } else {
        c
    }
}

/// A name that ends at `j` and starts at `a` is the only one that ends from
/// `a` on and before `j + 1`.
pub proof fn lemma_token_step(s: Seq<char>, t: Seq<char>, a: int, j: int)
    requires
        0 <= a <= j <= s.len(),
        a == 0 || s[a - 1] == '|',
        j == s.len() || s[j] == '|',
        forall|k: int| a <= k < j ==> s[k] != '|',
    ensures
        has_token(s, t, j + 1) == (has_token(s, t, a) || s.subrange(a, j) == t),
{
    assert(is_token(s, a, j));
    if has_token(s, t, j + 1) {
        let (x, y) = choose|x: int, y: int|
            is_token(s, x, y) && y < j + 1 && #[trigger] s.subrange(x, y) == t;
        if y >= a {
            if y < j {
                assert(s[y] != '|');
            }
            assert(y == j);
            if x > a {
                assert(s[x - 1] != '|');
            }
            if x < a {
                assert(s[a - 1] == '|');
            }
            assert(x == a);
        } else {
            assert(has_token(s, t, a));
        }
    }
    if has_token(s, t, a) {
        let (x, y) = choose|x: int, y: int|
            is_token(s, x, y) && y < a && #[trigger] s.subrange(x, y) == t;
        assert(is_token(s, x, y) && y < j + 1 && s.subrange(x, y) == t);
    }
    if s.subrange(a, j) == t {
        assert(is_token(s, a, j) && j < j + 1 && s.subrange(a, j) == t);
    }
}

/// No name ends before the start of the list.
pub proof fn lemma_no_token_before_start(s: Seq<char>, t: Seq<char>)
    ensures
        !has_token(s, t, 0),
{
}

/// The characters of `s`.
pub fn chars_of(s: &str) -> (v: Vec<char>)
    ensures
        v@ == s@,
{
    let n = s.unicode_len();
    let mut v: Vec<char> = Vec::new();
    let mut i: usize = 0;
    while i < n
        invariant
            i <= n,
            n == s@.len(),
            v@ == s@.subrange(0, i as int),
        decreases n - i,
    {
        v.push(s.get_char(i));
        i += 1;
    }
    v
}

/// Whether the characters of `v` from `a` up to `b` spell `name`.
pub(crate) fn spells(v: &Vec<char>, a: usize, b: usize, name: &str) -> (r: bool)
    requires
        a <= b <= v.len(),
    ensures
        r == (v@.subrange(a as int, b as int) == name@),
{
    let n = name.unicode_len();
    if n != b - a {
        return false;
    }
    let mut i: usize = 0;
    while i < n
        invariant
            i <= n,
            n == b - a,
            n == name@.len(),
            a <= b <= v.len(),
            forall|k: int| 0 <= k < i ==> v[a + k] == name@[k],
        decreases n - i,
    {
        if v[a + i] != name.get_char(i) {
            return false;
        }
        i += 1;
    }
    assert(v@.subrange(a as int, b as int) =~= name@);
    true
}

/// The modifiers that the list `mods` names.
pub fn parse_mods(mods: &str) -> (m: Mods)
    ensures
        m == mods_of(mods@),
{
    let v = chars_of(mods);
    let n = v.len();
    let mut m = Mods { shift: false, logo: false, ctrl: false, alt: false };
    let mut sup = false;
    let mut a: usize = 0;
    let mut j: usize = 0;
    proof {
        lemma_no_token_before_start(v@, "shift"@);
        lemma_no_token_before_start(v@, "logo"@);
        lemma_no_token_before_start(v@, "super"@);
        lemma_no_token_before_start(v@, "ctrl"@);
        lemma_no_token_before_start(v@, "alt"@);
    }
    while j < n
        invariant
            n == v.len(),
            a <= j <= n,
            a == 0 || v[a - 1] == '|',
            forall|k: int| a <= k < j ==> v[k] != '|',
            m.shift == has_token(v@, "shift"@, a as int),
            m.logo == has_token(v@, "logo"@, a as int),
            sup == has_token(v@, "super"@, a as int),
            m.ctrl == has_token(v@, "ctrl"@, a as int),
            m.alt == has_token(v@, "alt"@, a as int),
        decreases n - j,
    {
        if v[j] == '|' {
            proof {
                lemma_token_step(v@, "shift"@, a as int, j as int);
                lemma_token_step(v@, "logo"@, a as int, j as int);
                lemma_token_step(v@, "super"@, a as int, j as int);
                lemma_token_step(v@, "ctrl"@, a as int, j as int);
                lemma_token_step(v@, "alt"@, a as int, j as int);
            }
            m.shift = m.shift || spells(&v, a, j, "shift");
            m.logo = m.logo || spells(&v, a, j, "logo");
            sup = sup || spells(&v, a, j, "super");
            m.ctrl = m.ctrl || spells(&v, a, j, "ctrl");
            m.alt = m.alt || spells(&v, a, j, "alt");
            a = j + 1;
        }
        j += 1;
    }
    proof {
        lemma_token_step(v@, "shift"@, a as int, n as int);
        lemma_token_step(v@, "logo"@, a as int, n as int);
        lemma_token_step(v@, "super"@, a as int, n as int);
        lemma_token_step(v@, "ctrl"@, a as int, n as int);
        lemma_token_step(v@, "alt"@, a as int, n as int);
    }
    m.shift = m.shift || spells(&v, a, n, "shift");
    m.logo = m.logo || spells(&v, a, n, "logo");
    sup = sup || spells(&v, a, n, "super");
    m.ctrl = m.ctrl || spells(&v, a, n, "ctrl");
    m.alt = m.alt || spells(&v, a, n, "alt");
    m.logo = m.logo || sup;
    m
}

/// `mods` with shift added where the key is written in upper case.
pub fn shifted(mods: Mods, upper: bool) -> (m: Mods)
    ensures
        m == with_shift(mods, upper),
{
    Mods { shift: mods.shift || upper, logo: mods.logo, ctrl: mods.ctrl, alt: mods.alt }
}

/// The character that a key written as `c` stands for, where `upper` is its
/// upper-case form.
pub fn cased(shift: bool, c: char, upper: &Vec<char>) -> (r: char)
    ensures
        r == in_case(shift, c, upper@),
{
    if shift && upper.len() >= 1 {
        upper[0]
    } else {
        c
    }
}

/// The binding that the modifiers `mods` and the key `key` make, for the
/// callback with the handle `callback`.
pub fn bind_key(mods: Mods, key: &str, callback: u64) -> (r: Option<ConfigMapKey>)
    ensures
        r == binding_of(mods, key@, callback),
{
    let v = chars_of(key);
    let n = v.len();
    assert(v@.subrange(0, n as int) =~= key@);
    if spells(&v, 0, n, "Left") {
        Some(ConfigMapKey { key: KEY_LEFT, mods, callback })
    } else if spells(&v, 0, n, "Right") {
        Some(ConfigMapKey { key: KEY_RIGHT, mods, callback })
    } else if spells(&v, 0, n, "Up") {
        Some(ConfigMapKey { key: KEY_UP, mods, callback })
    } else if spells(&v, 0, n, "Down") {
        Some(ConfigMapKey { key: KEY_DOWN, mods, callback })
    } else if n == 0 {
        None
    } else {
        let mods = shifted(mods, is_uppercase(v[0]));
        let c = cased(mods.shift, v[0], &to_uppercase(v[0]));
        Some(ConfigMapKey { key: keysym_from_char(c), mods, callback })
    }
}

/// The binding that the script declares with the list of modifiers `mods`
/// and the key `key`, for the callback with the handle `callback`.
pub fn parse_map_key(mods: &str, key: &str, callback: u64) -> (r: Option<ConfigMapKey>)
    ensures
        r == binding_of(mods_of(mods@), key@, callback),
{
    bind_key(parse_mods(mods), key, callback)
}

} // verus!
