//! Keys as the application sees them, and single-line text editing.

use vstd::prelude::*;

use crate::text::{char_byte_index, char_count, string_insert, string_remove};

verus! {

/// A key press, as the terminal reports it.
#[derive(Debug, Clone, Copy, PartialEq, Eq, Structural)]
pub enum Key {
    Char(char),
    Esc,
    Enter,
    Tab,
    Up,
    Down,
    Left,
    Right,
    Home,
    End,
    Backspace,
    Delete,
    Other,
}

/// The buffer and cursor (a character position) after `key` in a one-line text field.
pub open spec fn line_edit(buf: Seq<char>, cursor: usize, key: Key) -> (Seq<char>, usize) {
    match key {
        Key::Left => (buf, if cursor > 0 { (cursor - 1) as usize } else { 0 }),
        Key::Right => (buf, if cursor + 1 <= buf.len() { (cursor + 1) as usize } else { buf.len() as usize }),
        Key::Home => (buf, 0),
        Key::End => (buf, buf.len() as usize),
        Key::Backspace => if cursor > 0 {
            (buf.remove(cursor - 1), (cursor - 1) as usize)
        } else {
            (buf, cursor)
        },
        Key::Delete => if cursor < buf.len() {
            (buf.remove(cursor as int), cursor)
        } else {
            (buf, cursor)
        },
        Key::Char(c) => (buf.insert(cursor as int, c), (cursor + 1) as usize),
        _ => (buf, cursor),
    }
}

/// Whether `key` edits a one-line text field at all.
pub open spec fn is_edit_key(key: Key) -> bool {
    key is Left || key is Right || key is Home || key is End || key is Backspace || key is Delete
        || key is Char
}

/// Editing is possible without overflow: the cursor lies within the text, and
/// stepping right or typing does not overflow it.
pub open spec fn line_key_ok(buf: Seq<char>, cursor: usize, key: Key) -> bool {
    &&& cursor <= buf.len()
    &&& (key is Char || key is Right) ==> cursor < usize::MAX
}

/// Applies an editing key to a one-line text field; other keys leave it as it is.
/// The cursor stays within the text.
pub fn edit_line(buffer: &mut String, cursor: &mut usize, key: Key)
    requires
        line_key_ok(old(buffer)@, *old(cursor), key),
    ensures
        (final(buffer)@, *final(cursor)) == line_edit(old(buffer)@, *old(cursor), key),
        *final(cursor) <= final(buffer)@.len(),
{
    match key {
        Key::Left => {
            *cursor = if *cursor > 0 { *cursor - 1 } else { 0 };
        },
        Key::Right => {
            let count = char_count(buffer);
            *cursor = if *cursor + 1 <= count { *cursor + 1 } else { count };
        },
        Key::Home => {
            *cursor = 0;
        },
        Key::End => {
            *cursor = char_count(buffer);
        },
        Key::Backspace => {
            if *cursor > 0 {
                let byte_index = char_byte_index(buffer.as_str(), *cursor - 1);
                string_remove(buffer, byte_index);
                *cursor = *cursor - 1;
            }
        },
        Key::Delete => {
            if *cursor < char_count(buffer) {
                let byte_index = char_byte_index(buffer.as_str(), *cursor);
                string_remove(buffer, byte_index);
            }
        },
        Key::Char(c) => {
            let byte_index = char_byte_index(buffer.as_str(), *cursor);
            string_insert(buffer, byte_index, c);
            *cursor = *cursor + 1;
        },
        _ => {},
    }
}

/// Rust's `%` on integers: the remainder takes the sign of the dividend.
pub open spec fn trunc_rem(a: int, b: int) -> int {
    if a >= 0 {
        a % b
    } else {
        -((-a) % b)
    }
}

/// The position `delta` steps from `current` in a list of `len`, wrapping around,
/// computed in `i32` as the list dialogs do.
pub open spec fn wrap_spec(current: usize, delta: i32, len: usize) -> usize {
    if len == 0 {
        0
    } else {
        let c = (current as i32) as int;
        let l = (len as i32) as int;
        trunc_rem(trunc_rem(c + delta, l) + l, l) as usize
    }
}

/// The `i32` arithmetic of `wrap_index` does not overflow.
pub open spec fn wrap_ok(current: usize, delta: i32, len: usize) -> bool {
    len == 0 || ({
        let c = (current as i32) as int;
        let l = (len as i32) as int;
        &&& i32::MIN <= c + delta <= i32::MAX
        &&& l > 0
        &&& trunc_rem(c + delta, l) + l <= i32::MAX
    })
}

/// Moves `delta` steps from `current` in a list of `len` entries, wrapping around.
/// For lengths and positions that fit in an `i32`, this is `(current + delta)`
/// modulo `len`, always a valid position.
pub fn wrap_index(current: usize, delta: i32, len: usize) -> (r: usize)
    requires
        wrap_ok(current, delta, len),
    ensures
        r == wrap_spec(current, delta, len),
        (len > 0 && current <= i32::MAX && len <= i32::MAX) ==> r == (current + delta) % (len as int) && r
            < len,
{
    if len == 0 {
        return 0;
    }
    let signed_len = len as i32;
    let r = (((current as i32 + delta) % signed_len + signed_len) % signed_len) as usize;
    proof {
        if current <= i32::MAX && len <= i32::MAX {
            lemma_wrap_is_mod(current as int + delta, len as int);
        }
    }
    r
}

proof fn lemma_wrap_is_mod(a: int, l: int)
    requires
        l > 0,
        a + l >= 0 || trunc_rem(a, l) + l >= 0,
    ensures
        trunc_rem(trunc_rem(a, l) + l, l) == a % l,
        0 <= a % l < l,
{
    vstd::arithmetic::div_mod::lemma_mod_bound(a, l);
    let r = trunc_rem(a, l);
    if a >= 0 {
        vstd::arithmetic::div_mod::lemma_mod_bound(a, l);
        vstd::arithmetic::div_mod::lemma_mod_add_multiples_vanish(a % l, l);
        vstd::arithmetic::div_mod::lemma_small_mod((a % l) as nat, l as nat);
    } else {
        let q = (-a) / l;
        let m = (-a) % l;
        vstd::arithmetic::div_mod::lemma_mod_bound(-a, l);
        vstd::arithmetic::div_mod::lemma_fundamental_div_mod(-a, l);
        assert(-a == l * q + m);
        if m == 0 {
            assert(a == (-q) * l + 0) by (nonlinear_arith)
                requires
                    -a == l * q + m,
                    m == 0,
            ;
            vstd::arithmetic::div_mod::lemma_fundamental_div_mod_converse_mod(a, l, -q, 0);
            vstd::arithmetic::div_mod::lemma_mod_self_0(l);
        } else {
            assert(a == (-q - 1) * l + (l - m)) by (nonlinear_arith)
                requires
                    -a == l * q + m,
            ;
            vstd::arithmetic::div_mod::lemma_fundamental_div_mod_converse_mod(a, l, -q - 1, l - m);
            vstd::arithmetic::div_mod::lemma_small_mod((l - m) as nat, l as nat);
        }
    }
}

/// Typing a character and then deleting it with backspace gives back the text
/// and cursor the field had before.
pub proof fn lemma_type_then_backspace(buf: Seq<char>, cursor: usize, c: char)
    requires
        line_key_ok(buf, cursor, Key::Char(c)),
    ensures
        ({
            let (b1, c1) = line_edit(buf, cursor, Key::Char(c));
            line_edit(b1, c1, Key::Backspace) == (buf, cursor)
        }),
{
    let (b1, c1) = line_edit(buf, cursor, Key::Char(c));
    assert(b1.remove(c1 - 1) =~= buf);
}

} // verus!
