//! Names for the key and button codes of Linux input events.

use vstd::prelude::*;

verus! {

/// Whether a key code is that of a Ctrl, Shift, Alt or Super key.
pub open spec fn is_modifier_code(code: u32) -> bool {
    ||| code == 29 || code == 97
    ||| code == 42 || code == 54
    ||| code == 56 || code == 100
    ||| code == 125 || code == 126
}

/// The name of a modifier key; left and right share it.
pub open spec fn modifier_label(code: u32) -> Seq<char> {
    match code {
        29 | 97 => "ctrl"@,
        42 | 54 => "shift"@,
        56 | 100 => "alt"@,
        125 | 126 => "super"@,
        _ => "modifier"@,
    }
}

/// Whether a key code is that of a key that types no character: escape, backspace, tab,
/// enter, caps lock, a function key, a key of the navigation block or a volume key.
pub open spec fn is_control_code(code: u32) -> bool {
    ||| code == 1 || code == 14 || code == 15 || code == 28 || code == 58
    ||| 59 <= code <= 68
    ||| code == 87 || code == 88 || code == 96
    ||| 102 <= code <= 111
    ||| 113 <= code <= 115
}

/// The name of a key, by what it says on a US keyboard.
pub open spec fn key_label(code: u32) -> Seq<char> {
    match code {
        1 => "escape"@,
        2 => "1"@,
        3 => "2"@,
        4 => "3"@,
        5 => "4"@,
        6 => "5"@,
        7 => "6"@,
        8 => "7"@,
        9 => "8"@,
        10 => "9"@,
        11 => "0"@,
        14 => "backspace"@,
        15 => "tab"@,
        16 => "q"@,
        17 => "w"@,
        18 => "e"@,
        19 => "r"@,
        20 => "t"@,
        21 => "y"@,
        22 => "u"@,
        23 => "i"@,
        24 => "o"@,
        25 => "p"@,
        28 | 96 => "enter"@,
        30 => "a"@,
        31 => "s"@,
        32 => "d"@,
        33 => "f"@,
        34 => "g"@,
        35 => "h"@,
        36 => "j"@,
        37 => "k"@,
        38 => "l"@,
        44 => "z"@,
        45 => "x"@,
        46 => "c"@,
        47 => "v"@,
        48 => "b"@,
        49 => "n"@,
        50 => "m"@,
        58 => "caps-lock"@,
        59 => "f1"@,
        60 => "f2"@,
        61 => "f3"@,
        62 => "f4"@,
        63 => "f5"@,
        64 => "f6"@,
        65 => "f7"@,
        66 => "f8"@,
        67 => "f9"@,
        68 => "f10"@,
        87 => "f11"@,
        88 => "f12"@,
        102 => "home"@,
        103 => "up"@,
        104 => "page-up"@,
        105 => "left"@,
        106 => "right"@,
        107 => "end"@,
        108 => "down"@,
        109 => "page-down"@,
        110 => "insert"@,
        111 => "delete"@,
        113 => "mute"@,
        114 => "volume-down"@,
        115 => "volume-up"@,
        _ => "key"@,
    }
}

/// The name of a pointer button.
pub open spec fn button_label(code: u32) -> Seq<char> {
    match code {
        0x110 => "left"@,
        0x111 => "right"@,
        0x112 => "middle"@,
        0x113 => "side"@,
        0x114 => "extra"@,
        0x115 => "forward"@,
        0x116 => "back"@,
        _ => "other"@,
    }
}

/// Whether `code` is that of a modifier key.
pub fn is_modifier(code: u32) -> (r: bool)
    ensures
        r == is_modifier_code(code),
{
    matches!(code, 29 | 42 | 54 | 56 | 97 | 100 | 125 | 126)
}

/// The name of the modifier key `code`.
pub fn modifier_name(code: u32) -> (r: &'static str)
    ensures
        r@ == modifier_label(code),
{
    match code {
        29 | 97 => "ctrl",
        42 | 54 => "shift",
        56 | 100 => "alt",
        125 | 126 => "super",
        _ => "modifier",
    }
}

/// Whether the key `code` can be named without telling what is typed.
pub fn is_safe_control_key(code: u32) -> (r: bool)
    ensures
        r == is_control_code(code),
{
    matches!(code, 1 | 14 | 15 | 28 | 58 | 87 | 88 | 96) || (59 <= code && code <= 68) || (102
        <= code && code <= 111) || (113 <= code && code <= 115)
}

/// The name of the key `code`.
pub fn key_name(code: u32) -> (r: &'static str)
    ensures
        r@ == key_label(code),
{
    match code {
        1 => "escape",
        2 => "1",
        3 => "2",
        4 => "3",
        5 => "4",
        6 => "5",
        7 => "6",
        8 => "7",
        9 => "8",
        10 => "9",
        11 => "0",
        14 => "backspace",
        15 => "tab",
        16 => "q",
        17 => "w",
        18 => "e",
        19 => "r",
        20 => "t",
        21 => "y",
        22 => "u",
        23 => "i",
        24 => "o",
        25 => "p",
        28 | 96 => "enter",
        30 => "a",
        31 => "s",
        32 => "d",
        33 => "f",
        34 => "g",
        35 => "h",
        36 => "j",
        37 => "k",
        38 => "l",
        44 => "z",
        45 => "x",
        46 => "c",
        47 => "v",
        48 => "b",
        49 => "n",
        50 => "m",
        58 => "caps-lock",
        59 => "f1",
        60 => "f2",
        61 => "f3",
        62 => "f4",
        63 => "f5",
        64 => "f6",
        65 => "f7",
        66 => "f8",
        67 => "f9",
        68 => "f10",
        87 => "f11",
        88 => "f12",
        102 => "home",
        103 => "up",
        104 => "page-up",
        105 => "left",
        106 => "right",
        107 => "end",
        108 => "down",
        109 => "page-down",
        110 => "insert",
        111 => "delete",
        113 => "mute",
        114 => "volume-down",
        115 => "volume-up",
        _ => "key",
    }
}

/// The name of the pointer button `code`.
pub fn button_name(code: u32) -> (r: &'static str)
    ensures
        r@ == button_label(code),
{
    match code {
        0x110 => "left",
        0x111 => "right",
        0x112 => "middle",
        0x113 => "side",
        0x114 => "extra",
        0x115 => "forward",
        0x116 => "back",
        _ => "other",
    }
}

/// The keys that type a digit or a letter are named by it, row by row as they lie on a US
/// keyboard.
pub proof fn printable_keys_lie_in_rows(code: u32)
    ensures
        2 <= code <= 11 ==> key_label(code) == seq!["1234567890"@[code - 2]],
        16 <= code <= 25 ==> key_label(code) == seq!["qwertyuiop"@[code - 16]],
        30 <= code <= 38 ==> key_label(code) == seq!["asdfghjkl"@[code - 30]],
        44 <= code <= 50 ==> key_label(code) == seq!["zxcvbnm"@[code - 44]],
{
    reveal_strlit("1234567890");
    reveal_strlit("qwertyuiop");
    reveal_strlit("asdfghjkl");
    reveal_strlit("zxcvbnm");
    reveal_strlit("1");
    reveal_strlit("2");
    reveal_strlit("3");
    reveal_strlit("4");
    reveal_strlit("5");
    reveal_strlit("6");
    reveal_strlit("7");
    reveal_strlit("8");
    reveal_strlit("9");
    reveal_strlit("0");
    reveal_strlit("q");
    reveal_strlit("w");
    reveal_strlit("e");
    reveal_strlit("r");
    reveal_strlit("t");
    reveal_strlit("y");
    reveal_strlit("u");
    reveal_strlit("i");
    reveal_strlit("o");
    reveal_strlit("p");
    reveal_strlit("a");
    reveal_strlit("s");
    reveal_strlit("d");
    reveal_strlit("f");
    reveal_strlit("g");
    reveal_strlit("h");
    reveal_strlit("j");
    reveal_strlit("k");
    reveal_strlit("l");
    reveal_strlit("z");
    reveal_strlit("x");
    reveal_strlit("c");
    reveal_strlit("v");
    reveal_strlit("b");
    reveal_strlit("n");
    reveal_strlit("m");
    assert("1"@ =~= seq!["1234567890"@[0]]);
    assert("2"@ =~= seq!["1234567890"@[1]]);
    assert("3"@ =~= seq!["1234567890"@[2]]);
    assert("4"@ =~= seq!["1234567890"@[3]]);
    assert("5"@ =~= seq!["1234567890"@[4]]);
    assert("6"@ =~= seq!["1234567890"@[5]]);
    assert("7"@ =~= seq!["1234567890"@[6]]);
    assert("8"@ =~= seq!["1234567890"@[7]]);
    assert("9"@ =~= seq!["1234567890"@[8]]);
    assert("0"@ =~= seq!["1234567890"@[9]]);
    assert("q"@ =~= seq!["qwertyuiop"@[0]]);
    assert("w"@ =~= seq!["qwertyuiop"@[1]]);
    assert("e"@ =~= seq!["qwertyuiop"@[2]]);
    assert("r"@ =~= seq!["qwertyuiop"@[3]]);
    assert("t"@ =~= seq!["qwertyuiop"@[4]]);
    assert("y"@ =~= seq!["qwertyuiop"@[5]]);
    assert("u"@ =~= seq!["qwertyuiop"@[6]]);
    assert("i"@ =~= seq!["qwertyuiop"@[7]]);
    assert("o"@ =~= seq!["qwertyuiop"@[8]]);
    assert("p"@ =~= seq!["qwertyuiop"@[9]]);
    assert("a"@ =~= seq!["asdfghjkl"@[0]]);
    assert("s"@ =~= seq!["asdfghjkl"@[1]]);
    assert("d"@ =~= seq!["asdfghjkl"@[2]]);
    assert("f"@ =~= seq!["asdfghjkl"@[3]]);
    assert("g"@ =~= seq!["asdfghjkl"@[4]]);
    assert("h"@ =~= seq!["asdfghjkl"@[5]]);
    assert("j"@ =~= seq!["asdfghjkl"@[6]]);
    assert("k"@ =~= seq!["asdfghjkl"@[7]]);
    assert("l"@ =~= seq!["asdfghjkl"@[8]]);
    assert("z"@ =~= seq!["zxcvbnm"@[0]]);
    assert("x"@ =~= seq!["zxcvbnm"@[1]]);
    assert("c"@ =~= seq!["zxcvbnm"@[2]]);
    assert("v"@ =~= seq!["zxcvbnm"@[3]]);
    assert("b"@ =~= seq!["zxcvbnm"@[4]]);
    assert("n"@ =~= seq!["zxcvbnm"@[5]]);
    assert("m"@ =~= seq!["zxcvbnm"@[6]]);
}

/// The function keys, the keys of the navigation block in their order, the volume keys, and the
/// few others that type nothing, have their names; what is neither these nor printable is called
/// `key`.
pub proof fn other_keys_have_their_names(code: u32)
    ensures
        59 <= code <= 68 ==> key_label(code) == seq![
            "f1"@, "f2"@, "f3"@, "f4"@, "f5"@, "f6"@, "f7"@, "f8"@, "f9"@, "f10"@
        ][code - 59],
        102 <= code <= 111 ==> key_label(code) == seq![
            "home"@, "up"@, "page-up"@, "left"@, "right"@, "end"@, "down"@, "page-down"@, "insert"@, "delete"@
        ][code - 102],
        113 <= code <= 115 ==> key_label(code) == seq!["mute"@, "volume-down"@, "volume-up"@][code - 113],
        code == 1 ==> key_label(code) == "escape"@,
        code == 14 ==> key_label(code) == "backspace"@,
        code == 15 ==> key_label(code) == "tab"@,
        code == 28 ==> key_label(code) == "enter"@,
        code == 96 ==> key_label(code) == "enter"@,
        code == 58 ==> key_label(code) == "caps-lock"@,
        code == 87 ==> key_label(code) == "f11"@,
        code == 88 ==> key_label(code) == "f12"@,
        !is_control_code(code) && !(2 <= code <= 11) && !(16 <= code <= 25) && !(30 <= code <= 38)
            && !(44 <= code <= 50) ==> key_label(code) == "key"@,
{
}

/// A control key is never named by a character: its name is longer than one. Keys that type a
/// digit or a letter are no control keys.
pub proof fn control_keys_type_nothing(code: u32)
    ensures
        is_control_code(code) <==> code == 1 || code == 14 || code == 15 || code == 28 || code == 58
            || 59 <= code <= 68 || code == 87 || code == 88 || code == 96 || 102 <= code <= 111
            || 113 <= code <= 115,
        is_control_code(code) ==> key_label(code).len() > 1,
        key_label(code).len() == 1 ==> !is_control_code(code) && !is_modifier_code(code),
{
    reveal_strlit("backspace");
    reveal_strlit("caps-lock");
    reveal_strlit("delete");
    reveal_strlit("down");
    reveal_strlit("end");
    reveal_strlit("enter");
    reveal_strlit("escape");
    reveal_strlit("f1");
    reveal_strlit("f10");
    reveal_strlit("f11");
    reveal_strlit("f12");
    reveal_strlit("f2");
    reveal_strlit("f3");
    reveal_strlit("f4");
    reveal_strlit("f5");
    reveal_strlit("f6");
    reveal_strlit("f7");
    reveal_strlit("f8");
    reveal_strlit("f9");
    reveal_strlit("home");
    reveal_strlit("insert");
    reveal_strlit("left");
    reveal_strlit("mute");
    reveal_strlit("page-down");
    reveal_strlit("page-up");
    reveal_strlit("right");
    reveal_strlit("tab");
    reveal_strlit("up");
    reveal_strlit("volume-down");
    reveal_strlit("volume-up");
    reveal_strlit("key");
    printable_keys_lie_in_rows(code);
}

/// The modifier keys are the two of each of Ctrl, Shift, Alt and Super, named alike on both sides.
pub proof fn modifiers_come_in_pairs(code: u32)
    ensures
        is_modifier_code(code) <==> seq![29u32, 97u32, 42u32, 54u32, 56u32, 100u32, 125u32, 126u32].contains(
            code,
        ),
        code == 29 || code == 97 ==> modifier_label(code) == "ctrl"@,
        code == 42 || code == 54 ==> modifier_label(code) == "shift"@,
        code == 56 || code == 100 ==> modifier_label(code) == "alt"@,
        code == 125 || code == 126 ==> modifier_label(code) == "super"@,
        !is_modifier_code(code) ==> modifier_label(code) == "modifier"@,
{
    let all = seq![29u32, 97u32, 42u32, 54u32, 56u32, 100u32, 125u32, 126u32];
    assert(all[0] == 29 && all[1] == 97 && all[2] == 42 && all[3] == 54 && all[4] == 56 && all[5]
        == 100 && all[6] == 125 && all[7] == 126);
}

/// The pointer buttons are numbered in a row from 0x110 on; beyond the row there are others.
pub proof fn buttons_lie_in_a_row(code: u32)
    ensures
        0x110 <= code <= 0x116 ==> button_label(code) == seq![
            "left"@,
            "right"@,
            "middle"@,
            "side"@,
            "extra"@,
            "forward"@,
            "back"@,
        ][code - 0x110],
        !(0x110 <= code <= 0x116) ==> button_label(code) == "other"@,
{
}

} // verus!
