//! Names of macOS virtual key codes.
use vstd::prelude::*;

verus! {

/// The character of a decimal digit `d` (`0 <= d < 10`).
pub open spec fn digit_char(d: nat) -> char {
    if d == 0 { '0' }
    else if d == 1 { '1' }
    else if d == 2 { '2' }
    else if d == 3 { '3' }
    else if d == 4 { '4' }
    else if d == 5 { '5' }
    else if d == 6 { '6' }
    else if d == 7 { '7' }
    else if d == 8 { '8' }
    else { '9' }
}

/// Decimal notation of a natural number, most significant digit first,
/// without leading zeros (zero is written "0").
pub open spec fn decimal(n: nat) -> Seq<char>
    decreases n,
{
    if n < 10 {
        seq![digit_char(n)]
    } else {
        decimal(n / 10).push(digit_char(n % 10))
    }
}

/// The name that a known key code carries, or `None` for a code outside
/// the table (positional, QWERTY-based hardware codes).
pub open spec fn known_key_name(code: u16) -> Option<Seq<char>> {
    match code {
        0 => Some("A"@), 1 => Some("S"@), 2 => Some("D"@), 3 => Some("F"@), 5 => Some("G"@),
        4 => Some("H"@), 38 => Some("J"@), 40 => Some("K"@), 37 => Some("L"@),
        12 => Some("Q"@), 13 => Some("W"@), 14 => Some("E"@), 15 => Some("R"@), 17 => Some("T"@),
        16 => Some("Y"@), 32 => Some("U"@), 34 => Some("I"@), 31 => Some("O"@), 35 => Some("P"@),
        6 => Some("Z"@), 7 => Some("X"@), 8 => Some("C"@), 9 => Some("V"@), 11 => Some("B"@),
        45 => Some("N"@), 46 => Some("M"@),
        18 => Some("1"@), 19 => Some("2"@), 20 => Some("3"@), 21 => Some("4"@), 23 => Some("5"@),
        22 => Some("6"@), 26 => Some("7"@), 28 => Some("8"@), 25 => Some("9"@), 29 => Some("0"@),
        43 => Some(","@), 47 => Some("."@), 44 => Some("/"@), 41 => Some(";"@), 39 => Some("'"@),
        33 => Some("["@), 30 => Some("]"@), 42 => Some("\\"@), 50 => Some("`"@), 27 => Some("-"@),
        24 => Some("="@),
        49 => Some(" "@), 36 => Some("Enter"@), 51 => Some("Backspace"@), 48 => Some("Tab"@),
        53 => Some("Escape"@),
        55 | 54 => Some("Meta"@),
        56 | 60 => Some("Shift"@),
        59 | 62 => Some("Control"@),
        58 | 61 => Some("Alt"@),
        57 => Some("CapsLock"@),
        63 => Some("Fn"@),
        126 => Some("ArrowUp"@), 125 => Some("ArrowDown"@), 123 => Some("ArrowLeft"@),
        124 => Some("ArrowRight"@),
        115 => Some("Home"@), 119 => Some("End"@), 116 => Some("PageUp"@), 121 => Some("PageDown"@),
        117 => Some("Delete"@),
        122 => Some("F1"@), 120 => Some("F2"@), 99 => Some("F3"@), 118 => Some("F4"@),
        96 => Some("F5"@), 97 => Some("F6"@), 98 => Some("F7"@), 100 => Some("F8"@),
        101 => Some("F9"@), 109 => Some("F10"@), 103 => Some("F11"@), 111 => Some("F12"@),
        _ => None,
    }
}

/// The name given to a code outside the table: `Unknown(<decimal code>)`.
pub open spec fn unknown_key_name(code: u16) -> Seq<char> {
    "Unknown("@ + decimal(code as nat) + ")"@
}

/// The human-readable name of a key code.
pub open spec fn key_name(code: u16) -> Seq<char> {
    match known_key_name(code) {
        Some(name) => name,
        None => unknown_key_name(code),
    }
}

/// The codes of the modifier keys (left/right Meta, Shift, Control, Alt,
/// CapsLock and Fn), which report changes through flag events.
pub open spec fn is_modifier_code(code: u16) -> bool {
    54 <= code <= 63
}

/// Appends the decimal notation of `n` to `out`.
fn append_decimal(out: &mut String, n: u16)
    ensures
        final(out)@ == old(out)@ + decimal(n as nat),
    decreases n,
{
    if n >= 10 {
        append_decimal(out, n / 10);
    }
    let d: u16 = n % 10;
    let digit: &str = match d {
        0 => "0",
        1 => "1",
        2 => "2",
        3 => "3",
        4 => "4",
        5 => "5",
        6 => "6",
        7 => "7",
        8 => "8",
        _ => "9",
    };
    proof {
        reveal_strlit("0");
        reveal_strlit("1");
        reveal_strlit("2");
        reveal_strlit("3");
        reveal_strlit("4");
        reveal_strlit("5");
        reveal_strlit("6");
        reveal_strlit("7");
        reveal_strlit("8");
        reveal_strlit("9");
        assert(digit@ =~= seq![digit_char(d as nat)]);
    }
    out.append(digit);
    proof {
        if n >= 10 {
            assert(decimal(n as nat) == decimal((n / 10) as nat).push(digit_char((n % 10) as nat)));
        }
        assert(out@ =~= old(out)@ + decimal(n as nat));
    }
}

/// The table entry of a key code, if it has one.
fn known_name(code: u16) -> (r: Option<&'static str>)
    ensures
        match r {
            Some(s) => known_key_name(code) == Some(s@),
            None => known_key_name(code) is None,
        },
{
    match code {
        0 => Some("A"), 1 => Some("S"), 2 => Some("D"), 3 => Some("F"), 5 => Some("G"),
        4 => Some("H"), 38 => Some("J"), 40 => Some("K"), 37 => Some("L"),
        12 => Some("Q"), 13 => Some("W"), 14 => Some("E"), 15 => Some("R"), 17 => Some("T"),
        16 => Some("Y"), 32 => Some("U"), 34 => Some("I"), 31 => Some("O"), 35 => Some("P"),
        6 => Some("Z"), 7 => Some("X"), 8 => Some("C"), 9 => Some("V"), 11 => Some("B"),
        45 => Some("N"), 46 => Some("M"),
        18 => Some("1"), 19 => Some("2"), 20 => Some("3"), 21 => Some("4"), 23 => Some("5"),
        22 => Some("6"), 26 => Some("7"), 28 => Some("8"), 25 => Some("9"), 29 => Some("0"),
        43 => Some(","), 47 => Some("."), 44 => Some("/"), 41 => Some(";"), 39 => Some("'"),
        33 => Some("["), 30 => Some("]"), 42 => Some("\\"), 50 => Some("`"), 27 => Some("-"),
        24 => Some("="),
        49 => Some(" "), 36 => Some("Enter"), 51 => Some("Backspace"), 48 => Some("Tab"),
        53 => Some("Escape"),
        55 | 54 => Some("Meta"),
        56 | 60 => Some("Shift"),
        59 | 62 => Some("Control"),
        58 | 61 => Some("Alt"),
        57 => Some("CapsLock"),
        63 => Some("Fn"),
        126 => Some("ArrowUp"), 125 => Some("ArrowDown"), 123 => Some("ArrowLeft"),
        124 => Some("ArrowRight"),
        115 => Some("Home"), 119 => Some("End"), 116 => Some("PageUp"), 121 => Some("PageDown"),
        117 => Some("Delete"),
        122 => Some("F1"), 120 => Some("F2"), 99 => Some("F3"), 118 => Some("F4"),
        96 => Some("F5"), 97 => Some("F6"), 98 => Some("F7"), 100 => Some("F8"),
        101 => Some("F9"), 109 => Some("F10"), 103 => Some("F11"), 111 => Some("F12"),
        _ => None,
    }
}

/// Maps a macOS virtual key code to a human-readable name; codes outside
/// the table are named `Unknown(<code>)`.
pub fn keycode_to_name(code: u16) -> (name: String)
    ensures
        name@ == key_name(code),
{
    match known_name(code) {
        Some(s) => String::from_str(s),
        None => {
            let mut out = String::from_str("Unknown(");
            append_decimal(&mut out, code);
            out.append(")");
            out
        },
    }
}

/// Whether a key code belongs to a modifier key.
pub fn is_modifier(code: u16) -> (r: bool)
    ensures
        r == is_modifier_code(code),
{
    54 <= code && code <= 63
}

/// The key that shares its name with a modifier code: the left and right
/// keys of Meta, Shift, Control and Alt are paired; every other code is its
/// own partner.
pub open spec fn modifier_partner(code: u16) -> u16 {
    match code {
        54 => 55u16,
        55 => 54u16,
        56 => 60u16,
        60 => 56u16,
        59 => 62u16,
        62 => 59u16,
        58 => 61u16,
        61 => 58u16,
        _ => code,
    }
}

/// The names of the modifier keys.
pub open spec fn is_modifier_name(name: Seq<char>) -> bool {
    ||| name == "Meta"@
    ||| name == "Shift"@
    ||| name == "Control"@
    ||| name == "Alt"@
    ||| name == "CapsLock"@
    ||| name == "Fn"@
}

/// Length, first and last character of a name: enough to tell every name
/// of the table apart.
pub open spec fn fingerprint(s: Seq<char>) -> (nat, char, char) {
    (s.len(), s[0], s[s.len() - 1])
}

/// The code (left key for paired modifiers) whose table name has the given
/// fingerprint.
pub open spec fn code_of_fingerprint(f: (nat, char, char)) -> u16 {
    let (len, first, last) = f;
    if len == 1 {
        match first {
            'A' => 0u16, 'S' => 1u16, 'D' => 2u16, 'F' => 3u16, 'G' => 5u16, 'H' => 4u16,
            'J' => 38u16, 'K' => 40u16, 'L' => 37u16, 'Q' => 12u16, 'W' => 13u16, 'E' => 14u16,
            'R' => 15u16, 'T' => 17u16, 'Y' => 16u16, 'U' => 32u16, 'I' => 34u16, 'O' => 31u16,
            'P' => 35u16, 'Z' => 6u16, 'X' => 7u16, 'C' => 8u16, 'V' => 9u16, 'B' => 11u16,
            'N' => 45u16, 'M' => 46u16,
            '1' => 18u16, '2' => 19u16, '3' => 20u16, '4' => 21u16, '5' => 23u16,
            '6' => 22u16, '7' => 26u16, '8' => 28u16, '9' => 25u16, '0' => 29u16,
            ',' => 43u16, '.' => 47u16, '/' => 44u16, ';' => 41u16, '\'' => 39u16,
            '[' => 33u16, ']' => 30u16, '\\' => 42u16, '`' => 50u16, '-' => 27u16,
            '=' => 24u16, ' ' => 49u16,
            _ => 0xffffu16,
        }
    } else if len == 2 {
        match last {
            '1' => 122u16, '2' => 120u16, '3' => 99u16, '4' => 118u16, '5' => 96u16,
            '6' => 97u16, '7' => 98u16, '8' => 100u16, '9' => 101u16, 'n' => 63u16,
            _ => 0xffffu16,
        }
    } else if len == 3 {
        match last {
            '0' => 109u16, '1' => 103u16, '2' => 111u16, 'b' => 48u16, 't' => 58u16,
            'd' => 119u16,
            _ => 0xffffu16,
        }
    } else if len == 4 {
        if first == 'M' { 55u16 } else { 115u16 }
    } else if len == 5 {
        if first == 'E' { 36u16 } else { 56u16 }
    } else if len == 6 {
        if first == 'E' { 53u16 } else if first == 'P' { 116u16 } else { 117u16 }
    } else if len == 7 {
        if first == 'C' { 59u16 } else { 126u16 }
    } else if len == 8 {
        if first == 'C' { 57u16 } else { 121u16 }
    } else if len == 9 {
        if first == 'B' { 51u16 } else if last == 'n' { 125u16 } else { 123u16 }
    } else if len == 10 && last == 't' {
        124u16
    } else {
        0xffffu16
    }
}

/// The left key of a paired modifier; the code itself otherwise.
pub open spec fn canonical_code(code: u16) -> u16 {
    match code {
        54 => 55u16,
        60 => 56u16,
        62 => 59u16,
        61 => 58u16,
        _ => code,
    }
}

proof fn lemma_known_fingerprint(code: u16)
    requires
        known_key_name(code) is Some,
    ensures
        code_of_fingerprint(fingerprint(key_name(code))) == canonical_code(code),
        key_name(code).len() <= 10,
        key_name(code)[key_name(code).len() - 1] != ')',
{
    reveal_strlit("A"); reveal_strlit("S"); reveal_strlit("D"); reveal_strlit("F");
    reveal_strlit("G"); reveal_strlit("H"); reveal_strlit("J"); reveal_strlit("K");
    reveal_strlit("L"); reveal_strlit("Q"); reveal_strlit("W"); reveal_strlit("E");
    reveal_strlit("R"); reveal_strlit("T"); reveal_strlit("Y"); reveal_strlit("U");
    reveal_strlit("I"); reveal_strlit("O"); reveal_strlit("P"); reveal_strlit("Z");
    reveal_strlit("X"); reveal_strlit("C"); reveal_strlit("V"); reveal_strlit("B");
    reveal_strlit("N"); reveal_strlit("M");
    reveal_strlit("1"); reveal_strlit("2"); reveal_strlit("3"); reveal_strlit("4");
    reveal_strlit("5"); reveal_strlit("6"); reveal_strlit("7"); reveal_strlit("8");
    reveal_strlit("9"); reveal_strlit("0");
    reveal_strlit(","); reveal_strlit("."); reveal_strlit("/"); reveal_strlit(";");
    reveal_strlit("'"); reveal_strlit("["); reveal_strlit("]"); reveal_strlit("\\");
    reveal_strlit("`"); reveal_strlit("-"); reveal_strlit("="); reveal_strlit(" ");
    reveal_strlit("Enter"); reveal_strlit("Backspace"); reveal_strlit("Tab");
    reveal_strlit("Escape"); reveal_strlit("Meta"); reveal_strlit("Shift");
    reveal_strlit("Control"); reveal_strlit("Alt"); reveal_strlit("CapsLock");
    reveal_strlit("Fn"); reveal_strlit("ArrowUp"); reveal_strlit("ArrowDown");
    reveal_strlit("ArrowLeft"); reveal_strlit("ArrowRight"); reveal_strlit("Home");
    reveal_strlit("End"); reveal_strlit("PageUp"); reveal_strlit("PageDown");
    reveal_strlit("Delete");
    reveal_strlit("F1"); reveal_strlit("F2"); reveal_strlit("F3"); reveal_strlit("F4");
    reveal_strlit("F5"); reveal_strlit("F6"); reveal_strlit("F7"); reveal_strlit("F8");
    reveal_strlit("F9"); reveal_strlit("F10"); reveal_strlit("F11"); reveal_strlit("F12");
}

proof fn lemma_decimal_shape(n: nat)
    ensures
        decimal(n).len() >= 1,
        decimal(n)[decimal(n).len() - 1] == digit_char(n % 10),
        n < 10 ==> decimal(n).len() == 1,
        n >= 10 ==> decimal(n).len() >= 2 && decimal(n).drop_last() == decimal(n / 10),
    decreases n,
{
    if n >= 10 {
        lemma_decimal_shape(n / 10);
    }
}

proof fn lemma_decimal_injective(a: nat, b: nat)
    requires
        decimal(a) == decimal(b),
    ensures
        a == b,
    decreases a,
{
    lemma_decimal_shape(a);
    lemma_decimal_shape(b);
    assert(digit_char(a % 10) == digit_char(b % 10));
    assert(a % 10 == b % 10);
    if a >= 10 && b >= 10 {
        lemma_decimal_injective(a / 10, b / 10);
    }
}

proof fn lemma_unknown_shape(code: u16)
    ensures
        unknown_key_name(code).len() >= 10,
        unknown_key_name(code)[0] == 'U',
        unknown_key_name(code)[unknown_key_name(code).len() - 1] == ')',
        unknown_key_name(code).subrange(8, unknown_key_name(code).len() - 1) == decimal(code as nat),
{
    reveal_strlit("Unknown(");
    reveal_strlit(")");
    lemma_decimal_shape(code as nat);
    let s = unknown_key_name(code);
    assert(s.subrange(8, s.len() - 1) =~= decimal(code as nat));
}

/// Two key codes share a name only when they are the same key or the left
/// and right keys of one modifier.
pub proof fn lemma_key_names_identify_keys(a: u16, b: u16)
    requires
        key_name(a) == key_name(b),
    ensures
        a == b || b == modifier_partner(a),
{
    match (known_key_name(a), known_key_name(b)) {
        (Some(_), Some(_)) => {
            lemma_known_fingerprint(a);
            lemma_known_fingerprint(b);
        },
        (Some(_), None) => {
            lemma_known_fingerprint(a);
            lemma_unknown_shape(b);
        },
        (None, Some(_)) => {
            lemma_known_fingerprint(b);
            lemma_unknown_shape(a);
        },
        (None, None) => {
            lemma_unknown_shape(a);
            lemma_unknown_shape(b);
            lemma_decimal_injective(a as nat, b as nat);
        },
    }
}

/// A key code belongs to a modifier key exactly when its name is one of the
/// modifier names (Meta, Shift, Control, Alt, CapsLock, Fn).
pub proof fn lemma_modifier_codes_have_modifier_names(code: u16)
    ensures
        is_modifier_code(code) <==> is_modifier_name(key_name(code)),
{
    if is_modifier_name(key_name(code)) {
        if key_name(code) == "Meta"@ {
            lemma_key_names_identify_keys(code, 55);
        } else if key_name(code) == "Shift"@ {
            lemma_key_names_identify_keys(code, 56);
        } else if key_name(code) == "Control"@ {
            lemma_key_names_identify_keys(code, 59);
        } else if key_name(code) == "Alt"@ {
            lemma_key_names_identify_keys(code, 58);
        } else if key_name(code) == "CapsLock"@ {
            lemma_key_names_identify_keys(code, 57);
        } else {
            lemma_key_names_identify_keys(code, 63);
        }
    }
}

/// Exactly these 83 codes have names of their own: 0 to 63 except 10 and
/// 52, 96 to 101, 103, 109, 111 and 115 to 126. Every other code is named
/// `Unknown(<code>)`.
pub proof fn lemma_named_codes(code: u16)
    ensures
        known_key_name(code) is Some <==> ((code <= 63 && code != 10 && code != 52) || (96 <= code <= 101) || code
            == 103 || code == 109 || code == 111 || (115 <= code <= 126)),
        known_key_name(code) is None ==> key_name(code) == unknown_key_name(code),
{
}

/// Every code that a name's fingerprint points back to has a name of its
/// own: no entry of the table is missing.
pub proof fn lemma_fingerprint_codes_are_named(f: (nat, char, char))
    ensures
        code_of_fingerprint(f) != 0xffff ==> known_key_name(code_of_fingerprint(f)) is Some,
{
}

/// The number a decimal digit stands for.
pub open spec fn digit_value(c: char) -> nat {
    if c == '1' { 1 }
    else if c == '2' { 2 }
    else if c == '3' { 3 }
    else if c == '4' { 4 }
    else if c == '5' { 5 }
    else if c == '6' { 6 }
    else if c == '7' { 7 }
    else if c == '8' { 8 }
    else if c == '9' { 9 }
    else { 0 }
}

/// Whether a character is a decimal digit.
pub open spec fn is_digit(c: char) -> bool {
    '0' <= c && c <= '9'
}

/// The number a string of decimal digits stands for, most significant
/// digit first.
pub open spec fn decimal_value(s: Seq<char>) -> nat
    decreases s.len(),
{
    if s.len() == 0 {
        0
    } else {
        decimal_value(s.drop_last()) * 10 + digit_value(s.last())
    }
}

/// The number in an unknown key's name is the code itself, written in
/// decimal digits, most significant first, without leading zeros.
pub proof fn lemma_decimal_reads_back(n: nat)
    ensures
        decimal_value(decimal(n)) == n,
        forall|i: int| 0 <= i < decimal(n).len() ==> is_digit(#[trigger] decimal(n)[i]),
        n > 0 ==> decimal(n)[0] != '0',
    decreases n,
{
    if n >= 10 {
        lemma_decimal_reads_back(n / 10);
        let d = decimal(n);
        assert(d.drop_last() =~= decimal(n / 10));
        assert(d[0] == decimal(n / 10)[0]);
        assert(d.last() == digit_char(n % 10));
        assert(digit_value(digit_char(n % 10)) == n % 10);
        assert(decimal_value(d) == decimal_value(d.drop_last()) * 10 + digit_value(d.last()));
        assert(n == (n / 10) * 10 + n % 10);
    } else {
        let d = decimal(n);
        assert(d.drop_last() =~= Seq::<char>::empty());
        assert(decimal_value(d) == decimal_value(d.drop_last()) * 10 + digit_value(d.last()));
    }
}

} // verus!
