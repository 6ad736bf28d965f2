//! How the platforms' keycodes relate: Windows virtual-key codes of
//! letters and digits are their ASCII codes, which also spell the keys'
//! names; X11 and macOS keycodes follow the keyboard's physical rows.

use vstd::prelude::*;

use crate::keys::{key_from_name_spec, key_name, lemma_key_name_round_trip};
use crate::platform::{linux, macos, windows};

verus! {

/// The name of the key a letter or digit stands for: `Key` then the letter,
/// or `Num` then the digit.
pub open spec fn ascii_key_name(c: char) -> Seq<char> {
    if 'A' <= c <= 'Z' {
        "Key"@.push(c)
    } else {
        "Num"@.push(c)
    }
}

/// The Windows virtual-key code of a letter or digit is its ASCII code, and
/// the key it stands for is named after that character; reading the name
/// back gives the same key.
pub proof fn lemma_windows_letters_and_digits_name_their_keys(c: u32)
    requires
        (0x41 <= c <= 0x5A) || (0x30 <= c <= 0x39),
    ensures
        key_name(windows::key_from_code_spec(c)) == ascii_key_name(c as char),
        key_from_name_spec(ascii_key_name(c as char)) == Some(windows::key_from_code_spec(c)),
{
    reveal_strlit("Key");
    reveal_strlit("Num");

    if c == 65 {
        reveal_strlit("KeyA");
        assert(ascii_key_name(c as char) =~= "KeyA"@);
    }
    if c == 66 {
        reveal_strlit("KeyB");
        assert(ascii_key_name(c as char) =~= "KeyB"@);
    }
    if c == 67 {
        reveal_strlit("KeyC");
        assert(ascii_key_name(c as char) =~= "KeyC"@);
    }
    if c == 68 {
        reveal_strlit("KeyD");
        assert(ascii_key_name(c as char) =~= "KeyD"@);
    }
    if c == 69 {
        reveal_strlit("KeyE");
        assert(ascii_key_name(c as char) =~= "KeyE"@);
    }
    if c == 70 {
        reveal_strlit("KeyF");
        assert(ascii_key_name(c as char) =~= "KeyF"@);
    }
    if c == 71 {
        reveal_strlit("KeyG");
        assert(ascii_key_name(c as char) =~= "KeyG"@);
    }
    if c == 72 {
        reveal_strlit("KeyH");
        assert(ascii_key_name(c as char) =~= "KeyH"@);
    }
    if c == 73 {
        reveal_strlit("KeyI");
        assert(ascii_key_name(c as char) =~= "KeyI"@);
    }
    if c == 74 {
        reveal_strlit("KeyJ");
        assert(ascii_key_name(c as char) =~= "KeyJ"@);
    }
    if c == 75 {
        reveal_strlit("KeyK");
        assert(ascii_key_name(c as char) =~= "KeyK"@);
    }
    if c == 76 {
        reveal_strlit("KeyL");
        assert(ascii_key_name(c as char) =~= "KeyL"@);
    }
    if c == 77 {
        reveal_strlit("KeyM");
        assert(ascii_key_name(c as char) =~= "KeyM"@);
    }
    if c == 78 {
        reveal_strlit("KeyN");
        assert(ascii_key_name(c as char) =~= "KeyN"@);
    }
    if c == 79 {
        reveal_strlit("KeyO");
        assert(ascii_key_name(c as char) =~= "KeyO"@);
    }
    if c == 80 {
        reveal_strlit("KeyP");
        assert(ascii_key_name(c as char) =~= "KeyP"@);
    }
    if c == 81 {
        reveal_strlit("KeyQ");
        assert(ascii_key_name(c as char) =~= "KeyQ"@);
    }
    if c == 82 {
        reveal_strlit("KeyR");
        assert(ascii_key_name(c as char) =~= "KeyR"@);
    }
    if c == 83 {
        reveal_strlit("KeyS");
        assert(ascii_key_name(c as char) =~= "KeyS"@);
    }
    if c == 84 {
        reveal_strlit("KeyT");
        assert(ascii_key_name(c as char) =~= "KeyT"@);
    }
    if c == 85 {
        reveal_strlit("KeyU");
        assert(ascii_key_name(c as char) =~= "KeyU"@);
    }
    if c == 86 {
        reveal_strlit("KeyV");
        assert(ascii_key_name(c as char) =~= "KeyV"@);
    }
    if c == 87 {
        reveal_strlit("KeyW");
        assert(ascii_key_name(c as char) =~= "KeyW"@);
    }
    if c == 88 {
        reveal_strlit("KeyX");
        assert(ascii_key_name(c as char) =~= "KeyX"@);
    }
    if c == 89 {
        reveal_strlit("KeyY");
        assert(ascii_key_name(c as char) =~= "KeyY"@);
    }
    if c == 90 {
        reveal_strlit("KeyZ");
        assert(ascii_key_name(c as char) =~= "KeyZ"@);
    }
    if c == 48 {
        reveal_strlit("Num0");
        assert(ascii_key_name(c as char) =~= "Num0"@);
    }
    if c == 49 {
        reveal_strlit("Num1");
        assert(ascii_key_name(c as char) =~= "Num1"@);
    }
    if c == 50 {
        reveal_strlit("Num2");
        assert(ascii_key_name(c as char) =~= "Num2"@);
    }
    if c == 51 {
        reveal_strlit("Num3");
        assert(ascii_key_name(c as char) =~= "Num3"@);
    }
    if c == 52 {
        reveal_strlit("Num4");
        assert(ascii_key_name(c as char) =~= "Num4"@);
    }
    if c == 53 {
        reveal_strlit("Num5");
        assert(ascii_key_name(c as char) =~= "Num5"@);
    }
    if c == 54 {
        reveal_strlit("Num6");
        assert(ascii_key_name(c as char) =~= "Num6"@);
    }
    if c == 55 {
        reveal_strlit("Num7");
        assert(ascii_key_name(c as char) =~= "Num7"@);
    }
    if c == 56 {
        reveal_strlit("Num8");
        assert(ascii_key_name(c as char) =~= "Num8"@);
    }
    if c == 57 {
        reveal_strlit("Num9");
        assert(ascii_key_name(c as char) =~= "Num9"@);
    }
    lemma_key_name_round_trip(windows::key_from_code_spec(c));
}


/// X11 keycodes 10 to 19 are the number row, 1 to 9 then 0.
pub proof fn lemma_linux_number_row(code: u32)
    requires
        10 <= code <= 19,
        "1234567890"@[code - 10] != '.',
    ensures
        linux::key_from_code_spec(code) == windows::key_from_code_spec("1234567890"@[code - 10] as u32),
{
    reveal_strlit("1234567890");
    if code == 10 {
        assert("1234567890"@[0] == '1');
    }
    if code == 11 {
        assert("1234567890"@[1] == '2');
    }
    if code == 12 {
        assert("1234567890"@[2] == '3');
    }
    if code == 13 {
        assert("1234567890"@[3] == '4');
    }
    if code == 14 {
        assert("1234567890"@[4] == '5');
    }
    if code == 15 {
        assert("1234567890"@[5] == '6');
    }
    if code == 16 {
        assert("1234567890"@[6] == '7');
    }
    if code == 17 {
        assert("1234567890"@[7] == '8');
    }
    if code == 18 {
        assert("1234567890"@[8] == '9');
    }
    if code == 19 {
        assert("1234567890"@[9] == '0');
    }
}


/// X11 keycodes 24 to 33 are the top letter row, Q to P.
pub proof fn lemma_linux_top_row(code: u32)
    requires
        24 <= code <= 33,
        "QWERTYUIOP"@[code - 24] != '.',
    ensures
        linux::key_from_code_spec(code) == windows::key_from_code_spec("QWERTYUIOP"@[code - 24] as u32),
{
    reveal_strlit("QWERTYUIOP");
    if code == 24 {
        assert("QWERTYUIOP"@[0] == 'Q');
    }
    if code == 25 {
        assert("QWERTYUIOP"@[1] == 'W');
    }
    if code == 26 {
        assert("QWERTYUIOP"@[2] == 'E');
    }
    if code == 27 {
        assert("QWERTYUIOP"@[3] == 'R');
    }
    if code == 28 {
        assert("QWERTYUIOP"@[4] == 'T');
    }
    if code == 29 {
        assert("QWERTYUIOP"@[5] == 'Y');
    }
    if code == 30 {
        assert("QWERTYUIOP"@[6] == 'U');
    }
    if code == 31 {
        assert("QWERTYUIOP"@[7] == 'I');
    }
    if code == 32 {
        assert("QWERTYUIOP"@[8] == 'O');
    }
    if code == 33 {
        assert("QWERTYUIOP"@[9] == 'P');
    }
}


/// X11 keycodes 38 to 46 are the home row, A to L.
pub proof fn lemma_linux_home_row(code: u32)
    requires
        38 <= code <= 46,
        "ASDFGHJKL"@[code - 38] != '.',
    ensures
        linux::key_from_code_spec(code) == windows::key_from_code_spec("ASDFGHJKL"@[code - 38] as u32),
{
    reveal_strlit("ASDFGHJKL");
    if code == 38 {
        assert("ASDFGHJKL"@[0] == 'A');
    }
    if code == 39 {
        assert("ASDFGHJKL"@[1] == 'S');
    }
    if code == 40 {
        assert("ASDFGHJKL"@[2] == 'D');
    }
    if code == 41 {
        assert("ASDFGHJKL"@[3] == 'F');
    }
    if code == 42 {
        assert("ASDFGHJKL"@[4] == 'G');
    }
    if code == 43 {
        assert("ASDFGHJKL"@[5] == 'H');
    }
    if code == 44 {
        assert("ASDFGHJKL"@[6] == 'J');
    }
    if code == 45 {
        assert("ASDFGHJKL"@[7] == 'K');
    }
    if code == 46 {
        assert("ASDFGHJKL"@[8] == 'L');
    }
}


/// X11 keycodes 52 to 58 are the bottom letter row, Z to M.
pub proof fn lemma_linux_bottom_row(code: u32)
    requires
        52 <= code <= 58,
        "ZXCVBNM"@[code - 52] != '.',
    ensures
        linux::key_from_code_spec(code) == windows::key_from_code_spec("ZXCVBNM"@[code - 52] as u32),
{
    reveal_strlit("ZXCVBNM");
    if code == 52 {
        assert("ZXCVBNM"@[0] == 'Z');
    }
    if code == 53 {
        assert("ZXCVBNM"@[1] == 'X');
    }
    if code == 54 {
        assert("ZXCVBNM"@[2] == 'C');
    }
    if code == 55 {
        assert("ZXCVBNM"@[3] == 'V');
    }
    if code == 56 {
        assert("ZXCVBNM"@[4] == 'B');
    }
    if code == 57 {
        assert("ZXCVBNM"@[5] == 'N');
    }
    if code == 58 {
        assert("ZXCVBNM"@[6] == 'M');
    }
}


/// macOS (ANSI) keycodes 0 to 46 of letters and digits, in the order the
/// hardware numbers them; `.` marks a code of another key.
pub proof fn lemma_macos_letters_and_digits(code: u16)
    requires
        0 <= code <= 46,
        "ASDFHGZXCV.BQWERYT123465.97.80.OU.IP.LJ.K....NM"@[code - 0] != '.',
    ensures
        macos::key_from_code_spec(code) == windows::key_from_code_spec("ASDFHGZXCV.BQWERYT123465.97.80.OU.IP.LJ.K....NM"@[code - 0] as u32),
{
    reveal_strlit("ASDFHGZXCV.BQWERYT123465.97.80.OU.IP.LJ.K....NM");
    if code == 0 {
        assert("ASDFHGZXCV.BQWERYT123465.97.80.OU.IP.LJ.K....NM"@[0] == 'A');
    }
    if code == 1 {
        assert("ASDFHGZXCV.BQWERYT123465.97.80.OU.IP.LJ.K....NM"@[1] == 'S');
    }
    if code == 2 {
        assert("ASDFHGZXCV.BQWERYT123465.97.80.OU.IP.LJ.K....NM"@[2] == 'D');
    }
    if code == 3 {
        assert("ASDFHGZXCV.BQWERYT123465.97.80.OU.IP.LJ.K....NM"@[3] == 'F');
    }
    if code == 4 {
        assert("ASDFHGZXCV.BQWERYT123465.97.80.OU.IP.LJ.K....NM"@[4] == 'H');
    }
    if code == 5 {
        assert("ASDFHGZXCV.BQWERYT123465.97.80.OU.IP.LJ.K....NM"@[5] == 'G');
    }
    if code == 6 {
        assert("ASDFHGZXCV.BQWERYT123465.97.80.OU.IP.LJ.K....NM"@[6] == 'Z');
    }
    if code == 7 {
        assert("ASDFHGZXCV.BQWERYT123465.97.80.OU.IP.LJ.K....NM"@[7] == 'X');
    }
    if code == 8 {
        assert("ASDFHGZXCV.BQWERYT123465.97.80.OU.IP.LJ.K....NM"@[8] == 'C');
    }
    if code == 9 {
        assert("ASDFHGZXCV.BQWERYT123465.97.80.OU.IP.LJ.K....NM"@[9] == 'V');
    }
    if code == 11 {
        assert("ASDFHGZXCV.BQWERYT123465.97.80.OU.IP.LJ.K....NM"@[11] == 'B');
    }
    if code == 12 {
        assert("ASDFHGZXCV.BQWERYT123465.97.80.OU.IP.LJ.K....NM"@[12] == 'Q');
    }
    if code == 13 {
        assert("ASDFHGZXCV.BQWERYT123465.97.80.OU.IP.LJ.K....NM"@[13] == 'W');
    }
    if code == 14 {
        assert("ASDFHGZXCV.BQWERYT123465.97.80.OU.IP.LJ.K....NM"@[14] == 'E');
    }
    if code == 15 {
        assert("ASDFHGZXCV.BQWERYT123465.97.80.OU.IP.LJ.K....NM"@[15] == 'R');
    }
    if code == 16 {
        assert("ASDFHGZXCV.BQWERYT123465.97.80.OU.IP.LJ.K....NM"@[16] == 'Y');
    }
    if code == 17 {
        assert("ASDFHGZXCV.BQWERYT123465.97.80.OU.IP.LJ.K....NM"@[17] == 'T');
    }
    if code == 18 {
        assert("ASDFHGZXCV.BQWERYT123465.97.80.OU.IP.LJ.K....NM"@[18] == '1');
    }
    if code == 19 {
        assert("ASDFHGZXCV.BQWERYT123465.97.80.OU.IP.LJ.K....NM"@[19] == '2');
    }
    if code == 20 {
        assert("ASDFHGZXCV.BQWERYT123465.97.80.OU.IP.LJ.K....NM"@[20] == '3');
    }
    if code == 21 {
        assert("ASDFHGZXCV.BQWERYT123465.97.80.OU.IP.LJ.K....NM"@[21] == '4');
    }
    if code == 22 {
        assert("ASDFHGZXCV.BQWERYT123465.97.80.OU.IP.LJ.K....NM"@[22] == '6');
    }
    if code == 23 {
        assert("ASDFHGZXCV.BQWERYT123465.97.80.OU.IP.LJ.K....NM"@[23] == '5');
    }
    if code == 25 {
        assert("ASDFHGZXCV.BQWERYT123465.97.80.OU.IP.LJ.K....NM"@[25] == '9');
    }
    if code == 26 {
        assert("ASDFHGZXCV.BQWERYT123465.97.80.OU.IP.LJ.K....NM"@[26] == '7');
    }
    if code == 28 {
        assert("ASDFHGZXCV.BQWERYT123465.97.80.OU.IP.LJ.K....NM"@[28] == '8');
    }
    if code == 29 {
        assert("ASDFHGZXCV.BQWERYT123465.97.80.OU.IP.LJ.K....NM"@[29] == '0');
    }
    if code == 31 {
        assert("ASDFHGZXCV.BQWERYT123465.97.80.OU.IP.LJ.K....NM"@[31] == 'O');
    }
    if code == 32 {
        assert("ASDFHGZXCV.BQWERYT123465.97.80.OU.IP.LJ.K....NM"@[32] == 'U');
    }
    if code == 34 {
        assert("ASDFHGZXCV.BQWERYT123465.97.80.OU.IP.LJ.K....NM"@[34] == 'I');
    }
    if code == 35 {
        assert("ASDFHGZXCV.BQWERYT123465.97.80.OU.IP.LJ.K....NM"@[35] == 'P');
    }
    if code == 37 {
        assert("ASDFHGZXCV.BQWERYT123465.97.80.OU.IP.LJ.K....NM"@[37] == 'L');
    }
    if code == 38 {
        assert("ASDFHGZXCV.BQWERYT123465.97.80.OU.IP.LJ.K....NM"@[38] == 'J');
    }
    if code == 40 {
        assert("ASDFHGZXCV.BQWERYT123465.97.80.OU.IP.LJ.K....NM"@[40] == 'K');
    }
    if code == 45 {
        assert("ASDFHGZXCV.BQWERYT123465.97.80.OU.IP.LJ.K....NM"@[45] == 'N');
    }
    if code == 46 {
        assert("ASDFHGZXCV.BQWERYT123465.97.80.OU.IP.LJ.K....NM"@[46] == 'M');
    }
}



/// The name of function key `F<n + 1>`.
pub open spec fn function_key_name(n: u32) -> Seq<char> {
    if n < 9 {
        "F"@.push(((49 + n) as u8) as char)
    } else {
        "F1"@.push(((48 + n - 9) as u8) as char)
    }
}

/// The Windows virtual-key codes `VK_F1` (0x70) to `VK_F12` (0x7B) are the
/// function keys F1 to F12, in order.
pub proof fn lemma_windows_function_keys(n: u32)
    requires
        n < 12,
    ensures
        key_name(windows::key_from_code_spec((0x70 + n) as u32)) == function_key_name(n),
{
    reveal_strlit("F");
    reveal_strlit("F1");
    if n == 0 {
        reveal_strlit("F1");
        assert(function_key_name(n) =~= "F1"@);
    }
    if n == 1 {
        reveal_strlit("F2");
        assert(function_key_name(n) =~= "F2"@);
    }
    if n == 2 {
        reveal_strlit("F3");
        assert(function_key_name(n) =~= "F3"@);
    }
    if n == 3 {
        reveal_strlit("F4");
        assert(function_key_name(n) =~= "F4"@);
    }
    if n == 4 {
        reveal_strlit("F5");
        assert(function_key_name(n) =~= "F5"@);
    }
    if n == 5 {
        reveal_strlit("F6");
        assert(function_key_name(n) =~= "F6"@);
    }
    if n == 6 {
        reveal_strlit("F7");
        assert(function_key_name(n) =~= "F7"@);
    }
    if n == 7 {
        reveal_strlit("F8");
        assert(function_key_name(n) =~= "F8"@);
    }
    if n == 8 {
        reveal_strlit("F9");
        assert(function_key_name(n) =~= "F9"@);
    }
    if n == 9 {
        reveal_strlit("F10");
        assert(function_key_name(n) =~= "F10"@);
    }
    if n == 10 {
        reveal_strlit("F11");
        assert(function_key_name(n) =~= "F11"@);
    }
    if n == 11 {
        reveal_strlit("F12");
        assert(function_key_name(n) =~= "F12"@);
    }
}


/// X11 keycodes of F1 to F12: 67 to 76, then 95 and 96.
pub proof fn lemma_linux_function_keys(n: int)
    requires
        0 <= n < 12,
    ensures
        ({
            let codes: Seq<u32> = seq![67u32, 68u32, 69u32, 70u32, 71u32, 72u32, 73u32, 74u32, 75u32, 76u32, 95u32, 96u32];
            linux::key_from_code_spec(codes[n]) == windows::key_from_code_spec((0x70 + n) as u32)
        }),
{
    let codes: Seq<u32> = seq![67u32, 68u32, 69u32, 70u32, 71u32, 72u32, 73u32, 74u32, 75u32, 76u32, 95u32, 96u32];
    if n == 0 {
        assert(codes[0] == 67);
    }
    if n == 1 {
        assert(codes[1] == 68);
    }
    if n == 2 {
        assert(codes[2] == 69);
    }
    if n == 3 {
        assert(codes[3] == 70);
    }
    if n == 4 {
        assert(codes[4] == 71);
    }
    if n == 5 {
        assert(codes[5] == 72);
    }
    if n == 6 {
        assert(codes[6] == 73);
    }
    if n == 7 {
        assert(codes[7] == 74);
    }
    if n == 8 {
        assert(codes[8] == 75);
    }
    if n == 9 {
        assert(codes[9] == 76);
    }
    if n == 10 {
        assert(codes[10] == 95);
    }
    if n == 11 {
        assert(codes[11] == 96);
    }
}


/// macOS keycodes of F1 to F12, as the hardware numbers them.
pub proof fn lemma_macos_function_keys(n: int)
    requires
        0 <= n < 12,
    ensures
        ({
            let codes: Seq<u16> = seq![122u16, 120u16, 99u16, 118u16, 96u16, 97u16, 98u16, 100u16, 101u16, 109u16, 103u16, 111u16];
            macos::key_from_code_spec(codes[n]) == windows::key_from_code_spec((0x70 + n) as u32)
        }),
{
    let codes: Seq<u16> = seq![122u16, 120u16, 99u16, 118u16, 96u16, 97u16, 98u16, 100u16, 101u16, 109u16, 103u16, 111u16];
    if n == 0 {
        assert(codes[0] == 122);
    }
    if n == 1 {
        assert(codes[1] == 120);
    }
    if n == 2 {
        assert(codes[2] == 99);
    }
    if n == 3 {
        assert(codes[3] == 118);
    }
    if n == 4 {
        assert(codes[4] == 96);
    }
    if n == 5 {
        assert(codes[5] == 97);
    }
    if n == 6 {
        assert(codes[6] == 98);
    }
    if n == 7 {
        assert(codes[7] == 100);
    }
    if n == 8 {
        assert(codes[8] == 101);
    }
    if n == 9 {
        assert(codes[9] == 109);
    }
    if n == 10 {
        assert(codes[10] == 103);
    }
    if n == 11 {
        assert(codes[11] == 111);
    }
}

} // verus!
