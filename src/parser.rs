use vstd::prelude::*;
use vstd::utf8::is_ascii_chars;

use crate::code::{Code, ALT, CONTROL, META, SHIFT};
use crate::error::Error;
use crate::hotkey::{HotKey, IdAllocator, Modifiers};
use crate::text::{
    ascii_upper, join_with, lemma_cased_word, lemma_split_join, plain_word, same_text, split_on, split_on_char,
    to_upper, trim, trimmed, upper_text,
};

verus! {

/// The modifier that the keywords naming "command or control" stand for:
/// Control, as everywhere but on macOS, where the Command key takes its place.
pub const COMMAND_OR_CONTROL: u32 = CONTROL;

/// The modifier flag that an upper-case keyword names, if any.
pub open spec fn modifier_of_name(u: Seq<char>) -> Option<u32> {
    if u == "OPTION"@ || u == "ALT"@ {
        Some(ALT)
    } else if u == "CONTROL"@ || u == "CTRL"@ {
        Some(CONTROL)
    } else if u == "COMMAND"@ || u == "CMD"@ || u == "SUPER"@ {
        Some(META)
    } else if u == "SHIFT"@ {
        Some(SHIFT)
    } else if u == "COMMANDORCONTROL"@ || u == "COMMANDORCTRL"@ || u == "CMDORCTRL"@ || u
        == "CMDORCONTROL"@ {
        Some(COMMAND_OR_CONTROL)
    } else {
        None
    }
}

/// The key that an upper-case keyword names, if any.
pub open spec fn key_of_name(u: Seq<char>) -> Option<Code> {
    if u == "BACKQUOTE"@ || u == "`"@ {
        Some(Code::Backquote)
    } else if u == "BACKSLASH"@ || u == "\\"@ {
        Some(Code::Backslash)
    } else if u == "BRACKETLEFT"@ || u == "["@ {
        Some(Code::BracketLeft)
    } else if u == "BRACKETRIGHT"@ || u == "]"@ {
        Some(Code::BracketRight)
    } else if u == "COMMA"@ || u == ","@ {
        Some(Code::Comma)
    } else if u == "DIGIT0"@ || u == "0"@ {
        Some(Code::Digit0)
    } else if u == "DIGIT1"@ || u == "1"@ {
        Some(Code::Digit1)
    } else if u == "DIGIT2"@ || u == "2"@ {
        Some(Code::Digit2)
    } else if u == "DIGIT3"@ || u == "3"@ {
        Some(Code::Digit3)
    } else if u == "DIGIT4"@ || u == "4"@ {
        Some(Code::Digit4)
    } else if u == "DIGIT5"@ || u == "5"@ {
        Some(Code::Digit5)
    } else if u == "DIGIT6"@ || u == "6"@ {
        Some(Code::Digit6)
    } else if u == "DIGIT7"@ || u == "7"@ {
        Some(Code::Digit7)
    } else if u == "DIGIT8"@ || u == "8"@ {
        Some(Code::Digit8)
    } else if u == "DIGIT9"@ || u == "9"@ {
        Some(Code::Digit9)
    } else if u == "EQUAL"@ || u == "="@ {
        Some(Code::Equal)
    } else if u == "KEYA"@ || u == "A"@ {
        Some(Code::KeyA)
    } else if u == "KEYB"@ || u == "B"@ {
        Some(Code::KeyB)
    } else if u == "KEYC"@ || u == "C"@ {
        Some(Code::KeyC)
    } else if u == "KEYD"@ || u == "D"@ {
        Some(Code::KeyD)
    } else if u == "KEYE"@ || u == "E"@ {
        Some(Code::KeyE)
    } else if u == "KEYF"@ || u == "F"@ {
        Some(Code::KeyF)
    } else if u == "KEYG"@ || u == "G"@ {
        Some(Code::KeyG)
    } else if u == "KEYH"@ || u == "H"@ {
        Some(Code::KeyH)
    } else if u == "KEYI"@ || u == "I"@ {
        Some(Code::KeyI)
    } else if u == "KEYJ"@ || u == "J"@ {
        Some(Code::KeyJ)
    } else if u == "KEYK"@ || u == "K"@ {
        Some(Code::KeyK)
    } else if u == "KEYL"@ || u == "L"@ {
        Some(Code::KeyL)
    } else if u == "KEYM"@ || u == "M"@ {
        Some(Code::KeyM)
    } else if u == "KEYN"@ || u == "N"@ {
        Some(Code::KeyN)
    } else if u == "KEYO"@ || u == "O"@ {
        Some(Code::KeyO)
    } else if u == "KEYP"@ || u == "P"@ {
        Some(Code::KeyP)
    } else if u == "KEYQ"@ || u == "Q"@ {
        Some(Code::KeyQ)
    } else if u == "KEYR"@ || u == "R"@ {
        Some(Code::KeyR)
    } else if u == "KEYS"@ || u == "S"@ {
        Some(Code::KeyS)
    } else if u == "KEYT"@ || u == "T"@ {
        Some(Code::KeyT)
    } else if u == "KEYU"@ || u == "U"@ {
        Some(Code::KeyU)
    } else if u == "KEYV"@ || u == "V"@ {
        Some(Code::KeyV)
    } else if u == "KEYW"@ || u == "W"@ {
        Some(Code::KeyW)
    } else if u == "KEYX"@ || u == "X"@ {
        Some(Code::KeyX)
    } else if u == "KEYY"@ || u == "Y"@ {
        Some(Code::KeyY)
    } else if u == "KEYZ"@ || u == "Z"@ {
        Some(Code::KeyZ)
    } else if u == "MINUS"@ || u == "-"@ {
        Some(Code::Minus)
    } else if u == "PERIOD"@ || u == "."@ {
        Some(Code::Period)
    } else if u == "QUOTE"@ || u == "'"@ {
        Some(Code::Quote)
    } else if u == "SEMICOLON"@ || u == ";"@ {
        Some(Code::Semicolon)
    } else if u == "SLASH"@ || u == "/"@ {
        Some(Code::Slash)
    } else if u == "BACKSPACE"@ {
        Some(Code::Backspace)
    } else if u == "CAPSLOCK"@ {
        Some(Code::CapsLock)
    } else if u == "ENTER"@ {
        Some(Code::Enter)
    } else if u == "SPACE"@ {
        Some(Code::Space)
    } else if u == "TAB"@ {
        Some(Code::Tab)
    } else if u == "DELETE"@ {
        Some(Code::Delete)
    } else if u == "END"@ {
        Some(Code::End)
    } else if u == "HOME"@ {
        Some(Code::Home)
    } else if u == "INSERT"@ {
        Some(Code::Insert)
    } else if u == "PAGEDOWN"@ {
        Some(Code::PageDown)
    } else if u == "PAGEUP"@ {
        Some(Code::PageUp)
    } else if u == "PRINTSCREEN"@ {
        Some(Code::PrintScreen)
    } else if u == "SCROLLLOCK"@ {
        Some(Code::ScrollLock)
    } else if u == "ARROWDOWN"@ || u == "DOWN"@ {
        Some(Code::ArrowDown)
    } else if u == "ARROWLEFT"@ || u == "LEFT"@ {
        Some(Code::ArrowLeft)
    } else if u == "ARROWRIGHT"@ || u == "RIGHT"@ {
        Some(Code::ArrowRight)
    } else if u == "ARROWUP"@ || u == "UP"@ {
        Some(Code::ArrowUp)
    } else if u == "NUMLOCK"@ {
        Some(Code::NumLock)
    } else if u == "NUMPAD0"@ || u == "NUM0"@ {
        Some(Code::Numpad0)
    } else if u == "NUMPAD1"@ || u == "NUM1"@ {
        Some(Code::Numpad1)
    } else if u == "NUMPAD2"@ || u == "NUM2"@ {
        Some(Code::Numpad2)
    } else if u == "NUMPAD3"@ || u == "NUM3"@ {
        Some(Code::Numpad3)
    } else if u == "NUMPAD4"@ || u == "NUM4"@ {
        Some(Code::Numpad4)
    } else if u == "NUMPAD5"@ || u == "NUM5"@ {
        Some(Code::Numpad5)
    } else if u == "NUMPAD6"@ || u == "NUM6"@ {
        Some(Code::Numpad6)
    } else if u == "NUMPAD7"@ || u == "NUM7"@ {
        Some(Code::Numpad7)
    } else if u == "NUMPAD8"@ || u == "NUM8"@ {
        Some(Code::Numpad8)
    } else if u == "NUMPAD9"@ || u == "NUM9"@ {
        Some(Code::Numpad9)
    } else if u == "NUMPADADD"@ || u == "NUMADD"@ || u == "NUMPADPLUS"@ || u == "NUMPLUS"@ {
        Some(Code::NumpadAdd)
    } else if u == "NUMPADDECIMAL"@ || u == "NUMDECIMAL"@ {
        Some(Code::NumpadDecimal)
    } else if u == "NUMPADDIVIDE"@ || u == "NUMDIVIDE"@ {
        Some(Code::NumpadDivide)
    } else if u == "NUMPADENTER"@ || u == "NUMENTER"@ {
        Some(Code::NumpadEnter)
    } else if u == "NUMPADEQUAL"@ || u == "NUMEQUAL"@ {
        Some(Code::NumpadEqual)
    } else if u == "NUMPADMULTIPLY"@ || u == "NUMMULTIPLY"@ {
        Some(Code::NumpadMultiply)
    } else if u == "NUMPADSUBTRACT"@ || u == "NUMSUBTRACT"@ {
        Some(Code::NumpadSubtract)
    } else if u == "ESCAPE"@ || u == "ESC"@ {
        Some(Code::Escape)
    } else if u == "F1"@ {
        Some(Code::F1)
    } else if u == "F2"@ {
        Some(Code::F2)
    } else if u == "F3"@ {
        Some(Code::F3)
    } else if u == "F4"@ {
        Some(Code::F4)
    } else if u == "F5"@ {
        Some(Code::F5)
    } else if u == "F6"@ {
        Some(Code::F6)
    } else if u == "F7"@ {
        Some(Code::F7)
    } else if u == "F8"@ {
        Some(Code::F8)
    } else if u == "F9"@ {
        Some(Code::F9)
    } else if u == "F10"@ {
        Some(Code::F10)
    } else if u == "F11"@ {
        Some(Code::F11)
    } else if u == "F12"@ {
        Some(Code::F12)
    } else if u == "AUDIOVOLUMEDOWN"@ || u == "VOLUMEDOWN"@ {
        Some(Code::AudioVolumeDown)
    } else if u == "AUDIOVOLUMEUP"@ || u == "VOLUMEUP"@ {
        Some(Code::AudioVolumeUp)
    } else if u == "AUDIOVOLUMEMUTE"@ || u == "VOLUMEMUTE"@ {
        Some(Code::AudioVolumeMute)
    } else if u == "F13"@ {
        Some(Code::F13)
    } else if u == "F14"@ {
        Some(Code::F14)
    } else if u == "F15"@ {
        Some(Code::F15)
    } else if u == "F16"@ {
        Some(Code::F16)
    } else if u == "F17"@ {
        Some(Code::F17)
    } else if u == "F18"@ {
        Some(Code::F18)
    } else if u == "F19"@ {
        Some(Code::F19)
    } else if u == "F20"@ {
        Some(Code::F20)
    } else if u == "F21"@ {
        Some(Code::F21)
    } else if u == "F22"@ {
        Some(Code::F22)
    } else if u == "F23"@ {
        Some(Code::F23)
    } else if u == "F24"@ {
        Some(Code::F24)
    } else {
        None
    }
}

/// What reading a hotkey string comes to.
pub enum ParseOutcome {
    /// A hotkey with these modifier flags and this key.
    Parsed(u32, Code),
    /// A token was empty.
    EmptyToken,
    /// A token followed the key, or no key came at all.
    BadFormat,
    /// This token is neither a modifier nor a key.
    UnknownKey(Seq<char>),
}

/// The modifier flags and the key read from the first `n` tokens, or how
/// the first failing one among them fails.
pub open spec fn scan(tokens: Seq<Seq<char>>, n: int) -> Result<(u32, Option<Code>), ParseOutcome>
    decreases n,
{
    if n <= 0 {
        Ok((0, None))
    } else {
        match scan(tokens, n - 1) {
            Err(e) => Err(e),
            Ok((mods, key)) => {
                let t = trimmed(tokens[n - 1]);
                if t.len() == 0 {
                    Err(ParseOutcome::EmptyToken)
                } else if key is Some {
                    Err(ParseOutcome::BadFormat)
                } else {
                    match modifier_of_name(upper_text(t)) {
                        Some(f) => Ok((mods | f, None)),
                        None => match key_of_name(upper_text(t)) {
                            Some(k) => Ok((mods, Some(k))),
                            None => Err(ParseOutcome::UnknownKey(t)),
                        },
                    }
                }
            },
        }
    }
}

/// Once a token fails, the scan of any longer prefix fails the same way.
pub proof fn lemma_scan_failure_stays(tokens: Seq<Seq<char>>, n: int, m: int)
    requires
        n <= m,
        scan(tokens, n) is Err,
    ensures
        scan(tokens, m) == scan(tokens, n),
    decreases m - n,
{
    if n < m {
        lemma_scan_failure_stays(tokens, n, m - 1);
    }
}

/// How a hotkey string reads: the tokens between `+` signs, modifiers
/// first and one key last; a string of one token is a bare key, taken as
/// it stands.
pub open spec fn parse_spec(s: Seq<char>) -> ParseOutcome {
    let tokens = split_on(s, '+');
    if tokens.len() == 1 {
        match key_of_name(upper_text(tokens[0])) {
            Some(k) => ParseOutcome::Parsed(0, k),
            None => ParseOutcome::UnknownKey(tokens[0]),
        }
    } else {
        match scan(tokens, tokens.len() as int) {
            Err(e) => e,
            Ok((mods, Some(k))) => ParseOutcome::Parsed(mods, k),
            Ok((_, None)) => ParseOutcome::BadFormat,
        }
    }
}

/// Whether `r` reports `outcome` for the string `s`.
pub open spec fn reports(r: Result<HotKey, Error>, outcome: ParseOutcome, s: Seq<char>) -> bool {
    match outcome {
        ParseOutcome::Parsed(mods, k) => r is Ok && r->Ok_0.mods.bits == mods && r->Ok_0.key == k,
        ParseOutcome::EmptyToken => r is Err && r->Err_0 is EmptyHotKeyToken
            && r->Err_0->EmptyHotKeyToken_0@ == s,
        ParseOutcome::BadFormat => r is Err && r->Err_0 is UnexpectedHotKeyFormat
            && r->Err_0->UnexpectedHotKeyFormat_0@ == s,
        ParseOutcome::UnknownKey(t) => r is Err && r->Err_0 is UnrecognizedHotKeyCode
            && r->Err_0->UnrecognizedHotKeyCode_0@ == t,
    }
}

/// The modifier flag that the upper-case keyword `u` names, if any.
pub fn modifier_of_keyword(u: &str) -> (r: Option<u32>)
    ensures
        r == modifier_of_name(u@),
{
    if same_text(u, "OPTION") || same_text(u, "ALT") {
        Some(ALT)
    } else if same_text(u, "CONTROL") || same_text(u, "CTRL") {
        Some(CONTROL)
    } else if same_text(u, "COMMAND") || same_text(u, "CMD") || same_text(u, "SUPER") {
        Some(META)
    } else if same_text(u, "SHIFT") {
        Some(SHIFT)
    } else if same_text(u, "COMMANDORCONTROL") || same_text(u, "COMMANDORCTRL") || same_text(
        u,
        "CMDORCTRL",
    ) || same_text(u, "CMDORCONTROL") {
        Some(COMMAND_OR_CONTROL)
    } else {
        None
    }
}

/// The key that the upper-case keyword `u` names, if any.
#[verifier::rlimit(40)]
pub fn key_of_keyword(u: &str) -> (r: Option<Code>)
    ensures
        r == key_of_name(u@),
{
    if same_text(u, "BACKQUOTE") || same_text(u, "`") {
        return Some(Code::Backquote);
    }
    if same_text(u, "BACKSLASH") || same_text(u, "\\") {
        return Some(Code::Backslash);
    }
    if same_text(u, "BRACKETLEFT") || same_text(u, "[") {
        return Some(Code::BracketLeft);
    }
    if same_text(u, "BRACKETRIGHT") || same_text(u, "]") {
        return Some(Code::BracketRight);
    }
    if same_text(u, "COMMA") || same_text(u, ",") {
        return Some(Code::Comma);
    }
    if same_text(u, "DIGIT0") || same_text(u, "0") {
        return Some(Code::Digit0);
    }
    if same_text(u, "DIGIT1") || same_text(u, "1") {
        return Some(Code::Digit1);
    }
    if same_text(u, "DIGIT2") || same_text(u, "2") {
        return Some(Code::Digit2);
    }
    if same_text(u, "DIGIT3") || same_text(u, "3") {
        return Some(Code::Digit3);
    }
    if same_text(u, "DIGIT4") || same_text(u, "4") {
        return Some(Code::Digit4);
    }
    if same_text(u, "DIGIT5") || same_text(u, "5") {
        return Some(Code::Digit5);
    }
    if same_text(u, "DIGIT6") || same_text(u, "6") {
        return Some(Code::Digit6);
    }
    if same_text(u, "DIGIT7") || same_text(u, "7") {
        return Some(Code::Digit7);
    }
    if same_text(u, "DIGIT8") || same_text(u, "8") {
        return Some(Code::Digit8);
    }
    if same_text(u, "DIGIT9") || same_text(u, "9") {
        return Some(Code::Digit9);
    }
    if same_text(u, "EQUAL") || same_text(u, "=") {
        return Some(Code::Equal);
    }
    if same_text(u, "KEYA") || same_text(u, "A") {
        return Some(Code::KeyA);
    }
    if same_text(u, "KEYB") || same_text(u, "B") {
        return Some(Code::KeyB);
    }
    if same_text(u, "KEYC") || same_text(u, "C") {
        return Some(Code::KeyC);
    }
    if same_text(u, "KEYD") || same_text(u, "D") {
        return Some(Code::KeyD);
    }
    if same_text(u, "KEYE") || same_text(u, "E") {
        return Some(Code::KeyE);
    }
    if same_text(u, "KEYF") || same_text(u, "F") {
        return Some(Code::KeyF);
    }
    if same_text(u, "KEYG") || same_text(u, "G") {
        return Some(Code::KeyG);
    }
    if same_text(u, "KEYH") || same_text(u, "H") {
        return Some(Code::KeyH);
    }
    if same_text(u, "KEYI") || same_text(u, "I") {
        return Some(Code::KeyI);
    }
    if same_text(u, "KEYJ") || same_text(u, "J") {
        return Some(Code::KeyJ);
    }
    if same_text(u, "KEYK") || same_text(u, "K") {
        return Some(Code::KeyK);
    }
    if same_text(u, "KEYL") || same_text(u, "L") {
        return Some(Code::KeyL);
    }
    if same_text(u, "KEYM") || same_text(u, "M") {
        return Some(Code::KeyM);
    }
    if same_text(u, "KEYN") || same_text(u, "N") {
        return Some(Code::KeyN);
    }
    if same_text(u, "KEYO") || same_text(u, "O") {
        return Some(Code::KeyO);
    }
    if same_text(u, "KEYP") || same_text(u, "P") {
        return Some(Code::KeyP);
    }
    if same_text(u, "KEYQ") || same_text(u, "Q") {
        return Some(Code::KeyQ);
    }
    if same_text(u, "KEYR") || same_text(u, "R") {
        return Some(Code::KeyR);
    }
    if same_text(u, "KEYS") || same_text(u, "S") {
        return Some(Code::KeyS);
    }
    if same_text(u, "KEYT") || same_text(u, "T") {
        return Some(Code::KeyT);
    }
    if same_text(u, "KEYU") || same_text(u, "U") {
        return Some(Code::KeyU);
    }
    if same_text(u, "KEYV") || same_text(u, "V") {
        return Some(Code::KeyV);
    }
    if same_text(u, "KEYW") || same_text(u, "W") {
        return Some(Code::KeyW);
    }
    if same_text(u, "KEYX") || same_text(u, "X") {
        return Some(Code::KeyX);
    }
    if same_text(u, "KEYY") || same_text(u, "Y") {
        return Some(Code::KeyY);
    }
    if same_text(u, "KEYZ") || same_text(u, "Z") {
        return Some(Code::KeyZ);
    }
    if same_text(u, "MINUS") || same_text(u, "-") {
        return Some(Code::Minus);
    }
    if same_text(u, "PERIOD") || same_text(u, ".") {
        return Some(Code::Period);
    }
    if same_text(u, "QUOTE") || same_text(u, "'") {
        return Some(Code::Quote);
    }
    if same_text(u, "SEMICOLON") || same_text(u, ";") {
        return Some(Code::Semicolon);
    }
    if same_text(u, "SLASH") || same_text(u, "/") {
        return Some(Code::Slash);
    }
    if same_text(u, "BACKSPACE") {
        return Some(Code::Backspace);
    }
    if same_text(u, "CAPSLOCK") {
        return Some(Code::CapsLock);
    }
    if same_text(u, "ENTER") {
        return Some(Code::Enter);
    }
    if same_text(u, "SPACE") {
        return Some(Code::Space);
    }
    if same_text(u, "TAB") {
        return Some(Code::Tab);
    }
    if same_text(u, "DELETE") {
        return Some(Code::Delete);
    }
    if same_text(u, "END") {
        return Some(Code::End);
    }
    if same_text(u, "HOME") {
        return Some(Code::Home);
    }
    if same_text(u, "INSERT") {
        return Some(Code::Insert);
    }
    if same_text(u, "PAGEDOWN") {
        return Some(Code::PageDown);
    }
    if same_text(u, "PAGEUP") {
        return Some(Code::PageUp);
    }
    if same_text(u, "PRINTSCREEN") {
        return Some(Code::PrintScreen);
    }
    if same_text(u, "SCROLLLOCK") {
        return Some(Code::ScrollLock);
    }
    if same_text(u, "ARROWDOWN") || same_text(u, "DOWN") {
        return Some(Code::ArrowDown);
    }
    if same_text(u, "ARROWLEFT") || same_text(u, "LEFT") {
        return Some(Code::ArrowLeft);
    }
    if same_text(u, "ARROWRIGHT") || same_text(u, "RIGHT") {
        return Some(Code::ArrowRight);
    }
    if same_text(u, "ARROWUP") || same_text(u, "UP") {
        return Some(Code::ArrowUp);
    }
    if same_text(u, "NUMLOCK") {
        return Some(Code::NumLock);
    }
    if same_text(u, "NUMPAD0") || same_text(u, "NUM0") {
        return Some(Code::Numpad0);
    }
    if same_text(u, "NUMPAD1") || same_text(u, "NUM1") {
        return Some(Code::Numpad1);
    }
    if same_text(u, "NUMPAD2") || same_text(u, "NUM2") {
        return Some(Code::Numpad2);
    }
    if same_text(u, "NUMPAD3") || same_text(u, "NUM3") {
        return Some(Code::Numpad3);
    }
    if same_text(u, "NUMPAD4") || same_text(u, "NUM4") {
        return Some(Code::Numpad4);
    }
    if same_text(u, "NUMPAD5") || same_text(u, "NUM5") {
        return Some(Code::Numpad5);
    }
    if same_text(u, "NUMPAD6") || same_text(u, "NUM6") {
        return Some(Code::Numpad6);
    }
    if same_text(u, "NUMPAD7") || same_text(u, "NUM7") {
        return Some(Code::Numpad7);
    }
    if same_text(u, "NUMPAD8") || same_text(u, "NUM8") {
        return Some(Code::Numpad8);
    }
    if same_text(u, "NUMPAD9") || same_text(u, "NUM9") {
        return Some(Code::Numpad9);
    }
    if same_text(u, "NUMPADADD") || same_text(u, "NUMADD") || same_text(u, "NUMPADPLUS") || same_text(u, "NUMPLUS") {
        return Some(Code::NumpadAdd);
    }
    if same_text(u, "NUMPADDECIMAL") || same_text(u, "NUMDECIMAL") {
        return Some(Code::NumpadDecimal);
    }
    if same_text(u, "NUMPADDIVIDE") || same_text(u, "NUMDIVIDE") {
        return Some(Code::NumpadDivide);
    }
    if same_text(u, "NUMPADENTER") || same_text(u, "NUMENTER") {
        return Some(Code::NumpadEnter);
    }
    if same_text(u, "NUMPADEQUAL") || same_text(u, "NUMEQUAL") {
        return Some(Code::NumpadEqual);
    }
    if same_text(u, "NUMPADMULTIPLY") || same_text(u, "NUMMULTIPLY") {
        return Some(Code::NumpadMultiply);
    }
    if same_text(u, "NUMPADSUBTRACT") || same_text(u, "NUMSUBTRACT") {
        return Some(Code::NumpadSubtract);
    }
    if same_text(u, "ESCAPE") || same_text(u, "ESC") {
        return Some(Code::Escape);
    }
    if same_text(u, "F1") {
        return Some(Code::F1);
    }
    if same_text(u, "F2") {
        return Some(Code::F2);
    }
    if same_text(u, "F3") {
        return Some(Code::F3);
    }
    if same_text(u, "F4") {
        return Some(Code::F4);
    }
    if same_text(u, "F5") {
        return Some(Code::F5);
    }
    if same_text(u, "F6") {
        return Some(Code::F6);
    }
    if same_text(u, "F7") {
        return Some(Code::F7);
    }
    if same_text(u, "F8") {
        return Some(Code::F8);
    }
    if same_text(u, "F9") {
        return Some(Code::F9);
    }
    if same_text(u, "F10") {
        return Some(Code::F10);
    }
    if same_text(u, "F11") {
        return Some(Code::F11);
    }
    if same_text(u, "F12") {
        return Some(Code::F12);
    }
    if same_text(u, "AUDIOVOLUMEDOWN") || same_text(u, "VOLUMEDOWN") {
        return Some(Code::AudioVolumeDown);
    }
    if same_text(u, "AUDIOVOLUMEUP") || same_text(u, "VOLUMEUP") {
        return Some(Code::AudioVolumeUp);
    }
    if same_text(u, "AUDIOVOLUMEMUTE") || same_text(u, "VOLUMEMUTE") {
        return Some(Code::AudioVolumeMute);
    }
    if same_text(u, "F13") {
        return Some(Code::F13);
    }
    if same_text(u, "F14") {
        return Some(Code::F14);
    }
    if same_text(u, "F15") {
        return Some(Code::F15);
    }
    if same_text(u, "F16") {
        return Some(Code::F16);
    }
    if same_text(u, "F17") {
        return Some(Code::F17);
    }
    if same_text(u, "F18") {
        return Some(Code::F18);
    }
    if same_text(u, "F19") {
        return Some(Code::F19);
    }
    if same_text(u, "F20") {
        return Some(Code::F20);
    }
    if same_text(u, "F21") {
        return Some(Code::F21);
    }
    if same_text(u, "F22") {
        return Some(Code::F22);
    }
    if same_text(u, "F23") {
        return Some(Code::F23);
    }
    if same_text(u, "F24") {
        return Some(Code::F24);
    }
    None
}

/// The key that `key` names, in any case.
pub fn parse_key(key: &str) -> (r: Result<Code, Error>)
    ensures
        match key_of_name(upper_text(key@)) {
            Some(k) => r is Ok && r->Ok_0 == k,
            None => r is Err && r->Err_0 is UnrecognizedHotKeyCode
                && r->Err_0->UnrecognizedHotKeyCode_0@ == key@,
        },
{
    let u = to_upper(key);
    match key_of_keyword(u.as_str()) {
        Some(k) => Ok(k),
        None => Err(Error::UnrecognizedHotKeyCode(key.to_owned())),
    }
}

/// Reads a hotkey string such as `shift+alt+KeyQ`: modifiers first, in any
/// order, and one key last, all in any case. A hotkey that it reads takes
/// the next id of `ids`; on an error no id is taken.
pub fn parse_hotkey(hotkey: &str, ids: &mut IdAllocator) -> (r: Result<HotKey, Error>)
    requires
        old(ids).next_id() < u32::MAX,
    ensures
        reports(r, parse_spec(hotkey@), hotkey@),
        r is Ok ==> r->Ok_0.id == old(ids).next_id() && final(ids).next_id() == old(
            ids,
        ).next_id() + 1,
        r is Err ==> final(ids).next_id() == old(ids).next_id(),
{
    let tokens = split_on_char(hotkey, '+');
    let ghost toks = split_on(hotkey@, '+');
    assert(toks.len() == tokens@.len());
    if tokens.len() == 1 {
        assert(toks[0] == tokens@[0]@);
        return match parse_key(tokens[0]) {
            Ok(key) => Ok(HotKey { mods: Modifiers::empty(), key, id: ids.next() }),
            Err(e) => Err(e),
        };
    }
    let mut mods = Modifiers::empty();
    let mut key: Option<Code> = None;
    let mut i: usize = 0;
    while i < tokens.len()
        invariant
            toks == split_on(hotkey@, '+'),
            toks.len() == tokens@.len(),
            toks.len() != 1,
            forall|j: int| 0 <= j < toks.len() ==> toks[j] == #[trigger] tokens@[j]@,
            i <= tokens.len(),
            scan(toks, i as int) == Ok::<(u32, Option<Code>), ParseOutcome>((mods.bits, key)),
            ids.next_id() == old(ids).next_id(),
        decreases tokens.len() - i,
    {
        assert(toks[i as int] == tokens@[i as int]@);
        let token = trim(tokens[i]);
        if token.is_empty() {
            proof {
                lemma_scan_failure_stays(toks, i + 1, toks.len() as int);
            }
            return Err(Error::EmptyHotKeyToken(hotkey.to_owned()));
        }
        if key.is_some() {
            proof {
                lemma_scan_failure_stays(toks, i + 1, toks.len() as int);
            }
            return Err(Error::UnexpectedHotKeyFormat(hotkey.to_owned()));
        }
        let u = to_upper(token);
        match modifier_of_keyword(u.as_str()) {
            Some(f) => {
                mods.set(Modifiers { bits: f }, true);
            },
            None => {
                match parse_key(token) {
                    Ok(k) => {
                        key = Some(k);
                    },
                    Err(e) => {
                        proof {
                            lemma_scan_failure_stays(toks, i + 1, toks.len() as int);
                        }
                        return Err(e);
                    },
                }
            },
        }
        i = i + 1;
    }
    match key {
        Some(k) => Ok(HotKey { mods, key: k, id: ids.next() }),
        None => Err(Error::UnexpectedHotKeyFormat(hotkey.to_owned())),
    }
}

/// The modifier flags that a run of modifier keywords, in any case, sets.
pub open spec fn flags_of(words: Seq<Seq<char>>) -> u32
    decreases words.len(),
{
    if words.len() == 0 {
        0
    } else {
        flags_of(words.drop_last()) | match modifier_of_name(upper_text(words.last())) {
            Some(f) => f,
            None => 0,
        }
    }
}

/// A modifier keyword written in any case.
pub open spec fn modifier_word(w: Seq<char>) -> bool {
    is_ascii_chars(w) && modifier_of_name(ascii_upper(w)) is Some
}

/// A key keyword written in any case.
pub open spec fn key_word(w: Seq<char>) -> bool {
    is_ascii_chars(w) && key_of_name(ascii_upper(w)) is Some
}

/// Reading modifier keywords and then a key keyword sets the flags of the
/// modifiers read so far, and then the key.
proof fn lemma_scan_keywords(mods: Seq<Seq<char>>, key: Seq<char>, n: int)
    requires
        forall|i: int| 0 <= i < mods.len() ==> modifier_word(#[trigger] mods[i]),
        key_word(key),
        0 <= n <= mods.len(),
    ensures
        scan(mods.push(key), n) == Ok::<(u32, Option<Code>), ParseOutcome>((flags_of(mods.take(n)), None)),
        n == mods.len() ==> scan(mods.push(key), n + 1) == Ok::<(u32, Option<Code>), ParseOutcome>(
            (flags_of(mods), key_of_name(ascii_upper(key))),
        ),
    decreases n,
{
    let toks = mods.push(key);
    if n > 0 {
        lemma_scan_keywords(mods, key, n - 1);
        let w = mods[n - 1];
        assert(toks[n - 1] == w);
        lemma_modifier_keywords_plain(ascii_upper(w));
        lemma_cased_word(w);
        assert(mods.take(n).drop_last() =~= mods.take(n - 1));
        assert(mods.take(n).last() == w);
    } else {
        assert(mods.take(0) =~= Seq::<Seq<char>>::empty());
    }
    if n == mods.len() {
        assert(mods.take(n) =~= mods);
        assert(toks[n] == key);
        lemma_key_keywords_plain(ascii_upper(key));
        lemma_cased_word(key);
    }
}

/// Modifier keywords in any order, then a key keyword, all in any case and
/// joined by `+`, read back as the flags of those modifiers and that key.
pub proof fn lemma_parse_round_trip(mods: Seq<Seq<char>>, key: Seq<char>)
    requires
        forall|i: int| 0 <= i < mods.len() ==> modifier_word(#[trigger] mods[i]),
        key_word(key),
    ensures
        parse_spec(join_with(mods.push(key), '+')) == ParseOutcome::Parsed(
            flags_of(mods),
            key_of_name(ascii_upper(key))->Some_0,
        ),
{
    let toks = mods.push(key);
    assert forall|i: int, j: int| 0 <= i < toks.len() && 0 <= j < toks[i].len() implies #[trigger] toks[i][j] != '+' by {
        if i < mods.len() {
            assert(toks[i] == mods[i]);
            lemma_modifier_keywords_plain(ascii_upper(mods[i]));
            lemma_cased_word(mods[i]);
        } else {
            assert(toks[i] == key);
            lemma_key_keywords_plain(ascii_upper(key));
            lemma_cased_word(key);
        }
    }
    lemma_split_join(toks, '+');
    lemma_scan_keywords(mods, key, mods.len() as int);
    if mods.len() == 0 {
        assert(toks[0] == key);
        lemma_key_keywords_plain(ascii_upper(key));
        lemma_cased_word(key);
        assert(flags_of(mods) == 0);
    }
}

/// Every modifier keyword is a plain word.
pub proof fn lemma_modifier_keywords_plain(s: Seq<char>)
    requires
        modifier_of_name(s) is Some,
    ensures
        plain_word(s),
{
    reveal_strlit("OPTION");
    reveal_strlit("ALT");
    reveal_strlit("CONTROL");
    reveal_strlit("CTRL");
    reveal_strlit("COMMAND");
    reveal_strlit("CMD");
    reveal_strlit("SUPER");
    reveal_strlit("SHIFT");
    reveal_strlit("COMMANDORCONTROL");
    reveal_strlit("COMMANDORCTRL");
    reveal_strlit("CMDORCTRL");
    reveal_strlit("CMDORCONTROL");
}

/// Every key keyword is a plain word, and none is a modifier keyword.
pub proof fn lemma_key_keywords_plain(s: Seq<char>)
    requires
        key_of_name(s) is Some,
    ensures
        plain_word(s),
        modifier_of_name(s) is None,
{
    reveal_strlit("OPTION");
    reveal_strlit("ALT");
    reveal_strlit("CONTROL");
    reveal_strlit("CTRL");
    reveal_strlit("COMMAND");
    reveal_strlit("CMD");
    reveal_strlit("SUPER");
    reveal_strlit("SHIFT");
    reveal_strlit("COMMANDORCONTROL");
    reveal_strlit("COMMANDORCTRL");
    reveal_strlit("CMDORCTRL");
    reveal_strlit("CMDORCONTROL");
    if s == "BACKQUOTE"@ || s == "`"@ {
        reveal_strlit("BACKQUOTE");
        reveal_strlit("`");
        assert((s.len() == 9 && s[0] == 'B' && s[1] == 'A') || (s.len() == 1 && s[0] == '`'));
    } else if s == "BACKSLASH"@ || s == "\\"@ {
        reveal_strlit("BACKSLASH");
        reveal_strlit("\\");
        assert((s.len() == 9 && s[0] == 'B' && s[1] == 'A') || (s.len() == 1 && s[0] == '\\'));
    } else if s == "BRACKETLEFT"@ || s == "["@ {
        reveal_strlit("BRACKETLEFT");
        reveal_strlit("[");
        assert((s.len() == 11 && s[0] == 'B' && s[1] == 'R') || (s.len() == 1 && s[0] == '['));
    } else if s == "BRACKETRIGHT"@ || s == "]"@ {
        reveal_strlit("BRACKETRIGHT");
        reveal_strlit("]");
        assert((s.len() == 12 && s[0] == 'B' && s[1] == 'R') || (s.len() == 1 && s[0] == ']'));
    } else if s == "COMMA"@ || s == ","@ {
        reveal_strlit("COMMA");
        reveal_strlit(",");
        assert((s.len() == 5 && s[0] == 'C' && s[1] == 'O') || (s.len() == 1 && s[0] == ','));
    } else if s == "DIGIT0"@ || s == "0"@ {
        reveal_strlit("DIGIT0");
        reveal_strlit("0");
        assert((s.len() == 6 && s[0] == 'D' && s[1] == 'I') || (s.len() == 1 && s[0] == '0'));
    } else if s == "DIGIT1"@ || s == "1"@ {
        reveal_strlit("DIGIT1");
        reveal_strlit("1");
        assert((s.len() == 6 && s[0] == 'D' && s[1] == 'I') || (s.len() == 1 && s[0] == '1'));
    } else if s == "DIGIT2"@ || s == "2"@ {
        reveal_strlit("DIGIT2");
        reveal_strlit("2");
        assert((s.len() == 6 && s[0] == 'D' && s[1] == 'I') || (s.len() == 1 && s[0] == '2'));
    } else if s == "DIGIT3"@ || s == "3"@ {
        reveal_strlit("DIGIT3");
        reveal_strlit("3");
        assert((s.len() == 6 && s[0] == 'D' && s[1] == 'I') || (s.len() == 1 && s[0] == '3'));
    } else if s == "DIGIT4"@ || s == "4"@ {
        reveal_strlit("DIGIT4");
        reveal_strlit("4");
        assert((s.len() == 6 && s[0] == 'D' && s[1] == 'I') || (s.len() == 1 && s[0] == '4'));
    } else if s == "DIGIT5"@ || s == "5"@ {
        reveal_strlit("DIGIT5");
        reveal_strlit("5");
        assert((s.len() == 6 && s[0] == 'D' && s[1] == 'I') || (s.len() == 1 && s[0] == '5'));
    } else if s == "DIGIT6"@ || s == "6"@ {
        reveal_strlit("DIGIT6");
        reveal_strlit("6");
        assert((s.len() == 6 && s[0] == 'D' && s[1] == 'I') || (s.len() == 1 && s[0] == '6'));
    } else if s == "DIGIT7"@ || s == "7"@ {
        reveal_strlit("DIGIT7");
        reveal_strlit("7");
        assert((s.len() == 6 && s[0] == 'D' && s[1] == 'I') || (s.len() == 1 && s[0] == '7'));
    } else if s == "DIGIT8"@ || s == "8"@ {
        reveal_strlit("DIGIT8");
        reveal_strlit("8");
        assert((s.len() == 6 && s[0] == 'D' && s[1] == 'I') || (s.len() == 1 && s[0] == '8'));
    } else if s == "DIGIT9"@ || s == "9"@ {
        reveal_strlit("DIGIT9");
        reveal_strlit("9");
        assert((s.len() == 6 && s[0] == 'D' && s[1] == 'I') || (s.len() == 1 && s[0] == '9'));
    } else if s == "EQUAL"@ || s == "="@ {
        reveal_strlit("EQUAL");
        reveal_strlit("=");
        assert((s.len() == 5 && s[0] == 'E' && s[1] == 'Q') || (s.len() == 1 && s[0] == '='));
    } else if s == "KEYA"@ || s == "A"@ {
        reveal_strlit("KEYA");
        reveal_strlit("A");
        assert((s.len() == 4 && s[0] == 'K' && s[1] == 'E') || (s.len() == 1 && s[0] == 'A'));
    } else if s == "KEYB"@ || s == "B"@ {
        reveal_strlit("KEYB");
        reveal_strlit("B");
        assert((s.len() == 4 && s[0] == 'K' && s[1] == 'E') || (s.len() == 1 && s[0] == 'B'));
    } else if s == "KEYC"@ || s == "C"@ {
        reveal_strlit("KEYC");
        reveal_strlit("C");
        assert((s.len() == 4 && s[0] == 'K' && s[1] == 'E') || (s.len() == 1 && s[0] == 'C'));
    } else if s == "KEYD"@ || s == "D"@ {
        reveal_strlit("KEYD");
        reveal_strlit("D");
        assert((s.len() == 4 && s[0] == 'K' && s[1] == 'E') || (s.len() == 1 && s[0] == 'D'));
    } else if s == "KEYE"@ || s == "E"@ {
        reveal_strlit("KEYE");
        reveal_strlit("E");
        assert((s.len() == 4 && s[0] == 'K' && s[1] == 'E') || (s.len() == 1 && s[0] == 'E'));
    } else if s == "KEYF"@ || s == "F"@ {
        reveal_strlit("KEYF");
        reveal_strlit("F");
        assert((s.len() == 4 && s[0] == 'K' && s[1] == 'E') || (s.len() == 1 && s[0] == 'F'));
    } else if s == "KEYG"@ || s == "G"@ {
        reveal_strlit("KEYG");
        reveal_strlit("G");
        assert((s.len() == 4 && s[0] == 'K' && s[1] == 'E') || (s.len() == 1 && s[0] == 'G'));
    } else if s == "KEYH"@ || s == "H"@ {
        reveal_strlit("KEYH");
        reveal_strlit("H");
        assert((s.len() == 4 && s[0] == 'K' && s[1] == 'E') || (s.len() == 1 && s[0] == 'H'));
    } else if s == "KEYI"@ || s == "I"@ {
        reveal_strlit("KEYI");
        reveal_strlit("I");
        assert((s.len() == 4 && s[0] == 'K' && s[1] == 'E') || (s.len() == 1 && s[0] == 'I'));
    } else if s == "KEYJ"@ || s == "J"@ {
        reveal_strlit("KEYJ");
        reveal_strlit("J");
        assert((s.len() == 4 && s[0] == 'K' && s[1] == 'E') || (s.len() == 1 && s[0] == 'J'));
    } else if s == "KEYK"@ || s == "K"@ {
        reveal_strlit("KEYK");
        reveal_strlit("K");
        assert((s.len() == 4 && s[0] == 'K' && s[1] == 'E') || (s.len() == 1 && s[0] == 'K'));
    } else if s == "KEYL"@ || s == "L"@ {
        reveal_strlit("KEYL");
        reveal_strlit("L");
        assert((s.len() == 4 && s[0] == 'K' && s[1] == 'E') || (s.len() == 1 && s[0] == 'L'));
    } else if s == "KEYM"@ || s == "M"@ {
        reveal_strlit("KEYM");
        reveal_strlit("M");
        assert((s.len() == 4 && s[0] == 'K' && s[1] == 'E') || (s.len() == 1 && s[0] == 'M'));
    } else if s == "KEYN"@ || s == "N"@ {
        reveal_strlit("KEYN");
        reveal_strlit("N");
        assert((s.len() == 4 && s[0] == 'K' && s[1] == 'E') || (s.len() == 1 && s[0] == 'N'));
    } else if s == "KEYO"@ || s == "O"@ {
        reveal_strlit("KEYO");
        reveal_strlit("O");
        assert((s.len() == 4 && s[0] == 'K' && s[1] == 'E') || (s.len() == 1 && s[0] == 'O'));
    } else if s == "KEYP"@ || s == "P"@ {
        reveal_strlit("KEYP");
        reveal_strlit("P");
        assert((s.len() == 4 && s[0] == 'K' && s[1] == 'E') || (s.len() == 1 && s[0] == 'P'));
    } else if s == "KEYQ"@ || s == "Q"@ {
        reveal_strlit("KEYQ");
        reveal_strlit("Q");
        assert((s.len() == 4 && s[0] == 'K' && s[1] == 'E') || (s.len() == 1 && s[0] == 'Q'));
    } else if s == "KEYR"@ || s == "R"@ {
        reveal_strlit("KEYR");
        reveal_strlit("R");
        assert((s.len() == 4 && s[0] == 'K' && s[1] == 'E') || (s.len() == 1 && s[0] == 'R'));
    } else if s == "KEYS"@ || s == "S"@ {
        reveal_strlit("KEYS");
        reveal_strlit("S");
        assert((s.len() == 4 && s[0] == 'K' && s[1] == 'E') || (s.len() == 1 && s[0] == 'S'));
    } else if s == "KEYT"@ || s == "T"@ {
        reveal_strlit("KEYT");
        reveal_strlit("T");
        assert((s.len() == 4 && s[0] == 'K' && s[1] == 'E') || (s.len() == 1 && s[0] == 'T'));
    } else if s == "KEYU"@ || s == "U"@ {
        reveal_strlit("KEYU");
        reveal_strlit("U");
        assert((s.len() == 4 && s[0] == 'K' && s[1] == 'E') || (s.len() == 1 && s[0] == 'U'));
    } else if s == "KEYV"@ || s == "V"@ {
        reveal_strlit("KEYV");
        reveal_strlit("V");
        assert((s.len() == 4 && s[0] == 'K' && s[1] == 'E') || (s.len() == 1 && s[0] == 'V'));
    } else if s == "KEYW"@ || s == "W"@ {
        reveal_strlit("KEYW");
        reveal_strlit("W");
        assert((s.len() == 4 && s[0] == 'K' && s[1] == 'E') || (s.len() == 1 && s[0] == 'W'));
    } else if s == "KEYX"@ || s == "X"@ {
        reveal_strlit("KEYX");
        reveal_strlit("X");
        assert((s.len() == 4 && s[0] == 'K' && s[1] == 'E') || (s.len() == 1 && s[0] == 'X'));
    } else if s == "KEYY"@ || s == "Y"@ {
        reveal_strlit("KEYY");
        reveal_strlit("Y");
        assert((s.len() == 4 && s[0] == 'K' && s[1] == 'E') || (s.len() == 1 && s[0] == 'Y'));
    } else if s == "KEYZ"@ || s == "Z"@ {
        reveal_strlit("KEYZ");
        reveal_strlit("Z");
        assert((s.len() == 4 && s[0] == 'K' && s[1] == 'E') || (s.len() == 1 && s[0] == 'Z'));
    } else if s == "MINUS"@ || s == "-"@ {
        reveal_strlit("MINUS");
        reveal_strlit("-");
        assert((s.len() == 5 && s[0] == 'M' && s[1] == 'I') || (s.len() == 1 && s[0] == '-'));
    } else if s == "PERIOD"@ || s == "."@ {
        reveal_strlit("PERIOD");
        reveal_strlit(".");
        assert((s.len() == 6 && s[0] == 'P' && s[1] == 'E') || (s.len() == 1 && s[0] == '.'));
    } else if s == "QUOTE"@ || s == "'"@ {
        reveal_strlit("QUOTE");
        reveal_strlit("'");
        assert((s.len() == 5 && s[0] == 'Q' && s[1] == 'U') || (s.len() == 1 && s[0] == '\''));
    } else if s == "SEMICOLON"@ || s == ";"@ {
        reveal_strlit("SEMICOLON");
        reveal_strlit(";");
        assert((s.len() == 9 && s[0] == 'S' && s[1] == 'E') || (s.len() == 1 && s[0] == ';'));
    } else if s == "SLASH"@ || s == "/"@ {
        reveal_strlit("SLASH");
        reveal_strlit("/");
        assert((s.len() == 5 && s[0] == 'S' && s[1] == 'L') || (s.len() == 1 && s[0] == '/'));
    } else if s == "BACKSPACE"@ {
        reveal_strlit("BACKSPACE");
        assert((s.len() == 9 && s[0] == 'B' && s[1] == 'A'));
    } else if s == "CAPSLOCK"@ {
        reveal_strlit("CAPSLOCK");
        assert((s.len() == 8 && s[0] == 'C' && s[1] == 'A'));
    } else if s == "ENTER"@ {
        reveal_strlit("ENTER");
        assert((s.len() == 5 && s[0] == 'E' && s[1] == 'N'));
    } else if s == "SPACE"@ {
        reveal_strlit("SPACE");
        assert((s.len() == 5 && s[0] == 'S' && s[1] == 'P'));
    } else if s == "TAB"@ {
        reveal_strlit("TAB");
        assert((s.len() == 3 && s[0] == 'T' && s[1] == 'A'));
    } else if s == "DELETE"@ {
        reveal_strlit("DELETE");
        assert((s.len() == 6 && s[0] == 'D' && s[1] == 'E'));
    } else if s == "END"@ {
        reveal_strlit("END");
        assert((s.len() == 3 && s[0] == 'E' && s[1] == 'N'));
    } else if s == "HOME"@ {
        reveal_strlit("HOME");
        assert((s.len() == 4 && s[0] == 'H' && s[1] == 'O'));
    } else if s == "INSERT"@ {
        reveal_strlit("INSERT");
        assert((s.len() == 6 && s[0] == 'I' && s[1] == 'N'));
    } else if s == "PAGEDOWN"@ {
        reveal_strlit("PAGEDOWN");
        assert((s.len() == 8 && s[0] == 'P' && s[1] == 'A'));
    } else if s == "PAGEUP"@ {
        reveal_strlit("PAGEUP");
        assert((s.len() == 6 && s[0] == 'P' && s[1] == 'A'));
    } else if s == "PRINTSCREEN"@ {
        reveal_strlit("PRINTSCREEN");
        assert((s.len() == 11 && s[0] == 'P' && s[1] == 'R'));
    } else if s == "SCROLLLOCK"@ {
        reveal_strlit("SCROLLLOCK");
        assert((s.len() == 10 && s[0] == 'S' && s[1] == 'C'));
    } else if s == "ARROWDOWN"@ || s == "DOWN"@ {
        reveal_strlit("ARROWDOWN");
        reveal_strlit("DOWN");
        assert((s.len() == 9 && s[0] == 'A' && s[1] == 'R') || (s.len() == 4 && s[0] == 'D' && s[1] == 'O'));
    } else if s == "ARROWLEFT"@ || s == "LEFT"@ {
        reveal_strlit("ARROWLEFT");
        reveal_strlit("LEFT");
        assert((s.len() == 9 && s[0] == 'A' && s[1] == 'R') || (s.len() == 4 && s[0] == 'L' && s[1] == 'E'));
    } else if s == "ARROWRIGHT"@ || s == "RIGHT"@ {
        reveal_strlit("ARROWRIGHT");
        reveal_strlit("RIGHT");
        assert((s.len() == 10 && s[0] == 'A' && s[1] == 'R') || (s.len() == 5 && s[0] == 'R' && s[1] == 'I'));
    } else if s == "ARROWUP"@ || s == "UP"@ {
        reveal_strlit("ARROWUP");
        reveal_strlit("UP");
        assert((s.len() == 7 && s[0] == 'A' && s[1] == 'R') || (s.len() == 2 && s[0] == 'U' && s[1] == 'P'));
    } else if s == "NUMLOCK"@ {
        reveal_strlit("NUMLOCK");
        assert((s.len() == 7 && s[0] == 'N' && s[1] == 'U'));
    } else if s == "NUMPAD0"@ || s == "NUM0"@ {
        reveal_strlit("NUMPAD0");
        reveal_strlit("NUM0");
        assert((s.len() == 7 && s[0] == 'N' && s[1] == 'U') || (s.len() == 4 && s[0] == 'N' && s[1] == 'U'));
    } else if s == "NUMPAD1"@ || s == "NUM1"@ {
        reveal_strlit("NUMPAD1");
        reveal_strlit("NUM1");
        assert((s.len() == 7 && s[0] == 'N' && s[1] == 'U') || (s.len() == 4 && s[0] == 'N' && s[1] == 'U'));
    } else if s == "NUMPAD2"@ || s == "NUM2"@ {
        reveal_strlit("NUMPAD2");
        reveal_strlit("NUM2");
        assert((s.len() == 7 && s[0] == 'N' && s[1] == 'U') || (s.len() == 4 && s[0] == 'N' && s[1] == 'U'));
    } else if s == "NUMPAD3"@ || s == "NUM3"@ {
        reveal_strlit("NUMPAD3");
        reveal_strlit("NUM3");
        assert((s.len() == 7 && s[0] == 'N' && s[1] == 'U') || (s.len() == 4 && s[0] == 'N' && s[1] == 'U'));
    } else if s == "NUMPAD4"@ || s == "NUM4"@ {
        reveal_strlit("NUMPAD4");
        reveal_strlit("NUM4");
        assert((s.len() == 7 && s[0] == 'N' && s[1] == 'U') || (s.len() == 4 && s[0] == 'N' && s[1] == 'U'));
    } else if s == "NUMPAD5"@ || s == "NUM5"@ {
        reveal_strlit("NUMPAD5");
        reveal_strlit("NUM5");
        assert((s.len() == 7 && s[0] == 'N' && s[1] == 'U') || (s.len() == 4 && s[0] == 'N' && s[1] == 'U'));
    } else if s == "NUMPAD6"@ || s == "NUM6"@ {
        reveal_strlit("NUMPAD6");
        reveal_strlit("NUM6");
        assert((s.len() == 7 && s[0] == 'N' && s[1] == 'U') || (s.len() == 4 && s[0] == 'N' && s[1] == 'U'));
    } else if s == "NUMPAD7"@ || s == "NUM7"@ {
        reveal_strlit("NUMPAD7");
        reveal_strlit("NUM7");
        assert((s.len() == 7 && s[0] == 'N' && s[1] == 'U') || (s.len() == 4 && s[0] == 'N' && s[1] == 'U'));
    } else if s == "NUMPAD8"@ || s == "NUM8"@ {
        reveal_strlit("NUMPAD8");
        reveal_strlit("NUM8");
        assert((s.len() == 7 && s[0] == 'N' && s[1] == 'U') || (s.len() == 4 && s[0] == 'N' && s[1] == 'U'));
    } else if s == "NUMPAD9"@ || s == "NUM9"@ {
        reveal_strlit("NUMPAD9");
        reveal_strlit("NUM9");
        assert((s.len() == 7 && s[0] == 'N' && s[1] == 'U') || (s.len() == 4 && s[0] == 'N' && s[1] == 'U'));
    } else if s == "NUMPADADD"@ || s == "NUMADD"@ || s == "NUMPADPLUS"@ || s == "NUMPLUS"@ {
        reveal_strlit("NUMPADADD");
        reveal_strlit("NUMADD");
        reveal_strlit("NUMPADPLUS");
        reveal_strlit("NUMPLUS");
        assert((s.len() == 9 && s[0] == 'N' && s[1] == 'U') || (s.len() == 6 && s[0] == 'N' && s[1] == 'U') || (s.len() == 10 && s[0] == 'N' && s[1] == 'U') || (s.len() == 7 && s[0] == 'N' && s[1] == 'U'));
    } else if s == "NUMPADDECIMAL"@ || s == "NUMDECIMAL"@ {
        reveal_strlit("NUMPADDECIMAL");
        reveal_strlit("NUMDECIMAL");
        assert((s.len() == 13 && s[0] == 'N' && s[1] == 'U') || (s.len() == 10 && s[0] == 'N' && s[1] == 'U'));
    } else if s == "NUMPADDIVIDE"@ || s == "NUMDIVIDE"@ {
        reveal_strlit("NUMPADDIVIDE");
        reveal_strlit("NUMDIVIDE");
        assert((s.len() == 12 && s[0] == 'N' && s[1] == 'U') || (s.len() == 9 && s[0] == 'N' && s[1] == 'U'));
    } else if s == "NUMPADENTER"@ || s == "NUMENTER"@ {
        reveal_strlit("NUMPADENTER");
        reveal_strlit("NUMENTER");
        assert((s.len() == 11 && s[0] == 'N' && s[1] == 'U') || (s.len() == 8 && s[0] == 'N' && s[1] == 'U'));
    } else if s == "NUMPADEQUAL"@ || s == "NUMEQUAL"@ {
        reveal_strlit("NUMPADEQUAL");
        reveal_strlit("NUMEQUAL");
        assert((s.len() == 11 && s[0] == 'N' && s[1] == 'U') || (s.len() == 8 && s[0] == 'N' && s[1] == 'U'));
    } else if s == "NUMPADMULTIPLY"@ || s == "NUMMULTIPLY"@ {
        reveal_strlit("NUMPADMULTIPLY");
        reveal_strlit("NUMMULTIPLY");
        assert((s.len() == 14 && s[0] == 'N' && s[1] == 'U') || (s.len() == 11 && s[0] == 'N' && s[1] == 'U'));
    } else if s == "NUMPADSUBTRACT"@ || s == "NUMSUBTRACT"@ {
        reveal_strlit("NUMPADSUBTRACT");
        reveal_strlit("NUMSUBTRACT");
        assert((s.len() == 14 && s[0] == 'N' && s[1] == 'U') || (s.len() == 11 && s[0] == 'N' && s[1] == 'U'));
    } else if s == "ESCAPE"@ || s == "ESC"@ {
        reveal_strlit("ESCAPE");
        reveal_strlit("ESC");
        assert((s.len() == 6 && s[0] == 'E' && s[1] == 'S') || (s.len() == 3 && s[0] == 'E' && s[1] == 'S'));
    } else if s == "F1"@ {
        reveal_strlit("F1");
        assert((s.len() == 2 && s[0] == 'F' && s[1] == '1'));
    } else if s == "F2"@ {
        reveal_strlit("F2");
        assert((s.len() == 2 && s[0] == 'F' && s[1] == '2'));
    } else if s == "F3"@ {
        reveal_strlit("F3");
        assert((s.len() == 2 && s[0] == 'F' && s[1] == '3'));
    } else if s == "F4"@ {
        reveal_strlit("F4");
        assert((s.len() == 2 && s[0] == 'F' && s[1] == '4'));
    } else if s == "F5"@ {
        reveal_strlit("F5");
        assert((s.len() == 2 && s[0] == 'F' && s[1] == '5'));
    } else if s == "F6"@ {
        reveal_strlit("F6");
        assert((s.len() == 2 && s[0] == 'F' && s[1] == '6'));
    } else if s == "F7"@ {
        reveal_strlit("F7");
        assert((s.len() == 2 && s[0] == 'F' && s[1] == '7'));
    } else if s == "F8"@ {
        reveal_strlit("F8");
        assert((s.len() == 2 && s[0] == 'F' && s[1] == '8'));
    } else if s == "F9"@ {
        reveal_strlit("F9");
        assert((s.len() == 2 && s[0] == 'F' && s[1] == '9'));
    } else if s == "F10"@ {
        reveal_strlit("F10");
        assert((s.len() == 3 && s[0] == 'F' && s[1] == '1'));
    } else if s == "F11"@ {
        reveal_strlit("F11");
        assert((s.len() == 3 && s[0] == 'F' && s[1] == '1'));
    } else if s == "F12"@ {
        reveal_strlit("F12");
        assert((s.len() == 3 && s[0] == 'F' && s[1] == '1'));
    } else if s == "AUDIOVOLUMEDOWN"@ || s == "VOLUMEDOWN"@ {
        reveal_strlit("AUDIOVOLUMEDOWN");
        reveal_strlit("VOLUMEDOWN");
        assert((s.len() == 15 && s[0] == 'A' && s[1] == 'U') || (s.len() == 10 && s[0] == 'V' && s[1] == 'O'));
    } else if s == "AUDIOVOLUMEUP"@ || s == "VOLUMEUP"@ {
        reveal_strlit("AUDIOVOLUMEUP");
        reveal_strlit("VOLUMEUP");
        assert((s.len() == 13 && s[0] == 'A' && s[1] == 'U') || (s.len() == 8 && s[0] == 'V' && s[1] == 'O'));
    } else if s == "AUDIOVOLUMEMUTE"@ || s == "VOLUMEMUTE"@ {
        reveal_strlit("AUDIOVOLUMEMUTE");
        reveal_strlit("VOLUMEMUTE");
        assert((s.len() == 15 && s[0] == 'A' && s[1] == 'U') || (s.len() == 10 && s[0] == 'V' && s[1] == 'O'));
    } else if s == "F13"@ {
        reveal_strlit("F13");
        assert((s.len() == 3 && s[0] == 'F' && s[1] == '1'));
    } else if s == "F14"@ {
        reveal_strlit("F14");
        assert((s.len() == 3 && s[0] == 'F' && s[1] == '1'));
    } else if s == "F15"@ {
        reveal_strlit("F15");
        assert((s.len() == 3 && s[0] == 'F' && s[1] == '1'));
    } else if s == "F16"@ {
        reveal_strlit("F16");
        assert((s.len() == 3 && s[0] == 'F' && s[1] == '1'));
    } else if s == "F17"@ {
        reveal_strlit("F17");
        assert((s.len() == 3 && s[0] == 'F' && s[1] == '1'));
    } else if s == "F18"@ {
        reveal_strlit("F18");
        assert((s.len() == 3 && s[0] == 'F' && s[1] == '1'));
    } else if s == "F19"@ {
        reveal_strlit("F19");
        assert((s.len() == 3 && s[0] == 'F' && s[1] == '1'));
    } else if s == "F20"@ {
        reveal_strlit("F20");
        assert((s.len() == 3 && s[0] == 'F' && s[1] == '2'));
    } else if s == "F21"@ {
        reveal_strlit("F21");
        assert((s.len() == 3 && s[0] == 'F' && s[1] == '2'));
    } else if s == "F22"@ {
        reveal_strlit("F22");
        assert((s.len() == 3 && s[0] == 'F' && s[1] == '2'));
    } else if s == "F23"@ {
        reveal_strlit("F23");
        assert((s.len() == 3 && s[0] == 'F' && s[1] == '2'));
    } else if s == "F24"@ {
        reveal_strlit("F24");
        assert((s.len() == 3 && s[0] == 'F' && s[1] == '2'));
    }
}

} // verus!
