//! JSON text for the arguments of recorded function calls.

use vstd::prelude::*;
use vstd::string::StringExecFns;

verus! {

/// The JSON string literal that `serde_json` writes for the text `s`: the
/// text between double quotes, with every character escaped that JSON does
/// not take as it is.
pub uninterp spec fn json_string_text(s: Seq<char>) -> Seq<char>;

/// `serde_json::to_string` on a string slice. For such a value it cannot fail:
/// a string is no map, and the output goes to memory. The result is the JSON
/// string literal for `s`, which depends on `s` alone.
#[verifier::external_body]
fn json_string(s: &str) -> (literal: Option<String>)
    ensures
        literal is Some,
        literal->0@ == json_string_text(s@),
{
    serde_json::to_string(s).ok()
}

/// The character that stands for the digit `d`.
pub open spec fn digit_char(d: nat) -> char
    recommends
        d < 10,
{
    if d == 0 {
        '0'
    } else if d == 1 {
        '1'
    } else if d == 2 {
        '2'
    } else if d == 3 {
        '3'
    } else if d == 4 {
        '4'
    } else if d == 5 {
        '5'
    } else if d == 6 {
        '6'
    } else if d == 7 {
        '7'
    } else if d == 8 {
        '8'
    } else {
        '9'
    }
}

/// The decimal numeral of `n`, without leading zeros.
pub open spec fn decimal_text(n: nat) -> Seq<char>
    decreases n,
{
    if n < 10 {
        seq![digit_char(n)]
    } else {
        decimal_text(n / 10).push(digit_char(n % 10))
    }
}

fn digit_str(d: usize) -> (text: &'static str)
    requires
        d < 10,
    ensures
        text@ == seq![digit_char(d as nat)],
{
    proof {
        reveal_strlit("0");
        reveal_strlit("1");
        reveal_strlit("2");
        reveal_strlit("3");
        reveal_strlit("4");
        reveal_strlit("5");
        reveal_strlit("6");
        reveal_strlit("7");
        reveal_strlit("8");
        reveal_strlit("9");
    }
    let text = if d == 0 {
        "0"
    } else if d == 1 {
        "1"
    } else if d == 2 {
        "2"
    } else if d == 3 {
        "3"
    } else if d == 4 {
        "4"
    } else if d == 5 {
        "5"
    } else if d == 6 {
        "6"
    } else if d == 7 {
        "7"
    } else if d == 8 {
        "8"
    } else {
        "9"
    };
    text
}

/// Writes `n` as a decimal numeral, the form in which JSON holds a number.
pub fn decimal(n: usize) -> (text: String)
    ensures
        text@ == decimal_text(n as nat),
    decreases n,
{
    if n < 10 {
        String::from_str(digit_str(n))
    } else {
        let mut text = decimal(n / 10);
        text.append(digit_str(n % 10));
        text
    }
}

/// The JSON object `{"aggressiveness":U,"thinking":T}` around the numeral `U`
/// of `urgency` and the string literal `thinking_literal`.
pub open spec fn reaction_frame(urgency: nat, thinking_literal: Seq<char>) -> Seq<char> {
    "{\"aggressiveness\":"@ + decimal_text(urgency) + ",\"thinking\":"@ + thinking_literal + "}"@
}

/// The JSON object `{"message":M}` around the string literal `message_literal`.
pub open spec fn chat_frame(message_literal: Seq<char>) -> Seq<char> {
    "{\"message\":"@ + message_literal + "}"@
}

/// The arguments of a recorded reaction as JSON text.
pub open spec fn reaction_arguments_text(urgency: nat, thinking: Seq<char>) -> Seq<char> {
    reaction_frame(urgency, json_string_text(thinking))
}

/// The arguments of a recorded utterance as JSON text.
pub open spec fn chat_arguments_text(message: Seq<char>) -> Seq<char> {
    chat_frame(json_string_text(message))
}

/// Frames the arguments of a reaction around a string literal that is
/// already written.
pub fn frame_reaction_arguments(urgency: usize, thinking_literal: &str) -> (text: String)
    ensures
        text@ == reaction_frame(urgency as nat, thinking_literal@),
{
    let mut text = String::from_str("{\"aggressiveness\":");
    let numeral = decimal(urgency);
    text.append(numeral.as_str());
    text.append(",\"thinking\":");
    text.append(thinking_literal);
    text.append("}");
    text
}

/// Frames the arguments of an utterance around a string literal that is
/// already written.
pub fn frame_chat_arguments(message_literal: &str) -> (text: String)
    ensures
        text@ == chat_frame(message_literal@),
{
    let mut text = String::from_str("{\"message\":");
    text.append(message_literal);
    text.append("}");
    text
}

/// The JSON text of a reaction's arguments: an object with the urgency under
/// `aggressiveness` and the reflection under `thinking`, in this order.
pub fn reaction_arguments(urgency: usize, thinking: &str) -> (text: String)
    ensures
        text@ == reaction_arguments_text(urgency as nat, thinking@),
{
    let literal = json_string(thinking).unwrap();
    frame_reaction_arguments(urgency, literal.as_str())
}

/// The JSON text of an utterance's arguments: an object with the text under
/// `message`.
pub fn chat_arguments(message: &str) -> (text: String)
    ensures
        text@ == chat_arguments_text(message@),
{
    let literal = json_string(message).unwrap();
    frame_chat_arguments(literal.as_str())
}

} // verus!
