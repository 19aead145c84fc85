//! The values that queries take and give.

use crate::numeral::{digit, integer_text, push_integer};
use vstd::prelude::*;
use vstd::string::*;

verus! {

/// A GraphQL value, as it stands on the way into a field or out of one.
#[derive(Debug, PartialEq, Eq)]
pub enum Value {
    /// The absence of a value.
    Null,
    /// A whole number.
    Number(i64),
    /// A string.
    String(String),
    /// A truth value.
    Boolean(bool),
    /// A list of values.
    List(Vec<Value>),
    /// An object: its fields, in order.
    Object(Vec<(String, Value)>),
    /// Text that is serialized already and is sent as it is.
    Raw(String),
}

impl Default for Value {
    fn default() -> (value: Self)
        ensures
            value == Value::Null,
    {
        Value::Null
    }
}

/// The character that stands for the hexadecimal digit `d`, which is below
/// sixteen.
pub open spec fn hex_digit(d: nat) -> char {
    if d < 10 {
        digit(d)
    } else {
        ((0x61 + d - 10) as u8) as char
    }
}

/// How a character stands inside a string of JSON text: the quotation mark
/// and the backslash after a backslash, a control character as its short
/// escape or else as `\u00` and two hexadecimal digits, any other character
/// as itself.
pub open spec fn escaped(c: char) -> Seq<char> {
    if c == '"' {
        seq!['\\', '"']
    } else if c == '\\' {
        seq!['\\', '\\']
    } else if c == '\u{8}' {
        seq!['\\', 'b']
    } else if c == '\u{c}' {
        seq!['\\', 'f']
    } else if c == '\n' {
        seq!['\\', 'n']
    } else if c == '\r' {
        seq!['\\', 'r']
    } else if c == '\t' {
        seq!['\\', 't']
    } else if (c as u32) < 0x20 {
        seq!['\\', 'u', '0', '0', hex_digit((c as u32 / 16) as nat), hex_digit((c as u32 % 16) as nat)]
    } else {
        seq![c]
    }
}

/// The characters of `text`, each as it stands inside a string of JSON text.
pub open spec fn escaped_text(text: Seq<char>) -> Seq<char>
    decreases text.len(),
{
    if text.len() == 0 {
        Seq::empty()
    } else {
        escaped_text(text.drop_last()) + escaped(text.last())
    }
}

/// `text` as a string of JSON text, between quotation marks.
pub open spec fn string_text(text: Seq<char>) -> Seq<char> {
    seq!['"'] + escaped_text(text) + seq!['"']
}

/// The JSON text of a value. A raw value is its own text.
pub open spec fn json_text(value: Value) -> Seq<char>
    decreases value, 0nat,
{
    match value {
        Value::Null => "null"@,
        Value::Number(number) => integer_text(number as int),
        Value::String(text) => string_text(text@),
        Value::Boolean(truth) => if truth {
            "true"@
        } else {
            "false"@
        },
        Value::List(items) => seq!['['] + items_text(items, items.len() as nat) + seq![']'],
        Value::Object(fields) => seq!['{'] + fields_text(fields, fields.len() as nat) + seq!['}'],
        Value::Raw(text) => text@,
    }
}

/// The JSON text of the first `n` of `items`, with commas between them.
pub open spec fn items_text(items: Vec<Value>, n: nat) -> Seq<char>
    decreases items, n,
{
    if n == 0 || n > items.len() {
        Seq::empty()
    } else if n == 1 {
        json_text(items[0])
    } else {
        items_text(items, (n - 1) as nat) + seq![','] + json_text(items[n - 1])
    }
}

/// The JSON text of the first `n` of `fields`, each as its name, a colon and
/// its value, with commas between them.
pub open spec fn fields_text(fields: Vec<(String, Value)>, n: nat) -> Seq<char>
    decreases fields, n,
{
    if n == 0 || n > fields.len() {
        Seq::empty()
    } else if n == 1 {
        string_text(fields[0].0@) + seq![':'] + json_text(fields[0].1)
    } else {
        fields_text(fields, (n - 1) as nat) + seq![','] + string_text(fields[n - 1].0@) + seq![':']
            + json_text(fields[n - 1].1)
    }
}

/// `String::push` of the standard library: the character is added at the
/// end of the text, and nothing else of the text changes.
#[verifier::external_body]
fn push_char(out: &mut String, c: char)
    ensures
        final(out)@ == old(out)@.push(c),
{
    out.push(c);
}

fn hex_str(d: u32) -> (s: &'static str)
    requires
        d < 16,
    ensures
        s@ == seq![hex_digit(d as nat)],
{
    proof {
        reveal_strlit("0");
        reveal_strlit("1");
        reveal_strlit("2");
        reveal_strlit("3");
        reveal_strlit("4");
        reveal_strlit("5");
        reveal_strlit("6");
        reveal_strlit("7");
        reveal_strlit("8");
        reveal_strlit("9");
        reveal_strlit("a");
        reveal_strlit("b");
        reveal_strlit("c");
        reveal_strlit("d");
        reveal_strlit("e");
        reveal_strlit("f");
    }
    match d {
        0 => "0",
        1 => "1",
        2 => "2",
        3 => "3",
        4 => "4",
        5 => "5",
        6 => "6",
        7 => "7",
        8 => "8",
        9 => "9",
        10 => "a",
        11 => "b",
        12 => "c",
        13 => "d",
        14 => "e",
        _ => "f",
    }
}

fn push_escaped(out: &mut String, c: char)
    ensures
        final(out)@ == old(out)@ + escaped(c),
{
    proof {
        reveal_strlit("\\\"");
        reveal_strlit("\\\\");
        reveal_strlit("\\b");
        reveal_strlit("\\f");
        reveal_strlit("\\n");
        reveal_strlit("\\r");
        reveal_strlit("\\t");
        reveal_strlit("\\u00");
    }
    if c == '"' {
        out.append("\\\"");
    } else if c == '\\' {
        out.append("\\\\");
    } else if c == '\u{8}' {
        out.append("\\b");
    } else if c == '\u{c}' {
        out.append("\\f");
    } else if c == '\n' {
        out.append("\\n");
    } else if c == '\r' {
        out.append("\\r");
    } else if c == '\t' {
        out.append("\\t");
    } else if (c as u32) < 0x20 {
        out.append("\\u00");
        out.append(hex_str(c as u32 / 16));
        out.append(hex_str(c as u32 % 16));
    } else {
        push_char(out, c);
    }
}

fn push_string(out: &mut String, text: &str)
    ensures
        final(out)@ == old(out)@ + string_text(text@),
{
    proof {
        reveal_strlit("\"");
    }
    out.append("\"");
    let ghost start = out@;
    for c in it: text.chars()
        invariant
            it.seq() == text@,
            out@ == start + escaped_text(text@.take(it.index() as int)),
    {
        proof {
            assert(text@.take(it.index() + 1).drop_last() =~= text@.take(it.index() as int));
        }
        push_escaped(out, c);
    }
    assert(text@.take(text@.len() as int) =~= text@);
    out.append("\"");
}

fn push_value(out: &mut String, value: &Value)
    ensures
        final(out)@ == old(out)@ + json_text(*value),
    decreases *value,
{
    proof {
        reveal_strlit("null");
        reveal_strlit("true");
        reveal_strlit("false");
        reveal_strlit("[");
        reveal_strlit("]");
        reveal_strlit("{");
        reveal_strlit("}");
        reveal_strlit(",");
        reveal_strlit(":");
    }
    match value {
        Value::Null => {
            out.append("null");
        },
        Value::Number(number) => {
            push_integer(out, *number);
        },
        Value::String(text) => {
            push_string(out, text.as_str());
        },
        Value::Boolean(truth) => {
            if *truth {
                out.append("true");
            } else {
                out.append("false");
            }
        },
        Value::List(items) => {
            out.append("[");
            let ghost start = out@;
            let mut i: usize = 0;
            while i < items.len()
                invariant
                    i <= items.len(),
                    *value == Value::List(*items),
                    out@ == start + items_text(*items, i as nat),
                decreases items.len() - i,
            {
                proof {
                    reveal_strlit(",");
                }
                if i > 0 {
                    out.append(",");
                }
                proof {
                    // an item of the list is smaller than the list
                    vstd::std_specs::vec::axiom_vec_index_decreases(*items, i as int);
                    assert(decreases_to!(*value => (*value)->List_0));
                }
                push_value(out, &items[i]);
                i += 1;
            }
            out.append("]");
        },
        Value::Object(fields) => {
            out.append("{");
            let ghost start = out@;
            let mut i: usize = 0;
            while i < fields.len()
                invariant
                    i <= fields.len(),
                    *value == Value::Object(*fields),
                    out@ == start + fields_text(*fields, i as nat),
                decreases fields.len() - i,
            {
                proof {
                    reveal_strlit(",");
                    reveal_strlit(":");
                }
                if i > 0 {
                    out.append(",");
                }
                push_string(out, fields[i].0.as_str());
                out.append(":");
                proof {
                    // the value of a field is smaller than the object
                    vstd::std_specs::vec::axiom_vec_index_decreases(*fields, i as int);
                    assert(decreases_to!(*value => (*value)->Object_0));
                }
                push_value(out, &fields[i].1);
                i += 1;
            }
            out.append("}");
        },
        Value::Raw(text) => {
            out.append(text.as_str());
        },
    }
}

impl Value {
    /// The text of a raw value; nothing for any other value.
    pub open spec fn raw_text(self) -> Option<Seq<char>> {
        match self {
            Value::Raw(text) => Some(text@),
            _ => None,
        }
    }

    /// Whether the value is serialized already.
    pub fn is_raw(&self) -> (raw: bool)
        ensures
            raw == (self is Raw),
    {
        match self {
            Value::Raw(_) => true,
            _ => false,
        }
    }

    /// The JSON text of the value. A raw value gives its own text, as it
    /// is.
    pub fn to_text(&self) -> (text: String)
        ensures
            text@ == json_text(*self),
    {
        let mut out = String::new();
        push_value(&mut out, self);
        out
    }
}

} // verus!
