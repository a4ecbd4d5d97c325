//! The lines that the scripting worker writes for its parent: one JSON object
//! to a line, with the requested action under the key `action`.

use vstd::prelude::*;

verus! {

/// The key under which a line carries its action.
pub const ACTION_KEY: &'static str = "action";

/// The action by which the worker says that its interpreter runs.
pub const RUNNING: &'static str = "running";

/// The action by which the worker says that its interpreter does not run.
pub const NOT_RUNNING: &'static str = "not_running";

/// What a line holds under a key.
#[derive(Debug)]
pub enum Member {
    /// The line is no JSON object, or the object has no such key.
    Absent,
    /// The key is there with something other than a string.
    Other,
    /// The key is there with this string.
    Text(String),
}

/// A `Member` with its text as a sequence of characters.
pub enum MemberView {
    Absent,
    Other,
    Text(Seq<char>),
}

impl View for Member {
    type V = MemberView;

    open spec fn view(&self) -> MemberView {
        match self {
            Member::Absent => MemberView::Absent,
            Member::Other => MemberView::Other,
            Member::Text(s) => MemberView::Text(s@),
        }
    }
}

/// What `serde_json` finds under `key` in `line`, read as one JSON value.
pub uninterp spec fn line_member(line: Seq<char>, key: Seq<char>) -> MemberView;

/// The character for the hexadecimal digit `d`, in lower case.
pub open spec fn hex_digit(d: int) -> char
    recommends
        0 <= d < 16,
{
    if d < 10 {
        ((48 + d) as u8) as char
    } else {
        ((87 + d) as u8) as char
    }
}

/// How a character stands inside a JSON string: the quotation mark, the
/// backslash and the control characters escaped, every other character as
/// it is.
pub open spec fn escaped(c: char) -> Seq<char> {
    let u = c as u32;
    if u == 0x22 {
        seq!['\\', '"']
    } else if u == 0x5c {
        seq!['\\', '\\']
    } else if u == 0x08 {
        seq!['\\', 'b']
    } else if u == 0x09 {
        seq!['\\', 't']
    } else if u == 0x0a {
        seq!['\\', 'n']
    } else if u == 0x0c {
        seq!['\\', 'f']
    } else if u == 0x0d {
        seq!['\\', 'r']
    } else if u < 0x20 {
        seq!['\\', 'u', '0', '0', hex_digit(u as int / 16), hex_digit(u as int % 16)]
    } else {
        seq![c]
    }
}

/// The characters of `s`, each as it stands inside a JSON string.
pub open spec fn escaped_text(s: Seq<char>) -> Seq<char>
    decreases s.len(),
{
    if s.len() == 0 {
        Seq::empty()
    } else {
        escaped_text(s.drop_last()) + escaped(s.last())
    }
}

/// `s` as a JSON string.
pub open spec fn quoted(s: Seq<char>) -> Seq<char> {
    seq!['"'] + escaped_text(s) + seq!['"']
}

/// The JSON object that has the one member `key` with the string `value`,
/// written without white space.
pub open spec fn object_line(key: Seq<char>, value: Seq<char>) -> Seq<char> {
    seq!['{'] + quoted(key) + seq![':'] + quoted(value) + seq!['}']
}

/// Parses `line` with `serde_json::from_str` as a `serde_json::Value`, looks
/// `key` up in it with `Value::get` and reads what is there with
/// `Value::as_str`. The result depends on the two texts alone; which result
/// belongs to which texts is `serde_json`'s to say.
#[verifier::external_body]
fn parse_member(line: &str, key: &str) -> (r: Member)
    ensures
        r@ == line_member(line@, key@),
{
    match serde_json::from_str::<serde_json::Value>(line) {
        Ok(value) => match value.get(key) {
            Some(member) => match member.as_str() {
                Some(text) => Member::Text(text.to_string()),
                None => Member::Other,
            },
            None => Member::Absent,
        },
        Err(_) => Member::Absent,
    }
}

/// Builds a `serde_json::Map` with the one entry `key`, `value` and writes it
/// out as `serde_json::Value` does when displayed: without white space, the
/// two strings escaped as `escaped` says.
#[verifier::external_body]
fn write_object(key: &str, value: &str) -> (r: String)
    ensures
        r@ == object_line(key@, value@),
{
    let mut object = serde_json::Map::new();
    object.insert(key.to_string(), serde_json::Value::String(value.to_string()));
    serde_json::Value::Object(object).to_string()
}

/// The action that a line from the worker carries.
pub fn read_action(line: &str) -> (r: Member)
    ensures
        r@ == line_member(line@, ACTION_KEY@),
{
    parse_member(line, ACTION_KEY)
}

/// The line by which the worker asks for `action`.
pub fn action_line(action: &str) -> (r: String)
    ensures
        r@ == object_line(ACTION_KEY@, action@),
{
    write_object(ACTION_KEY, action)
}

/// The action by which the worker reports its interpreter's state.
pub open spec fn state_action_of(running: bool) -> Seq<char> {
    if running {
        RUNNING@
    } else {
        NOT_RUNNING@
    }
}

/// The action by which the worker reports its interpreter's state.
pub fn state_action(running: bool) -> (r: &'static str)
    ensures
        r@ == state_action_of(running),
{
    if running {
        RUNNING
    } else {
        NOT_RUNNING
    }
}

/// Whether `c` ends a line.
pub open spec fn is_line_break(c: char) -> bool {
    c == '\n' || c == '\r'
}

proof fn lemma_escaped_is_one_line(c: char)
    ensures
        forall|i: int| 0 <= i < escaped(c).len() ==> !is_line_break(#[trigger] escaped(c)[i]),
{
    let u = c as u32;
    assert('\n' as u32 == 0x0a && '\r' as u32 == 0x0d);
    if 0x20 > u && u != 0x08 && u != 0x09 && u != 0x0a && u != 0x0c && u != 0x0d {
        let high = hex_digit(u as int / 16);
        let low = hex_digit(u as int % 16);
        assert(high as u32 >= 48 && low as u32 >= 48);
        assert(escaped(c) =~= seq!['\\', 'u', '0', '0', high, low]);
    }
}

proof fn lemma_escaped_text_is_one_line(s: Seq<char>)
    ensures
        forall|i: int| 0 <= i < escaped_text(s).len() ==> !is_line_break(#[trigger] escaped_text(s)[i]),
    decreases s.len(),
{
    if s.len() > 0 {
        lemma_escaped_text_is_one_line(s.drop_last());
        lemma_escaped_is_one_line(s.last());
        let before = escaped_text(s.drop_last());
        let after = escaped(s.last());
        assert forall|i: int| 0 <= i < escaped_text(s).len() implies !is_line_break(
            #[trigger] escaped_text(s)[i],
        ) by {
            if i < before.len() {
                assert(escaped_text(s)[i] == before[i]);
            } else {
                assert(escaped_text(s)[i] == after[i - before.len()]);
            }
        }
    }
}

/// A request is one line: whatever the action, the line that asks for it
/// holds no line break.
pub proof fn lemma_action_line_is_one_line(action: Seq<char>)
    ensures
        forall|i: int|
            0 <= i < object_line(ACTION_KEY@, action).len() ==> !is_line_break(
                #[trigger] object_line(ACTION_KEY@, action)[i],
            ),
{
    lemma_escaped_text_is_one_line(ACTION_KEY@);
    lemma_escaped_text_is_one_line(action);
}

} // verus!
