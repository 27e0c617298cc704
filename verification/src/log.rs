//! The lines that the commands print about their progress.

use vstd::prelude::*;
use vstd::string::StringExecFns;

verus! {

/// The colour of a line's tag.
#[derive(Debug, PartialEq, Eq, Structural, Clone, Copy)]
pub enum TagColor {
    Blue,
    Green,
    Yellow,
    Red,
}

impl TagColor {
    /// The digit that selects the colour in a terminal's escape sequence.
    pub open spec fn digit(self) -> char {
        match self {
            TagColor::Red => '1',
            TagColor::Green => '2',
            TagColor::Yellow => '3',
            TagColor::Blue => '4',
        }
    }
}

/// A label in bold and in colour, as a terminal takes it: the sequence that
/// sets the foreground colour, the sequence that sets bold, the label, and
/// the sequence that resets both.
pub open spec fn painted(color: TagColor, label: Seq<char>) -> Seq<char> {
    seq!['\x1b', '[', '3', color.digit(), 'm', '\x1b', '[', '1', 'm'] + label + seq![
        '\x1b',
        '[',
        '0',
        'm',
    ]
}

/// A line: its tag, a space, and the message.
pub open spec fn line(tag: Seq<char>, msg: Seq<char>) -> Seq<char> {
    tag + " "@ + msg
}

/// Whether `text` is the line for `msg` under the tag `label`, the tag
/// either plain or bold and in `color`.
pub open spec fn is_line(text: Seq<char>, color: TagColor, label: Seq<char>, msg: Seq<char>) -> bool {
    text == line(label, msg) || text == line(painted(color, label), msg)
}

/// `console::Style::apply_to` on a bold style with a foreground colour,
/// rendered by `Display`. Where console finds that the terminal takes
/// colours, the label comes back between the escape sequences for the
/// colour, for bold and for the reset; elsewhere it comes back as it is.
#[verifier::external_body]
fn paint(color: TagColor, label: &str) -> (r: String)
    ensures
        r@ == label@ || r@ == painted(color, label@),
{
    let foreground = match color {
        TagColor::Blue => console::Color::Blue,
        TagColor::Green => console::Color::Green,
        TagColor::Yellow => console::Color::Yellow,
        TagColor::Red => console::Color::Red,
    };
    console::Style::new().fg(foreground).bold().apply_to(label).to_string()
}

/// The tagged lines of the commands.
pub struct LogStyle;

impl LogStyle {
    /// A line under `label`, painted in `color` where the terminal takes it.
    pub fn tagged(color: TagColor, label: &str, msg: &str) -> (r: String)
        ensures
            is_line(r@, color, label@, msg@),
    {
        paint(color, label).concat(" ").concat(msg)
    }

    pub fn info(msg: &str) -> (r: String)
        ensures
            is_line(r@, TagColor::Blue, "[Info]"@, msg@),
    {
        LogStyle::tagged(TagColor::Blue, "[Info]", msg)
    }

    pub fn success(msg: &str) -> (r: String)
        ensures
            is_line(r@, TagColor::Green, "[Success]"@, msg@),
    {
        LogStyle::tagged(TagColor::Green, "[Success]", msg)
    }

    pub fn warning(msg: &str) -> (r: String)
        ensures
            is_line(r@, TagColor::Yellow, "[Warning]"@, msg@),
    {
        LogStyle::tagged(TagColor::Yellow, "[Warning]", msg)
    }

    pub fn error(msg: &str) -> (r: String)
        ensures
            is_line(r@, TagColor::Red, "[Error]"@, msg@),
    {
        LogStyle::tagged(TagColor::Red, "[Error]", msg)
    }
}

} // verus!
