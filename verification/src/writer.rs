//! Writing descriptors: the text that the alias tooling puts beside a new
//! alias.

use crate::text::{has_char, join_with, joined, same_text};
use vstd::prelude::*;
use vstd::string::*;

verus! {

/// Argument that stands for all the arguments given to the alias.
pub const ALL_ARGUMENTS: &'static str = "%*";

/// Builds the descriptor of an alias.
#[derive(Debug)]
pub struct MetadataWriter {
    prog_path: String,
    args: Vec<String>,
    gui: bool,
    background: bool,
}

pub struct MetadataWriterView {
    pub prog_path: Seq<char>,
    pub args: Seq<Seq<char>>,
    pub gui: bool,
    pub background: bool,
}

impl View for MetadataWriter {
    type V = MetadataWriterView;

    closed spec fn view(&self) -> MetadataWriterView {
        MetadataWriterView {
            prog_path: self.prog_path@,
            args: self.args.deep_view(),
            gui: self.gui,
            background: self.background,
        }
    }
}

/// How an argument stands in the argument hook of a descriptor:
/// [`ALL_ARGUMENTS`] as the arguments that the alias gets; an argument with
/// a backslash between long brackets, which leave backslashes alone; any
/// other between double quotes.
pub open spec fn escaped(arg: Seq<char>) -> Seq<char> {
    if arg == ALL_ARGUMENTS@ {
        "unpack(args)"@
    } else if arg.contains('\\') {
        "[["@ + arg + "]]"@
    } else {
        "\""@ + arg + "\""@
    }
}

/// Each argument as it stands in the argument hook.
pub open spec fn escaped_all(args: Seq<Seq<char>>) -> Seq<Seq<char>> {
    Seq::new(args.len(), |i: int| escaped(args[i]))
}

/// How a flag stands in a descriptor.
pub open spec fn flag_text(flag: bool) -> Seq<char> {
    if flag {
        "true"@
    } else {
        "false"@
    }
}

/// The text of the descriptor that `writer` describes.
pub open spec fn descriptor_text(writer: MetadataWriterView) -> Seq<char> {
    "return {\n    prog_path = [["@ + writer.prog_path
        + "]],\n    gen_args = function(args)\n        return {"@ + joined(
        escaped_all(writer.args),
        ", "@,
    ) + "}\n    end,\n    gui = "@ + flag_text(writer.gui) + ",\n    background = "@ + flag_text(
        writer.background,
    ) + ",\n}\n"@
}

/// The arguments of a new descriptor: those given, or [`ALL_ARGUMENTS`]
/// alone where none is given.
pub open spec fn arguments_or_all(args: Seq<Seq<char>>) -> Seq<Seq<char>> {
    if args.len() == 0 {
        seq![ALL_ARGUMENTS@]
    } else {
        args
    }
}

/// An argument as it stands in the argument hook of a descriptor.
pub fn escape_arg(arg: &str) -> (text: String)
    ensures
        text@ == escaped(arg@),
{
    if same_text(arg, ALL_ARGUMENTS) {
        String::from_str("unpack(args)")
    } else if has_char(arg, '\\') {
        let mut text = String::from_str("[[");
        text.append(arg);
        text.append("]]");
        text
    } else {
        let mut text = String::from_str("\"");
        text.append(arg);
        text.append("\"");
        text
    }
}

fn flag_name(flag: bool) -> (text: &'static str)
    ensures
        text@ == flag_text(flag),
{
    if flag {
        "true"
    } else {
        "false"
    }
}

impl MetadataWriter {
    /// A descriptor for the program at `prog_path` that hands on all the
    /// arguments of the alias, needs a console, and runs in the foreground.
    pub fn new(prog_path: String) -> (writer: MetadataWriter)
        ensures
            writer@ == (MetadataWriterView {
                prog_path: prog_path@,
                args: seq![ALL_ARGUMENTS@],
                gui: false,
                background: false,
            }),
    {
        let mut args: Vec<String> = Vec::new();
        args.push(String::from_str(ALL_ARGUMENTS));
        let writer = MetadataWriter { prog_path, args, gui: false, background: false };
        assert(writer.args.deep_view() =~= seq![ALL_ARGUMENTS@]);
        writer
    }

    /// Sets the arguments that the program is started with.
    pub fn args(&mut self, args: Vec<String>) -> (writer: &mut MetadataWriter)
        ensures
            writer@ == (MetadataWriterView { args: args.deep_view(), ..old(self)@ }),
            *final(self) == *final(writer),
    {
        self.args = args;
        self
    }

    /// Sets whether the program has a window of its own.
    pub fn gui(&mut self, gui: bool) -> (writer: &mut MetadataWriter)
        ensures
            writer@ == (MetadataWriterView { gui, ..old(self)@ }),
            *final(self) == *final(writer),
    {
        self.gui = gui;
        self
    }

    /// Sets whether the program runs detached from the caller.
    pub fn background(&mut self, background: bool) -> (writer: &mut MetadataWriter)
        ensures
            writer@ == (MetadataWriterView { background, ..old(self)@ }),
            *final(self) == *final(writer),
    {
        self.background = background;
        self
    }

    /// Appends the text of the descriptor to `out`.
    pub fn write(self, out: &mut String)
        ensures
            final(out)@ == old(out)@ + descriptor_text(self@),
    {
        let mut parts: Vec<String> = Vec::new();
        let mut i: usize = 0;
        while i < self.args.len()
            invariant
                i <= self.args.len(),
                parts.len() == i,
                forall|j: int| 0 <= j < i ==> (#[trigger] parts[j])@ == escaped(self.args[j]@),
            decreases self.args.len() - i,
        {
            parts.push(escape_arg(self.args[i].as_str()));
            i += 1;
        }
        assert(parts.deep_view() =~= escaped_all(self.args.deep_view()));
        let list = join_with(&parts, ", ");
        out.append("return {\n    prog_path = [[");
        out.append(self.prog_path.as_str());
        out.append("]],\n    gen_args = function(args)\n        return {");
        out.append(list.as_str());
        out.append("}\n    end,\n    gui = ");
        out.append(flag_name(self.gui));
        out.append(",\n    background = ");
        out.append(flag_name(self.background));
        out.append(",\n}\n");
        assert(final(out)@ =~= old(out)@ + descriptor_text(self@));
    }
}

/// The text of the descriptor of a new alias for the program at
/// `prog_path`, started with `args`, or with all the arguments of the alias
/// where `args` is empty.
pub fn create_metadata(prog_path: String, args: Vec<String>) -> (text: String)
    ensures
        text@ == descriptor_text(
            MetadataWriterView {
                prog_path: prog_path@,
                args: arguments_or_all(args.deep_view()),
                gui: false,
                background: false,
            },
        ),
{
    let mut writer = MetadataWriter::new(prog_path);
    if args.len() > 0 {
        writer.args(args);
    }
    let mut text = String::new();
    writer.write(&mut text);
    assert(text@ =~= descriptor_text(writer@));
    text
}

} // verus!
