//! The roles of a skin: the kinds of text that are colored apart, each with its
//! name, its default colors and the keys under which a configuration overrides them.
use crate::color::{bg_sequence, fg_sequence, Color};
use vstd::prelude::*;
use vstd::string::*;

verus! {

/// One of the two colors of an entry.
#[derive(Clone, Copy, Debug, PartialEq, Eq, Structural)]
pub enum Side {
    Fg,
    Bg,
}

/// A kind of text that the skin colors in its own way.
#[derive(Clone, Copy, Debug, PartialEq, Eq, Structural)]
pub enum Role {
    /// A character that matches the search pattern.
    CharMatch,
    /// A piece of code.
    Code,
    /// The name of a directory.
    Directory,
    /// The name of an executable file.
    Exe,
    /// The name of a regular file.
    File,
    /// A file that could not be read.
    FileError,
    /// The label of a flag.
    FlagLabel,
    /// The value of a flag.
    FlagValue,
    /// What the user types.
    Input,
    /// The name of a symbolic link.
    Link,
    /// The permissions of a file.
    Permissions,
    /// The selected line of a table.
    SelectedLine,
    /// The filled part of a size bar.
    SizeBarFull,
    /// The empty part of a size bar.
    SizeBarVoid,
    /// A size written out.
    SizeText,
    /// The mark shown while a task runs.
    Spinner,
    /// The status line when it reports an error.
    StatusError,
    /// The status line otherwise.
    StatusNormal,
    /// The borders of a table.
    TableBorder,
    /// The branches drawn beside a tree.
    Tree,
    /// The mark that stands for entries not listed.
    Unlisted,
}

impl Side {
    /// What ends the key that overrides this side of an entry.
    pub open spec fn spec_suffix(self) -> Seq<char> {
        match self {
            Side::Fg => "_fg"@,
            Side::Bg => "_bg"@,
        }
    }

    /// What ends the key that overrides this side of an entry.
    pub fn suffix(self) -> (s: &'static str)
        ensures
            s@ == self.spec_suffix(),
    {
        match self {
            Side::Fg => "_fg",
            Side::Bg => "_bg",
        }
    }
}

impl Role {
    /// The name of the role, as configurations write it.
    pub open spec fn spec_name(self) -> Seq<char> {
        match self {
            Role::CharMatch => "char_match"@,
            Role::Code => "code"@,
            Role::Directory => "directory"@,
            Role::Exe => "exe"@,
            Role::File => "file"@,
            Role::FileError => "file_error"@,
            Role::FlagLabel => "flag_label"@,
            Role::FlagValue => "flag_value"@,
            Role::Input => "input"@,
            Role::Link => "link"@,
            Role::Permissions => "permissions"@,
            Role::SelectedLine => "selected_line"@,
            Role::SizeBarFull => "size_bar_full"@,
            Role::SizeBarVoid => "size_bar_void"@,
            Role::SizeText => "size_text"@,
            Role::Spinner => "spinner"@,
            Role::StatusError => "status_error"@,
            Role::StatusNormal => "status_normal"@,
            Role::TableBorder => "table_border"@,
            Role::Tree => "tree"@,
            Role::Unlisted => "unlisted"@,
        }
    }

    /// The name of the role, as configurations write it.
    pub fn name(self) -> (s: &'static str)
        ensures
            s@ == self.spec_name(),
    {
        match self {
            Role::CharMatch => "char_match",
            Role::Code => "code",
            Role::Directory => "directory",
            Role::Exe => "exe",
            Role::File => "file",
            Role::FileError => "file_error",
            Role::FlagLabel => "flag_label",
            Role::FlagValue => "flag_value",
            Role::Input => "input",
            Role::Link => "link",
            Role::Permissions => "permissions",
            Role::SelectedLine => "selected_line",
            Role::SizeBarFull => "size_bar_full",
            Role::SizeBarVoid => "size_bar_void",
            Role::SizeText => "size_text",
            Role::Spinner => "spinner",
            Role::StatusError => "status_error",
            Role::StatusNormal => "status_normal",
            Role::TableBorder => "table_border",
            Role::Tree => "tree",
            Role::Unlisted => "unlisted",
        }
    }

    /// The color that the given side of the role's entry has unless it is overridden.
    pub open spec fn spec_default_color(self, side: Side) -> Color {
        match side {
            Side::Fg => match self {
                Role::CharMatch => Color::Green,
                Role::Code => Color::Reset,
                Role::Directory => Color::LightBlue,
                Role::Exe => Color::LightCyan,
                Role::File => Color::White,
                Role::FileError => Color::Red,
                Role::FlagLabel => Color::Grayscale(12),
                Role::FlagValue => Color::Grayscale(16),
                Role::Input => Color::White,
                Role::Link => Color::LightMagenta,
                Role::Permissions => Color::Grayscale(15),
                Role::SelectedLine => Color::Reset,
                Role::SizeBarFull => Color::Reset,
                Role::SizeBarVoid => Color::Reset,
                Role::SizeText => Color::Grayscale(15),
                Role::Spinner => Color::Grayscale(10),
                Role::StatusError => Color::Red,
                Role::StatusNormal => Color::White,
                Role::TableBorder => Color::Grayscale(8),
                Role::Tree => Color::Grayscale(5),
                Role::Unlisted => Color::Grayscale(13),
            },
            Side::Bg => match self {
                Role::CharMatch => Color::Reset,
                Role::Code => Color::Grayscale(2),
                Role::Directory => Color::Reset,
                Role::Exe => Color::Reset,
                Role::File => Color::Reset,
                Role::FileError => Color::Reset,
                Role::FlagLabel => Color::Grayscale(1),
                Role::FlagValue => Color::Grayscale(1),
                Role::Input => Color::Reset,
                Role::Link => Color::Reset,
                Role::Permissions => Color::Reset,
                Role::SelectedLine => Color::Grayscale(3),
                Role::SizeBarFull => Color::Magenta,
                Role::SizeBarVoid => Color::Grayscale(2),
                Role::SizeText => Color::Reset,
                Role::Spinner => Color::Grayscale(2),
                Role::StatusError => Color::Grayscale(2),
                Role::StatusNormal => Color::Grayscale(2),
                Role::TableBorder => Color::Reset,
                Role::Tree => Color::Reset,
                Role::Unlisted => Color::Reset,
            },
        }
    }

    /// The color that the given side of the role's entry has unless it is overridden.
    pub fn default_color(self, side: Side) -> (c: Color)
        ensures
            c == self.spec_default_color(side),
            c.wf(),
    {
        match side {
            Side::Fg => match self {
                Role::CharMatch => Color::Green,
                Role::Code => Color::Reset,
                Role::Directory => Color::LightBlue,
                Role::Exe => Color::LightCyan,
                Role::File => Color::White,
                Role::FileError => Color::Red,
                Role::FlagLabel => Color::Grayscale(12),
                Role::FlagValue => Color::Grayscale(16),
                Role::Input => Color::White,
                Role::Link => Color::LightMagenta,
                Role::Permissions => Color::Grayscale(15),
                Role::SelectedLine => Color::Reset,
                Role::SizeBarFull => Color::Reset,
                Role::SizeBarVoid => Color::Reset,
                Role::SizeText => Color::Grayscale(15),
                Role::Spinner => Color::Grayscale(10),
                Role::StatusError => Color::Red,
                Role::StatusNormal => Color::White,
                Role::TableBorder => Color::Grayscale(8),
                Role::Tree => Color::Grayscale(5),
                Role::Unlisted => Color::Grayscale(13),
            },
            Side::Bg => match self {
                Role::CharMatch => Color::Reset,
                Role::Code => Color::Grayscale(2),
                Role::Directory => Color::Reset,
                Role::Exe => Color::Reset,
                Role::File => Color::Reset,
                Role::FileError => Color::Reset,
                Role::FlagLabel => Color::Grayscale(1),
                Role::FlagValue => Color::Grayscale(1),
                Role::Input => Color::Reset,
                Role::Link => Color::Reset,
                Role::Permissions => Color::Reset,
                Role::SelectedLine => Color::Grayscale(3),
                Role::SizeBarFull => Color::Magenta,
                Role::SizeBarVoid => Color::Grayscale(2),
                Role::SizeText => Color::Reset,
                Role::Spinner => Color::Grayscale(2),
                Role::StatusError => Color::Grayscale(2),
                Role::StatusNormal => Color::Grayscale(2),
                Role::TableBorder => Color::Reset,
                Role::Tree => Color::Reset,
                Role::Unlisted => Color::Reset,
            },
        }
    }

    /// The escape sequence of the default color of the given side.
    pub open spec fn default_sequence(self, side: Side) -> Seq<char> {
        match side {
            Side::Fg => fg_sequence(self.spec_default_color(side)),
            Side::Bg => bg_sequence(self.spec_default_color(side)),
        }
    }

    /// The escape sequence of the default color of the given side.
    pub fn default_code(self, side: Side) -> (s: String)
        ensures
            s@ == self.default_sequence(side),
    {
        let c = self.default_color(side);
        match side {
            Side::Fg => c.fg(),
            Side::Bg => c.bg(),
        }
    }

    /// The key under which a configuration overrides the given side: the
    /// role's name, then `_fg` or `_bg`.
    pub open spec fn spec_override_key(self, side: Side) -> Seq<char> {
        self.spec_name() + side.spec_suffix()
    }

    /// The key under which a configuration overrides the given side.
    pub fn override_key(self, side: Side) -> (key: String)
        ensures
            key@ == self.spec_override_key(side),
    {
        let mut key = String::from_str(self.name());
        key.append(side.suffix());
        key
    }
}

/// The two suffixes have three characters each and differ.
pub proof fn lemma_suffixes(a: Side, b: Side)
    ensures
        a.spec_suffix().len() == 3,
        a != b ==> a.spec_suffix() != b.spec_suffix(),
{
    reveal_strlit("_fg");
    reveal_strlit("_bg");
    if a != b {
        assert(a.spec_suffix()[1] != b.spec_suffix()[1]);
    }
}

/// No two roles share a name.
pub proof fn lemma_names_distinct(a: Role, b: Role)
    requires
        a != b,
    ensures
        a.spec_name() != b.spec_name(),
{
    reveal_strlit("char_match");
    reveal_strlit("code");
    reveal_strlit("directory");
    reveal_strlit("exe");
    reveal_strlit("file");
    reveal_strlit("file_error");
    reveal_strlit("flag_label");
    reveal_strlit("flag_value");
    reveal_strlit("input");
    reveal_strlit("link");
    reveal_strlit("permissions");
    reveal_strlit("selected_line");
    reveal_strlit("size_bar_full");
    reveal_strlit("size_bar_void");
    reveal_strlit("size_text");
    reveal_strlit("spinner");
    reveal_strlit("status_error");
    reveal_strlit("status_normal");
    reveal_strlit("table_border");
    reveal_strlit("tree");
    reveal_strlit("unlisted");
    let x = a.spec_name();
    let y = b.spec_name();
    if x == y {
        // Names of one length differ in one of these places.
        assert(x.len() == y.len());
        assert(x[0] == y[0]);
        assert(x[1] == y[1]);
        assert(x.len() > 9 ==> x[5] == y[5] && x[9] == y[9]);
        assert(false);
    }
}

/// No two sides of any roles share an override key, so that each key of a
/// configuration speaks of one color of one role at most.
pub proof fn lemma_keys_distinct(a: Role, s: Side, b: Role, t: Side)
    requires
        a != b || s != t,
    ensures
        a.spec_override_key(s) != b.spec_override_key(t),
{
    let ka = a.spec_override_key(s);
    let kb = b.spec_override_key(t);
    lemma_suffixes(s, t);
    lemma_suffixes(t, s);
    if ka == kb {
        let n = a.spec_name().len() as int;
        assert(ka.len() == n + 3);
        assert(kb.len() == b.spec_name().len() + 3);
        assert(b.spec_name().len() == n);
        assert(ka.subrange(0, n) =~= a.spec_name());
        assert(kb.subrange(0, n) =~= b.spec_name());
        assert(ka.subrange(n, n + 3) =~= s.spec_suffix());
        assert(kb.subrange(n, n + 3) =~= t.spec_suffix());
        if a != b {
            lemma_names_distinct(a, b);
        }
    }
}

} // verus!
