//! The skin itself: one entry of two escape sequences for each role, the entry
//! that resets the colors, and three text styles.
//!
//! A skin is built once, either without any control character, for output that
//! goes to a file, or from the default colors and a configuration that may
//! override any side of any entry. The styles are not configurable.
use crate::color::{
    bg_sequence, bold, bold_sequence, fg_sequence, italic, italic_sequence, style_reset,
    style_reset_sequence, Color,
};
use crate::role::{lemma_keys_distinct, Role, Side};
use std::collections::HashMap;
use vstd::prelude::*;
use vstd::string::*;

verus! {

/// A skin entry is a couple of strings, one for the foreground and one for the
/// background, each one made of escape codes that change the color.
pub struct SkinEntry {
    pub fg: String,
    pub bg: String,
}

/// The characters of a skin entry.
pub struct EntryText {
    pub fg: Seq<char>,
    pub bg: Seq<char>,
}

impl View for SkinEntry {
    type V = EntryText;

    open spec fn view(&self) -> EntryText {
        EntryText { fg: self.fg@, bg: self.bg@ }
    }
}

impl EntryText {
    /// The characters of the given side.
    pub open spec fn side(self, side: Side) -> Seq<char> {
        match side {
            Side::Fg => self.fg,
            Side::Bg => self.bg,
        }
    }
}

impl SkinEntry {
    /// The foreground sequence followed by the background sequence: one string
    /// that sets both colors of the entry.
    pub fn fgbg(&self) -> (s: String)
        ensures
            s@ == self.fg@ + self.bg@,
    {
        let mut s = self.fg.clone();
        s.append(self.bg.as_str());
        s
    }

    /// An entry that holds no character on either side.
    fn blank() -> (e: SkinEntry)
        ensures
            e@ == plain_entry(),
    {
        SkinEntry { fg: String::new(), bg: String::new() }
    }
}

/// The skin: an entry for each role, and what no configuration changes.
pub struct Skin {
    pub char_match: SkinEntry,
    pub code: SkinEntry,
    pub directory: SkinEntry,
    pub exe: SkinEntry,
    pub file: SkinEntry,
    pub file_error: SkinEntry,
    pub flag_label: SkinEntry,
    pub flag_value: SkinEntry,
    pub input: SkinEntry,
    pub link: SkinEntry,
    pub permissions: SkinEntry,
    pub selected_line: SkinEntry,
    pub size_bar_full: SkinEntry,
    pub size_bar_void: SkinEntry,
    pub size_text: SkinEntry,
    pub spinner: SkinEntry,
    pub status_error: SkinEntry,
    pub status_normal: SkinEntry,
    pub table_border: SkinEntry,
    pub tree: SkinEntry,
    pub unlisted: SkinEntry,
    /// The sequences that give the terminal's default colors back.
    pub reset: SkinEntry,
    /// The style of the names of directories.
    pub style_folder: String,
    /// The style, or where there is none the text, that marks a pruned subtree.
    pub style_pruning: String,
    /// The sequence that ends every style.
    pub style_reset: String,
}

/// The characters of a whole skin.
pub struct SkinText {
    pub entries: Map<Role, EntryText>,
    pub reset: EntryText,
    pub style_folder: Seq<char>,
    pub style_pruning: Seq<char>,
    pub style_reset: Seq<char>,
}

impl View for Skin {
    type V = SkinText;

    open spec fn view(&self) -> SkinText {
        SkinText {
            entries: Map::new(|r: Role| true, |r: Role| self.spec_entry(r)@),
            reset: self.reset@,
            style_folder: self.style_folder@,
            style_pruning: self.style_pruning@,
            style_reset: self.style_reset@,
        }
    }
}

/// What a configuration holds: for each key its value, both as characters.
pub uninterp spec fn overrides(conf: HashMap<String, String>) -> Map<Seq<char>, Seq<char>>;

/// Trusted: `HashMap::remove` of std, on a map from `String` to `String`. It
/// looks the key up by its characters, returns the value that the map held
/// under it, if any, and leaves the map without that key and otherwise as it
/// was. (What vstd states of `remove` depends on a model of the key type that
/// it grants to integers, not to `String`.)
#[verifier::external_body]
fn take_override(conf: &mut HashMap<String, String>, key: &String) -> (found: Option<String>)
    ensures
        found matches Some(v) ==> overrides(*old(conf)).contains_key(key@) && v@ == overrides(
            *old(conf),
        )[key@],
        found is None ==> !overrides(*old(conf)).contains_key(key@),
        overrides(*final(conf)) == overrides(*old(conf)).remove(key@),
{
    conf.remove(key)
}

/// The entry without any character.
pub open spec fn plain_entry() -> EntryText {
    EntryText { fg: Seq::empty(), bg: Seq::empty() }
}

/// What stands for a pruned subtree where no style can: an ellipsis between
/// two spaces.
pub open spec fn pruning_mark() -> Seq<char> {
    " \u{2026} "@
}

/// The skin without any control character.
pub open spec fn plain_text() -> SkinText {
    SkinText {
        entries: Map::new(|r: Role| true, |r: Role| plain_entry()),
        reset: plain_entry(),
        style_folder: Seq::empty(),
        style_pruning: pruning_mark(),
        style_reset: Seq::empty(),
    }
}

/// One side of the entry of a role under a configuration: the value that the
/// configuration holds under the side's key, as it stands, or else the
/// sequence of the default color.
pub open spec fn resolved(conf: Map<Seq<char>, Seq<char>>, role: Role, side: Side) -> Seq<char> {
    let key = role.spec_override_key(side);
    if conf.contains_key(key) {
        conf[key]
    } else {
        role.default_sequence(side)
    }
}

/// The entry of a role under a configuration, each side resolved by itself.
pub open spec fn resolved_entry(conf: Map<Seq<char>, Seq<char>>, role: Role) -> EntryText {
    EntryText { fg: resolved(conf, role, Side::Fg), bg: resolved(conf, role, Side::Bg) }
}

/// The skin under a configuration. Keys that name no side of any role count
/// for nothing, and neither the reset entry nor a style has a key.
pub open spec fn configured_text(conf: Map<Seq<char>, Seq<char>>) -> SkinText {
    SkinText {
        entries: Map::new(|r: Role| true, |r: Role| resolved_entry(conf, r)),
        reset: EntryText { fg: fg_sequence(Color::Reset), bg: bg_sequence(Color::Reset) },
        style_folder: bold_sequence(),
        style_pruning: italic_sequence(),
        style_reset: style_reset_sequence(),
    }
}

/// `now` and `before` agree on the key: both lack it, or both hold the same value.
pub open spec fn same_at(
    now: Map<Seq<char>, Seq<char>>,
    before: Map<Seq<char>, Seq<char>>,
    key: Seq<char>,
) -> bool {
    now.contains_key(key) == before.contains_key(key) && (now.contains_key(key) ==> now[key]
        == before[key])
}

/// `now` still agrees with `before` on both keys of every role that is not in `done`.
pub open spec fn untouched(
    now: Map<Seq<char>, Seq<char>>,
    before: Map<Seq<char>, Seq<char>>,
    done: Set<Role>,
) -> bool {
    forall|r: Role, s: Side|
        !done.contains(r) ==> #[trigger] same_at(now, before, r.spec_override_key(s))
}

/// What one side of an entry becomes once its key was looked up: the value
/// found, unchanged, or else the sequence of the role's default color.
pub fn resolve_side(found: Option<String>, role: Role, side: Side) -> (code: String)
    ensures
        code@ == match found {
            Some(v) => v@,
            None => role.default_sequence(side),
        },
{
    match found {
        Some(v) => v,
        None => role.default_code(side),
    }
}

/// Takes both keys of the role out of the configuration and resolves its entry.
fn take_entry(
    conf: &mut HashMap<String, String>,
    role: Role,
    Ghost(before): Ghost<Map<Seq<char>, Seq<char>>>,
    Ghost(done): Ghost<Set<Role>>,
) -> (e: SkinEntry)
    requires
        untouched(overrides(*old(conf)), before, done),
        !done.contains(role),
    ensures
        untouched(overrides(*final(conf)), before, done.insert(role)),
        e@ == resolved_entry(before, role),
{
    let ghost start = overrides(*conf);
    assert(same_at(start, before, role.spec_override_key(Side::Fg)));
    assert(same_at(start, before, role.spec_override_key(Side::Bg)));
    proof {
        lemma_keys_distinct(role, Side::Fg, role, Side::Bg);
    }
    let fg_key = role.override_key(Side::Fg);
    let fg_found = take_override(conf, &fg_key);
    let fg = resolve_side(fg_found, role, Side::Fg);
    let bg_key = role.override_key(Side::Bg);
    let bg_found = take_override(conf, &bg_key);
    let bg = resolve_side(bg_found, role, Side::Bg);
    proof {
        let end = overrides(*conf);
        assert forall|r: Role, s: Side| !done.insert(role).contains(r) implies #[trigger] same_at(
            end,
            before,
            r.spec_override_key(s),
        ) by {
            lemma_keys_distinct(r, s, role, Side::Fg);
            lemma_keys_distinct(r, s, role, Side::Bg);
            assert(same_at(start, before, r.spec_override_key(s)));
        }
    }
    SkinEntry { fg, bg }
}

impl Skin {
    /// The entry of the given role.
    pub open spec fn spec_entry(&self, role: Role) -> SkinEntry {
        match role {
            Role::CharMatch => self.char_match,
            Role::Code => self.code,
            Role::Directory => self.directory,
            Role::Exe => self.exe,
            Role::File => self.file,
            Role::FileError => self.file_error,
            Role::FlagLabel => self.flag_label,
            Role::FlagValue => self.flag_value,
            Role::Input => self.input,
            Role::Link => self.link,
            Role::Permissions => self.permissions,
            Role::SelectedLine => self.selected_line,
            Role::SizeBarFull => self.size_bar_full,
            Role::SizeBarVoid => self.size_bar_void,
            Role::SizeText => self.size_text,
            Role::Spinner => self.spinner,
            Role::StatusError => self.status_error,
            Role::StatusNormal => self.status_normal,
            Role::TableBorder => self.table_border,
            Role::Tree => self.tree,
            Role::Unlisted => self.unlisted,
        }
    }

    /// The entry of the given role.
    pub fn entry(&self, role: Role) -> (e: &SkinEntry)
        ensures
            *e == self.spec_entry(role),
    {
        match role {
            Role::CharMatch => &self.char_match,
            Role::Code => &self.code,
            Role::Directory => &self.directory,
            Role::Exe => &self.exe,
            Role::File => &self.file,
            Role::FileError => &self.file_error,
            Role::FlagLabel => &self.flag_label,
            Role::FlagValue => &self.flag_value,
            Role::Input => &self.input,
            Role::Link => &self.link,
            Role::Permissions => &self.permissions,
            Role::SelectedLine => &self.selected_line,
            Role::SizeBarFull => &self.size_bar_full,
            Role::SizeBarVoid => &self.size_bar_void,
            Role::SizeText => &self.size_text,
            Role::Spinner => &self.spinner,
            Role::StatusError => &self.status_error,
            Role::StatusNormal => &self.status_normal,
            Role::TableBorder => &self.table_border,
            Role::Tree => &self.tree,
            Role::Unlisted => &self.unlisted,
        }
    }

    /// Builds a skin without any terminal control character, for output to a
    /// file: every entry is blank, and a pruned subtree is marked by text.
    pub fn no_term() -> (skin: Skin)
        ensures
            skin@ == plain_text(),
    {
        let skin = Skin {
            char_match: SkinEntry::blank(),
            code: SkinEntry::blank(),
            directory: SkinEntry::blank(),
            exe: SkinEntry::blank(),
            file: SkinEntry::blank(),
            file_error: SkinEntry::blank(),
            flag_label: SkinEntry::blank(),
            flag_value: SkinEntry::blank(),
            input: SkinEntry::blank(),
            link: SkinEntry::blank(),
            permissions: SkinEntry::blank(),
            selected_line: SkinEntry::blank(),
            size_bar_full: SkinEntry::blank(),
            size_bar_void: SkinEntry::blank(),
            size_text: SkinEntry::blank(),
            spinner: SkinEntry::blank(),
            status_error: SkinEntry::blank(),
            status_normal: SkinEntry::blank(),
            table_border: SkinEntry::blank(),
            tree: SkinEntry::blank(),
            unlisted: SkinEntry::blank(),
            reset: SkinEntry::blank(),
            style_folder: String::new(),
            style_pruning: String::from_str(" \u{2026} "),
            style_reset: String::new(),
        };
        assert(skin@.entries =~= plain_text().entries);
        skin
    }

    /// Builds a skin with some entries overridden by the configuration. A side
    /// of an entry takes the value that the configuration holds under its key,
    /// whatever that value is, and its default color where there is none.
    pub fn create(skin_conf: HashMap<String, String>) -> (skin: Skin)
        ensures
            skin@ == configured_text(overrides(skin_conf)),
    {
        let mut conf = skin_conf;
        let ghost before = overrides(conf);
        let ghost done: Set<Role> = Set::empty();
        let char_match = take_entry(&mut conf, Role::CharMatch, Ghost(before), Ghost(done));
        let ghost done = done.insert(Role::CharMatch);
        let code = take_entry(&mut conf, Role::Code, Ghost(before), Ghost(done));
        let ghost done = done.insert(Role::Code);
        let directory = take_entry(&mut conf, Role::Directory, Ghost(before), Ghost(done));
        let ghost done = done.insert(Role::Directory);
        let exe = take_entry(&mut conf, Role::Exe, Ghost(before), Ghost(done));
        let ghost done = done.insert(Role::Exe);
        let file = take_entry(&mut conf, Role::File, Ghost(before), Ghost(done));
        let ghost done = done.insert(Role::File);
        let file_error = take_entry(&mut conf, Role::FileError, Ghost(before), Ghost(done));
        let ghost done = done.insert(Role::FileError);
        let flag_label = take_entry(&mut conf, Role::FlagLabel, Ghost(before), Ghost(done));
        let ghost done = done.insert(Role::FlagLabel);
        let flag_value = take_entry(&mut conf, Role::FlagValue, Ghost(before), Ghost(done));
        let ghost done = done.insert(Role::FlagValue);
        let input = take_entry(&mut conf, Role::Input, Ghost(before), Ghost(done));
        let ghost done = done.insert(Role::Input);
        let link = take_entry(&mut conf, Role::Link, Ghost(before), Ghost(done));
        let ghost done = done.insert(Role::Link);
        let permissions = take_entry(&mut conf, Role::Permissions, Ghost(before), Ghost(done));
        let ghost done = done.insert(Role::Permissions);
        let selected_line = take_entry(&mut conf, Role::SelectedLine, Ghost(before), Ghost(done));
        let ghost done = done.insert(Role::SelectedLine);
        let size_bar_full = take_entry(&mut conf, Role::SizeBarFull, Ghost(before), Ghost(done));
        let ghost done = done.insert(Role::SizeBarFull);
        let size_bar_void = take_entry(&mut conf, Role::SizeBarVoid, Ghost(before), Ghost(done));
        let ghost done = done.insert(Role::SizeBarVoid);
        let size_text = take_entry(&mut conf, Role::SizeText, Ghost(before), Ghost(done));
        let ghost done = done.insert(Role::SizeText);
        let spinner = take_entry(&mut conf, Role::Spinner, Ghost(before), Ghost(done));
        let ghost done = done.insert(Role::Spinner);
        let status_error = take_entry(&mut conf, Role::StatusError, Ghost(before), Ghost(done));
        let ghost done = done.insert(Role::StatusError);
        let status_normal = take_entry(&mut conf, Role::StatusNormal, Ghost(before), Ghost(done));
        let ghost done = done.insert(Role::StatusNormal);
        let table_border = take_entry(&mut conf, Role::TableBorder, Ghost(before), Ghost(done));
        let ghost done = done.insert(Role::TableBorder);
        let tree = take_entry(&mut conf, Role::Tree, Ghost(before), Ghost(done));
        let ghost done = done.insert(Role::Tree);
        let unlisted = take_entry(&mut conf, Role::Unlisted, Ghost(before), Ghost(done));
        let ghost done = done.insert(Role::Unlisted);
        let skin = Skin {
            char_match,
            code,
            directory,
            exe,
            file,
            file_error,
            flag_label,
            flag_value,
            input,
            link,
            permissions,
            selected_line,
            size_bar_full,
            size_bar_void,
            size_text,
            spinner,
            status_error,
            status_normal,
            table_border,
            tree,
            unlisted,
            reset: SkinEntry { fg: Color::Reset.fg(), bg: Color::Reset.bg() },
            style_folder: bold(),
            style_pruning: italic(),
            style_reset: style_reset(),
        };
        assert(skin@.entries =~= configured_text(before).entries);
        skin
    }
}

} // verus!
