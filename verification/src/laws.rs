//! What holds of every skin that the two constructors can build, stated over
//! the texts that their contracts speak of.
use crate::color::{bg_sequence, fg_sequence, italic_sequence, Color};
use crate::role::{Role, Side};
use crate::skin::{configured_text, plain_text, pruning_mark, same_at, Skin};
use vstd::prelude::*;

verus! {

/// In a skin without control characters every entry is blank on both sides.
pub proof fn lemma_plain_entries_blank(skin: Skin, role: Role, side: Side)
    requires
        skin@ == plain_text(),
    ensures
        skin.spec_entry(role)@.side(side) == Seq::<char>::empty(),
        skin.reset@.side(side) == Seq::<char>::empty(),
{
    assert(skin@.entries[role] == skin.spec_entry(role)@);
}

/// A value that the configuration holds under the key of one side of a role is
/// that side of the role's entry, character for character.
pub proof fn lemma_override_taken(
    skin: Skin,
    conf: Map<Seq<char>, Seq<char>>,
    role: Role,
    side: Side,
    value: Seq<char>,
)
    requires
        skin@ == configured_text(conf),
        conf.contains_key(role.spec_override_key(side)),
        conf[role.spec_override_key(side)] == value,
    ensures
        skin.spec_entry(role)@.side(side) == value,
{
    assert(skin@.entries[role] == skin.spec_entry(role)@);
}

/// A side whose key the configuration lacks has the sequence of its default
/// color, whatever the configuration holds under other keys.
pub proof fn lemma_default_kept(
    skin: Skin,
    conf: Map<Seq<char>, Seq<char>>,
    role: Role,
    side: Side,
)
    requires
        skin@ == configured_text(conf),
        !conf.contains_key(role.spec_override_key(side)),
    ensures
        skin.spec_entry(role)@.side(side) == role.default_sequence(side),
{
    assert(skin@.entries[role] == skin.spec_entry(role)@);
}

/// Under a configuration without any key every side of every entry has the
/// sequence of its default color.
pub proof fn lemma_empty_configuration_gives_defaults(skin: Skin, role: Role, side: Side)
    requires
        skin@ == configured_text(Map::empty()),
    ensures
        skin.spec_entry(role)@.side(side) == role.default_sequence(side),
{
    lemma_default_kept(skin, Map::empty(), role, side);
}

/// Two skins built from one configuration hold the same characters in every
/// field.
pub proof fn lemma_same_configuration_same_skin(
    first: Skin,
    second: Skin,
    conf: Map<Seq<char>, Seq<char>>,
)
    requires
        first@ == configured_text(conf),
        second@ == configured_text(conf),
    ensures
        first@ == second@,
        forall|role: Role| first.spec_entry(role)@ == second.spec_entry(role)@,
{
    assert forall|role: Role| first.spec_entry(role)@ == second.spec_entry(role)@ by {
        assert(first@.entries[role] == first.spec_entry(role)@);
        assert(second@.entries[role] == second.spec_entry(role)@);
    }
}

/// Only the keys of the sides of the roles count: two configurations that
/// agree on each of them give the same skin, whatever else they hold.
pub proof fn lemma_other_keys_ignored(
    first: Map<Seq<char>, Seq<char>>,
    second: Map<Seq<char>, Seq<char>>,
)
    requires
        forall|role: Role, side: Side| #[trigger]
            same_at(first, second, role.spec_override_key(side)),
    ensures
        configured_text(first) == configured_text(second),
{
    assert forall|role: Role|
        configured_text(first).entries[role] == configured_text(second).entries[role] by {
        assert(same_at(first, second, role.spec_override_key(Side::Fg)));
        assert(same_at(first, second, role.spec_override_key(Side::Bg)));
    }
    assert(configured_text(first).entries =~= configured_text(second).entries);
}

/// Under any configuration the skin is whole: each role has its entry, and the
/// reset entry and the pruning style are those that no key can change. The
/// pruning style is never empty.
pub proof fn lemma_configured_whole(conf: Map<Seq<char>, Seq<char>>, role: Role)
    ensures
        configured_text(conf).entries.contains_key(role),
        configured_text(conf).reset.fg == fg_sequence(Color::Reset),
        configured_text(conf).reset.bg == bg_sequence(Color::Reset),
        configured_text(conf).style_pruning == italic_sequence(),
        configured_text(conf).style_pruning.len() > 0,
{
    reveal_strlit("\x1b[3m");
}

/// The mark of a pruned subtree in a skin without control characters: a
/// space, an ellipsis and a space.
pub proof fn lemma_pruning_mark()
    ensures
        plain_text().style_pruning == pruning_mark(),
        pruning_mark() == seq![' ', '\u{2026}', ' '],
{
    reveal_strlit(" \u{2026} ");
    assert(pruning_mark() =~= seq![' ', '\u{2026}', ' ']);
}

} // verus!
