//! Key shortcuts as the configuration writes them (`Ctrl-Alt-A`, `Down`):
//! parsing and formatting.
use vstd::prelude::*;
use vstd::string::*;
use vstd::map::*;
use crate::app::scope::Scope;
use crate::app::user_command::UserCommand;
use crate::text::{chars_of, concat, same_text, text_of_chars};

verus! {

/// The modifier keys of a shortcut, as egui's `Modifiers` holds them.
#[derive(Debug, Clone, Copy, PartialEq, Eq, Structural)]
pub struct KeyModifiers {
    pub alt: bool,
    pub ctrl: bool,
    pub shift: bool,
    pub mac_cmd: bool,
    pub command: bool,
}

impl KeyModifiers {
    /// No modifier.
    pub open spec fn spec_none() -> KeyModifiers {
        KeyModifiers { alt: false, ctrl: false, shift: false, mac_cmd: false, command: false }
    }

    /// No modifier.
    pub fn none() -> (m: KeyModifiers)
        ensures
            m == Self::spec_none(),
    {
        KeyModifiers { alt: false, ctrl: false, shift: false, mac_cmd: false, command: false }
    }
}

/// A key shortcut: the modifiers and the key, held by egui's name for it.
pub struct KeyShortcut {
    pub modifiers: KeyModifiers,
    pub key: String,
}

/// The name that egui gives the key that `egui::Key::from_name` reads from
/// `name`, if it reads one.
pub uninterp spec fn key_name_of(name: Seq<char>) -> Option<Seq<char>>;

/// Calls `egui::Key::from_name`, and hands back the key found by its name
/// (`egui::Key::name`). The source shows that `from_name` reads every name
/// that `name` gives back to the same key, and that no such name is empty or
/// holds a `-`.
#[verifier::external_body]
fn canonical_key_name(name: &str) -> (r: Option<String>)
    ensures
        match r {
            Some(c) => key_name_of(name@) == Some(c@),
            None => key_name_of(name@) is None,
        },
        r matches Some(c) ==> key_name_of(c@) == Some(c@) && c@.len() > 0 && !c@.contains('-'),
{
    match egui::Key::from_name(name) {
        Some(k) => Some(k.name().to_string()),
        None => None,
    }
}

/// `s` cut at each `-`: the pieces between the dashes, in order; there is
/// always at least one.
pub open spec fn split_dash(s: Seq<char>) -> Seq<Seq<char>>
    decreases s.len(),
{
    if s.len() == 0 {
        seq![Seq::empty()]
    } else {
        let rest = split_dash(s.drop_first());
        if s[0] == '-' {
            seq![Seq::<char>::empty()] + rest
        } else {
            rest.update(0, seq![s[0]] + rest[0])
        }
    }
}

/// The modifiers a word names.
#[derive(Debug, Clone, Copy, PartialEq, Eq, Structural)]
pub enum ModifierKind {
    Ctrl,
    Shift,
    Alt,
    Command,
}

/// The modifier a word of a shortcut names, if any.
pub open spec fn modifier_of(part: Seq<char>) -> Option<ModifierKind> {
    if part == "C"@ || part == "Ctrl"@ || part == "Control"@ {
        Some(ModifierKind::Ctrl)
    } else if part == "S"@ || part == "Shift"@ {
        Some(ModifierKind::Shift)
    } else if part == "A"@ || part == "Alt"@ || part == "Opt"@ || part == "Option"@ {
        Some(ModifierKind::Alt)
    } else if part == "M"@ || part == "Meta"@ || part == "Cmd"@ || part == "Command"@ || part == "Super"@
        || part == "Win"@ {
        Some(ModifierKind::Command)
    } else {
        None
    }
}

/// Whether the modifier is set.
pub open spec fn has_modifier(m: KeyModifiers, k: ModifierKind) -> bool {
    match k {
        ModifierKind::Ctrl => m.ctrl,
        ModifierKind::Shift => m.shift,
        ModifierKind::Alt => m.alt,
        ModifierKind::Command => m.command,
    }
}

/// The modifiers with `k` set.
pub open spec fn with_modifier(m: KeyModifiers, k: ModifierKind) -> KeyModifiers {
    match k {
        ModifierKind::Ctrl => KeyModifiers { ctrl: true, ..m },
        ModifierKind::Shift => KeyModifiers { shift: true, ..m },
        ModifierKind::Alt => KeyModifiers { alt: true, ..m },
        ModifierKind::Command => KeyModifiers { command: true, ..m },
    }
}

/// The modifiers that the words `parts` add to `m`, read in order: a word
/// that names no modifier, or one already set, is an error that names it.
pub open spec fn parse_modifiers(parts: Seq<Seq<char>>, m: KeyModifiers) -> Result<KeyModifiers, Seq<char>>
    decreases parts.len(),
{
    if parts.len() == 0 {
        Ok(m)
    } else {
        let part = parts[0];
        match modifier_of(part) {
            None => Err("Unknown modifier: "@ + part),
            Some(k) => if has_modifier(m, k) {
                Err("Duplicate modifier: "@ + part)
            } else {
                parse_modifiers(parts.drop_first(), with_modifier(m, k))
            },
        }
    }
}

/// What a shortcut string means: the words before the last `-` are
/// modifiers, the last word is the key, as egui names it.
pub open spec fn spec_parse(s: Seq<char>) -> Result<(KeyModifiers, Seq<char>), Seq<char>> {
    let parts = split_dash(s);
    match parse_modifiers(parts.drop_last(), KeyModifiers::spec_none()) {
        Err(e) => Err(e),
        Ok(m) => match key_name_of(parts.last()) {
            Some(k) => Ok((m, k)),
            None => Err("No key specified"@),
        },
    }
}

/// How a shortcut is written: `Ctrl-`, `Alt-`, `Shift-` and `Cmd-` for the
/// modifiers that are set, in that order, then the key's name.
pub open spec fn spec_format(m: KeyModifiers, key: Seq<char>) -> Seq<char> {
    (if m.ctrl { "Ctrl-"@ } else { Seq::empty() })
        + (if m.alt { "Alt-"@ } else { Seq::empty() })
        + (if m.shift { "Shift-"@ } else { Seq::empty() })
        + (if m.command { "Cmd-"@ } else { Seq::empty() })
        + key
}

/// The words of `s` between its dashes.
fn split_at_dashes(s: &str) -> (parts: Vec<String>)
    ensures
        parts@.len() > 0,
        parts@.map_values(|p: String| p@) == split_dash(s@),
{
    let chars = chars_of(s);
    let mut current: Vec<char> = Vec::new();
    let mut done: Vec<Vec<char>> = Vec::new();
    let mut i: usize = chars.len();
    proof {
        assert(chars@.skip(i as int) =~= Seq::<char>::empty());
        assert(seq![current@] + done@.map_values(|v: Vec<char>| v@) =~= split_dash(chars@.skip(i as int)));
    }
    while i > 0
        invariant
            chars@ == s@,
            0 <= i <= chars@.len(),
            seq![current@] + done@.map_values(|v: Vec<char>| v@) == split_dash(chars@.skip(i as int)),
        decreases i,
    {
        i = i - 1;
        let c = chars[i];
        let ghost rest = split_dash(chars@.skip(i + 1));
        proof {
            assert(chars@.skip(i as int).drop_first() =~= chars@.skip(i + 1));
            assert(chars@.skip(i as int)[0] == c);
        }
        if c == '-' {
            let prev = current;
            current = Vec::new();
            done.insert(0, prev);
            proof {
                assert(seq![current@] + done@.map_values(|v: Vec<char>| v@) =~= seq![Seq::<char>::empty()] + rest);
            }
        } else {
            current.insert(0, c);
            proof {
                assert(current@ =~= seq![c] + rest[0]);
                assert(seq![current@] + done@.map_values(|v: Vec<char>| v@) =~= rest.update(0, seq![c] + rest[0]));
            }
        }
    }
    proof {
        assert(chars@.skip(0) =~= chars@);
    }
    let mut parts: Vec<String> = Vec::new();
    parts.push(text_of_chars(&current));
    let mut j: usize = 0;
    while j < done.len()
        invariant
            0 <= j <= done@.len(),
            parts@.len() == j + 1,
            parts@.map_values(|p: String| p@) == seq![current@] + done@.map_values(|v: Vec<char>| v@).take(j as int),
        decreases done@.len() - j,
    {
        let t = text_of_chars(&done[j]);
        let ghost before = parts@;
        parts.push(t);
        proof {
            let lhs = parts@.map_values(|p: String| p@);
            let rhs = seq![current@] + done@.map_values(|v: Vec<char>| v@).take(j + 1);
            assert forall|k: int| 0 <= k < lhs.len() implies lhs[k] == rhs[k] by {
                if k < j + 1 {
                    assert(parts@[k] == before[k]);
                    assert(before.map_values(|p: String| p@)[k] == (seq![current@] + done@.map_values(|v: Vec<char>| v@).take(j as int))[k]);
                } else {
                    assert(parts@[k] == t);
                }
            }
            assert(lhs =~= rhs);
        }
        j = j + 1;
    }
    proof {
        assert(done@.map_values(|v: Vec<char>| v@).take(j as int) =~= done@.map_values(|v: Vec<char>| v@));
    }
    parts
}

/// The modifier a word names.
fn modifier_named(part: &str) -> (k: Option<ModifierKind>)
    ensures
        k == modifier_of(part@),
{
    if same_text(part, "C") || same_text(part, "Ctrl") || same_text(part, "Control") {
        Some(ModifierKind::Ctrl)
    } else if same_text(part, "S") || same_text(part, "Shift") {
        Some(ModifierKind::Shift)
    } else if same_text(part, "A") || same_text(part, "Alt") || same_text(part, "Opt") || same_text(part, "Option") {
        Some(ModifierKind::Alt)
    } else if same_text(part, "M") || same_text(part, "Meta") || same_text(part, "Cmd") || same_text(part, "Command")
        || same_text(part, "Super") || same_text(part, "Win") {
        Some(ModifierKind::Command)
    } else {
        None
    }
}

impl KeyShortcut {
    /// Read a shortcut such as `Ctrl-Alt-A` or `Down`: modifiers joined by
    /// `-`, then the key. `C--` is refused (the empty word before the last
    /// dash names no modifier): the minus key is written `Minus`.
    pub fn parse(s: &str) -> (r: Result<KeyShortcut, String>)
        ensures
            match spec_parse(s@) {
                Ok((m, k)) => r matches Ok(ks) && ks.modifiers == m && ks.key@ == k,
                Err(e) => r matches Err(msg) && msg@ == e,
            },
    {
        let parts = split_at_dashes(s);
        let ghost ps = parts@.map_values(|p: String| p@);
        let last = parts.len() - 1;
        let mut modifiers = KeyModifiers::none();
        let mut i: usize = 0;
        proof {
            assert(ps.drop_last().skip(0) =~= ps.drop_last());
        }
        while i < last
            invariant
                ps == parts@.map_values(|p: String| p@),
                ps == split_dash(s@),
                last == parts@.len() - 1,
                0 <= i <= last,
                parse_modifiers(ps.drop_last(), KeyModifiers::spec_none())
                    == parse_modifiers(ps.drop_last().skip(i as int), modifiers),
            decreases last - i,
        {
            let part = parts[i].as_str();
            proof {
                assert(ps.drop_last().skip(i as int)[0] == part@);
                assert(ps.drop_last().skip(i as int).drop_first() =~= ps.drop_last().skip(i + 1));
            }
            match modifier_named(part) {
                None => {
                    return Err(concat("Unknown modifier: ", part));
                },
                Some(k) => {
                    let already = match k {
                        ModifierKind::Ctrl => modifiers.ctrl,
                        ModifierKind::Shift => modifiers.shift,
                        ModifierKind::Alt => modifiers.alt,
                        ModifierKind::Command => modifiers.command,
                    };
                    if already {
                        return Err(concat("Duplicate modifier: ", part));
                    }
                    match k {
                        ModifierKind::Ctrl => { modifiers.ctrl = true; },
                        ModifierKind::Shift => { modifiers.shift = true; },
                        ModifierKind::Alt => { modifiers.alt = true; },
                        ModifierKind::Command => { modifiers.command = true; },
                    }
                },
            }
            i = i + 1;
        }
        proof {
            assert(ps.drop_last().skip(i as int) =~= Seq::<Seq<char>>::empty());
            assert(ps.last() == parts@[last as int]@);
        }
        match canonical_key_name(parts[last].as_str()) {
            Some(key) => Ok(KeyShortcut { modifiers, key }),
            None => Err(String::from_str("No key specified")),
        }
    }

    /// The shortcut as the configuration writes it.
    pub fn format_string(&self) -> (s: String)
        ensures
            s@ == spec_format(self.modifiers, self.key@),
    {
        let mut s = String::new();
        if self.modifiers.ctrl {
            s = concat(s.as_str(), "Ctrl-");
        }
        if self.modifiers.alt {
            s = concat(s.as_str(), "Alt-");
        }
        if self.modifiers.shift {
            s = concat(s.as_str(), "Shift-");
        }
        if self.modifiers.command {
            s = concat(s.as_str(), "Cmd-");
        }
        let r = concat(s.as_str(), self.key.as_str());
        proof {
            assert(r@ =~= spec_format(self.modifiers, self.key@));
        }
        r
    }
}

impl Clone for KeyShortcut {
    fn clone(&self) -> (r: Self)
        ensures
            r == *self,
    {
        KeyShortcut { modifiers: self.modifiers, key: self.key.clone() }
    }
}

impl std::str::FromStr for KeyShortcut {
    type Err = String;

    fn from_str(s: &str) -> (r: Result<Self, Self::Err>)
        ensures
            match spec_parse(s@) {
                Ok((m, k)) => r matches Ok(ks) && ks.modifiers == m && ks.key@ == k,
                Err(e) => r matches Err(msg) && msg@ == e,
            },
    {
        Self::parse(s)
    }
}

/// A shortcut as a map key: its modifiers and its key's name.
pub open spec fn shortcut_id(k: KeyShortcut) -> (KeyModifiers, Seq<char>) {
    (k.modifiers, k.key@)
}

/// One key binding: in a scope, a shortcut runs a command.
pub struct Binding {
    pub scope: Scope,
    pub shortcut: KeyShortcut,
    pub command: UserCommand,
}

impl Clone for Binding {
    fn clone(&self) -> (r: Self)
        ensures
            r == *self,
    {
        Binding { scope: self.scope, shortcut: self.shortcut.clone(), command: self.command }
    }
}

/// Where a binding sits in the map of bindings.
pub open spec fn binding_id(b: Binding) -> (Scope, (KeyModifiers, Seq<char>)) {
    (b.scope, shortcut_id(b.shortcut))
}

/// The map that bindings make, a later binding of the same scope and shortcut
/// overriding an earlier one.
pub open spec fn map_of(bs: Seq<Binding>) -> Map<(Scope, (KeyModifiers, Seq<char>)), UserCommand>
    decreases bs.len(),
{
    if bs.len() == 0 {
        Map::empty()
    } else {
        map_of(bs.drop_last()).insert(binding_id(bs.last()), bs.last().command)
    }
}

/// The bindings of one scope, in order.
pub open spec fn scope_bindings(bs: Seq<Binding>, scope: Scope) -> Seq<Binding>
    decreases bs.len(),
{
    if bs.len() == 0 {
        Seq::empty()
    } else {
        scope_bindings(bs.drop_last(), scope) + if bs.last().scope == scope { seq![bs.last()] } else { Seq::empty() }
    }
}

/// The bindings of the scopes, scope after scope.
pub open spec fn bindings_of_scopes(bs: Seq<Binding>, scopes: Seq<Scope>) -> Seq<Binding>
    decreases scopes.len(),
{
    if scopes.len() == 0 {
        Seq::empty()
    } else {
        bindings_of_scopes(bs, scopes.drop_last()) + scope_bindings(bs, scopes.last())
    }
}

/// Whether no two bindings share a scope and a shortcut.
pub open spec fn ids_unique(bs: Seq<Binding>) -> bool {
    forall|i: int, j: int| 0 <= i < j < bs.len() ==> binding_id(#[trigger] bs[i]) != binding_id(#[trigger] bs[j])
}

/// The key bindings, by scope and shortcut.
pub struct KeyConfig {
    bindings: Vec<Binding>,
}

impl View for KeyConfig {
    type V = Map<(Scope, (KeyModifiers, Seq<char>)), UserCommand>;

    closed spec fn view(&self) -> Map<(Scope, (KeyModifiers, Seq<char>)), UserCommand> {
        map_of(self.bindings@)
    }
}

proof fn lemma_map_of_contains(bs: Seq<Binding>, i: int)
    requires
        0 <= i < bs.len(),
    ensures
        map_of(bs).contains_key(binding_id(bs[i])),
    decreases bs.len(),
{
    if i < bs.len() - 1 {
        lemma_map_of_contains(bs.drop_last(), i);
        assert(bs.drop_last()[i] == bs[i]);
    }
}

proof fn lemma_map_of_unique(bs: Seq<Binding>, i: int)
    requires
        ids_unique(bs),
        0 <= i < bs.len(),
    ensures
        map_of(bs)[binding_id(bs[i])] == bs[i].command,
    decreases bs.len(),
{
    if i < bs.len() - 1 {
        let d = bs.drop_last();
        assert(ids_unique(d)) by {
            assert forall|a: int, b: int| 0 <= a < b < d.len() implies binding_id(#[trigger] d[a]) != binding_id(#[trigger] d[b]) by {
                assert(d[a] == bs[a] && d[b] == bs[b]);
            }
        }
        assert(d[i] == bs[i]);
        lemma_map_of_unique(d, i);
        assert(binding_id(bs[i]) != binding_id(bs[bs.len() - 1]));
    }
}

proof fn lemma_map_of_absent(bs: Seq<Binding>, id: (Scope, (KeyModifiers, Seq<char>)))
    requires
        forall|i: int| 0 <= i < bs.len() ==> binding_id(#[trigger] bs[i]) != id,
    ensures
        !map_of(bs).contains_key(id),
    decreases bs.len(),
{
    if bs.len() > 0 {
        let d = bs.drop_last();
        assert forall|i: int| 0 <= i < d.len() implies binding_id(#[trigger] d[i]) != id by {
            assert(d[i] == bs[i]);
        }
        lemma_map_of_absent(d, id);
        assert(binding_id(bs[bs.len() - 1]) != id);
    }
}

proof fn lemma_map_of_update(bs: Seq<Binding>, i: int, c: UserCommand)
    requires
        ids_unique(bs),
        0 <= i < bs.len(),
    ensures
        map_of(bs.update(i, Binding { command: c, ..bs[i] })) == map_of(bs).insert(binding_id(bs[i]), c),
    decreases bs.len(),
{
    let nb = Binding { command: c, ..bs[i] };
    let u = bs.update(i, nb);
    let d = bs.drop_last();
    assert(ids_unique(d)) by {
        assert forall|a: int, b: int| 0 <= a < b < d.len() implies binding_id(#[trigger] d[a]) != binding_id(#[trigger] d[b]) by {
            assert(d[a] == bs[a] && d[b] == bs[b]);
        }
    }
    if i == bs.len() - 1 {
        assert(u.drop_last() =~= d);
        assert(u.last() == nb);
        assert(map_of(u) =~= map_of(bs).insert(binding_id(bs[i]), c));
    } else {
        assert(u.drop_last() =~= d.update(i, nb));
        assert(d[i] == bs[i]);
        lemma_map_of_update(d, i, c);
        assert(u.last() == bs.last());
        assert(binding_id(bs[i]) != binding_id(bs.last()));
        assert(map_of(u) =~= map_of(bs).insert(binding_id(bs[i]), c));
    }
}

fn same_shortcut(a: &KeyShortcut, b: &KeyShortcut) -> (r: bool)
    ensures
        r == (shortcut_id(*a) == shortcut_id(*b)),
{
    a.modifiers == b.modifiers && same_text(a.key.as_str(), b.key.as_str())
}

impl KeyConfig {
    /// No two bindings share a scope and a shortcut.
    pub closed spec fn wf(&self) -> bool {
        ids_unique(self.bindings@)
    }

    /// The bindings in the order they were first made, for their scopes.
    pub closed spec fn bindings(&self) -> Seq<Binding> {
        self.bindings@
    }

    /// No bindings.
    pub fn new() -> (c: Self)
        ensures
            c.wf(),
            c@ == Map::<(Scope, (KeyModifiers, Seq<char>)), UserCommand>::empty(),
    {
        let c = KeyConfig { bindings: Vec::new() };
        assert(c@ =~= Map::<(Scope, (KeyModifiers, Seq<char>)), UserCommand>::empty());
        c
    }

    /// Bind a shortcut of a scope to a command; a binding it had is replaced.
    /// Whether it had one.
    pub fn insert(&mut self, scope: Scope, shortcut: KeyShortcut, command: UserCommand) -> (replaced: bool)
        requires
            old(self).wf(),
        ensures
            final(self).wf(),
            final(self)@ == old(self)@.insert((scope, shortcut_id(shortcut)), command),
            replaced == old(self)@.contains_key((scope, shortcut_id(shortcut))),
    {
        let ghost id = (scope, shortcut_id(shortcut));
        let mut i: usize = 0;
        while i < self.bindings.len()
            invariant
                0 <= i <= self.bindings@.len(),
                self.bindings@ == old(self).bindings@,
                id == (scope, shortcut_id(shortcut)),
                ids_unique(self.bindings@),
                forall|k: int| 0 <= k < i ==> binding_id(#[trigger] self.bindings@[k]) != id,
            decreases self.bindings@.len() - i,
        {
            let same = self.bindings[i].scope == scope && same_shortcut(&self.bindings[i].shortcut, &shortcut);
            proof {
                if !same {
                    let b = self.bindings@[i as int];
                    assert(b.scope != scope || shortcut_id(b.shortcut) != shortcut_id(shortcut));
                    assert(binding_id(b) != id);
                }
            }
            if same {
                proof {
                    lemma_map_of_update(self.bindings@, i as int, command);
                    lemma_map_of_contains(self.bindings@, i as int);
                }
                let ghost before = self.bindings@;
                let b = Binding { scope, shortcut: self.bindings[i].shortcut.clone(), command };
                self.bindings.set(i, b);
                proof {
                    assert(self.bindings@ =~= before.update(i as int, Binding { command, ..before[i as int] }));
                    assert forall|a: int, c: int| 0 <= a < c < self.bindings@.len() implies binding_id(#[trigger] self.bindings@[a]) != binding_id(#[trigger] self.bindings@[c]) by {
                        assert(binding_id(self.bindings@[a]) == binding_id(before[a]));
                        assert(binding_id(self.bindings@[c]) == binding_id(before[c]));
                    }
                }
                return true;
            }
            i = i + 1;
        }
        proof {
            lemma_map_of_absent(self.bindings@, id);
        }
        let ghost before = self.bindings@;
        self.bindings.push(Binding { scope, shortcut, command });
        proof {
            assert(self.bindings@.drop_last() =~= before);
            assert forall|a: int, c: int| 0 <= a < c < self.bindings@.len() implies binding_id(#[trigger] self.bindings@[a]) != binding_id(#[trigger] self.bindings@[c]) by {
                if c < before.len() {
                    assert(self.bindings@[a] == before[a] && self.bindings@[c] == before[c]);
                } else {
                    assert(self.bindings@[a] == before[a]);
                }
            }
        }
        false
    }

    /// The command a shortcut runs in a scope.
    pub fn get(&self, scope: Scope, shortcut: &KeyShortcut) -> (r: Option<UserCommand>)
        requires
            self.wf(),
        ensures
            r == (if self@.contains_key((scope, shortcut_id(*shortcut))) {
                Some(self@[(scope, shortcut_id(*shortcut))])
            } else {
                None
            }),
    {
        let ghost id = (scope, shortcut_id(*shortcut));
        let mut i: usize = 0;
        while i < self.bindings.len()
            invariant
                0 <= i <= self.bindings@.len(),
                id == (scope, shortcut_id(*shortcut)),
                ids_unique(self.bindings@),
                forall|k: int| 0 <= k < i ==> binding_id(#[trigger] self.bindings@[k]) != id,
            decreases self.bindings@.len() - i,
        {
            let same = self.bindings[i].scope == scope && same_shortcut(&self.bindings[i].shortcut, shortcut);
            proof {
                if !same {
                    let b = self.bindings@[i as int];
                    assert(b.scope != scope || shortcut_id(b.shortcut) != shortcut_id(*shortcut));
                    assert(binding_id(b) != id);
                }
            }
            if same {
                proof {
                    lemma_map_of_unique(self.bindings@, i as int);
                    lemma_map_of_contains(self.bindings@, i as int);
                }
                return Some(self.bindings[i].command);
            }
            i = i + 1;
        }
        proof {
            lemma_map_of_absent(self.bindings@, id);
        }
        None
    }

    /// The bindings of the scopes, scope after scope, each scope's in the
    /// order they were made.
    pub fn bindings_for(&self, scopes: &Vec<Scope>) -> (v: Vec<Binding>)
        ensures
            v@ == bindings_of_scopes(self.bindings(), scopes@),
    {
        let mut v: Vec<Binding> = Vec::new();
        let mut s: usize = 0;
        while s < scopes.len()
            invariant
                0 <= s <= scopes@.len(),
                v@ == bindings_of_scopes(self.bindings@, scopes@.take(s as int)),
            decreases scopes@.len() - s,
        {
            let scope = scopes[s];
            let ghost start = v@;
            let mut i: usize = 0;
            proof {
                assert(self.bindings@.take(0) =~= Seq::<Binding>::empty());
                assert(start =~= start + scope_bindings(self.bindings@.take(0), scope));
            }
            while i < self.bindings.len()
                invariant
                    0 <= i <= self.bindings@.len(),
                    v@ == start + scope_bindings(self.bindings@.take(i as int), scope),
                decreases self.bindings@.len() - i,
            {
                proof {
                    assert(self.bindings@.take(i + 1).drop_last() =~= self.bindings@.take(i as int));
                    assert(self.bindings@.take(i + 1).last() == self.bindings@[i as int]);
                }
                if self.bindings[i].scope == scope {
                    v.push(self.bindings[i].clone());
                    proof {
                        assert(v@ =~= start + scope_bindings(self.bindings@.take(i + 1), scope));
                    }
                } else {
                    proof {
                        assert(v@ =~= start + scope_bindings(self.bindings@.take(i + 1), scope));
                    }
                }
                i = i + 1;
            }
            proof {
                assert(self.bindings@.take(i as int) =~= self.bindings@);
                assert(scopes@.take(s + 1).drop_last() =~= scopes@.take(s as int));
                assert(scopes@.take(s + 1).last() == scope);
            }
            s = s + 1;
        }
        proof {
            assert(scopes@.take(s as int) =~= scopes@);
        }
        v
    }
}

/// Merge `delta` into `base`: each binding of `delta` is added to `base`,
/// replacing a binding of the same scope and shortcut.
pub fn merge_key_config(base: &mut KeyConfig, delta: KeyConfig)
    requires
        old(base).wf(),
    ensures
        final(base).wf(),
        final(base)@ == old(base)@.union_prefer_right(delta@),
{
    let mut i: usize = 0;
    let ghost ds = delta.bindings@;
    proof {
        assert(ds.take(0) =~= Seq::<Binding>::empty());
        assert(old(base)@.union_prefer_right(map_of(ds.take(0))) =~= old(base)@);
    }
    while i < delta.bindings.len()
        invariant
            0 <= i <= ds.len(),
            ds == delta.bindings@,
            base.wf(),
            base@ == old(base)@.union_prefer_right(map_of(ds.take(i as int))),
        decreases ds.len() - i,
    {
        let b = delta.bindings[i].clone();
        let ghost before = base@;
        base.insert(b.scope, b.shortcut, b.command);
        proof {
            assert(ds.take(i + 1).drop_last() =~= ds.take(i as int));
            assert(ds.take(i + 1).last() == ds[i as int]);
            assert_maps_equal!(base@, old(base)@.union_prefer_right(map_of(ds.take(i + 1))));
        }
        i = i + 1;
    }
    proof {
        assert(ds.take(i as int) =~= ds);
    }
}

/// The key shortcut with these modifiers and this key, named as egui names it.
fn shortcut(ctrl: bool, key: &str) -> (k: KeyShortcut)
    ensures
        k.modifiers == (KeyModifiers { ctrl, ..KeyModifiers::spec_none() }),
        k.key@ == key@,
{
    KeyShortcut { modifiers: KeyModifiers { ctrl, ..KeyModifiers::none() }, key: String::from_str(key) }
}

/// The bindings the application starts with:
/// - global: `Ctrl-Q` quits, `F11` toggles full screen, `Tab` switches the
///   search mode;
/// - main and the completion popup: `Down`, `Ctrl-N`, `Ctrl-J` go to the next
///   item, `Up`, `Ctrl-P`, `Ctrl-K` to the previous one;
/// - the completion popup also: `Enter` applies the completion, `Esc` cancels it;
/// - search bar: `Enter` starts the search.
/// Keys are held by egui's names for them (`Esc` is `Escape`).
pub fn default_key_config() -> (c: KeyConfig)
    ensures
        c.wf(),
        c@ == default_bindings(),
{
    let mut c = KeyConfig::new();
    c.insert(Scope::Global, shortcut(true, "Q"), UserCommand::QuitApplication);
    c.insert(Scope::Global, shortcut(false, "F11"), UserCommand::ToggleFullScreen);
    c.insert(Scope::Global, shortcut(false, "Tab"), UserCommand::ToggleSearchMode);
    c.insert(Scope::Main, shortcut(false, "Down"), UserCommand::NextItem);
    c.insert(Scope::Main, shortcut(false, "Up"), UserCommand::PrevItem);
    c.insert(Scope::Main, shortcut(true, "N"), UserCommand::NextItem);
    c.insert(Scope::Main, shortcut(true, "P"), UserCommand::PrevItem);
    c.insert(Scope::Main, shortcut(true, "J"), UserCommand::NextItem);
    c.insert(Scope::Main, shortcut(true, "K"), UserCommand::PrevItem);
    c.insert(Scope::SearchBarCompletion, shortcut(false, "Down"), UserCommand::NextItem);
    c.insert(Scope::SearchBarCompletion, shortcut(false, "Up"), UserCommand::PrevItem);
    c.insert(Scope::SearchBarCompletion, shortcut(true, "N"), UserCommand::NextItem);
    c.insert(Scope::SearchBarCompletion, shortcut(true, "P"), UserCommand::PrevItem);
    c.insert(Scope::SearchBarCompletion, shortcut(true, "J"), UserCommand::NextItem);
    c.insert(Scope::SearchBarCompletion, shortcut(true, "K"), UserCommand::PrevItem);
    c.insert(Scope::SearchBarCompletion, shortcut(false, "Enter"), UserCommand::ApplyCompletion);
    c.insert(Scope::SearchBarCompletion, shortcut(false, "Escape"), UserCommand::CancelCompletion);
    c.insert(Scope::SearchBar, shortcut(false, "Enter"), UserCommand::StartSearch);
    c
}

/// The map of the default bindings.
pub open spec fn default_bindings() -> Map<(Scope, (KeyModifiers, Seq<char>)), UserCommand> {
    let none = KeyModifiers::spec_none();
    let ctrl = KeyModifiers { ctrl: true, ..none };
    Map::empty()
        .insert((Scope::Global, (ctrl, "Q"@)), UserCommand::QuitApplication)
        .insert((Scope::Global, (none, "F11"@)), UserCommand::ToggleFullScreen)
        .insert((Scope::Global, (none, "Tab"@)), UserCommand::ToggleSearchMode)
        .insert((Scope::Main, (none, "Down"@)), UserCommand::NextItem)
        .insert((Scope::Main, (none, "Up"@)), UserCommand::PrevItem)
        .insert((Scope::Main, (ctrl, "N"@)), UserCommand::NextItem)
        .insert((Scope::Main, (ctrl, "P"@)), UserCommand::PrevItem)
        .insert((Scope::Main, (ctrl, "J"@)), UserCommand::NextItem)
        .insert((Scope::Main, (ctrl, "K"@)), UserCommand::PrevItem)
        .insert((Scope::SearchBarCompletion, (none, "Down"@)), UserCommand::NextItem)
        .insert((Scope::SearchBarCompletion, (none, "Up"@)), UserCommand::PrevItem)
        .insert((Scope::SearchBarCompletion, (ctrl, "N"@)), UserCommand::NextItem)
        .insert((Scope::SearchBarCompletion, (ctrl, "P"@)), UserCommand::PrevItem)
        .insert((Scope::SearchBarCompletion, (ctrl, "J"@)), UserCommand::NextItem)
        .insert((Scope::SearchBarCompletion, (ctrl, "K"@)), UserCommand::PrevItem)
        .insert((Scope::SearchBarCompletion, (none, "Enter"@)), UserCommand::ApplyCompletion)
        .insert((Scope::SearchBarCompletion, (none, "Escape"@)), UserCommand::CancelCompletion)
        .insert((Scope::SearchBar, (none, "Enter"@)), UserCommand::StartSearch)
}

/// In the default bindings the up keys go up and the down keys go down: in
/// every scope, `Up`, `Ctrl-P` and `Ctrl-K` run the previous-item command
/// wherever they are bound, and `Down`, `Ctrl-N` and `Ctrl-J` the next-item
/// command; the result list and the completion popup bind all six.
pub proof fn lemma_default_up_and_down_keys(scope: Scope)
    ensures
        default_bindings().contains_key((scope, (KeyModifiers::spec_none(), "Up"@)))
            ==> default_bindings()[(scope, (KeyModifiers::spec_none(), "Up"@))] == UserCommand::PrevItem,
        default_bindings().contains_key((scope, (KeyModifiers { ctrl: true, ..KeyModifiers::spec_none() }, "P"@)))
            ==> default_bindings()[(scope, (KeyModifiers { ctrl: true, ..KeyModifiers::spec_none() }, "P"@))] == UserCommand::PrevItem,
        default_bindings().contains_key((scope, (KeyModifiers { ctrl: true, ..KeyModifiers::spec_none() }, "K"@)))
            ==> default_bindings()[(scope, (KeyModifiers { ctrl: true, ..KeyModifiers::spec_none() }, "K"@))] == UserCommand::PrevItem,
        default_bindings().contains_key((scope, (KeyModifiers::spec_none(), "Down"@)))
            ==> default_bindings()[(scope, (KeyModifiers::spec_none(), "Down"@))] == UserCommand::NextItem,
        default_bindings().contains_key((scope, (KeyModifiers { ctrl: true, ..KeyModifiers::spec_none() }, "N"@)))
            ==> default_bindings()[(scope, (KeyModifiers { ctrl: true, ..KeyModifiers::spec_none() }, "N"@))] == UserCommand::NextItem,
        default_bindings().contains_key((scope, (KeyModifiers { ctrl: true, ..KeyModifiers::spec_none() }, "J"@)))
            ==> default_bindings()[(scope, (KeyModifiers { ctrl: true, ..KeyModifiers::spec_none() }, "J"@))] == UserCommand::NextItem,
        scope == Scope::Main || scope == Scope::SearchBarCompletion
            ==> default_bindings().contains_key((scope, (KeyModifiers::spec_none(), "Up"@))),
        scope == Scope::Main || scope == Scope::SearchBarCompletion
            ==> default_bindings().contains_key((scope, (KeyModifiers { ctrl: true, ..KeyModifiers::spec_none() }, "P"@))),
        scope == Scope::Main || scope == Scope::SearchBarCompletion
            ==> default_bindings().contains_key((scope, (KeyModifiers { ctrl: true, ..KeyModifiers::spec_none() }, "K"@))),
        scope == Scope::Main || scope == Scope::SearchBarCompletion
            ==> default_bindings().contains_key((scope, (KeyModifiers::spec_none(), "Down"@))),
        scope == Scope::Main || scope == Scope::SearchBarCompletion
            ==> default_bindings().contains_key((scope, (KeyModifiers { ctrl: true, ..KeyModifiers::spec_none() }, "N"@))),
        scope == Scope::Main || scope == Scope::SearchBarCompletion
            ==> default_bindings().contains_key((scope, (KeyModifiers { ctrl: true, ..KeyModifiers::spec_none() }, "J"@))),
{
    reveal_strlit("Q");
    reveal_strlit("F11");
    reveal_strlit("Tab");
    reveal_strlit("Down");
    reveal_strlit("Up");
    reveal_strlit("N");
    reveal_strlit("P");
    reveal_strlit("J");
    reveal_strlit("K");
    reveal_strlit("Enter");
    reveal_strlit("Escape");
    assert("Q"@ != "F11"@) by { assert("Q"@.len() != "F11"@.len()); }
    assert("Q"@ != "Tab"@) by { assert("Q"@.len() != "Tab"@.len()); }
    assert("Q"@ != "Down"@) by { assert("Q"@.len() != "Down"@.len()); }
    assert("Q"@ != "Up"@) by { assert("Q"@.len() != "Up"@.len()); }
    assert("Q"@ != "N"@) by { assert("Q"@[0] != "N"@[0]); }
    assert("Q"@ != "P"@) by { assert("Q"@[0] != "P"@[0]); }
    assert("Q"@ != "J"@) by { assert("Q"@[0] != "J"@[0]); }
    assert("Q"@ != "K"@) by { assert("Q"@[0] != "K"@[0]); }
    assert("Q"@ != "Enter"@) by { assert("Q"@.len() != "Enter"@.len()); }
    assert("Q"@ != "Escape"@) by { assert("Q"@.len() != "Escape"@.len()); }
    assert("F11"@ != "Tab"@) by { assert("F11"@[0] != "Tab"@[0]); }
    assert("F11"@ != "Down"@) by { assert("F11"@.len() != "Down"@.len()); }
    assert("F11"@ != "Up"@) by { assert("F11"@.len() != "Up"@.len()); }
    assert("F11"@ != "N"@) by { assert("F11"@.len() != "N"@.len()); }
    assert("F11"@ != "P"@) by { assert("F11"@.len() != "P"@.len()); }
    assert("F11"@ != "J"@) by { assert("F11"@.len() != "J"@.len()); }
    assert("F11"@ != "K"@) by { assert("F11"@.len() != "K"@.len()); }
    assert("F11"@ != "Enter"@) by { assert("F11"@.len() != "Enter"@.len()); }
    assert("F11"@ != "Escape"@) by { assert("F11"@.len() != "Escape"@.len()); }
    assert("Tab"@ != "Down"@) by { assert("Tab"@.len() != "Down"@.len()); }
    assert("Tab"@ != "Up"@) by { assert("Tab"@.len() != "Up"@.len()); }
    assert("Tab"@ != "N"@) by { assert("Tab"@.len() != "N"@.len()); }
    assert("Tab"@ != "P"@) by { assert("Tab"@.len() != "P"@.len()); }
    assert("Tab"@ != "J"@) by { assert("Tab"@.len() != "J"@.len()); }
    assert("Tab"@ != "K"@) by { assert("Tab"@.len() != "K"@.len()); }
    assert("Tab"@ != "Enter"@) by { assert("Tab"@.len() != "Enter"@.len()); }
    assert("Tab"@ != "Escape"@) by { assert("Tab"@.len() != "Escape"@.len()); }
    assert("Down"@ != "Up"@) by { assert("Down"@.len() != "Up"@.len()); }
    assert("Down"@ != "N"@) by { assert("Down"@.len() != "N"@.len()); }
    assert("Down"@ != "P"@) by { assert("Down"@.len() != "P"@.len()); }
    assert("Down"@ != "J"@) by { assert("Down"@.len() != "J"@.len()); }
    assert("Down"@ != "K"@) by { assert("Down"@.len() != "K"@.len()); }
    assert("Down"@ != "Enter"@) by { assert("Down"@.len() != "Enter"@.len()); }
    assert("Down"@ != "Escape"@) by { assert("Down"@.len() != "Escape"@.len()); }
    assert("Up"@ != "N"@) by { assert("Up"@.len() != "N"@.len()); }
    assert("Up"@ != "P"@) by { assert("Up"@.len() != "P"@.len()); }
    assert("Up"@ != "J"@) by { assert("Up"@.len() != "J"@.len()); }
    assert("Up"@ != "K"@) by { assert("Up"@.len() != "K"@.len()); }
    assert("Up"@ != "Enter"@) by { assert("Up"@.len() != "Enter"@.len()); }
    assert("Up"@ != "Escape"@) by { assert("Up"@.len() != "Escape"@.len()); }
    assert("N"@ != "P"@) by { assert("N"@[0] != "P"@[0]); }
    assert("N"@ != "J"@) by { assert("N"@[0] != "J"@[0]); }
    assert("N"@ != "K"@) by { assert("N"@[0] != "K"@[0]); }
    assert("N"@ != "Enter"@) by { assert("N"@.len() != "Enter"@.len()); }
    assert("N"@ != "Escape"@) by { assert("N"@.len() != "Escape"@.len()); }
    assert("P"@ != "J"@) by { assert("P"@[0] != "J"@[0]); }
    assert("P"@ != "K"@) by { assert("P"@[0] != "K"@[0]); }
    assert("P"@ != "Enter"@) by { assert("P"@.len() != "Enter"@.len()); }
    assert("P"@ != "Escape"@) by { assert("P"@.len() != "Escape"@.len()); }
    assert("J"@ != "K"@) by { assert("J"@[0] != "K"@[0]); }
    assert("J"@ != "Enter"@) by { assert("J"@.len() != "Enter"@.len()); }
    assert("J"@ != "Escape"@) by { assert("J"@.len() != "Escape"@.len()); }
    assert("K"@ != "Enter"@) by { assert("K"@.len() != "Enter"@.len()); }
    assert("K"@ != "Escape"@) by { assert("K"@.len() != "Escape"@.len()); }
    assert("Enter"@ != "Escape"@) by { assert("Enter"@.len() != "Escape"@.len()); }
    let m = default_bindings();
    match scope {
        Scope::Main => {
            assert(m.contains_key((Scope::Main, (KeyModifiers::spec_none(), "Up"@))));
            assert(m[(Scope::Main, (KeyModifiers::spec_none(), "Up"@))] == UserCommand::PrevItem);
            assert(m.contains_key((Scope::Main, (KeyModifiers { ctrl: true, ..KeyModifiers::spec_none() }, "P"@))));
            assert(m[(Scope::Main, (KeyModifiers { ctrl: true, ..KeyModifiers::spec_none() }, "P"@))] == UserCommand::PrevItem);
            assert(m.contains_key((Scope::Main, (KeyModifiers { ctrl: true, ..KeyModifiers::spec_none() }, "K"@))));
            assert(m[(Scope::Main, (KeyModifiers { ctrl: true, ..KeyModifiers::spec_none() }, "K"@))] == UserCommand::PrevItem);
            assert(m.contains_key((Scope::Main, (KeyModifiers::spec_none(), "Down"@))));
            assert(m[(Scope::Main, (KeyModifiers::spec_none(), "Down"@))] == UserCommand::NextItem);
            assert(m.contains_key((Scope::Main, (KeyModifiers { ctrl: true, ..KeyModifiers::spec_none() }, "N"@))));
            assert(m[(Scope::Main, (KeyModifiers { ctrl: true, ..KeyModifiers::spec_none() }, "N"@))] == UserCommand::NextItem);
            assert(m.contains_key((Scope::Main, (KeyModifiers { ctrl: true, ..KeyModifiers::spec_none() }, "J"@))));
            assert(m[(Scope::Main, (KeyModifiers { ctrl: true, ..KeyModifiers::spec_none() }, "J"@))] == UserCommand::NextItem);
        },
        Scope::SearchBarCompletion => {
            assert(m.contains_key((Scope::SearchBarCompletion, (KeyModifiers::spec_none(), "Up"@))));
            assert(m[(Scope::SearchBarCompletion, (KeyModifiers::spec_none(), "Up"@))] == UserCommand::PrevItem);
            assert(m.contains_key((Scope::SearchBarCompletion, (KeyModifiers { ctrl: true, ..KeyModifiers::spec_none() }, "P"@))));
            assert(m[(Scope::SearchBarCompletion, (KeyModifiers { ctrl: true, ..KeyModifiers::spec_none() }, "P"@))] == UserCommand::PrevItem);
            assert(m.contains_key((Scope::SearchBarCompletion, (KeyModifiers { ctrl: true, ..KeyModifiers::spec_none() }, "K"@))));
            assert(m[(Scope::SearchBarCompletion, (KeyModifiers { ctrl: true, ..KeyModifiers::spec_none() }, "K"@))] == UserCommand::PrevItem);
            assert(m.contains_key((Scope::SearchBarCompletion, (KeyModifiers::spec_none(), "Down"@))));
            assert(m[(Scope::SearchBarCompletion, (KeyModifiers::spec_none(), "Down"@))] == UserCommand::NextItem);
            assert(m.contains_key((Scope::SearchBarCompletion, (KeyModifiers { ctrl: true, ..KeyModifiers::spec_none() }, "N"@))));
            assert(m[(Scope::SearchBarCompletion, (KeyModifiers { ctrl: true, ..KeyModifiers::spec_none() }, "N"@))] == UserCommand::NextItem);
            assert(m.contains_key((Scope::SearchBarCompletion, (KeyModifiers { ctrl: true, ..KeyModifiers::spec_none() }, "J"@))));
            assert(m[(Scope::SearchBarCompletion, (KeyModifiers { ctrl: true, ..KeyModifiers::spec_none() }, "J"@))] == UserCommand::NextItem);
        },
        Scope::Global => {
            assert(!m.contains_key((Scope::Global, (KeyModifiers::spec_none(), "Up"@))));
            assert(!m.contains_key((Scope::Global, (KeyModifiers { ctrl: true, ..KeyModifiers::spec_none() }, "P"@))));
            assert(!m.contains_key((Scope::Global, (KeyModifiers { ctrl: true, ..KeyModifiers::spec_none() }, "K"@))));
            assert(!m.contains_key((Scope::Global, (KeyModifiers::spec_none(), "Down"@))));
            assert(!m.contains_key((Scope::Global, (KeyModifiers { ctrl: true, ..KeyModifiers::spec_none() }, "N"@))));
            assert(!m.contains_key((Scope::Global, (KeyModifiers { ctrl: true, ..KeyModifiers::spec_none() }, "J"@))));
        },
        Scope::SearchBar => {
            assert(!m.contains_key((Scope::SearchBar, (KeyModifiers::spec_none(), "Up"@))));
            assert(!m.contains_key((Scope::SearchBar, (KeyModifiers { ctrl: true, ..KeyModifiers::spec_none() }, "P"@))));
            assert(!m.contains_key((Scope::SearchBar, (KeyModifiers { ctrl: true, ..KeyModifiers::spec_none() }, "K"@))));
            assert(!m.contains_key((Scope::SearchBar, (KeyModifiers::spec_none(), "Down"@))));
            assert(!m.contains_key((Scope::SearchBar, (KeyModifiers { ctrl: true, ..KeyModifiers::spec_none() }, "N"@))));
            assert(!m.contains_key((Scope::SearchBar, (KeyModifiers { ctrl: true, ..KeyModifiers::spec_none() }, "J"@))));
        },
    }
}

/// Matches key presses against the bindings.
pub struct KeyHandler {
    config: KeyConfig,
}

impl KeyHandler {
    pub fn new(key_config: KeyConfig) -> (h: Self)
        ensures
            h.config() == key_config,
    {
        KeyHandler { config: key_config }
    }

    pub closed spec fn config(&self) -> KeyConfig {
        self.config
    }

    /// The bindings a key press may match in `current_scope`: those of the
    /// scope, then of each enclosing scope out to `Global`.
    pub fn candidates(&self, current_scope: &Scope) -> (v: Vec<Binding>)
        ensures
            v@ == bindings_of_scopes(self.config().bindings(), current_scope.spec_hierarchy()),
    {
        let scopes = current_scope.hierarchy();
        self.config.bindings_for(&scopes)
    }
}

/// The words joined, each followed by a `-`.
pub open spec fn join_dashed(words: Seq<Seq<char>>) -> Seq<char>
    decreases words.len(),
{
    if words.len() == 0 {
        Seq::empty()
    } else {
        words[0] + seq!['-'] + join_dashed(words.drop_first())
    }
}

/// The words `format_string` writes for the modifiers, in order.
pub open spec fn modifier_words(m: KeyModifiers) -> Seq<Seq<char>> {
    (if m.ctrl { seq!["Ctrl"@] } else { Seq::empty() })
        + (if m.alt { seq!["Alt"@] } else { Seq::empty() })
        + (if m.shift { seq!["Shift"@] } else { Seq::empty() })
        + (if m.command { seq!["Cmd"@] } else { Seq::empty() })
}

proof fn lemma_split_no_dash(s: Seq<char>)
    requires
        !s.contains('-'),
    ensures
        split_dash(s) == seq![s],
    decreases s.len(),
{
    if s.len() > 0 {
        assert(!s.drop_first().contains('-')) by {
            if s.drop_first().contains('-') {
                let k = choose|k: int| 0 <= k < s.drop_first().len() && s.drop_first()[k] == '-';
                assert(s[k + 1] == '-');
            }
        }
        lemma_split_no_dash(s.drop_first());
        assert(s[0] != '-') by {
            assert(s[0] == s[0]);
        }
        assert(seq![s[0]] + s.drop_first() =~= s);
        assert(split_dash(s) =~= seq![s]);
    } else {
        assert(s =~= Seq::<char>::empty());
    }
}

proof fn lemma_split_word(a: Seq<char>, b: Seq<char>)
    requires
        !a.contains('-'),
    ensures
        split_dash(a + seq!['-'] + b) == seq![a] + split_dash(b),
    decreases a.len(),
{
    let s = a + seq!['-'] + b;
    if a.len() == 0 {
        assert(s.drop_first() =~= b);
        assert(s[0] == '-');
        assert(a =~= Seq::<char>::empty());
        assert(seq![a] =~= seq![Seq::<char>::empty()]);
    } else {
        let a1 = a.drop_first();
        assert(!a1.contains('-')) by {
            if a1.contains('-') {
                let k = choose|k: int| 0 <= k < a1.len() && a1[k] == '-';
                assert(a[k + 1] == '-');
            }
        }
        lemma_split_word(a1, b);
        assert(s.drop_first() =~= a1 + seq!['-'] + b);
        assert(s[0] == a[0]);
        assert(a[0] != '-') by {
            assert(a.contains(a[0]));
        }
        assert(seq![a[0]] + a1 =~= a);
        assert(split_dash(s) =~= seq![a] + split_dash(b));
    }
}

proof fn lemma_split_joined(words: Seq<Seq<char>>, key: Seq<char>)
    requires
        forall|i: int| 0 <= i < words.len() ==> !(#[trigger] words[i]).contains('-'),
        !key.contains('-'),
    ensures
        split_dash(join_dashed(words) + key) == words.push(key),
    decreases words.len(),
{
    if words.len() == 0 {
        lemma_split_no_dash(key);
        assert(join_dashed(words) + key =~= key);
        assert(words.push(key) =~= seq![key]);
    } else {
        let rest = words.drop_first();
        assert forall|i: int| 0 <= i < rest.len() implies !(#[trigger] rest[i]).contains('-') by {
            assert(rest[i] == words[i + 1]);
        }
        lemma_split_joined(rest, key);
        assert(!words[0].contains('-'));
        lemma_split_word(words[0], join_dashed(rest) + key);
        assert(join_dashed(words) + key =~= words[0] + seq!['-'] + (join_dashed(rest) + key));
        assert(seq![words[0]] + rest.push(key) =~= words.push(key));
    }
}

proof fn lemma_parse_step(w: Seq<char>, rest: Seq<Seq<char>>, m: KeyModifiers, k: ModifierKind)
    requires
        modifier_of(w) == Some(k),
        !has_modifier(m, k),
    ensures
        parse_modifiers(seq![w] + rest, m) == parse_modifiers(rest, with_modifier(m, k)),
{
    assert((seq![w] + rest)[0] == w);
    assert((seq![w] + rest).drop_first() =~= rest);
}

/// A single modifier word before the key: what `parse` reads it as.
proof fn lemma_one_modifier(word: Seq<char>, key: Seq<char>)
    requires
        !word.contains('-'),
        !key.contains('-'),
        key_name_of(key) is Some,
    ensures
        match modifier_of(word) {
            Some(k) => spec_parse(word + seq!['-'] + key) == Ok::<(KeyModifiers, Seq<char>), Seq<char>>(
                (with_modifier(KeyModifiers::spec_none(), k), key_name_of(key)->0),
            ),
            None => spec_parse(word + seq!['-'] + key) == Err::<(KeyModifiers, Seq<char>), Seq<char>>(
                "Unknown modifier: "@ + word,
            ),
        },
{
    lemma_split_word(word, key);
    lemma_split_no_dash(key);
    let parts = split_dash(word + seq!['-'] + key);
    assert(parts =~= seq![word, key]);
    assert(parts.drop_last() =~= seq![word]);
    assert(parts.last() == key);
    let none = KeyModifiers::spec_none();
    let empty = Seq::<Seq<char>>::empty();
    assert(seq![word] + empty =~= seq![word]);
    if let Some(k) = modifier_of(word) {
        lemma_parse_step(word, empty, none, k);
        assert(parse_modifiers(empty, with_modifier(none, k)) == Ok::<KeyModifiers, Seq<char>>(with_modifier(none, k)));
    }
}

/// Each modifier word sets its own modifier and no other: a modifier word, a
/// dash and a key that egui knows read as that key with only that modifier.
/// `C`, `Ctrl` and `Control` set Ctrl; `S` and `Shift` set Shift; `A`, `Alt`,
/// `Opt` and `Option` set Alt; `M`, `Meta`, `Cmd`, `Command`, `Super` and
/// `Win` set Command. Any other word is refused as an unknown modifier.
pub proof fn lemma_modifier_words(word: Seq<char>, key: Seq<char>)
    requires
        !word.contains('-'),
        !key.contains('-'),
        key_name_of(key) is Some,
    ensures
        (word == "C"@ || word == "Ctrl"@ || word == "Control"@)
            ==> spec_parse(word + seq!['-'] + key) == Ok::<(KeyModifiers, Seq<char>), Seq<char>>(
                (KeyModifiers { ctrl: true, ..KeyModifiers::spec_none() }, key_name_of(key)->0),
            ),
        (word == "S"@ || word == "Shift"@)
            ==> spec_parse(word + seq!['-'] + key) == Ok::<(KeyModifiers, Seq<char>), Seq<char>>(
                (KeyModifiers { shift: true, ..KeyModifiers::spec_none() }, key_name_of(key)->0),
            ),
        (word == "A"@ || word == "Alt"@ || word == "Opt"@ || word == "Option"@)
            ==> spec_parse(word + seq!['-'] + key) == Ok::<(KeyModifiers, Seq<char>), Seq<char>>(
                (KeyModifiers { alt: true, ..KeyModifiers::spec_none() }, key_name_of(key)->0),
            ),
        (word == "M"@ || word == "Meta"@ || word == "Cmd"@ || word == "Command"@ || word == "Super"@ || word == "Win"@)
            ==> spec_parse(word + seq!['-'] + key) == Ok::<(KeyModifiers, Seq<char>), Seq<char>>(
                (KeyModifiers { command: true, ..KeyModifiers::spec_none() }, key_name_of(key)->0),
            ),
        !(word == "C"@ || word == "Ctrl"@ || word == "Control"@ || word == "S"@ || word == "Shift"@ || word == "A"@ || word == "Alt"@ || word == "Opt"@ || word == "Option"@ || word == "M"@ || word == "Meta"@ || word == "Cmd"@ || word == "Command"@ || word == "Super"@ || word == "Win"@)
            ==> spec_parse(word + seq!['-'] + key) == Err::<(KeyModifiers, Seq<char>), Seq<char>>(
                "Unknown modifier: "@ + word,
            ),
{
    lemma_one_modifier(word, key);
    if word == "C"@ {
        assert(modifier_of(word) == Some(ModifierKind::Ctrl)) by {
            reveal_strlit("C");
        }
    }
    if word == "Ctrl"@ {
        assert(modifier_of(word) == Some(ModifierKind::Ctrl)) by {
            reveal_strlit("C");
            reveal_strlit("Ctrl");
        }
    }
    if word == "Control"@ {
        assert(modifier_of(word) == Some(ModifierKind::Ctrl)) by {
            reveal_strlit("C");
            reveal_strlit("Ctrl");
            reveal_strlit("Control");
        }
    }
    if word == "S"@ {
        assert(modifier_of(word) == Some(ModifierKind::Shift)) by {
            reveal_strlit("C");
            reveal_strlit("Ctrl");
            reveal_strlit("Control");
            reveal_strlit("S");
            assert("S"@[0] != "C"@[0]);
        }
    }
    if word == "Shift"@ {
        assert(modifier_of(word) == Some(ModifierKind::Shift)) by {
            reveal_strlit("C");
            reveal_strlit("Ctrl");
            reveal_strlit("Control");
            reveal_strlit("S");
            reveal_strlit("Shift");
        }
    }
    if word == "A"@ {
        assert(modifier_of(word) == Some(ModifierKind::Alt)) by {
            reveal_strlit("C");
            reveal_strlit("Ctrl");
            reveal_strlit("Control");
            reveal_strlit("S");
            reveal_strlit("Shift");
            reveal_strlit("A");
            assert("A"@[0] != "C"@[0]);
            assert("A"@[0] != "S"@[0]);
        }
    }
    if word == "Alt"@ {
        assert(modifier_of(word) == Some(ModifierKind::Alt)) by {
            reveal_strlit("C");
            reveal_strlit("Ctrl");
            reveal_strlit("Control");
            reveal_strlit("S");
            reveal_strlit("Shift");
            reveal_strlit("A");
            reveal_strlit("Alt");
        }
    }
    if word == "Opt"@ {
        assert(modifier_of(word) == Some(ModifierKind::Alt)) by {
            reveal_strlit("C");
            reveal_strlit("Ctrl");
            reveal_strlit("Control");
            reveal_strlit("S");
            reveal_strlit("Shift");
            reveal_strlit("A");
            reveal_strlit("Alt");
            reveal_strlit("Opt");
            assert("Opt"@[0] != "Alt"@[0]);
        }
    }
    if word == "Option"@ {
        assert(modifier_of(word) == Some(ModifierKind::Alt)) by {
            reveal_strlit("C");
            reveal_strlit("Ctrl");
            reveal_strlit("Control");
            reveal_strlit("S");
            reveal_strlit("Shift");
            reveal_strlit("A");
            reveal_strlit("Alt");
            reveal_strlit("Opt");
            reveal_strlit("Option");
        }
    }
    if word == "M"@ {
        assert(modifier_of(word) == Some(ModifierKind::Command)) by {
            reveal_strlit("C");
            reveal_strlit("Ctrl");
            reveal_strlit("Control");
            reveal_strlit("S");
            reveal_strlit("Shift");
            reveal_strlit("A");
            reveal_strlit("Alt");
            reveal_strlit("Opt");
            reveal_strlit("Option");
            reveal_strlit("M");
            assert("M"@[0] != "C"@[0]);
            assert("M"@[0] != "S"@[0]);
            assert("M"@[0] != "A"@[0]);
        }
    }
    if word == "Meta"@ {
        assert(modifier_of(word) == Some(ModifierKind::Command)) by {
            reveal_strlit("C");
            reveal_strlit("Ctrl");
            reveal_strlit("Control");
            reveal_strlit("S");
            reveal_strlit("Shift");
            reveal_strlit("A");
            reveal_strlit("Alt");
            reveal_strlit("Opt");
            reveal_strlit("Option");
            reveal_strlit("M");
            reveal_strlit("Meta");
            assert("Meta"@[0] != "Ctrl"@[0]);
        }
    }
    if word == "Cmd"@ {
        assert(modifier_of(word) == Some(ModifierKind::Command)) by {
            reveal_strlit("C");
            reveal_strlit("Ctrl");
            reveal_strlit("Control");
            reveal_strlit("S");
            reveal_strlit("Shift");
            reveal_strlit("A");
            reveal_strlit("Alt");
            reveal_strlit("Opt");
            reveal_strlit("Option");
            reveal_strlit("M");
            reveal_strlit("Meta");
            reveal_strlit("Cmd");
            assert("Cmd"@[0] != "Alt"@[0]);
            assert("Cmd"@[0] != "Opt"@[0]);
        }
    }
    if word == "Command"@ {
        assert(modifier_of(word) == Some(ModifierKind::Command)) by {
            reveal_strlit("C");
            reveal_strlit("Ctrl");
            reveal_strlit("Control");
            reveal_strlit("S");
            reveal_strlit("Shift");
            reveal_strlit("A");
            reveal_strlit("Alt");
            reveal_strlit("Opt");
            reveal_strlit("Option");
            reveal_strlit("M");
            reveal_strlit("Meta");
            reveal_strlit("Cmd");
            reveal_strlit("Command");
            assert("Command"@[2] != "Control"@[2]);
        }
    }
    if word == "Super"@ {
        assert(modifier_of(word) == Some(ModifierKind::Command)) by {
            reveal_strlit("C");
            reveal_strlit("Ctrl");
            reveal_strlit("Control");
            reveal_strlit("S");
            reveal_strlit("Shift");
            reveal_strlit("A");
            reveal_strlit("Alt");
            reveal_strlit("Opt");
            reveal_strlit("Option");
            reveal_strlit("M");
            reveal_strlit("Meta");
            reveal_strlit("Cmd");
            reveal_strlit("Command");
            reveal_strlit("Super");
            assert("Super"@[1] != "Shift"@[1]);
        }
    }
    if word == "Win"@ {
        assert(modifier_of(word) == Some(ModifierKind::Command)) by {
            reveal_strlit("C");
            reveal_strlit("Ctrl");
            reveal_strlit("Control");
            reveal_strlit("S");
            reveal_strlit("Shift");
            reveal_strlit("A");
            reveal_strlit("Alt");
            reveal_strlit("Opt");
            reveal_strlit("Option");
            reveal_strlit("M");
            reveal_strlit("Meta");
            reveal_strlit("Cmd");
            reveal_strlit("Command");
            reveal_strlit("Super");
            reveal_strlit("Win");
            assert("Win"@[0] != "Alt"@[0]);
            assert("Win"@[0] != "Opt"@[0]);
            assert("Win"@[0] != "Cmd"@[0]);
        }
    }
    if !(word == "C"@ || word == "Ctrl"@ || word == "Control"@ || word == "S"@ || word == "Shift"@ || word == "A"@ || word == "Alt"@ || word == "Opt"@ || word == "Option"@ || word == "M"@ || word == "Meta"@ || word == "Cmd"@ || word == "Command"@ || word == "Super"@ || word == "Win"@) {
        assert(modifier_of(word) is None) by {
            reveal_strlit("C");
            reveal_strlit("Ctrl");
            reveal_strlit("Control");
            reveal_strlit("S");
            reveal_strlit("Shift");
            reveal_strlit("A");
            reveal_strlit("Alt");
            reveal_strlit("Opt");
            reveal_strlit("Option");
            reveal_strlit("M");
            reveal_strlit("Meta");
            reveal_strlit("Cmd");
            reveal_strlit("Command");
            reveal_strlit("Super");
            reveal_strlit("Win");
        }
    }
}

/// Reading back what `format_string` writes gives the same shortcut, for each
/// shortcut `parse` can give: its key is a name egui reads back to the same
/// key, without a `-`, and the Mac-only Command flag is not set.
pub proof fn lemma_format_then_parse(m: KeyModifiers, key: Seq<char>)
    requires
        !m.mac_cmd,
        key_name_of(key) == Some(key),
        !key.contains('-'),
    ensures
        spec_parse(spec_format(m, key)) == Ok::<(KeyModifiers, Seq<char>), Seq<char>>((m, key)),
{
    reveal_strlit("Ctrl-");
    reveal_strlit("Alt-");
    reveal_strlit("Shift-");
    reveal_strlit("Cmd-");
    reveal_strlit("Ctrl");
    reveal_strlit("Alt");
    reveal_strlit("Shift");
    reveal_strlit("Cmd");
    reveal_strlit("C");
    reveal_strlit("Control");
    reveal_strlit("S");
    reveal_strlit("A");
    reveal_strlit("Opt");
    reveal_strlit("Option");
    reveal_strlit("M");
    reveal_strlit("Meta");
    reveal_strlit("Command");
    reveal_strlit("Super");
    reveal_strlit("Win");
    let words = modifier_words(m);
    // what is written is the words, each with its dash, then the key
    let w_ctrl: Seq<Seq<char>> = if m.ctrl { seq!["Ctrl"@] } else { Seq::empty() };
    let w_alt: Seq<Seq<char>> = if m.alt { seq!["Alt"@] } else { Seq::empty() };
    let w_shift: Seq<Seq<char>> = if m.shift { seq!["Shift"@] } else { Seq::empty() };
    let w_cmd: Seq<Seq<char>> = if m.command { seq!["Cmd"@] } else { Seq::empty() };
    assert(join_dashed(seq!["Ctrl"@]) =~= "Ctrl-"@) by {
        assert(seq!["Ctrl"@].drop_first() =~= Seq::<Seq<char>>::empty());
        assert(join_dashed(Seq::<Seq<char>>::empty()) == Seq::<char>::empty());
    }
    assert(join_dashed(seq!["Alt"@]) =~= "Alt-"@) by {
        assert(seq!["Alt"@].drop_first() =~= Seq::<Seq<char>>::empty());
        assert(join_dashed(Seq::<Seq<char>>::empty()) == Seq::<char>::empty());
    }
    assert(join_dashed(seq!["Shift"@]) =~= "Shift-"@) by {
        assert(seq!["Shift"@].drop_first() =~= Seq::<Seq<char>>::empty());
        assert(join_dashed(Seq::<Seq<char>>::empty()) == Seq::<char>::empty());
    }
    assert(join_dashed(seq!["Cmd"@]) =~= "Cmd-"@) by {
        assert(seq!["Cmd"@].drop_first() =~= Seq::<Seq<char>>::empty());
        assert(join_dashed(Seq::<Seq<char>>::empty()) == Seq::<char>::empty());
    }
    lemma_join_append(w_ctrl, w_alt);
    lemma_join_append(w_ctrl + w_alt, w_shift);
    lemma_join_append(w_ctrl + w_alt + w_shift, w_cmd);
    assert(words == w_ctrl + w_alt + w_shift + w_cmd);
    assert(spec_format(m, key) =~= join_dashed(words) + key);
    // the words hold no dash
    assert forall|i: int| 0 <= i < words.len() implies !(#[trigger] words[i]).contains('-') by {
        let w = words[i];
        assert(w == "Ctrl"@ || w == "Alt"@ || w == "Shift"@ || w == "Cmd"@);
        if w.contains('-') {
            let k = choose|k: int| 0 <= k < w.len() && w[k] == '-';
        }
    }
    lemma_split_joined(words, key);
    let parts = split_dash(spec_format(m, key));
    assert(parts.drop_last() =~= words);
    assert(parts.last() == key);
    // the words set the modifiers one by one
    let m0 = KeyModifiers::spec_none();
    let m1 = if m.ctrl { with_modifier(m0, ModifierKind::Ctrl) } else { m0 };
    let m2 = if m.alt { with_modifier(m1, ModifierKind::Alt) } else { m1 };
    let m3 = if m.shift { with_modifier(m2, ModifierKind::Shift) } else { m2 };
    let m4 = if m.command { with_modifier(m3, ModifierKind::Command) } else { m3 };
    assert(m4 == m);
    if m.ctrl {
        lemma_parse_step("Ctrl"@, w_alt + w_shift + w_cmd, m0, ModifierKind::Ctrl);
        assert(w_ctrl + w_alt + w_shift + w_cmd =~= seq!["Ctrl"@] + (w_alt + w_shift + w_cmd));
    } else {
        assert(w_ctrl + w_alt + w_shift + w_cmd =~= w_alt + w_shift + w_cmd);
    }
    if m.alt {
        lemma_parse_step("Alt"@, w_shift + w_cmd, m1, ModifierKind::Alt);
        assert(w_alt + w_shift + w_cmd =~= seq!["Alt"@] + (w_shift + w_cmd));
    } else {
        assert(w_alt + w_shift + w_cmd =~= w_shift + w_cmd);
    }
    if m.shift {
        lemma_parse_step("Shift"@, w_cmd, m2, ModifierKind::Shift);
        assert(w_shift + w_cmd =~= seq!["Shift"@] + w_cmd);
    } else {
        assert(w_shift + w_cmd =~= w_cmd);
    }
    if m.command {
        assert("Cmd"@ != "Opt"@) by {
            assert("Cmd"@[0] != "Opt"@[0]);
        }
        assert("Cmd"@ != "Alt"@) by {
            assert("Cmd"@[0] != "Alt"@[0]);
        }
        assert("Cmd"@ != "Win"@) by {
            assert("Cmd"@[0] != "Win"@[0]);
        }
        assert(modifier_of("Cmd"@) == Some(ModifierKind::Command));
        lemma_parse_step("Cmd"@, Seq::empty(), m3, ModifierKind::Command);
        assert(w_cmd =~= seq!["Cmd"@] + Seq::<Seq<char>>::empty());
    } else {
        assert(w_cmd =~= Seq::<Seq<char>>::empty());
    }
}

proof fn lemma_join_append(a: Seq<Seq<char>>, b: Seq<Seq<char>>)
    ensures
        join_dashed(a + b) == join_dashed(a) + join_dashed(b),
    decreases a.len(),
{
    if a.len() == 0 {
        assert(a + b =~= b);
        assert(join_dashed(a) + join_dashed(b) =~= join_dashed(b));
    } else {
        lemma_join_append(a.drop_first(), b);
        assert((a + b).drop_first() =~= a.drop_first() + b);
        assert((a + b)[0] == a[0]);
        assert(join_dashed(a + b) =~= join_dashed(a) + join_dashed(b));
    }
}

} // verus!
