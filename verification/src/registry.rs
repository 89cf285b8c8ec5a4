//! The table of subcommands: their names, and which of them are followed by
//! the update check.

use vstd::prelude::*;

verus! {

/// The identity of one subcommand. What builds its arguments and what runs it
/// live outside this crate, at the same position of their own tables.
#[derive(Clone, Debug, PartialEq, Eq)]
pub struct CommandDescriptor {
    /// The name typed on the command line, in kebab case.
    pub name: String,
    /// Whether the update check runs after this command.
    pub naggable: bool,
}

/// The mathematical value of a [`CommandDescriptor`].
pub struct DescriptorView {
    pub name: Seq<char>,
    pub naggable: bool,
}

impl View for CommandDescriptor {
    type V = DescriptorView;

    open spec fn view(&self) -> DescriptorView {
        DescriptorView { name: self.name@, naggable: self.naggable }
    }
}

/// A name clashes: two descriptors share it, or a descriptor has the name of
/// the built-in subcommand.
#[derive(Clone, Debug, PartialEq, Eq)]
pub struct DuplicateRegistration {
    /// The name that clashes.
    pub name: String,
}

/// The mathematical values of a list of descriptors.
pub open spec fn table_of(descriptors: Seq<CommandDescriptor>) -> Seq<DescriptorView> {
    descriptors.map_values(|descriptor: CommandDescriptor| descriptor@)
}

/// The name of the built-in subcommand that prints a completion script. No
/// descriptor may have it.
pub const COMPLETIONS: &'static str = "completions";

/// No two descriptors of the table share a name.
pub open spec fn distinct_names(table: Seq<DescriptorView>) -> bool {
    forall|i: int, j: int|
        0 <= i < j < table.len() ==> (#[trigger] table[i]).name != (#[trigger] table[j]).name
}

/// Whether some descriptor of the table has the name.
pub open spec fn registered(table: Seq<DescriptorView>, name: Seq<char>) -> bool {
    exists|i: int| 0 <= i < table.len() && (#[trigger] table[i]).name == name
}

/// What a table of subcommands has to meet: no two descriptors share a
/// name, and none has the name of the built-in subcommand.
pub open spec fn valid_table(table: Seq<DescriptorView>) -> bool {
    distinct_names(table) && !registered(table, COMPLETIONS@)
}

/// Whether the name stands in the way of a valid table: two descriptors have
/// it, or one has it and it is the name of the built-in subcommand.
pub open spec fn clashes(table: Seq<DescriptorView>, name: Seq<char>) -> bool {
    ||| name == COMPLETIONS@ && registered(table, name)
    ||| exists|i: int, j: int|
        0 <= i < j < table.len() && (#[trigger] table[i]).name == name && (
        #[trigger] table[j]).name == name
}

/// The position of the descriptor with the name. Meaningful where the name
/// is registered; unique where the names are distinct.
pub open spec fn position(table: Seq<DescriptorView>, name: Seq<char>) -> int {
    choose|i: int| 0 <= i < table.len() && (#[trigger] table[i]).name == name
}

/// The identifiers of the subcommands, in the order in which they are
/// registered. A managed installation has neither `uninstall` nor `update`.
pub open spec fn subcommand_identifiers(managed: bool) -> Seq<Seq<char>> {
    let head = seq![
        "bash_hook"@,
        "debug_files"@,
        "deploys"@,
        "events"@,
        "files"@,
        "info"@,
        "issues"@,
        "login"@,
        "monitors"@,
        "organizations"@,
        "projects"@,
        "react_native"@,
        "releases"@,
        "repos"@,
        "send_event"@,
        "send_envelope"@,
        "sourcemaps"@,
    ];
    let unmanaged = if managed {
        Seq::empty()
    } else {
        seq!["uninstall"@, "update"@]
    };
    head + unmanaged + seq!["upload_dif"@, "upload_dsym"@, "upload_proguard"@]
}

/// The names of the commands after which the update check runs.
pub open spec fn update_nagger_commands() -> Seq<Seq<char>> {
    seq![
        "debug-files"@,
        "deploys"@,
        "events"@,
        "files"@,
        "info"@,
        "issues"@,
        "login"@,
        "organizations"@,
        "projects"@,
        "releases"@,
        "repos"@,
        "sourcemaps"@,
    ]
}

/// The command name of an identifier: every underscore becomes a hyphen.
pub open spec fn kebab(identifier: Seq<char>) -> Seq<char> {
    identifier.map_values(
        |c: char|
            if c == '_' {
                '-'
            } else {
                c
            },
    )
}

/// The descriptor of the subcommand with the identifier.
pub open spec fn described(identifier: Seq<char>) -> DescriptorView {
    DescriptorView {
        name: kebab(identifier),
        naggable: update_nagger_commands().contains(kebab(identifier)),
    }
}

/// The table of all subcommands.
pub open spec fn standard_table(managed: bool) -> Seq<DescriptorView> {
    subcommand_identifiers(managed).map_values(|identifier: Seq<char>| described(identifier))
}

/// A number that tells the names of the subcommands apart: it holds the
/// length of a name and its first two characters.
spec fn mark(name: Seq<char>) -> int {
    name.len() * 1000000 + (name[0] as int) * 1000 + (name[1] as int)
}

/// No two subcommands of the table share a name, and none is named like the
/// built-in subcommand.
pub proof fn lemma_standard_table_is_valid(managed: bool)
    ensures
        valid_table(standard_table(managed)),
{
    reveal_strlit("bash_hook");
    reveal_strlit("debug_files");
    reveal_strlit("deploys");
    reveal_strlit("events");
    reveal_strlit("files");
    reveal_strlit("info");
    reveal_strlit("issues");
    reveal_strlit("login");
    reveal_strlit("monitors");
    reveal_strlit("organizations");
    reveal_strlit("projects");
    reveal_strlit("react_native");
    reveal_strlit("releases");
    reveal_strlit("repos");
    reveal_strlit("send_event");
    reveal_strlit("send_envelope");
    reveal_strlit("sourcemaps");
    reveal_strlit("uninstall");
    reveal_strlit("update");
    reveal_strlit("upload_dif");
    reveal_strlit("upload_dsym");
    reveal_strlit("upload_proguard");
    reveal_strlit("completions");
    let table = standard_table(managed);
    assert forall|i: int, j: int| 0 <= i < j < table.len() implies (#[trigger] table[i]).name != (
    #[trigger] table[j]).name by {
        assert(mark(table[i].name) != mark(table[j].name));
    }
    assert forall|i: int| 0 <= i < table.len() implies (#[trigger] table[i]).name != COMPLETIONS@ by {
        assert(mark(table[i].name) != mark(COMPLETIONS@));
    }
}

/// Calls `str::replace` with a pattern of one character. Trusted: every
/// occurrence of `from` is replaced by the one character of `to`, and nothing
/// else changes.
#[verifier::external_body]
fn replace_char(text: &str, from: char, to: &str) -> (out: String)
    requires
        to@.len() == 1,
    ensures
        out@ == text@.map_values(
            |c: char|
                if c == from {
                    to@[0]
                } else {
                    c
                },
        ),
{
    text.replace(from, to)
}

/// Whether two strings hold the same text.
pub fn same_text(a: &str, b: &str) -> (same: bool)
    ensures
        same == (a@ == b@),
{
    let left = a.to_owned();
    let right = b.to_owned();
    left == right
}

/// The command name of an identifier.
pub fn kebab_case(identifier: &str) -> (name: String)
    ensures
        name@ == kebab(identifier@),
{
    proof {
        reveal_strlit("-");
    }
    let name = replace_char(identifier, '_', "-");
    name
}

/// The identifiers of the subcommands, in the order in which they are
/// registered.
pub fn subcommands(managed: bool) -> (identifiers: Vec<&'static str>)
    ensures
        identifiers.deep_view() == subcommand_identifiers(managed),
{
    let mut identifiers: Vec<&'static str> = vec![
        "bash_hook",
        "debug_files",
        "deploys",
        "events",
        "files",
        "info",
        "issues",
        "login",
        "monitors",
        "organizations",
        "projects",
        "react_native",
        "releases",
        "repos",
        "send_event",
        "send_envelope",
        "sourcemaps",
    ];
    if !managed {
        identifiers.push("uninstall");
        identifiers.push("update");
    }
    identifiers.push("upload_dif");
    identifiers.push("upload_dsym");
    identifiers.push("upload_proguard");
    identifiers
}

/// Whether the update check runs after the command with the name.
pub fn is_naggable(name: &str) -> (naggable: bool)
    ensures
        naggable == update_nagger_commands().contains(name@),
{
    let listed: Vec<&'static str> = vec![
        "debug-files",
        "deploys",
        "events",
        "files",
        "info",
        "issues",
        "login",
        "organizations",
        "projects",
        "releases",
        "repos",
        "sourcemaps",
    ];
    let mut i: usize = 0;
    while i < listed.len()
        invariant
            i <= listed.len(),
            listed.deep_view() == update_nagger_commands(),
            forall|k: int| 0 <= k < i ==> update_nagger_commands()[k] != name@,
        decreases listed.len() - i,
    {
        assert(listed.deep_view()[i as int] == listed[i as int]@);
        if same_text(listed[i], name) {
            return true;
        }
        i += 1;
    }
    false
}

impl CommandDescriptor {
    /// The descriptor of the subcommand with the identifier: its name is the
    /// identifier in kebab case, and it is naggable where the name is listed
    /// among the commands followed by the update check.
    pub fn new(identifier: &str) -> (descriptor: CommandDescriptor)
        ensures
            descriptor@ == described(identifier@),
    {
        let name = kebab_case(identifier);
        let naggable = is_naggable(name.as_str());
        CommandDescriptor { name, naggable }
    }
}

/// The descriptors of all subcommands, in the order in which they are
/// registered.
pub fn standard_descriptors(managed: bool) -> (descriptors: Vec<CommandDescriptor>)
    ensures
        table_of(descriptors@) == standard_table(managed),
{
    let identifiers = subcommands(managed);
    let mut descriptors: Vec<CommandDescriptor> = Vec::new();
    let mut i: usize = 0;
    while i < identifiers.len()
        invariant
            i <= identifiers.len(),
            identifiers.deep_view() == subcommand_identifiers(managed),
            table_of(descriptors@) == standard_table(managed).take(i as int),
        decreases identifiers.len() - i,
    {
        descriptors.push(CommandDescriptor::new(identifiers[i]));
        assert(standard_table(managed).take(i + 1) =~= standard_table(managed).take(
            i as int,
        ).push(described(subcommand_identifiers(managed)[i as int])));
        i += 1;
    }
    descriptors
}

/// The table of subcommands. No two of its descriptors share a name, and none
/// has the name of the built-in subcommand.
pub struct CommandRegistry {
    descriptors: Vec<CommandDescriptor>,
}

impl View for CommandRegistry {
    type V = Seq<DescriptorView>;

    closed spec fn view(&self) -> Seq<DescriptorView> {
        table_of(self.descriptors@)
    }
}

impl CommandRegistry {
    #[verifier::type_invariant]
    spec fn is_valid(self) -> bool {
        valid_table(self@)
    }

    /// Makes the table, unless a name clashes: two descriptors share it, or
    /// it is the name of the built-in subcommand. The result then names such
    /// a name.
    pub fn new(descriptors: Vec<CommandDescriptor>) -> (made: Result<
        CommandRegistry,
        DuplicateRegistration,
    >)
        ensures
            match made {
                Ok(registry) => registry@ == table_of(descriptors@) && valid_table(registry@),
                Err(duplicate) => clashes(table_of(descriptors@), duplicate.name@),
            },
    {
        let ghost table = table_of(descriptors@);
        let mut j: usize = 0;
        while j < descriptors.len()
            invariant
                j <= descriptors.len(),
                table == table_of(descriptors@),
                forall|a: int| 0 <= a < j ==> (#[trigger] table[a]).name != COMPLETIONS@,
                forall|a: int, b: int|
                    0 <= a < b < j ==> (#[trigger] table[a]).name != (#[trigger] table[b]).name,
            decreases descriptors.len() - j,
        {
            if same_text(descriptors[j].name.as_str(), COMPLETIONS) {
                assert(table[j as int].name == COMPLETIONS@);
                return Err(DuplicateRegistration { name: descriptors[j].name.clone() });
            }
            let mut i: usize = 0;
            while i < j
                invariant
                    i <= j < descriptors.len(),
                    table == table_of(descriptors@),
                    forall|a: int| 0 <= a < i ==> (#[trigger] table[a]).name != table[j as int].name,
                decreases j - i,
            {
                if descriptors[i].name == descriptors[j].name {
                    assert(table[i as int].name == table[j as int].name);
                    return Err(DuplicateRegistration { name: descriptors[j].name.clone() });
                }
                i += 1;
            }
            j += 1;
        }
        Ok(CommandRegistry { descriptors })
    }

    /// The table of all subcommands.
    pub fn standard(managed: bool) -> (registry: CommandRegistry)
        ensures
            registry@ == standard_table(managed),
            valid_table(registry@),
    {
        let descriptors = standard_descriptors(managed);
        proof {
            lemma_standard_table_is_valid(managed);
        }
        CommandRegistry { descriptors }
    }

    /// The number of descriptors.
    pub fn len(&self) -> (len: usize)
        ensures
            len == self@.len(),
    {
        self.descriptors.len()
    }

    /// The descriptor at a position.
    pub fn get(&self, index: usize) -> (descriptor: &CommandDescriptor)
        requires
            index < self@.len(),
        ensures
            descriptor@ == self@[index as int],
    {
        &self.descriptors[index]
    }

    /// The position of the descriptor with the name, if the name is registered.
    /// No other descriptor has that name.
    pub fn find(&self, name: &str) -> (found: Option<usize>)
        ensures
            valid_table(self@),
            match found {
                Some(index) => index < self@.len() && self@[index as int].name == name@
                    && position(self@, name@) == index,
                None => !registered(self@, name@),
            },
    {
        proof {
            use_type_invariant(self);
        }
        let mut i: usize = 0;
        while i < self.descriptors.len()
            invariant
                i <= self.descriptors.len(),
                valid_table(self@),
                self@ == table_of(self.descriptors@),
                forall|k: int| 0 <= k < i ==> (#[trigger] self@[k]).name != name@,
            decreases self.descriptors.len() - i,
        {
            if same_text(self.descriptors[i].name.as_str(), name) {
                proof {
                    let chosen = position(self@, name@);
                    assert(chosen == i) by {
                        if chosen < i {
                            assert(self@[chosen].name != self@[i as int].name);
                        } else if chosen > i {
                            assert(self@[i as int].name != self@[chosen].name);
                        }
                    }
                }
                return Some(i);
            }
            i += 1;
        }
        None
    }
}

} // verus!
