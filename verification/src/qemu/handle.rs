//! What is known of a running QEMU: its process, and what it can be asked.
use vstd::prelude::*;

use crate::text::char_lower;
use crate::text::chars_of;
use crate::text::lower;
use crate::text::lower_text;
use crate::text::same_text_ignoring_case;
use crate::utils::Process;

verus! {

/// An entry of the schema of the control protocol.
#[derive(Debug, PartialEq, Eq)]
pub enum SchemaInfo {
    /// A command of the given name.
    Command { name: String },
    /// Anything else.
    Other { name: String },
}

/// The version of a running QEMU.
#[derive(Debug, PartialEq, Eq)]
pub struct VersionInfo {
    pub major: i64,
    pub minor: i64,
    pub micro: i64,
    pub package: String,
}

/// A command that a guest agent knows.
#[derive(Debug, PartialEq, Eq)]
pub struct GuestAgentCommandInfo {
    pub enabled: bool,
    pub name: String,
    pub success_response: bool,
}

/// A guest agent and the commands that it knows.
#[derive(Debug, PartialEq, Eq)]
pub struct GuestAgentInfo {
    pub version: String,
    pub supported_commands: Vec<GuestAgentCommandInfo>,
}

/// Whether a schema entry is the command of the given name, in any case.
pub open spec fn is_command(entry: SchemaInfo, cmd: Seq<char>) -> bool {
    entry matches SchemaInfo::Command { name } && lower_text(name@) == lower_text(cmd)
}

/// Whether a schema offers a command.
pub open spec fn offers(schema: Seq<SchemaInfo>, cmd: Seq<char>) -> bool {
    exists|i: int| 0 <= i < schema.len() && is_command(#[trigger] schema[i], cmd)
}

/// Whether a schema offers a command; case does not matter.
pub fn schema_supports_command(schema: &Vec<SchemaInfo>, cmd: &str) -> (r: bool)
    ensures
        r == offers(schema@, cmd@),
{
    for i in 0..schema.len()
        invariant
            forall|j: int| 0 <= j < i ==> !is_command(#[trigger] schema@[j], cmd@),
    {
        if let SchemaInfo::Command { name } = &schema[i] {
            if same_text_ignoring_case(name.as_str(), cmd) {
                assert(is_command(schema@[i as int], cmd@));
                return true;
            }
        }
    }
    false
}

/// The name of a guest-agent command in one notation: hyphens for
/// underscores, and lower case.
pub open spec fn normal_name(name: Seq<char>) -> Seq<char> {
    Seq::new(
        name.len(),
        |i: int|
            if name[i] == '_' {
                '-'
            } else {
                lower(name[i])
            },
    )
}

/// The name of a guest-agent command in one notation.
pub fn normalize_command_name(value: &str) -> (r: String)
    ensures
        r@ == normal_name(value@),
{
    let v = chars_of(value);
    let mut r = String::new();
    for i in 0..v.len()
        invariant
            v@ == value@,
            r@ == normal_name(value@).take(i as int),
    {
        if v[i] == '_' {
            r.push('-');
        } else {
            r.push(char_lower(v[i]));
        }
        proof {
            let all = normal_name(value@);
            assert(all.take(i + 1) =~= all.take(i as int).push(all[i as int]));
        }
    }
    proof {
        assert(normal_name(value@).take(value@.len() as int) =~= normal_name(value@));
    }
    r
}

/// Whether two texts name one guest-agent command.
pub fn command_name_matches(left: &str, right: &str) -> (r: bool)
    ensures
        r == (normal_name(left@) == normal_name(right@)),
{
    normalize_command_name(left) == normalize_command_name(right)
}

/// Whether a guest-agent command is the one of the given name, and enabled.
pub open spec fn is_enabled_command(command: GuestAgentCommandInfo, cmd: Seq<char>) -> bool {
    command.enabled && normal_name(command.name@) == normal_name(cmd)
}

/// Whether one of the guest-agent commands is of the given name, and enabled.
pub open spec fn enables(commands: Seq<GuestAgentCommandInfo>, cmd: Seq<char>) -> bool {
    exists|i: int| 0 <= i < commands.len() && is_enabled_command(#[trigger] commands[i], cmd)
}

/// Whether one of the guest-agent commands is of the given name, and enabled.
pub fn ga_supports_command(commands: &Vec<GuestAgentCommandInfo>, cmd: &str) -> (r: bool)
    ensures
        r == enables(commands@, cmd@),
{
    for i in 0..commands.len()
        invariant
            forall|j: int| 0 <= j < i ==> !is_enabled_command(#[trigger] commands@[j], cmd@),
    {
        if commands[i].enabled && command_name_matches(commands[i].name.as_str(), cmd) {
            assert(is_enabled_command(commands@[i as int], cmd@));
            return true;
        }
    }
    false
}

/// A running QEMU.
#[derive(Debug)]
pub struct QemuHandle {
    /// The process.
    pub process: Process,
    /// The version, once connected.
    pub version: Option<VersionInfo>,
    /// What the control protocol offers, once connected.
    pub schema: Vec<SchemaInfo>,
    /// The guest agent, once it is ready.
    pub ga_info: Option<GuestAgentInfo>,
}

impl QemuHandle {
    /// The version, once connected.
    pub fn version(&self) -> (r: Option<&VersionInfo>)
        ensures
            r == (match self.version {
                Some(version) => Some(&version),
                None => None,
            }),
    {
        self.version.as_ref()
    }

    /// Whether QEMU offers a command.
    pub fn supported_command(&self, cmd: &str) -> (r: bool)
        ensures
            r == offers(self.schema@, cmd@),
    {
        schema_supports_command(&self.schema, cmd)
    }

    /// The guest agent, once it is ready.
    pub fn guest_agent_info(&self) -> (r: Option<&GuestAgentInfo>)
        ensures
            r == (match self.ga_info {
                Some(info) => Some(&info),
                None => None,
            }),
    {
        self.ga_info.as_ref()
    }

    /// Whether the guest agent is ready and offers a command.
    pub fn supported_ga_command(&self, cmd: &str) -> (r: bool)
        ensures
            r == (self.ga_info is Some && enables(self.ga_info->0.supported_commands@, cmd@)),
    {
        match &self.ga_info {
            Some(info) => ga_supports_command(&info.supported_commands, cmd),
            None => false,
        }
    }
}

/// Whether a command is offered does not depend on the case in which it is
/// asked for.
pub proof fn law_commands_ignore_case(schema: Seq<SchemaInfo>, a: Seq<char>, b: Seq<char>)
    requires
        lower_text(a) == lower_text(b),
    ensures
        offers(schema, a) == offers(schema, b),
{
    if offers(schema, a) {
        let i = choose|i: int| 0 <= i < schema.len() && is_command(#[trigger] schema[i], a);
        assert(is_command(schema[i], b));
    }
    if offers(schema, b) {
        let i = choose|i: int| 0 <= i < schema.len() && is_command(#[trigger] schema[i], b);
        assert(is_command(schema[i], a));
    }
}

/// A guest agent offers nothing that is not enabled.
pub proof fn law_disabled_commands_not_offered(commands: Seq<GuestAgentCommandInfo>, cmd: Seq<char>)
    requires
        forall|i: int|
            0 <= i < commands.len() && normal_name((#[trigger] commands[i]).name@) == normal_name(cmd)
                ==> !commands[i].enabled,
    ensures
        !enables(commands, cmd),
{
}

/// A command is offered exactly where the schema has a command of this name, in
/// any case; an entry of another kind offers nothing.
pub proof fn law_offered_commands(schema: Seq<SchemaInfo>, cmd: Seq<char>)
    ensures
        offers(schema, cmd) <==> exists|i: int|
            0 <= i < schema.len() && (#[trigger] schema[i]) is Command && lower_text(
                schema[i]->Command_name@,
            ) == lower_text(cmd),
{
    if offers(schema, cmd) {
        let i = choose|i: int| 0 <= i < schema.len() && is_command(#[trigger] schema[i], cmd);
        assert(schema[i] is Command);
    }
    if exists|i: int|
        0 <= i < schema.len() && (#[trigger] schema[i]) is Command && lower_text(
            schema[i]->Command_name@,
        ) == lower_text(cmd) {
        let i = choose|i: int|
            0 <= i < schema.len() && (#[trigger] schema[i]) is Command && lower_text(
                schema[i]->Command_name@,
            ) == lower_text(cmd);
        assert(is_command(schema[i], cmd));
    }
}

/// A guest agent offers every command that is enabled, under its own name, in
/// any case, and with hyphens for underscores.
pub proof fn law_enabled_commands_offered(
    commands: Seq<GuestAgentCommandInfo>,
    i: int,
    cmd: Seq<char>,
)
    requires
        0 <= i < commands.len(),
        commands[i].enabled,
        commands[i].name@.len() == cmd.len(),
        forall|k: int|
            #![trigger cmd[k]]
            0 <= k < cmd.len() ==> {
                ||| cmd[k] == commands[i].name@[k]
                ||| cmd[k] == '-' && commands[i].name@[k] == '_'
                ||| cmd[k] == '_' && commands[i].name@[k] == '-'
                ||| cmd[k] == lower(commands[i].name@[k]) && cmd[k] != '_' && commands[i].name@[k]
                    != '_' && lower(cmd[k]) == cmd[k]
            },
    ensures
        enables(commands, cmd),
{
    let name = commands[i].name@;
    assert forall|k: int| 0 <= k < cmd.len() implies normal_name(name)[k] == normal_name(cmd)[k] by {
        assert(cmd[k] == cmd[k]);
    }
    assert(normal_name(name) =~= normal_name(cmd));
    assert(is_enabled_command(commands[i], cmd));
}

/// What a guest agent offers is one of its commands, enabled and of this name.
pub proof fn law_offered_by_guest_agent(commands: Seq<GuestAgentCommandInfo>, cmd: Seq<char>)
    requires
        enables(commands, cmd),
    ensures
        exists|i: int|
            0 <= i < commands.len() && (#[trigger] commands[i]).enabled && normal_name(
                commands[i].name@,
            ) == normal_name(cmd),
{
    let i = choose|i: int| 0 <= i < commands.len() && is_enabled_command(#[trigger] commands[i], cmd);
    assert(commands[i].enabled);
}

/// The one notation of a name has a hyphen for each underscore, and lower case.
pub proof fn law_normal_names(name: Seq<char>, k: int)
    requires
        0 <= k < name.len(),
    ensures
        normal_name(name).len() == name.len(),
        name[k] == '_' ==> normal_name(name)[k] == '-',
        name[k] != '_' ==> normal_name(name)[k] == lower(name[k]),
{
}

} // verus!
