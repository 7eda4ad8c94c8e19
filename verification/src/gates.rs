//! Availability gates of the `/voice` slash command.

use vstd::prelude::*;
use vstd::string::*;
use vstd::utf8::*;

verus! {

/// `/voice` is offered only when every one of its four gates is open: AI is
/// enabled, the team allows voice, there is voice quota left, and AI work is
/// routed to the local host.
pub fn voice_command_gates_pass(
    ai_enabled: bool,
    team_enabled: bool,
    quota_available: bool,
    local_routing: bool,
) -> (pass: bool)
    ensures
        pass == (ai_enabled && team_enabled && quota_available && local_routing),
{
    ai_enabled && team_enabled && quota_available && local_routing
}

/// The four gates of `/voice`, read from the settings, the team, the usage
/// quota and the AI routing of the terminal.
#[derive(Clone, Copy)]
pub struct VoiceGates {
    pub ai_enabled: bool,
    pub team_enabled: bool,
    pub quota_available: bool,
    pub local_routing: bool,
}

/// Whether all four gates are open.
pub open spec fn voice_gates_open(gates: VoiceGates) -> bool {
    gates.ai_enabled && gates.team_enabled && gates.quota_available && gates.local_routing
}

/// Whether two names are the same text.
pub fn same_name(a: &str, b: &str) -> (same: bool)
    ensures
        same == (a@ == b@),
{
    let x = a.as_bytes();
    let y = b.as_bytes();
    if x.len() != y.len() {
        return false;
    }
    let mut i: usize = 0;
    while i < x.len()
        invariant
            x@ == a.spec_bytes(),
            y@ == b.spec_bytes(),
            x@.len() == y@.len(),
            i <= x@.len(),
            forall|k: int| 0 <= k < i ==> x@[k] == y@[k],
        decreases x@.len() - i,
    {
        if x[i] != y[i] {
            return false;
        }
        i = i + 1;
    }
    proof {
        assert(x@ =~= y@);
        encode_utf8_decode_utf8(a@);
        encode_utf8_decode_utf8(b@);
    }
    true
}

/// Whether voice input is built into the application, and if so the state of
/// its gates.
#[derive(Clone, Copy)]
pub enum VoiceInputSupport {
    /// Built without voice input.
    NotBuilt,
    /// Built with voice input; the gates as they stand now.
    Built(VoiceGates),
}

/// Every command but `/voice` passes the voice gates; `/voice` passes only
/// when all four gates are open. A build without voice input fails every
/// command.
pub open spec fn passes_voice_gates(
    command_name: Seq<char>,
    voice_command_name: Seq<char>,
    support: VoiceInputSupport,
) -> bool {
    match support {
        VoiceInputSupport::NotBuilt => false,
        VoiceInputSupport::Built(gates) => command_name != voice_command_name
            || voice_gates_open(gates),
    }
}

/// Whether the command named `command_name` passes the voice gates, where
/// `voice_command_name` is the name of `/voice` and `support` says whether
/// voice input is built in and, if so, how its gates stand.
pub fn command_passes_voice_gates(
    command_name: &str,
    voice_command_name: &str,
    support: VoiceInputSupport,
) -> (pass: bool)
    ensures
        pass == passes_voice_gates(command_name@, voice_command_name@, support),
        support is NotBuilt ==> !pass,
        support matches VoiceInputSupport::Built(gates) ==> (command_name@ == voice_command_name@
            ==> pass == (gates.ai_enabled && gates.team_enabled && gates.quota_available
            && gates.local_routing)),
        support is Built && command_name@ != voice_command_name@ ==> pass,
{
    let gates = match support {
        VoiceInputSupport::NotBuilt => return false,
        VoiceInputSupport::Built(gates) => gates,
    };
    if !same_name(command_name, voice_command_name) {
        return true;
    }
    voice_command_gates_pass(
        gates.ai_enabled,
        gates.team_enabled,
        gates.quota_available,
        gates.local_routing,
    )
}

/// A registered slash command as the terminal UI sees it: its name, whether
/// the terminal UI supports it, and whether it passes the gates common to all
/// surfaces in the current context.
pub struct SlashCommandCandidate {
    pub name: String,
    pub supported_in_tui: bool,
    pub passes_common_gates: bool,
}

/// A command is active in the terminal UI when the terminal UI supports it and
/// it passes both the voice gates and the common gates.
pub open spec fn command_is_active(
    command: SlashCommandCandidate,
    voice_command_name: Seq<char>,
    support: VoiceInputSupport,
) -> bool {
    &&& command.supported_in_tui
    &&& passes_voice_gates(command.name@, voice_command_name, support)
    &&& command.passes_common_gates
}

/// `active` lists, in increasing order, the positions of exactly those
/// commands that are active.
pub open spec fn is_active_command_list(
    active: Seq<usize>,
    commands: Seq<SlashCommandCandidate>,
    voice_command_name: Seq<char>,
    support: VoiceInputSupport,
) -> bool {
    &&& forall|k: int|
        0 <= k < active.len() ==> active[k] < commands.len() && command_is_active(
            commands[active[k] as int],
            voice_command_name,
            support,
        )
    &&& forall|k1: int, k2: int| 0 <= k1 < k2 < active.len() ==> active[k1] < active[k2]
    &&& forall|i: int|
        0 <= i < commands.len() && command_is_active(commands[i], voice_command_name, support)
            ==> exists|k: int| 0 <= k < active.len() && active[k] == i
}

/// The positions, in increasing order, of exactly those registered commands
/// that are active.
pub fn active_command_indices(
    commands: &Vec<SlashCommandCandidate>,
    voice_command_name: &str,
    support: VoiceInputSupport,
) -> (active: Vec<usize>)
    ensures
        is_active_command_list(active@, commands@, voice_command_name@, support),
        forall|k: int|
            #![trigger active@[k]]
            0 <= k < active@.len() ==> {
                let command = commands@[active@[k] as int];
                &&& active@[k] < commands@.len()
                &&& command.supported_in_tui
                &&& command.passes_common_gates
                &&& support matches VoiceInputSupport::Built(gates) && (command.name@
                    == voice_command_name@ ==> gates.ai_enabled && gates.team_enabled
                    && gates.quota_available && gates.local_routing)
            },
        forall|i: int|
            #![trigger commands@[i]]
            0 <= i < commands@.len() && commands@[i].supported_in_tui
                && commands@[i].passes_common_gates && (support matches VoiceInputSupport::Built(
                gates,
            ) && (commands@[i].name@ != voice_command_name@ || (gates.ai_enabled
                && gates.team_enabled && gates.quota_available && gates.local_routing)))
                ==> exists|k: int| 0 <= k < active@.len() && active@[k] == i,
{
    let mut active: Vec<usize> = Vec::new();
    let mut i: usize = 0;
    while i < commands.len()
        invariant
            i <= commands@.len(),
            forall|k: int|
                0 <= k < active@.len() ==> active@[k] < i && command_is_active(
                    commands@[active@[k] as int],
                    voice_command_name@,
                    support,
                ),
            forall|k1: int, k2: int| 0 <= k1 < k2 < active@.len() ==> active@[k1] < active@[k2],
            forall|j: int|
                0 <= j < i && command_is_active(commands@[j], voice_command_name@, support)
                    ==> exists|k: int| 0 <= k < active@.len() && active@[k] == j,
        decreases commands@.len() - i,
    {
        let command = &commands[i];
        if command.supported_in_tui && command_passes_voice_gates(
            command.name.as_str(),
            voice_command_name,
            support,
        ) && command.passes_common_gates {
            let ghost before = active@;
            active.push(i);
            proof {
                assert(active@[before.len() as int] == i);
                assert forall|j: int|
                    0 <= j < i + 1 && command_is_active(
                        commands@[j],
                        voice_command_name@,
                        support,
                    ) implies exists|k: int| 0 <= k < active@.len() && active@[k] == j by {
                    if j < i {
                        let k = choose|k: int| 0 <= k < before.len() && before[k] == j;
                        assert(active@[k] == j);
                    } else {
                        assert(active@[before.len() as int] == j);
                    }
                }
            }
        }
        i = i + 1;
    }
    active
}

/// `/voice` passes its gates exactly when AI is enabled, the team allows
/// voice, voice quota is left and AI work runs on the local host; every other
/// command passes them whatever they say; without voice input nothing passes.
pub proof fn lemma_voice_gate_decision(
    command_name: Seq<char>,
    voice_command_name: Seq<char>,
    gates: VoiceGates,
)
    ensures
        passes_voice_gates(voice_command_name, voice_command_name, VoiceInputSupport::Built(gates))
            == (gates.ai_enabled && gates.team_enabled && gates.quota_available
            && gates.local_routing),
        !gates.team_enabled ==> !passes_voice_gates(
            voice_command_name,
            voice_command_name,
            VoiceInputSupport::Built(gates),
        ),
        command_name != voice_command_name ==> passes_voice_gates(
            command_name,
            voice_command_name,
            VoiceInputSupport::Built(gates),
        ),
        !passes_voice_gates(command_name, voice_command_name, VoiceInputSupport::NotBuilt),
{
}

/// Every command in a list of active commands is supported by the terminal
/// UI, passes the common gates, and, if it is `/voice`, has all four voice
/// gates open; a command that the terminal UI does not support, or that fails
/// the common gates, is never listed.
pub proof fn lemma_active_commands_pass_every_filter(
    active: Seq<usize>,
    commands: Seq<SlashCommandCandidate>,
    voice_command_name: Seq<char>,
    support: VoiceInputSupport,
    k: int,
)
    requires
        is_active_command_list(active, commands, voice_command_name, support),
        0 <= k < active.len(),
    ensures
        active[k] < commands.len(),
        commands[active[k] as int].supported_in_tui,
        commands[active[k] as int].passes_common_gates,
        support matches VoiceInputSupport::Built(gates) && (commands[active[k] as int].name@
            == voice_command_name ==> gates.ai_enabled && gates.team_enabled
            && gates.quota_available && gates.local_routing),
{
    assert(command_is_active(commands[active[k] as int], voice_command_name, support));
}

/// A command that the terminal UI supports, that passes the common gates and
/// whose voice gates are open (or that is not `/voice`) is listed as active.
pub proof fn lemma_qualifying_command_is_listed(
    active: Seq<usize>,
    commands: Seq<SlashCommandCandidate>,
    voice_command_name: Seq<char>,
    gates: VoiceGates,
    i: int,
)
    requires
        is_active_command_list(
            active,
            commands,
            voice_command_name,
            VoiceInputSupport::Built(gates),
        ),
        0 <= i < commands.len(),
        commands[i].supported_in_tui,
        commands[i].passes_common_gates,
        commands[i].name@ != voice_command_name || (gates.ai_enabled && gates.team_enabled
            && gates.quota_available && gates.local_routing),
    ensures
        exists|k: int| 0 <= k < active.len() && active[k] == i,
{
}

} // verus!
