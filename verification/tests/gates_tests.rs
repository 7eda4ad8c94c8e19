use warp_tui::gates::{
    active_command_indices, command_passes_voice_gates, same_name, voice_command_gates_pass,
    SlashCommandCandidate, VoiceGates, VoiceInputSupport,
};

#[test]
fn voice_availability_requires_every_gate() {
    assert!(voice_command_gates_pass(true, true, true, true));
    for disabled_gate in 0..4 {
        let mut gates = [true; 4];
        gates[disabled_gate] = false;
        assert!(
            !voice_command_gates_pass(gates[0], gates[1], gates[2], gates[3]),
            "gate {disabled_gate} must hide /voice"
        );
    }
}

fn all_open() -> VoiceGates {
    VoiceGates { ai_enabled: true, team_enabled: true, quota_available: true, local_routing: true }
}

fn open_gates() -> VoiceInputSupport {
    VoiceInputSupport::Built(all_open())
}

fn closed_quota() -> VoiceInputSupport {
    VoiceInputSupport::Built(VoiceGates { quota_available: false, ..all_open() })
}

#[test]
fn other_commands_ignore_the_voice_gates() {
    assert!(command_passes_voice_gates("/help", "/voice", closed_quota()));
    assert!(command_passes_voice_gates("/voic", "/voice", closed_quota()));
    assert!(command_passes_voice_gates("/voices", "/voice", closed_quota()));
}

#[test]
fn voice_command_follows_its_gates() {
    assert!(command_passes_voice_gates("/voice", "/voice", open_gates()));
    assert!(!command_passes_voice_gates("/voice", "/voice", closed_quota()));
    let no_routing = VoiceInputSupport::Built(VoiceGates { local_routing: false, ..all_open() });
    assert!(!command_passes_voice_gates("/voice", "/voice", no_routing));
}

#[test]
fn names_compare_as_text() {
    assert!(same_name("", ""));
    assert!(same_name("/vöice", "/vöice"));
    assert!(!same_name("/vöice", "/voice"));
    assert!(!same_name("/voice", "/Voice"));
    assert!(!same_name("/voice", "/voice "));
}

fn candidate(name: &str, supported_in_tui: bool, passes_common_gates: bool) -> SlashCommandCandidate {
    SlashCommandCandidate { name: name.to_owned(), supported_in_tui, passes_common_gates }
}

#[test]
fn active_commands_pass_every_filter() {
    let commands = vec![
        candidate("/help", true, true),
        candidate("/voice", true, true),
        candidate("/agent", false, true),
        candidate("/plan", true, false),
        candidate("/model", true, true),
    ];
    assert_eq!(active_command_indices(&commands, "/voice", open_gates()), vec![0, 1, 4]);
    assert_eq!(active_command_indices(&commands, "/voice", closed_quota()), vec![0, 4]);
    assert_eq!(active_command_indices(&Vec::new(), "/voice", open_gates()), Vec::<usize>::new());
}

#[test]
fn without_voice_input_no_command_passes() {
    assert!(!command_passes_voice_gates("/help", "/voice", VoiceInputSupport::NotBuilt));
    assert!(!command_passes_voice_gates("/voice", "/voice", VoiceInputSupport::NotBuilt));
    let commands = vec![candidate("/help", true, true), candidate("/voice", true, true)];
    assert_eq!(
        active_command_indices(&commands, "/voice", VoiceInputSupport::NotBuilt),
        Vec::<usize>::new()
    );
}
