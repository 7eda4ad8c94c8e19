use warp_tui::data_source::{
    event_triggers_recompute, tui_availability, Availability, DataSourceEvent, TuiSlashCommandDataSource,
};
use warp_tui::gates::{SlashCommandCandidate, VoiceGates, VoiceInputSupport};

fn candidate(name: &str, supported_in_tui: bool, passes_common_gates: bool) -> SlashCommandCandidate {
    SlashCommandCandidate { name: name.to_owned(), supported_in_tui, passes_common_gates }
}

fn support(quota_available: bool) -> VoiceInputSupport {
    VoiceInputSupport::Built(VoiceGates {
        ai_enabled: true,
        team_enabled: true,
        quota_available,
        local_routing: true,
    })
}

fn registry() -> Vec<SlashCommandCandidate> {
    vec![candidate("/help", true, true), candidate("/voice", true, true), candidate("/plan", false, true)]
}

#[test]
fn new_source_computes_the_active_commands() {
    let source = TuiSlashCommandDataSource::new(&registry(), "/voice", support(true));
    assert_eq!(source.active_commands(), &vec![0, 1]);
    assert_eq!(source.active_repo_root(), &None);
}

#[test]
fn recompute_reports_only_real_changes() {
    let mut source = TuiSlashCommandDataSource::new(&registry(), "/voice", support(true));
    assert!(!source.recompute_active_commands(&registry(), "/voice", support(true)));
    assert!(source.recompute_active_commands(&registry(), "/voice", support(false)));
    assert_eq!(source.active_commands(), &vec![0]);
    assert!(!source.recompute_active_commands(&registry(), "/voice", support(false)));
    assert!(source.recompute_active_commands(&registry(), "/voice", support(true)));
    assert_eq!(source.active_commands(), &vec![0, 1]);
}

#[test]
fn replace_reports_whether_the_set_changed() {
    let mut source = TuiSlashCommandDataSource::new(&registry(), "/voice", support(true));
    assert!(!source.replace_active_commands(vec![0, 1]));
    assert!(source.replace_active_commands(vec![1]));
    assert_eq!(source.active_commands(), &vec![1]);
}

#[test]
fn repo_root_change_triggers_recompute() {
    let mut source = TuiSlashCommandDataSource::new(&registry(), "/voice", support(true));
    // Same root: nothing is recomputed, even though the quota ran out.
    assert!(!source.set_active_repo_root(None, &registry(), "/voice", support(false)));
    assert_eq!(source.active_commands(), &vec![0, 1]);
    // New root: the active commands are recomputed.
    assert!(source.set_active_repo_root(Some("/repo".to_owned()), &registry(), "/voice", support(false)));
    assert_eq!(source.active_commands(), &vec![0]);
    assert_eq!(source.active_repo_root(), &Some("/repo".to_owned()));
    // A different root that leaves the commands as they are reports no change.
    assert!(!source.set_active_repo_root(Some("/other".to_owned()), &registry(), "/voice", support(false)));
    assert_eq!(source.active_repo_root(), &Some("/other".to_owned()));
}

#[test]
fn update_repo_root_reports_changes() {
    let mut source = TuiSlashCommandDataSource::new(&registry(), "/voice", support(true));
    assert!(!source.update_active_repo_root(None));
    assert!(source.update_active_repo_root(Some("/repo".to_owned())));
    assert!(!source.update_active_repo_root(Some("/repo".to_owned())));
    assert!(source.update_active_repo_root(None));
}

#[test]
fn tui_availability_adds_the_terminal_flags() {
    let availability = tui_availability(
        Availability { bits: 0b0001 },
        Availability { bits: 0b0100 },
        Availability { bits: 0b1000 },
        Availability { bits: 0b1_0000 },
    );
    assert_eq!(availability.bits, 0b1_1101);
    let already_set = tui_availability(
        Availability { bits: 0b0110 },
        Availability { bits: 0b0100 },
        Availability { bits: 0b0010 },
        Availability { bits: 0b0000 },
    );
    assert_eq!(already_set.bits, 0b0110);
}

#[test]
fn equal_paths_are_no_change() {
    let mut source = TuiSlashCommandDataSource::new(&registry(), "/voice", support(true));
    assert!(source.update_active_repo_root(Some("/repo".to_owned())));
    assert!(!source.update_active_repo_root(Some("/repo/".to_owned())));
    assert!(!source.update_active_repo_root(Some("/repo//".to_owned())));
    assert!(source.update_active_repo_root(Some("/repo/sub".to_owned())));
    // An equal path does not recompute, even though the quota ran out.
    assert!(!source.set_active_repo_root(Some("/repo/sub/".to_owned()), &registry(), "/voice", support(false)));
    assert_eq!(source.active_commands(), &vec![0, 1]);
}

#[test]
fn recompute_follows_the_root_update() {
    let mut source = TuiSlashCommandDataSource::new(&registry(), "/voice", support(true));
    assert!(!source.recompute_after_root_update(false, &registry(), "/voice", support(false)));
    assert_eq!(source.active_commands(), &vec![0, 1]);
    assert!(source.recompute_after_root_update(true, &registry(), "/voice", support(false)));
    assert_eq!(source.active_commands(), &vec![0]);
}

#[test]
fn only_three_events_trigger_a_recompute() {
    assert!(event_triggers_recompute(DataSourceEvent::VoiceInputEnabled));
    assert!(event_triggers_recompute(DataSourceEvent::TeamsChanged));
    assert!(event_triggers_recompute(DataSourceEvent::RequestUsageUpdated));
    assert!(!event_triggers_recompute(DataSourceEvent::OtherAiSettingChanged));
    assert!(!event_triggers_recompute(DataSourceEvent::OtherWorkspaceEvent));
    assert!(!event_triggers_recompute(DataSourceEvent::OtherUsageEvent));
}
