//! State of the terminal UI's slash-command data source: which commands are
//! active and which repository is active, and when the UI must be told that
//! the active commands changed.

use crate::gates::{
    active_command_indices, is_active_command_list, SlashCommandCandidate, VoiceInputSupport,
};
use vstd::prelude::*;

verus! {

/// Set of contexts in which a slash command is available, one bit per context.
#[derive(Clone, Copy)]
pub struct Availability {
    pub bits: u64,
}

/// Whether `set` holds every bit of `flags`.
pub open spec fn has_flags(set: Availability, flags: Availability) -> bool {
    set.bits & flags.bits == flags.bits
}

/// The terminal UI's availability: the base availability of the current
/// context with the agent-view, active-conversation and not-cloud-agent
/// flags added.
pub fn tui_availability(
    base: Availability,
    agent_view: Availability,
    active_conversation: Availability,
    not_cloud_agent: Availability,
) -> (availability: Availability)
    ensures
        availability.bits == base.bits | agent_view.bits | active_conversation.bits
            | not_cloud_agent.bits,
        has_flags(availability, base),
        has_flags(availability, agent_view),
        has_flags(availability, active_conversation),
        has_flags(availability, not_cloud_agent),
{
    let bits = base.bits | agent_view.bits | active_conversation.bits | not_cloud_agent.bits;
    let (a, b, c, d) = (base.bits, agent_view.bits, active_conversation.bits, not_cloud_agent.bits);
    assert(bits & a == a && bits & b == b && bits & c == c && bits & d == d) by (bit_vector)
        requires
            bits == a | b | c | d,
    ;
    Availability { bits }
}

/// Abstract value of the data source: the active repository root, and the
/// positions of the active commands in increasing order.
pub struct DataSourceView {
    pub active_repo_root: Option<Seq<char>>,
    pub active_commands: Seq<usize>,
}

/// The text of an optional path.
pub open spec fn root_view(root: Option<String>) -> Option<Seq<char>> {
    match root {
        Some(path) => Some(path@),
        None => None,
    }
}

/// Whether a sequence is strictly increasing.
pub open spec fn strictly_increasing(s: Seq<usize>) -> bool {
    forall|k1: int, k2: int| 0 <= k1 < k2 < s.len() ==> s[k1] < s[k2]
}

/// Two strictly increasing lists are equal exactly when they hold the same
/// members, so comparing the lists of active commands compares the sets of
/// active commands.
pub proof fn lemma_increasing_lists_equal_iff_same_members(a: Seq<usize>, b: Seq<usize>)
    requires
        strictly_increasing(a),
        strictly_increasing(b),
    ensures
        (a == b) <==> (forall|x: usize| a.contains(x) <==> b.contains(x)),
{
    if forall|x: usize| a.contains(x) <==> b.contains(x) {
        lemma_same_prefix(a, b, a.len() as int);
        lemma_same_prefix(b, a, b.len() as int);
        assert(a =~= b);
    }
}

proof fn lemma_same_prefix(a: Seq<usize>, b: Seq<usize>, n: int)
    requires
        strictly_increasing(a),
        strictly_increasing(b),
        forall|x: usize| a.contains(x) <==> b.contains(x),
        0 <= n <= a.len(),
    ensures
        n <= b.len(),
        forall|k: int| 0 <= k < n ==> a[k] == b[k],
    decreases n,
{
    if n > 0 {
        let k = n - 1;
        lemma_same_prefix(a, b, k);
        assert(a.contains(a[k]));
        let m = choose|m: int| 0 <= m < b.len() && b[m] == a[k];
        if m < k {
            assert(b[m] == a[m]);
        }
        assert(b.contains(b[k]));
        let p = choose|p: int| 0 <= p < a.len() && a[p] == b[k];
        if p < k {
            assert(a[p] == b[p]);
        }
        if m > k {
            assert(b[k] < b[m]);
            assert(a[p] < a[k]);
        }
    }
}

/// The slash-command data source of the terminal UI.
pub struct TuiSlashCommandDataSource {
    active_repo_root: Option<String>,
    active_commands: Vec<usize>,
}

impl View for TuiSlashCommandDataSource {
    type V = DataSourceView;

    closed spec fn view(&self) -> DataSourceView {
        DataSourceView {
            active_repo_root: root_view(self.active_repo_root),
            active_commands: self.active_commands@,
        }
    }
}

/// The result of comparing the paths `a` and `b` with `Path`'s `==`, which
/// compares them component by component (so `/repo` and `/repo/` are equal).
pub uninterp spec fn paths_equal(a: Seq<char>, b: Seq<char>) -> bool;

/// Calls `<Path as PartialEq>::eq` on the two paths; its result is named
/// `paths_equal`, a function of the two texts alone.
#[verifier::external_body]
fn same_path(a: &str, b: &str) -> (same: bool)
    ensures
        same == paths_equal(a@, b@),
{
    std::path::Path::new(a) == std::path::Path::new(b)
}

/// Whether two optional repository roots name the same path.
pub open spec fn same_root(a: Option<Seq<char>>, b: Option<Seq<char>>) -> bool {
    match (a, b) {
        (Some(x), Some(y)) => paths_equal(x, y),
        (None, None) => true,
        _ => false,
    }
}

/// Two roots are the same exactly when both are absent or both are paths that
/// compare equal as paths; a present root and an absent one always differ.
pub proof fn lemma_same_root_is_path_equality(a: Option<Seq<char>>, b: Option<Seq<char>>)
    ensures
        (a matches Some(x) && b matches Some(y)) ==> (same_root(a, b) == paths_equal(
            a->0,
            b->0,
        )),
        (a is None && b is None) ==> same_root(a, b),
        (a is Some) != (b is Some) ==> !same_root(a, b),
{
}

fn roots_match(a: &Option<String>, b: &Option<String>) -> (same: bool)
    ensures
        same == same_root(root_view(*a), root_view(*b)),
{
    match (a, b) {
        (Some(x), Some(y)) => same_path(x.as_str(), y.as_str()),
        (None, None) => true,
        _ => false,
    }
}

fn same_positions(a: &Vec<usize>, b: &Vec<usize>) -> (same: bool)
    ensures
        same == (a@ == b@),
{
    if a.len() != b.len() {
        return false;
    }
    let mut i: usize = 0;
    while i < a.len()
        invariant
            a@.len() == b@.len(),
            i <= a@.len(),
            forall|k: int| 0 <= k < i ==> a@[k] == b@[k],
        decreases a@.len() - i,
    {
        if a[i] != b[i] {
            return false;
        }
        i = i + 1;
    }
    assert(a@ =~= b@);
    true
}

impl TuiSlashCommandDataSource {
    /// A data source with no active repository, whose active commands are
    /// computed from the registered `commands`.
    pub fn new(
        commands: &Vec<SlashCommandCandidate>,
        voice_command_name: &str,
        support: VoiceInputSupport,
    ) -> (source: Self)
        ensures
            source@.active_repo_root is None,
            is_active_command_list(
                source@.active_commands,
                commands@,
                voice_command_name@,
                support,
            ),
    {
        TuiSlashCommandDataSource {
            active_repo_root: None,
            active_commands: active_command_indices(commands, voice_command_name, support),
        }
    }

    /// Positions of the active commands, in increasing order.
    pub fn active_commands(&self) -> (active: &Vec<usize>)
        ensures
            active@ == self@.active_commands,
    {
        &self.active_commands
    }

    /// The active repository root.
    pub fn active_repo_root(&self) -> (root: &Option<String>)
        ensures
            root_view(*root) == self@.active_repo_root,
    {
        &self.active_repo_root
    }

    /// Replaces the active commands with `active`; returns whether they
    /// changed, which is when the UI must be told.
    pub fn replace_active_commands(&mut self, active: Vec<usize>) -> (changed: bool)
        ensures
            final(self)@ == (DataSourceView { active_commands: active@, ..old(self)@ }),
            changed == (old(self)@.active_commands != active@),
    {
        let changed = !same_positions(&self.active_commands, &active);
        self.active_commands = active;
        changed
    }

    /// Recomputes the active commands from the registered `commands`; returns
    /// whether they changed, which is when the UI must be told.
    pub fn recompute_active_commands(
        &mut self,
        commands: &Vec<SlashCommandCandidate>,
        voice_command_name: &str,
        support: VoiceInputSupport,
    ) -> (changed: bool)
        ensures
            final(self)@.active_repo_root == old(self)@.active_repo_root,
            is_active_command_list(
                final(self)@.active_commands,
                commands@,
                voice_command_name@,
                support,
            ),
            changed == (old(self)@.active_commands != final(self)@.active_commands),
    {
        let active = active_command_indices(commands, voice_command_name, support);
        self.replace_active_commands(active)
    }

    /// Sets the active repository root; returns whether it changed, that is
    /// whether the new root names another path than the old one.
    pub fn update_active_repo_root(&mut self, repo_root: Option<String>) -> (changed: bool)
        ensures
            final(self)@ == (DataSourceView {
                active_repo_root: root_view(repo_root),
                ..old(self)@
            }),
            changed == !same_root(old(self)@.active_repo_root, root_view(repo_root)),
            changed == match (old(self)@.active_repo_root, repo_root) {
                (Some(before), Some(after)) => !paths_equal(before, after@),
                (None, None) => false,
                _ => true,
            },
            final(self)@.active_repo_root == match repo_root {
                Some(after) => Some(after@),
                None => None::<Seq<char>>,
            },
    {
        let changed = !roots_match(&self.active_repo_root, &repo_root);
        self.active_repo_root = repo_root;
        changed
    }

    /// What follows an update of the repository root: the active commands are
    /// recomputed only when the root changed. Returns whether the active
    /// commands changed, which is when the UI must be told.
    pub fn recompute_after_root_update(
        &mut self,
        root_changed: bool,
        commands: &Vec<SlashCommandCandidate>,
        voice_command_name: &str,
        support: VoiceInputSupport,
    ) -> (changed: bool)
        ensures
            final(self)@.active_repo_root == old(self)@.active_repo_root,
            !root_changed ==> final(self)@ == old(self)@ && !changed,
            root_changed ==> is_active_command_list(
                final(self)@.active_commands,
                commands@,
                voice_command_name@,
                support,
            ),
            changed == (old(self)@.active_commands != final(self)@.active_commands),
    {
        if root_changed {
            self.recompute_active_commands(commands, voice_command_name, support)
        } else {
            false
        }
    }

    /// Sets the active repository root and, only when it names another path,
    /// recomputes the active commands; returns whether the active commands
    /// changed, which is when the UI must be told.
    pub fn set_active_repo_root(
        &mut self,
        repo_root: Option<String>,
        commands: &Vec<SlashCommandCandidate>,
        voice_command_name: &str,
        support: VoiceInputSupport,
    ) -> (changed: bool)
        ensures
            final(self)@.active_repo_root == root_view(repo_root),
            (old(self)@.active_repo_root matches Some(before) && repo_root matches Some(after)
                && !paths_equal(before, after@)) ==> is_active_command_list(
                final(self)@.active_commands,
                commands@,
                voice_command_name@,
                support,
            ),
            (old(self)@.active_repo_root is Some) != (repo_root is Some) ==> is_active_command_list(
                final(self)@.active_commands,
                commands@,
                voice_command_name@,
                support,
            ),
            (old(self)@.active_repo_root matches Some(before) && repo_root matches Some(after)
                && paths_equal(before, after@)) ==> final(self)@.active_commands == old(
                self,
            )@.active_commands && !changed,
            same_root(old(self)@.active_repo_root, root_view(repo_root))
                ==> final(self)@.active_commands == old(self)@.active_commands && !changed,
            !same_root(old(self)@.active_repo_root, root_view(repo_root))
                ==> is_active_command_list(
                final(self)@.active_commands,
                commands@,
                voice_command_name@,
                support,
            ),
            changed == (old(self)@.active_commands != final(self)@.active_commands),
    {
        let root_changed = self.update_active_repo_root(repo_root);
        self.recompute_after_root_update(root_changed, commands, voice_command_name, support)
    }
}

/// An event of a model that the data source subscribes to.
#[derive(Clone, Copy, PartialEq, Eq, Structural, Debug)]
pub enum DataSourceEvent {
    /// The AI settings turned voice input on or off.
    VoiceInputEnabled,
    /// Any other change of the AI settings.
    OtherAiSettingChanged,
    /// The user's teams changed.
    TeamsChanged,
    /// Any other event of the user's workspaces.
    OtherWorkspaceEvent,
    /// The AI request usage was updated.
    RequestUsageUpdated,
    /// Any other event of the AI request usage.
    OtherUsageEvent,
}

/// Exactly three events make the data source recompute its active commands:
/// voice input switched, teams changed, and request usage updated.
pub fn event_triggers_recompute(event: DataSourceEvent) -> (triggers: bool)
    ensures
        triggers == (event is VoiceInputEnabled || event is TeamsChanged
            || event is RequestUsageUpdated),
{
    match event {
        DataSourceEvent::VoiceInputEnabled => true,
        DataSourceEvent::TeamsChanged => true,
        DataSourceEvent::RequestUsageUpdated => true,
        _ => false,
    }
}

} // verus!
