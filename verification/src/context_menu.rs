//! The pop-up context menu over a container or a compose project.
//!
//! Which of the configured actions the menu offers is decided here: an
//! action with matchers is offered when its first applicable matcher
//! accepts the target (name and image patterns through the regular
//! expression engine, label patterns against the target's runtime labels,
//! which the caller resolves and hands in), an action without matchers is
//! offered to every target, and an `enabled_when` condition further
//! restricts on the container's status.  Choosing an entry produces the
//! configured command with its placeholders substituted.

use vstd::prelude::*;

use crate::compose_view::ComposeProject;
use crate::config::{ActionView, Config, ContextMenuAction, ContextMenuMatcher, MatcherView};
use crate::state_machine::Container;
use crate::text::{lower_of, regex_match, replace_of, seq_contains};

verus! {

/// One runtime label of a container, as the caller resolved it.
#[derive(Debug, Clone)]
pub struct ContainerLabel {
    pub key: String,
    pub value: String,
}

/// The value of the label `key`, or empty when the container does not
/// carry it (the first occurrence wins).
pub open spec fn label_value(labels: Seq<ContainerLabel>, key: Seq<char>) -> Seq<char>
    decreases labels.len(),
{
    if labels.len() == 0 {
        Seq::empty()
    } else if labels[0].key@ == key {
        labels[0].value@
    } else {
        label_value(labels.drop_first(), key)
    }
}

/// Whether the container's labels satisfy a label matcher: with an
/// expected value, the label must hold exactly it; without one, any
/// non-empty value counts.
pub open spec fn label_matches(
    labels: Seq<ContainerLabel>,
    key: Seq<char>,
    expected: Option<Seq<char>>,
) -> bool {
    match expected {
        Some(v) => label_value(labels, key) == v,
        None => label_value(labels, key).len() != 0,
    }
}

/// Whether a status condition holds of a container status: "running"
/// means the status (lowercased) mentions "up", "stopped" the opposite,
/// and any other condition holds always.
pub open spec fn condition_holds(condition: Seq<char>, status: Seq<char>) -> bool {
    if condition == "running"@ {
        seq_contains(lower_of(status), "up"@)
    } else if condition == "stopped"@ {
        !seq_contains(lower_of(status), "up"@)
    } else {
        true
    }
}

/// The `enabled_when` gate of an action against a container.
pub open spec fn action_gate(action: ActionView, c: Container) -> bool {
    match action.enabled_when {
        Some(condition) => condition_holds(condition, c.status@),
        None => true,
    }
}

/// What the matcher list from position `i` on decides: the first matcher
/// whose pattern or label accepts the target decides (its verdict is the
/// `enabled_when` gate), a compose-project matcher accepts a project
/// outright, and a list that never matches rejects.
pub open spec fn matchers_decide(
    action: ActionView,
    container: Option<Container>,
    project_present: bool,
    labels: Seq<ContainerLabel>,
    i: int,
) -> bool
    decreases action.matchers.len() - i,
{
    if i < 0 || i >= action.matchers.len() {
        false
    } else {
        match action.matchers[i] {
            MatcherView::NamePattern { pattern } => match container {
                Some(c) => if regex_match(pattern, c.name@) {
                    action_gate(action, c)
                } else {
                    matchers_decide(action, container, project_present, labels, i + 1)
                },
                None => matchers_decide(action, container, project_present, labels, i + 1),
            },
            MatcherView::ImagePattern { pattern } => match container {
                Some(c) => if regex_match(pattern, c.image@) {
                    action_gate(action, c)
                } else {
                    matchers_decide(action, container, project_present, labels, i + 1)
                },
                None => matchers_decide(action, container, project_present, labels, i + 1),
            },
            MatcherView::LabelPattern { label, value } => match container {
                Some(c) => if label_matches(labels, label, value) {
                    action_gate(action, c)
                } else {
                    matchers_decide(action, container, project_present, labels, i + 1)
                },
                None => matchers_decide(action, container, project_present, labels, i + 1),
            },
            MatcherView::ComposeProject => if project_present {
                true
            } else {
                matchers_decide(action, container, project_present, labels, i + 1)
            },
        }
    }
}

/// Whether the menu offers `action` for this target: without matchers the
/// action applies to everything (gated on the container when a condition
/// is set), with matchers the matcher list decides.
pub open spec fn action_applies(
    action: ActionView,
    container: Option<Container>,
    project_present: bool,
    labels: Seq<ContainerLabel>,
) -> bool {
    if action.matchers.len() == 0 {
        match action.enabled_when {
            Some(condition) => match container {
                Some(c) => condition_holds(condition, c.status@),
                None => false,
            },
            None => true,
        }
    } else {
        matchers_decide(action, container, project_present, labels, 0)
    }
}

/// The configured actions that the menu offers for this target, in
/// configuration order.
pub open spec fn offered_actions(
    actions: Seq<ActionView>,
    container: Option<Container>,
    project_present: bool,
    labels: Seq<ContainerLabel>,
) -> Seq<ActionView>
    decreases actions.len(),
{
    if actions.len() == 0 {
        Seq::empty()
    } else {
        let prev = offered_actions(actions.drop_last(), container, project_present, labels);
        if action_applies(actions.last(), container, project_present, labels) {
            prev.push(actions.last())
        } else {
            prev
        }
    }
}

pub struct ContextMenuState {
    pub active: bool,
    pub selected_index: usize,
    pub actions: Vec<ContextMenuAction>,
    pub target_container: Option<Container>,
    pub target_project: Option<ComposeProject>,
}

impl ContextMenuState {
    /// The selection always stays inside the action list (position zero
    /// when the list is empty).
    pub open spec fn wf(self) -> bool {
        &&& (self.actions@.len() == 0 ==> self.selected_index == 0)
        &&& (self.actions@.len() > 0 ==> self.selected_index < self.actions@.len())
    }

    /// A closed menu with no target.
    pub fn new() -> (r: Self)
        ensures
            !r.active,
            r.selected_index == 0,
            r.actions@.len() == 0,
            r.target_container is None,
            r.target_project is None,
            r.wf(),
    {
        Self {
            active: false,
            selected_index: 0,
            actions: Vec::new(),
            target_container: None,
            target_project: None,
        }
    }

    /// Open the menu over the given target: the offered actions are
    /// exactly the configured ones that apply to it, in configuration
    /// order.  `labels` carries the target container's runtime labels as
    /// the caller resolved them.
    pub fn activate(
        &mut self,
        container: Option<Container>,
        project: Option<ComposeProject>,
        config: &Config,
        labels: &Vec<ContainerLabel>,
    )
        ensures
            final(self).active,
            final(self).selected_index == 0,
            final(self).actions@.map_values(|a: ContextMenuAction| a@) == offered_actions(
                config.context_menu.actions@.map_values(|a: ContextMenuAction| a@),
                container,
                project is Some,
                labels@,
            ),
            final(self).wf(),
    {
        self.active = true;
        self.selected_index = 0;
        let ghost all = config.context_menu.actions@.map_values(|a: ContextMenuAction| a@);
        let n = config.context_menu.actions.len();
        let mut offered: Vec<ContextMenuAction> = Vec::new();
        proof {
            assert(all.take(0) =~= Seq::<ActionView>::empty());
        }
        let mut i: usize = 0;
        while i < n
            invariant
                i <= n,
                n == config.context_menu.actions@.len(),
                all == config.context_menu.actions@.map_values(|a: ContextMenuAction| a@),
                offered@.map_values(|a: ContextMenuAction| a@) =~= offered_actions(
                    all.take(i as int),
                    container,
                    project is Some,
                    labels@,
                ),
            decreases n - i,
        {
            let action = &config.context_menu.actions[i];
            let applies = matches_action(action, &container, &project, labels);
            proof {
                let prefix = all.take(i as int + 1);
                assert(prefix.drop_last() =~= all.take(i as int));
                assert(prefix.last() == all[i as int]);
                assert(all[i as int] == action@);
            }
            if applies {
                let ghost pre = offered@.map_values(|a: ContextMenuAction| a@);
                let copy = action.duplicate();
                let ghost cv = copy@;
                offered.push(copy);
                proof {
                    assert(offered@.map_values(|a: ContextMenuAction| a@) =~= pre.push(cv));
                }
            }
            i += 1;
        }
        proof {
            assert(all.take(n as int) =~= all);
        }
        self.actions = offered;
        self.target_container = container;
        self.target_project = project;
    }

    /// Close the menu and forget its target.
    pub fn deactivate(&mut self)
        ensures
            !final(self).active,
            final(self).selected_index == 0,
            final(self).actions@.len() == 0,
            final(self).target_container is None,
            final(self).target_project is None,
            final(self).wf(),
    {
        self.active = false;
        self.selected_index = 0;
        self.actions = Vec::new();
        self.target_container = None;
        self.target_project = None;
    }

    /// Move the selection one entry down, wrapping at the end; an empty
    /// menu has nothing to select.
    pub fn next(&mut self)
        requires
            old(self).wf(),
        ensures
            final(self).wf(),
            final(self).actions == old(self).actions,
            final(self).active == old(self).active,
            final(self).target_container == old(self).target_container,
            final(self).target_project == old(self).target_project,
            old(self).actions@.len() == 0 ==> final(self).selected_index == old(
                self,
            ).selected_index,
            old(self).actions@.len() > 0 ==> final(self).selected_index == (old(
                self,
            ).selected_index + 1) % (old(self).actions@.len() as int),
    {
        if !self.actions.is_empty() {
            let n = self.actions.len();
            self.selected_index = (self.selected_index + 1) % n;
        }
    }

    /// Move the selection one entry up, wrapping at the start.
    pub fn previous(&mut self)
        requires
            old(self).wf(),
        ensures
            final(self).wf(),
            final(self).actions == old(self).actions,
            final(self).active == old(self).active,
            final(self).target_container == old(self).target_container,
            final(self).target_project == old(self).target_project,
            old(self).actions@.len() == 0 ==> final(self).selected_index == old(
                self,
            ).selected_index,
            old(self).actions@.len() > 0 ==> final(self).selected_index == if old(
                self,
            ).selected_index == 0 {
                old(self).actions@.len() - 1
            } else {
                old(self).selected_index - 1
            },
    {
        if !self.actions.is_empty() {
            if self.selected_index == 0 {
                self.selected_index = self.actions.len() - 1;
            } else {
                self.selected_index = self.selected_index - 1;
            }
        }
    }

    /// The entry the selection sits on, if the menu offers any.
    pub fn get_selected_action(&self) -> (r: Option<&ContextMenuAction>)
        ensures
            match r {
                Some(a) => self.selected_index < self.actions@.len() && a@ == self.actions@[
                    self.selected_index as int
                ]@,
                None => self.selected_index >= self.actions@.len(),
            },
    {
        if self.selected_index < self.actions.len() {
            Some(&self.actions[self.selected_index])
        } else {
            None
        }
    }

    /// The command of the selected entry with its placeholders filled in:
    /// the container's name, image and address, and the project's name,
    /// directory, compose file and first service.  Nothing is selected in
    /// an empty menu.
    pub fn execute_selected_action(&self) -> (r: Option<String>)
        ensures
            match r {
                Some(cmd) => self.selected_index < self.actions@.len() && cmd@
                    == substituted_command(
                    self.actions@[self.selected_index as int]@,
                    self.target_container,
                    self.target_project,
                ),
                None => self.selected_index >= self.actions@.len(),
            },
    {
        let action = match self.get_selected_action() {
            Some(a) => a,
            None => {
                return None;
            },
        };
        let mut command = action.command.clone();
        if let Some(container) = &self.target_container {
            command = crate::text::replace_all(command.as_str(), "{name}", container.name.as_str());
            command = crate::text::replace_all(
                command.as_str(),
                "{image}",
                container.image.as_str(),
            );
            command = crate::text::replace_all(
                command.as_str(),
                "{ip}",
                container.ip_address.as_str(),
            );
        }
        if let Some(project) = &self.target_project {
            command = crate::text::replace_all(
                command.as_str(),
                "{project}",
                project.project_name.as_str(),
            );
            command = crate::text::replace_all(
                command.as_str(),
                "{dir}",
                project.working_dir.as_str(),
            );
            let mut compose_file = project.working_dir.clone();
            compose_file.append("/docker-compose.yml");
            command = crate::text::replace_all(
                command.as_str(),
                "{compose_file}",
                compose_file.as_str(),
            );
            if project.containers.len() > 0 {
                command = crate::text::replace_all(
                    command.as_str(),
                    "{service}",
                    project.containers[0].as_str(),
                );
            }
        }
        Some(command)
    }
}

/// The selected command after placeholder substitution, step by step in
/// the order the substitutions are applied.
pub open spec fn substituted_command(
    action: ActionView,
    container: Option<Container>,
    project: Option<ComposeProject>,
) -> Seq<char> {
    let base = action.command;
    let with_container = match container {
        Some(c) => replace_of(
            replace_of(replace_of(base, "{name}"@, c.name@), "{image}"@, c.image@),
            "{ip}"@,
            c.ip_address@,
        ),
        None => base,
    };
    match project {
        Some(p) => {
            let with_dir = replace_of(
                replace_of(with_container, "{project}"@, p.project_name@),
                "{dir}"@,
                p.working_dir@,
            );
            let with_file = replace_of(
                with_dir,
                "{compose_file}"@,
                p.working_dir@ + "/docker-compose.yml"@,
            );
            if p.containers@.len() > 0 {
                replace_of(with_file, "{service}"@, p.containers@[0]@)
            } else {
                with_file
            }
        },
        None => with_container,
    }
}

/// Whether the menu offers `action` for this target; the executable
/// counterpart of [`action_applies`].
pub fn matches_action(
    action: &ContextMenuAction,
    container: &Option<Container>,
    project: &Option<ComposeProject>,
    labels: &Vec<ContainerLabel>,
) -> (r: bool)
    ensures
        r == action_applies(action@, *container, *project is Some, labels@),
{
    if action.matchers.is_empty() {
        return match (&action.enabled_when, container) {
            (Some(condition), Some(c)) => check_enabled_condition(condition.as_str(), c),
            (Some(_), None) => false,
            (None, _) => true,
        };
    }
    let n = action.matchers.len();
    let mut i: usize = 0;
    while i < n
        invariant
            i <= n,
            n == action.matchers@.len(),
            n == action@.matchers.len(),
            matchers_decide(action@, *container, *project is Some, labels@, 0) == matchers_decide(
                action@,
                *container,
                *project is Some,
                labels@,
                i as int,
            ),
        decreases n - i,
    {
        proof {
            assert(action@.matchers[i as int] == action.matchers@[i as int]@);
        }
        match &action.matchers[i] {
            ContextMenuMatcher::NamePattern { pattern } => {
                if let Some(c) = container {
                    if crate::text::regex_is_match(pattern.as_str(), c.name.as_str()) {
                        return check_action_gate(action, c);
                    }
                }
            },
            ContextMenuMatcher::ImagePattern { pattern } => {
                if let Some(c) = container {
                    if crate::text::regex_is_match(pattern.as_str(), c.image.as_str()) {
                        return check_action_gate(action, c);
                    }
                }
            },
            ContextMenuMatcher::LabelPattern { label, value } => {
                if let Some(c) = container {
                    if check_container_label(labels, label.as_str(), value) {
                        return check_action_gate(action, c);
                    }
                }
            },
            ContextMenuMatcher::ComposeProject => {
                if project.is_some() {
                    return true;
                }
            },
        }
        i += 1;
    }
    false
}

/// The `enabled_when` gate of `action` against a concrete container; the
/// executable counterpart of [`action_gate`].
fn check_action_gate(action: &ContextMenuAction, container: &Container) -> (r: bool)
    ensures
        r == action_gate(action@, *container),
{
    match &action.enabled_when {
        Some(condition) => check_enabled_condition(condition.as_str(), container),
        None => true,
    }
}

/// Whether a status condition holds of the container; the executable
/// counterpart of [`condition_holds`].
pub fn check_enabled_condition(condition: &str, container: &Container) -> (r: bool)
    ensures
        r == condition_holds(condition@, container.status@),
{
    let lowered = crate::text::to_lowercase(container.status.as_str());
    if crate::text::str_eq(condition, "running") {
        crate::text::str_contains(lowered.as_str(), "up")
    } else if crate::text::str_eq(condition, "stopped") {
        !crate::text::str_contains(lowered.as_str(), "up")
    } else {
        true
    }
}

/// Whether the resolved labels satisfy a label matcher; the executable
/// counterpart of [`label_matches`].
pub fn check_container_label(
    labels: &Vec<ContainerLabel>,
    label: &str,
    expected_value: &Option<String>,
) -> (r: bool)
    ensures
        r == label_matches(
            labels@,
            label@,
            match expected_value {
                Some(v) => Some(v@),
                None => None,
            },
        ),
{
    let n = labels.len();
    proof {
        assert(labels@.skip(0) =~= labels@);
    }
    let mut i: usize = 0;
    while i < n
        invariant
            i <= n,
            n == labels@.len(),
            label_value(labels@, label@) == label_value(labels@.skip(i as int), label@),
        decreases n - i,
    {
        proof {
            assert(labels@.skip(i as int)[0] == labels@[i as int]);
            assert(labels@.skip(i as int).drop_first() =~= labels@.skip(i as int + 1));
        }
        if crate::text::str_eq(labels[i].key.as_str(), label) {
            return match expected_value {
                Some(expected) => crate::text::str_eq(
                    labels[i].value.as_str(),
                    expected.as_str(),
                ),
                None => !labels[i].value.as_str().is_empty(),
            };
        }
        i += 1;
    }
    proof {
        assert(labels@.skip(n as int).len() == 0);
    }
    match expected_value {
        Some(expected) => {
            proof {
                if expected@.len() == 0 {
                    assert(label_value(labels@, label@) =~= expected@);
                }
            }
            expected.as_str().is_empty()
        },
        None => false,
    }
}

} // verus!
