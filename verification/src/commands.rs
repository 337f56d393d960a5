//! The command line: parsing what the user typed into a plan the runner
//! carries out.
//!
//! Everything that can be decided from the typed command and the current
//! container list is decided here: quitting, numeric navigation, which
//! containers a name, wildcard or `/regex/` specification resolves to,
//! and every message that does not depend on the runtime's answer.  What
//! needs the runtime — running an operation, fetching logs or inspection
//! output, refreshing, reloading the configuration — comes back as a
//! [`CommandPlan`] for the runner, and the runner's outcomes are folded
//! into the final [`CommandResult`] by verified combinators.

use vstd::prelude::*;

use crate::config::Config;
use crate::state_machine::Container;
use crate::text::{
    all_digits, digits_val, joined, parse_usize, regex_match, replace_of, split_whitespace_vec,
    starts_with, str_eq, str_starts_with, trim_str, trimmed, words,
};

verus! {

/// What a command came to.
pub enum CommandResult {
    Success(String),
    Error(String),
    /// Move the selection to this position.
    Navigation(usize),
    Quit,
    /// Adopt a freshly loaded configuration.
    ConfigReload(Box<Config>),
}

/// The containers one argument resolved to.
pub struct ArgMatches {
    /// The argument as typed.
    pub arg: String,
    /// The names of the containers it matched, in list order.
    pub names: Vec<String>,
}

/// What the runner still has to do for a command; everything decidable
/// from the input alone arrives already [`CommandPlan::Finished`].
pub enum CommandPlan {
    Finished(CommandResult),
    /// Run the operation ("stop", "start" or "restart") on the matched
    /// containers of each argument, in order.
    ContainerOp { operation: String, resolved: Vec<ArgMatches> },
    /// Fetch recent logs of this container.
    Logs { name: String },
    /// Fetch the runtime's inspection output for this container.
    Inspect { name: String },
    /// Re-list the containers.
    Refresh,
    /// Reload the configuration from disk.
    Reload,
}

/// The outcome of one runtime operation, as the runner reports it.
pub enum OpOutcome {
    Success(String),
    Failure(String),
}

/// Whether the specification `spec` picks the container `c`: a
/// `/pattern/` form matches the name or the image by regular expression,
/// a form with `*` or `?` wildcards matches the whole name, and anything
/// else (or a pattern the engine rejects) matches the name exactly or as
/// a prefix.
pub open spec fn resolves(spec: Seq<char>, c: Container) -> bool {
    if spec.len() > 2 && spec[0] == '/' && spec.last() == '/' && crate::text::regex_valid(
        spec.subrange(1, spec.len() - 1),
    ) {
        regex_match(spec.subrange(1, spec.len() - 1), c.name@) || regex_match(
            spec.subrange(1, spec.len() - 1),
            c.image@,
        )
    } else if (spec.contains('*') || spec.contains('?')) && crate::text::regex_valid(
        wildcard_pattern(spec),
    ) {
        regex_match(wildcard_pattern(spec), c.name@)
    } else {
        c.name@ == spec || starts_with(c.name@, spec)
    }
}

/// The names of the containers from position `i` on that `spec` picks,
/// in list order.
pub open spec fn matched_names(spec: Seq<char>, containers: Seq<Container>, i: int) -> Seq<
    Seq<char>,
>
    decreases containers.len() - i,
{
    if i < 0 || i >= containers.len() {
        Seq::empty()
    } else if resolves(spec, containers[i]) {
        seq![containers[i].name@] + matched_names(spec, containers, i + 1)
    } else {
        matched_names(spec, containers, i + 1)
    }
}

/// The anchored regular expression a wildcard specification turns into.
pub open spec fn wildcard_pattern(spec: Seq<char>) -> Seq<char> {
    "^"@ + replace_of(replace_of(spec, "*"@, ".*"@), "?"@, "."@) + "$"@
}

/// How a submitted command changes the history: duplicates and (here
/// unreachable) empty commands are not recorded, and past one hundred
/// entries the oldest makes room.
pub open spec fn pushed_history(h: Seq<Seq<char>>, cmd: Seq<char>) -> Seq<Seq<char>> {
    if cmd.len() == 0 || h.contains(cmd) {
        h
    } else {
        let grown = h.push(cmd);
        if grown.len() > 100 {
            grown.skip(1)
        } else {
            grown
        }
    }
}

pub struct CommandExecutor {
    command_history: Vec<String>,
}

impl CommandExecutor {
    /// The submitted commands so far, oldest first.
    pub closed spec fn history(self) -> Seq<Seq<char>> {
        self.command_history@.map_values(|s: String| s@)
    }

    /// An executor with no history.
    pub fn new() -> (r: Self)
        ensures
            r.history() =~= Seq::<Seq<char>>::empty(),
    {
        let r = Self { command_history: Vec::new() };
        proof {
            assert(r.history() =~= Seq::<Seq<char>>::empty());
        }
        r
    }

    /// The submitted commands so far, oldest first.
    pub fn get_history(&self) -> (r: &Vec<String>)
        ensures
            r@.map_values(|s: String| s@) == self.history(),
    {
        &self.command_history
    }

    fn history_holds(&self, command: &str) -> (r: bool)
        ensures
            r == self.history().contains(command@),
    {
        let n = self.command_history.len();
        let mut i: usize = 0;
        while i < n
            invariant
                i <= n,
                n == self.command_history@.len(),
                forall|j: int| 0 <= j < i ==> self.history()[j] != command@,
            decreases n - i,
        {
            if str_eq(self.command_history[i].as_str(), command) {
                proof {
                    assert(self.history()[i as int] == command@);
                }
                return true;
            }
            i += 1;
        }
        proof {
            if self.history().contains(command@) {
                let w = choose|j: int|
                    0 <= j < self.history().len() && self.history()[j] == command@;
                assert(self.history()[w] != command@);
            }
        }
        false
    }

    /// Record a submitted command; see [`pushed_history`].
    fn add_to_history(&mut self, command: &str)
        ensures
            final(self).history() =~= pushed_history(old(self).history(), command@),
    {
        if !command.is_empty() && !self.history_holds(command) {
            let ghost pre = self.history();
            self.command_history.push(command.to_owned());
            proof {
                assert(self.history() =~= pre.push(command@));
            }
            if self.command_history.len() > 100 {
                let ghost grown = self.history();
                self.command_history.remove(0);
                proof {
                    assert(self.history() =~= grown.skip(1));
                }
            }
        }
    }

    /// The names of the containers that `spec` picks, in list order.
    pub fn resolve_container_spec(&self, spec: &str, containers: &Vec<Container>) -> (r: Vec<
        String,
    >)
        ensures
            r@.map_values(|s: String| s@) == matched_names(spec@, containers@, 0),
    {
        let spec_len = spec.unicode_len();
        let is_regex_form = spec_len > 2 && spec.get_char(0) == '/' && spec.get_char(spec_len - 1)
            == '/';
        let n = containers.len();
        let mut out: Vec<String> = Vec::new();
        proof {
            assert(out@.map_values(|s: String| s@) =~= Seq::<Seq<char>>::empty());
        }
        if is_regex_form {
            let pattern = spec.substring_char(1, spec_len - 1);
            if crate::text::regex_compiles(pattern) {
                let mut i: usize = 0;
                while i < n
                    invariant
                        i <= n,
                        n == containers@.len(),
                        spec@.len() > 2 && spec@[0] == '/' && spec@.last() == '/',
                        pattern@ == spec@.subrange(1, spec@.len() - 1),
                        crate::text::regex_valid(pattern@),
                        out@.map_values(|s: String| s@) + matched_names(
                            spec@,
                            containers@,
                            i as int,
                        ) =~= matched_names(spec@, containers@, 0),
                    decreases n - i,
                {
                    let c = &containers[i];
                    if crate::text::regex_is_match(pattern, c.name.as_str())
                        || crate::text::regex_is_match(pattern, c.image.as_str()) {
                        let ghost pre = out@.map_values(|s: String| s@);
                        out.push(c.name.clone());
                        proof {
                            assert(out@.map_values(|s: String| s@) =~= pre.push(
                                containers@[i as int].name@,
                            ));
                            assert(pre.push(containers@[i as int].name@) + matched_names(
                                spec@,
                                containers@,
                                i as int + 1,
                            ) =~= pre + matched_names(spec@, containers@, i as int));
                        }
                    }
                    i += 1;
                }
                proof {
                    assert(out@.map_values(|s: String| s@) + Seq::<Seq<char>>::empty()
                        =~= out@.map_values(|s: String| s@));
                }
                return out;
            }
        }
        let has_wildcard = crate::text::char_in_str(spec, '*') || crate::text::char_in_str(
            spec,
            '?',
        );
        if has_wildcard {
            let replaced = crate::text::replace_all(spec, "*", ".*");
            let replaced = crate::text::replace_all(replaced.as_str(), "?", ".");
            let mut pattern = String::from_str("^");
            pattern.append(replaced.as_str());
            pattern.append("$");
            proof {
                assert(pattern@ == wildcard_pattern(spec@));
            }
            if crate::text::regex_compiles(pattern.as_str()) {
                let mut i: usize = 0;
                while i < n
                    invariant
                        i <= n,
                        n == containers@.len(),
                        !(spec@.len() > 2 && spec@[0] == '/' && spec@.last() == '/'
                            && crate::text::regex_valid(spec@.subrange(1, spec@.len() - 1))),
                        spec@.contains('*') || spec@.contains('?'),
                        pattern@ == wildcard_pattern(spec@),
                        crate::text::regex_valid(pattern@),
                        out@.map_values(|s: String| s@) + matched_names(
                            spec@,
                            containers@,
                            i as int,
                        ) =~= matched_names(spec@, containers@, 0),
                    decreases n - i,
                {
                    let c = &containers[i];
                    if crate::text::regex_is_match(pattern.as_str(), c.name.as_str()) {
                        let ghost pre = out@.map_values(|s: String| s@);
                        out.push(c.name.clone());
                        proof {
                            assert(out@.map_values(|s: String| s@) =~= pre.push(
                                containers@[i as int].name@,
                            ));
                            assert(pre.push(containers@[i as int].name@) + matched_names(
                                spec@,
                                containers@,
                                i as int + 1,
                            ) =~= pre + matched_names(spec@, containers@, i as int));
                        }
                    }
                    i += 1;
                }
                proof {
                    assert(out@.map_values(|s: String| s@) + Seq::<Seq<char>>::empty()
                        =~= out@.map_values(|s: String| s@));
                }
                return out;
            }
        }
        let mut i: usize = 0;
        while i < n
            invariant
                i <= n,
                n == containers@.len(),
                !(spec@.len() > 2 && spec@[0] == '/' && spec@.last() == '/'
                    && crate::text::regex_valid(spec@.subrange(1, spec@.len() - 1))),
                !((spec@.contains('*') || spec@.contains('?')) && crate::text::regex_valid(
                    wildcard_pattern(spec@),
                )),
                out@.map_values(|s: String| s@) + matched_names(spec@, containers@, i as int)
                    =~= matched_names(spec@, containers@, 0),
            decreases n - i,
        {
            let c = &containers[i];
            if str_eq(c.name.as_str(), spec) || str_starts_with(c.name.as_str(), spec) {
                let ghost pre = out@.map_values(|s: String| s@);
                out.push(c.name.clone());
                proof {
                    assert(out@.map_values(|s: String| s@) =~= pre.push(
                        containers@[i as int].name@,
                    ));
                    assert(pre.push(containers@[i as int].name@) + matched_names(
                        spec@,
                        containers@,
                        i as int + 1,
                    ) =~= pre + matched_names(spec@, containers@, i as int));
                }
            }
            i += 1;
        }
        proof {
            assert(out@.map_values(|s: String| s@) + Seq::<Seq<char>>::empty() =~= out@.map_values(
                |s: String| s@,
            ));
        }
        out
    }
}


/// The abstract form of one argument's resolution.
pub ghost struct ArgMatchesView {
    pub arg: Seq<char>,
    pub names: Seq<Seq<char>>,
}

impl View for ArgMatches {
    type V = ArgMatchesView;

    open spec fn view(&self) -> ArgMatchesView {
        ArgMatchesView { arg: self.arg@, names: self.names@.map_values(|s: String| s@) }
    }
}

/// Whether the plan is a finished error with exactly this message.
pub open spec fn finished_error(r: CommandPlan, msg: Seq<char>) -> bool {
    match r {
        CommandPlan::Finished(CommandResult::Error(m)) => m@ == msg,
        _ => false,
    }
}

/// The container a single-target command (logs, exec, inspect) works on:
/// with no argument the selected container, otherwise the first container
/// the argument resolves to; or the error message when there is neither.
pub open spec fn target_of(
    args: Seq<Seq<char>>,
    containers: Seq<Container>,
    selected: Option<usize>,
) -> Result<Seq<char>, Seq<char>> {
    if args.len() == 0 {
        match selected {
            Some(i) => if i < containers.len() {
                Ok(containers[i as int].name@)
            } else {
                Err("No container selected"@)
            },
            None => Err("No container selected"@),
        }
    } else {
        let names = matched_names(args[0], containers, 0);
        if names.len() > 0 {
            Ok(names[0])
        } else {
            Err("No container found matching: "@ + args[0])
        }
    }
}

/// What a container operation (stop, start, restart) plans: with no
/// arguments the selected container alone, otherwise each argument
/// resolved to its matching containers, in order.
pub open spec fn op_case(
    op: Seq<char>,
    args: Seq<Seq<char>>,
    containers: Seq<Container>,
    selected: Option<usize>,
    r: CommandPlan,
) -> bool {
    if args.len() == 0 {
        match selected {
            Some(i) => if i < containers.len() {
                match r {
                    CommandPlan::ContainerOp { operation, resolved } => operation@ == op
                        && resolved@.map_values(|a: ArgMatches| a@) =~= seq![
                        ArgMatchesView {
                            arg: containers[i as int].name@,
                            names: seq![containers[i as int].name@],
                        },
                    ],
                    _ => false,
                }
            } else {
                finished_error(r, "No container selected"@)
            },
            None => finished_error(r, "No container selected"@),
        }
    } else {
        match r {
            CommandPlan::ContainerOp { operation, resolved } => {
                &&& operation@ == op
                &&& resolved@.len() == args.len()
                &&& forall|k: int|
                    0 <= k < args.len() ==> (#[trigger] resolved@[k])@.arg == args[k]
                        && resolved@[k]@.names == matched_names(args[k], containers, 0)
            },
            _ => false,
        }
    }
}

/// What the first word of a command dispatches to.
pub open spec fn dispatch_case(
    cmd: Seq<char>,
    containers: Seq<Container>,
    selected: Option<usize>,
    r: CommandPlan,
) -> bool {
    let ws = words(cmd);
    if ws.len() == 0 {
        finished_error(r, "Empty command"@)
    } else {
        let c0 = ws[0];
        let args = ws.skip(1);
        if c0 == "stop"@ || c0 == "start"@ || c0 == "restart"@ {
            op_case(c0, args, containers, selected, r)
        } else if c0 == "logs"@ {
            match target_of(args, containers, selected) {
                Ok(name) => match r {
                    CommandPlan::Logs { name: n } => n@ == name,
                    _ => false,
                },
                Err(msg) => finished_error(r, msg),
            }
        } else if c0 == "exec"@ {
            if args.len() == 0 {
                finished_error(r, "Usage: :exec <container> [command]"@)
            } else {
                let names = matched_names(args[0], containers, 0);
                if names.len() == 0 {
                    finished_error(r, "No container found matching: "@ + args[0])
                } else {
                    let cmdline = if args.len() > 1 {
                        joined(args.skip(1), " "@)
                    } else {
                        "/bin/bash"@
                    };
                    match r {
                        CommandPlan::Finished(CommandResult::Success(m)) => m@
                            == "Would execute: docker exec -it "@ + names[0] + " "@ + cmdline,
                        _ => false,
                    }
                }
            }
        } else if c0 == "inspect"@ {
            match target_of(args, containers, selected) {
                Ok(name) => match r {
                    CommandPlan::Inspect { name: n } => n@ == name,
                    _ => false,
                },
                Err(msg) => finished_error(r, msg),
            }
        } else if c0 == "ps"@ || c0 == "refresh"@ {
            r is Refresh
        } else if c0 == "set"@ {
            if args.len() == 0 {
                match r {
                    CommandPlan::Finished(CommandResult::Success(m)) => m@
                        == "Available settings: tabular"@,
                    _ => false,
                }
            } else if args[0] == "tabular"@ {
                match r {
                    CommandPlan::Finished(CommandResult::Success(m)) => m@
                        == "Tabular mode settings not yet implemented"@,
                    _ => false,
                }
            } else {
                finished_error(r, "Unknown setting: "@ + args[0])
            }
        } else if c0 == "reload"@ || c0 == "config"@ {
            r is Reload
        } else {
            finished_error(r, "Unknown command: "@ + c0)
        }
    }
}

/// What planning a command decides, case by case on the trimmed input.
pub open spec fn plan_case(
    cmd: Seq<char>,
    containers: Seq<Container>,
    selected: Option<usize>,
    r: CommandPlan,
) -> bool {
    if cmd.len() == 0 {
        finished_error(r, "Empty command"@)
    } else if cmd == "q"@ || cmd == "quit"@ {
        r matches CommandPlan::Finished(CommandResult::Quit)
    } else if cmd == "$"@ {
        if containers.len() > 0 {
            match r {
                CommandPlan::Finished(CommandResult::Navigation(n)) => n == containers.len() - 1,
                _ => false,
            }
        } else {
            finished_error(r, "No containers available"@)
        }
    } else if all_digits(cmd) && digits_val(cmd) <= usize::MAX {
        let n = digits_val(cmd);
        if 1 <= n && n <= containers.len() {
            match r {
                CommandPlan::Finished(CommandResult::Navigation(m)) => m == n - 1,
                _ => false,
            }
        } else {
            finished_error(r, "Invalid line number: "@ + crate::text::dec_rep(n))
        }
    } else {
        dispatch_case(cmd, containers, selected, r)
    }
}

impl CommandExecutor {
    /// Parse one typed command against the current container list and the
    /// selection, record it in the history, and hand back what the runner
    /// still has to do; see [`plan_case`] for every case.
    pub fn plan(
        &mut self,
        command: &str,
        containers: &Vec<Container>,
        selected: Option<usize>,
    ) -> (r: CommandPlan)
        ensures
            final(self).history() == if trimmed(command@).len() == 0 {
                old(self).history()
            } else {
                pushed_history(old(self).history(), trimmed(command@))
            },
            plan_case(trimmed(command@), containers@, selected, r),
    {
        let cmd = trim_str(command);
        if cmd.as_str().is_empty() {
            return CommandPlan::Finished(
                CommandResult::Error(String::from_str("Empty command")),
            );
        }
        self.add_to_history(cmd.as_str());

        if str_eq(cmd.as_str(), "q") || str_eq(cmd.as_str(), "quit") {
            return CommandPlan::Finished(CommandResult::Quit);
        }
        if str_eq(cmd.as_str(), "$") {
            let count = containers.len();
            if count > 0 {
                return CommandPlan::Finished(CommandResult::Navigation(count - 1));
            }
            return CommandPlan::Finished(
                CommandResult::Error(String::from_str("No containers available")),
            );
        }
        if let Some(line_num) = parse_usize(cmd.as_str()) {
            if line_num >= 1 && line_num <= containers.len() {
                return CommandPlan::Finished(CommandResult::Navigation(line_num - 1));
            }
            let mut msg = String::from_str("Invalid line number: ");
            msg.append(crate::text::usize_to_string(line_num).as_str());
            return CommandPlan::Finished(CommandResult::Error(msg));
        }

        let parts = split_whitespace_vec(cmd.as_str());
        if parts.len() == 0 {
            proof {
                assert(!all_digits(cmd@) || digits_val(cmd@) > usize::MAX);
            }
            return CommandPlan::Finished(
                CommandResult::Error(String::from_str("Empty command")),
            );
        }
        let ghost ws = words(cmd@);
        proof {
            assert(parts@.map_values(|w: String| w@)[0] == ws[0]);
        }
        let c0 = &parts[0];

        if str_eq(c0.as_str(), "stop") || str_eq(c0.as_str(), "start") || str_eq(
            c0.as_str(),
            "restart",
        ) {
            return self.plan_container_op(c0, &parts, containers, selected);
        }
        if str_eq(c0.as_str(), "logs") {
            return match self.resolve_target(&parts, containers, selected) {
                Ok(name) => CommandPlan::Logs { name },
                Err(msg) => CommandPlan::Finished(CommandResult::Error(msg)),
            };
        }
        if str_eq(c0.as_str(), "exec") {
            return self.plan_exec(&parts, containers);
        }
        if str_eq(c0.as_str(), "inspect") {
            return match self.resolve_target(&parts, containers, selected) {
                Ok(name) => CommandPlan::Inspect { name },
                Err(msg) => CommandPlan::Finished(CommandResult::Error(msg)),
            };
        }
        if str_eq(c0.as_str(), "ps") || str_eq(c0.as_str(), "refresh") {
            return CommandPlan::Refresh;
        }
        if str_eq(c0.as_str(), "set") {
            if parts.len() == 1 {
                return CommandPlan::Finished(
                    CommandResult::Success(String::from_str("Available settings: tabular")),
                );
            }
            proof {
                assert(parts@.map_values(|w: String| w@)[1] == ws.skip(1)[0]);
            }
            if str_eq(parts[1].as_str(), "tabular") {
                return CommandPlan::Finished(
                    CommandResult::Success(
                        String::from_str("Tabular mode settings not yet implemented"),
                    ),
                );
            }
            let mut msg = String::from_str("Unknown setting: ");
            msg.append(parts[1].as_str());
            return CommandPlan::Finished(CommandResult::Error(msg));
        }
        if str_eq(c0.as_str(), "reload") || str_eq(c0.as_str(), "config") {
            return CommandPlan::Reload;
        }
        let mut msg = String::from_str("Unknown command: ");
        msg.append(c0.as_str());
        CommandPlan::Finished(CommandResult::Error(msg))
    }

    fn plan_container_op(
        &self,
        op: &String,
        parts: &Vec<String>,
        containers: &Vec<Container>,
        selected: Option<usize>,
    ) -> (r: CommandPlan)
        requires
            parts@.len() >= 1,
        ensures
            op_case(
                op@,
                parts@.map_values(|w: String| w@).skip(1),
                containers@,
                selected,
                r,
            ),
    {
        let ghost args = parts@.map_values(|w: String| w@).skip(1);
        if parts.len() == 1 {
            match selected {
                Some(i) => {
                    if i < containers.len() {
                        let name = containers[i].name.clone();
                        let mut names: Vec<String> = Vec::new();
                        names.push(containers[i].name.clone());
                        let one = ArgMatches { arg: name, names };
                        let ghost ov = one@;
                        let mut resolved: Vec<ArgMatches> = Vec::new();
                        resolved.push(one);
                        proof {
                            assert(ov.names =~= seq![containers@[i as int].name@]);
                            assert(resolved@.map_values(|a: ArgMatches| a@) =~= seq![ov]);
                        }
                        CommandPlan::ContainerOp { operation: op.clone(), resolved }
                    } else {
                        CommandPlan::Finished(
                            CommandResult::Error(String::from_str("No container selected")),
                        )
                    }
                },
                None => CommandPlan::Finished(
                    CommandResult::Error(String::from_str("No container selected")),
                ),
            }
        } else {
            let total = parts.len();
            let mut resolved: Vec<ArgMatches> = Vec::new();
            let mut k: usize = 1;
            while k < total
                invariant
                    1 <= k <= total,
                    total == parts@.len(),
                    args == parts@.map_values(|w: String| w@).skip(1),
                    resolved@.len() == k - 1,
                    forall|j: int|
                        0 <= j < k - 1 ==> (#[trigger] resolved@[j])@.arg == args[j]
                            && resolved@[j]@.names == matched_names(args[j], containers@, 0),
                decreases total - k,
            {
                let arg = parts[k].clone();
                let names = self.resolve_container_spec(arg.as_str(), containers);
                proof {
                    assert(args[k - 1] == parts@.map_values(|w: String| w@)[k as int]);
                }
                resolved.push(ArgMatches { arg, names });
                k += 1;
            }
            CommandPlan::ContainerOp { operation: op.clone(), resolved }
        }
    }

    fn resolve_target(
        &self,
        parts: &Vec<String>,
        containers: &Vec<Container>,
        selected: Option<usize>,
    ) -> (r: Result<String, String>)
        requires
            parts@.len() >= 1,
        ensures
            match r {
                Ok(name) => target_of(
                    parts@.map_values(|w: String| w@).skip(1),
                    containers@,
                    selected,
                ) == Ok::<Seq<char>, Seq<char>>(name@),
                Err(msg) => target_of(
                    parts@.map_values(|w: String| w@).skip(1),
                    containers@,
                    selected,
                ) == Err::<Seq<char>, Seq<char>>(msg@),
            },
    {
        let ghost args = parts@.map_values(|w: String| w@).skip(1);
        if parts.len() == 1 {
            match selected {
                Some(i) => {
                    if i < containers.len() {
                        Ok(containers[i].name.clone())
                    } else {
                        Err(String::from_str("No container selected"))
                    }
                },
                None => Err(String::from_str("No container selected")),
            }
        } else {
            proof {
                assert(args[0] == parts@.map_values(|w: String| w@)[1]);
            }
            let names = self.resolve_container_spec(parts[1].as_str(), containers);
            if names.len() > 0 {
                proof {
                    assert(names@.map_values(|s: String| s@)[0] == matched_names(
                        args[0],
                        containers@,
                        0,
                    )[0]);
                }
                Ok(names[0].clone())
            } else {
                let mut msg = String::from_str("No container found matching: ");
                msg.append(parts[1].as_str());
                Err(msg)
            }
        }
    }

    fn plan_exec(&self, parts: &Vec<String>, containers: &Vec<Container>) -> (r: CommandPlan)
        requires
            parts@.len() >= 1,
        ensures
            ({
                let args = parts@.map_values(|w: String| w@).skip(1);
                if args.len() == 0 {
                    finished_error(r, "Usage: :exec <container> [command]"@)
                } else {
                    let names = matched_names(args[0], containers@, 0);
                    if names.len() == 0 {
                        finished_error(r, "No container found matching: "@ + args[0])
                    } else {
                        let cmdline = if args.len() > 1 {
                            joined(args.skip(1), " "@)
                        } else {
                            "/bin/bash"@
                        };
                        match r {
                            CommandPlan::Finished(CommandResult::Success(m)) => m@
                                == "Would execute: docker exec -it "@ + names[0] + " "@ + cmdline,
                            _ => false,
                        }
                    }
                }
            }),
    {
        let ghost args = parts@.map_values(|w: String| w@).skip(1);
        if parts.len() == 1 {
            return CommandPlan::Finished(
                CommandResult::Error(String::from_str("Usage: :exec <container> [command]")),
            );
        }
        proof {
            assert(args[0] == parts@.map_values(|w: String| w@)[1]);
        }
        let names = self.resolve_container_spec(parts[1].as_str(), containers);
        if names.len() == 0 {
            let mut msg = String::from_str("No container found matching: ");
            msg.append(parts[1].as_str());
            return CommandPlan::Finished(CommandResult::Error(msg));
        }
        proof {
            assert(names@.map_values(|s: String| s@)[0] == matched_names(
                args[0],
                containers@,
                0,
            )[0]);
        }
        let cmdline = if parts.len() > 2 {
            let mut rest: Vec<String> = Vec::new();
            let total = parts.len();
            let mut k: usize = 2;
            while k < total
                invariant
                    2 <= k <= total,
                    total == parts@.len(),
                    args == parts@.map_values(|w: String| w@).skip(1),
                    rest@.map_values(|s: String| s@) =~= args.skip(1).take(k - 2),
                decreases total - k,
            {
                let ghost pre = rest@.map_values(|s: String| s@);
                rest.push(parts[k].clone());
                proof {
                    assert(args.skip(1)[k - 2] == parts@.map_values(|w: String| w@)[k as int]);
                    assert(rest@.map_values(|s: String| s@) =~= pre.push(args.skip(1)[k - 2]));
                    assert(args.skip(1).take(k - 2).push(args.skip(1)[k - 2]) =~= args.skip(
                        1,
                    ).take(k - 1));
                }
                k += 1;
            }
            proof {
                assert(args.skip(1).take(total - 2) =~= args.skip(1));
            }
            crate::text::join_strings(&rest, " ")
        } else {
            String::from_str("/bin/bash")
        };
        let mut msg = String::from_str("Would execute: docker exec -it ");
        msg.append(names[0].as_str());
        msg.append(" ");
        msg.append(cmdline.as_str());
        CommandPlan::Finished(CommandResult::Success(msg))
    }
}

/// The messages of the successful outcomes, in order.
pub open spec fn success_messages(outcomes: Seq<OpOutcome>) -> Seq<Seq<char>>
    decreases outcomes.len(),
{
    if outcomes.len() == 0 {
        Seq::empty()
    } else {
        let prev = success_messages(outcomes.drop_last());
        match outcomes.last() {
            OpOutcome::Success(m) => prev.push(m@),
            OpOutcome::Failure(_) => prev,
        }
    }
}

/// The messages of the failed outcomes, in order.
pub open spec fn failure_messages(outcomes: Seq<OpOutcome>) -> Seq<Seq<char>>
    decreases outcomes.len(),
{
    if outcomes.len() == 0 {
        Seq::empty()
    } else {
        let prev = failure_messages(outcomes.drop_last());
        match outcomes.last() {
            OpOutcome::Failure(m) => prev.push(m@),
            OpOutcome::Success(_) => prev,
        }
    }
}

/// Fold the runner's per-container outcomes into one result: any failure
/// makes the whole command an error listing every failure; otherwise the
/// successes are listed; no outcome at all is an error of its own.
pub fn combine_op_outcomes(outcomes: &Vec<OpOutcome>) -> (r: CommandResult)
    ensures
        failure_messages(outcomes@).len() > 0 ==> (r matches CommandResult::Error(m) && m@
            == joined(failure_messages(outcomes@), "; "@)),
        failure_messages(outcomes@).len() == 0 && success_messages(outcomes@).len() > 0 ==> (
        r matches CommandResult::Success(m) && m@ == joined(success_messages(outcomes@), "; "@)),
        failure_messages(outcomes@).len() == 0 && success_messages(outcomes@).len() == 0 ==> (
        r matches CommandResult::Error(m) && m@ == "No operations performed"@),
{
    let n = outcomes.len();
    let mut successes: Vec<String> = Vec::new();
    let mut failures: Vec<String> = Vec::new();
    proof {
        assert(outcomes@.take(0) =~= Seq::<OpOutcome>::empty());
        assert(successes@.map_values(|s: String| s@) =~= success_messages(outcomes@.take(0)));
        assert(failures@.map_values(|s: String| s@) =~= failure_messages(outcomes@.take(0)));
    }
    let mut i: usize = 0;
    while i < n
        invariant
            i <= n,
            n == outcomes@.len(),
            successes@.map_values(|s: String| s@) =~= success_messages(outcomes@.take(i as int)),
            failures@.map_values(|s: String| s@) =~= failure_messages(outcomes@.take(i as int)),
        decreases n - i,
    {
        proof {
            let prefix = outcomes@.take(i as int + 1);
            assert(prefix.drop_last() =~= outcomes@.take(i as int));
            assert(prefix.last() == outcomes@[i as int]);
        }
        match &outcomes[i] {
            OpOutcome::Success(m) => {
                let ghost pre = successes@.map_values(|s: String| s@);
                successes.push(m.clone());
                proof {
                    assert(successes@.map_values(|s: String| s@) =~= pre.push(m@));
                }
            },
            OpOutcome::Failure(m) => {
                let ghost pre = failures@.map_values(|s: String| s@);
                failures.push(m.clone());
                proof {
                    assert(failures@.map_values(|s: String| s@) =~= pre.push(m@));
                }
            },
        }
        i += 1;
    }
    proof {
        assert(outcomes@.take(n as int) =~= outcomes@);
    }
    if failures.len() > 0 {
        CommandResult::Error(crate::text::join_strings(&failures, "; "))
    } else if successes.len() > 0 {
        CommandResult::Success(crate::text::join_strings(&successes, "; "))
    } else {
        CommandResult::Error(String::from_str("No operations performed"))
    }
}

/// The success line of one container operation.
pub fn op_success_message(op: &str, name: &str) -> (r: String)
    ensures
        r@ == op@ + " "@ + name@,
{
    let mut msg = op.to_owned();
    msg.append(" ");
    msg.append(name);
    msg
}

/// The failure line of one container operation, with the runtime's own
/// words.
pub fn op_failure_message(op: &str, name: &str, err: &str) -> (r: String)
    ensures
        r@ == "Failed to "@ + op@ + " "@ + name@ + ": "@ + err@,
{
    let mut msg = String::from_str("Failed to ");
    msg.append(op);
    msg.append(" ");
    msg.append(name);
    msg.append(": ");
    msg.append(err);
    msg
}

/// The failure line for an argument that matched no container.
pub fn not_found_message(arg: &str) -> (r: String)
    ensures
        r@ == "No containers found matching: "@ + arg@,
{
    let mut msg = String::from_str("No containers found matching: ");
    msg.append(arg);
    msg
}

/// The result message for fetched logs.
pub fn logs_success_message(name: &str, logs: &str) -> (r: String)
    ensures
        r@ == "Logs for "@ + name@ + ":\n"@ + logs@,
{
    let mut msg = String::from_str("Logs for ");
    msg.append(name);
    msg.append(":\n");
    msg.append(logs);
    msg
}

/// The failure message when logs could not be fetched.
pub fn logs_failure_message(err: &str) -> (r: String)
    ensures
        r@ == "Failed to get logs: "@ + err@,
{
    let mut msg = String::from_str("Failed to get logs: ");
    msg.append(err);
    msg
}

/// The result message for inspection output.
pub fn inspect_success_message(name: &str, data: &str) -> (r: String)
    ensures
        r@ == "Inspect "@ + name@ + ":\n"@ + data@,
{
    let mut msg = String::from_str("Inspect ");
    msg.append(name);
    msg.append(":\n");
    msg.append(data);
    msg
}

/// The failure message when inspection failed.
pub fn inspect_failure_message(err: &str) -> (r: String)
    ensures
        r@ == "Failed to inspect: "@ + err@,
{
    let mut msg = String::from_str("Failed to inspect: ");
    msg.append(err);
    msg
}

/// The failure message when refreshing the container list failed.
pub fn refresh_failure_message(err: &str) -> (r: String)
    ensures
        r@ == "Failed to refresh: "@ + err@,
{
    let mut msg = String::from_str("Failed to refresh: ");
    msg.append(err);
    msg
}

} // verus!
