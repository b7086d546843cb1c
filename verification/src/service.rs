//! The background service of a host.

use crate::text::texts;
use vstd::prelude::*;

verus! {

/// The unit under which the service manager knows the host.
pub const UNIT: &'static str = "qsonaut-hostbridge.service";

/// Where the unit is kept below the home directory.
pub const UNIT_FILE: &'static str = ".config/systemd/user/qsonaut-hostbridge.service";

/// A text with a backslash before each backslash and each quotation mark.
pub open spec fn escaped(value: Seq<char>) -> Seq<char>
    decreases value.len(),
{
    if value.len() == 0 {
        seq![]
    } else {
        let rest = escaped(value.drop_last());
        if value.last() == '\\' || value.last() == '"' {
            rest + seq!['\\', value.last()]
        } else {
            rest.push(value.last())
        }
    }
}

/// A text in quotation marks.
pub open spec fn quoted(value: Seq<char>) -> Seq<char> {
    seq!['"'] + escaped(value) + seq!['"']
}

/// What a reader makes of an escaped text: a backslash stands for the
/// character behind it. No value if a quotation mark comes without a
/// backslash, or a backslash comes last.
pub open spec fn unescaped(value: Seq<char>) -> Option<Seq<char>>
    decreases value.len(),
{
    if value.len() == 0 {
        Some(seq![])
    } else if value[0] == '"' {
        None
    } else if value[0] == '\\' {
        if value.len() < 2 {
            None
        } else {
            match unescaped(value.skip(2)) {
                Some(rest) => Some(seq![value[1]] + rest),
                None => None,
            }
        }
    } else {
        match unescaped(value.skip(1)) {
            Some(rest) => Some(seq![value[0]] + rest),
            None => None,
        }
    }
}

/// Puts a text in quotation marks for a unit file.
pub fn systemd_quote(value: &str) -> (quote: String)
    ensures
        quote@ == quoted(value@),
{
    let mut quote = "\"".to_owned();
    proof {
        reveal_strlit("\"");
        assert(quote@ =~= seq!['"'] + escaped(value@.take(0)));
    }
    for c in it: value.chars()
        invariant
            it.seq() == value@,
            quote@ == seq!['"'] + escaped(value@.take(it.index() as int)),
    {
        let ghost before = value@.take(it.index() as int);
        let ghost after = value@.take(it.index() as int + 1);
        assert(after.drop_last() =~= before);
        assert(after.last() == c);
        if c == '\\' || c == '"' {
            quote.push('\\');
        }
        quote.push(c);
        assert(quote@ =~= seq!['"'] + escaped(after));
    }
    quote.push('"');
    assert(value@.take(value@.len() as int) =~= value@);
    quote
}

/// The text of the unit for an executable and a configuration.
pub open spec fn unit_text(executable: Seq<char>, config: Seq<char>) -> Seq<char> {
    "[Unit]\nDescription=QSONaut HostBridge\nAfter=network-online.target\n\n[Service]\nExecStart="@
        + quoted(executable) + " run --config "@ + quoted(config)
        + "\nRestart=on-failure\nRestartSec=3\n\n[Install]\nWantedBy=default.target\n"@
}

/// Writes the unit for an executable and a configuration.
pub fn unit_contents(executable: &str, config: &str) -> (unit: String)
    ensures
        unit@ == unit_text(executable@, config@),
{
    let mut unit =
        "[Unit]\nDescription=QSONaut HostBridge\nAfter=network-online.target\n\n[Service]\nExecStart=".to_owned();
    let executable = systemd_quote(executable);
    unit.append(executable.as_str());
    unit.append(" run --config ");
    let config = systemd_quote(config);
    unit.append(config.as_str());
    unit.append("\nRestart=on-failure\nRestartSec=3\n\n[Install]\nWantedBy=default.target\n");
    unit
}

/// What the user wants of the service.
#[derive(Debug, Clone, Copy, PartialEq, Eq, Structural)]
pub enum ServiceAction {
    Install,
    Start,
    Stop,
    Restart,
    Status,
    Uninstall,
}

/// Why a wish cannot be met.
#[derive(Debug, Clone, Copy, PartialEq, Eq, Structural)]
pub enum ServiceError {
    /// The system has no user services.
    Unsupported,
    /// There is no home directory.
    NoHome,
    /// There is no configuration to run with.
    NoConfig,
}

impl ServiceError {
    pub open spec fn text(self) -> Seq<char> {
        match self {
            ServiceError::Unsupported => {
                "the automatic service installer currently supports Linux systemd user services"@
            },
            ServiceError::NoHome => "HOME is required for a user service"@,
            ServiceError::NoConfig => "configuration is missing; run `config set` first"@,
        }
    }

    pub fn message(&self) -> (message: String)
        ensures
            message@ == self.text(),
    {
        match self {
            ServiceError::Unsupported => {
                "the automatic service installer currently supports Linux systemd user services".to_owned()
            },
            ServiceError::NoHome => "HOME is required for a user service".to_owned(),
            ServiceError::NoConfig => "configuration is missing; run `config set` first".to_owned(),
        }
    }
}

/// One step toward what the user wants.
#[derive(Debug, PartialEq, Eq)]
pub enum ServiceStep {
    /// Write the unit, and the directory for it.
    WriteUnit,
    /// Remove the unit, if it is there.
    RemoveUnit,
    /// Call the service manager. If the call must succeed and does not, no
    /// further step is taken.
    Systemctl { arguments: Vec<String>, must_succeed: bool },
    /// Tell the user that the service was installed and started.
    ReportInstalled,
    /// Tell the user that the service was removed.
    ReportRemoved,
}

#[verifier::ext_equal]
pub enum ServiceStepView {
    WriteUnit,
    RemoveUnit,
    Systemctl { arguments: Seq<Seq<char>>, must_succeed: bool },
    ReportInstalled,
    ReportRemoved,
}

impl View for ServiceStep {
    type V = ServiceStepView;

    open spec fn view(&self) -> ServiceStepView {
        match self {
            ServiceStep::WriteUnit => ServiceStepView::WriteUnit,
            ServiceStep::RemoveUnit => ServiceStepView::RemoveUnit,
            ServiceStep::Systemctl { arguments, must_succeed } => ServiceStepView::Systemctl {
                arguments: texts(arguments@),
                must_succeed: *must_succeed,
            },
            ServiceStep::ReportInstalled => ServiceStepView::ReportInstalled,
            ServiceStep::ReportRemoved => ServiceStepView::ReportRemoved,
        }
    }
}

pub open spec fn step_views(steps: Seq<ServiceStep>) -> Seq<ServiceStepView> {
    steps.map_values(|s: ServiceStep| s@)
}

/// Has the service manager read its units again.
pub open spec fn reload() -> ServiceStepView {
    ServiceStepView::Systemctl { arguments: seq!["daemon-reload"@], must_succeed: true }
}

/// Has the service manager do something with the unit.
pub open spec fn on_unit(verb: Seq<char>, must_succeed: bool) -> ServiceStepView {
    ServiceStepView::Systemctl { arguments: seq![verb, UNIT@], must_succeed }
}

/// The steps toward what the user wants.
pub open spec fn steps(action: ServiceAction) -> Seq<ServiceStepView> {
    match action {
        ServiceAction::Install => seq![
            ServiceStepView::WriteUnit,
            reload(),
            on_unit("enable"@, true),
            on_unit("start"@, true),
            ServiceStepView::ReportInstalled,
        ],
        ServiceAction::Uninstall => seq![
            on_unit("stop"@, false),
            on_unit("disable"@, false),
            ServiceStepView::RemoveUnit,
            reload(),
            ServiceStepView::ReportRemoved,
        ],
        ServiceAction::Start => seq![on_unit("start"@, true)],
        ServiceAction::Stop => seq![on_unit("stop"@, true)],
        ServiceAction::Restart => seq![on_unit("restart"@, true)],
        ServiceAction::Status => seq![on_unit("status"@, true)],
    }
}

/// Why a wish cannot be met, if anything stands against it.
pub open spec fn obstacle(action: ServiceAction, linux: bool, home: bool, config: bool) -> Option<
    ServiceError,
> {
    if !linux {
        Some(ServiceError::Unsupported)
    } else if !home {
        Some(ServiceError::NoHome)
    } else if action == ServiceAction::Install && !config {
        Some(ServiceError::NoConfig)
    } else {
        None
    }
}

fn call_reload() -> (step: ServiceStep)
    ensures
        step@ == reload(),
{
    let arguments = vec!["daemon-reload".to_owned()];
    assert(texts(arguments@) =~= seq!["daemon-reload"@]);
    ServiceStep::Systemctl { arguments, must_succeed: true }
}

fn call_on_unit(verb: &str, must_succeed: bool) -> (step: ServiceStep)
    ensures
        step@ == on_unit(verb@, must_succeed),
{
    let arguments = vec![verb.to_owned(), UNIT.to_owned()];
    assert(texts(arguments@) =~= seq![verb@, UNIT@]);
    ServiceStep::Systemctl { arguments, must_succeed }
}

/// Plans what the user wants: on what kind of system, with or without a home
/// directory, with or without a configuration.
pub fn service(action: ServiceAction, linux: bool, home: bool, config: bool) -> (plan: Result<
    Vec<ServiceStep>,
    ServiceError,
>)
    ensures
        match plan {
            Ok(plan) => obstacle(action, linux, home, config) is None && step_views(plan@) == steps(
                action,
            ),
            Err(error) => obstacle(action, linux, home, config) == Some(error),
        },
{
    if !linux {
        return Err(ServiceError::Unsupported);
    }
    if !home {
        return Err(ServiceError::NoHome);
    }
    let plan = match action {
        ServiceAction::Install => {
            if !config {
                return Err(ServiceError::NoConfig);
            }
            vec![
                ServiceStep::WriteUnit,
                call_reload(),
                call_on_unit("enable", true),
                call_on_unit("start", true),
                ServiceStep::ReportInstalled,
            ]
        },
        ServiceAction::Uninstall => vec![
            call_on_unit("stop", false),
            call_on_unit("disable", false),
            ServiceStep::RemoveUnit,
            call_reload(),
            ServiceStep::ReportRemoved,
        ],
        ServiceAction::Start => vec![call_on_unit("start", true)],
        ServiceAction::Stop => vec![call_on_unit("stop", true)],
        ServiceAction::Restart => vec![call_on_unit("restart", true)],
        ServiceAction::Status => vec![call_on_unit("status", true)],
    };
    assert(step_views(plan@) =~= steps(action));
    Ok(plan)
}

/// The arguments with a space between each two.
pub open spec fn joined(arguments: Seq<Seq<char>>) -> Seq<char>
    decreases arguments.len(),
{
    if arguments.len() == 0 {
        seq![]
    } else if arguments.len() == 1 {
        arguments[0]
    } else {
        joined(arguments.drop_last()).push(' ') + arguments.last()
    }
}

/// Tells that a call of the service manager failed.
pub fn systemctl_failure(arguments: &Vec<String>, status: &str) -> (message: String)
    ensures
        message@ == "systemctl --user "@ + joined(texts(arguments@)) + " failed with "@ + status@,
{
    let mut message = "systemctl --user ".to_owned();
    let ghost start = message@;
    let ghost all = texts(arguments@);
    for k in 0..arguments.len()
        invariant
            all == texts(arguments@),
            message@ == start + joined(all.take(k as int)),
    {
        if k > 0 {
            message.push(' ');
        }
        message.append(arguments[k].as_str());
        proof {
            assert(all.take(k as int + 1).drop_last() =~= all.take(k as int));
            assert(all.take(k as int + 1).last() == arguments@[k as int]@);
            assert(message@ =~= start + joined(all.take(k as int + 1)));
        }
    }
    assert(all.take(all.len() as int) =~= all);
    message.append(" failed with ");
    message.append(status);
    message
}

/// Reading an escaped text goes on behind a text that was read.
proof fn lemma_unescaped_append(first: Seq<char>, second: Seq<char>)
    requires
        unescaped(first) is Some,
    ensures
        unescaped(first + second) == match unescaped(second) {
            Some(rest) => Some(unescaped(first)->0 + rest),
            None => None,
        },
    decreases first.len(),
{
    if first.len() == 0 {
        assert(first + second =~= second);
        if let Some(rest) = unescaped(second) {
            assert(Seq::<char>::empty() + rest =~= rest);
        }
    } else {
        let width: int = if first[0] == '\\' {
            2
        } else {
            1
        };
        lemma_unescaped_append(first.skip(width), second);
        assert((first + second).skip(width) =~= first.skip(width) + second);
        if let Some(rest) = unescaped(second) {
            let kept = seq![first[width - 1]];
            let middle = unescaped(first.skip(width))->0;
            assert(kept + (middle + rest) =~= (kept + middle) + rest);
        }
    }
}

/// A quoted text reads back as it was: no quotation mark inside it ends it
/// early, and nothing is lost.
pub proof fn law_quoting_is_undone(value: Seq<char>)
    ensures
        unescaped(escaped(value)) == Some(value),
        quoted(value).len() >= 2,
        quoted(value)[0] == '"',
        quoted(value).last() == '"',
        quoted(value).subrange(1, quoted(value).len() - 1) == escaped(value),
    decreases value.len(),
{
    assert(quoted(value).subrange(1, quoted(value).len() - 1) =~= escaped(value));
    if value.len() > 0 {
        law_quoting_is_undone(value.drop_last());
        let last = value.last();
        let tail = if last == '\\' || last == '"' {
            seq!['\\', last]
        } else {
            seq![last]
        };
        assert(escaped(value) =~= escaped(value.drop_last()) + tail);
        lemma_unescaped_append(escaped(value.drop_last()), tail);
        reveal_with_fuel(unescaped, 3);
        assert(tail.skip(tail.len() as int) =~= seq![]);
        assert(unescaped(tail) =~= Some(seq![last]));
        assert(value.drop_last() + seq![last] =~= value);
    }
}

/// Different texts are quoted differently.
pub proof fn law_quoting_tells_texts_apart(a: Seq<char>, b: Seq<char>)
    requires
        quoted(a) == quoted(b),
    ensures
        a == b,
{
    law_quoting_is_undone(a);
    law_quoting_is_undone(b);
}

/// The service manager is only ever asked to read its units again or to do
/// something with the unit of the host.
pub proof fn law_only_the_unit_is_touched(action: ServiceAction, i: int)
    requires
        0 <= i < steps(action).len(),
    ensures
        steps(action)[i] matches ServiceStepView::Systemctl { arguments, .. } ==> arguments
            == seq!["daemon-reload"@] || (arguments.len() == 2 && arguments[1] == UNIT@),
{
}

/// A service is never installed without a configuration, and where it is
/// installed the unit is in place before the service manager hears of it.
pub proof fn law_install_needs_a_configuration(linux: bool, home: bool)
    ensures
        obstacle(ServiceAction::Install, linux, home, false) is Some,
        steps(ServiceAction::Install)[0] == ServiceStepView::WriteUnit,
{
}

/// How a text is escaped: character by character, with a backslash before
/// each backslash and each quotation mark and before nothing else.
pub proof fn law_escaping_is_by_character(first: Seq<char>, second: Seq<char>, c: char)
    ensures
        escaped(first + second) == escaped(first) + escaped(second),
        c == '\\' || c == '"' ==> escaped(seq![c]) == seq!['\\', c],
        c != '\\' && c != '"' ==> escaped(seq![c]) == seq![c],
        quoted(first) == seq!['"'] + escaped(first) + seq!['"'],
    decreases second.len(),
{
    reveal_with_fuel(escaped, 2);
    assert(seq![c].drop_last() =~= seq![]);
    assert(escaped(seq![c]) =~= if c == '\\' || c == '"' {
        seq!['\\', c]
    } else {
        seq![c]
    });
    if second.len() == 0 {
        assert(first + second =~= first);
        assert(escaped(first) + seq![] =~= escaped(first));
    } else {
        law_escaping_is_by_character(first, second.drop_last(), c);
        assert((first + second).drop_last() =~= first + second.drop_last());
        assert(escaped(first + second) =~= escaped(first) + escaped(second));
    }
}

/// A text without backslashes and quotation marks stands in quotation marks as
/// it is.
pub proof fn law_plain_text_is_quoted_as_it_is(value: Seq<char>)
    requires
        forall|i: int| 0 <= i < value.len() ==> value[i] != '\\' && value[i] != '"',
    ensures
        quoted(value) == seq!['"'] + value + seq!['"'],
    decreases value.len(),
{
    lemma_plain_text_is_kept(value);
}

/// A text without backslashes and quotation marks needs no escapes.
proof fn lemma_plain_text_is_kept(value: Seq<char>)
    requires
        forall|i: int| 0 <= i < value.len() ==> value[i] != '\\' && value[i] != '"',
    ensures
        escaped(value) == value,
    decreases value.len(),
{
    if value.len() > 0 {
        lemma_plain_text_is_kept(value.drop_last());
        assert(value.drop_last().push(value.last()) =~= value);
    }
}

/// The unit starts the executable with the configuration, starts it again
/// after a failure, and belongs to the default target.
pub proof fn law_unit_runs_the_host(executable: Seq<char>, config: Seq<char>)
    ensures
        unit_text(executable, config)
            == "[Unit]\nDescription=QSONaut HostBridge\nAfter=network-online.target\n\n[Service]\nExecStart="@
            + quoted(executable) + " run --config "@ + quoted(config)
            + "\nRestart=on-failure\nRestartSec=3\n\n[Install]\nWantedBy=default.target\n"@,
        UNIT@ == "qsonaut-hostbridge.service"@,
        UNIT_FILE@ == ".config/systemd/user/qsonaut-hostbridge.service"@,
{
}

/// What each wish takes, in order: a service is installed by writing the unit,
/// having the manager read it, enabling and starting it; it is removed by
/// stopping and disabling it as far as that goes, removing the unit and having
/// the manager notice; every other wish is one call on the unit.
pub proof fn law_steps_toward_a_wish()
    ensures
        ({
            let unit = "qsonaut-hostbridge.service"@;
            let call = |verb: Seq<char>, must_succeed: bool|
                ServiceStepView::Systemctl { arguments: seq![verb, unit], must_succeed };
            let reload = ServiceStepView::Systemctl {
                arguments: seq!["daemon-reload"@],
                must_succeed: true,
            };
            &&& steps(ServiceAction::Install) == seq![
                ServiceStepView::WriteUnit,
                reload,
                call("enable"@, true),
                call("start"@, true),
                ServiceStepView::ReportInstalled,
            ]
            &&& steps(ServiceAction::Uninstall) == seq![
                call("stop"@, false),
                call("disable"@, false),
                ServiceStepView::RemoveUnit,
                reload,
                ServiceStepView::ReportRemoved,
            ]
            &&& steps(ServiceAction::Start) == seq![call("start"@, true)]
            &&& steps(ServiceAction::Stop) == seq![call("stop"@, true)]
            &&& steps(ServiceAction::Restart) == seq![call("restart"@, true)]
            &&& steps(ServiceAction::Status) == seq![call("status"@, true)]
        }),
{
}

/// What stands against a wish: a system without user services, then a missing
/// home directory, then, for an installation only, a missing configuration.
pub proof fn law_obstacles(action: ServiceAction, linux: bool, home: bool, config: bool)
    ensures
        obstacle(action, linux, home, config) is None <==> linux && home && (config
            || !(action is Install)),
        !linux ==> obstacle(action, linux, home, config) == Some(ServiceError::Unsupported),
        linux && !home ==> obstacle(action, linux, home, config) == Some(ServiceError::NoHome),
        linux && home && !config && action is Install ==> obstacle(action, linux, home, config)
            == Some(ServiceError::NoConfig),
        ServiceError::Unsupported.text()
            == "the automatic service installer currently supports Linux systemd user services"@,
        ServiceError::NoHome.text() == "HOME is required for a user service"@,
        ServiceError::NoConfig.text() == "configuration is missing; run `config set` first"@,
{
}

/// Arguments are joined by one space between each two.
pub proof fn law_joining(arguments: Seq<Seq<char>>, last: Seq<char>)
    ensures
        joined(seq![]) == Seq::<char>::empty(),
        arguments.len() == 0 ==> joined(arguments.push(last)) == last,
        arguments.len() > 0 ==> joined(arguments.push(last)) == joined(arguments) + seq![' ']
            + last,
{
    assert(arguments.push(last).drop_last() =~= arguments);
    if arguments.len() > 0 {
        assert(joined(arguments.push(last)) =~= joined(arguments) + seq![' '] + last);
    }
}

/// A step is seen as it is, and so is each of a plan.
pub proof fn law_steps_are_kept(plan: Seq<ServiceStep>, i: int, arguments: Vec<String>, must: bool)
    requires
        0 <= i < plan.len(),
    ensures
        step_views(plan).len() == plan.len(),
        step_views(plan)[i] == plan[i]@,
        ServiceStep::WriteUnit@ == ServiceStepView::WriteUnit,
        ServiceStep::RemoveUnit@ == ServiceStepView::RemoveUnit,
        ServiceStep::ReportInstalled@ == ServiceStepView::ReportInstalled,
        ServiceStep::ReportRemoved@ == ServiceStepView::ReportRemoved,
        (ServiceStep::Systemctl { arguments, must_succeed: must })@ == (ServiceStepView::Systemctl {
            arguments: texts(arguments@),
            must_succeed: must,
        }),
{
}

} // verus!
