use vstd::prelude::*;
use vstd::string::StringExecFns;

use crate::text::same_text;

verus! {

/// The closed set of privileged operations that a caller may ask for by name.
#[derive(Clone, Copy, Debug, PartialEq, Eq, Structural)]
pub enum Tweak {
    KdeSession,
    KeysOn,
    KeysOff,
    ZramOn,
    ZramOff,
    RefreshMirrors,
    ClearJournal,
}

/// The program that grants elevated rights to every state-changing tweak.
pub const ELEVATOR: &'static str = "pkexec";

/// The tweak that a symbolic name selects, if any.
pub open spec fn tweak_of(name: Seq<char>) -> Option<Tweak> {
    if name == "kde_session"@ {
        Some(Tweak::KdeSession)
    } else if name == "keys_on"@ {
        Some(Tweak::KeysOn)
    } else if name == "keys_off"@ {
        Some(Tweak::KeysOff)
    } else if name == "zram_on"@ {
        Some(Tweak::ZramOn)
    } else if name == "zram_off"@ {
        Some(Tweak::ZramOff)
    } else if name == "refresh_mirrors"@ {
        Some(Tweak::RefreshMirrors)
    } else if name == "clear_journal"@ {
        Some(Tweak::ClearJournal)
    } else {
        None
    }
}

/// The message reported when a tweak has been carried out.
pub open spec fn message_of(t: Tweak) -> Seq<char> {
    match t {
        Tweak::KdeSession => "sss"@,
        Tweak::KeysOn => "Ключи установлены"@,
        Tweak::KeysOff => "Ключи удалены"@,
        Tweak::ZramOn => "ZRAM включен"@,
        Tweak::ZramOff => "ZRAM выключен"@,
        Tweak::RefreshMirrors => "Зеркала обновлены"@,
        Tweak::ClearJournal => "Журнал очищен"@,
    }
}

/// The arguments handed to the elevation helper, program name first;
/// `None` for the tweak that runs nothing.
pub open spec fn command_of(t: Tweak) -> Option<Seq<Seq<char>>> {
    match t {
        Tweak::KdeSession => None,
        Tweak::KeysOn => Some(seq!["pacman-key-manager"@, "--install"@]),
        Tweak::KeysOff => Some(seq!["pacman-key-manager"@, "--uninstall"@]),
        Tweak::ZramOn => Some(seq!["zram-manager"@, "--install"@]),
        Tweak::ZramOff => Some(seq!["zram-manager"@, "--uninstall"@]),
        Tweak::RefreshMirrors => Some(
            seq![
                "reflector"@,
                "--latest"@,
                "20"@,
                "--protocol"@,
                "https"@,
                "--sort"@,
                "rate"@,
                "--save"@,
                "/etc/pacman.d/mirrorlist"@,
            ],
        ),
        Tweak::ClearJournal => Some(seq!["journalctl"@, "--vacuum-time=2weeks"@]),
    }
}

/// Why a tweak request did not succeed.
#[derive(Clone, Debug, PartialEq, Eq)]
pub enum TweakError {
    /// The name is not in the catalog.
    Unknown,
    /// The privileged command failed; carries the runner's error text.
    CommandFailed(String),
}

impl TweakError {
    pub open spec fn text(&self) -> Seq<char> {
        match self {
            TweakError::Unknown => "Неизвестная команда"@,
            TweakError::CommandFailed(e) => e@,
        }
    }

    /// The text shown to the user for this error.
    pub fn message(&self) -> (r: String)
        ensures
            r@ == self.text(),
    {
        match self {
            TweakError::Unknown => String::from_str("Неизвестная команда"),
            TweakError::CommandFailed(e) => e.clone(),
        }
    }
}

/// What has to happen to answer a recognized tweak request.
#[derive(Clone, Debug)]
pub enum TweakStep {
    /// Answer at once with this message; nothing is run.
    Reply(String),
    /// Run `program` with `args`; on success answer with `message`.
    Run { program: String, args: Vec<String>, message: String },
}

impl TweakStep {
    /// The step that the catalog prescribes for `t`.
    pub open spec fn prescribed(&self, t: Tweak) -> bool {
        match command_of(t) {
            None => self is Reply && self->Reply_0@ == message_of(t),
            Some(args) => self is Run && self->program@ == ELEVATOR@ && self->args.deep_view()
                == args && self->message@ == message_of(t),
        }
    }
}

/// Looks a symbolic name up in the catalog.
pub fn lookup(name: &str) -> (r: Option<Tweak>)
    ensures
        r == tweak_of(name@),
{
    if same_text(name, "kde_session") {
        Some(Tweak::KdeSession)
    } else if same_text(name, "keys_on") {
        Some(Tweak::KeysOn)
    } else if same_text(name, "keys_off") {
        Some(Tweak::KeysOff)
    } else if same_text(name, "zram_on") {
        Some(Tweak::ZramOn)
    } else if same_text(name, "zram_off") {
        Some(Tweak::ZramOff)
    } else if same_text(name, "refresh_mirrors") {
        Some(Tweak::RefreshMirrors)
    } else if same_text(name, "clear_journal") {
        Some(Tweak::ClearJournal)
    } else {
        None
    }
}


/// Builds an owned argument vector from string slices.
fn owned_args(parts: &[&str]) -> (r: Vec<String>)
    ensures
        r.deep_view() == parts@.map_values(|p: &str| p@),
{
    let mut r: Vec<String> = Vec::new();
    let mut i: usize = 0;
    while i < parts.len()
        invariant
            i <= parts@.len(),
            r@.len() == i,
            forall|j: int| 0 <= j < i ==> #[trigger] r@[j]@ == parts@[j]@,
        decreases parts@.len() - i,
    {
        r.push(String::from_str(parts[i]));
        i = i + 1;
    }
    proof {
        assert(r.deep_view() =~= parts@.map_values(|p: &str| p@));
    }
    r
}

/// The step prescribed for a tweak of the catalog.
pub fn step_of(t: Tweak) -> (r: TweakStep)
    ensures
        r.prescribed(t),
{
    let (args, message): (Vec<String>, String) = match t {
        Tweak::KdeSession => {
            return TweakStep::Reply(String::from_str("sss"));
        },
        Tweak::KeysOn => (
            owned_args(&["pacman-key-manager", "--install"]),
            String::from_str("Ключи установлены"),
        ),
        Tweak::KeysOff => (
            owned_args(&["pacman-key-manager", "--uninstall"]),
            String::from_str("Ключи удалены"),
        ),
        Tweak::ZramOn => (
            owned_args(&["zram-manager", "--install"]),
            String::from_str("ZRAM включен"),
        ),
        Tweak::ZramOff => (
            owned_args(&["zram-manager", "--uninstall"]),
            String::from_str("ZRAM выключен"),
        ),
        Tweak::RefreshMirrors => (
            owned_args(
                &[
                    "reflector",
                    "--latest",
                    "20",
                    "--protocol",
                    "https",
                    "--sort",
                    "rate",
                    "--save",
                    "/etc/pacman.d/mirrorlist",
                ],
            ),
            String::from_str("Зеркала обновлены"),
        ),
        Tweak::ClearJournal => (
            owned_args(&["journalctl", "--vacuum-time=2weeks"]),
            String::from_str("Журнал очищен"),
        ),
    };
    proof {
        assert(args.deep_view() =~= command_of(t).unwrap());
    }
    TweakStep::Run { program: String::from_str(ELEVATOR), args, message }
}

/// Decides how to answer a tweak request: an unknown name is refused, a
/// known one gets the step that the catalog prescribes for it.
pub fn tweak_step(name: &str) -> (r: Result<TweakStep, TweakError>)
    ensures
        tweak_of(name@) is None ==> r == Err::<TweakStep, TweakError>(TweakError::Unknown),
        tweak_of(name@) is Some ==> r is Ok && r->Ok_0.prescribed(tweak_of(name@).unwrap()),
{
    match lookup(name) {
        None => Err(TweakError::Unknown),
        Some(t) => Ok(step_of(t)),
    }
}

/// How an external process ended, as far as the runner cares.
#[derive(Clone, Debug, PartialEq, Eq)]
pub enum RunOutcome {
    /// The process could not be started; carries the cause.
    LaunchFailed(String),
    /// The process ran to its end; `true` when its exit status was zero.
    Exited(bool),
}

/// The error text for a command that ran and exited with a non-zero status.
pub open spec fn exit_failure_text(program: Seq<char>) -> Seq<char> {
    "Ошибка в выполнении команды "@ + program
}

/// What the runner reports for `program`, given how it ended.
pub open spec fn run_result_spec(program: Seq<char>, outcome: RunOutcome) -> Result<(), Seq<char>> {
    match outcome {
        RunOutcome::LaunchFailed(e) => Err(e@),
        RunOutcome::Exited(true) => Ok(()),
        RunOutcome::Exited(false) => Err(exit_failure_text(program)),
    }
}

/// Reduces how a command ended to success or an error that names it.
pub fn run_result(program: &str, outcome: RunOutcome) -> (r: Result<(), String>)
    ensures
        r is Ok <==> run_result_spec(program@, outcome) is Ok,
        r is Err ==> r->Err_0@ == run_result_spec(program@, outcome)->Err_0,
{
    match outcome {
        RunOutcome::LaunchFailed(e) => Err(e),
        RunOutcome::Exited(ok) => {
            if ok {
                Ok(())
            } else {
                let s = String::from_str("Ошибка в выполнении команды ");
                Err(s.concat(program))
            }
        },
    }
}

/// The answer to a tweak whose command has run: its success message, or the
/// runner's error text unchanged.
pub fn tweak_finish(message: String, run: Result<(), String>) -> (r: Result<String, TweakError>)
    ensures
        run is Ok ==> r is Ok && r->Ok_0@ == message@,
        run is Err ==> r is Err && r->Err_0 == TweakError::CommandFailed(run->Err_0),
{
    match run {
        Ok(()) => Ok(message),
        Err(e) => Err(TweakError::CommandFailed(e)),
    }
}

} // verus!
