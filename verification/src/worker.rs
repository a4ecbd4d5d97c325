//! The scripting worker: a child process that runs the user's hotkey script
//! and reports over its standard output, one line at a time. This module
//! holds what both sides decide: when the parent starts and stops the child,
//! how long it keeps reading a failing stream, and how long the child waits
//! for its interpreter.

use vstd::prelude::*;
use vstd::string::StringExecFns;
use crate::platform::Platform;
use crate::text::{decimal, decimal_string, same_text};

verus! {

/// The file, in the program's configuration directory, that holds the script.
pub const SCRIPT_FILE_NAME: &'static str = "script.ahk";

/// The file, beside the program, that holds the interpreter.
pub const DLL_FILE_NAME: &'static str = "ahkh2.dll";

/// The argument that makes the program run as the worker; the script's path
/// follows it.
pub const HOOK_FLAG: &'static str = "--hook";

/// The error for a script that is not on disk.
pub const SCRIPT_NOT_FOUND: &'static str = "script file not found";

/// The error for a script without content.
pub const SCRIPT_EMPTY: &'static str = "script content is empty";

/// What the worker puts before the user's script, up to the address of the
/// function that the script calls back.
pub const SCRIPT_HEAD: &'static str = "#NoTrayIcon\nPersistent True\n__jsfncb(action) {\nDllCall(";

/// What the worker puts between that address and the user's script.
pub const SCRIPT_NECK: &'static str =
    ", 'Str', action)\n}\nrust_callback(action) {\n__jsfncb(action)\n}\n\n";

/// The parent stops reading after this many failed reads in a row.
pub const MAX_BAD_READS: u32 = 10;

/// The child gives up after this many polls in a row that found the
/// interpreter not ready.
pub const MAX_IDLE_POLLS: u32 = 10;

/// What the parent knows of its worker.
#[derive(Clone, Copy, PartialEq, Eq, Debug, Structural)]
pub struct Worker {
    /// A child process has been started and not yet given up.
    pub present: bool,
    /// The child's last word was that its interpreter runs.
    pub running: bool,
    /// The failed reads since the last line that came through.
    pub bad_reads: u32,
}

/// The answer to a request to start the worker.
#[derive(Clone, Copy, PartialEq, Eq, Debug, Structural)]
pub enum StartCheck {
    /// A worker is there already.
    AlreadyPresent,
    /// The interpreter is not beside the program.
    DllMissing,
    /// There is no script to run.
    ScriptMissing,
    /// Nothing stands in the way: spawn the child.
    Spawn,
}

/// What to do with the outcome of one read from the child's output.
#[derive(Clone, Copy, PartialEq, Eq, Debug, Structural)]
pub enum ReadStep {
    /// A line came through: hand it to the event handler and read on.
    Forward,
    /// The read failed: read on.
    Retry,
    /// The read failed once too often: stop reading.
    Stop,
}

/// What the child does after it has polled its interpreter.
#[derive(Clone, Copy, PartialEq, Eq, Debug, Structural)]
pub struct Poll {
    /// Whether to report the interpreter as running.
    pub running: bool,
    /// The polls in a row, this one included, that found it not ready.
    pub idle: u32,
    /// Whether to poll again.
    pub again: bool,
}

impl Worker {
    /// No child, nothing heard, nothing failed.
    pub open spec fn idle() -> Worker {
        Worker { present: false, running: false, bad_reads: 0 }
    }

    pub fn new() -> (r: Worker)
        ensures
            r == Worker::idle(),
    {
        Worker { present: false, running: false, bad_reads: 0 }
    }
}

/// Whether the worker may be started. The checks are made in this order and
/// the first that fails decides.
pub open spec fn start_check(present: bool, dll_present: bool, script_present: bool) -> StartCheck {
    if present {
        StartCheck::AlreadyPresent
    } else if !dll_present {
        StartCheck::DllMissing
    } else if !script_present {
        StartCheck::ScriptMissing
    } else {
        StartCheck::Spawn
    }
}

/// Decides whether to spawn the child, given whether the interpreter and the
/// script are on disk.
pub fn start_worker_ahk(worker: &Worker, dll_present: bool, script_present: bool) -> (r: StartCheck)
    ensures
        r == start_check(worker.present, dll_present, script_present),
{
    if worker.present {
        StartCheck::AlreadyPresent
    } else if !dll_present {
        StartCheck::DllMissing
    } else if !script_present {
        StartCheck::ScriptMissing
    } else {
        StartCheck::Spawn
    }
}

/// The arguments that the parent hands to the child: the flag, then the
/// script's path.
pub fn worker_arguments(script_path: &str) -> (r: Vec<String>)
    ensures
        r@.len() == 2,
        r@[0]@ == HOOK_FLAG@,
        r@[1]@ == script_path@,
{
    let mut args: Vec<String> = Vec::new();
    args.push(HOOK_FLAG.to_owned());
    args.push(script_path.to_owned());
    args
}

/// Whether one of `args` is the flag.
pub open spec fn has_hook_flag(args: Seq<String>) -> bool {
    exists|i: int| 0 <= i < args.len() && (#[trigger] args[i])@ == HOOK_FLAG@
}

/// The script that the program is asked to run as the worker: where the flag
/// is among the arguments, the last argument.
pub open spec fn hook_script(args: Seq<String>) -> Option<Seq<char>> {
    if has_hook_flag(args) {
        Some(args[args.len() - 1]@)
    } else {
        None
    }
}

/// Reads the program's arguments: `Some` with the script's path when the
/// program was started as the worker.
pub fn worker_script_argument(args: &Vec<String>) -> (r: Option<&String>)
    ensures
        match r {
            Some(path) => hook_script(args@) == Some(path@),
            None => hook_script(args@) is None,
        },
{
    let mut i: usize = 0;
    while i < args.len()
        invariant
            i <= args.len(),
            forall|j: int| 0 <= j < i ==> (#[trigger] args@[j])@ != HOOK_FLAG@,
        decreases args.len() - i,
    {
        if same_text(args[i].as_str(), HOOK_FLAG) {
            return Some(&args[args.len() - 1]);
        }
        i += 1;
    }
    None
}

/// Takes note of whether the child could be spawned. The result is the
/// answer to the request to start the worker.
pub fn worker_started(worker: &mut Worker, spawned: bool) -> (started: bool)
    ensures
        started == spawned,
        *final(worker) == if spawned {
            Worker { present: true, bad_reads: 0, ..*old(worker) }
        } else {
            *old(worker)
        },
{
    if spawned {
        worker.present = true;
        worker.bad_reads = 0;
    }
    spawned
}

/// The count of failed reads after one more read.
pub open spec fn bad_reads_after(bad_reads: u32, ok: bool) -> int {
    if ok {
        0
    } else if bad_reads < MAX_BAD_READS {
        bad_reads + 1
    } else {
        bad_reads as int
    }
}

/// What follows one read: a line resets the count, a failure adds to it, and
/// the failure that brings it to `MAX_BAD_READS` ends the reading.
pub open spec fn read_step(bad_reads: u32, ok: bool) -> ReadStep {
    if ok {
        ReadStep::Forward
    } else if bad_reads_after(bad_reads, ok) >= MAX_BAD_READS {
        ReadStep::Stop
    } else {
        ReadStep::Retry
    }
}

/// Takes note of one read from the child's output, which gave a line (`ok`)
/// or failed.
pub fn worker_read(worker: &mut Worker, ok: bool) -> (r: ReadStep)
    ensures
        r == read_step(old(worker).bad_reads, ok),
        *final(worker) == (Worker {
            bad_reads: bad_reads_after(old(worker).bad_reads, ok) as u32,
            ..*old(worker)
        }),
{
    if ok {
        worker.bad_reads = 0;
        return ReadStep::Forward;
    }
    if worker.bad_reads < MAX_BAD_READS {
        worker.bad_reads = worker.bad_reads + 1;
    }
    if worker.bad_reads >= MAX_BAD_READS {
        ReadStep::Stop
    } else {
        ReadStep::Retry
    }
}

/// The child's output has ended or was given up: the worker is gone.
pub fn worker_exited(worker: &mut Worker)
    ensures
        *final(worker) == Worker::idle(),
{
    worker.present = false;
    worker.running = false;
    worker.bad_reads = 0;
}

/// Gives the worker up. Returns whether there is a child to kill.
pub fn kill_worker_ahk(worker: &mut Worker) -> (kill: bool)
    ensures
        kill == old(worker).present,
        *final(worker) == (Worker { present: false, ..*old(worker) }),
{
    let kill = worker.present;
    worker.present = false;
    kill
}

/// The outcome of one poll of the interpreter: `ready` is what it answered,
/// zero meaning not ready, and `idle` the polls in a row before this one that
/// found it not ready.
pub open spec fn poll_step(idle: u32, ready: i32) -> Poll {
    if ready != 0 {
        Poll { running: true, idle: 0, again: true }
    } else {
        let idle = if idle < MAX_IDLE_POLLS {
            (idle + 1) as u32
        } else {
            idle
        };
        Poll { running: false, idle, again: idle < MAX_IDLE_POLLS }
    }
}

/// Decides, in the child, what to report after a poll and whether to go on.
pub fn after_poll(idle: u32, ready: i32) -> (r: Poll)
    ensures
        r == poll_step(idle, ready),
{
    if ready != 0 {
        Poll { running: true, idle: 0, again: true }
    } else {
        let idle = if idle < MAX_IDLE_POLLS {
            idle + 1
        } else {
            idle
        };
        Poll { running: false, idle, again: idle < MAX_IDLE_POLLS }
    }
}

/// The script that the worker runs: the user's script behind a head that
/// gives it `rust_callback`, a function that calls the worker back at the
/// address `callback`.
pub open spec fn script_text(callback: usize, file_script: Seq<char>) -> Seq<char> {
    SCRIPT_HEAD@ + decimal(callback as nat) + SCRIPT_NECK@ + file_script
}

/// Writes the script that the worker runs.
pub fn worker_script(callback: usize, file_script: &str) -> (r: String)
    ensures
        r@ == script_text(callback, file_script@),
{
    let address = decimal_string(callback);
    String::from_str(SCRIPT_HEAD).concat(address.as_str()).concat(SCRIPT_NECK).concat(file_script)
}

/// Decides, in the child, whether there is anything to run: the script to
/// hand to the interpreter, or `None` where the interpreter or the script is
/// not on disk or the script could not be read, in which case the child
/// leaves at once.
pub fn run_ahk(
    dll_present: bool,
    script_present: bool,
    file_script: Option<&str>,
    callback: usize,
) -> (r: Option<String>)
    ensures
        match r {
            Some(script) => {
                &&& dll_present
                &&& script_present
                &&& file_script matches Some(text)
                &&& script@ == script_text(callback, text@)
            },
            None => !dll_present || !script_present || file_script is None,
        },
{
    if !dll_present || !script_present {
        return None;
    }
    match file_script {
        Some(text) => Some(worker_script(callback, text)),
        None => None,
    }
}

/// The answer to a request for the script: what was read, or the error of
/// the read, or, where `content` is `None` because there is no such file,
/// the error `SCRIPT_NOT_FOUND`.
pub fn read_script(content: Option<Result<String, String>>) -> (r: Result<String, String>)
    ensures
        match content {
            Some(read) => r == read,
            None => r matches Err(error) && error@ == SCRIPT_NOT_FOUND@,
        },
{
    match content {
        Some(read) => read,
        None => Err(String::from_str(SCRIPT_NOT_FOUND)),
    }
}

/// Whether `script` may be written to disk: any script but the empty one.
pub fn write_script(script: &str) -> (r: Result<(), String>)
    ensures
        match r {
            Ok(()) => script@.len() > 0,
            Err(error) => script@.len() == 0 && error@ == SCRIPT_EMPTY@,
        },
{
    if script.is_empty() {
        Err(String::from_str(SCRIPT_EMPTY))
    } else {
        Ok(())
    }
}

/// Answers a request to start the worker: as `start_worker_ahk` on Windows;
/// on other systems there is no worker, and the answer is `None`.
pub fn start_autohotkey(
    platform: Platform,
    worker: &Worker,
    dll_present: bool,
    script_present: bool,
) -> (r: Option<StartCheck>)
    ensures
        r == if platform == Platform::Windows {
            Some(start_check(worker.present, dll_present, script_present))
        } else {
            None
        },
{
    match platform {
        Platform::Windows => Some(start_worker_ahk(worker, dll_present, script_present)),
        _ => None,
    }
}

/// Answers a request to stop the worker: as `kill_worker_ahk` on Windows;
/// on other systems nothing changes and there is nothing to kill.
pub fn kill_autohotkey(platform: Platform, worker: &mut Worker) -> (kill: bool)
    ensures
        platform == Platform::Windows ==> kill == old(worker).present && *final(worker) == (Worker {
            present: false,
            ..*old(worker)
        }),
        platform != Platform::Windows ==> !kill && *final(worker) == *old(worker),
{
    match platform {
        Platform::Windows => kill_worker_ahk(worker),
        _ => false,
    }
}

/// Whether the worker's interpreter runs, as far as the parent has heard.
pub fn is_autohotkey_running(platform: Platform, worker: &Worker) -> (r: bool)
    ensures
        r == (platform == Platform::Windows && worker.running),
{
    match platform {
        Platform::Windows => worker.running,
        _ => false,
    }
}

/// What the parent hands over is what the child reads: arguments that end
/// with the flag and a path, whatever stands before them, name that path as
/// the script.
pub proof fn lemma_worker_arguments_are_read_back(program: Seq<String>, handed: Seq<String>)
    requires
        handed.len() == 2,
        handed[0]@ == HOOK_FLAG@,
    ensures
        hook_script(program + handed) == Some(handed[1]@),
{
    let args = program + handed;
    assert(args[program.len() as int] == handed[0]);
    assert(args[args.len() - 1] == handed[1]);
}

/// The count of failed reads after `failures` reads in a row have failed
/// since the last line.
pub open spec fn bad_reads_in_a_row(failures: nat) -> u32
    decreases failures,
{
    if failures == 0 {
        0
    } else {
        bad_reads_after(bad_reads_in_a_row((failures - 1) as nat), false) as u32
    }
}

/// The reading stops at the failure that is the `MAX_BAD_READS`-th in a row,
/// and not before it.
pub proof fn lemma_reading_stops_at_the_limit(failures: nat)
    requires
        failures >= 1,
    ensures
        bad_reads_in_a_row(failures) == if failures <= MAX_BAD_READS {
            failures
        } else {
            MAX_BAD_READS as nat
        },
        read_step(bad_reads_in_a_row((failures - 1) as nat), false) == ReadStep::Stop <==> failures
            >= MAX_BAD_READS,
    decreases failures,
{
    if failures > 1 {
        lemma_reading_stops_at_the_limit((failures - 1) as nat);
    }
}

} // verus!
