//! The commands of the tool and what each of them sets in motion.
//!
//! Dispatching a command computes a plan: the log lines to emit and the
//! work to start, in order. Carrying the plan out is left to the caller.

use vstd::prelude::*;
use vstd::string::*;
use crate::ports::{Level, LogEntry, LogLine};
use crate::retry::{initial_state, RetryState, DEFAULT_DELAY_SECS, DEFAULT_MAX_RETRIES};
use crate::supervisor::{context_of, ExecutionContext, Task};
use crate::text::{decimal, decimal_string};

verus! {

/// CPU cores that the stress test loads.
pub const STRESS_CPU_CORES: u64 = 4;

/// Seconds after which the stress tool stops by itself.
pub const STRESS_TIMEOUT_SECS: u64 = 120;

/// The text shown as the long description of the tool on its help page.
pub const LONG_DESCRIPTION: &'static str = "\n\n\nOneForAll is a comprehensive tool designed for in-depth hardware \
    performance analysis and diagnostics. It leverages advanced \
    testing methodologies to provide users with detailed insights \
    into their system's capabilities and bottlenecks. With OneForAll, \
    you can run various tests, including benchmarks, stress tests, \
    and hardware discovery, to understand the full scope of your \
    hardware's performance.\n\nThe tool is structured into several \
    modules, each targeting a specific aspect of hardware performance:\n\n\
    - Benchmark: Run extensive benchmarks to measure the speed \
    and efficiencyof your CPU, GPU, memory, and storage devices.\n\
    - Stress: Put your system under intense stress to test stability \
    and endurance under heavy loads.\n- Discover: Analyze and report \
    on the configuration and current state of your hardware components.\n\
    - Overwatch: Watch your system's performance in real-time, capturing \
    critical metrics and providing live feedback.\n\n   \n    \
    OneForAll is designed with both simplicity and power \
    in mind, making it suitable for both casual users looking to \
    check their system's performance and professionals requiring \
    detailed hardware analysis.";

/// What the tool can be asked to do. One command is chosen for each run of
/// the program and holds for all of it.
#[derive(Clone, Copy, Debug, PartialEq, Eq, Structural)]
pub enum Command {
    /// Runs benchmark tests.
    Benchmark,
    /// Executes stress tests.
    Stress,
    /// Scans and analyzes hardware.
    Discover,
    /// Monitors hardware performance in real time.
    Overwatch,
}

/// The long description of the tool for its help page.
pub fn long_description() -> (text: &'static str)
    ensures
        text@ == LONG_DESCRIPTION@,
{
    LONG_DESCRIPTION
}

/// The argument list of one invocation of the stress tool. It is built
/// once for an attempt and passed on as it is.
#[derive(Clone, Debug, PartialEq, Eq)]
pub struct StressTestInvocation {
    args: Vec<String>,
}

/// A list of strings, as contracts see it.
pub open spec fn strings_view(strings: Seq<String>) -> Seq<Seq<char>> {
    strings.map_values(|s: String| s@)
}

/// The arguments that load `cpu_cores` cores for `timeout_secs` seconds
/// and ask for brief metrics and verbose output.
pub open spec fn invocation_args(cpu_cores: nat, timeout_secs: nat) -> Seq<Seq<char>> {
    seq![
        "--cpu"@,
        decimal(cpu_cores),
        "--timeout"@,
        decimal(timeout_secs) + "s"@,
        "--metrics-brief"@,
        "--verbose"@,
    ]
}

impl View for StressTestInvocation {
    type V = Seq<Seq<char>>;

    closed spec fn view(&self) -> Seq<Seq<char>> {
        strings_view(self.args@)
    }
}

impl StressTestInvocation {
    /// The invocation that loads `cpu_cores` cores for `timeout_secs`
    /// seconds.
    pub fn new(cpu_cores: u64, timeout_secs: u64) -> (invocation: StressTestInvocation)
        ensures
            invocation@ == invocation_args(cpu_cores as nat, timeout_secs as nat),
    {
        let mut duration = decimal_string(timeout_secs);
        duration.append("s");
        let mut args: Vec<String> = Vec::new();
        args.push(String::from_str("--cpu"));
        args.push(decimal_string(cpu_cores));
        args.push(String::from_str("--timeout"));
        args.push(duration);
        args.push(String::from_str("--metrics-brief"));
        args.push(String::from_str("--verbose"));
        assert(strings_view(args@) =~= invocation_args(cpu_cores as nat, timeout_secs as nat));
        StressTestInvocation { args }
    }

    /// The arguments, in the order in which the tool is given them.
    pub fn args(&self) -> (args: &Vec<String>)
        ensures
            strings_view(args@) == self@,
    {
        &self.args
    }
}

/// One step of a plan.
#[derive(Clone, Debug, PartialEq, Eq)]
pub enum Effect {
    /// Emit this line.
    Log(LogLine),
    /// Run the stress tool with this invocation under a retry controller
    /// that starts in this state, until the controller halts.
    StressTest { invocation: StressTestInvocation, retry: RetryState },
    /// Start the statistics collector in this context, writing to the file
    /// at this path, and go on without waiting for it.
    SpawnCollector { output_path: String, context: ExecutionContext },
}

/// A step of a plan as contracts see it.
pub enum EffectView {
    Log(LogEntry),
    StressTest { args: Seq<Seq<char>>, retry: RetryState },
    SpawnCollector { output_path: Seq<char>, context: ExecutionContext },
}

impl View for Effect {
    type V = EffectView;

    open spec fn view(&self) -> EffectView {
        match *self {
            Effect::Log(line) => EffectView::Log(line@),
            Effect::StressTest { invocation, retry } => EffectView::StressTest {
                args: invocation@,
                retry,
            },
            Effect::SpawnCollector { output_path, context } => EffectView::SpawnCollector {
                output_path: output_path@,
                context,
            },
        }
    }
}

/// A plan as contracts see it.
pub open spec fn effects_view(effects: Seq<Effect>) -> Seq<EffectView> {
    effects.map_values(|e: Effect| e@)
}

/// A line at `Info` level, as contracts see it.
pub open spec fn info(text: Seq<char>) -> EffectView {
    EffectView::Log(LogEntry { level: Level::Info, text })
}

/// What each command sets in motion.
///
/// `Benchmark` and `Discover` are not implemented: each says so in one
/// line and does nothing else. `Stress` runs the stress tool on four cores
/// for 120 seconds under a controller with two retries ten seconds apart.
/// `Overwatch` announces itself, starts the statistics collector on a
/// worker of its own, and reports that monitoring has begun.
pub open spec fn plan(command: Command) -> Seq<EffectView> {
    match command {
        Command::Benchmark => seq![info("Benchmarking functionality not yet implemented."@)],
        Command::Stress => seq![
            EffectView::StressTest {
                args: invocation_args(STRESS_CPU_CORES as nat, STRESS_TIMEOUT_SECS as nat),
                retry: initial_state(DEFAULT_MAX_RETRIES, DEFAULT_DELAY_SECS),
            },
        ],
        Command::Discover => seq![info("Discovery functionality not yet implemented."@)],
        Command::Overwatch => seq![
            info("System overwatch functionality started."@),
            EffectView::SpawnCollector {
                output_path: "cpu_stats.txt"@,
                context: context_of(Task::StatsCollector),
            },
            info("Monitoring CPU usage and top processes."@),
        ],
    }
}

fn say(text: &str) -> (effect: Effect)
    ensures
        effect@ == info(text@),
{
    Effect::Log(LogLine::info(String::from_str(text)))
}

/// The plan for `command`.
pub fn dispatch(command: Command) -> (effects: Vec<Effect>)
    ensures
        effects_view(effects@) == plan(command),
{
    let mut effects: Vec<Effect> = Vec::new();
    match command {
        Command::Benchmark => {
            effects.push(say("Benchmarking functionality not yet implemented."));
        },
        Command::Stress => {
            effects.push(
                Effect::StressTest {
                    invocation: StressTestInvocation::new(STRESS_CPU_CORES, STRESS_TIMEOUT_SECS),
                    retry: RetryState::with_defaults(),
                },
            );
        },
        Command::Discover => {
            effects.push(say("Discovery functionality not yet implemented."));
        },
        Command::Overwatch => {
            effects.push(say("System overwatch functionality started."));
            effects.push(
                Effect::SpawnCollector {
                    output_path: String::from_str("cpu_stats.txt"),
                    context: Task::StatsCollector.context(),
                },
            );
            effects.push(say("Monitoring CPU usage and top processes."));
        },
    }
    assert(effects_view(effects@) =~= plan(command));
    effects
}

} // verus!
