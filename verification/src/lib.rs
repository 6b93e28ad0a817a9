//! Builds `systemd-run` invocations that constrain the CPU and memory use of
//! a command.
//!
//! The heart of the crate is [`build_command`]: a pure function from a set
//! of resource options and a command vector to the full argument list of the
//! process supervisor, including CPU-quota arithmetic, memory-size formatting
//! and the selection of a contiguous slice of high-numbered cores.

use vstd::prelude::*;

pub mod parse;
pub mod render;

use render::core_list;
use render::core_list_of;
use render::dec_of;
use render::u64_to_dec;

verus! {

/// Unit letter that may follow a memory magnitude.
#[derive(Copy, Clone, Debug)]
pub enum SizePostfix {
    Bytes,
    Kilo,
    Mega,
    Giga,
    Tera,
}

impl SizePostfix {
    /// The letter appended to a memory magnitude for this unit; empty for
    /// `Bytes`, which passes the raw byte count through.
    pub open spec fn letter(self) -> Seq<char> {
        match self {
            SizePostfix::Bytes => Seq::<char>::empty(),
            SizePostfix::Kilo => "K"@,
            SizePostfix::Mega => "M"@,
            SizePostfix::Giga => "G"@,
            SizePostfix::Tera => "T"@,
        }
    }

    /// Renders the unit letter.
    pub fn to_string(self) -> (r: String)
        ensures
            r@ == self.letter(),
    {
        match self {
            SizePostfix::Bytes => {
                let r = String::new();
                proof {
                    assert(r@ =~= self.letter());
                }
                r
            },
            SizePostfix::Kilo => "K".to_owned(),
            SizePostfix::Mega => "M".to_owned(),
            SizePostfix::Giga => "G".to_owned(),
            SizePostfix::Tera => "T".to_owned(),
        }
    }
}

/// Validated resource constraints for one invocation.
#[derive(Copy, Clone, Debug)]
pub struct Options {
    /// Number of CPU cores to use.
    pub cpus: Option<u8>,
    /// CPU utilisation in percent of one core.
    pub cpu_speed: Option<u8>,
    /// Memory ceiling as a magnitude and a unit.
    pub memory: Option<(u32, SizePostfix)>,
}

impl Options {
    /// Well-formed options: a requested core count is non-zero and a
    /// requested CPU speed does not exceed 100%.
    pub open spec fn valid(self) -> bool {
        &&& (self.cpus matches Some(c) ==> c >= 1)
        &&& (self.cpu_speed matches Some(s) ==> s <= 100)
    }
}

/// The command that should be executed by the system to apply the
/// restrictions: a program name and its argument tokens.
#[derive(Debug, Clone)]
pub struct Command {
    /// The program to execute.
    pub program: String,
    /// The arguments of the program.
    pub arguments: Vec<String>,
}

/// The character sequences of a sequence of strings.
pub open spec fn views(ss: Seq<String>) -> Seq<Seq<char>> {
    ss.map_values(|s: String| s@)
}

/// The requested core count clamped to the cores that are available.
pub open spec fn clamped(cpus: u8, num_cpus: u8) -> u8 {
    if cpus <= num_cpus {
        cpus
    } else {
        num_cpus
    }
}

/// The effective CPU-quota percentage, if any: the clamped core count (all
/// cores when absent) times the requested speed (100% when absent), with no
/// quota at all when both are absent.
pub open spec fn quota_of(num_cpus: u8, opts: Options) -> Option<int> {
    match (opts.cpus, opts.cpu_speed) {
        (None, None) => None,
        (None, Some(s)) => Some(num_cpus as int * s as int),
        (Some(c), None) => Some(clamped(c, num_cpus) as int * 100),
        (Some(c), Some(s)) => Some(clamped(c, num_cpus) as int * s as int),
    }
}

/// The argument tokens that set the memory ceiling: empty when no ceiling
/// was requested.
pub open spec fn memory_args(memory: Option<(u32, SizePostfix)>) -> Seq<Seq<char>> {
    match memory {
        None => Seq::<Seq<char>>::empty(),
        Some((size, postfix)) => seq!["-p"@, "MemoryMax="@ + dec_of(size as nat) + postfix.letter()],
    }
}

/// The argument tokens that set the CPU quota: empty when neither a core
/// count nor a speed was requested.
pub open spec fn quota_args(num_cpus: u8, opts: Options) -> Seq<Seq<char>> {
    match quota_of(num_cpus, opts) {
        None => Seq::<Seq<char>>::empty(),
        Some(q) => seq!["-p"@, "CPUQuota="@ + dec_of(q as nat) + "%"@],
    }
}

/// The argument tokens that pin the command to the highest-indexed cores:
/// empty when no core count was requested.
pub open spec fn pin_args(num_cpus: u8, cpus: Option<u8>) -> Seq<Seq<char>> {
    match cpus {
        None => Seq::<Seq<char>>::empty(),
        Some(c) => seq![
            "taskset"@,
            "-c"@,
            core_list_of(num_cpus - clamped(c, num_cpus), num_cpus as int),
        ],
    }
}

/// The full argument list of the supervisor invocation: the two fixed flags,
/// then the memory, quota and pinning tokens, then the untouched command.
pub open spec fn build_args(num_cpus: u8, opts: Options, command: Seq<Seq<char>>) -> Seq<
    Seq<char>,
> {
    seq!["--quiet"@, "--scope"@] + memory_args(opts.memory) + quota_args(num_cpus, opts) + pin_args(
        num_cpus,
        opts.cpus,
    ) + command
}

/// Selects `used` cores from the highest-indexed end of the
/// `[0, num_cpus)` range, leaving the low-numbered cores free.
pub fn select_cpus(num_cpus: u8, used: u8) -> (r: core::ops::Range<u8>)
    requires
        0 < used <= num_cpus,
    ensures
        r.start == num_cpus - used,
        r.end == num_cpus,
        r.end - r.start == used,
{
    (num_cpus - used)..num_cpus
}

/// Builds the supervisor invocation for `command` under the constraints in
/// `opts`, given `num_cpus` available cores.
///
/// The returned argument list is exactly [`build_args`] applied to the
/// inputs, so the result is a function of the inputs alone, and the last
/// `command.len()` tokens are the command itself, verbatim and in order.
pub fn build_command(num_cpus: u8, opts: Options, command: &[String]) -> (ret: Command)
    requires
        num_cpus > 0,
        opts.valid(),
        command@.len() > 0,
    ensures
        ret.program@ == "systemd-run"@,
        views(ret.arguments@) == build_args(num_cpus, opts, views(command@)),
        ret.arguments@.len() >= command@.len(),
        views(ret.arguments@).skip(ret.arguments@.len() - command@.len()) == views(command@),
{
    let program = "systemd-run".to_owned();
    let mut args: Vec<String> = Vec::new();
    args.push("--quiet".to_owned());
    args.push("--scope".to_owned());
    proof {
        assert(views(args@) =~= seq!["--quiet"@, "--scope"@]);
    }
    if let Some((size, postfix)) = opts.memory {
        args.push("-p".to_owned());
        let mut tok = "MemoryMax=".to_owned();
        let digits = u64_to_dec(size as u64);
        tok.append(digits.as_str());
        let letter = postfix.to_string();
        tok.append(letter.as_str());
        proof {
            assert(tok@ == "MemoryMax="@ + dec_of(size as nat) + postfix.letter());
        }
        args.push(tok);
    }
    let ghost mem_done: Seq<Seq<char>> = seq!["--quiet"@, "--scope"@] + memory_args(opts.memory);
    proof {
        assert(views(args@) =~= mem_done);
    }
    let quota: Option<u16> = match (opts.cpus, opts.cpu_speed) {
        (None, None) => None,
        (None, Some(speed)) => {
            proof {
                assert((num_cpus as int) * (speed as int) <= 255 * 100) by (nonlinear_arith)
                    requires
                        num_cpus <= 255,
                        speed <= 100,
                ;
            }
            Some((num_cpus as u16) * (speed as u16))
        },
        (Some(cpus), None) => {
            let used = if cpus <= num_cpus {
                cpus
            } else {
                num_cpus
            };
            Some((used as u16) * 100)
        },
        (Some(cpus), Some(speed)) => {
            let used = if cpus <= num_cpus {
                cpus
            } else {
                num_cpus
            };
            proof {
                assert((used as int) * (speed as int) <= 255 * 100) by (nonlinear_arith)
                    requires
                        used <= 255,
                        speed <= 100,
                ;
            }
            Some((used as u16) * (speed as u16))
        },
    };
    if let Some(q) = quota {
        proof {
            assert(quota_of(num_cpus, opts) == Some(q as int));
        }
        args.push("-p".to_owned());
        let mut tok = "CPUQuota=".to_owned();
        let digits = u64_to_dec(q as u64);
        tok.append(digits.as_str());
        tok.append("%");
        proof {
            assert(tok@ == "CPUQuota="@ + dec_of(q as nat) + "%"@);
        }
        args.push(tok);
    }
    let ghost quota_done: Seq<Seq<char>> = mem_done + quota_args(num_cpus, opts);
    proof {
        assert(views(args@) =~= quota_done);
    }
    if let Some(cpus) = opts.cpus {
        let used = if cpus <= num_cpus {
            cpus
        } else {
            num_cpus
        };
        let range = select_cpus(num_cpus, used);
        let list = core_list(range.start, range.end);
        args.push("taskset".to_owned());
        args.push("-c".to_owned());
        args.push(list);
    }
    let ghost pin_done: Seq<Seq<char>> = quota_done + pin_args(num_cpus, opts.cpus);
    proof {
        assert(views(args@) =~= pin_done);
    }
    let mut i: usize = 0;
    proof {
        assert(views(args@) == pin_done + views(command@).take(0)) by {
            assert(views(args@) =~= pin_done + views(command@).take(0));
        }
    }
    while i < command.len()
        invariant
            i <= command@.len(),
            views(args@) == pin_done + views(command@).take(i as int),
        decreases command@.len() - i,
    {
        let ghost pre = args@;
        let ghost iprev = i as int;
        args.push(command[i].clone());
        i = i + 1;
        proof {
            let x = args@[pre.len() as int];
            assert(args@ == pre.push(x));
            assert(x == command@[iprev]);
            assert(views(args@) =~= views(pre).push(x@));
            assert(views(command@).take(iprev + 1) =~= views(command@).take(iprev).push(
                command@[iprev]@,
            ));
            assert(pin_done + views(command@).take(iprev + 1) =~= (pin_done + views(
                command@,
            ).take(iprev)).push(command@[iprev]@));
            assert(views(args@) == pin_done + views(command@).take(i as int));
        }
    }
    proof {
        assert(views(command@).take(command@.len() as int) =~= views(command@));
        assert(views(args@) == build_args(num_cpus, opts, views(command@)));
        lemma_concat_skip(pin_done, views(command@));
        assert(views(args@).len() == args@.len());
        assert(pin_done.len() == args@.len() - command@.len());
    }
    Command { program, arguments: args }
}

/// Skipping a concatenation's left part leaves exactly its right part.
proof fn lemma_concat_skip<A>(a: Seq<A>, b: Seq<A>)
    ensures
        (a + b).skip(a.len() as int) == b,
{
    assert((a + b).skip(a.len() as int) =~= b);
}

/// With no options at all, the invocation is only the two fixed flags
/// followed by the untouched command: no memory, quota or pinning tokens.
pub proof fn lemma_no_options(num_cpus: u8, command: Seq<Seq<char>>)
    ensures
        build_args(num_cpus, (Options { cpus: None, cpu_speed: None, memory: None }), command)
            == seq!["--quiet"@, "--scope"@] + command,
{
    assert(build_args(num_cpus, (Options { cpus: None, cpu_speed: None, memory: None }), command)
        =~= seq!["--quiet"@, "--scope"@] + command);
}

/// With only a CPU speed requested, the invocation is the two fixed flags,
/// a quota of `num_cpus * speed` percent, and the untouched command: in
/// particular it carries no pinning and no memory tokens.
pub proof fn lemma_speed_only(num_cpus: u8, speed: u8, command: Seq<Seq<char>>)
    ensures
        build_args(num_cpus, (Options { cpus: None, cpu_speed: Some(speed), memory: None }), command)
            == seq![
            "--quiet"@,
            "--scope"@,
            "-p"@,
            "CPUQuota="@ + dec_of((num_cpus * speed) as nat) + "%"@,
        ] + command,
{
    assert(build_args(
        num_cpus,
        (Options { cpus: None, cpu_speed: Some(speed), memory: None }),
        command,
    ) =~= seq![
        "--quiet"@,
        "--scope"@,
        "-p"@,
        "CPUQuota="@ + dec_of((num_cpus * speed) as nat) + "%"@,
    ] + command);
}

/// Whenever a memory ceiling is requested, the third and fourth tokens of
/// the invocation set `MemoryMax` to the magnitude followed by the unit
/// letter.
pub proof fn lemma_memory_tokens(num_cpus: u8, opts: Options, command: Seq<Seq<char>>)
    ensures
        opts.memory matches Some((size, postfix)) ==> {
            let args = build_args(num_cpus, opts, command);
            &&& args[2] == "-p"@
            &&& args[3] == "MemoryMax="@ + dec_of(size as nat) + postfix.letter()
        },
{
}

/// Whenever a core count or a CPU speed is requested, an effective quota
/// exists, and the invocation carries a `CPUQuota` token with exactly that
/// percentage, right after the memory tokens.
pub proof fn lemma_quota_token(num_cpus: u8, opts: Options, command: Seq<Seq<char>>)
    requires
        opts.cpus is Some || opts.cpu_speed is Some,
    ensures
        quota_of(num_cpus, opts) is Some,
        quota_of(num_cpus, opts) matches Some(q) ==> {
            let args = build_args(num_cpus, opts, command);
            let p: int = 2 + memory_args(opts.memory).len() as int;
            &&& args[p] == "-p"@
            &&& args[p + 1] == "CPUQuota="@ + dec_of(q as nat) + "%"@
        },
{
}

/// Whenever a core count is requested, the invocation carries a pinning
/// sub-invocation, right after the quota tokens, naming the contiguous
/// range of the clamped count of highest-indexed cores.
pub proof fn lemma_pinning_tokens(num_cpus: u8, opts: Options, command: Seq<Seq<char>>)
    ensures
        opts.cpus matches Some(c) ==> {
            let args = build_args(num_cpus, opts, command);
            let p: int = 2 + memory_args(opts.memory).len() as int + quota_args(num_cpus, opts).len() as int;
            let used = clamped(c, num_cpus);
            &&& args[p] == "taskset"@
            &&& args[p + 1] == "-c"@
            &&& args[p + 2] == core_list_of(num_cpus - used, num_cpus as int)
        },
{
}

} // verus!
