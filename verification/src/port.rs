//! Reclaiming the server's port: which programs are asked who holds the
//! port, and which processes are then to be terminated. Whoever holds the
//! port is terminated, whether or not it is an earlier server.

use vstd::prelude::*;
use vstd::string::*;
use crate::text::{
    chars_of, contains, contains_spec, lines, lines_spec, words_of, words_spec,
};

verus! {

/// One call of a program of the operating system.
#[derive(Clone, Debug, PartialEq, Eq)]
pub struct SystemCommand {
    pub program: String,
    pub args: Vec<String>,
}

/// A [`SystemCommand`] with each text taken by its characters.
pub struct CommandView {
    pub program: Seq<char>,
    pub args: Seq<Seq<char>>,
}

impl View for SystemCommand {
    type V = CommandView;

    open spec fn view(&self) -> CommandView {
        CommandView { program: self.program@, args: self.args.deep_view() }
    }
}

impl DeepView for SystemCommand {
    type V = CommandView;

    open spec fn deep_view(&self) -> CommandView {
        self@
    }
}

/// The call that terminates process `pid` on Unix.
pub open spec fn unix_kill(pid: Seq<char>) -> CommandView {
    CommandView { program: "kill"@, args: seq!["-9"@, pid] }
}

/// The call that terminates process `pid` on Windows.
pub open spec fn windows_kill(pid: Seq<char>) -> CommandView {
    CommandView { program: "taskkill"@, args: seq!["/F"@, "/PID"@, pid] }
}

/// The process named at the end of a line of the connection list, if the
/// line speaks of `port`: its last word.
pub open spec fn holder_in(line: Seq<char>, port: Seq<char>) -> Option<Seq<char>> {
    if contains_spec(line, seq![':'] + port) && words_spec(line).len() > 0 {
        Some(words_spec(line).last())
    } else {
        None
    }
}

/// The call that lists, on Unix, the processes that hold `port`: one
/// process id on each line of its output.
pub fn unix_lookup(port: &str) -> (command: SystemCommand)
    ensures
        command@ == (CommandView { program: "lsof"@, args: seq!["-t"@, "-i:"@ + port@] }),
{
    let mut args: Vec<String> = Vec::new();
    args.push(String::from_str("-t"));
    args.push(String::from_str("-i:").concat(port));
    assert(args.deep_view() =~= seq!["-t"@, "-i:"@ + port@]);
    SystemCommand { program: String::from_str("lsof"), args }
}

/// The calls that terminate, on Unix, the processes that the lookup
/// listed: one for each line of `listing`, in order.
pub fn unix_kills(listing: &str) -> (commands: Vec<SystemCommand>)
    ensures
        commands.deep_view() == lines_spec(listing@).map_values(|pid: Seq<char>| unix_kill(pid)),
{
    let pids = lines(listing);
    let mut commands: Vec<SystemCommand> = Vec::new();
    let mut i: usize = 0;
    while i < pids.len()
        invariant
            i <= pids.len(),
            commands.len() == i,
            forall|k: int| 0 <= k < i ==> commands[k]@ == unix_kill(pids[k]@),
        decreases pids.len() - i,
    {
        let mut args: Vec<String> = Vec::new();
        args.push(String::from_str("-9"));
        args.push(pids[i].clone());
        assert(args.deep_view() =~= seq!["-9"@, pids[i as int]@]);
        commands.push(SystemCommand { program: String::from_str("kill"), args });
        i += 1;
    }
    commands
}

/// The call that lists, on Windows, every connection with the process
/// that holds it.
pub fn windows_lookup() -> (command: SystemCommand)
    ensures
        command@ == (CommandView { program: "netstat"@, args: seq!["-ano"@] }),
{
    let mut args: Vec<String> = Vec::new();
    args.push(String::from_str("-ano"));
    assert(args.deep_view() =~= seq!["-ano"@]);
    SystemCommand { program: String::from_str("netstat"), args }
}

/// The calls that terminate, on Windows, the processes that the
/// connection list names on its lines that speak of `port`: one for each
/// such line, in order.
pub fn windows_kills(listing: &str, port: &str) -> (commands: Vec<SystemCommand>)
    ensures
        commands.deep_view() == lines_spec(listing@).filter_map(
            |line: Seq<char>| holder_in(line, port@),
        ).map_values(|pid: Seq<char>| windows_kill(pid)),
{
    let rows = lines(listing);
    let mut needle = chars_of(":");
    let mut port_chars = chars_of(port);
    needle.append(&mut port_chars);
    proof {
        reveal_strlit(":");
    }
    let ghost all = rows.deep_view();
    let ghost holder = |line: Seq<char>| holder_in(line, port@);
    let ghost kill = |pid: Seq<char>| windows_kill(pid);
    let mut commands: Vec<SystemCommand> = Vec::new();
    let mut i: usize = 0;
    while i < rows.len()
        invariant
            i <= rows.len(),
            rows.deep_view() == all,
            needle@ == seq![':'] + port@,
            holder == |line: Seq<char>| holder_in(line, port@),
            kill == |pid: Seq<char>| windows_kill(pid),
            commands.deep_view() == all.take(i as int).filter_map(holder).map_values(kill),
        decreases rows.len() - i,
    {
        let row = chars_of(rows[i].as_str());
        let ghost before = commands.deep_view();
        proof {
            all.lemma_filter_map_take_succ(holder, i as int);
            assert(row@.subrange(0, row.len() as int) =~= row@);
        }
        if contains(&row, &needle) {
            let tokens = words_of(&row, 0, row.len());
            if tokens.len() > 0 {
                let mut args: Vec<String> = Vec::new();
                args.push(String::from_str("/F"));
                args.push(String::from_str("/PID"));
                args.push(tokens[tokens.len() - 1].clone());
                let ghost pid = tokens[tokens.len() - 1]@;
                assert(args.deep_view() =~= seq!["/F"@, "/PID"@, pid]);
                commands.push(SystemCommand { program: String::from_str("taskkill"), args });
                assert((all.take(i as int).filter_map(holder) + seq![pid]).map_values(kill)
                    =~= before.push(windows_kill(pid)));
            }
        }
        i += 1;
    }
    assert(all.take(rows.len() as int) =~= all);
    commands
}

} // verus!
