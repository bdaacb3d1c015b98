//! The wide strings that are handed to the system when a process is spawned:
//! each ends where the system expects it to end.

use vstd::prelude::*;

verus! {

/// The unit that ends a wide string.
pub const NUL: u16 = 0;

/// The unit of a space.
pub const SPACE: u16 = 0x20;

/// A wide string followed by the unit that ends it.
pub open spec fn terminated(wide: Seq<u16>) -> Seq<u16> {
    wide.push(NUL)
}

/// The command line of a process: the path of the executable, then, where
/// there are arguments, a space and the arguments; and the unit that ends it.
/// The path stands in front, so that the process finds it as its first
/// argument.
pub open spec fn command_line(appname: Seq<u16>, cmdline: Option<Seq<u16>>) -> Seq<u16> {
    match cmdline {
        Some(arguments) => terminated(appname.push(SPACE) + arguments),
        None => terminated(appname),
    }
}

/// The number of ending units that a block of `NAME=VALUE` entries still
/// lacks. A block is a run of entries, each ended by one unit, and one more
/// unit after the last: it ends in two.
pub open spec fn missing_terminators(env: Seq<u16>) -> int {
    if env.len() >= 2 && env[env.len() - 1] == NUL && env[env.len() - 2] == NUL {
        0
    } else if env.len() >= 1 && env[env.len() - 1] == NUL {
        1
    } else {
        2
    }
}

/// The environment block of a process: the entries as they were given,
/// followed by as many ending units as they lack.
pub open spec fn environment_block(env: Seq<u16>) -> Seq<u16> {
    if missing_terminators(env) == 0 {
        env
    } else if missing_terminators(env) == 1 {
        env.push(NUL)
    } else {
        env.push(NUL).push(NUL)
    }
}

/// A wide string followed by the unit that ends it.
pub fn terminate(wide: Vec<u16>) -> (ended: Vec<u16>)
    ensures
        ended@ == terminated(wide@),
{
    let mut ended = wide;
    ended.push(NUL);
    ended
}

/// An optional wide string, ended if it is there.
pub fn terminate_optional(wide: Option<Vec<u16>>) -> (ended: Option<Vec<u16>>)
    ensures
        ended is Some == wide is Some,
        wide matches Some(units) ==> ended->0@ == terminated(units@),
{
    match wide {
        Some(units) => Some(terminate(units)),
        None => None,
    }
}

/// Builds the command line of a process from the path of its executable and
/// its arguments.
pub fn build_command_line(appname: Vec<u16>, cmdline: Option<Vec<u16>>) -> (line: Vec<u16>)
    ensures
        line@ == command_line(
            appname@,
            match cmdline {
                Some(arguments) => Some(arguments@),
                None => None,
            },
        ),
{
    let mut line = appname;
    match cmdline {
        Some(arguments) => {
            line.push(SPACE);
            let ghost head = line@;
            let mut i: usize = 0;
            while i < arguments.len()
                invariant
                    i <= arguments.len(),
                    line@ == head + arguments@.take(i as int),
                decreases arguments.len() - i,
            {
                line.push(arguments[i]);
                assert(arguments@.take(i + 1) =~= arguments@.take(i as int).push(
                    arguments@[i as int],
                ));
                i = i + 1;
            }
            assert(arguments@.take(i as int) =~= arguments@);
        },
        None => {},
    }
    line.push(NUL);
    line
}

/// Builds the environment block of a process: the entries, ended by two
/// units.
pub fn build_environment_block(env: Vec<u16>) -> (block: Vec<u16>)
    ensures
        block@ == environment_block(env@),
{
    let n = env.len();
    let mut block = env;
    if n >= 2 && block[n - 1] == NUL && block[n - 2] == NUL {
    } else if n >= 1 && block[n - 1] == NUL {
        block.push(NUL);
    } else {
        block.push(NUL);
        block.push(NUL);
    }
    block
}

/// An environment block always ends in two ending units, and starts with the
/// entries that were given.
pub proof fn lemma_environment_block_ends(env: Seq<u16>)
    ensures
        ({
            let block = environment_block(env);
            &&& block.len() >= 2
            &&& block[block.len() - 1] == NUL
            &&& block[block.len() - 2] == NUL
            &&& env.len() <= block.len() <= env.len() + 2
            &&& block.take(env.len() as int) == env
            &&& environment_block(block) == block
        }),
{
    let block = environment_block(env);
    assert(block.take(env.len() as int) =~= env);
}

} // verus!
