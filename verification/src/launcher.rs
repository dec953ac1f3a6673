//! The companion's command line: where it is told on which channel to listen.
//!
//! Starting the process is the driver's work: it runs the program with these
//! arguments, with its standard input, output and error discarded, and does
//! not wait for it. That the companion lives is learned from the first
//! connection, not from the process.

use crate::address::{
    argument_address, ipc_argument, ipc_argument_text, lemma_ipc_argument_round_trip,
};
use vstd::prelude::*;
use vstd::string::*;

verus! {

/// The arguments a companion is started with: its own, and after them the
/// argument that carries the channel address.
pub open spec fn launch_arguments(args: Seq<Seq<char>>, address: Seq<char>) -> Seq<Seq<char>> {
    args.push(ipc_argument_text(address))
}

/// The companion's own arguments pass through unchanged, and its last
/// argument gives it the address back.
pub proof fn lemma_launch_arguments(args: Seq<Seq<char>>, address: Seq<char>)
    ensures
        launch_arguments(args, address).len() == args.len() + 1,
        launch_arguments(args, address).take(args.len() as int) == args,
        argument_address(launch_arguments(args, address).last()) == Some(address),
{
    lemma_ipc_argument_round_trip(address);
    assert(launch_arguments(args, address).take(args.len() as int) =~= args);
}

/// The arguments to start a companion with, for the channel `address`.
pub fn companion_arguments(args: &[String], address: &str) -> (all: Vec<String>)
    ensures
        all.deep_view() == launch_arguments(args.deep_view(), address@),
{
    let mut all: Vec<String> = Vec::new();
    let mut i: usize = 0;
    while i < args.len()
        invariant
            i <= args.len(),
            all.len() == i,
            forall|j: int| 0 <= j < i ==> all@[j]@ == args@[j]@,
        decreases args.len() - i,
    {
        all.push(args[i].clone());
        i = i + 1;
    }
    all.push(ipc_argument(address));
    assert(all.deep_view() =~= launch_arguments(args.deep_view(), address@));
    all
}

} // verus!
