//! What a child process is started with.

use vstd::prelude::*;

verus! {

/// The three standard streams of a child process.
pub struct ChildPipes {
    pub stdin: (),
    pub stdout: (),
    pub stderr: (),
}

/// The entry of an environment block for a variable: its name, `=`, its value
/// and the NUL byte that ends the entry.
pub open spec fn env_line(key: Seq<u8>, value: Seq<u8>) -> Seq<u8> {
    key + seq![61u8] + value + seq![0u8]
}

/// Builds the entry of an environment block for one variable.
pub fn env_entry(key: &[u8], value: &[u8]) -> (entry: Vec<u8>)
    ensures
        entry@ == env_line(key@, value@),
{
    let mut entry = vstd::slice::slice_to_vec(key);
    entry.push(61);
    entry.extend_from_slice(value);
    entry.push(0);
    proof {
        assert(entry@ =~= env_line(key@, value@));
    }
    entry
}

} // verus!
