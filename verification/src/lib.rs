//! Small building blocks for command-line tools: a version banner, a
//! directory stream driven by the results of the platform's directory calls,
//! and the identification of the running system.

use vstd::prelude::*;

pub mod cbytes;
pub mod error;
pub mod file_type;
pub mod read_dir;
pub mod release;
pub mod scan;
pub mod spawn;
pub mod stats;

verus! {

/// The text that `parts` give when `sep` is put between each two neighbours.
pub open spec fn joined(parts: Seq<Seq<char>>, sep: Seq<char>) -> Seq<char>
    decreases parts.len(),
{
    if parts.len() == 0 {
        Seq::empty()
    } else if parts.len() == 1 {
        parts[0]
    } else {
        joined(parts.drop_last(), sep) + sep + parts.last()
    }
}

/// The characters of each string of `items`, in order.
pub open spec fn texts(items: Seq<&str>) -> Seq<Seq<char>> {
    Seq::new(items.len(), |i: int| items[i]@)
}

/// The version banner of a tool: its name, its version, the licence and its authors.
pub open spec fn banner(package: Seq<char>, version: Seq<char>, authors: Seq<Seq<char>>) -> Seq<
    char,
> {
    package + " (crossutils) version "@ + version
        + "\nLicense ISC <https://opensource.org/licenses/ISC>\n\nWritten by "@ + joined(
        authors,
        ", "@,
    )
}

/// Builds the banner that a tool prints when asked for its version.
pub fn version(package: &str, number: &str, authors: &[&str]) -> (text: String)
    ensures
        text@ == banner(package@, number@, texts(authors@)),
{
    let mut text = String::from_str(package);
    text.append(" (crossutils) version ");
    text.append(number);
    text.append("\nLicense ISC <https://opensource.org/licenses/ISC>\n\nWritten by ");
    let ghost head = text@;
    let mut i: usize = 0;
    while i < authors.len()
        invariant
            i <= authors.len(),
            text@ == head + joined(texts(authors@).take(i as int), ", "@),
        decreases authors.len() - i,
    {
        proof {
            let all = texts(authors@);
            assert(all.take(i + 1).drop_last() =~= all.take(i as int));
            assert(all.take(i + 1).last() == authors[i as int]@);
        }
        if i > 0 {
            text.append(", ");
        }
        text.append(authors[i]);
        i += 1;
    }
    proof {
        assert(texts(authors@).take(i as int) =~= texts(authors@));
    }
    text
}

} // verus!
