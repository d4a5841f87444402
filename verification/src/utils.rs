//! The list of running processes that the process picker offers: which
//! lines of a listing become entries, and the process name that an entry
//! carries.

use crate::text::{texts, trimmed};
use vstd::prelude::*;
use vstd::string::StrSliceExecFns;

verus! {

/// The entries of a process listing: every line trimmed, the lines of
/// which nothing is left dropped, the others in their order.
pub open spec fn listed_entries(lines: Seq<Seq<char>>) -> Seq<Seq<char>>
    decreases lines.len(),
{
    if lines.len() == 0 {
        Seq::empty()
    } else if trimmed(lines.last()).len() == 0 {
        listed_entries(lines.drop_last())
    } else {
        listed_entries(lines.drop_last()).push(trimmed(lines.last()))
    }
}

/// Turns the lines of a process listing into the entries of the picker:
/// every line trimmed, empty ones dropped.
pub fn process_entries(lines: &Vec<String>) -> (entries: Vec<String>)
    ensures
        texts(entries@) == listed_entries(texts(lines@)),
{
    let mut entries: Vec<String> = Vec::new();
    let mut index: usize = 0;
    while index < lines.len()
        invariant
            index <= lines@.len(),
            texts(entries@) == listed_entries(texts(lines@).take(index as int)),
        decreases lines@.len() - index,
    {
        let entry = lines[index].as_str().trim();
        assert(texts(lines@).take(index as int + 1).drop_last() =~= texts(lines@).take(
            index as int,
        ));
        if !entry.is_empty() {
            entries.push(entry.to_owned());
        }
        index += 1;
    }
    assert(texts(lines@).take(index as int) =~= texts(lines@));
    entries
}

/// What follows the first `": "` of `entry`, if `entry` holds one.
pub open spec fn after_separator(entry: Seq<char>) -> Option<Seq<char>>
    decreases entry.len(),
{
    if entry.len() < 2 {
        None
    } else if entry[0] == ':' && entry[1] == ' ' {
        Some(entry.skip(2))
    } else {
        after_separator(entry.drop_first())
    }
}

/// The process name that an entry of the form `PID 1234: name` carries:
/// what follows its first `": "`, or the whole entry where it has none.
pub open spec fn process_name(entry: Seq<char>) -> Seq<char> {
    match after_separator(entry) {
        Some(name) => name,
        None => entry,
    }
}

/// Extracts the process name from an entry of the picker, which reads
/// `PID 1234: name`. An entry of another form is handed back whole.
pub fn process_name_of_entry(entry: &str) -> (name: String)
    ensures
        name@ == process_name(entry@),
{
    let length = entry.unicode_len();
    let mut index: usize = 0;
    assert(entry@.skip(0) =~= entry@);
    while index < length && length - index >= 2
        invariant
            length == entry@.len(),
            index <= length,
            after_separator(entry@) == after_separator(entry@.skip(index as int)),
        decreases length - index,
    {
        if entry.get_char(index) == ':' && entry.get_char(index + 1) == ' ' {
            let name = entry.substring_char(index + 2, length);
            return name.to_owned();
        }
        assert(entry@.skip(index as int).drop_first() =~= entry@.skip(index as int + 1));
        index += 1;
    }
    entry.to_owned()
}

} // verus!
