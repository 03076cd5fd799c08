//! Which processes of a snapshot are listed.

use vstd::prelude::*;

verus! {

/// The lower-case form of an ASCII capital; every other character is itself.
pub open spec fn ascii_lower(c: char) -> char {
    if 'A' <= c && c <= 'Z' {
        ((c as u8) + 32) as char
    } else {
        c
    }
}

/// A name with its ASCII capitals in lower case.
pub open spec fn lowered(name: Seq<char>) -> Seq<char> {
    name.map_values(|c: char| ascii_lower(c))
}

/// Whether `word` stands in `text` from position `at` on.
pub open spec fn occurs_at(text: Seq<char>, word: Seq<char>, at: int) -> bool {
    &&& 0 <= at
    &&& at + word.len() <= text.len()
    &&& text.subrange(at, at + word.len()) == word
}

/// Whether `word` stands somewhere in `text`.
pub open spec fn occurs(text: Seq<char>, word: Seq<char>) -> bool {
    exists|at: int| occurs_at(text, word, at)
}

/// Whether a process of this name is listed: the name holds one of the two
/// keywords, capitals of the name counting as their lower-case letters.
pub open spec fn is_watched_name(name: Seq<char>) -> bool {
    occurs(lowered(name), "riot"@) || occurs(lowered(name), "league"@)
}

/// What a snapshot tells of one process, as far as the listing shows it in
/// whole numbers. The processor share is found again through `pid`.
#[derive(Debug, PartialEq, Eq)]
pub struct ProcessEntry {
    pub pid: u32,
    pub name: String,
    /// Resident memory in kibibytes.
    pub memory_kib: u64,
}

impl ProcessEntry {
    /// An entry for a process whose resident memory is known in bytes; what
    /// is left of a kibibyte is dropped.
    pub fn new(pid: u32, name: String, resident_bytes: u64) -> (entry: ProcessEntry)
        ensures
            entry.pid == pid,
            entry.name == name,
            entry.memory_kib == resident_bytes / 1024,
    {
        ProcessEntry { pid, name, memory_kib: resident_bytes / 1024 }
    }
}

fn to_lower(c: char) -> (low: char)
    ensures
        low == ascii_lower(c),
{
    if 'A' <= c && c <= 'Z' {
        ((c as u8) + 32) as char
    } else {
        c
    }
}

fn chars_of(text: &str) -> (chars: Vec<char>)
    ensures
        chars@ == text@,
{
    let mut chars: Vec<char> = Vec::new();
    for c in it: text.chars()
        invariant
            it.seq() == text@,
            chars@.len() == it.index(),
            forall|j: int| 0 <= j < chars@.len() ==> chars@[j] == text@[j],
    {
        chars.push(c);
    }
    assert(chars@ =~= text@);
    chars
}

fn word_at(name: &Vec<char>, word: &Vec<char>, at: usize) -> (found: bool)
    requires
        at + word.len() <= name.len(),
    ensures
        found == occurs_at(lowered(name@), word@, at as int),
{
    let ghost text = lowered(name@);
    let mut j: usize = 0;
    while j < word.len()
        invariant
            j <= word.len(),
            at + word.len() <= name.len(),
            text == lowered(name@),
            forall|k: int| 0 <= k < j ==> text[at + k] == word@[k],
        decreases word.len() - j,
    {
        if to_lower(name[at + j]) != word[j] {
            assert(text.subrange(at as int, at + word@.len())[j as int] != word@[j as int]);
            return false;
        }
        j += 1;
    }
    assert(text.subrange(at as int, at + word@.len()) =~= word@);
    true
}

fn holds_word(name: &Vec<char>, word: &Vec<char>) -> (found: bool)
    ensures
        found == occurs(lowered(name@), word@),
{
    if word.len() > name.len() {
        return false;
    }
    let last: usize = name.len() - word.len();
    let mut at: usize = 0;
    loop
        invariant
            at <= last,
            last == name.len() - word.len(),
            forall|a: int| 0 <= a < at ==> !occurs_at(lowered(name@), word@, a),
        decreases last - at,
    {
        if word_at(name, word, at) {
            return true;
        }
        if at == last {
            return false;
        }
        at += 1;
    }
}

/// Whether a process of this name is listed.
pub fn is_watched(name: &str) -> (listed: bool)
    ensures
        listed == is_watched_name(name@),
{
    let chars = chars_of(name);
    let riot = chars_of("riot");
    if holds_word(&chars, &riot) {
        return true;
    }
    let league = chars_of("league");
    holds_word(&chars, &league)
}

proof fn lemma_filter_next<A>(all: Seq<A>, keep: spec_fn(A) -> bool, i: int)
    requires
        0 <= i < all.len(),
    ensures
        all.take(i + 1).filter(keep) == if keep(all[i]) {
            all.take(i).filter(keep).push(all[i])
        } else {
            all.take(i).filter(keep)
        },
{
    reveal(Seq::filter);
    assert(all.take(i + 1).drop_last() =~= all.take(i));
}

/// The entries of a snapshot that are listed, in the order of the snapshot.
pub fn watched(entries: &Vec<ProcessEntry>) -> (listed: Vec<ProcessEntry>)
    ensures
        listed@ == entries@.filter(|e: ProcessEntry| is_watched_name(e.name@)),
{
    let ghost keep = |e: ProcessEntry| is_watched_name(e.name@);
    let mut listed: Vec<ProcessEntry> = Vec::new();
    let mut i: usize = 0;
    assert(entries@.take(0).filter(keep) =~= Seq::<ProcessEntry>::empty()) by {
        reveal(Seq::filter);
    }
    while i < entries.len()
        invariant
            i <= entries@.len(),
            keep == |e: ProcessEntry| is_watched_name(e.name@),
            listed@ == entries@.take(i as int).filter(keep),
        decreases entries@.len() - i,
    {
        let entry = &entries[i];
        proof {
            lemma_filter_next(entries@, keep, i as int);
        }
        if is_watched(entry.name.as_str()) {
            listed.push(
                ProcessEntry {
                    pid: entry.pid,
                    name: entry.name.clone(),
                    memory_kib: entry.memory_kib,
                },
            );
        }
        i += 1;
    }
    assert(entries@.take(i as int) =~= entries@);
    listed
}

} // verus!
