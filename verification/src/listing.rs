//! The listing of the quick-reference cache: the entries that its text holds.

use vstd::prelude::*;
use crate::filter::names_of;
use crate::text::occurs_at;

verus! {

/// The characters that stand between the entries of a listing: the comma
/// and white space.
pub open spec fn is_separator(c: char) -> bool {
    c == ',' || c == ' ' || c == '\t' || c == '\n' || c == '\r'
}

/// A listing read up to some point: the entries that have ended, and the
/// run of characters that may still grow into one.
pub ghost struct Scan {
    pub ended: Seq<Seq<char>>,
    pub run: Seq<char>,
}

impl Scan {
    /// The entries read so far, the run counted as one if it holds anything.
    pub open spec fn entries(self) -> Seq<Seq<char>> {
        if self.run.len() > 0 {
            self.ended.push(self.run)
        } else {
            self.ended
        }
    }

    /// The scan after one more character: a separator ends the run, any
    /// other character lengthens it.
    pub open spec fn step(self, c: char) -> Scan {
        if is_separator(c) {
            Scan { ended: self.entries(), run: Seq::empty() }
        } else {
            Scan { ended: self.ended, run: self.run.push(c) }
        }
    }
}

/// The scan of a whole text.
pub open spec fn scan_of(text: Seq<char>) -> Scan
    decreases text.len(),
{
    if text.len() == 0 {
        Scan { ended: Seq::empty(), run: Seq::empty() }
    } else {
        scan_of(text.drop_last()).step(text.last())
    }
}

/// The entries of a listing: the longest runs of characters that are no
/// separators, in the order in which they stand.
pub open spec fn listing_entries(text: Seq<char>) -> Seq<Seq<char>> {
    scan_of(text).entries()
}

/// `entry` is a run of characters that are no separators, it stands in
/// `text` at `at`, and a separator or the start of the text stands before it.
pub open spec fn is_run_at(text: Seq<char>, entry: Seq<char>, at: int) -> bool {
    &&& entry.len() > 0
    &&& occurs_at(entry, text, at)
    &&& forall|k: int| 0 <= k < entry.len() ==> !is_separator(#[trigger] entry[k])
    &&& (at == 0 || is_separator(text[at - 1]))
}

/// `entry` stands in `text` at `at` as a whole entry: a run with a
/// separator or the end of the text behind it.
pub open spec fn is_entry_at(text: Seq<char>, entry: Seq<char>, at: int) -> bool {
    &&& is_run_at(text, entry, at)
    &&& (at + entry.len() == text.len() || is_separator(text[at + entry.len()]))
}

/// `entry` stands somewhere in `text` as a whole entry.
pub open spec fn is_entry(text: Seq<char>, entry: Seq<char>) -> bool {
    exists|at: int| is_entry_at(text, entry, at)
}

/// `entry` stands in `text` at `at` as a run that a separator ends.
pub open spec fn is_ended_at(text: Seq<char>, entry: Seq<char>, at: int) -> bool {
    &&& is_run_at(text, entry, at)
    &&& at + entry.len() < text.len()
    &&& is_separator(text[at + entry.len()])
}

/// A sequence with one more element holds what it held before and that
/// element.
proof fn lemma_push_contains(s: Seq<Seq<char>>, x: Seq<char>, e: Seq<char>)
    ensures
        s.push(x).contains(e) <==> s.contains(e) || e == x,
{
    let t = s.push(x);
    if s.contains(e) {
        let i = choose|i: int| 0 <= i < s.len() && s[i] == e;
        assert(t[i] == e);
    }
    if e == x {
        assert(t[s.len() as int] == e);
    }
    if t.contains(e) {
        let i = choose|i: int| 0 <= i < t.len() && t[i] == e;
        assert(i < s.len() ==> s[i] == e);
    }
}

/// Two runs that end at the same place are one run.
proof fn lemma_runs_that_end_together(
    text: Seq<char>,
    first: Seq<char>,
    at: int,
    second: Seq<char>,
    start: int,
)
    requires
        is_run_at(text, first, at),
        is_run_at(text, second, start),
        at + first.len() == start + second.len(),
    ensures
        first == second,
        at == start,
{
    if at < start {
        assert(!is_separator(first[start - 1 - at]));
    }
    if start < at {
        assert(!is_separator(second[at - 1 - start]));
    }
}

/// What a scan holds: its run is the run that the text ends in, and the
/// entries that have ended are the runs that a separator ends.
proof fn lemma_scan(text: Seq<char>)
    ensures
        ({
            let scan = scan_of(text);
            &&& scan.run.len() > 0 ==> is_run_at(text, scan.run, text.len() - scan.run.len())
            &&& scan.run.len() == 0 ==> text.len() == 0 || is_separator(text.last())
            &&& forall|entry: Seq<char>|
                scan.ended.contains(entry) <==> exists|at: int| is_ended_at(text, entry, at)
        }),
    decreases text.len(),
{
    let scan = scan_of(text);
    if text.len() > 0 {
        let shorter = text.drop_last();
        let before = scan_of(shorter);
        let c = text.last();
        let n = text.len() as int;
        let start = shorter.len() - before.run.len();
        lemma_scan(shorter);
        if before.run.len() > 0 {
            assert(text.subrange(start, start + before.run.len()) =~= shorter.subrange(
                start,
                start + before.run.len(),
            ));
        }
        if !is_separator(c) {
            let run = scan.run;
            let at = n - run.len();
            assert(run =~= text.subrange(at, n));
            assert forall|k: int| 0 <= k < run.len() implies !is_separator(#[trigger] run[k]) by {
                assert(k < before.run.len() ==> run[k] == before.run[k]);
            }
        }
        assert forall|entry: Seq<char>|
            scan.ended.contains(entry) <==> exists|at: int| is_ended_at(text, entry, at) by {
            if is_separator(c) && before.run.len() > 0 {
                lemma_push_contains(before.ended, before.run, entry);
            }
            if scan.ended.contains(entry) {
                if before.ended.contains(entry) {
                    let at = choose|at: int| is_ended_at(shorter, entry, at);
                    assert(text.subrange(at, at + entry.len()) =~= shorter.subrange(
                        at,
                        at + entry.len(),
                    ));
                    assert(is_ended_at(text, entry, at));
                } else {
                    assert(is_ended_at(text, entry, start));
                }
            }
            if exists|at: int| is_ended_at(text, entry, at) {
                let at = choose|at: int| is_ended_at(text, entry, at);
                if at + entry.len() < n - 1 {
                    assert(shorter.subrange(at, at + entry.len()) =~= text.subrange(
                        at,
                        at + entry.len(),
                    ));
                    assert(is_ended_at(shorter, entry, at));
                } else if before.run.len() > 0 {
                    lemma_runs_that_end_together(text, entry, at, before.run, start);
                } else {
                    assert(!is_separator(entry[entry.len() - 1]));
                }
            }
        }
    }
}

/// The entries of a listing are exactly its whole entries: the runs of
/// characters that are no separators, each between separators or the ends
/// of the text.
pub proof fn lemma_listing_entries(text: Seq<char>)
    ensures
        forall|entry: Seq<char>|
            #[trigger] listing_entries(text).contains(entry) <==> is_entry(text, entry),
{
    let scan = scan_of(text);
    let n = text.len() as int;
    lemma_scan(text);
    assert forall|entry: Seq<char>|
        #[trigger] listing_entries(text).contains(entry) <==> is_entry(text, entry) by {
        if scan.run.len() > 0 {
            lemma_push_contains(scan.ended, scan.run, entry);
        }
        if listing_entries(text).contains(entry) {
            if scan.ended.contains(entry) {
                let at = choose|at: int| is_ended_at(text, entry, at);
                assert(is_entry_at(text, entry, at));
            } else {
                assert(is_entry_at(text, entry, n - scan.run.len()));
            }
        }
        if is_entry(text, entry) {
            let at = choose|at: int| is_entry_at(text, entry, at);
            if at + entry.len() == n {
                if scan.run.len() > 0 {
                    lemma_runs_that_end_together(
                        text,
                        entry,
                        at,
                        scan.run,
                        n - scan.run.len(),
                    );
                } else {
                    assert(!is_separator(entry[entry.len() - 1]));
                }
            } else {
                assert(is_ended_at(text, entry, at));
            }
        }
    }
}

/// Reads the entries of a listing.
pub fn parse_listing(text: &str) -> (entries: Vec<String>)
    ensures
        names_of(entries@) == listing_entries(text@),
{
    let mut ended: Vec<String> = Vec::new();
    let mut run = String::new();
    let chars = text.chars();
    for c in it: chars
        invariant
            it.seq() == text@,
            names_of(ended@) == scan_of(text@.take(it.index() as int)).ended,
            run@ == scan_of(text@.take(it.index() as int)).run,
    {
        proof {
            let n = it.index() as int;
            assert(text@.take(n + 1).drop_last() =~= text@.take(n));
        }
        if c == ',' || c == ' ' || c == '\t' || c == '\n' || c == '\r' {
            if !run.as_str().is_empty() {
                ended.push(run);
                run = String::new();
            }
        } else {
            run.push(c);
        }
    }
    proof {
        assert(text@.take(text@.len() as int) =~= text@);
    }
    if !run.as_str().is_empty() {
        ended.push(run);
    }
    ended
}

/// Whether a listing holds `command` as one of its entries.
pub fn listing_names(text: &str, command: &str) -> (listed: bool)
    ensures
        listed == listing_entries(text@).contains(command@),
        listed == is_entry(text@, command@),
{
    let entries = parse_listing(text);
    let wanted = command.to_owned();
    let mut i: usize = 0;
    while i < entries.len()
        invariant
            i <= entries.len(),
            wanted@ == command@,
            names_of(entries@) == listing_entries(text@),
            forall|k: int| 0 <= k < i ==> listing_entries(text@)[k] != command@,
        decreases entries.len() - i,
    {
        proof {
            assert(names_of(entries@)[i as int] == entries@[i as int]@);
        }
        if entries[i] == wanted {
            proof {
                lemma_listing_entries(text@);
            }
            return true;
        }
        i += 1;
    }
    proof {
        assert(!listing_entries(text@).contains(command@));
        lemma_listing_entries(text@);
    }
    false
}

} // verus!
