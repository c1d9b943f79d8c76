//! Putting directories ahead of the interpreter's own module search locations.
//!
//! The interpreter keeps an ordered list of directories and consults it from
//! the front. An entry is added by inserting it at the front of that list. The
//! caller lists entries in some order and chooses, with an [`OrderPolicy`],
//! what that order means. Under [`OrderPolicy::Stack`] the entries are inserted
//! in the order listed, so the one listed last is consulted first. Under
//! [`OrderPolicy::Preserve`] they are inserted last to first, so they are
//! consulted in the order listed. Either way every entry ends up ahead of the
//! locations that were there before.

use vstd::prelude::*;
use vstd::string::StringExecFns;
use crate::quoting::{ascii_nonzero, lemma_quoted_ascii, push_literal, quoted};

verus! {

/// What the listed order of search-path entries means.
#[derive(Clone, Copy, Debug, PartialEq, Eq)]
pub enum OrderPolicy {
    /// Insert in the order listed: the entry listed last is consulted first.
    Stack,
    /// Consult in the order listed: the entry listed first is consulted first.
    Preserve,
}

/// The list after each of `entries` was inserted at its front, one at a time,
/// first to last.
pub open spec fn inserted_at_front<A>(list: Seq<A>, entries: Seq<A>) -> Seq<A>
    decreases entries.len(),
{
    if entries.len() == 0 {
        list
    } else {
        inserted_at_front(list, entries.drop_last()).insert(0, entries.last())
    }
}

/// The order in which the listed entries are inserted at the front.
pub open spec fn insertion_order<A>(paths: Seq<A>, policy: OrderPolicy) -> Seq<A> {
    match policy {
        OrderPolicy::Stack => paths,
        OrderPolicy::Preserve => paths.reverse(),
    }
}

/// The order in which the listed entries are consulted.
pub open spec fn precedence<A>(paths: Seq<A>, policy: OrderPolicy) -> Seq<A> {
    match policy {
        OrderPolicy::Stack => paths.reverse(),
        OrderPolicy::Preserve => paths,
    }
}

/// The interpreter's search list once the listed entries were added to
/// `defaults` under `policy`.
pub open spec fn search_list<A>(defaults: Seq<A>, paths: Seq<A>, policy: OrderPolicy) -> Seq<A> {
    inserted_at_front(defaults, insertion_order(paths, policy))
}

/// Inserting entries at the front one at a time leaves them ahead of the
/// list, last inserted first.
pub proof fn lemma_inserted_at_front<A>(list: Seq<A>, entries: Seq<A>)
    ensures
        inserted_at_front(list, entries) == entries.reverse() + list,
    decreases entries.len(),
{
    if entries.len() > 0 {
        lemma_inserted_at_front(list, entries.drop_last());
    }
}

/// The search list is the listed entries in their order of precedence,
/// followed by the locations that were there before, unchanged.
pub proof fn lemma_search_list<A>(defaults: Seq<A>, paths: Seq<A>, policy: OrderPolicy)
    ensures
        search_list(defaults, paths, policy) == precedence(paths, policy) + defaults,
{
    lemma_inserted_at_front(defaults, insertion_order(paths, policy));
}

/// Of two listed entries, both end up ahead of every location that was there
/// before. Inserted one at a time in the order listed, the one listed later
/// comes to stand before the one listed earlier; when the listed order is
/// kept, the one listed earlier stays before the other.
pub proof fn lemma_listed_entries_precede_defaults<A>(
    defaults: Seq<A>,
    paths: Seq<A>,
    policy: OrderPolicy,
    earlier: int,
    later: int,
)
    requires
        0 <= earlier < later < paths.len(),
    ensures
        search_list(defaults, paths, policy).len() == paths.len() + defaults.len(),
        search_list(defaults, paths, policy).skip(paths.len() as int) == defaults,
        policy == OrderPolicy::Stack ==> {
            &&& search_list(defaults, paths, policy)[paths.len() - 1 - later] == paths[later]
            &&& search_list(defaults, paths, policy)[paths.len() - 1 - earlier] == paths[earlier]
        },
        policy == OrderPolicy::Preserve ==> {
            &&& search_list(defaults, paths, policy)[earlier] == paths[earlier]
            &&& search_list(defaults, paths, policy)[later] == paths[later]
        },
{
    lemma_search_list(defaults, paths, policy);
}

/// The statement that inserts `path` at the front of the search list.
pub open spec fn insert_line(path: Seq<char>) -> Seq<char> {
    "sys.path.insert(0, "@ + quoted(path) + ")\n"@
}

/// One inserting statement for each of `entries`, first to last.
pub open spec fn insert_lines(entries: Seq<Seq<char>>) -> Seq<char>
    decreases entries.len(),
{
    if entries.len() == 0 {
        Seq::empty()
    } else {
        insert_lines(entries.drop_last()) + insert_line(entries.last())
    }
}

/// The script that adds the listed entries to the search list under `policy`.
pub open spec fn setup_text(paths: Seq<Seq<char>>, policy: OrderPolicy) -> Seq<char> {
    "import sys\n"@ + insert_lines(insertion_order(paths, policy))
}

/// Inserting statements are plain ASCII without a zero character.
pub proof fn lemma_insert_lines_ascii(entries: Seq<Seq<char>>)
    ensures
        ascii_nonzero(insert_lines(entries)),
    decreases entries.len(),
{
    if entries.len() > 0 {
        lemma_insert_lines_ascii(entries.drop_last());
        lemma_quoted_ascii(entries.last());
        reveal_strlit("sys.path.insert(0, ");
        reveal_strlit(")\n");
    }
}

/// The setup script is plain ASCII without a zero character, whatever the
/// listed entries hold.
pub proof fn lemma_setup_text_ascii(paths: Seq<Seq<char>>, policy: OrderPolicy)
    ensures
        ascii_nonzero(setup_text(paths, policy)),
{
    lemma_insert_lines_ascii(insertion_order(paths, policy));
    reveal_strlit("import sys\n");
}

/// Writes the script that, run before the payload, adds the listed entries to
/// the interpreter's search list under `policy`.
pub fn setup_script(paths: &Vec<String>, policy: OrderPolicy) -> (script: String)
    ensures
        script@ == setup_text(paths.deep_view(), policy),
{
    let ghost order = insertion_order(paths.deep_view(), policy);
    let count: usize = paths.len();
    let mut script = String::from_str("import sys\n");
    let mut done: usize = 0;
    while done < count
        invariant
            count == paths.len(),
            done <= count,
            order == insertion_order(paths.deep_view(), policy),
            order.len() == count,
            script@ == "import sys\n"@ + insert_lines(order.take(done as int)),
        decreases count - done,
    {
        let index: usize = match policy {
            OrderPolicy::Stack => done,
            OrderPolicy::Preserve => count - 1 - done,
        };
        proof {
            assert(order.take(done + 1).drop_last() == order.take(done as int));
        }
        script.append("sys.path.insert(0, ");
        push_literal(&mut script, paths[index].as_str());
        script.append(")\n");
        done = done + 1;
    }
    proof {
        assert(order.take(count as int) == order);
    }
    script
}

} // verus!
