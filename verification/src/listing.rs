//! What the enumeration of a directory contributes to a removal: the
//! lines that name its entries, or the failure that stops it.

use vstd::prelude::*;
use crate::types::{views, Entry, EntryView, Failure, FailureView};
use crate::wording::{entry_line, entry_text};

verus! {

/// The failure of the first entry that could not be read, if there is
/// one.
pub open spec fn earliest_failure(entries: Seq<EntryView>) -> Option<FailureView>
    decreases entries.len(),
{
    if entries.len() == 0 {
        None
    } else {
        match earliest_failure(entries.drop_last()) {
            Some(failure) => Some(failure),
            None => match entries.last() {
                EntryView::Unreadable(failure) => Some(failure),
                _ => None,
            },
        }
    }
}

/// One line for each entry that was read, in the order of the entries;
/// the entries that could not be read have none.
pub open spec fn entry_texts(entries: Seq<EntryView>) -> Seq<Seq<char>>
    decreases entries.len(),
{
    if entries.len() == 0 {
        Seq::empty()
    } else {
        let before = entry_texts(entries.drop_last());
        match entries.last() {
            EntryView::File(path) => before.push(entry_text(path, false)),
            EntryView::Directory(path) => before.push(entry_text(path, true)),
            EntryView::Unreadable(_) => before,
        }
    }
}

/// The failure of the first entry that could not be read, if there is
/// one.
pub fn first_unreadable(entries: &Vec<Entry>) -> (found: Option<&Failure>)
    ensures
        match found {
            Some(failure) => earliest_failure(views(entries@)) == Some(failure@),
            None => earliest_failure(views(entries@)) is None,
        },
{
    let ghost all = views(entries@);
    let mut i: usize = 0;
    while i < entries.len()
        invariant
            i <= entries.len(),
            all == views(entries@),
            earliest_failure(all.take(i as int)) is None,
        decreases entries.len() - i,
    {
        assert(all.take(i + 1).drop_last() =~= all.take(i as int));
        match &entries[i] {
            Entry::Unreadable(failure) => {
                proof {
                    lemma_earliest_failure_stays(all.take(i + 1), all);
                }
                return Some(failure);
            },
            _ => {},
        }
        i += 1;
    }
    assert(all.take(i as int) =~= all);
    None
}

/// One line for each entry that was read, in the order of the entries.
pub fn entry_lines(entries: &Vec<Entry>) -> (lines: Vec<String>)
    ensures
        views(lines@) == entry_texts(views(entries@)),
{
    let ghost all = views(entries@);
    let mut lines: Vec<String> = Vec::new();
    let mut i: usize = 0;
    while i < entries.len()
        invariant
            i <= entries.len(),
            all == views(entries@),
            views(lines@) == entry_texts(all.take(i as int)),
        decreases entries.len() - i,
    {
        assert(all.take(i + 1).drop_last() =~= all.take(i as int));
        match &entries[i] {
            Entry::File(path) => {
                lines.push(entry_line(path.as_str(), false));
            },
            Entry::Directory(path) => {
                lines.push(entry_line(path.as_str(), true));
            },
            Entry::Unreadable(_) => {},
        }
        i += 1;
    }
    assert(all.take(i as int) =~= all);
    lines
}

/// A failure found among the first entries is still the earliest one
/// when more entries follow.
proof fn lemma_earliest_failure_stays(head: Seq<EntryView>, all: Seq<EntryView>)
    requires
        head.len() <= all.len(),
        head =~= all.take(head.len() as int),
        earliest_failure(head) is Some,
    ensures
        earliest_failure(all) == earliest_failure(head),
    decreases all.len() - head.len(),
{
    if head.len() < all.len() {
        let longer = all.take(head.len() as int + 1);
        assert(longer.drop_last() =~= head);
        lemma_earliest_failure_stays(longer, all);
    } else {
        assert(head =~= all);
    }
}

} // verus!
