//! Finding the commit among the entries of a pack, in the order of arrival.

use crate::cat_file::entry::{Entry, EntryView};
use crate::cat_file::error::{Error, ErrorView};
use vstd::prelude::*;

verus! {

/// What the locator does after it was handed the decoder's next answer.
#[derive(Clone, Debug, PartialEq, Eq)]
pub enum LocateStep {
    /// The entry is no commit: ask for the next.
    Continue,
    /// The entry is a commit: stop here, with it.
    Found(Entry),
    /// The search is over without a commit.
    Failed(Error),
}

/// The mathematical value of a [`LocateStep`].
pub enum LocateStepView {
    Continue,
    Found(EntryView),
    Failed(ErrorView),
}

impl View for LocateStep {
    type V = LocateStepView;

    open spec fn view(&self) -> LocateStepView {
        match self {
            LocateStep::Continue => LocateStepView::Continue,
            LocateStep::Found(entry) => LocateStepView::Found(entry@),
            LocateStep::Failed(e) => LocateStepView::Failed(e@),
        }
    }
}

/// What the decoder yields for one entry: its descriptor, or the text of the
/// decoding failure.
pub type Item = Result<Entry, String>;

/// The mathematical value of an [`Item`].
pub type ItemView = Result<EntryView, Seq<char>>;

/// The value of an item.
pub open spec fn item_view(item: Item) -> ItemView {
    match item {
        Ok(entry) => Ok(entry@),
        Err(text) => Err(text@),
    }
}

/// The value of an answer of the decoder: an item, or nothing at the end.
pub open spec fn answer_view(answer: Option<Item>) -> Option<ItemView> {
    match answer {
        Some(item) => Some(item_view(item)),
        None => None,
    }
}

/// The values of a sequence of items.
pub open spec fn items_view(items: Seq<Item>) -> Seq<ItemView> {
    Seq::new(items.len(), |i: int| item_view(items[i]))
}

/// The value of a search's result.
pub open spec fn located_view(r: Result<Entry, Error>) -> Result<EntryView, ErrorView> {
    match r {
        Ok(entry) => Ok(entry@),
        Err(e) => Err(e@),
    }
}

/// Whether an item ends the search: a commit does, and so does a failure of
/// the decoder.
pub open spec fn decisive(item: ItemView) -> bool {
    match item {
        Ok(entry) => entry.is_commit(),
        Err(_) => true,
    }
}

/// The locator's step on the decoder's next answer.
pub open spec fn step_on(answer: Option<ItemView>) -> LocateStepView {
    match answer {
        None => LocateStepView::Failed(ErrorView::NoCommitFound),
        Some(Err(text)) => LocateStepView::Failed(ErrorView::IteratingPackEntries(text)),
        Some(Ok(entry)) => if entry.is_commit() {
            LocateStepView::Found(entry)
        } else {
            LocateStepView::Continue
        },
    }
}

/// The result of the search over all that the decoder yields: the first
/// commit in the order of arrival, unless the decoder fails before one, and
/// `NoCommitFound` if the entries end without one.
pub open spec fn located(items: Seq<ItemView>) -> Result<EntryView, ErrorView>
    decreases items.len(),
{
    if items.len() == 0 {
        Err(ErrorView::NoCommitFound)
    } else {
        match step_on(Some(items[0])) {
            LocateStepView::Continue => located(items.skip(1)),
            LocateStepView::Found(entry) => Ok(entry),
            LocateStepView::Failed(e) => Err(e),
        }
    }
}

/// Decides on one answer of the decoder. Each answer is looked at once, and a
/// commit ends the search at once.
pub fn locate_step(answer: Option<Item>) -> (step: LocateStep)
    ensures
        step@ == step_on(answer_view(answer)),
{
    match answer {
        None => LocateStep::Failed(Error::NoCommitFound),
        Some(Err(text)) => LocateStep::Failed(Error::IteratingPackEntries(text)),
        Some(Ok(entry)) => {
            if entry.is_commit() {
                LocateStep::Found(entry)
            } else {
                LocateStep::Continue
            }
        },
    }
}

/// Items that do not end the search at the head of a sequence do not change
/// its result.
pub proof fn lemma_located_skips(items: Seq<ItemView>, n: int)
    requires
        0 <= n <= items.len(),
        forall|j: int| 0 <= j < n ==> !decisive(#[trigger] items[j]),
    ensures
        located(items) == located(items.skip(n)),
    decreases n,
{
    if n == 0 {
        assert(items.skip(0) =~= items);
    } else {
        assert(!decisive(items[0]));
        let rest = items.skip(1);
        assert forall|j: int| 0 <= j < n - 1 implies !decisive(#[trigger] rest[j]) by {
            assert(rest[j] == items[j + 1]);
        }
        lemma_located_skips(rest, n - 1);
        assert(rest.skip(n - 1) =~= items.skip(n));
    }
}

/// Searches a recorded sequence of the decoder's answers for the commit.
pub fn locate(items: Vec<Item>) -> (r: Result<Entry, Error>)
    ensures
        located_view(r) == located(items_view(items@)),
{
    let ghost all = items_view(items@);
    for item in it: items
        invariant
            all == items_view(it.seq()),
            forall|j: int| 0 <= j < it.index() ==> !decisive(#[trigger] all[j]),
    {
        proof {
            lemma_located_skips(all, it.index() as int);
            assert(all.skip(it.index() as int)[0] == item_view(item));
        }
        match locate_step(Some(item)) {
            LocateStep::Continue => {},
            LocateStep::Found(entry) => {
                return Ok(entry);
            },
            LocateStep::Failed(e) => {
                return Err(e);
            },
        }
    }
    proof {
        lemma_located_skips(all, all.len() as int);
    }
    Err(Error::NoCommitFound)
}

/// The entries are looked at in the order of arrival: the first item that
/// ends the search decides its result, whatever comes after it.
pub proof fn lemma_first_decisive_decides(items: Seq<ItemView>, i: int)
    requires
        0 <= i < items.len(),
        forall|j: int| 0 <= j < i ==> !decisive(#[trigger] items[j]),
        decisive(items[i]),
    ensures
        located(items) == match items[i] {
            Ok(entry) => Ok::<EntryView, ErrorView>(entry),
            Err(text) => Err(ErrorView::IteratingPackEntries(text)),
        },
{
    lemma_located_skips(items, i);
    assert(items.skip(i)[0] == items[i]);
}

/// A pack that is decoded to its end and holds no commit gives
/// `NoCommitFound`.
pub proof fn lemma_no_commit_not_found(items: Seq<ItemView>)
    requires
        forall|j: int|
            0 <= j < items.len() ==> (#[trigger] items[j] matches Ok(entry) && !entry.is_commit()),
    ensures
        located(items) == Err::<EntryView, ErrorView>(ErrorView::NoCommitFound),
{
    assert forall|j: int| 0 <= j < items.len() implies !decisive(#[trigger] items[j]) by {
        assert(items[j] is Ok);
    }
    lemma_located_skips(items, items.len() as int);
}

/// An entry that the search returns is a commit among the items, and no item
/// before it is a commit or a failure.
pub proof fn lemma_found_is_first(items: Seq<ItemView>, entry: EntryView)
    requires
        located(items) == Ok::<EntryView, ErrorView>(entry),
    ensures
        entry.is_commit(),
        exists|i: int|
            0 <= i < items.len() && #[trigger] items[i] == Ok::<EntryView, Seq<char>>(entry) && (
            forall|j: int| 0 <= j < i ==> !decisive(#[trigger] items[j])),
    decreases items.len(),
{
    if items.len() > 0 {
        if decisive(items[0]) {
            assert(items[0] == Ok::<EntryView, Seq<char>>(entry));
        } else {
            let rest = items.skip(1);
            lemma_found_is_first(rest, entry);
            let k = choose|k: int|
                0 <= k < rest.len() && #[trigger] rest[k] == Ok::<EntryView, Seq<char>>(entry) && (
                forall|j: int| 0 <= j < k ==> !decisive(#[trigger] rest[j]));
            assert(items[k + 1] == rest[k]);
            assert forall|j: int| 0 <= j < k + 1 implies !decisive(#[trigger] items[j]) by {
                if j > 0 {
                    assert(items[j] == rest[j - 1]);
                }
            }
        }
    }
}

} // verus!
