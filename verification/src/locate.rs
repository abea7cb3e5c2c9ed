//! Choosing the `.tamu` file among the entries of a directory.

use crate::entry::{ErrorView, TamuError};
use crate::token::chars_of;
use vstd::prelude::*;

verus! {

/// One entry of a directory listing.
#[derive(Debug, Clone, PartialEq, Eq)]
pub struct DirItem {
    /// The entry's name within its directory: one path component.
    pub name: String,
    /// Whether the entry itself is a regular file, not a directory and not
    /// a link.
    pub regular: bool,
}

/// A `DirItem` with its name as a sequence of characters.
pub struct ItemView {
    pub name: Seq<char>,
    pub regular: bool,
}

impl View for DirItem {
    type V = ItemView;

    open spec fn view(&self) -> ItemView {
        ItemView { name: self.name@, regular: self.regular }
    }
}

impl DeepView for DirItem {
    type V = ItemView;

    open spec fn deep_view(&self) -> ItemView {
        self@
    }
}

/// The file name `name` has the extension `tamu`: it ends in `.tamu`, and
/// something stands before that dot.
pub open spec fn has_tamu_extension(name: Seq<char>) -> bool {
    name.len() > 5 && name.subrange(name.len() - 5, name.len() as int) == ".tamu"@
}

/// The entry may be the input: a regular file with the extension `tamu`.
pub open spec fn qualifies(item: ItemView) -> bool {
    item.regular && has_tamu_extension(item.name)
}

/// Whether the file name `name` has the extension `tamu`.
pub fn is_tamu_name(name: &str) -> (yes: bool)
    ensures
        yes == has_tamu_extension(name@),
{
    let v = chars_of(name);
    let n = v.len();
    proof {
        reveal_strlit(".tamu");
    }
    if n > 5 {
        let yes = v[n - 5] == '.' && v[n - 4] == 't' && v[n - 3] == 'a' && v[n - 2] == 'm' && v[n
            - 1] == 'u';
        proof {
            let tail = name@.subrange(n - 5, n as int);
            if yes {
                assert(tail =~= ".tamu"@);
            } else {
                assert(tail[0] == v[n - 5] && tail[1] == v[n - 4] && tail[2] == v[n - 3] && tail[3]
                    == v[n - 2] && tail[4] == v[n - 1]);
            }
        }
        yes
    } else {
        false
    }
}

/// The first position at or after `from` whose entry qualifies, or the
/// length of the listing where none follows.
pub open spec fn first_tamu(items: Seq<ItemView>, from: int) -> int
    decreases items.len() - from,
{
    if 0 <= from < items.len() && !qualifies(items[from]) {
        first_tamu(items, from + 1)
    } else {
        from
    }
}

/// The position of the input file in a listing, if it holds one.
pub open spec fn located(items: Seq<ItemView>) -> Option<int> {
    if first_tamu(items, 0) < items.len() {
        Some(first_tamu(items, 0))
    } else {
        None
    }
}

/// `first_tamu` stops in range, on an entry that qualifies, and passes over
/// entries that do not.
pub proof fn lemma_first_tamu(items: Seq<ItemView>, from: int)
    requires
        0 <= from <= items.len(),
    ensures
        from <= first_tamu(items, from) <= items.len(),
        first_tamu(items, from) < items.len() ==> qualifies(items[first_tamu(items, from)]),
        forall|i: int| from <= i < first_tamu(items, from) ==> !qualifies(#[trigger] items[i]),
    decreases items.len() - from,
{
    if from < items.len() && !qualifies(items[from]) {
        lemma_first_tamu(items, from + 1);
    }
}

/// Finds the input file in a directory listing: the position of the first
/// regular file whose extension is `tamu`, in the order of the listing.
///
/// Fails with `NotFound` where the listing holds no such file.
pub fn find_tamu(listing: &Vec<DirItem>) -> (result: Result<usize, TamuError>)
    ensures
        match result {
            Ok(index) => {
                &&& located(listing.deep_view()) == Some(index as int)
                &&& index < listing.len()
                &&& qualifies(listing[index as int]@)
                &&& forall|i: int| 0 <= i < index ==> !qualifies(#[trigger] listing[i]@)
            },
            Err(error) => {
                &&& located(listing.deep_view()) == None::<int>
                &&& error@ == ErrorView::NotFound
                &&& forall|i: int| 0 <= i < listing.len() ==> !qualifies(#[trigger] listing[i]@)
            },
        },
{
    let ghost all = listing.deep_view();
    for at in 0..listing.len()
        invariant
            all == listing.deep_view(),
            first_tamu(all, 0) == first_tamu(all, at as int),
    {
        assert(all[at as int] == listing[at as int]@);
        if listing[at].regular && is_tamu_name(listing[at].name.as_str()) {
            proof {
                lemma_first_tamu(all, 0);
                assert forall|i: int| 0 <= i < at implies !qualifies(#[trigger] listing[i]@) by {
                    assert(all[i] == listing[i]@);
                }
            }
            return Ok(at);
        }
    }
    proof {
        lemma_first_tamu(all, 0);
        assert forall|i: int| 0 <= i < listing.len() implies !qualifies(#[trigger] listing[i]@) by {
            assert(all[i] == listing[i]@);
        }
    }
    Err(TamuError::NotFound)
}

} // verus!
