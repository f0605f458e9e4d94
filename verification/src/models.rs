//! Records that a list selects by identifier, and the click rules that the
//! tab bar and the record lists share.

use vstd::prelude::*;

verus! {

/// A record that a selectable list can show. Its identifier stays the same
/// when the list is reordered or filtered, and says nothing about what the
/// record displays.
pub trait Id {
    /// The identifier, as contracts see it.
    spec fn id_value(&self) -> usize;

    /// The identifier of the record.
    fn id(&self) -> (id: usize)
        ensures
            id == self.id_value(),
    ;
}

/// The selection of a list that shows no record.
pub const NO_SELECTION: usize = 0;

/// The identifiers of `records`, in list order.
pub open spec fn ids_of<T: Id>(records: Seq<T>) -> Seq<usize> {
    Seq::new(records.len(), |i: int| records[i].id_value())
}

/// The position of the last flag that is set among the first `upto` flags,
/// or -1 where none of them is set. Positions past the end of `flags` count
/// as not set.
pub open spec fn last_set(flags: Seq<bool>, upto: int) -> int
    decreases upto,
{
    if upto <= 0 {
        -1
    } else if upto <= flags.len() && flags[upto - 1] {
        upto - 1
    } else {
        last_set(flags, upto - 1)
    }
}

/// The selection once it has been held against the identifiers on show: it
/// stays where some record carries it, falls to the first record otherwise,
/// and to [`NO_SELECTION`] where there is no record at all.
pub open spec fn resolve(ids: Seq<usize>, selected: usize) -> usize {
    if ids.contains(selected) {
        selected
    } else if ids.len() > 0 {
        ids[0]
    } else {
        NO_SELECTION
    }
}

/// The selection after one frame's clicks: the identifier of the last record
/// whose label was clicked, or the selection as it was where none was.
/// `clicks[i]` tells whether the label of record `i` was clicked.
pub open spec fn pick(ids: Seq<usize>, clicks: Seq<bool>, selected: usize) -> usize {
    let hit = last_set(clicks, ids.len() as int);
    if hit >= 0 {
        ids[hit]
    } else {
        selected
    }
}

/// Whether `selected` names a record on show, or is [`NO_SELECTION`] over an
/// empty list.
pub open spec fn selection_valid(ids: Seq<usize>, selected: usize) -> bool {
    if ids.len() == 0 {
        selected == NO_SELECTION
    } else {
        ids.contains(selected)
    }
}

/// `last_set` is the greatest position below `upto` whose flag is set.
pub proof fn lemma_last_set(flags: Seq<bool>, upto: int)
    ensures
        -1 <= last_set(flags, upto),
        last_set(flags, upto) >= 0 ==> last_set(flags, upto) < upto && last_set(flags, upto)
            < flags.len() && flags[last_set(flags, upto)],
        forall|j: int|
            last_set(flags, upto) < j < upto && 0 <= j < flags.len() ==> !#[trigger] flags[j],
    decreases upto,
{
    if upto > 0 && !(upto <= flags.len() && flags[upto - 1]) {
        lemma_last_set(flags, upto - 1);
    }
}

/// Flags past the end of the sequence do not matter.
pub proof fn lemma_last_set_past_end(flags: Seq<bool>, upto: int)
    requires
        flags.len() <= upto,
    ensures
        last_set(flags, upto) == last_set(flags, flags.len() as int),
    decreases upto,
{
    if flags.len() < upto {
        lemma_last_set_past_end(flags, upto - 1);
    }
}

/// A flag that is set below `upto` is at or before the last one set.
pub proof fn lemma_last_set_at_least(flags: Seq<bool>, upto: int, at: int)
    requires
        0 <= at < upto,
        at < flags.len(),
        flags[at],
    ensures
        at <= last_set(flags, upto),
{
    lemma_last_set(flags, upto);
}

/// The position of the last flag set among the first `upto`, if there is one.
pub fn last_click(flags: &[bool], upto: usize) -> (hit: Option<usize>)
    ensures
        hit matches Some(i) ==> i as int == last_set(flags@, upto as int),
        hit is None ==> last_set(flags@, upto as int) == -1,
{
    let end: usize = if upto < flags.len() {
        upto
    } else {
        flags.len()
    };
    let mut hit: Option<usize> = None;
    let mut i: usize = 0;
    while i < end
        invariant
            i <= end,
            end <= flags@.len(),
            hit matches Some(k) ==> k as int == last_set(flags@, i as int),
            hit is None ==> last_set(flags@, i as int) == -1,
        decreases end - i,
    {
        if flags[i] {
            hit = Some(i);
        }
        i = i + 1;
    }
    proof {
        if flags@.len() <= upto {
            lemma_last_set_past_end(flags@, upto as int);
        }
    }
    hit
}

/// Whether some record of the list carries the identifier `id`.
pub fn holds_id<T: Id>(records: &Vec<T>, id: usize) -> (found: bool)
    ensures
        found == ids_of(records@).contains(id),
{
    let mut i: usize = 0;
    while i < records.len()
        invariant
            i <= records@.len(),
            forall|j: int| 0 <= j < i ==> ids_of(records@)[j] != id,
        decreases records@.len() - i,
    {
        if records[i].id() == id {
            assert(ids_of(records@)[i as int] == id);
            return true;
        }
        i = i + 1;
    }
    false
}

/// Holds the selection against the records on show, so that it never names
/// a record that is gone: see [`resolve`].
pub fn reconcile<T: Id>(records: &Vec<T>, selected: usize) -> (kept: usize)
    ensures
        kept == resolve(ids_of(records@), selected),
        selection_valid(ids_of(records@), kept),
{
    if holds_id(records, selected) {
        selected
    } else if records.len() > 0 {
        let first: usize = records[0].id();
        assert(ids_of(records@)[0] == first);
        first
    } else {
        NO_SELECTION
    }
}

/// Applies one frame's clicks to the selection: see [`pick`].
pub fn select_clicked<T: Id>(records: &Vec<T>, clicks: &[bool], selected: usize) -> (chosen: usize)
    ensures
        chosen == pick(ids_of(records@), clicks@, selected),
        selection_valid(ids_of(records@), selected) ==> selection_valid(
            ids_of(records@),
            chosen,
        ),
{
    proof {
        lemma_last_set(clicks@, records@.len() as int);
    }
    match last_click(clicks, records.len()) {
        Some(i) => {
            let chosen: usize = records[i].id();
            assert(ids_of(records@)[i as int] == chosen);
            chosen
        },
        None => selected,
    }
}


/// A count of frames after one more frame. It stops at the greatest value
/// that a counter holds.
pub open spec fn ticked(frames: nat) -> nat {
    if frames < u64::MAX {
        frames + 1
    } else {
        frames
    }
}

/// Counts one more frame: see [`ticked`].
pub fn tick(frames: u64) -> (next: u64)
    ensures
        next as nat == ticked(frames as nat),
{
    if frames < u64::MAX {
        frames + 1
    } else {
        frames
    }
}

} // verus!
