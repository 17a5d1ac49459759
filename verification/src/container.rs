//! The scrollable record container and the generic cursor list: an
//! ordered collection with a selection index, a per-selection scroll
//! offset, and a stable, case-insensitive search filter over the
//! projected record text.

use vstd::prelude::*;
use vstd::seq_lib::*;

use crate::records::{clone_records, record_matches, recs_of, Record, RecordData};

verus! {

/// Where a bounded move from `i` by `step` lands in `[0, len-1]`.
pub open spec fn step_fwd(i: nat, step: nat, len: nat) -> nat
    recommends
        len > 0,
{
    if i + step >= len {
        (len - 1) as nat
    } else {
        i + step
    }
}

/// Where a bounded move back from `i` by `step` lands.
pub open spec fn step_back(i: nat, step: nat) -> nat {
    if i >= step {
        (i - step) as nat
    } else {
        0
    }
}

/// The records that stay visible under search query `q`: all of them
/// for the empty query, otherwise the matching ones in their original
/// order.
pub open spec fn filter_spec(rs: Seq<RecordData>, minimized: bool, q: Seq<char>) -> Seq<
    RecordData,
> {
    if q.len() == 0 {
        rs
    } else {
        rs.filter(|r: RecordData| record_matches(r, minimized, q))
    }
}

/// A saved cursor/scroll position of a container.
#[derive(Clone, Copy, PartialEq, Eq, Structural, Debug)]
pub struct Snapshot {
    pub cursor: Option<usize>,
    pub scroll: usize,
}

/// An ordered sequence of records with a selection index, a scroll
/// offset for the selected record, and the unfiltered sequence kept
/// aside while a search filter is active.
pub struct RecordContainer {
    pub items: Vec<Record>,
    pub default_items: Vec<Record>,
    pub cursor: Option<usize>,
    pub scroll: usize,
    pub max_scroll: usize,
}

impl RecordContainer {
    /// The selection index is present exactly when the container is
    /// non-empty, and always in range.
    pub open spec fn wf(self) -> bool {
        match self.cursor {
            Option::Some(i) => i < self.items@.len(),
            Option::None => self.items@.len() == 0,
        }
    }

    /// The selection index, zero when nothing is selected.
    pub open spec fn cursor_index(self) -> nat {
        match self.cursor {
            Option::Some(i) => i as nat,
            Option::None => 0,
        }
    }

    /// A fresh container over `items`: the first record selected when
    /// there is one, no filter, no scroll.
    pub fn with_items(items: Vec<Record>) -> (r: Self)
        ensures
            r.wf(),
            r.items == items,
            recs_of(r.default_items@) == recs_of(items@),
            r.cursor == if items@.len() == 0 {
                Option::<usize>::None
            } else {
                Option::Some(0usize)
            },
            r.scroll == 0,
            r.max_scroll == 0,
    {
        let cursor = if items.len() == 0 {
            Option::None
        } else {
            Option::Some(0)
        };
        let default_items = clone_records(&items);
        RecordContainer { items, default_items, cursor, scroll: 0, max_scroll: 0 }
    }

    /// Replaces the contents wholesale: selection back to the first
    /// record, filter and scroll discarded.
    pub fn replace(&mut self, items: Vec<Record>)
        ensures
            final(self).wf(),
            final(self).items == items,
            recs_of(final(self).default_items@) == recs_of(items@),
            final(self).cursor == if items@.len() == 0 {
                Option::<usize>::None
            } else {
                Option::Some(0usize)
            },
            final(self).scroll == 0,
            final(self).max_scroll == 0,
    {
        *self = Self::with_items(items);
    }

    /// Moves the selection forward by `step`, clamped to the last
    /// record; does nothing on an empty container; the scroll offset
    /// is reset whenever the selection actually moves.
    pub fn advance(&mut self, step: usize)
        requires
            old(self).wf(),
        ensures
            final(self).wf(),
            final(self).items == old(self).items,
            final(self).default_items == old(self).default_items,
            final(self).max_scroll == old(self).max_scroll,
            old(self).items@.len() == 0 ==> *final(self) == *old(self),
            old(self).items@.len() > 0 ==> final(self).cursor == Option::Some(
                step_fwd(old(self).cursor_index(), step as nat, old(self).items@.len()) as usize,
            ),
            final(self).scroll == if final(self).cursor == old(self).cursor {
                old(self).scroll as int
            } else {
                0
            },
    {
        match self.cursor {
            Option::None => {},
            Option::Some(i) => {
                let len = self.items.len();
                let target = if step >= len - i {
                    len - 1
                } else {
                    i + step
                };
                if target != i {
                    self.scroll = 0;
                }
                self.cursor = Option::Some(target);
            },
        }
    }

    /// Moves the selection back by `step`, clamped to the first
    /// record; does nothing on an empty container; the scroll offset
    /// is reset whenever the selection actually moves.
    pub fn retreat(&mut self, step: usize)
        requires
            old(self).wf(),
        ensures
            final(self).wf(),
            final(self).items == old(self).items,
            final(self).default_items == old(self).default_items,
            final(self).max_scroll == old(self).max_scroll,
            old(self).items@.len() == 0 ==> *final(self) == *old(self),
            old(self).items@.len() > 0 ==> final(self).cursor == Option::Some(
                step_back(old(self).cursor_index(), step as nat) as usize,
            ),
            final(self).scroll == if final(self).cursor == old(self).cursor {
                old(self).scroll as int
            } else {
                0
            },
    {
        match self.cursor {
            Option::None => {},
            Option::Some(i) => {
                let target = if i >= step {
                    i - step
                } else {
                    0
                };
                if target != i {
                    self.scroll = 0;
                }
                self.cursor = Option::Some(target);
            },
        }
    }

    /// Selects the first record, when there is one.
    pub fn select_first(&mut self)
        requires
            old(self).wf(),
        ensures
            final(self).wf(),
            final(self).items == old(self).items,
            final(self).default_items == old(self).default_items,
            final(self).max_scroll == old(self).max_scroll,
            old(self).items@.len() == 0 ==> *final(self) == *old(self),
            old(self).items@.len() > 0 ==> final(self).cursor == Option::Some(0usize),
            final(self).scroll == if final(self).cursor == old(self).cursor {
                old(self).scroll as int
            } else {
                0
            },
    {
        self.retreat(usize::MAX);
    }

    /// Selects the last record, when there is one.
    pub fn select_last(&mut self)
        requires
            old(self).wf(),
        ensures
            final(self).wf(),
            final(self).items == old(self).items,
            final(self).default_items == old(self).default_items,
            final(self).max_scroll == old(self).max_scroll,
            old(self).items@.len() == 0 ==> *final(self) == *old(self),
            old(self).items@.len() > 0 ==> final(self).cursor == Option::Some(
                (old(self).items@.len() - 1) as usize,
            ),
            final(self).scroll == if final(self).cursor == old(self).cursor {
                old(self).scroll as int
            } else {
                0
            },
    {
        let len = self.items.len();
        if len > 0 {
            self.advance(len - 1);
        }
    }

    /// The currently selected record; `None` exactly when empty.
    pub fn selected(&self) -> (r: Option<&Record>)
        requires
            self.wf(),
        ensures
            r is Some <==> self.cursor is Some,
            r is Some ==> self.cursor is Some && *r->0 == self.items@[self.cursor->0 as int],
    {
        match self.cursor {
            Option::Some(i) => Option::Some(&self.items[i]),
            Option::None => Option::None,
        }
    }

    /// Scrolls the selected record's lines down by `amount`,
    /// saturating at the container's current overflow bound.
    pub fn scroll_down(&mut self, amount: usize)
        ensures
            *final(self) == (RecordContainer {
                scroll: if old(self).scroll + amount > old(self).max_scroll {
                    old(self).max_scroll as int
                } else {
                    old(self).scroll + amount
                } as usize,
                ..*old(self)
            }),
    {
        if amount > self.max_scroll || self.scroll > self.max_scroll - amount {
            self.scroll = self.max_scroll;
        } else {
            self.scroll = self.scroll + amount;
        }
    }

    /// Scrolls the selected record's lines up by `amount`, never past
    /// the top.
    pub fn scroll_up(&mut self, amount: usize)
        ensures
            *final(self) == (RecordContainer {
                scroll: step_back(old(self).scroll as nat, amount as nat) as usize,
                ..*old(self)
            }),
    {
        if self.scroll >= amount {
            self.scroll = self.scroll - amount;
        } else {
            self.scroll = 0;
        }
    }

    /// Records the overflow bound reported by the row builder and
    /// clamps the current scroll offset to it.
    pub fn set_max_scroll(&mut self, m: usize)
        ensures
            *final(self) == (RecordContainer {
                max_scroll: m,
                scroll: if old(self).scroll > m {
                    m as int
                } else {
                    old(self).scroll as int
                } as usize,
                ..*old(self)
            }),
    {
        self.max_scroll = m;
        if self.scroll > m {
            self.scroll = m;
        }
    }

    /// The saved cursor/scroll position of this container.
    pub fn snapshot(&self) -> (r: Snapshot)
        ensures
            r.cursor == self.cursor,
            r.scroll == self.scroll,
    {
        Snapshot { cursor: self.cursor, scroll: self.scroll }
    }

    /// Restores a saved cursor/scroll position, ignoring a cursor
    /// that no longer fits the current contents.
    pub fn restore(&mut self, s: Snapshot)
        requires
            old(self).wf(),
        ensures
            final(self).wf(),
            final(self).items == old(self).items,
            final(self).default_items == old(self).default_items,
            final(self).max_scroll == old(self).max_scroll,
            final(self).scroll == s.scroll,
            final(self).cursor == (match s.cursor {
                Option::Some(i) => if (i as int) < old(self).items@.len() {
                    Option::Some(i)
                } else {
                    old(self).cursor
                },
                Option::None => old(self).cursor,
            }),
    {
        match s.cursor {
            Option::Some(i) => {
                if i < self.items.len() {
                    self.cursor = Option::Some(i);
                }
            },
            Option::None => {},
        }
        self.scroll = s.scroll;
    }

    /// Sets the detail level of the selected record, in the visible
    /// sequence and, when no filter narrows it, in the unfiltered one
    /// too; does nothing when the container is empty.
    pub fn set_selected_detail(&mut self, d: crate::records::DetailLevel)
        requires
            old(self).wf(),
        ensures
            final(self).wf(),
            final(self).cursor == old(self).cursor,
            final(self).scroll == old(self).scroll,
            final(self).max_scroll == old(self).max_scroll,
            old(self).cursor is None ==> *final(self) == *old(self),
            old(self).cursor matches Some(i) ==> recs_of(final(self).items@) == recs_of(
                old(self).items@,
            ).update(
                i as int,
                (RecordData { detail: d, ..recs_of(old(self).items@)[i as int] }),
            ),
            old(self).cursor matches Some(i) ==> recs_of(final(self).default_items@) == (
            if old(self).items@.len() == old(self).default_items@.len() {
                recs_of(old(self).default_items@).update(
                    i as int,
                    (RecordData { detail: d, ..recs_of(old(self).default_items@)[i as int] }),
                )
            } else {
                recs_of(old(self).default_items@)
            }),
    {
        match self.cursor {
            Option::None => {},
            Option::Some(i) => {
                let mut rec = self.items[i].clone();
                rec.detail = d;
                proof {
                    crate::records::lemma_recs_index(self.items@, i as int);
                    assert(rec@ =~= (RecordData {
                        detail: d,
                        ..recs_of(old(self).items@)[i as int]
                    }));
                }
                vstd::pervasive::VecAdditionalExecFns::set(&mut self.items, i, rec);
                proof {
                    assert(recs_of(self.items@) =~= recs_of(old(self).items@).update(
                        i as int,
                        (RecordData { detail: d, ..recs_of(old(self).items@)[i as int] }),
                    ));
                }
                if self.items.len() == self.default_items.len() {
                    let mut dec = self.default_items[i].clone();
                    dec.detail = d;
                    proof {
                        crate::records::lemma_recs_index(self.default_items@, i as int);
                        assert(dec@ =~= (RecordData {
                            detail: d,
                            ..recs_of(old(self).default_items@)[i as int]
                        }));
                    }
                    vstd::pervasive::VecAdditionalExecFns::set(&mut self.default_items, i, dec);
                    proof {
                        assert(recs_of(self.default_items@) =~= recs_of(
                            old(self).default_items@,
                        ).update(
                            i as int,
                            (RecordData {
                                detail: d,
                                ..recs_of(old(self).default_items@)[i as int]
                            }),
                        ));
                    }
                }
            },
        }
    }

    /// Sets the detail level of every record, visible and unfiltered
    /// alike.
    pub fn set_all_detail(&mut self, d: crate::records::DetailLevel)
        requires
            old(self).wf(),
        ensures
            final(self).wf(),
            final(self).cursor == old(self).cursor,
            final(self).scroll == old(self).scroll,
            final(self).max_scroll == old(self).max_scroll,
            recs_of(final(self).items@) == recs_of(old(self).items@).map_values(
                |r: RecordData| (RecordData { detail: d, ..r }),
            ),
            recs_of(final(self).default_items@) == recs_of(old(self).default_items@).map_values(
                |r: RecordData| (RecordData { detail: d, ..r }),
            ),
    {
        set_details(&mut self.items, d);
        set_details(&mut self.default_items, d);
        proof {
            assert(recs_of(self.items@).len() == self.items@.len());
            assert(recs_of(old(self).items@).len() == old(self).items@.len());
        }
    }

    /// Recomputes the visible set from the unfiltered records: a
    /// record stays visible iff its projected text contains the
    /// folded query; order is preserved; the selection is reset.
    pub fn apply_filter(&mut self, minimized: bool, q: &str)
        ensures
            final(self).wf(),
            final(self).default_items == old(self).default_items,
            final(self).max_scroll == old(self).max_scroll,
            recs_of(final(self).items@) == filter_spec(
                recs_of(old(self).default_items@),
                minimized,
                q@,
            ),
            final(self).scroll == 0,
            final(self).cursor == if recs_of(final(self).items@).len() == 0 {
                Option::<usize>::None
            } else {
                Option::Some(0usize)
            },
    {
        let ghost all = recs_of(self.default_items@);
        let ghost pred = |r: RecordData| record_matches(r, minimized, q@);
        let mut kept: Vec<Record> = Vec::new();
        let empty_query = q.unicode_len() == 0;
        let mut i: usize = 0;
        while i < self.default_items.len()
            invariant
                all == recs_of(self.default_items@),
                pred == (|r: RecordData| record_matches(r, minimized, q@)),
                empty_query == (q@.len() == 0),
                i <= self.default_items@.len(),
                recs_of(kept@) == filter_spec(all.take(i as int), minimized, q@),
            decreases self.default_items@.len() - i,
        {
            let keep = if empty_query {
                true
            } else {
                self.default_items[i].matches_query(minimized, q)
            };
            proof {
                crate::records::lemma_recs_index(self.default_items@, i as int);
                assert(all[i as int] == self.default_items@[i as int]@);
            }
            let ghost kept_prev = kept@;
            if keep {
                kept.push(self.default_items[i].clone());
                proof {
                    assert(kept@ == kept_prev.push(kept@.last()));
                    crate::records::lemma_recs_push(kept_prev, kept@.last());
                    assert(kept@.last()@ == all[i as int]);
                }
            }
            proof {
                let prefix = all.take(i as int);
                assert(all.take(i + 1) =~= prefix + seq![all[i as int]]);
                if q@.len() > 0 {
                    Seq::<RecordData>::filter_distributes_over_add(
                        prefix,
                        seq![all[i as int]],
                        pred,
                    );
                    reveal_with_fuel(Seq::filter, 3);
                    assert(seq![all[i as int]].drop_last() =~= Seq::<RecordData>::empty());
                    if pred(all[i as int]) {
                        assert(seq![all[i as int]].filter(pred) =~= seq![all[i as int]]);
                    } else {
                        assert(seq![all[i as int]].filter(pred) =~= Seq::<RecordData>::empty());
                    }
                    if keep {
                        assert(recs_of(kept@) =~= filter_spec(prefix, minimized, q@) + seq![
                            all[i as int],
                        ]);
                    } else {
                        assert(recs_of(kept@) =~= filter_spec(prefix, minimized, q@));
                    }
                    assert(recs_of(kept@) =~= filter_spec(all.take(i + 1), minimized, q@));
                } else {
                    assert(recs_of(kept@) =~= all.take(i + 1));
                }
            }
            i += 1;
        }
        proof {
            assert(all.take(all.len() as int) =~= all);
        }
        let new_cursor = if kept.len() == 0 {
            Option::None
        } else {
            Option::Some(0)
        };
        self.items = kept;
        self.cursor = new_cursor;
        self.scroll = 0;
    }

    /// Restores the unfiltered view: `items` becomes the unfiltered
    /// sequence again, in its original order.
    pub fn clear_filter(&mut self)
        ensures
            final(self).wf(),
            final(self).default_items == old(self).default_items,
            final(self).max_scroll == old(self).max_scroll,
            recs_of(final(self).items@) == recs_of(old(self).default_items@),
            final(self).scroll == 0,
            final(self).cursor == if old(self).default_items@.len() == 0 {
                Option::<usize>::None
            } else {
                Option::Some(0usize)
            },
    {
        let restored = clone_records(&self.default_items);
        let new_cursor = if restored.len() == 0 {
            Option::None
        } else {
            Option::Some(0)
        };
        self.items = restored;
        self.cursor = new_cursor;
        self.scroll = 0;
    }
}

/// Sets the detail level of every record in `v`.
fn set_details(v: &mut Vec<Record>, d: crate::records::DetailLevel)
    ensures
        recs_of(final(v)@) == recs_of(old(v)@).map_values(
            |r: RecordData| (RecordData { detail: d, ..r }),
        ),
{
    let ghost goal = recs_of(old(v)@).map_values(|r: RecordData| (RecordData { detail: d, ..r }));
    let mut i: usize = 0;
    while i < v.len()
        invariant
            goal == recs_of(old(v)@).map_values(|r: RecordData| (RecordData { detail: d, ..r })),
            i <= v@.len(),
            v@.len() == old(v)@.len(),
            forall|j: int| 0 <= j < i ==> recs_of(v@)[j] == goal[j],
            forall|j: int| i <= j < v@.len() ==> v@[j] == old(v)@[j],
        decreases v@.len() - i,
    {
        let mut rec = v[i].clone();
        rec.detail = d;
        proof {
            crate::records::lemma_recs_index(old(v)@, i as int);
            assert(rec@ =~= (RecordData { detail: d, ..recs_of(old(v)@)[i as int] }));
        }
        let ghost v_prev = v@;
        vstd::pervasive::VecAdditionalExecFns::set(v, i, rec);
        proof {
            assert forall|j: int| 0 <= j < i + 1 implies recs_of(v@)[j] == goal[j] by {
                crate::records::lemma_recs_index(v@, j);
                if j < i {
                    crate::records::lemma_recs_index(v_prev, j);
                    assert(v@[j] == v_prev[j]);
                    assert(recs_of(v_prev)[j] == goal[j]);
                } else {
                    assert(v@[j] == rec);
                }
            }
        }
        i += 1;
    }
    proof {
        assert forall|j: int| 0 <= j < v@.len() implies recs_of(v@)[j] == goal[j] by {}
        assert(recs_of(v@) =~= goal);
    }
}

/// Wherever a bounded move starts and however large its step, it
/// lands inside `[0, len - 1]`: navigation can never select past the
/// ends of a non-empty container.
pub proof fn lemma_step_bounds(i: nat, step: nat, len: nat)
    requires
        len > 0,
        i < len,
    ensures
        step_fwd(i, step, len) < len,
        step_back(i, step) < len,
        step_back(i, step) <= i,
        step_fwd(i, step, len) >= i,
{
}

/// Filtering and then clearing the search restores the visible
/// records to an order-preserving identity with the unfiltered ones,
/// whatever the filter string was.
pub proof fn lemma_filter_then_clear_identity(
    rs: Seq<RecordData>,
    minimized: bool,
    q: Seq<char>,
)
    ensures
        filter_spec(rs, minimized, Seq::<char>::empty()) == rs,
        filter_spec(rs, minimized, q).len() <= rs.len(),
        forall|i: int|
            0 <= i < filter_spec(rs, minimized, q).len() ==> (q.len() > 0 ==> record_matches(
                #[trigger] filter_spec(rs, minimized, q)[i],
                minimized,
                q,
            )),
{
    if q.len() > 0 {
        let pred = |r: RecordData| record_matches(r, minimized, q);
        rs.lemma_filter_len(pred);
        assert forall|i: int| 0 <= i < filter_spec(rs, minimized, q).len() implies (q.len() > 0
            ==> record_matches(filter_spec(rs, minimized, q)[i], minimized, q)) by {
            rs.lemma_filter_pred(pred, i);
        }
    }
}

/// An ordered list of arbitrary entries with a clamped cursor; used
/// for the options overlay and the help list.
pub struct CursorList<T> {
    pub items: Vec<T>,
    pub cursor: Option<usize>,
}

impl<T> CursorList<T> {
    /// The cursor is present exactly when the list is non-empty, and
    /// always in range.
    pub open spec fn wf(self) -> bool {
        match self.cursor {
            Option::Some(i) => i < self.items@.len(),
            Option::None => self.items@.len() == 0,
        }
    }

    /// The cursor position, zero when nothing is selected.
    pub open spec fn cursor_index(self) -> nat {
        match self.cursor {
            Option::Some(i) => i as nat,
            Option::None => 0,
        }
    }

    /// A fresh list with the first entry selected, when there is one.
    pub fn with_items(items: Vec<T>) -> (r: Self)
        ensures
            r.wf(),
            r.items == items,
            r.cursor == if items@.len() == 0 {
                Option::<usize>::None
            } else {
                Option::Some(0usize)
            },
    {
        let cursor = if items.len() == 0 {
            Option::None
        } else {
            Option::Some(0)
        };
        CursorList { items, cursor }
    }

    /// Moves the cursor forward by one, clamped to the last entry.
    pub fn advance(&mut self)
        requires
            old(self).wf(),
        ensures
            final(self).wf(),
            final(self).items == old(self).items,
            old(self).items@.len() == 0 ==> *final(self) == *old(self),
            old(self).items@.len() > 0 ==> final(self).cursor == Option::Some(
                step_fwd(old(self).cursor_index(), 1, old(self).items@.len()) as usize,
            ),
    {
        match self.cursor {
            Option::None => {},
            Option::Some(i) => {
                let len = self.items.len();
                if i < len - 1 {
                    self.cursor = Option::Some(i + 1);
                }
            },
        }
    }

    /// Moves the cursor back by one, clamped to the first entry.
    pub fn retreat(&mut self)
        requires
            old(self).wf(),
        ensures
            final(self).wf(),
            final(self).items == old(self).items,
            old(self).items@.len() == 0 ==> *final(self) == *old(self),
            old(self).items@.len() > 0 ==> final(self).cursor == Option::Some(
                step_back(old(self).cursor_index(), 1) as usize,
            ),
    {
        match self.cursor {
            Option::None => {},
            Option::Some(i) => {
                if i > 0 {
                    self.cursor = Option::Some(i - 1);
                }
            },
        }
    }

    /// Selects the first entry, when there is one.
    pub fn select_first(&mut self)
        requires
            old(self).wf(),
        ensures
            final(self).wf(),
            final(self).items == old(self).items,
            old(self).items@.len() == 0 ==> *final(self) == *old(self),
            old(self).items@.len() > 0 ==> final(self).cursor == Option::Some(0usize),
    {
        if self.items.len() > 0 {
            self.cursor = Option::Some(0);
        }
    }

    /// Selects the last entry, when there is one.
    pub fn select_last(&mut self)
        requires
            old(self).wf(),
        ensures
            final(self).wf(),
            final(self).items == old(self).items,
            old(self).items@.len() == 0 ==> *final(self) == *old(self),
            old(self).items@.len() > 0 ==> final(self).cursor == Option::Some(
                (old(self).items@.len() - 1) as usize,
            ),
    {
        if self.items.len() > 0 {
            self.cursor = Option::Some(self.items.len() - 1);
        }
    }

    /// Moves the cursor to `i` when that is a valid entry.
    pub fn select(&mut self, i: usize)
        requires
            old(self).wf(),
        ensures
            final(self).wf(),
            final(self).items == old(self).items,
            (i as int) < old(self).items@.len() ==> final(self).cursor == Option::Some(i),
            (i as int) >= old(self).items@.len() ==> final(self).cursor == old(self).cursor,
    {
        if i < self.items.len() {
            self.cursor = Option::Some(i);
        }
    }

    /// The entry under the cursor; `None` exactly when empty.
    pub fn selected(&self) -> (r: Option<&T>)
        requires
            self.wf(),
        ensures
            r is Some <==> self.cursor is Some,
            r is Some ==> self.cursor is Some && *r->0 == self.items@[self.cursor->0 as int],
    {
        match self.cursor {
            Option::Some(i) => Option::Some(&self.items[i]),
            Option::None => Option::None,
        }
    }
}

} // verus!
