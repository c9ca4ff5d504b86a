use vstd::prelude::*;

verus! {

/// The state of one job's progress indicator: how far the encode has come,
/// out of the expected total, under a display label.
pub struct EntryModel {
    pub label: Seq<char>,
    pub total_us: u64,
    pub position_us: u64,
}

/// The mathematical state of the multi-job display: one optional indicator
/// per handed-out handle, plus the optional aggregate counter.
#[verifier::ext_equal]
pub struct DisplayModel {
    pub entries: Seq<Option<EntryModel>>,
    pub overall_done: int,
    pub overall_total: int,
    pub overall_shown: bool,
}

/// What registering a new indicator does: appends it, at position zero.
pub open spec fn register_model(m: DisplayModel, label: Seq<char>, total_us: u64) -> DisplayModel {
    DisplayModel {
        entries: m.entries.push(Some(EntryModel { label, total_us, position_us: 0 })),
        ..m
    }
}

/// What a position update does: moves one live indicator, touches nothing
/// else; a removed or never-registered handle changes nothing.
pub open spec fn update_model(m: DisplayModel, h: int, position_us: u64) -> DisplayModel {
    if 0 <= h < m.entries.len() && m.entries[h] is Some {
        DisplayModel {
            entries: m.entries.update(
                h,
                Some(EntryModel { position_us, ..m.entries[h]->Some_0 }),
            ),
            ..m
        }
    } else {
        m
    }
}

/// What removal does: clears one slot, touches nothing else; a removed or
/// never-registered handle changes nothing.
pub open spec fn remove_model(m: DisplayModel, h: int) -> DisplayModel {
    if 0 <= h < m.entries.len() {
        DisplayModel { entries: m.entries.update(h, None), ..m }
    } else {
        m
    }
}

/// What one tick of the aggregate counter does, when it is shown.
pub open spec fn tick_model(m: DisplayModel) -> DisplayModel {
    if m.overall_shown && m.overall_done < m.overall_total {
        DisplayModel { overall_done: m.overall_done + 1, ..m }
    } else {
        m
    }
}

/// Law: removal is idempotent - removing an already-removed (or
/// never-registered) handle changes nothing, and a removal never touches any
/// other slot or the aggregate counter.
pub proof fn lemma_remove_idempotent(m: DisplayModel, h: int)
    ensures
        remove_model(remove_model(m, h), h) == remove_model(m, h),
        forall|i: int|
            0 <= i < m.entries.len() && i != h ==> remove_model(m, h).entries[i] == m.entries[i],
        remove_model(m, h).overall_done == m.overall_done,
        remove_model(m, h).overall_shown == m.overall_shown,
{
    if 0 <= h < m.entries.len() {
        assert(remove_model(remove_model(m, h), h).entries =~= remove_model(m, h).entries);
        assert(remove_model(remove_model(m, h), h) =~= remove_model(m, h));
    }
}

/// The multi-job progress display: per-job indicators registered by workers,
/// plus an aggregate "done so far" counter that is suppressed when every job
/// is visible at once (that is, when the job count equals the budget).
pub struct ProgressDisplay {
    entries: Vec<Option<Entry>>,
    overall_done: usize,
    overall_total: usize,
    overall_shown: bool,
}

struct Entry {
    label: String,
    total_us: u64,
    position_us: u64,
}

impl View for ProgressDisplay {
    type V = DisplayModel;

    closed spec fn view(&self) -> DisplayModel {
        DisplayModel {
            entries: Seq::new(
                self.entries@.len(),
                |i: int|
                    match self.entries@[i] {
                        Some(e) => Some(
                            EntryModel {
                                label: e.label@,
                                total_us: e.total_us,
                                position_us: e.position_us,
                            },
                        ),
                        None => None,
                    },
            ),
            overall_done: self.overall_done as int,
            overall_total: self.overall_total as int,
            overall_shown: self.overall_shown,
        }
    }
}

impl ProgressDisplay {
    /// A display for a run of `total_jobs` jobs under the given budget. The
    /// aggregate counter is shown unless every job runs at once.
    pub fn new(total_jobs: usize, budget: usize) -> (d: ProgressDisplay)
        ensures
            d@.entries =~= Seq::<Option<EntryModel>>::empty(),
            d@.overall_done == 0,
            d@.overall_total == total_jobs,
            d@.overall_shown == (total_jobs != budget),
    {
        ProgressDisplay {
            entries: Vec::new(),
            overall_done: 0,
            overall_total: total_jobs,
            overall_shown: total_jobs != budget,
        }
    }

    /// Create and show a new indicator; the returned handle names it from now
    /// on.
    pub fn register(&mut self, label: String, total_us: u64) -> (h: usize)
        ensures
            h == old(self)@.entries.len(),
            final(self)@ == register_model(old(self)@, label@, total_us),
    {
        let h = self.entries.len();
        self.entries.push(Some(Entry { label, total_us, position_us: 0 }));
        proof {
            assert(final(self)@.entries =~= register_model(old(self)@, label@, total_us).entries);
            assert(final(self)@ =~= register_model(old(self)@, label@, total_us));
        }
        h
    }

    /// Move a live indicator to a new position. Safe to call at any
    /// frequency and with any handle; a dead handle changes nothing.
    pub fn update(&mut self, h: usize, position_us: u64)
        ensures
            final(self)@ == update_model(old(self)@, h as int, position_us),
    {
        if h < self.entries.len() {
            if self.entries[h].is_some() {
                let e = &mut self.entries[h];
                match e {
                    Some(entry) => {
                        entry.position_us = position_us;
                    },
                    None => {},
                }
            }
        }
        proof {
            assert(final(self)@.entries =~= update_model(old(self)@, h as int, position_us).entries);
            assert(final(self)@ =~= update_model(old(self)@, h as int, position_us));
        }
    }

    /// Clear an indicator. Idempotent: clearing an already-cleared or
    /// never-registered handle changes nothing, and no other entry is ever
    /// affected.
    pub fn remove(&mut self, h: usize)
        ensures
            final(self)@ == remove_model(old(self)@, h as int),
    {
        if h < self.entries.len() {
            self.entries[h] = None;
        }
        proof {
            assert(final(self)@.entries =~= remove_model(old(self)@, h as int).entries);
            assert(final(self)@ =~= remove_model(old(self)@, h as int));
        }
    }

    /// Advance the aggregate counter by one completed job, when it is shown.
    pub fn tick_overall(&mut self)
        ensures
            final(self)@ == tick_model(old(self)@),
    {
        if self.overall_shown && self.overall_done < self.overall_total {
            self.overall_done = self.overall_done + 1;
        }
        proof {
            assert(final(self)@ =~= tick_model(old(self)@));
        }
    }

    /// The position of the indicator behind a handle, if it is live.
    pub fn position_of(&self, h: usize) -> (r: Option<u64>)
        ensures
            (h < self@.entries.len() && self@.entries[h as int] is Some) ==> r == Some(
                self@.entries[h as int]->Some_0.position_us,
            ),
            !(h < self@.entries.len() && self@.entries[h as int] is Some) ==> r is None,
    {
        if h < self.entries.len() {
            match &self.entries[h] {
                Some(e) => Some(e.position_us),
                None => None,
            }
        } else {
            None
        }
    }

    /// How many jobs the aggregate counter reports done, and out of how many.
    pub fn overall_progress(&self) -> (r: (usize, usize))
        ensures
            r.0 == self@.overall_done,
            r.1 == self@.overall_total,
    {
        (self.overall_done, self.overall_total)
    }

    pub fn overall_is_shown(&self) -> (r: bool)
        ensures
            r == self@.overall_shown,
    {
        self.overall_shown
    }

    /// How many indicators are currently live.
    pub fn live_entries(&self) -> (r: usize)
        ensures
            r as int == live_count(self@.entries, self@.entries.len() as int),
    {
        let mut count: usize = 0;
        let mut i: usize = 0;
        while i < self.entries.len()
            invariant
                i <= self@.entries.len(),
                self@.entries.len() == self.entries@.len(),
                count as int == live_count(self@.entries, i as int),
                count <= i,
            decreases self.entries@.len() - i,
        {
            if self.entries[i].is_some() {
                count = count + 1;
            }
            i += 1;
        }
        count
    }
}

/// Number of live indicators among the first `upto` slots.
pub open spec fn live_count(s: Seq<Option<EntryModel>>, upto: int) -> int
    decreases upto,
{
    if upto <= 0 {
        0
    } else {
        live_count(s, upto - 1) + if s[upto - 1] is Some {
            1int
        } else {
            0int
        }
    }
}

} // verus!
