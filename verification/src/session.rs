//! Stepping through a route, one jump at a time.
//!
//! A session owns the route and a cursor on the system the pilot is in.
//! `advance` moves the cursor on and says what is to be done about it;
//! the caller does it, and whether it worked is no concern of the session.

use vstd::prelude::*;
use crate::effect::{effect_views, jump_effects, Effect, EffectView};
use crate::entry::{entry_text, route_view, CsvEntry, EntryView};
use crate::payload::RenderPayload;
use crate::summary::EmptyRouteError;

verus! {

/// Where a session stands.
#[derive(Debug, Copy, Clone, PartialEq, Eq, Structural)]
pub enum Progress {
    /// The pilot is in the system at this index of the route.
    Active(usize),
    /// The pilot has left the last system of the route.
    Finished,
}

/// Where a session over `len` systems stands after one more advance: on
/// the next system while there is one, finished after the last, and
/// finished for good.
pub open spec fn next_progress(p: Progress, len: nat) -> Progress {
    match p {
        Progress::Active(cursor) => if cursor + 1 < len {
            Progress::Active((cursor + 1) as usize)
        } else {
            Progress::Finished
        },
        Progress::Finished => Progress::Finished,
    }
}

/// Where a fresh session over `len` systems stands after `k` advances.
pub open spec fn progress_after(len: nat, k: nat) -> Progress
    decreases k,
{
    if k == 0 {
        Progress::Active(0)
    } else {
        next_progress(progress_after(len, (k - 1) as nat), len)
    }
}

/// What an advance asks for when the session stands at `p`: a jump to the
/// next system where there is one, and else the end of the session.
pub open spec fn effects_of(route: Seq<EntryView>, p: Progress, focus_steal: bool) -> Seq<
    EffectView,
> {
    match p {
        Progress::Active(cursor) => if cursor + 1 < route.len() {
            jump_effects(route[cursor as int], route[cursor + 1], focus_steal)
        } else {
            seq![EffectView::Quit]
        },
        Progress::Finished => seq![EffectView::Quit],
    }
}

/// One row of the list of systems still ahead.
#[derive(Debug, Clone, PartialEq, Eq)]
pub enum ListRow {
    /// A system: its index in the route, and its block.
    Row(usize, String),
    /// The line between two systems.
    Delimiter,
}

/// A row as plain values.
pub ghost enum RowView {
    Row(int, Seq<char>),
    Delimiter,
}

impl View for ListRow {
    type V = RowView;

    open spec fn view(&self) -> RowView {
        match self {
            ListRow::Row(index, text) => RowView::Row(*index as int, text@),
            ListRow::Delimiter => RowView::Delimiter,
        }
    }
}

/// A list of rows as plain values.
pub open spec fn row_views(rows: Seq<ListRow>) -> Seq<RowView> {
    rows.map_values(|r: ListRow| r@)
}

/// The rows of the systems of `route` from index `start` on: for each its
/// row, which carries its index in the route, and a delimiter after it.
pub open spec fn rows_from(route: Seq<EntryView>, start: int) -> Seq<RowView>
    recommends
        0 <= start <= route.len(),
{
    Seq::new(
        (2 * (route.len() - start)) as nat,
        |k: int|
            if k % 2 == 0 {
                RowView::Row(start + k / 2, entry_text(route[start + k / 2]))
            } else {
                RowView::Delimiter
            },
    )
}

/// The list that the pilot sees: the system the session stands on first,
/// then all that follow; nothing once the session is finished.
pub open spec fn visible_rows(route: Seq<EntryView>, p: Progress) -> Seq<RowView> {
    match p {
        Progress::Active(cursor) => rows_from(route, cursor as int),
        Progress::Finished => Seq::empty(),
    }
}

proof fn lemma_progress_at(len: nat, k: nat)
    requires
        0 < len <= usize::MAX,
    ensures
        k < len ==> progress_after(len, k) == Progress::Active(k as usize),
        k >= len ==> progress_after(len, k) == Progress::Finished,
    decreases k,
{
    if k > 0 {
        lemma_progress_at(len, (k - 1) as nat);
    }
}

/// A fresh session over `len` systems stands on system `k` after `k`
/// advances, as long as there is such a system: each advance consumes one
/// system. After `len - 1` advances it stands on the last one, and the
/// advance after that, the `len`-th, finishes it. It stays finished.
pub proof fn lemma_progress_after(len: nat, k: nat)
    requires
        0 < len <= usize::MAX,
    ensures
        k < len ==> progress_after(len, k) == Progress::Active(k as usize),
        k >= len ==> progress_after(len, k) == Progress::Finished,
        progress_after(len, (len - 1) as nat) == Progress::Active((len - 1) as usize),
        progress_after(len, len) == Progress::Finished,
{
    lemma_progress_at(len, k);
    lemma_progress_at(len, (len - 1) as nat);
    lemma_progress_at(len, len);
}

/// An advance takes the first two rows off the list that the pilot sees,
/// the row of the system left behind and the delimiter after it, and
/// leaves the rest as it was. The session is finished exactly when
/// nothing is left.
pub proof fn lemma_advance_drops_two_rows(route: Seq<EntryView>, cursor: usize)
    requires
        cursor < route.len() <= usize::MAX,
    ensures
        visible_rows(route, Progress::Active(cursor)).len() >= 2,
        visible_rows(route, next_progress(Progress::Active(cursor), route.len()))
            == visible_rows(route, Progress::Active(cursor)).skip(2),
        next_progress(Progress::Active(cursor), route.len()) is Finished <==> visible_rows(
            route,
            Progress::Active(cursor),
        ).skip(2).len() == 0,
{
    let before = visible_rows(route, Progress::Active(cursor));
    let after = visible_rows(route, next_progress(Progress::Active(cursor), route.len()));
    assert(after =~= before.skip(2));
}

/// A route and the place of the pilot on it.
pub struct Session {
    records: Vec<CsvEntry>,
    focus_steal: bool,
    progress: Progress,
}

impl Session {
    #[verifier::type_invariant]
    spec fn inv(&self) -> bool {
        &&& self.records@.len() > 0
        &&& self.progress matches Progress::Active(cursor) ==> cursor < self.records@.len()
    }

    /// The route of the session.
    pub closed spec fn route(&self) -> Seq<EntryView> {
        route_view(self.records@)
    }

    /// Where the session stands.
    pub closed spec fn state(&self) -> Progress {
        self.progress
    }

    /// Whether jumps ask for the focus.
    pub closed spec fn steals_focus(&self) -> bool {
        self.focus_steal
    }

    /// The list that the pilot sees.
    pub open spec fn visible(&self) -> Seq<RowView> {
        visible_rows(self.route(), self.state())
    }

    /// A session at the start of `records`. A route without systems has
    /// none.
    pub fn new(records: Vec<CsvEntry>, focus_steal: bool) -> (session: Result<
        Session,
        EmptyRouteError,
    >)
        ensures
            session is Err <==> records@.len() == 0,
            session matches Ok(s) ==> {
                &&& s.route() == route_view(records@)
                &&& s.state() == Progress::Active(0)
                &&& s.steals_focus() == focus_steal
            },
    {
        if records.len() == 0 {
            Err(EmptyRouteError)
        } else {
            Ok(Session { records, focus_steal, progress: Progress::Active(0) })
        }
    }

    /// The systems of the route, which is never empty.
    pub fn records(&self) -> (records: &Vec<CsvEntry>)
        ensures
            route_view(records@) == self.route(),
            records@.len() > 0,
    {
        proof {
            use_type_invariant(self);
        }
        &self.records
    }

    /// Whether jumps ask for the focus.
    pub fn focus_steal(&self) -> (on: bool)
        ensures
            on == self.steals_focus(),
    {
        self.focus_steal
    }

    /// Where the session stands: on a system of the route, or finished.
    pub fn progress(&self) -> (p: Progress)
        ensures
            p == self.state(),
            p matches Progress::Active(cursor) ==> cursor < self.route().len(),
    {
        proof {
            use_type_invariant(self);
        }
        self.progress
    }

    /// The list that the pilot sees.
    pub fn rows(&self) -> (rows: Vec<ListRow>)
        ensures
            row_views(rows@) == self.visible(),
    {
        proof {
            use_type_invariant(self);
        }
        let mut rows: Vec<ListRow> = Vec::new();
        match self.progress {
            Progress::Finished => {},
            Progress::Active(cursor) => {
                let n: usize = self.records.len();
                let ghost route = self.route();
                let mut i: usize = cursor;
                while i < n
                    invariant
                        cursor <= i <= n,
                        n == self.records@.len(),
                        route == route_view(self.records@),
                        rows@.len() == 2 * (i - cursor),
                        row_views(rows@) =~= rows_from(route, cursor as int).take(
                            2 * (i - cursor),
                        ),
                    decreases n - i,
                {
                    rows.push(ListRow::Row(i, self.records[i].to_string()));
                    rows.push(ListRow::Delimiter);
                    i = i + 1;
                }
            },
        }
        rows
    }

    /// Leaves the system the session stands on. Where another follows, the
    /// session moves on to it and asks for its name on the clipboard, for
    /// the focus if that is on, and for the panel of the jump, in this
    /// order. After the last system the session is finished, and stays so:
    /// all that is asked for is to quit.
    pub fn advance(&mut self) -> (effects: Vec<Effect>)
        ensures
            final(self).route() == old(self).route(),
            final(self).steals_focus() == old(self).steals_focus(),
            final(self).state() == next_progress(old(self).state(), old(self).route().len()),
            effect_views(effects@) == effects_of(
                old(self).route(),
                old(self).state(),
                old(self).steals_focus(),
            ),
            old(self).state() is Active ==> final(self).visible() == old(self).visible().skip(2),
            final(self).state() is Finished <==> final(self).visible().len() == 0,
    {
        let mut effects: Vec<Effect> = Vec::new();
        let n: usize = self.records.len();
        proof {
            use_type_invariant(&*self);
            if let Progress::Active(cursor) = self.progress {
                lemma_advance_drops_two_rows(self.route(), cursor);
            }
        }
        let next: usize = match self.progress {
            Progress::Active(prev) => prev + 1,
            Progress::Finished => n,
        };
        if next < n {
            let prev: usize = next - 1;
            self.progress = Progress::Active(next);
            let payload = RenderPayload {
                copied: self.records[next].system_name.clone(),
                focus_steal: self.focus_steal,
                current_system: self.records[prev].to_string(),
                next_jump: self.records[next].to_string(),
            };
            effects.push(Effect::SetClipboard(self.records[next].system_name.clone()));
            if self.focus_steal {
                effects.push(Effect::StealFocus);
            }
            effects.push(Effect::Render(payload));
        } else {
            self.progress = Progress::Finished;
            effects.push(Effect::Quit);
        }
        effects
    }
}

} // verus!
