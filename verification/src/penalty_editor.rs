//! The penalty editor: a session in which the referees stage changes to the
//! penalty lists (add, edit, delete, move between teams) and then apply them
//! to the tournament manager all at once.

use crate::decimal_text::{decimal, decimal_string};
use crate::tournament_manager::{
    BlackWhiteBundle, Color, Penalty, PenaltyKind, TournamentManager, TournamentManagerError,
    TournamentState,
};
use vstd::prelude::*;

verus! {

/// Where a staged penalty came from: its team and position in the tournament
/// manager's lists when the session started.
#[derive(Debug, Clone, Copy, PartialEq, Eq, Structural)]
pub struct Origin {
    pub color: Color,
    pub index: usize,
}

/// A staged penalty: unchanged, edited or deleted (each with its origin), or
/// new (its kind and player number).
#[derive(Debug, Clone, Copy, PartialEq, Eq, Structural)]
pub enum EditableItem {
    Original(Origin, Penalty),
    Edited(Origin, Penalty),
    Deleted(Origin, Penalty),
    New(PenaltyKind, u8),
}

/// How a penalty is marked in the editor's lists.
#[derive(Debug, Clone, Copy, PartialEq, Eq, Structural)]
pub enum FormatHint {
    NoChange,
    Edited,
    Deleted,
    New,
}

/// A staged penalty as the editor shows it for editing.
#[derive(Debug, Clone, Copy, PartialEq, Eq, Structural)]
pub struct PenaltySummary {
    pub kind: PenaltyKind,
    pub player_number: u8,
    pub color: Color,
}

/// Why the editor refused.
#[derive(Debug, Clone, Copy, PartialEq, Eq, Structural)]
pub enum PenaltyEditorError {
    ExistingSession,
    NotInSession,
    /// No staged penalty of that team at that position.
    InvalidIndex(Color, usize),
    /// After applying, the lists of these teams were still too long.
    ListTooLong { black: bool, white: bool },
    TMError(TournamentManagerError),
}

/// The most penalties a team's list keeps once changes are applied.
pub const MAX_PENALTY_LIST_LEN: usize = 8;

/// The penalty editor: the staged lists of both teams, and whether a
/// session is open.
#[derive(Debug)]
pub struct ListEditor {
    pub items: BlackWhiteBundle<Vec<EditableItem>>,
    pub session_started: bool,
}

/// A team's penalties, staged unchanged with their origins.
pub open spec fn originals(color: Color, list: Seq<Penalty>) -> Seq<EditableItem> {
    Seq::new(
        list.len(),
        |i: int| EditableItem::Original(Origin { color, index: i as usize }, list[i]),
    )
}

/// A staged penalty as shown for editing in `color`'s list.
pub open spec fn summary_of(item: EditableItem, color: Color) -> PenaltySummary {
    match item {
        EditableItem::Original(_, p) => PenaltySummary {
            kind: p.kind,
            player_number: p.player_number,
            color,
        },
        EditableItem::Edited(_, p) => PenaltySummary {
            kind: p.kind,
            player_number: p.player_number,
            color,
        },
        EditableItem::Deleted(_, p) => PenaltySummary {
            kind: p.kind,
            player_number: p.player_number,
            color,
        },
        EditableItem::New(kind, player_number) => PenaltySummary { kind, player_number, color },
    }
}

/// A list with its item at `i` deleted: a penalty from the manager is
/// marked deleted (and stays so when deleted again); a new one goes.
pub open spec fn deleted_at(l: Seq<EditableItem>, i: int) -> Seq<EditableItem> {
    match l[i] {
        EditableItem::Original(o, p) => l.update(i, EditableItem::Deleted(o, p)),
        EditableItem::Edited(o, p) => l.update(i, EditableItem::Deleted(o, p)),
        EditableItem::Deleted(o, p) => l.update(i, EditableItem::Deleted(o, p)),
        EditableItem::New(_, _) => l.remove(i),
    }
}

/// A staged penalty after an edit: a penalty from the manager becomes an
/// edited one (its other fields kept), a new one stays new.
pub open spec fn edited_item(item: EditableItem, kind: PenaltyKind, number: u8) -> EditableItem {
    match item {
        EditableItem::Original(o, p) => EditableItem::Edited(
            o,
            Penalty { kind, player_number: number, ..p },
        ),
        EditableItem::Edited(o, p) => EditableItem::Edited(
            o,
            Penalty { kind, player_number: number, ..p },
        ),
        EditableItem::Deleted(o, p) => EditableItem::Edited(
            o,
            Penalty { kind, player_number: number, ..p },
        ),
        EditableItem::New(_, _) => EditableItem::New(kind, number),
    }
}

fn edited(item: EditableItem, kind: PenaltyKind, number: u8) -> (r: EditableItem)
    ensures
        r == edited_item(item, kind, number),
{
    match item {
        EditableItem::Original(o, p) => EditableItem::Edited(
            o,
            Penalty { kind, player_number: number, ..p },
        ),
        EditableItem::Edited(o, p) => EditableItem::Edited(
            o,
            Penalty { kind, player_number: number, ..p },
        ),
        EditableItem::Deleted(o, p) => EditableItem::Edited(
            o,
            Penalty { kind, player_number: number, ..p },
        ),
        EditableItem::New(_, _) => EditableItem::New(kind, number),
    }
}

fn stage_originals(color: Color, list: &Vec<Penalty>) -> (r: Vec<EditableItem>)
    ensures
        r@ == originals(color, list@),
{
    let mut r: Vec<EditableItem> = Vec::new();
    let mut i: usize = 0;
    while i < list.len()
        invariant
            0 <= i <= list@.len(),
            r@ == originals(color, list@).take(i as int),
        decreases list@.len() - i,
    {
        r.push(EditableItem::Original(Origin { color, index: i }, list[i]));
        i = i + 1;
        assert(r@ =~= originals(color, list@).take(i as int));
    }
    assert(r@ =~= originals(color, list@));
    r
}

fn delete_in(l: &mut Vec<EditableItem>, i: usize)
    requires
        i < old(l)@.len(),
    ensures
        final(l)@ == deleted_at(old(l)@, i as int),
{
    match l[i] {
        EditableItem::Original(o, p) => {
            l.set(i, EditableItem::Deleted(o, p));
        },
        EditableItem::Edited(o, p) => {
            l.set(i, EditableItem::Deleted(o, p));
        },
        EditableItem::Deleted(o, p) => {
            l.set(i, EditableItem::Deleted(o, p));
        },
        EditableItem::New(_, _) => {
            l.remove(i);
        },
    }
}

impl ListEditor {
    /// The staged list of `color`.
    pub open spec fn list(&self, color: Color) -> Seq<EditableItem> {
        self.items.at(color)@
    }

    /// An editor with no session open.
    pub fn new() -> (r: ListEditor)
        ensures
            !r.session_started,
            r.list(Color::Black).len() == 0,
            r.list(Color::White).len() == 0,
    {
        ListEditor { items: BlackWhiteBundle { black: Vec::new(), white: Vec::new() }, session_started: false }
    }

    /// Opens a session on the manager's current penalties, each staged
    /// unchanged; refused while a session is open.
    pub fn start_session(&mut self, tm: &TournamentManager) -> (r: Result<(), PenaltyEditorError>)
        ensures
            old(self).session_started ==> r == Err::<(), PenaltyEditorError>(
                PenaltyEditorError::ExistingSession,
            ) && final(self).session_started && final(self).list(Color::Black) == old(self).list(
                Color::Black,
            ) && final(self).list(Color::White) == old(self).list(Color::White),
            !old(self).session_started ==> r is Ok && final(self).session_started && final(self).list(Color::Black) == originals(Color::Black, tm@.b_penalties) && final(self).list(
                Color::White,
            ) == originals(Color::White, tm@.w_penalties),
    {
        if self.session_started {
            return Err(PenaltyEditorError::ExistingSession);
        }
        let pens = tm.get_penalties();
        self.items = BlackWhiteBundle {
            black: stage_originals(Color::Black, &pens.black),
            white: stage_originals(Color::White, &pens.white),
        };
        self.session_started = true;
        Ok(())
    }

    /// Stages a new penalty at the end of `color`'s list.
    pub fn add_item(&mut self, color: Color, player_number: u8, kind: PenaltyKind) -> (r: Result<
        (),
        PenaltyEditorError,
    >)
        ensures
            final(self).session_started == old(self).session_started,
            !old(self).session_started ==> r == Err::<(), PenaltyEditorError>(
                PenaltyEditorError::NotInSession,
            ) && final(self).list(Color::Black) == old(self).list(Color::Black) && final(self).list(
                Color::White,
            ) == old(self).list(Color::White),
            old(self).session_started ==> r is Ok && final(self).list(color) == old(self).list(
                color,
            ).push(EditableItem::New(kind, player_number)) && final(self).list(other(color))
                == old(self).list(other(color)),
    {
        if !self.session_started {
            return Err(PenaltyEditorError::NotInSession);
        }
        match color {
            Color::Black => self.items.black.push(EditableItem::New(kind, player_number)),
            Color::White => self.items.white.push(EditableItem::New(kind, player_number)),
        }
        Ok(())
    }

    /// The staged penalty at `index` of `color`'s list, as shown for editing.
    pub fn get_item(&self, color: Color, index: usize) -> (r: Result<
        PenaltySummary,
        PenaltyEditorError,
    >)
        ensures
            r == (if !self.session_started {
                Err(PenaltyEditorError::NotInSession)
            } else if index >= self.list(color).len() {
                Err(PenaltyEditorError::InvalidIndex(color, index))
            } else {
                Ok(summary_of(self.list(color)[index as int], color))
            }),
    {
        if !self.session_started {
            return Err(PenaltyEditorError::NotInSession);
        }
        let l = self.items.get(color);
        if index >= l.len() {
            return Err(PenaltyEditorError::InvalidIndex(color, index));
        }
        let item = l[index];
        Ok(
            match item {
                EditableItem::Original(_, p) => PenaltySummary {
                    kind: p.kind,
                    player_number: p.player_number,
                    color,
                },
                EditableItem::Edited(_, p) => PenaltySummary {
                    kind: p.kind,
                    player_number: p.player_number,
                    color,
                },
                EditableItem::Deleted(_, p) => PenaltySummary {
                    kind: p.kind,
                    player_number: p.player_number,
                    color,
                },
                EditableItem::New(kind, player_number) => PenaltySummary {
                    kind,
                    player_number,
                    color,
                },
            },
        )
    }

    /// Deletes the staged penalty at `index` of `color`'s list (see
    /// `deleted_at`).
    pub fn delete_item(&mut self, color: Color, index: usize) -> (r: Result<
        (),
        PenaltyEditorError,
    >)
        ensures
            final(self).session_started == old(self).session_started,
            final(self).list(other(color)) == old(self).list(other(color)),
            r == (if !old(self).session_started {
                Err(PenaltyEditorError::NotInSession)
            } else if index >= old(self).list(color).len() {
                Err(PenaltyEditorError::InvalidIndex(color, index))
            } else {
                Ok(())
            }),
            r is Ok ==> final(self).list(color) == deleted_at(old(self).list(color), index as int),
            r is Err ==> final(self).list(color) == old(self).list(color),
    {
        if !self.session_started {
            return Err(PenaltyEditorError::NotInSession);
        }
        match color {
            Color::Black => {
                if index >= self.items.black.len() {
                    return Err(PenaltyEditorError::InvalidIndex(color, index));
                }
                delete_in(&mut self.items.black, index);
            },
            Color::White => {
                if index >= self.items.white.len() {
                    return Err(PenaltyEditorError::InvalidIndex(color, index));
                }
                delete_in(&mut self.items.white, index);
            },
        }
        Ok(())
    }

    /// Edits the staged penalty at `index` of `old_color`'s list (see
    /// `edited_item`); when the team changes, it moves to the end of
    /// `new_color`'s list.
    pub fn edit_item(
        &mut self,
        old_color: Color,
        index: usize,
        new_color: Color,
        new_player_number: u8,
        new_kind: PenaltyKind,
    ) -> (r: Result<(), PenaltyEditorError>)
        ensures
            final(self).session_started == old(self).session_started,
            r == (if !old(self).session_started {
                Err(PenaltyEditorError::NotInSession)
            } else if index >= old(self).list(old_color).len() {
                Err(PenaltyEditorError::InvalidIndex(old_color, index))
            } else {
                Ok(())
            }),
            r is Err ==> final(self).list(Color::Black) == old(self).list(Color::Black) && final(self).list(Color::White) == old(self).list(Color::White),
            r is Ok ==> {
                let e = edited_item(
                    old(self).list(old_color)[index as int],
                    new_kind,
                    new_player_number,
                );
                if new_color == old_color {
                    &&& final(self).list(old_color) == old(self).list(old_color).update(
                        index as int,
                        e,
                    )
                    &&& final(self).list(other(old_color)) == old(self).list(other(old_color))
                } else {
                    &&& final(self).list(old_color) == old(self).list(old_color).remove(
                        index as int,
                    )
                    &&& final(self).list(new_color) == old(self).list(new_color).push(e)
                }
            },
    {
        if !self.session_started {
            return Err(PenaltyEditorError::NotInSession);
        }
        let len = match old_color {
            Color::Black => self.items.black.len(),
            Color::White => self.items.white.len(),
        };
        if index >= len {
            return Err(PenaltyEditorError::InvalidIndex(old_color, index));
        }
        let e = match old_color {
            Color::Black => edited(self.items.black[index], new_kind, new_player_number),
            Color::White => edited(self.items.white[index], new_kind, new_player_number),
        };
        if new_color == old_color {
            match old_color {
                Color::Black => self.items.black.set(index, e),
                Color::White => self.items.white.set(index, e),
            }
        } else {
            match old_color {
                Color::Black => {
                    self.items.black.remove(index);
                    self.items.white.push(e);
                },
                Color::White => {
                    self.items.white.remove(index);
                    self.items.black.push(e);
                },
            }
        }
        Ok(())
    }

    /// Closes the session, dropping every staged change.
    pub fn abort_session(&mut self)
        ensures
            !final(self).session_started,
            final(self).list(Color::Black).len() == 0,
            final(self).list(Color::White).len() == 0,
    {
        self.items.black.clear();
        self.items.white.clear();
        self.session_started = false;
    }
}

/// Deleting a staged penalty the manager holds marks it deleted in place,
/// keeping its origin and penalty and every other item; deleting a new one
/// takes it out, keeping the others in order. Editing keeps a penalty's
/// origin, period and start time, taking the new kind and player, and a new
/// penalty stays new with them.
pub proof fn lemma_delete_and_edit_keep_origins(
    l: Seq<EditableItem>,
    i: int,
    kind: PenaltyKind,
    number: u8,
)
    requires
        0 <= i < l.len(),
    ensures
        l[i] matches EditableItem::New(_, _) ==> deleted_at(l, i) == l.take(i) + l.skip(i + 1),
        !(l[i] is New) ==> deleted_at(l, i).len() == l.len() && (forall|k: int|
            0 <= k < l.len() && k != i ==> #[trigger] deleted_at(l, i)[k] == l[k]),
        l[i] matches EditableItem::Original(o, p) ==> deleted_at(l, i)[i] == EditableItem::Deleted(
            o,
            p,
        ),
        l[i] matches EditableItem::Edited(o, p) ==> deleted_at(l, i)[i] == EditableItem::Deleted(
            o,
            p,
        ),
        l[i] matches EditableItem::Deleted(o, p) ==> deleted_at(l, i)[i] == l[i],
        l[i] matches EditableItem::New(_, _) ==> edited_item(l[i], kind, number)
            == EditableItem::New(kind, number),
        !(l[i] is New) ==> (edited_item(l[i], kind, number) matches EditableItem::Edited(o, p)
            && p.kind == kind && p.player_number == number && match l[i] {
            EditableItem::Original(o0, p0) => o == o0 && p.start_period == p0.start_period
                && p.start_time == p0.start_time,
            EditableItem::Edited(o0, p0) => o == o0 && p.start_period == p0.start_period
                && p.start_time == p0.start_time,
            EditableItem::Deleted(o0, p0) => o == o0 && p.start_period == p0.start_period
                && p.start_time == p0.start_time,
            EditableItem::New(_, _) => false,
        }),
{
    if l[i] is New {
        assert(l.remove(i) =~= l.take(i) + l.skip(i + 1));
    }
}

/// What applying does to a penalty from the manager.
#[derive(Debug, Clone, Copy, PartialEq, Eq, Structural)]
pub enum ChangeAction {
    Edit,
    Delete,
}

/// A staged change to a penalty from the manager: where it came from, the
/// staged penalty, the team whose list it is staged in, and what to do.
#[derive(Debug, Clone, Copy, PartialEq, Eq, Structural)]
pub struct Change {
    pub origin: Origin,
    pub pen: Penalty,
    pub color: Color,
    pub action: ChangeAction,
}

/// The edited and deleted penalties of a staged list, in order.
pub open spec fn changes_of(l: Seq<EditableItem>, color: Color) -> Seq<Change>
    decreases l.len(),
{
    if l.len() == 0 {
        Seq::empty()
    } else {
        let prev = changes_of(l.drop_last(), color);
        match l.last() {
            EditableItem::Edited(o, p) => prev.push(
                Change { origin: o, pen: p, color, action: ChangeAction::Edit },
            ),
            EditableItem::Deleted(o, p) => prev.push(
                Change { origin: o, pen: p, color, action: ChangeAction::Delete },
            ),
            _ => prev,
        }
    }
}

/// The new penalties of a staged list, in order, with their team.
pub open spec fn news_of(l: Seq<EditableItem>, color: Color) -> Seq<(Color, PenaltyKind, u8)>
    decreases l.len(),
{
    if l.len() == 0 {
        Seq::empty()
    } else {
        let prev = news_of(l.drop_last(), color);
        match l.last() {
            EditableItem::New(k, n) => prev.push((color, k, n)),
            _ => prev,
        }
    }
}

/// `r` with `c` placed after every leading change whose origin index is at
/// least `c`'s.
pub open spec fn insert_by_origin(r: Seq<Change>, c: Change) -> Seq<Change>
    decreases r.len(),
{
    if r.len() == 0 {
        seq![c]
    } else if r[0].origin.index >= c.origin.index {
        seq![r[0]] + insert_by_origin(r.drop_first(), c)
    } else {
        seq![c] + r
    }
}

/// The order in which changes are applied: highest origin index first, so
/// that no change moves a penalty another change still refers to; among
/// changes with the same origin index, the later-staged first.
pub open spec fn apply_order(cs: Seq<Change>) -> Seq<Change>
    decreases cs.len(),
{
    if cs.len() == 0 {
        Seq::empty()
    } else {
        insert_by_origin(apply_order(cs.drop_first()), cs[0])
    }
}

/// Whether the changes come highest origin index first.
pub open spec fn highest_first(cs: Seq<Change>) -> bool {
    forall|i: int, j: int|
        0 <= i < j < cs.len() ==> (#[trigger] cs[i]).origin.index >= (#[trigger] cs[j]).origin.index
}

proof fn lemma_insert_by_origin(r: Seq<Change>, c: Change, b: usize)
    ensures
        insert_by_origin(r, c).len() == r.len() + 1,
        insert_by_origin(r, c).to_multiset() =~= r.to_multiset().insert(c),
        highest_first(r) ==> highest_first(insert_by_origin(r, c)),
        (forall|i: int| 0 <= i < r.len() ==> (#[trigger] r[i]).origin.index <= b) && c.origin.index
            <= b ==> forall|i: int|
            0 <= i < insert_by_origin(r, c).len() ==> (#[trigger] insert_by_origin(r, c)[i]).origin.index
                <= b,
    decreases r.len(),
{
    broadcast use vstd::seq_lib::group_to_multiset_ensures;

    let ins = insert_by_origin(r, c);
    if r.len() == 0 {
        assert(seq![c] =~= Seq::<Change>::empty().push(c));
    } else if r[0].origin.index >= c.origin.index {
        let d = r.drop_first();
        lemma_insert_by_origin(d, c, b);
        lemma_insert_by_origin(d, c, r[0].origin.index);
        let rest = insert_by_origin(d, c);
        assert(ins == seq![r[0]] + rest);
        vstd::seq_lib::lemma_multiset_commutative(seq![r[0]], rest);
        vstd::seq_lib::lemma_multiset_commutative(seq![r[0]], d);
        assert(seq![r[0]] + d =~= r);
        assert(seq![r[0]] =~= Seq::<Change>::empty().push(r[0]));
        if highest_first(r) {
            assert forall|i: int| 0 <= i < d.len() implies (#[trigger] d[i]).origin.index
                <= r[0].origin.index by {
                assert(d[i] == r[i + 1]);
            }
            assert forall|i: int, j: int|
                0 <= i < j < d.len() implies (#[trigger] d[i]).origin.index >= (
                #[trigger] d[j]).origin.index by {
                assert(d[i] == r[i + 1]);
                assert(d[j] == r[j + 1]);
            }
            assert forall|i: int, j: int|
                0 <= i < j < ins.len() implies (#[trigger] ins[i]).origin.index >= (
                #[trigger] ins[j]).origin.index by {
                if i == 0 {
                    assert(ins[j] == rest[j - 1]);
                } else {
                    assert(ins[i] == rest[i - 1]);
                    assert(ins[j] == rest[j - 1]);
                }
            }
        }
        if (forall|i: int| 0 <= i < r.len() ==> (#[trigger] r[i]).origin.index <= b)
            && c.origin.index <= b {
            assert forall|i: int| 0 <= i < d.len() implies (#[trigger] d[i]).origin.index <= b by {
                assert(d[i] == r[i + 1]);
            }
            assert forall|i: int| 0 <= i < ins.len() implies (#[trigger] ins[i]).origin.index
                <= b by {
                if i > 0 {
                    assert(ins[i] == rest[i - 1]);
                }
            }
        }
    } else {
        assert(ins == seq![c] + r);
        vstd::seq_lib::lemma_multiset_commutative(seq![c], r);
        assert(seq![c] =~= Seq::<Change>::empty().push(c));
        if highest_first(r) {
            assert forall|i: int, j: int|
                0 <= i < j < ins.len() implies (#[trigger] ins[i]).origin.index >= (
                #[trigger] ins[j]).origin.index by {
                if i == 0 {
                    assert(ins[j] == r[j - 1]);
                    if j > 1 {
                        assert(r[0].origin.index >= r[j - 1].origin.index);
                    }
                } else {
                    assert(ins[i] == r[i - 1]);
                    assert(ins[j] == r[j - 1]);
                }
            }
        }
        if (forall|i: int| 0 <= i < r.len() ==> (#[trigger] r[i]).origin.index <= b)
            && c.origin.index <= b {
            assert forall|i: int| 0 <= i < ins.len() implies (#[trigger] ins[i]).origin.index
                <= b by {
                if i > 0 {
                    assert(ins[i] == r[i - 1]);
                }
            }
        }
    }
}

/// The order changes are applied in holds every staged change once and comes
/// highest origin index first, so that a change never shifts a penalty that
/// a later change refers to.
pub proof fn lemma_apply_order_is_highest_first(cs: Seq<Change>)
    ensures
        apply_order(cs).to_multiset() =~= cs.to_multiset(),
        highest_first(apply_order(cs)),
    decreases cs.len(),
{
    broadcast use vstd::seq_lib::group_to_multiset_ensures;

    if cs.len() > 0 {
        let d = cs.drop_first();
        lemma_apply_order_is_highest_first(d);
        lemma_insert_by_origin(apply_order(d), cs[0], 0);
        vstd::seq_lib::lemma_multiset_commutative(seq![cs[0]], d);
        assert(seq![cs[0]] + d =~= cs);
        assert(seq![cs[0]] =~= Seq::<Change>::empty().push(cs[0]));
    }
}

/// One change made in the manager.
pub open spec fn change_step(s: TournamentState, c: Change) -> (TournamentState, Result<
    (),
    TournamentManagerError,
>) {
    match c.action {
        ChangeAction::Edit => s.edit_penalty(
            c.origin.color,
            c.origin.index,
            c.color,
            c.pen.player_number,
            c.pen.kind,
        ),
        ChangeAction::Delete => s.delete_penalty(c.origin.color, c.origin.index),
    }
}

/// Changes made in the manager in order, stopping at the first refused.
pub open spec fn apply_all(s: TournamentState, cs: Seq<Change>) -> (TournamentState, Result<
    (),
    TournamentManagerError,
>)
    decreases cs.len(),
{
    if cs.len() == 0 {
        (s, Ok(()))
    } else {
        let (s1, r1) = apply_all(s, cs.drop_last());
        if r1 is Err {
            (s1, r1)
        } else {
            change_step(s1, cs.last())
        }
    }
}

/// New penalties started in the manager at `now` in order, stopping at the
/// first refused.
pub open spec fn add_all(s: TournamentState, ns: Seq<(Color, PenaltyKind, u8)>, now: u64) -> (
    TournamentState,
    Result<(), TournamentManagerError>,
)
    decreases ns.len(),
{
    if ns.len() == 0 {
        (s, Ok(()))
    } else {
        let (s1, r1) = add_all(s, ns.drop_last(), now);
        if r1 is Err {
            (s1, r1)
        } else {
            s1.start_penalty(ns.last().0, ns.last().2, ns.last().1, now)
        }
    }
}

proof fn lemma_apply_refusal_stays(s: TournamentState, cs: Seq<Change>, j: int)
    requires
        0 <= j <= cs.len(),
        apply_all(s, cs.take(j)).1 is Err,
    ensures
        apply_all(s, cs) == apply_all(s, cs.take(j)),
    decreases cs.len(),
{
    if j == cs.len() {
        assert(cs.take(j) =~= cs);
    } else {
        assert(cs.drop_last().take(j) =~= cs.take(j));
        lemma_apply_refusal_stays(s, cs.drop_last(), j);
    }
}

proof fn lemma_add_refusal_stays(
    s: TournamentState,
    ns: Seq<(Color, PenaltyKind, u8)>,
    now: u64,
    j: int,
)
    requires
        0 <= j <= ns.len(),
        add_all(s, ns.take(j), now).1 is Err,
    ensures
        add_all(s, ns, now) == add_all(s, ns.take(j), now),
    decreases ns.len(),
{
    if j == ns.len() {
        assert(ns.take(j) =~= ns);
    } else {
        assert(ns.drop_last().take(j) =~= ns.take(j));
        lemma_add_refusal_stays(s, ns.drop_last(), now, j);
    }
}

proof fn lemma_insert_at(r: Seq<Change>, c: Change, p: int)
    requires
        0 <= p <= r.len(),
        forall|j: int| 0 <= j < p ==> (#[trigger] r[j]).origin.index >= c.origin.index,
        p < r.len() ==> r[p].origin.index < c.origin.index,
    ensures
        insert_by_origin(r, c) == r.take(p) + seq![c] + r.skip(p),
    decreases r.len(),
{
    if r.len() == 0 {
        assert(r.take(p) + seq![c] + r.skip(p) =~= seq![c]);
    } else if p == 0 {
        assert(r.take(p) + seq![c] + r.skip(p) =~= seq![c] + r);
    } else {
        let d = r.drop_first();
        assert forall|j: int| 0 <= j < p - 1 implies (#[trigger] d[j]).origin.index
            >= c.origin.index by {
            assert(d[j] == r[j + 1]);
        }
        lemma_insert_at(d, c, p - 1);
        assert(r.take(p) + seq![c] + r.skip(p) =~= seq![r[0]] + (d.take(p - 1) + seq![c]
            + d.skip(p - 1)));
    }
}

fn insert_change(r: &mut Vec<Change>, c: Change)
    ensures
        final(r)@ == insert_by_origin(old(r)@, c),
{
    let mut p: usize = 0;
    while p < r.len() && r[p].origin.index >= c.origin.index
        invariant
            0 <= p <= r@.len(),
            r@ == old(r)@,
            forall|j: int| 0 <= j < p ==> (#[trigger] r@[j]).origin.index >= c.origin.index,
        decreases r@.len() - p,
    {
        p = p + 1;
    }
    proof {
        lemma_insert_at(r@, c, p as int);
    }
    r.insert(p, c);
    assert(r@ =~= old(r)@.take(p as int) + seq![c] + old(r)@.skip(p as int));
}

fn collect_changes(
    l: &Vec<EditableItem>,
    color: Color,
    changes: &mut Vec<Change>,
    news: &mut Vec<(Color, PenaltyKind, u8)>,
)
    ensures
        final(changes)@ == old(changes)@ + changes_of(l@, color),
        final(news)@ == old(news)@ + news_of(l@, color),
{
    let ghost c0 = changes@;
    let ghost n0 = news@;
    let mut i: usize = 0;
    assert(l@.take(0) =~= Seq::<EditableItem>::empty());
    assert(changes@ =~= c0 + changes_of(l@.take(0), color));
    assert(news@ =~= n0 + news_of(l@.take(0), color));
    while i < l.len()
        invariant
            0 <= i <= l@.len(),
            changes@ == c0 + changes_of(l@.take(i as int), color),
            news@ == n0 + news_of(l@.take(i as int), color),
        decreases l@.len() - i,
    {
        assert(l@.take(i as int + 1).drop_last() =~= l@.take(i as int));
        match l[i] {
            EditableItem::Edited(o, p) => {
                changes.push(Change { origin: o, pen: p, color, action: ChangeAction::Edit });
            },
            EditableItem::Deleted(o, p) => {
                changes.push(Change { origin: o, pen: p, color, action: ChangeAction::Delete });
            },
            EditableItem::New(k, n) => {
                news.push((color, k, n));
            },
            EditableItem::Original(_, _) => {},
        }
        i = i + 1;
        assert(changes@ =~= c0 + changes_of(l@.take(i as int), color));
        assert(news@ =~= n0 + news_of(l@.take(i as int), color));
    }
    assert(l@.take(i as int) =~= l@);
}

fn order_changes(cs: &Vec<Change>) -> (r: Vec<Change>)
    ensures
        r@ == apply_order(cs@),
{
    let mut r: Vec<Change> = Vec::new();
    let mut k: usize = cs.len();
    assert(cs@.skip(k as int) =~= Seq::<Change>::empty());
    while k > 0
        invariant
            0 <= k <= cs@.len(),
            r@ == apply_order(cs@.skip(k as int)),
        decreases k,
    {
        k = k - 1;
        assert(cs@.skip(k as int).drop_first() =~= cs@.skip(k as int + 1));
        assert(cs@.skip(k as int)[0] == cs@[k as int]);
        insert_change(&mut r, cs[k]);
    }
    assert(cs@.skip(0) =~= cs@);
    r
}

fn apply_change(tm: &mut TournamentManager, c: Change) -> (r: Result<(), TournamentManagerError>)
    requires
        old(tm)@.wf(),
    ensures
        final(tm)@.wf(),
        (final(tm)@, r) == change_step(old(tm)@, c),
{
    match c.action {
        ChangeAction::Edit => tm.edit_penalty(
            c.origin.color,
            c.origin.index,
            c.color,
            c.pen.player_number,
            c.pen.kind,
        ),
        ChangeAction::Delete => tm.delete_penalty(c.origin.color, c.origin.index),
    }
}

/// What limiting one team's list after applying gives: whether the list
/// was still too long, or a refusal for any other reason.
pub open spec fn limit_outcome(r: Result<(), TournamentManagerError>) -> Result<
    bool,
    TournamentManagerError,
> {
    match r {
        Ok(()) => Ok(false),
        Err(TournamentManagerError::TooManyPenalties(_)) => Ok(true),
        Err(e) => Err(e),
    }
}

fn limit_list(tm: &mut TournamentManager, color: Color, now: u64) -> (r: Result<
    bool,
    TournamentManagerError,
>)
    requires
        old(tm)@.wf(),
    ensures
        final(tm)@.wf(),
        final(tm)@ == old(tm)@.limit_pen_list_len(color, MAX_PENALTY_LIST_LEN, now).0,
        r == limit_outcome(old(tm)@.limit_pen_list_len(color, MAX_PENALTY_LIST_LEN, now).1),
{
    match tm.limit_pen_list_len(color, MAX_PENALTY_LIST_LEN, now) {
        Ok(()) => Ok(false),
        Err(TournamentManagerError::TooManyPenalties(_)) => Ok(true),
        Err(e) => Err(e),
    }
}

/// The outcome of applying the staged lists `black` and `white` to the
/// manager state `s` at `now`: the changes to penalties from the manager
/// (in `apply_order`), then the new penalties (Black's, then White's, each
/// in order), then each team's list limited to `MAX_PENALTY_LIST_LEN`
/// (Black's first). The first refusal by the manager stops it; a list still
/// too long is reported once both are limited. Comes back with the manager's
/// state, the result, and whether the session was closed (it is closed
/// unless the manager refused).
pub open spec fn applied(
    s: TournamentState,
    black: Seq<EditableItem>,
    white: Seq<EditableItem>,
    now: u64,
) -> (TournamentState, Result<(), PenaltyEditorError>, bool) {
    let cs = apply_order(changes_of(black, Color::Black) + changes_of(white, Color::White));
    let ns = news_of(black, Color::Black) + news_of(white, Color::White);
    let (s1, r1) = apply_all(s, cs);
    match r1 {
        Err(e) => (s1, Err(PenaltyEditorError::TMError(e)), false),
        Ok(_) => {
            let (s2, r2) = add_all(s1, ns, now);
            match r2 {
                Err(e) => (s2, Err(PenaltyEditorError::TMError(e)), false),
                Ok(_) => {
                    let (s3, r3) = s2.limit_pen_list_len(Color::Black, MAX_PENALTY_LIST_LEN, now);
                    match limit_outcome(r3) {
                        Err(e) => (s3, Err(PenaltyEditorError::TMError(e)), false),
                        Ok(b) => {
                            let (s4, r4) = s3.limit_pen_list_len(
                                Color::White,
                                MAX_PENALTY_LIST_LEN,
                                now,
                            );
                            match limit_outcome(r4) {
                                Err(e) => (s4, Err(PenaltyEditorError::TMError(e)), false),
                                Ok(w) => (
                                    s4,
                                    if b || w {
                                        Err(PenaltyEditorError::ListTooLong { black: b, white: w })
                                    } else {
                                        Ok(())
                                    },
                                    true,
                                ),
                            }
                        },
                    }
                },
            }
        },
    }
}

impl ListEditor {
    /// Applies the staged changes to the manager (see `applied`). The staged
    /// lists are emptied in any case; the session is closed unless the
    /// manager refused a change.
    pub fn apply_changes(&mut self, tm: &mut TournamentManager, now: u64) -> (r: Result<
        (),
        PenaltyEditorError,
    >)
        requires
            old(tm)@.wf(),
        ensures
            final(tm)@.wf(),
            !old(self).session_started ==> r == Err::<(), PenaltyEditorError>(
                PenaltyEditorError::NotInSession,
            ) && final(tm)@ == old(tm)@ && final(self).session_started == old(
                self,
            ).session_started && final(self).list(Color::Black) == old(self).list(Color::Black)
                && final(self).list(Color::White) == old(self).list(Color::White),
            old(self).session_started ==> {
                let (s, res, closed) = applied(
                    old(tm)@,
                    old(self).list(Color::Black),
                    old(self).list(Color::White),
                    now,
                );
                &&& final(tm)@ == s
                &&& r == res
                &&& final(self).session_started == !closed
                &&& final(self).list(Color::Black).len() == 0
                &&& final(self).list(Color::White).len() == 0
            },
    {
        if !self.session_started {
            return Err(PenaltyEditorError::NotInSession);
        }
        let ghost s0 = tm@;
        let ghost black = self.items.black@;
        let ghost white = self.items.white@;
        let mut changes: Vec<Change> = Vec::new();
        let mut news: Vec<(Color, PenaltyKind, u8)> = Vec::new();
        collect_changes(&self.items.black, Color::Black, &mut changes, &mut news);
        collect_changes(&self.items.white, Color::White, &mut changes, &mut news);
        assert(changes@ =~= changes_of(black, Color::Black) + changes_of(white, Color::White));
        assert(news@ =~= news_of(black, Color::Black) + news_of(white, Color::White));
        self.items.black.clear();
        self.items.white.clear();
        let ordered = order_changes(&changes);
        let ghost cs = ordered@;
        let mut i: usize = 0;
        assert(cs.take(0) =~= Seq::<Change>::empty());
        while i < ordered.len()
            invariant
                0 <= i <= cs.len(),
                cs == ordered@,
                tm@.wf(),
                self.session_started,
                old(self).session_started,
                self.items.black@.len() == 0,
                self.items.white@.len() == 0,
                black == old(self).list(Color::Black),
                white == old(self).list(Color::White),
                s0 == old(tm)@,
                cs == apply_order(changes_of(black, Color::Black) + changes_of(white, Color::White)),
                apply_all(s0, cs.take(i as int)) == (tm@, Ok::<(), TournamentManagerError>(())),
            decreases cs.len() - i,
        {
            assert(cs.take(i as int + 1).drop_last() =~= cs.take(i as int));
            let r = apply_change(tm, ordered[i]);
            match r {
                Err(e) => {
                    proof {
                        lemma_apply_refusal_stays(s0, cs, i as int + 1);
                    }
                    return Err(PenaltyEditorError::TMError(e));
                },
                Ok(()) => {},
            }
            i = i + 1;
        }
        assert(cs.take(i as int) =~= cs);
        let ghost s1 = tm@;
        let ghost ns = news@;
        let mut j: usize = 0;
        assert(ns.take(0) =~= Seq::<(Color, PenaltyKind, u8)>::empty());
        while j < news.len()
            invariant
                0 <= j <= ns.len(),
                ns == news@,
                tm@.wf(),
                self.session_started,
                old(self).session_started,
                self.items.black@.len() == 0,
                self.items.white@.len() == 0,
                black == old(self).list(Color::Black),
                white == old(self).list(Color::White),
                s0 == old(tm)@,
                cs == apply_order(changes_of(black, Color::Black) + changes_of(white, Color::White)),
                apply_all(s0, cs) == (s1, Ok::<(), TournamentManagerError>(())),
                ns == news_of(black, Color::Black) + news_of(white, Color::White),
                add_all(s1, ns.take(j as int), now) == (tm@, Ok::<(), TournamentManagerError>(())),
            decreases ns.len() - j,
        {
            assert(ns.take(j as int + 1).drop_last() =~= ns.take(j as int));
            let (color, kind, number) = news[j];
            let r = tm.start_penalty(color, number, kind, now);
            match r {
                Err(e) => {
                    proof {
                        lemma_add_refusal_stays(s1, ns, now, j as int + 1);
                    }
                    return Err(PenaltyEditorError::TMError(e));
                },
                Ok(()) => {},
            }
            j = j + 1;
        }
        assert(ns.take(j as int) =~= ns);
        let b = match limit_list(tm, Color::Black, now) {
            Ok(b) => b,
            Err(e) => {
                return Err(PenaltyEditorError::TMError(e));
            },
        };
        let w = match limit_list(tm, Color::White, now) {
            Ok(w) => w,
            Err(e) => {
                return Err(PenaltyEditorError::TMError(e));
            },
        };
        self.session_started = false;
        if b || w {
            Err(PenaltyEditorError::ListTooLong { black: b, white: w })
        } else {
            Ok(())
        }
    }
}

/// A staged penalty as the editor lists it: its text, its mark and kind.
#[derive(Debug, Clone, PartialEq, Eq)]
pub struct PrintablePenaltySummary {
    pub text: String,
    pub hint: FormatHint,
    pub kind: PenaltyKind,
}

/// A penalty kind's short name.
pub open spec fn kind_text(k: PenaltyKind) -> Seq<char> {
    match k {
        PenaltyKind::OneMinute => "1m"@,
        PenaltyKind::TwoMinute => "2m"@,
        PenaltyKind::FiveMinute => "5m"@,
        PenaltyKind::TotalDismissal => "DSMS"@,
    }
}

fn kind_str(k: PenaltyKind) -> (r: &'static str)
    ensures
        r@ == kind_text(k),
{
    match k {
        PenaltyKind::OneMinute => "1m",
        PenaltyKind::TwoMinute => "2m",
        PenaltyKind::FiveMinute => "5m",
        PenaltyKind::TotalDismissal => "DSMS",
    }
}

/// How a staged penalty is marked.
pub open spec fn hint_of(item: EditableItem) -> FormatHint {
    match item {
        EditableItem::Original(_, _) => FormatHint::NoChange,
        EditableItem::Edited(_, _) => FormatHint::Edited,
        EditableItem::Deleted(_, _) => FormatHint::Deleted,
        EditableItem::New(_, _) => FormatHint::New,
    }
}

/// A staged penalty's player number and kind.
pub open spec fn number_and_kind(item: EditableItem) -> (u8, PenaltyKind) {
    match item {
        EditableItem::Original(_, p) => (p.player_number, p.kind),
        EditableItem::Edited(_, p) => (p.player_number, p.kind),
        EditableItem::Deleted(_, p) => (p.player_number, p.kind),
        EditableItem::New(k, n) => (n, k),
    }
}

/// The time shown for a staged penalty at `now`: the manager's text for a
/// penalty it holds, `Pending` for a new one.
pub open spec fn item_time(s: TournamentState, item: EditableItem, now: u64) -> Option<Seq<char>> {
    match item {
        EditableItem::Original(_, p) => s.penalty_time_text(p, now),
        EditableItem::Edited(_, p) => s.penalty_time_text(p, now),
        EditableItem::Deleted(_, p) => s.penalty_time_text(p, now),
        EditableItem::New(_, _) => Some("Pending"@),
    }
}

/// The text listed for a staged penalty, e.g. `Player 3 - 0:45 (1m)`.
pub open spec fn item_text(item: EditableItem, time: Seq<char>) -> Seq<char> {
    "Player "@ + decimal(number_and_kind(item).0 as nat) + " - "@ + time + " ("@ + kind_text(
        number_and_kind(item).1,
    ) + ")"@
}

/// Whether every staged penalty of `l` has a time at `now`.
pub open spec fn times_known(s: TournamentState, l: Seq<EditableItem>, now: u64) -> bool {
    forall|i: int| 0 <= i < l.len() ==> (#[trigger] item_time(s, l[i], now)) is Some
}

/// Whether `r` lists `l` as the editor shows it at `now`: one entry per
/// staged penalty when every time is known, none otherwise.
pub open spec fn lists_as(
    r: Seq<PrintablePenaltySummary>,
    s: TournamentState,
    l: Seq<EditableItem>,
    now: u64,
) -> bool {
    if times_known(s, l, now) {
        &&& r.len() == l.len()
        &&& forall|i: int|
            0 <= i < l.len() ==> {
                &&& (#[trigger] r[i]).text@ == item_text(l[i], item_time(s, l[i], now)->0)
                &&& r[i].hint == hint_of(l[i])
                &&& r[i].kind == number_and_kind(l[i]).1
            }
    } else {
        r.len() == 0
    }
}

fn printable_list(tm: &TournamentManager, l: &Vec<EditableItem>, now: u64) -> (r: Vec<
    PrintablePenaltySummary,
>)
    ensures
        lists_as(r@, tm@, l@, now),
{
    let mut r: Vec<PrintablePenaltySummary> = Vec::new();
    let mut i: usize = 0;
    while i < l.len()
        invariant
            0 <= i <= l@.len(),
            r@.len() == i,
            forall|j: int| 0 <= j < i ==> (#[trigger] item_time(tm@, l@[j], now)) is Some,
            forall|j: int|
                0 <= j < i ==> {
                    &&& (#[trigger] r@[j]).text@ == item_text(
                        l@[j],
                        item_time(tm@, l@[j], now)->0,
                    )
                    &&& r@[j].hint == hint_of(l@[j])
                    &&& r@[j].kind == number_and_kind(l@[j]).1
                },
        decreases l@.len() - i,
    {
        let item = l[i];
        let (number, kind, hint, time) = match item {
            EditableItem::Original(_, p) => (
                p.player_number,
                p.kind,
                FormatHint::NoChange,
                tm.printable_penalty_time(&p, now),
            ),
            EditableItem::Edited(_, p) => (
                p.player_number,
                p.kind,
                FormatHint::Edited,
                tm.printable_penalty_time(&p, now),
            ),
            EditableItem::Deleted(_, p) => (
                p.player_number,
                p.kind,
                FormatHint::Deleted,
                tm.printable_penalty_time(&p, now),
            ),
            EditableItem::New(k, n) => (n, k, FormatHint::New, Some(String::from_str("Pending"))),
        };
        let time = match time {
            Some(t) => t,
            None => {
                assert(item_time(tm@, l@[i as int], now) is None);
                return Vec::new();
            },
        };
        let text = String::from_str("Player ").concat(decimal_string(number as u64).as_str()).concat(
            " - ",
        ).concat(time.as_str()).concat(" (").concat(kind_str(kind)).concat(")");
        r.push(PrintablePenaltySummary { text, hint, kind });
        i = i + 1;
    }
    r
}

impl ListEditor {
    /// The staged lists as the editor shows them at `now` (see `lists_as`).
    pub fn get_printable_lists(&self, tm: &TournamentManager, now: u64) -> (r: Result<
        BlackWhiteBundle<Vec<PrintablePenaltySummary>>,
        PenaltyEditorError,
    >)
        ensures
            !self.session_started ==> r is Err && r->Err_0 == PenaltyEditorError::NotInSession,
            self.session_started ==> r is Ok && lists_as(
                r->Ok_0.black@,
                tm@,
                self.list(Color::Black),
                now,
            ) && lists_as(r->Ok_0.white@, tm@, self.list(Color::White), now),
    {
        if !self.session_started {
            return Err(PenaltyEditorError::NotInSession);
        }
        Ok(
            BlackWhiteBundle {
                black: printable_list(tm, &self.items.black, now),
                white: printable_list(tm, &self.items.white, now),
            },
        )
    }
}

/// The other team.
pub open spec fn other(c: Color) -> Color {
    match c {
        Color::Black => Color::White,
        Color::White => Color::Black,
    }
}

} // verus!
