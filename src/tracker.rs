use crate::buff::BuffState;
use crate::entry::{Entry, Player};
use vstd::prelude::*;
use vstd::string::StrSliceExecFns;

verus! {

/// Selects the key that the roster is sorted by.
#[derive(Debug, Clone, Copy, PartialEq, Eq, Structural)]
pub enum Sorting {
    /// Entries stay in the order in which they were added.
    Unsorted,
    /// By squad subgroup.
    Sub,
    /// By character name.
    Name,
    /// By food state.
    Food,
    /// By utility state.
    Util,
}

/// Rank of a buff state when sorting: unset, then absent, then unknown, then known.
pub open spec fn state_rank(s: BuffState) -> int {
    match s {
        BuffState::Unset => 0,
        BuffState::Absent => 1,
        BuffState::Unknown(_) => 2,
        BuffState::Known(_) => 3,
    }
}

/// The numeric sort key of an entry for the non-name sortings.
pub open spec fn primary_key(e: Entry, s: Sorting) -> int {
    match s {
        Sorting::Sub => e.player.subgroup as int,
        Sorting::Food => state_rank(e.food.state),
        Sorting::Util => state_rank(e.util.state),
        _ => 0,
    }
}

/// Lexicographic order on character sequences, from position `i` on.
pub open spec fn name_le_from(a: Seq<char>, b: Seq<char>, i: int) -> bool
    decreases a.len() - i,
{
    if i >= a.len() {
        true
    } else if i >= b.len() {
        false
    } else if (a[i] as u32) != (b[i] as u32) {
        (a[i] as u32) < (b[i] as u32)
    } else {
        name_le_from(a, b, i + 1)
    }
}

/// Lexicographic order on names.
pub open spec fn name_le(a: Seq<char>, b: Seq<char>) -> bool {
    name_le_from(a, b, 0)
}

/// Whether entry `x` may come before entry `y` when sorting ascending by `s`.
/// Ties on the key are broken by agent id.
pub open spec fn entry_le(x: Entry, y: Entry, s: Sorting) -> bool {
    if s is Name {
        let a = x.player.character@;
        let b = y.player.character@;
        (name_le(a, b) && !name_le(b, a)) || (name_le(a, b) && name_le(b, a) && x.player.id
            <= y.player.id)
    } else {
        primary_key(x, s) < primary_key(y, s) || (primary_key(x, s) == primary_key(y, s)
            && x.player.id <= y.player.id)
    }
}

/// Whether `x` may come before `y` under the sorting and direction given.
pub open spec fn order_le(x: Entry, y: Entry, s: Sorting, reverse: bool) -> bool {
    if reverse {
        entry_le(y, x, s)
    } else {
        entry_le(x, y, s)
    }
}

/// Whether the entries are in order.
pub open spec fn sorted_by(v: Seq<Entry>, s: Sorting, reverse: bool) -> bool {
    forall|i: int, j: int| 0 <= i < j < v.len() ==> order_le(#[trigger] v[i], #[trigger] v[j], s, reverse)
}

/// Whether no two entries share an agent id.
pub open spec fn unique_ids(v: Seq<Entry>) -> bool {
    forall|i: int, j: int|
        0 <= i < j < v.len() ==> (#[trigger] v[i]).player.id != (#[trigger] v[j]).player.id
}

/// Whether `new` holds the entries of `v`, sorted if a refresh was `due` and
/// there is a sort key, else in the same order.
pub open spec fn resorted(
    v: Seq<Entry>,
    new: Seq<Entry>,
    sorting: Sorting,
    reverse: bool,
    due: bool,
) -> bool {
    &&& new.to_multiset() == v.to_multiset()
    &&& due && !(sorting is Unsorted) ==> sorted_by(new, sorting, reverse)
    &&& !(due && !(sorting is Unsorted)) ==> new == v
}

/// The position of the entry with the agent id.
pub open spec fn index_of(v: Seq<Entry>, id: usize) -> int {
    choose|i: int| 0 <= i < v.len() && v[i].player.id == id
}

/// Whether the entries are well-formed and their agent ids unique.
pub open spec fn entries_wf(v: Seq<Entry>) -> bool {
    unique_ids(v) && forall|i: int| 0 <= i < v.len() ==> (#[trigger] v[i]).wf()
}

/// The entry with a tracked agent id is at the one position that holds it.
pub proof fn lemma_index_of(v: Seq<Entry>, i: int)
    requires
        unique_ids(v),
        0 <= i < v.len(),
    ensures
        has_id(v, v[i].player.id),
        index_of(v, v[i].player.id) == i,
{
    let id = v[i].player.id;
    assert(0 <= i < v.len() && v[i].player.id == id);
    let j = index_of(v, id);
    if j < i {
        assert(v[j].player.id != v[i].player.id);
    } else if i < j {
        assert(v[i].player.id != v[j].player.id);
    }
}

/// Replacing an entry by a well-formed one with the same agent id keeps the
/// entries well-formed.
pub proof fn lemma_update_keeps_wf(v: Seq<Entry>, i: int, e: Entry)
    requires
        entries_wf(v),
        0 <= i < v.len(),
        e.player.id == v[i].player.id,
        e.wf(),
    ensures
        entries_wf(v.update(i, e)),
{
    let n = v.update(i, e);
    assert forall|a: int, b: int| 0 <= a < b < n.len() implies (#[trigger] n[a]).player.id != (
    #[trigger] n[b]).player.id by {
        assert(v[a].player.id != v[b].player.id);
    }
    assert forall|a: int| 0 <= a < n.len() implies (#[trigger] n[a]).wf() by {
        if a != i {
            assert(n[a] == v[a]);
        }
    }
}

/// Whether some entry has the agent id.
pub open spec fn has_id(v: Seq<Entry>, id: usize) -> bool {
    exists|i: int| 0 <= i < v.len() && (#[trigger] v[i]).player.id == id
}

proof fn lemma_name_le_from_total_trans(a: Seq<char>, b: Seq<char>, c: Seq<char>, i: int)
    requires
        0 <= i,
    ensures
        name_le_from(a, b, i) || name_le_from(b, a, i),
        name_le_from(a, b, i) && name_le_from(b, c, i) ==> name_le_from(a, c, i),
    decreases a.len() - i,
{
    if i < a.len() && i < b.len() && i < c.len() {
        lemma_name_le_from_total_trans(a, b, c, i + 1);
    }
    if i < a.len() && i < b.len() {
        lemma_name_le_from_total_trans(a, b, b, i + 1);
    }
}

/// The sort order is total and transitive.
proof fn lemma_order_total_trans(x: Entry, y: Entry, z: Entry, s: Sorting, reverse: bool)
    ensures
        order_le(x, y, s, reverse) || order_le(y, x, s, reverse),
        order_le(x, y, s, reverse) && order_le(y, z, s, reverse) ==> order_le(x, z, s, reverse),
{
    let a = x.player.character@;
    let b = y.player.character@;
    let c = z.player.character@;
    lemma_name_le_from_total_trans(a, b, c, 0);
    lemma_name_le_from_total_trans(c, b, a, 0);
    lemma_name_le_from_total_trans(a, c, b, 0);
    lemma_name_le_from_total_trans(b, a, c, 0);
    lemma_name_le_from_total_trans(b, c, a, 0);
    lemma_name_le_from_total_trans(c, a, b, 0);
}

fn name_le_exec(a: &str, b: &str) -> (r: bool)
    ensures
        r == name_le(a@, b@),
{
    let la = a.unicode_len();
    let lb = b.unicode_len();
    let mut i: usize = 0;
    while i < la && i < lb
        invariant
            la == a@.len(),
            lb == b@.len(),
            i <= la,
            name_le(a@, b@) == name_le_from(a@, b@, i as int),
        decreases la - i,
    {
        let ca = a.get_char(i);
        let cb = b.get_char(i);
        if ca as u32 != cb as u32 {
            return (ca as u32) < (cb as u32);
        }
        i = i + 1;
    }
    i >= la
}

fn state_rank_exec(s: BuffState) -> (r: u8)
    ensures
        r as int == state_rank(s),
{
    match s {
        BuffState::Unset => 0,
        BuffState::Absent => 1,
        BuffState::Unknown(_) => 2,
        BuffState::Known(_) => 3,
    }
}

fn entry_le_exec(x: &Entry, y: &Entry, s: Sorting) -> (r: bool)
    ensures
        r == entry_le(*x, *y, s),
{
    match s {
        Sorting::Name => {
            let ab = name_le_exec(x.player.character.as_str(), y.player.character.as_str());
            let ba = name_le_exec(y.player.character.as_str(), x.player.character.as_str());
            (ab && !ba) || (ab && ba && x.player.id <= y.player.id)
        },
        _ => {
            let (px, py): (usize, usize) = match s {
                Sorting::Sub => (x.player.subgroup, y.player.subgroup),
                Sorting::Food => (
                    state_rank_exec(x.food.state) as usize,
                    state_rank_exec(y.food.state) as usize,
                ),
                Sorting::Util => (
                    state_rank_exec(x.util.state) as usize,
                    state_rank_exec(y.util.state) as usize,
                ),
                _ => (0, 0),
            };
            px < py || (px == py && x.player.id <= y.player.id)
        },
    }
}

fn order_le_exec(x: &Entry, y: &Entry, s: Sorting, reverse: bool) -> (r: bool)
    ensures
        r == order_le(*x, *y, s, reverse),
{
    if reverse {
        entry_le_exec(y, x, s)
    } else {
        entry_le_exec(x, y, s)
    }
}

/// A permutation of well-formed entries with unique agent ids keeps both.
proof fn lemma_permutation_keeps_wf(v: Seq<Entry>, r: Seq<Entry>)
    requires
        unique_ids(v),
        forall|i: int| 0 <= i < v.len() ==> (#[trigger] v[i]).wf(),
        r.to_multiset() == v.to_multiset(),
    ensures
        unique_ids(r),
        forall|i: int| 0 <= i < r.len() ==> (#[trigger] r[i]).wf(),
{
    broadcast use vstd::seq_lib::group_to_multiset_ensures;

    assert(v.no_duplicates()) by {
        assert forall|i: int, j: int| 0 <= i < v.len() && 0 <= j < v.len() && i != j implies v[i]
            != v[j] by {
            if i < j {
                assert(v[i].player.id != v[j].player.id);
            } else {
                assert(v[j].player.id != v[i].player.id);
            }
        }
    }
    v.lemma_multiset_has_no_duplicates();
    r.lemma_multiset_has_no_duplicates_conv();
    assert forall|i: int| 0 <= i < r.len() implies (#[trigger] r[i]).wf() by {
        assert(r.contains(r[i]));
        assert(r.to_multiset().count(r[i]) > 0);
        assert(v.to_multiset().count(r[i]) > 0);
        assert(v.contains(r[i]));
    }
    assert forall|i: int, j: int| 0 <= i < j < r.len() implies (#[trigger] r[i]).player.id != (
    #[trigger] r[j]).player.id by {
        assert(r.contains(r[i]) && r.contains(r[j]));
        assert(r.to_multiset().count(r[i]) > 0 && r.to_multiset().count(r[j]) > 0);
        assert(v.to_multiset().count(r[i]) > 0 && v.to_multiset().count(r[j]) > 0);
        assert(v.contains(r[i]) && v.contains(r[j]));
        let p = choose|p: int| 0 <= p < v.len() && v[p] == r[i];
        let q = choose|q: int| 0 <= q < v.len() && v[q] == r[j];
        assert(r[i] != r[j]);
        if p < q {
            assert(v[p].player.id != v[q].player.id);
        } else {
            assert(v[q].player.id != v[p].player.id);
        }
    }
}

/// Sorts the entries by insertion.
fn sort_entries(v: Vec<Entry>, s: Sorting, reverse: bool) -> (r: Vec<Entry>)
    ensures
        sorted_by(r@, s, reverse),
        r@.to_multiset() == v@.to_multiset(),
{
    broadcast use vstd::seq_lib::group_to_multiset_ensures, vstd::seq_lib::to_multiset_insert,
        vstd::multiset::group_multiset_axioms;

    let mut rest = v;
    let mut out: Vec<Entry> = Vec::new();
    while rest.len() > 0
        invariant
            sorted_by(out@, s, reverse),
            out@.to_multiset().add(rest@.to_multiset()) == v@.to_multiset(),
        decreases rest.len(),
    {
        let ghost before_rest = rest@;
        let e = rest.pop().unwrap();
        proof {
            assert(before_rest == rest@.push(e));
        }
        let mut pos: usize = 0;
        while pos < out.len() && order_le_exec(&out[pos], &e, s, reverse)
            invariant
                pos <= out.len(),
                forall|k: int| 0 <= k < pos ==> order_le(#[trigger] out@[k], e, s, reverse),
            decreases out.len() - pos,
        {
            pos = pos + 1;
        }
        let ghost old_out = out@;
        proof {
            if pos < old_out.len() {
                lemma_order_total_trans(old_out[pos as int], e, e, s, reverse);
                assert forall|k: int| pos <= k < old_out.len() implies order_le(
                    e,
                    #[trigger] old_out[k],
                    s,
                    reverse,
                ) by {
                    if k > pos {
                        lemma_order_total_trans(e, old_out[pos as int], old_out[k], s, reverse);
                    }
                }
            }
        }
        out.insert(pos, e);
        proof {
            assert(out@ == old_out.insert(pos as int, e));
            vstd::seq_lib::to_multiset_insert(old_out, pos as int, e);
            assert(out@.to_multiset() == old_out.to_multiset().insert(e));
            rest@.to_multiset_ensures();
            assert(before_rest.to_multiset() == rest@.to_multiset().insert(e));
            assert(out@.to_multiset().add(rest@.to_multiset()) =~= old_out.to_multiset().add(
                before_rest.to_multiset(),
            ));
            let n = out@;
            assert forall|i: int, j: int| 0 <= i < j < n.len() implies order_le(
                #[trigger] n[i],
                #[trigger] n[j],
                s,
                reverse,
            ) by {
                if j < pos {
                    assert(n[i] == old_out[i] && n[j] == old_out[j]);
                } else if j == pos {
                    assert(n[i] == old_out[i]);
                } else if i < pos {
                    assert(n[i] == old_out[i] && n[j] == old_out[j - 1]);
                    lemma_order_total_trans(n[i], e, n[j], s, reverse);
                } else if i == pos {
                    assert(n[j] == old_out[j - 1]);
                } else {
                    assert(n[i] == old_out[i - 1] && n[j] == old_out[j - 1]);
                }
            }
        }
    }
    out
}

/// The set of players currently tracked.
#[derive(Debug)]
pub struct Tracker {
    /// Tracked entries, in display order.
    pub players: Vec<Entry>,
    /// Active sort key.
    pub sorting: Sorting,
    /// Whether the sort order is reversed.
    pub reverse: bool,
}

impl Tracker {
    /// Agent ids are unique and every entry is well-formed.
    pub open spec fn wf(&self) -> bool {
        entries_wf(self.players@)
    }

    /// Creates an empty tracker with the given sorting.
    pub fn new(sorting: Sorting, reverse: bool) -> (r: Self)
        ensures
            r.players@.len() == 0,
            r.sorting == sorting,
            r.reverse == reverse,
            r.wf(),
    {
        Tracker { players: Vec::new(), sorting, reverse }
    }

    /// Returns the position of the entry with the agent id, if it is tracked.
    pub fn find_index(&self, id: usize) -> (r: Option<usize>)
        ensures
            r matches Some(i) ==> i < self.players@.len() && self.players@[i as int].player.id
                == id,
            r is None <==> !has_id(self.players@, id),
    {
        let mut i: usize = 0;
        while i < self.players.len()
            invariant
                i <= self.players@.len(),
                forall|k: int| 0 <= k < i ==> (#[trigger] self.players@[k]).player.id != id,
            decreases self.players.len() - i,
        {
            if self.players[i].player.id == id {
                return Some(i);
            }
            i = i + 1;
        }
        None
    }

    /// Re-sorts the entries by the active sort key.
    pub fn refresh_sort(&mut self)
        requires
            old(self).wf(),
        ensures
            final(self).sorting == old(self).sorting,
            final(self).reverse == old(self).reverse,
            final(self).wf(),
            final(self).players@.to_multiset() == old(self).players@.to_multiset(),
            old(self).sorting is Unsorted ==> final(self).players@ == old(self).players@,
            !(old(self).sorting is Unsorted) ==> sorted_by(
                final(self).players@,
                old(self).sorting,
                old(self).reverse,
            ),
    {
        if self.sorting != Sorting::Unsorted {
            let mut taken: Vec<Entry> = Vec::new();
            std::mem::swap(&mut taken, &mut self.players);
            let sorted = sort_entries(taken, self.sorting, self.reverse);
            self.players = sorted;
            proof {
                lemma_permutation_keeps_wf(old(self).players@, self.players@);
            }
        }
    }

    /// Adds a new entry for the player, unless its agent id is tracked already.
    ///
    /// Returns `true` if the player was added.
    pub fn add_player(&mut self, player: Player) -> (r: bool)
        requires
            old(self).wf(),
        ensures
            r == !has_id(old(self).players@, player.id),
            final(self).wf(),
            final(self).sorting == old(self).sorting,
            final(self).reverse == old(self).reverse,
            !r ==> final(self).players@ == old(self).players@,
            r ==> resorted(
                old(self).players@.push(Entry::fresh(player)),
                final(self).players@,
                old(self).sorting,
                old(self).reverse,
                true,
            ),
    {
        if self.find_index(player.id).is_some() {
            return false;
        }
        let ghost id = player.id;
        self.players.push(Entry::new(player));
        proof {
            let v = self.players@;
            assert forall|i: int, j: int| 0 <= i < j < v.len() implies (#[trigger] v[i]).player.id
                != (#[trigger] v[j]).player.id by {
                if j == v.len() - 1 {
                    assert(old(self).players@[i] == v[i]);
                }
            }
            assert forall|i: int| 0 <= i < v.len() implies (#[trigger] v[i]).wf() by {
                if i < v.len() - 1 {
                    assert(old(self).players@[i] == v[i]);
                }
            }
        }
        self.refresh_sort();
        true
    }

    /// Removes the entry with the agent id, if it is tracked.
    ///
    /// Returns `true` if an entry was removed.
    pub fn remove_player(&mut self, id: usize) -> (r: bool)
        requires
            old(self).wf(),
        ensures
            r == has_id(old(self).players@, id),
            final(self).wf(),
            final(self).sorting == old(self).sorting,
            final(self).reverse == old(self).reverse,
            !r ==> final(self).players@ == old(self).players@,
            r ==> exists|i: int|
                0 <= i < old(self).players@.len() && old(self).players@[i].player.id == id
                    && final(self).players@ == old(self).players@.remove(i),
    {
        match self.find_index(id) {
            Some(i) => {
                self.players.remove(i);
                proof {
                    let o = old(self).players@;
                    let v = self.players@;
                    assert(v == o.remove(i as int));
                    assert forall|a: int, b: int| 0 <= a < b < v.len() implies (
                    #[trigger] v[a]).player.id != (#[trigger] v[b]).player.id by {
                        if a < i && b < i {
                            assert(v[a] == o[a] && v[b] == o[b]);
                        } else if a < i {
                            assert(v[a] == o[a] && v[b] == o[b + 1]);
                        } else {
                            assert(v[a] == o[a + 1] && v[b] == o[b + 1]);
                        }
                    }
                    assert forall|a: int| 0 <= a < v.len() implies (#[trigger] v[a]).wf() by {
                        if a < i {
                            assert(v[a] == o[a]);
                        } else {
                            assert(v[a] == o[a + 1]);
                        }
                    }
                }
                true
            },
            None => false,
        }
    }

    /// Re-sorts the entries only if `sorting` is the active sort key.
    pub fn refresh_sort_if(&mut self, sorting: Sorting)
        requires
            old(self).wf(),
        ensures
            final(self).sorting == old(self).sorting,
            final(self).reverse == old(self).reverse,
            final(self).wf(),
            resorted(
                old(self).players@,
                final(self).players@,
                old(self).sorting,
                old(self).reverse,
                old(self).sorting == sorting,
            ),
            old(self).sorting != sorting ==> final(self).players@ == old(self).players@,
    {
        if self.sorting == sorting {
            self.refresh_sort();
        }
    }
}

} // verus!
