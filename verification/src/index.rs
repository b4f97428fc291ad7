use vstd::prelude::*;

use crate::moves::GodotMove;
use crate::pieces::{GodotPieceColor, GodotPieceKind};
use crate::square::{
    lemma_engine_index_injective, spec_engine_index, spec_field_index, GodotSquare,
};

verus! {

/// The moves of `s`, in order, whose origin has engine index `j`.
pub open spec fn moves_with_origin(s: Seq<GodotMove>, j: int) -> Seq<GodotMove>
    decreases s.len(),
{
    if s.len() == 0 {
        Seq::empty()
    } else {
        let rest = moves_with_origin(s.drop_last(), j);
        if spec_engine_index(s.last().origin) == j {
            rest.push(s.last())
        } else {
            rest
        }
    }
}

/// The first move of `s` whose destination is `dest`, if any.
pub open spec fn spec_first_match(s: Seq<GodotMove>, dest: GodotSquare) -> Option<GodotMove>
    decreases s.len(),
{
    if s.len() == 0 {
        None
    } else if s[0].destination == dest {
        Some(s[0])
    } else {
        spec_first_match(s.subrange(1, s.len() as int), dest)
    }
}

/// Whether a move is shown as a candidate-destination marker. Promotion
/// variants of one destination are collapsed to the queen variant so the
/// destination is marked once.
pub open spec fn spec_is_helper(m: GodotMove) -> bool {
    !(m.special is Promotion) || m.promotion_piece == Some(GodotPieceKind::Queen)
}

/// The destinations of `s` that get a candidate marker, in order.
pub open spec fn spec_helper_destinations(s: Seq<GodotMove>) -> Seq<GodotSquare>
    decreases s.len(),
{
    if s.len() == 0 {
        Seq::empty()
    } else {
        let rest = spec_helper_destinations(s.drop_last());
        if spec_is_helper(s.last()) {
            rest.push(s.last().destination)
        } else {
            rest
        }
    }
}

/// The per-turn cache of legal moves, grouped by origin square. It is built
/// once per turn from the engine's enumeration, consulted for every selection
/// in that turn, and invalidated when the turn ends or a promotion flow is
/// abandoned.
pub struct LegalMoveIndex {
    pub built: bool,
    pub slots: Vec<Vec<GodotMove>>,
}

impl LegalMoveIndex {
    pub open spec fn wf(self) -> bool {
        &&& self.slots@.len() == 64
        &&& forall|j: int, k: int|
            0 <= j < 64 && 0 <= k < self.slots@[j]@.len() ==> {
                &&& (#[trigger] self.slots@[j]@[k]).wf()
                &&& spec_engine_index(self.slots@[j]@[k].origin) == j
            }
        &&& !self.built ==> forall|j: int| 0 <= j < 64 ==> self.slots@[j]@.len() == 0
    }

    /// The cached moves whose origin is `origin`, in enumeration order.
    pub open spec fn moves_at(self, origin: GodotSquare) -> Seq<GodotMove> {
        self.slots@[spec_engine_index(origin)]@
    }

    /// An empty, not-yet-built index.
    pub fn new() -> (idx: LegalMoveIndex)
        ensures
            idx.wf(),
            !idx.built,
            forall|origin: GodotSquare| origin.wf() ==> #[trigger] idx.moves_at(origin).len() == 0,
    {
        let mut slots: Vec<Vec<GodotMove>> = Vec::new();
        let mut j: usize = 0;
        while j < 64
            invariant
                j <= 64,
                slots@.len() == j,
                forall|i: int| 0 <= i < j ==> #[trigger] slots@[i]@.len() == 0,
            decreases 64 - j,
        {
            slots.push(Vec::new());
            j = j + 1;
        }
        LegalMoveIndex { built: false, slots }
    }

    /// Group the engine's enumeration by origin square. This is the single
    /// build point of a turn: the index must have been invalidated (or never
    /// built) before it is built again.
    pub fn build(&mut self, all_moves: Vec<GodotMove>)
        requires
            old(self).wf(),
            !old(self).built,
            forall|k: int| 0 <= k < all_moves@.len() ==> (#[trigger] all_moves@[k]).wf(),
        ensures
            final(self).wf(),
            final(self).built,
            forall|j: int|
                0 <= j < 64 ==> #[trigger] final(self).slots@[j]@ == moves_with_origin(
                    all_moves@,
                    j,
                ),
    {
        let n: usize = all_moves.len();
        let mut k: usize = 0;
        while k < n
            invariant
                k <= n,
                n == all_moves@.len(),
                forall|i: int| 0 <= i < n ==> (#[trigger] all_moves@[i]).wf(),
                self.slots@.len() == 64,
                forall|j: int, m: int|
                    0 <= j < 64 && 0 <= m < self.slots@[j]@.len() ==> {
                        &&& (#[trigger] self.slots@[j]@[m]).wf()
                        &&& spec_engine_index(self.slots@[j]@[m].origin) == j
                    },
                forall|j: int|
                    0 <= j < 64 ==> #[trigger] self.slots@[j]@ == moves_with_origin(
                        all_moves@.take(k as int),
                        j,
                    ),
            decreases n - k,
        {
            let m: GodotMove = all_moves[k];
            let e: usize = (m.origin.file + m.origin.rank * 8) as usize;
            let ghost pre_slots = self.slots@;
            self.slots[e].push(m);
            proof {
                let prefix = all_moves@.take(k as int);
                assert(all_moves@.take(k + 1) =~= prefix.push(m));
                assert forall|j: int| 0 <= j < 64 implies #[trigger] self.slots@[j]@
                    == moves_with_origin(all_moves@.take(k + 1), j) by {
                    assert(prefix.push(m).drop_last() =~= prefix);
                    if j != e {
                        assert(self.slots@[j] == pre_slots[j]);
                    }
                }
            }
            k = k + 1;
        }
        proof {
            assert(all_moves@.take(n as int) =~= all_moves@);
        }
        self.built = true;
    }

    /// Discard the cache. Called at the end of every turn and whenever a
    /// promotion flow is abandoned.
    pub fn invalidate(&mut self)
        requires
            old(self).wf(),
        ensures
            final(self).wf(),
            !final(self).built,
            forall|origin: GodotSquare|
                origin.wf() ==> #[trigger] final(self).moves_at(origin).len() == 0,
    {
        let mut j: usize = 0;
        while j < 64
            invariant
                j <= 64,
                self.slots@.len() == 64,
                forall|i: int| 0 <= i < j ==> #[trigger] self.slots@[i]@.len() == 0,
            decreases 64 - j,
        {
            self.slots[j].clear();
            j = j + 1;
        }
        self.built = false;
    }

    /// The cached moves starting at `origin`; empty if the origin has no
    /// legal moves or the index has not been built for this turn.
    pub fn lookup(&self, origin: &GodotSquare) -> (moves: &Vec<GodotMove>)
        requires
            self.wf(),
            origin.wf(),
        ensures
            moves@ == self.moves_at(*origin),
            forall|k: int|
                0 <= k < moves@.len() ==> (#[trigger] moves@[k]).wf() && moves@[k].origin
                    == *origin,
    {
        let e: usize = (origin.file + origin.rank * 8) as usize;
        let moves: &Vec<GodotMove> = &self.slots[e];
        proof {
            assert forall|k: int|
                0 <= k < moves@.len() implies (#[trigger] moves@[k]).wf() && moves@[k].origin
                == *origin by {
                lemma_engine_index_injective(moves@[k].origin, *origin);
            }
        }
        moves
    }

    /// The first cached move from `origin` to `destination`, regardless of
    /// its promotion tag. Every returned move really starts at `origin` and
    /// ends at `destination`.
    pub fn find(&self, origin: &GodotSquare, destination: &GodotSquare) -> (found: Option<
        GodotMove,
    >)
        requires
            self.wf(),
            origin.wf(),
        ensures
            found == spec_first_match(self.moves_at(*origin), *destination),
            found matches Some(m) ==> {
                &&& m.wf()
                &&& m.origin == *origin
                &&& m.destination == *destination
                &&& self.moves_at(*origin).contains(m)
            },
            found is None ==> forall|k: int|
                0 <= k < self.moves_at(*origin).len() ==> (#[trigger] self.moves_at(*origin)[k])
                    .destination != *destination,
    {
        let moves: &Vec<GodotMove> = self.lookup(origin);
        let ghost s = moves@;
        let n: usize = moves.len();
        let mut k: usize = 0;
        while k < n
            invariant
                k <= n,
                n == s.len(),
                moves@ == s,
                s == self.moves_at(*origin),
                forall|i: int|
                    0 <= i < s.len() ==> (#[trigger] s[i]).wf() && s[i].origin == *origin,
                forall|i: int| 0 <= i < k ==> (#[trigger] s[i]).destination != *destination,
            decreases n - k,
        {
            if moves[k].get_destination() == *destination {
                proof {
                    lemma_first_match_found(s, *destination, k as int);
                }
                return Some(moves[k]);
            }
            k = k + 1;
        }
        proof {
            lemma_first_match_none(s, *destination);
        }
        None
    }

    /// The candidate-destination markers for `origin`: the destination of
    /// every cached move from there, with the promotion variants of one
    /// destination collapsed to a single marker.
    pub fn helper_destinations(&self, origin: &GodotSquare) -> (dests: Vec<GodotSquare>)
        requires
            self.wf(),
            origin.wf(),
        ensures
            dests@ == spec_helper_destinations(self.moves_at(*origin)),
    {
        let moves: &Vec<GodotMove> = self.lookup(origin);
        let ghost s = moves@;
        let n: usize = moves.len();
        let mut dests: Vec<GodotSquare> = Vec::new();
        let mut k: usize = 0;
        while k < n
            invariant
                k <= n,
                n == s.len(),
                moves@ == s,
                dests@ == spec_helper_destinations(s.take(k as int)),
            decreases n - k,
        {
            let m: GodotMove = moves[k];
            let is_helper: bool = match (m.is_promotion(), m.get_promotion_piece()) {
                (false, _) => true,
                (true, Some(GodotPieceKind::Queen)) => true,
                (true, _) => false,
            };
            if is_helper {
                dests.push(m.get_destination());
            }
            proof {
                assert(s.take(k + 1) =~= s.take(k as int).push(m));
                assert(s.take(k as int).push(m).drop_last() =~= s.take(k as int));
            }
            k = k + 1;
        }
        proof {
            assert(s.take(n as int) =~= s);
        }
        dests
    }
}

/// Every move the index holds for an origin really starts at that origin:
/// under any viewer color, its source square has the same field index as the
/// origin it was looked up by.
pub proof fn lemma_lookup_moves_share_origin(
    idx: LegalMoveIndex,
    origin: GodotSquare,
    viewer: GodotPieceColor,
    k: int,
)
    requires
        idx.wf(),
        origin.wf(),
        0 <= k < idx.moves_at(origin).len(),
    ensures
        idx.moves_at(origin)[k].origin == origin,
        spec_field_index(idx.moves_at(origin)[k].origin, viewer) == spec_field_index(
            origin,
            viewer,
        ),
{
    lemma_engine_index_injective(idx.moves_at(origin)[k].origin, origin);
}

/// Every move the grouping puts into a slot is a move of the enumerated
/// list it was built from.
pub proof fn lemma_moves_with_origin_subset(s: Seq<GodotMove>, j: int, k: int)
    requires
        0 <= k < moves_with_origin(s, j).len(),
    ensures
        s.contains(moves_with_origin(s, j)[k]),
    decreases s.len(),
{
    if s.len() > 0 {
        let rest = moves_with_origin(s.drop_last(), j);
        if spec_engine_index(s.last().origin) == j && k == rest.len() {
            assert(s[s.len() - 1] == moves_with_origin(s, j)[k]);
        } else {
            lemma_moves_with_origin_subset(s.drop_last(), j, k);
            let i = choose|i: int|
                0 <= i < s.drop_last().len() && s.drop_last()[i] == moves_with_origin(
                    s.drop_last(),
                    j,
                )[k];
            assert(s[i] == moves_with_origin(s, j)[k]);
        }
    }
}

/// If nothing before position `i` matches and `s[i]` does, then the first
/// match is `s[i]`.
proof fn lemma_first_match_found(s: Seq<GodotMove>, dest: GodotSquare, i: int)
    requires
        0 <= i < s.len(),
        forall|k: int| 0 <= k < i ==> (#[trigger] s[k]).destination != dest,
        s[i].destination == dest,
    ensures
        spec_first_match(s, dest) == Some(s[i]),
    decreases i,
{
    if i > 0 {
        let tail = s.subrange(1, s.len() as int);
        lemma_first_match_found(tail, dest, i - 1);
    }
}

/// If no move of `s` matches, there is no first match.
proof fn lemma_first_match_none(s: Seq<GodotMove>, dest: GodotSquare)
    requires
        forall|k: int| 0 <= k < s.len() ==> (#[trigger] s[k]).destination != dest,
    ensures
        spec_first_match(s, dest) is None,
    decreases s.len(),
{
    if s.len() > 0 {
        lemma_first_match_none(s.subrange(1, s.len() as int), dest);
    }
}

} // verus!
