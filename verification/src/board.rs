use vstd::prelude::*;
use crate::codec::{
    empty_record, fen_decoded, fen_encoded, piece_on, position_of, put_piece, read_fen, rest_of,
    write_fen,
};
use crate::error::FenError;
use crate::notation::{find_layout_error, layout_error};
use crate::piece::Piece;
use crate::position::{Position, State};
use crate::space::{space_at, Space};

verus! {

/// What decoding a text gives: the fault in its shape where it has one,
/// and else what the `fen` crate makes of it.
pub open spec fn decoded(text: Seq<char>) -> Result<Position, FenError> {
    match layout_error(text) {
        Some(error) => Err(error),
        None => fen_decoded(text),
    }
}

/// The state that a record of the `fen` crate holds.
fn state_of(record: &fen::BoardState) -> (state: State)
    requires
        position_of(*record).wf(),
    ensures
        state@ == position_of(*record),
{
    let mut state = rest_of(record);
    assert(state.pieces@ =~= position_of(*record).pieces.take(0));
    let mut i: usize = 0;
    while i < 64
        invariant
            i <= 64,
            position_of(*record).wf(),
            state@ == position_of(*record).with_pieces(position_of(*record).pieces.take(i as int)),
        decreases 64 - i,
    {
        state.pieces.push(piece_on(record, i));
        assert(state.pieces@ =~= position_of(*record).pieces.take(i + 1));
        i += 1;
    }
    assert(position_of(*record).pieces.take(64) =~= position_of(*record).pieces);
    state
}

/// A record of the `fen` crate that holds a state.
fn record_of(state: &State) -> (record: fen::BoardState)
    requires
        state@.wf(),
    ensures
        position_of(record) == state@,
{
    let mut record = empty_record(state);
    assert(position_of(record).pieces =~= state@.filled_to(0).pieces);
    let mut i: usize = 0;
    while i < 64
        invariant
            i <= 64,
            state@.wf(),
            position_of(record) == state@.filled_to(i as int),
        decreases 64 - i,
    {
        match state.pieces[i] {
            Some(piece) => {
                put_piece(&mut record, i, piece);
            },
            None => {},
        }
        assert(position_of(record).pieces =~= state@.filled_to(i + 1).pieces);
        i += 1;
    }
    assert(state@.filled_to(64).pieces =~= state@.pieces);
    record
}

/// A board with its pieces, and with what the notation records beside
/// them. It always has 64 squares.
#[derive(Debug, PartialEq, Eq)]
pub struct Board(State);

impl View for Board {
    type V = Position;

    closed spec fn view(&self) -> Position {
        self.0@
    }
}

impl Board {
    #[verifier::type_invariant]
    spec fn inv(self) -> bool {
        self.0@.wf()
    }

    /// A board in the given state, where the state has 64 squares and
    /// its en passant target, if any, is the index of a square.
    pub fn new(state: State) -> (r: Option<Board>)
        ensures
            match r {
                Some(board) => state@.wf() && board@ == state@,
                None => !state@.wf(),
            },
    {
        let sound = match state.en_passant_square {
            Some(target) => target < 64,
            None => true,
        };
        if state.pieces.len() == 64 && sound {
            Some(Board(state))
        } else {
            None
        }
    }

    /// Decodes a position written in Forsyth-Edwards notation. A text of
    /// unsound shape is refused with the fault that `layout_error` finds;
    /// a text of sound shape is handed to the `fen` crate.
    pub fn from_fen(fen: &str) -> (r: Result<Board, FenError>)
        ensures
            match r {
                Ok(board) => decoded(fen@) == Ok::<Position, FenError>(board@) && board@.wf(),
                Err(error) => decoded(fen@) == Err::<Position, FenError>(error),
            },
    {
        match find_layout_error(fen) {
            Some(error) => Err(error),
            None => match read_fen(fen) {
                Ok(record) => Ok(Board(state_of(&record))),
                Err(error) => Err(error),
            },
        }
    }

    /// Writes the position in Forsyth-Edwards notation, as the `fen`
    /// crate writes it.
    pub fn to_fen(&self) -> (text: String)
        ensures
            self@.wf(),
            text@ == fen_encoded(self@),
    {
        proof {
            use_type_invariant(self);
        }
        write_fen(&record_of(&self.0))
    }

    /// Moves whatever stands on square `from` to square `to`, and empties
    /// `from`. What stood on `to` is gone. Where `from` is empty, `to` is
    /// emptied too; where both are the same square, that square is
    /// emptied. Nothing else changes: not the other squares, and not what
    /// the position records beside the pieces.
    pub fn move_piece(&mut self, from: Space, to: Space)
        ensures
            old(self)@.wf(),
            final(self)@.wf(),
            final(self)@ == old(self)@.relocated(from.index(), to.index()),
    {
        proof {
            use_type_invariant(&*self);
        }
        let moved: Option<Piece> = self.0.pieces[from.to_index()];
        self.0.pieces[to.to_index()] = moved;
        self.0.pieces[from.to_index()] = None;
    }

    /// The state of the board.
    pub fn state(&self) -> (state: &State)
        ensures
            self@.wf(),
            state@ == self@,
    {
        proof {
            use_type_invariant(self);
        }
        &self.0
    }

    /// What stands on a square.
    pub fn piece_at(&self, space: Space) -> (piece: Option<Piece>)
        ensures
            self@.wf(),
            piece == self@.pieces[space.index()],
    {
        proof {
            use_type_invariant(self);
        }
        self.0.pieces[space.to_index()]
    }

    /// The square that a pawn may be taken on in passing, if there is one.
    pub fn en_passant(&self) -> (target: Option<Space>)
        ensures
            self@.wf(),
            match self@.en_passant_square {
                Some(index) => target == Some(space_at(index as int)),
                None => target is None,
            },
    {
        proof {
            use_type_invariant(self);
        }
        match self.0.en_passant_square {
            Some(index) => Space::from_index(index as usize),
            None => None,
        }
    }

    /// All 64 squares in index order, each with what stands on it.
    pub fn pieces(&self) -> (all: Vec<(Space, Option<Piece>)>)
        ensures
            self@.wf(),
            all.len() == 64,
            forall|i: int| 0 <= i < 64 ==> #[trigger] all[i] == (space_at(i), self@.pieces[i]),
    {
        proof {
            use_type_invariant(self);
        }
        let mut all: Vec<(Space, Option<Piece>)> = Vec::new();
        let mut i: usize = 0;
        while i < 64
            invariant
                i <= 64,
                all.len() == i,
                self.0@.wf(),
                forall|j: int| 0 <= j < i ==> #[trigger] all[j] == (space_at(j), self@.pieces[j]),
            decreases 64 - i,
        {
            match Space::from_index(i) {
                Some(space) => {
                    all.push((space, self.0.pieces[i]));
                },
                None => {},
            }
            i += 1;
        }
        all
    }
}

} // verus!
