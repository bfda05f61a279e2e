//! Card records as the store hands them out.

use vstd::prelude::*;

verus! {

/// One stored card: the game it belongs to, its title, and the game-specific
/// data that the game's render script understands.
#[derive(Debug, PartialEq, Eq)]
pub struct CardRecord {
    pub game: String,
    pub title: String,
    pub payload: String,
}

/// What a [`CardRecord`] holds, as character sequences.
pub struct CardRecordView {
    pub game: Seq<char>,
    pub title: Seq<char>,
    pub payload: Seq<char>,
}

impl View for CardRecord {
    type V = CardRecordView;

    open spec fn view(&self) -> CardRecordView {
        CardRecordView { game: self.game@, title: self.title@, payload: self.payload@ }
    }
}

impl Clone for CardRecord {
    fn clone(&self) -> (r: Self)
        ensures
            r == *self,
    {
        CardRecord {
            game: self.game.clone(),
            title: self.title.clone(),
            payload: self.payload.clone(),
        }
    }
}

/// The views of a sequence of records, in the same order.
pub open spec fn records_view(records: Seq<CardRecord>) -> Seq<CardRecordView> {
    Seq::new(records.len(), |i: int| records[i]@)
}

/// The titles of a sequence of records, in the same order.
pub open spec fn titles_of(records: Seq<CardRecordView>) -> Seq<Seq<char>> {
    Seq::new(records.len(), |i: int| records[i].title)
}

} // verus!
