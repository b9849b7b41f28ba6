//! Bookmarked keys and the history of jumps.

use std::collections::VecDeque;
use vstd::prelude::*;

verus! {

/// A space and a key in it, as a mathematical value.
pub type PlaceView = (Seq<char>, Seq<char>);

/// The mathematical value of a place.
pub open spec fn place_view(place: (String, String)) -> PlaceView {
    (place.0@, place.1@)
}

/// The mathematical values of a sequence of places.
pub open spec fn places_view(places: Seq<(String, String)>) -> Seq<PlaceView> {
    Seq::new(places.len(), |i: int| place_view(places[i]))
}

/// The bookmarked keys, each with its space, in the order in which they were
/// bookmarked. A key of a space is bookmarked or it is not: none is held
/// twice.
pub struct Bookmarks {
    items: Vec<(String, String)>,
}

impl View for Bookmarks {
    type V = Seq<PlaceView>;

    closed spec fn view(&self) -> Seq<PlaceView> {
        places_view(self.items@)
    }
}

/// The bookmarks after `place` was bookmarked: it comes last where it is
/// new, and nothing changes where it is held.
pub open spec fn place_added(places: Seq<PlaceView>, place: PlaceView) -> Seq<PlaceView> {
    if places.contains(place) {
        places
    } else {
        places.push(place)
    }
}

/// The bookmarks after the bookmark of `place` was taken away.
pub open spec fn place_removed(places: Seq<PlaceView>, place: PlaceView) -> Seq<PlaceView> {
    if places.contains(place) {
        places.remove(places.index_of(place))
    } else {
        places
    }
}

impl Bookmarks {
    /// No place is held twice.
    pub closed spec fn wf(&self) -> bool {
        places_view(self.items@).no_duplicates()
    }

    /// No bookmarks.
    pub fn new() -> (r: Self)
        ensures
            r.wf(),
            r@ == Seq::<PlaceView>::empty(),
    {
        let r = Bookmarks { items: Vec::new() };
        assert(r@ =~= Seq::<PlaceView>::empty());
        r
    }

    /// Where `key` of `db` is held, if it is.
    fn position(&self, db: &String, key: &String) -> (r: Option<usize>)
        ensures
            match r {
                Some(i) => i < self@.len() && self@[i as int] == (db@, key@),
                None => !self@.contains((db@, key@)),
            },
    {
        let mut i: usize = 0;
        while i < self.items.len()
            invariant
                i <= self.items@.len(),
                forall|j: int| 0 <= j < i ==> places_view(self.items@)[j] != (db@, key@),
            decreases self.items@.len() - i,
        {
            if self.items[i].0 == *db && self.items[i].1 == *key {
                return Some(i);
            }
            i += 1;
        }
        None
    }

    /// Bookmarks `key` of `db`; nothing changes where it is bookmarked.
    pub fn add(&mut self, db: String, key: String)
        requires
            old(self).wf(),
        ensures
            final(self).wf(),
            final(self)@ == place_added(old(self)@, (db@, key@)),
    {
        let ghost before = self@;
        let ghost place = (db@, key@);
        match self.position(&db, &key) {
            None => {
                self.items.push((db, key));
                assert(self@ =~= before.push(place));
                assert forall|i: int, j: int|
                    0 <= i < j < self@.len() implies self@[i] != self@[j] by {
                    if j == before.len() {
                        assert(before[i] == self@[i]);
                    } else {
                        assert(before[i] == self@[i] && before[j] == self@[j]);
                    }
                }
            },
            Some(at) => {
                assert(before[at as int] == place);
            },
        }
    }

    /// Takes the bookmark of `key` of `db` away; nothing changes where it
    /// has none.
    pub fn remove(&mut self, db: &str, key: &str)
        requires
            old(self).wf(),
        ensures
            final(self).wf(),
            final(self)@ == place_removed(old(self)@, (db@, key@)),
    {
        let ghost before = self@;
        let ghost place = (db@, key@);
        match self.position(&db.to_owned(), &key.to_owned()) {
            Some(at) => {
                assert(before[at as int] == place);
                assert(before.contains(place));
                assert(before.index_of(place) == at) by {
                    let found = before.index_of(place);
                    assert(0 <= found < before.len() && before[found] == place);
                }
                self.items.remove(at);
                assert(self@ =~= before.remove(at as int));
                assert forall|i: int, j: int|
                    0 <= i < j < self@.len() implies self@[i] != self@[j] by {
                    let a = if i < at { i } else { i + 1 };
                    let b = if j < at { j } else { j + 1 };
                    assert(self@[i] == before[a] && self@[j] == before[b]);
                }
            },
            None => {},
        }
    }

    /// Whether `key` of `db` is bookmarked.
    pub fn contains(&self, db: &str, key: &str) -> (r: bool)
        ensures
            r == self@.contains((db@, key@)),
    {
        match self.position(&db.to_owned(), &key.to_owned()) {
            Some(at) => {
                assert(self@[at as int] == (db@, key@));
                true
            },
            None => false,
        }
    }

    /// The bookmarked places, in the order in which they were bookmarked.
    pub fn entries(&self) -> (r: Vec<(String, String)>)
        ensures
            places_view(r@) == self@,
    {
        let mut r: Vec<(String, String)> = Vec::new();
        let mut i: usize = 0;
        while i < self.items.len()
            invariant
                i <= self.items@.len(),
                places_view(r@) == places_view(self.items@).take(i as int),
            decreases self.items@.len() - i,
        {
            let ghost held = places_view(r@);
            r.push((self.items[i].0.clone(), self.items[i].1.clone()));
            assert(places_view(r@) =~= held.push(place_view(self.items@[i as int])));
            assert(places_view(r@) =~= places_view(self.items@).take(i as int + 1));
            i += 1;
        }
        assert(places_view(self.items@).take(i as int) =~= places_view(self.items@));
        r
    }
}

impl Default for Bookmarks {
    fn default() -> (r: Self)
        ensures
            r.wf(),
            r@ == Seq::<PlaceView>::empty(),
    {
        Bookmarks::new()
    }
}

/// The history of jumps as a mathematical value.
pub struct HistoryView {
    /// The places jumped to, oldest first.
    pub list: Seq<PlaceView>,
    /// The length at which the oldest place leaves when another comes.
    pub max: nat,
}

/// The places jumped to of late, oldest first. When a place comes to a
/// history that holds `max` places, the oldest leaves.
pub struct JumpHistory {
    list: VecDeque<(String, String)>,
    max: usize,
}

impl View for JumpHistory {
    type V = HistoryView;

    closed spec fn view(&self) -> HistoryView {
        HistoryView { list: places_view(self.list@), max: self.max as nat }
    }
}

/// The list of a history after `place` came to it.
pub open spec fn history_pushed(list: Seq<PlaceView>, max: nat, place: PlaceView) -> Seq<
    PlaceView,
> {
    if list.len() == max && list.len() > 0 {
        list.drop_first().push(place)
    } else {
        list.push(place)
    }
}

impl JumpHistory {
    /// An empty history that keeps `max` places.
    pub fn new(max: usize) -> (r: Self)
        ensures
            r@.list == Seq::<PlaceView>::empty(),
            r@.max == max,
    {
        let r = JumpHistory { list: VecDeque::new(), max };
        assert(r@.list =~= Seq::<PlaceView>::empty());
        r
    }

    /// Adds a jump to `key` of `db` as the newest. Where the history holds
    /// `max` places, the oldest leaves first.
    pub fn push(&mut self, db: String, key: String)
        ensures
            final(self)@.max == old(self)@.max,
            final(self)@.list == history_pushed(old(self)@.list, old(self)@.max, (db@, key@)),
    {
        let ghost before = places_view(self.list@);
        let ghost place = (db@, key@);
        if self.list.len() == self.max {
            self.list.pop_front();
        }
        self.list.push_back((db, key));
        assert(self@.list =~= history_pushed(before, self.max as nat, place));
    }

    /// The places of the history, oldest first.
    pub fn entries(&self) -> (r: Vec<(String, String)>)
        ensures
            places_view(r@) == self@.list,
    {
        let mut r: Vec<(String, String)> = Vec::new();
        let mut i: usize = 0;
        while i < self.list.len()
            invariant
                i <= self.list@.len(),
                places_view(r@) == places_view(self.list@).take(i as int),
            decreases self.list@.len() - i,
        {
            let ghost held = places_view(r@);
            r.push((self.list[i].0.clone(), self.list[i].1.clone()));
            assert(places_view(r@) =~= held.push(place_view(self.list@[i as int])));
            assert(places_view(r@) =~= places_view(self.list@).take(i as int + 1));
            i += 1;
        }
        assert(places_view(self.list@).take(i as int) =~= places_view(self.list@));
        r
    }
}

} // verus!
