//! A home: a name and the rooms it owns.

use vstd::prelude::*;
use crate::app_error::{AppError, Rejected};
use crate::names::{first_index, has_name, swap_removed, unique};
use crate::room::{device_lines, room_header, string_views, Room};
use crate::text::{decimal, push_decimal};

verus! {

/// A home and its rooms, no two with the same name.
pub struct Home {
    name: String,
    rooms: Vec<Room>,
}

/// The state of a home.
pub ghost struct HomeView {
    pub name: Seq<char>,
    pub rooms: Seq<Room>,
}

impl View for Home {
    type V = HomeView;

    closed spec fn view(&self) -> HomeView {
        HomeView { name: self.name@, rooms: self.rooms@ }
    }
}

/// The names of `rooms`, in order.
pub open spec fn room_names(rooms: Seq<Room>) -> Seq<Seq<char>> {
    rooms.map_values(|r: Room| r@.name)
}

/// The room named `name`, if any (the first one).
pub open spec fn room_named(rooms: Seq<Room>, name: Seq<char>) -> Option<Room> {
    match first_index(room_names(rooms), name) {
        Some(i) => Some(rooms[i]),
        None => None,
    }
}

/// Whether adding `room` to `rooms` is accepted: its name is free.
pub open spec fn add_accepted(rooms: Seq<Room>, room: Room) -> bool {
    !has_name(room_names(rooms), room@.name)
}

/// The rooms after adding `room`: appended when accepted, else unchanged.
pub open spec fn rooms_after_add(rooms: Seq<Room>, room: Room) -> Seq<Room> {
    if add_accepted(rooms, room) {
        rooms.push(room)
    } else {
        rooms
    }
}

/// The rooms after removing the one named `name`: the last room takes its
/// place; unchanged when no room has that name.
pub open spec fn rooms_after_remove(rooms: Seq<Room>, name: Seq<char>) -> Seq<Room> {
    match first_index(room_names(rooms), name) {
        Some(i) => swap_removed(rooms, i),
        None => rooms,
    }
}

/// The message of a refused add of a room named `name`.
pub open spec fn room_taken_message(name: Seq<char>) -> Seq<char> {
    "Room with name "@ + name + " already exists in the home"@
}

/// The line that closes a room's block in a home report.
pub open spec fn block_end() -> Seq<char> {
    "&&"@
}

/// The first line of a home report.
pub open spec fn home_header(name: Seq<char>, count: nat) -> Seq<char> {
    name + " report, "@ + decimal(count) + " room(s):"@
}

/// A room's block: its header, one line per device, and the closing line.
pub open spec fn room_block(r: Room) -> Seq<Seq<char>> {
    seq![room_header(r@)] + device_lines(r@.devices) + seq![block_end()]
}

/// The blocks of `rooms`, one after another in order.
pub open spec fn rooms_lines(rooms: Seq<Room>) -> Seq<Seq<char>>
    decreases rooms.len(),
{
    if rooms.len() == 0 {
        Seq::empty()
    } else {
        rooms_lines(rooms.drop_last()) + room_block(rooms.last())
    }
}

/// The full report of a home in state `h`.
pub open spec fn home_lines(h: HomeView) -> Seq<Seq<char>> {
    seq![home_header(h.name, h.rooms.len())] + rooms_lines(h.rooms)
}

impl Home {
    /// The home's invariant: no two rooms with one name, and every room well formed.
    pub open spec fn wf(&self) -> bool {
        unique(room_names(self@.rooms)) && forall|i: int|
            0 <= i < self@.rooms.len() ==> #[trigger] self@.rooms[i].wf()
    }

    /// A home without rooms.
    pub fn new(name: &str) -> (r: Home)
        ensures
            r@ == (HomeView { name: name@, rooms: Seq::empty() }),
            r.wf(),
    {
        let h = Home { name: name.to_owned(), rooms: Vec::new() };
        assert(room_names(h@.rooms) =~= Seq::empty());
        h
    }

    pub fn name(&self) -> (r: &str)
        ensures
            r@ == self@.name,
    {
        self.name.as_str()
    }

    fn position(&self, name: &String) -> (r: Option<usize>)
        ensures
            match r {
                Some(i) => first_index(room_names(self@.rooms), name@) == Some(i as int),
                None => first_index(room_names(self@.rooms), name@) is None,
            },
            r matches Some(i) ==> i < self@.rooms.len(),
    {
        let ghost names = room_names(self@.rooms);
        let mut i: usize = 0;
        while i < self.rooms.len()
            invariant
                i <= self.rooms@.len(),
                names == room_names(self@.rooms),
                first_index(names, name@) == crate::names::index_from(names, name@, i as int),
            decreases self.rooms@.len() - i,
        {
            assert(names[i as int] == self.rooms@[i as int]@.name);
            let room_name = self.rooms[i].name();
            if room_name.to_owned() == *name {
                return Some(i);
            }
            i = i + 1;
        }
        None
    }

    /// Adds `room` at the end when no room of the home has its name;
    /// otherwise hands it back with an error and leaves the home unchanged.
    pub fn add_room(&mut self, room: Room) -> (r: Result<(), Rejected<Room>>)
        ensures
            final(self)@ == (HomeView { rooms: rooms_after_add(old(self)@.rooms, room), ..old(self)@ }),
            r is Ok == add_accepted(old(self)@.rooms, room),
            r matches Err(e) ==> e.item == room && e.error@ == room_taken_message(room@.name),
            old(self).wf() && room.wf() ==> final(self).wf(),
    {
        let key = room.name().to_owned();
        match self.position(&key) {
            Some(_) => {
                let mut message = String::new();
                message.append("Room with name ");
                message.append(key.as_str());
                message.append(" already exists in the home");
                let error = AppError::new(message.as_str());
                Err(Rejected { error, item: room })
            },
            None => {
                proof {
                    if old(self).wf() {
                        crate::names::lemma_unique_push(room_names(self@.rooms), room@.name);
                    }
                }
                self.rooms.push(room);
                assert(room_names(self@.rooms) =~= room_names(old(self)@.rooms).push(room@.name));
                Ok(())
            },
        }
    }

    pub fn rooms_count(&self) -> (r: usize)
        ensures
            r == self@.rooms.len(),
    {
        self.rooms.len()
    }

    /// A header line with the home's name and room count, then for each room
    /// in order its header line, its device lines and a closing line.
    pub fn report(&self) -> (r: Vec<String>)
        ensures
            string_views(r@) == home_lines(self@),
    {
        let mut header = String::new();
        header.append(self.name.as_str());
        header.append(" report, ");
        push_decimal(&mut header, self.rooms.len() as u64);
        header.append(" room(s):");
        let mut reports: Vec<String> = Vec::new();
        reports.push(header);
        let mut i: usize = 0;
        while i < self.rooms.len()
            invariant
                i <= self@.rooms.len(),
                string_views(reports@) == seq![home_header(self@.name, self@.rooms.len())]
                    + rooms_lines(self@.rooms.subrange(0, i as int)),
            decreases self@.rooms.len() - i,
        {
            let room = &self.rooms[i];
            let mut room_line = String::new();
            room_line.append(room.name());
            room_line.append(" report, room area ");
            push_decimal(&mut room_line, room.area() as u64);
            let mut body = room.report();
            let ghost before = reports@;
            reports.push(room_line);
            let ghost with_header = reports@;
            let ghost body_lines = body@;
            reports.append(&mut body);
            let ghost with_body = reports@;
            reports.push("&&".to_owned());
            proof {
                let done = self@.rooms.subrange(0, i as int);
                let next = self@.rooms.subrange(0, i + 1);
                assert(next.drop_last() =~= done);
                assert(next.last() == *room);
                assert(string_views(with_header) =~= string_views(before).push(room_line@));
                assert(string_views(with_body) =~= string_views(with_header) + string_views(body_lines));
                assert(string_views(reports@) =~= string_views(with_body).push("&&"@));
                assert(string_views(reports@) =~= string_views(before) + room_block(*room));
            }
            i = i + 1;
        }
        assert(self@.rooms.subrange(0, i as int) =~= self@.rooms);
        reports
    }

    /// The room named `name`, if any.
    pub fn find(&self, name: &str) -> (r: Option<&Room>)
        ensures
            match r {
                Some(room) => room_named(self@.rooms, name@) == Some(*room),
                None => room_named(self@.rooms, name@) is None,
            },
    {
        let key = name.to_owned();
        match self.position(&key) {
            Some(i) => Some(&self.rooms[i]),
            None => None,
        }
    }

    /// Whether a room named `name` is in the home.
    pub fn contains(&self, name: &str) -> (r: bool)
        ensures
            r == has_name(room_names(self@.rooms), name@),
    {
        let key = name.to_owned();
        self.position(&key).is_some()
    }

    /// Removes and returns the room named `name`; the last room takes its
    /// place. Nothing changes when no room has that name.
    pub fn remove(&mut self, name: &str) -> (r: Option<Room>)
        ensures
            final(self)@ == (HomeView { rooms: rooms_after_remove(old(self)@.rooms, name@), ..old(self)@ }),
            r == room_named(old(self)@.rooms, name@),
            old(self).wf() ==> final(self).wf(),
    {
        let key = name.to_owned();
        match self.position(&key) {
            Some(i) => {
                let room = self.rooms.swap_remove(i);
                proof {
                    let names = room_names(old(self)@.rooms);
                    assert(room_names(self@.rooms) =~= swap_removed(names, i as int));
                    if old(self).wf() {
                        crate::names::lemma_unique_swap_removed(names, i as int);
                        assert forall|j: int| 0 <= j < self@.rooms.len() implies #[trigger] self@.rooms[j].wf() by {
                            if j == i as int {
                                assert(self@.rooms[j] == old(self)@.rooms[old(self)@.rooms.len() - 1]);
                            } else {
                                assert(self@.rooms[j] == old(self)@.rooms[j]);
                            }
                        }
                    }
                }
                Some(room)
            },
            None => None,
        }
    }
}

/// Adding two rooms with one name keeps only the first: the second add is
/// refused and leaves the rooms as they were, so a home that had no rooms
/// ends with exactly one.
pub proof fn lemma_same_name_room_added_once(home: Home, r1: Room, r2: Room)
    requires
        r1@.name == r2@.name,
    ensures
        !add_accepted(rooms_after_add(home@.rooms, r1), r2),
        rooms_after_add(rooms_after_add(home@.rooms, r1), r2) == rooms_after_add(home@.rooms, r1),
        home@.rooms.len() == 0 ==> rooms_after_add(rooms_after_add(home@.rooms, r1), r2).len()
            == 1,
{
    let rooms = home@.rooms;
    if add_accepted(rooms, r1) {
        let names = room_names(rooms.push(r1));
        assert(names =~= room_names(rooms).push(r1@.name));
        crate::names::lemma_first_index(names, r1@.name);
        assert(names[rooms.len() as int] == r1@.name);
    }
}

/// Whether a home contains a name is exactly whether looking the name up
/// finds a room.
pub proof fn lemma_contains_iff_found(home: Home, name: Seq<char>)
    ensures
        has_name(room_names(home@.rooms), name) == room_named(home@.rooms, name) is Some,
{
}

/// Removing a name that no room has returns nothing and changes nothing.
pub proof fn lemma_remove_missing_room(home: Home, name: Seq<char>)
    requires
        !has_name(room_names(home@.rooms), name),
    ensures
        room_named(home@.rooms, name) is None,
        rooms_after_remove(home@.rooms, name) == home@.rooms,
{
}

} // verus!
