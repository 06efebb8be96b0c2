//! The user's settings: display toggles, the accent colour, the API token and
//! the names and statuses remembered for each userproxy.

use vstd::prelude::*;
use crate::event::SortDirection;

verus! {

/// A terminal colour, as the accent of the interface uses it.
#[derive(Debug, Clone, Copy, PartialEq, Eq, Structural)]
pub enum AccentColor {
    Reset,
    Black,
    Red,
    Green,
    Yellow,
    Blue,
    Magenta,
    Cyan,
    Gray,
    DarkGray,
    LightRed,
    LightGreen,
    LightYellow,
    LightBlue,
    LightMagenta,
    LightCyan,
    White,
    Rgb(u8, u8, u8),
    Indexed(u8),
}

/// The number of colours that the accent cycles through.
pub const PALETTE_LEN: usize = 17;

/// The colours that the accent cycles through, in order.
pub open spec fn palette() -> Seq<AccentColor> {
    seq![
        AccentColor::Reset,
        AccentColor::Black,
        AccentColor::Red,
        AccentColor::Green,
        AccentColor::Yellow,
        AccentColor::Blue,
        AccentColor::Magenta,
        AccentColor::Cyan,
        AccentColor::Gray,
        AccentColor::DarkGray,
        AccentColor::LightRed,
        AccentColor::LightGreen,
        AccentColor::LightYellow,
        AccentColor::LightBlue,
        AccentColor::LightMagenta,
        AccentColor::LightCyan,
        AccentColor::White,
    ]
}

/// Where `c` stands in the palette; colours outside it count as the first entry.
pub open spec fn palette_position(c: AccentColor) -> int {
    if palette().contains(c) {
        palette().index_of(c)
    } else {
        0
    }
}

/// The colour one step from `c` in `direction`, wrapping around the palette.
pub open spec fn cycled_color(c: AccentColor, direction: SortDirection) -> AccentColor {
    let step: int = match direction {
        SortDirection::Ascending => 1,
        SortDirection::Descending => PALETTE_LEN - 1,
    };
    palette()[(palette_position(c) + step) % (PALETTE_LEN as int)]
}

/// The colour `n` steps from `c` in `direction`.
pub open spec fn cycled_times(c: AccentColor, direction: SortDirection, n: nat) -> AccentColor
    decreases n,
{
    if n == 0 {
        c
    } else {
        cycled_color(cycled_times(c, direction, (n - 1) as nat), direction)
    }
}

proof fn lemma_palette_distinct()
    ensures
        palette().len() == PALETTE_LEN,
        forall|i: int, j: int|
            0 <= i < PALETTE_LEN && 0 <= j < PALETTE_LEN && palette()[i] == palette()[j] ==> i == j,
{
}

/// The palette entry at `i` stands at position `i`.
pub proof fn lemma_palette_position_of_entry(i: int)
    requires
        0 <= i < PALETTE_LEN,
    ensures
        palette().contains(palette()[i]),
        palette_position(palette()[i]) == i,
{
    lemma_palette_distinct();
    let c = palette()[i];
    assert(palette().contains(c));
    let k = palette().index_of(c);
    assert(0 <= k < palette().len() && palette()[k] == c);
}

/// Index of `c` in the palette, or 0 where it is not there.
fn palette_index(c: AccentColor) -> (res: usize)
    ensures
        res == palette_position(c),
        res < PALETTE_LEN,
{
    let res: usize = match c {
        AccentColor::Reset => 0,
        AccentColor::Black => 1,
        AccentColor::Red => 2,
        AccentColor::Green => 3,
        AccentColor::Yellow => 4,
        AccentColor::Blue => 5,
        AccentColor::Magenta => 6,
        AccentColor::Cyan => 7,
        AccentColor::Gray => 8,
        AccentColor::DarkGray => 9,
        AccentColor::LightRed => 10,
        AccentColor::LightGreen => 11,
        AccentColor::LightYellow => 12,
        AccentColor::LightBlue => 13,
        AccentColor::LightMagenta => 14,
        AccentColor::LightCyan => 15,
        AccentColor::White => 16,
        AccentColor::Rgb(_, _, _) => {
            assert(!palette().contains(c)) by {
                if palette().contains(c) {
                    let k = choose|k: int| 0 <= k < palette().len() && palette()[k] == c;
                    assert(palette()[k] == c);
                }
            }
            0
        },
        AccentColor::Indexed(_) => {
            assert(!palette().contains(c)) by {
                if palette().contains(c) {
                    let k = choose|k: int| 0 <= k < palette().len() && palette()[k] == c;
                    assert(palette()[k] == c);
                }
            }
            0
        },
    };
    proof {
        if palette().contains(c) {
            lemma_palette_position_of_entry(res as int);
        }
    }
    res
}

/// The palette entry at `i`.
fn palette_color(i: usize) -> (res: AccentColor)
    requires
        i < PALETTE_LEN,
    ensures
        res == palette()[i as int],
{
    match i {
        0 => AccentColor::Reset,
        1 => AccentColor::Black,
        2 => AccentColor::Red,
        3 => AccentColor::Green,
        4 => AccentColor::Yellow,
        5 => AccentColor::Blue,
        6 => AccentColor::Magenta,
        7 => AccentColor::Cyan,
        8 => AccentColor::Gray,
        9 => AccentColor::DarkGray,
        10 => AccentColor::LightRed,
        11 => AccentColor::LightGreen,
        12 => AccentColor::LightYellow,
        13 => AccentColor::LightBlue,
        14 => AccentColor::LightMagenta,
        15 => AccentColor::LightCyan,
        _ => AccentColor::White,
    }
}

/// The colour one step from `c` in `direction` through the palette.
pub fn next_accent_color(c: AccentColor, direction: SortDirection) -> (res: AccentColor)
    ensures
        res == cycled_color(c, direction),
{
    let i = palette_index(c);
    let step: usize = match direction {
        SortDirection::Ascending => 1,
        SortDirection::Descending => PALETTE_LEN - 1,
    };
    palette_color((i + step) % PALETTE_LEN)
}

/// Cycling always lands on a colour of the palette.
pub proof fn lemma_cycle_stays_in_palette(c: AccentColor, direction: SortDirection)
    ensures
        palette().contains(cycled_color(c, direction)),
{
    let k = (palette_position(c) + match direction {
        SortDirection::Ascending => 1int,
        SortDirection::Descending => PALETTE_LEN - 1,
    }) % (PALETTE_LEN as int);
    lemma_palette_position_of_entry(k);
}

/// For a colour of the palette, one step back undoes one step forward.
pub proof fn lemma_cycle_round_trip(c: AccentColor, direction: SortDirection)
    requires
        palette().contains(c),
    ensures
        cycled_color(cycled_color(c, direction), direction.opposite()) == c,
{
    let p = palette_position(c);
    let k = palette().index_of(c);
    assert(0 <= p < PALETTE_LEN && palette()[p] == c);
    let step: int = match direction {
        SortDirection::Ascending => 1,
        SortDirection::Descending => PALETTE_LEN - 1,
    };
    let q = (p + step) % (PALETTE_LEN as int);
    lemma_palette_position_of_entry(q);
    let back: int = match direction.opposite() {
        SortDirection::Ascending => 1,
        SortDirection::Descending => PALETTE_LEN - 1,
    };
    assert((q + back) % (PALETTE_LEN as int) == p);
}

proof fn lemma_cycled_times_position(c: AccentColor, direction: SortDirection, n: nat)
    requires
        palette().contains(c),
    ensures
        palette().contains(cycled_times(c, direction, n)),
        palette_position(cycled_times(c, direction, n)) == (palette_position(c) + n * match direction {
            SortDirection::Ascending => 1int,
            SortDirection::Descending => PALETTE_LEN - 1,
        }) % (PALETTE_LEN as int),
    decreases n,
{
    let step: int = match direction {
        SortDirection::Ascending => 1,
        SortDirection::Descending => PALETTE_LEN - 1,
    };
    let m = PALETTE_LEN as int;
    let p = palette_position(c);
    if n == 0 {
        assert(0 <= p < m);
        assert(p % m == p);
    } else {
        lemma_cycled_times_position(c, direction, (n - 1) as nat);
        let prev = cycled_times(c, direction, (n - 1) as nat);
        let pp = palette_position(prev);
        assert(pp == (p + (n - 1) * step) % m);
        let q = (pp + step) % m;
        lemma_palette_position_of_entry(q);
        assert(cycled_times(c, direction, n) == palette()[q]);
        vstd::arithmetic::div_mod::lemma_add_mod_noop(p + (n - 1) * step, step, m);
        vstd::arithmetic::div_mod::lemma_mod_twice(step, m);
        vstd::arithmetic::div_mod::lemma_add_mod_noop(p + (n - 1) * step, step % m, m);
        assert(p + (n - 1) * step + step == p + n * step) by (nonlinear_arith);
        assert(step % m == step);
        vstd::arithmetic::div_mod::lemma_mod_twice(p + (n - 1) * step, m);
        assert(q == (p + n * step) % m);
    }
}

/// Seventeen steps in one direction bring a palette colour back to itself.
pub proof fn lemma_cycle_full_period(c: AccentColor, direction: SortDirection)
    requires
        palette().contains(c),
    ensures
        cycled_times(c, direction, PALETTE_LEN as nat) == c,
{
    lemma_cycled_times_position(c, direction, PALETTE_LEN as nat);
    let step: int = match direction {
        SortDirection::Ascending => 1,
        SortDirection::Descending => PALETTE_LEN - 1,
    };
    let m = PALETTE_LEN as int;
    let p = palette_position(c);
    assert(0 <= p < m && palette()[p] == c);
    vstd::arithmetic::div_mod::lemma_mod_multiples_vanish(step, p, m);
    assert(p + m * step == p + (PALETTE_LEN as nat) * step) by (nonlinear_arith)
        requires
            m == PALETTE_LEN as int,
    ;
    assert(p % m == p);
    let d = cycled_times(c, direction, PALETTE_LEN as nat);
    let k = palette().index_of(d);
    assert(palette()[k] == d);
}


/// The remembered name and status of one userproxy, keyed by its id.
#[derive(Debug)]
pub struct SavedStatus {
    pub id: String,
    pub name: String,
    pub status: String,
}

/// Names and statuses remembered per userproxy id.
#[derive(Debug)]
pub struct SavedStatuses {
    entries: Vec<SavedStatus>,
}

/// No two entries share an id.
pub open spec fn ids_unique(s: Seq<SavedStatus>) -> bool {
    forall|i: int, j: int| 0 <= i < s.len() && 0 <= j < s.len() && i != j ==> s[i].id@ != s[j].id@
}

/// The map from id to (name, status) that a list of entries describes.
pub open spec fn entries_map(s: Seq<SavedStatus>) -> Map<Seq<char>, (Seq<char>, Seq<char>)> {
    Map::new(
        |k: Seq<char>| exists|i: int| 0 <= i < s.len() && s[i].id@ == k,
        |k: Seq<char>|
            {
                let i = choose|i: int| 0 <= i < s.len() && s[i].id@ == k;
                (s[i].name@, s[i].status@)
            },
    )
}

/// In a list without repeated ids, the map gives each entry's own name and status.
pub proof fn lemma_entries_map_lookup(s: Seq<SavedStatus>, i: int)
    requires
        ids_unique(s),
        0 <= i < s.len(),
    ensures
        entries_map(s).contains_key(s[i].id@),
        entries_map(s)[s[i].id@] == (s[i].name@, s[i].status@),
{
    let k = s[i].id@;
    assert(exists|j: int| 0 <= j < s.len() && s[j].id@ == k);
    let j = choose|j: int| 0 <= j < s.len() && s[j].id@ == k;
    assert(j == i);
}

impl View for SavedStatuses {
    type V = Map<Seq<char>, (Seq<char>, Seq<char>)>;

    closed spec fn view(&self) -> Map<Seq<char>, (Seq<char>, Seq<char>)> {
        entries_map(self.entries@)
    }
}

impl SavedStatuses {
    /// The entries hold no repeated id.
    pub closed spec fn wf(&self) -> bool {
        ids_unique(self.entries@)
    }

    /// Nothing remembered.
    pub fn new() -> (res: SavedStatuses)
        ensures
            res.wf(),
            res@ == Map::<Seq<char>, (Seq<char>, Seq<char>)>::empty(),
    {
        let res = SavedStatuses { entries: Vec::new() };
        assert(res@ =~= Map::<Seq<char>, (Seq<char>, Seq<char>)>::empty());
        res
    }

    /// Where the entry for `id` stands, if there is one.
    fn position(&self, id: &String) -> (res: Option<usize>)
        requires
            self.wf(),
        ensures
            match res {
                Some(i) => i < self.entries@.len() && self.entries@[i as int].id@ == id@,
                None => forall|j: int| 0 <= j < self.entries@.len() ==> self.entries@[j].id@ != id@,
            },
    {
        let mut i: usize = 0;
        while i < self.entries.len()
            invariant
                i <= self.entries@.len(),
                forall|j: int| 0 <= j < i ==> self.entries@[j].id@ != id@,
            decreases self.entries@.len() - i,
        {
            if self.entries[i].id == *id {
                return Some(i);
            }
            i = i + 1;
        }
        None
    }

    /// The name and status remembered for `id`.
    pub fn get(&self, id: &String) -> (res: Option<(String, String)>)
        requires
            self.wf(),
        ensures
            match res {
                Some((name, status)) => self@.contains_key(id@) && self@[id@] == (name@, status@),
                None => !self@.contains_key(id@),
            },
    {
        match self.position(id) {
            Some(i) => {
                proof {
                    lemma_entries_map_lookup(self.entries@, i as int);
                }
                Some((self.entries[i].name.clone(), self.entries[i].status.clone()))
            },
            None => None,
        }
    }

    /// Remember `name` and `status` for `id`, replacing what was remembered for it.
    pub fn insert(&mut self, id: String, name: String, status: String)
        requires
            old(self).wf(),
        ensures
            final(self).wf(),
            final(self)@ == old(self)@.insert(id@, (name@, status@)),
    {
        let ghost old_entries = self.entries@;
        let ghost key = id@;
        let ghost value = (name@, status@);
        match self.position(&id) {
            Some(i) => {
                self.entries.set(i, SavedStatus { id, name, status });
                let ghost s = self.entries@;
                assert(s == old_entries.update(i as int, s[i as int]));
                assert(ids_unique(s)) by {
                    assert forall|a: int, b: int| 0 <= a < s.len() && 0 <= b < s.len() && a != b
                        implies s[a].id@ != s[b].id@ by {
                        if a != i && b != i {
                            assert(s[a] == old_entries[a] && s[b] == old_entries[b]);
                        } else if a == i {
                            assert(s[b] == old_entries[b]);
                        } else {
                            assert(s[a] == old_entries[a]);
                        }
                    }
                }
                assert forall|k: Seq<char>| #[trigger] entries_map(s).contains_key(k)
                    == entries_map(old_entries).insert(key, value).contains_key(k) by {
                    if k == key {
                        lemma_entries_map_lookup(s, i as int);
                    } else if entries_map(s).contains_key(k) {
                        let j = choose|j: int| 0 <= j < s.len() && s[j].id@ == k;
                        assert(j != i);
                        assert(old_entries[j] == s[j]);
                    } else if entries_map(old_entries).contains_key(k) {
                        let j = choose|j: int| 0 <= j < old_entries.len() && old_entries[j].id@ == k;
                        assert(j != i);
                        assert(old_entries[j] == s[j]);
                    }
                }
                assert forall|k: Seq<char>| #[trigger] entries_map(s).contains_key(k) implies
                    entries_map(s)[k] == entries_map(old_entries).insert(key, value)[k] by {
                    if k == key {
                        lemma_entries_map_lookup(s, i as int);
                    } else {
                        let j = choose|j: int| 0 <= j < s.len() && s[j].id@ == k;
                        assert(j != i);
                        assert(old_entries[j] == s[j]);
                        lemma_entries_map_lookup(s, j);
                        lemma_entries_map_lookup(old_entries, j);
                    }
                }
                assert(entries_map(s) =~= entries_map(old_entries).insert(key, value));
            },
            None => {
                self.entries.push(SavedStatus { id, name, status });
                let ghost s = self.entries@;
                let ghost n = old_entries.len() as int;
                assert(s == old_entries.push(s[n]));
                assert(ids_unique(s)) by {
                    assert forall|a: int, b: int| 0 <= a < s.len() && 0 <= b < s.len() && a != b
                        implies s[a].id@ != s[b].id@ by {
                        if a != n && b != n {
                            assert(s[a] == old_entries[a] && s[b] == old_entries[b]);
                        } else if a == n {
                            assert(s[b] == old_entries[b]);
                        } else {
                            assert(s[a] == old_entries[a]);
                        }
                    }
                }
                assert forall|k: Seq<char>| #[trigger] entries_map(s).contains_key(k)
                    == entries_map(old_entries).insert(key, value).contains_key(k) by {
                    if k == key {
                        lemma_entries_map_lookup(s, n);
                    } else if entries_map(s).contains_key(k) {
                        let j = choose|j: int| 0 <= j < s.len() && s[j].id@ == k;
                        assert(j != n);
                        assert(old_entries[j] == s[j]);
                    } else if entries_map(old_entries).contains_key(k) {
                        let j = choose|j: int| 0 <= j < old_entries.len() && old_entries[j].id@ == k;
                        assert(old_entries[j] == s[j]);
                    }
                }
                assert forall|k: Seq<char>| #[trigger] entries_map(s).contains_key(k) implies
                    entries_map(s)[k] == entries_map(old_entries).insert(key, value)[k] by {
                    if k == key {
                        lemma_entries_map_lookup(s, n);
                    } else {
                        let j = choose|j: int| 0 <= j < s.len() && s[j].id@ == k;
                        assert(j != n);
                        assert(old_entries[j] == s[j]);
                        lemma_entries_map_lookup(s, j);
                        lemma_entries_map_lookup(old_entries, j);
                    }
                }
                assert(entries_map(s) =~= entries_map(old_entries).insert(key, value));
            },
        }
    }

    /// The entries, one per id, for storing them.
    pub fn entries(&self) -> (res: &Vec<SavedStatus>)
        requires
            self.wf(),
        ensures
            ids_unique(res@),
            entries_map(res@) == self@,
    {
        &self.entries
    }
}

/// Where the terminal cursor is placed.
#[derive(Debug, Clone, Copy, PartialEq, Eq, Structural)]
pub struct CursorPosition {
    pub x: u16,
    pub y: u16,
}

impl Default for CursorPosition {
    fn default() -> (res: CursorPosition)
        ensures
            res.x == 0 && res.y == 0,
    {
        CursorPosition { x: 0, y: 0 }
    }
}

/// The settings of the application; those from `show_ids` on are stored
/// between runs, the others hold for one run only.
#[derive(Debug)]
pub struct Config {
    pub show_help: bool,
    pub show_debug: bool,
    pub show_logs: bool,
    pub show_accent_color: bool,
    pub status_selected: bool,
    pub cursor: CursorPosition,
    pub show_ids: bool,
    pub show_uptime: bool,
    pub accent_color: AccentColor,
    pub token: Option<String>,
    pub userproxy_data: SavedStatuses,
}

impl Config {
    /// The remembered statuses hold no repeated id.
    pub open spec fn wf(&self) -> bool {
        self.userproxy_data.wf()
    }

    /// Move the accent colour one step through the palette in `direction`;
    /// a colour outside the palette counts as its first entry.
    pub fn cycle_accent_color(&mut self, direction: SortDirection)
        ensures
            final(self).accent_color == cycled_color(old(self).accent_color, direction),
            final(self).show_help == old(self).show_help,
            final(self).show_debug == old(self).show_debug,
            final(self).show_logs == old(self).show_logs,
            final(self).show_accent_color == old(self).show_accent_color,
            final(self).status_selected == old(self).status_selected,
            final(self).cursor == old(self).cursor,
            final(self).show_ids == old(self).show_ids,
            final(self).show_uptime == old(self).show_uptime,
            final(self).token == old(self).token,
            final(self).userproxy_data == old(self).userproxy_data,
    {
        self.accent_color = next_accent_color(self.accent_color, direction);
    }
}

impl Default for Config {
    /// Uptime shown, ids hidden, a magenta accent, no token and nothing remembered.
    fn default() -> (res: Config)
        ensures
            res.wf(),
            !res.show_help && !res.show_debug && !res.show_logs,
            !res.show_accent_color && !res.status_selected,
            res.cursor.x == 0 && res.cursor.y == 0,
            !res.show_ids && res.show_uptime,
            res.accent_color == AccentColor::Magenta,
            res.token is None,
            res.userproxy_data@ == Map::<Seq<char>, (Seq<char>, Seq<char>)>::empty(),
    {
        Config {
            show_ids: false,
            show_uptime: true,
            show_help: false,
            show_debug: false,
            show_logs: false,
            status_selected: false,
            cursor: CursorPosition { x: 0, y: 0 },
            accent_color: AccentColor::Magenta,
            show_accent_color: false,
            token: None,
            userproxy_data: SavedStatuses::new(),
        }
    }
}

} // verus!
