use vstd::prelude::*;
use vstd::string::*;

use crate::codec::{decode_json, encode_json, json_text, texts_of};

verus! {

/// An index past the end of a list: the index given, and the list's length.
#[derive(Clone, Copy, Debug, PartialEq, Eq, Structural)]
pub struct OutOfBounds {
    pub given: usize,
    pub max_len: usize,
}

/// What is announced when a category has no entries.
pub const FALLBACK_ANNOUNCEMENT: &'static str = "https://cdn.discordapp.com/attachments/1196650681717772298/1196793913294471183/lv_7250253436737080581_20240116232908.mp4?ex=65b8ec30&is=65a67730&hm=e45b3bc4b2851002e18c56c8ece3d779f44448fbd623601cf898c9132ed150dc&";

/// What may be announced from a list: one of its entries, or the fallback
/// when it is empty.
pub open spec fn is_announcement_of(list: Seq<Seq<char>>, t: Seq<char>) -> bool {
    if list.len() == 0 {
        t == FALLBACK_ANNOUNCEMENT@
    } else {
        list.contains(t)
    }
}

/// The text to announce for a random pick: the pick itself, or the fallback
/// when there was none.
pub fn announcement_or_fallback(pick: Option<String>) -> (r: String)
    ensures
        r@ == match pick {
            Some(t) => t@,
            None => FALLBACK_ANNOUNCEMENT@,
        },
{
    match pick {
        Some(t) => t,
        None => String::from_str(FALLBACK_ANNOUNCEMENT),
    }
}

/// The list left by removing entry `index`: unchanged when there is none.
pub open spec fn list_after_remove(list: Seq<Seq<char>>, index: usize) -> Seq<Seq<char>> {
    if index < list.len() {
        list.remove(index as int)
    } else {
        list
    }
}

/// What removing entry `index` reports: the text removed, or the index and
/// the length when there is no such entry.
pub open spec fn removal_result(list: Seq<Seq<char>>, index: usize) -> Result<Seq<char>, OutOfBounds> {
    if index < list.len() {
        Ok(list[index as int])
    } else {
        Err(OutOfBounds { given: index, max_len: list.len() as usize })
    }
}

/// A removal's result, with the removed text as characters.
pub open spec fn removal_view(r: Result<String, OutOfBounds>) -> Result<Seq<char>, OutOfBounds> {
    match r {
        Ok(t) => Ok(t@),
        Err(e) => Err(e),
    }
}

/// Whether `loaded` is what reading `text` gives: the list that `text`
/// encodes, where it is the JSON form of one.
pub open spec fn loads_as(text: Seq<char>, loaded: Seq<Seq<char>>) -> bool {
    forall|v: Seq<Seq<char>>| #[trigger] json_text(v) == text ==> loaded == v
}

/// An ordered list of announcement texts, addressed by zero-based position.
/// Duplicates are allowed.
pub struct AnnouncementList {
    items: Vec<String>,
}

impl View for AnnouncementList {
    type V = Seq<Seq<char>>;

    closed spec fn view(&self) -> Seq<Seq<char>> {
        texts_of(self.items@)
    }
}

/// Relies on rand's `SliceRandom::choose` with `rand::thread_rng`: `None` on an
/// empty slice, else a clone of one of its elements.
#[verifier::external_body]
fn choose_text(items: &Vec<String>) -> (r: Option<String>)
    ensures
        r is None <==> items@.len() == 0,
        r is Some ==> exists|i: int| 0 <= i < items@.len() && r->Some_0@ == (#[trigger] items@[i])@,
{
    rand::seq::SliceRandom::choose(items.as_slice(), &mut rand::thread_rng()).cloned()
}

impl AnnouncementList {
    /// An empty list.
    pub fn new() -> (r: Self)
        ensures
            r@ == Seq::<Seq<char>>::empty(),
    {
        proof {
            assert(texts_of(Seq::<String>::empty()) =~= Seq::<Seq<char>>::empty());
        }
        AnnouncementList { items: Vec::new() }
    }

    /// A list holding `items`, in their order.
    pub fn from_texts(items: Vec<String>) -> (r: Self)
        ensures
            r@ == texts_of(items@),
    {
        AnnouncementList { items }
    }

    /// The number of announcements.
    pub fn len(&self) -> (r: usize)
        ensures
            r == self@.len(),
    {
        self.items.len()
    }

    /// Whether the list holds no announcement.
    pub fn is_empty(&self) -> (r: bool)
        ensures
            r == (self@.len() == 0),
    {
        self.items.len() == 0
    }

    /// Appends `text` and returns its position.
    pub fn add(&mut self, text: String) -> (pos: usize)
        requires
            old(self)@.len() < usize::MAX,
        ensures
            final(self)@ == old(self)@.push(text@),
            pos == old(self)@.len(),
    {
        let pos = self.items.len();
        self.items.push(text);
        proof {
            assert(self@ =~= old(self)@.push(text@));
        }
        pos
    }

    /// Removes and returns the announcement at `index`; an index past the end
    /// leaves the list as it was and reports the index and the length.
    pub fn remove(&mut self, index: usize) -> (r: Result<String, OutOfBounds>)
        ensures
            final(self)@ == list_after_remove(old(self)@, index),
            removal_view(r) == removal_result(old(self)@, index),
    {
        let max_len = self.items.len();
        if index < max_len {
            let removed = self.items.remove(index);
            proof {
                assert(self@ =~= old(self)@.remove(index as int));
            }
            Ok(removed)
        } else {
            Err(OutOfBounds { given: index, max_len })
        }
    }

    /// Each announcement with its position, in order.
    pub fn entries(&self) -> (r: Vec<(usize, String)>)
        ensures
            r@.len() == self@.len(),
            forall|i: int| 0 <= i < r@.len() ==> (#[trigger] r@[i]).0 == i && r@[i].1@ == self@[i],
    {
        let mut r: Vec<(usize, String)> = Vec::new();
        let mut i: usize = 0;
        while i < self.items.len()
            invariant
                i <= self@.len(),
                r@.len() == i,
                forall|j: int| 0 <= j < i ==> (#[trigger] r@[j]).0 == j && r@[j].1@ == self@[j],
            decreases self@.len() - i,
        {
            r.push((i, self.items[i].clone()));
            i = i + 1;
        }
        r
    }

    /// One announcement drawn at random, or `None` when the list is empty.
    pub fn pick_random(&self) -> (r: Option<String>)
        ensures
            r is None <==> self@.len() == 0,
            r is Some ==> self@.contains(r->Some_0@),
    {
        let r = choose_text(&self.items);
        proof {
            if r is Some {
                let i = choose|i: int| 0 <= i < self.items@.len() && r->Some_0@ == (#[trigger] self.items@[i])@;
                assert(self@[i] == r->Some_0@);
            }
        }
        r
    }

    /// An announcement from this list: a random entry, or the fallback when
    /// the list is empty.
    pub fn make_announcement(&self) -> (r: String)
        ensures
            is_announcement_of(self@, r@),
    {
        announcement_or_fallback(self.pick_random())
    }

    /// The list as a JSON array of strings.
    pub fn to_json(&self) -> (r: String)
        ensures
            r@ == json_text(self@),
    {
        match encode_json(&self.items) {
            Ok(text) => text,
            Err(_) => String::new(),
        }
    }

    /// The list that a JSON array of strings holds; text that is not such an
    /// array gives an empty list.
    pub fn from_json(text: &str) -> (r: Self)
        ensures
            loads_as(text@, r@),
    {
        match decode_json(text) {
            Ok(items) => AnnouncementList { items },
            Err(_) => AnnouncementList::new(),
        }
    }

    /// The list kept in a file whose contents are given, `None` when the file
    /// could not be read: a missing or unreadable file gives an empty list.
    pub fn load(contents: Option<&str>) -> (r: Self)
        ensures
            contents is None ==> r@ == Seq::<Seq<char>>::empty(),
            contents is Some ==> loads_as(contents->Some_0@, r@),
    {
        match contents {
            Some(text) => AnnouncementList::from_json(text),
            None => AnnouncementList::new(),
        }
    }
}

/// An added text stands at the position `add` returns, and the list saved
/// after the addition reads back as the same list.
pub proof fn lemma_added_text_listed_and_reloaded(
    list: Seq<Seq<char>>,
    t: Seq<char>,
    reloaded: Seq<Seq<char>>,
)
    requires
        loads_as(json_text(list.push(t)), reloaded),
    ensures
        list.push(t)[list.len() as int] == t,
        reloaded == list.push(t),
{
}

/// On a list of one entry, removing index 0 returns the entry and empties the
/// list; removing index 0 again fails with index 0 and length 0.
pub proof fn lemma_remove_twice_from_single(t: Seq<char>)
    ensures
        ({
            let first = list_after_remove(seq![t], 0);
            &&& removal_result(seq![t], 0) == Ok::<Seq<char>, OutOfBounds>(t)
            &&& first == Seq::<Seq<char>>::empty()
            &&& removal_result(first, 0) == Err::<Seq<char>, OutOfBounds>(
                OutOfBounds { given: 0, max_len: 0 },
            )
            &&& list_after_remove(first, 0) == first
        }),
{
    assert(seq![t].remove(0) =~= Seq::<Seq<char>>::empty());
}

/// An empty list always announces the same text: the fallback.
pub proof fn lemma_empty_list_announces_fallback(t1: Seq<char>, t2: Seq<char>)
    requires
        is_announcement_of(Seq::empty(), t1),
        is_announcement_of(Seq::empty(), t2),
    ensures
        t1 == FALLBACK_ANNOUNCEMENT@,
        t1 == t2,
{
}

} // verus!
