use vstd::prelude::*;
use vstd::string::*;

use crate::announcements::{
    list_after_remove, removal_result, removal_view, AnnouncementList, OutOfBounds,
};
use crate::category::{category_name, Category};
use crate::text::{decimal, push_decimal};

verus! {

/// The reply to a category name that is neither "morning" nor "curfew".
pub const INVALID_CATEGORY_REPLY: &'static str =
    "I don't understand what time you want me to say that, speak properly next time.";

/// The reply to an index that is not a non-negative integer.
pub const NOT_INTEGER_REPLY: &'static str = "You did not give me an integer!";

/// The reply to an added announcement.
pub open spec fn added_text(t: Seq<char>, c: Category) -> Seq<char> {
    "Ok, got it! I'll say \""@ + t + "\" during my "@ + category_name(c) + " announcements."@
}

/// The reply to a removed announcement.
pub open spec fn removed_text(index: nat, c: Category, t: Seq<char>) -> Seq<char> {
    "Index "@ + decimal(index) + " of "@ + category_name(c) + " announcements, \""@ + t
        + "\" removed."@
}

/// The reply to an index past the end of a list.
pub open spec fn out_of_bounds_text(e: OutOfBounds) -> Seq<char> {
    "Index "@ + decimal(e.given as nat) + " out of bounds! Must be between 0 and "@ + decimal(
        e.max_len as nat,
    )
}

/// The reply to a removal, from its result.
pub open spec fn removal_text(index: nat, c: Category, r: Result<Seq<char>, OutOfBounds>) -> Seq<
    char,
> {
    match r {
        Ok(t) => removed_text(index, c, t),
        Err(e) => out_of_bounds_text(e),
    }
}

/// One line of a listing.
pub open spec fn entry_line(index: nat, t: Seq<char>) -> Seq<char> {
    "\n    Message at index "@ + decimal(index) + " is "@ + t
}

/// The lines of a listing of `list`, one per entry, in order.
pub open spec fn entry_lines(list: Seq<Seq<char>>) -> Seq<char>
    decreases list.len(),
{
    if list.len() == 0 {
        Seq::empty()
    } else {
        entry_lines(list.drop_last()) + entry_line((list.len() - 1) as nat, list.last())
    }
}

/// The listing of one category.
pub open spec fn category_listing(c: Category, list: Seq<Seq<char>>) -> Seq<char> {
    match c {
        Category::Morning => if list.len() == 0 {
            "There are no morning announcements added for me to say"@
        } else {
            "Morning Announcements:"@ + entry_lines(list)
        },
        Category::Curfew => if list.len() == 0 {
            "There are no curfew announcements added for me to say"@
        } else {
            "Curfew Announcements:"@ + entry_lines(list)
        },
    }
}

/// The listing of one category, or of both (morning first) when none is named.
pub open spec fn listing(which: Option<Category>, morning: Seq<Seq<char>>, curfew: Seq<Seq<char>>) -> Seq<
    char,
> {
    match which {
        Some(Category::Morning) => category_listing(Category::Morning, morning),
        Some(Category::Curfew) => category_listing(Category::Curfew, curfew),
        None => "Morning Announcements: "@ + entry_lines(morning) + "\nCurfew Announcements:"@
            + entry_lines(curfew),
    }
}

/// Adds `text` to the list of category `c` and returns the reply.
pub fn add_message(list: &mut AnnouncementList, c: Category, text: String) -> (r: String)
    requires
        old(list)@.len() < usize::MAX,
    ensures
        final(list)@ == old(list)@.push(text@),
        r@ == added_text(text@, c),
{
    let mut reply = String::from_str("Ok, got it! I'll say \"");
    reply.append(text.as_str());
    reply.append("\" during my ");
    reply.append(c.name());
    reply.append(" announcements.");
    list.add(text);
    reply
}

/// The reply to the removal of entry `index` of category `c`, from its result.
pub fn removal_reply(index: usize, c: Category, result: &Result<String, OutOfBounds>) -> (r: String)
    ensures
        r@ == removal_text(index as nat, c, removal_view(*result)),
{
    match result {
        Ok(removed) => {
            let mut reply = String::from_str("Index ");
            push_decimal(&mut reply, index);
            reply.append(" of ");
            reply.append(c.name());
            reply.append(" announcements, \"");
            reply.append(removed.as_str());
            reply.append("\" removed.");
            reply
        },
        Err(e) => {
            let mut reply = String::from_str("Index ");
            push_decimal(&mut reply, e.given);
            reply.append(" out of bounds! Must be between 0 and ");
            push_decimal(&mut reply, e.max_len);
            reply
        },
    }
}

/// Removes entry `index` from the list of category `c` and returns the reply.
pub fn remove_message(list: &mut AnnouncementList, c: Category, index: usize) -> (r: String)
    ensures
        final(list)@ == list_after_remove(old(list)@, index),
        r@ == removal_text(index as nat, c, removal_result(old(list)@, index)),
{
    let result = list.remove(index);
    removal_reply(index, c, &result)
}

/// Appends the listing lines of `list` to `out`.
fn push_entry_lines(out: &mut String, list: &AnnouncementList)
    ensures
        final(out)@ == old(out)@ + entry_lines(list@),
{
    let entries = list.entries();
    let mut i: usize = 0;
    while i < entries.len()
        invariant
            entries@.len() == list@.len(),
            forall|j: int| 0 <= j < entries@.len() ==> (#[trigger] entries@[j]).0 == j
                && entries@[j].1@ == list@[j],
            i <= entries@.len(),
            out@ == old(out)@ + entry_lines(list@.subrange(0, i as int)),
        decreases entries@.len() - i,
    {
        let ghost before = out@;
        out.append("\n    Message at index ");
        push_decimal(out, entries[i].0);
        out.append(" is ");
        out.append(entries[i].1.as_str());
        proof {
            let next = list@.subrange(0, i + 1);
            assert(next.drop_last() =~= list@.subrange(0, i as int));
            assert(next.last() == list@[i as int]);
            assert(out@ =~= before + entry_line(i as nat, list@[i as int]));
            assert(out@ =~= old(out)@ + entry_lines(next));
        }
        i = i + 1;
    }
    assert(list@.subrange(0, list@.len() as int) =~= list@);
}

/// The listing of one category, or of both when none is named.
pub fn list_reply(which: Option<Category>, morning: &AnnouncementList, curfew: &AnnouncementList) -> (r:
    String)
    ensures
        r@ == listing(which, morning@, curfew@),
{
    match which {
        Some(Category::Morning) => {
            if morning.is_empty() {
                String::from_str("There are no morning announcements added for me to say")
            } else {
                let mut reply = String::from_str("Morning Announcements:");
                push_entry_lines(&mut reply, morning);
                reply
            }
        },
        Some(Category::Curfew) => {
            if curfew.is_empty() {
                String::from_str("There are no curfew announcements added for me to say")
            } else {
                let mut reply = String::from_str("Curfew Announcements:");
                push_entry_lines(&mut reply, curfew);
                reply
            }
        },
        None => {
            let mut reply = String::from_str("Morning Announcements: ");
            push_entry_lines(&mut reply, morning);
            reply.append("\nCurfew Announcements:");
            push_entry_lines(&mut reply, curfew);
            reply
        },
    }
}

} // verus!
