use vstd::prelude::*;

use crate::listing::page_count;
use crate::text::chars_of;

verus! {

/// The two buttons under a listing.
#[derive(Clone, Copy, Debug, PartialEq, Eq, Structural)]
pub enum Button {
    /// Back one page.
    Last,
    /// On one page.
    Next,
}

/// The custom id a button is sent with.
pub open spec fn button_id(b: Button) -> Seq<char> {
    match b {
        Button::Last => seq!['l', 'a', 's', 't'],
        Button::Next => seq!['n', 'e', 'x', 't'],
    }
}

/// The button that a component interaction with custom id `id` pressed, if
/// it is one of the listing's buttons.
pub fn button_from_id(id: &str) -> (b: Option<Button>)
    ensures
        b matches Some(b) ==> button_id(b) == id@,
        b is None ==> id@ != button_id(Button::Last) && id@ != button_id(Button::Next),
{
    let cs = chars_of(id);
    if cs.len() == 4 {
        if cs[0] == 'l' && cs[1] == 'a' && cs[2] == 's' && cs[3] == 't' {
            assert(cs@ =~= button_id(Button::Last));
            return Some(Button::Last);
        }
        if cs[0] == 'n' && cs[1] == 'e' && cs[2] == 'x' && cs[3] == 't' {
            assert(cs@ =~= button_id(Button::Next));
            return Some(Button::Next);
        }
    }
    None
}

/// How a button is drawn.
#[derive(Clone, Copy, Debug, PartialEq, Eq, Structural)]
pub enum ButtonStyle {
    /// The highlighted style.
    Primary,
}

/// A button under a listing as it is sent: which button it is, its custom
/// id, its label and its style.
#[derive(Debug)]
pub struct ButtonFace {
    pub button: Button,
    pub custom_id: String,
    pub label: String,
    pub style: ButtonStyle,
}

fn button_text(b: Button) -> (s: String)
    ensures
        s@ == button_id(b),
{
    match b {
        Button::Last => {
            let s = String::from_str("last");
            proof {
                reveal_strlit("last");
            }
            assert(s@ =~= button_id(b));
            s
        },
        Button::Next => {
            let s = String::from_str("next");
            proof {
                reveal_strlit("next");
            }
            assert(s@ =~= button_id(b));
            s
        },
    }
}

/// The buttons sent under a listing: `Last` then `Next`, each labelled and
/// identified by its id, both in the primary style.
pub fn listing_buttons() -> (bs: Vec<ButtonFace>)
    ensures
        bs@.len() == 2,
        bs@[0].button == Button::Last,
        bs@[1].button == Button::Next,
        forall|i: int| 0 <= i < 2 ==> {
            &&& (#[trigger] bs@[i]).custom_id@ == button_id(bs@[i].button)
            &&& bs@[i].label@ == button_id(bs@[i].button)
            &&& bs@[i].style == ButtonStyle::Primary
        },
{
    let mut bs: Vec<ButtonFace> = Vec::new();
    bs.push(ButtonFace {
        button: Button::Last,
        custom_id: button_text(Button::Last),
        label: button_text(Button::Last),
        style: ButtonStyle::Primary,
    });
    bs.push(ButtonFace {
        button: Button::Next,
        custom_id: button_text(Button::Next),
        label: button_text(Button::Next),
        style: ButtonStyle::Primary,
    });
    bs
}

/// The page the listing turns to: `Last` goes back one page but not before
/// the first, `Next` goes on one page but not past `last`.
pub open spec fn turn(page: nat, last: nat, b: Button) -> nat {
    match b {
        Button::Last => if page > 0 { (page - 1) as nat } else { 0 },
        Button::Next => if page < last { page + 1 } else { last },
    }
}

/// Where a listing of `size` songs stands while its buttons are pressed:
/// the page it shows, the page the buttons stop at (one per full ten songs)
/// and how many pages there are.
#[derive(Debug)]
pub struct Pager {
    page: usize,
    last: usize,
    count: usize,
}

impl Pager {
    #[verifier::type_invariant]
    spec fn inv(self) -> bool {
        self.page <= self.last
    }

    /// The page shown, counted from zero.
    pub closed spec fn page(self) -> nat {
        self.page as nat
    }

    /// The page `Next` stops at.
    pub closed spec fn last(self) -> nat {
        self.last as nat
    }

    /// How many pages the listing has.
    pub closed spec fn count(self) -> nat {
        self.count as nat
    }

    /// The pager of a listing of `size` songs: on the first page, with the
    /// buttons stopping at page `size / 10`.
    pub fn new(size: usize) -> (p: Pager)
        ensures
            p.page() == 0,
            p.last() == size / 10,
            p.count() == page_count(size as nat),
    {
        let count: usize = if size % 10 == 0 { size / 10 } else { size / 10 + 1 };
        Pager { page: 0, last: size / 10, count }
    }

    /// The page shown, counted from zero.
    pub fn current(&self) -> (p: usize)
        ensures
            p == self.page(),
    {
        self.page
    }

    /// Presses a button: turns the page and returns the page to show, or
    /// `None` when the page turned to does not exist (past the last one).
    pub fn press(&mut self, b: Button) -> (shown: Option<usize>)
        ensures
            final(self).page() == turn(old(self).page(), old(self).last(), b),
            final(self).last() == old(self).last(),
            final(self).count() == old(self).count(),
            final(self).page() <= final(self).last(),
            shown matches Some(i) ==> i == final(self).page() && i < final(self).count(),
            shown is None ==> final(self).page() >= final(self).count(),
            b == Button::Next ==> old(self).page() <= final(self).page() <= old(self).page() + 1,
            b == Button::Next ==> (final(self).page() == old(self).page() <==> old(self).page() == old(self).last()),
            b == Button::Last ==> old(self).page() <= final(self).page() + 1 && final(self).page() <= old(self).page(),
            b == Button::Last ==> (final(self).page() == old(self).page() <==> old(self).page() == 0),
    {
        proof {
            use_type_invariant(&*self);
        }
        let page = match b {
            Button::Last => if self.page > 0 { self.page - 1 } else { 0 },
            Button::Next => if self.page < self.last { self.page + 1 } else { self.last },
        };
        self.page = page;
        if page < self.count {
            Some(page)
        } else {
            None
        }
    }
}

/// A page the buttons turn to always lies between the first page and the
/// page they stop at.
pub proof fn lemma_turn_in_range(page: nat, last: nat, b: Button)
    requires
        page <= last,
    ensures
        turn(page, last, b) <= last,
{
}

/// `Next` moves on exactly one page until the page the buttons stop at, and
/// there it stays; `Last` moves back exactly one page until the first, and
/// there it stays. Neither ever moves the other way.
pub proof fn lemma_turn_steps(page: nat, last: nat)
    requires
        page <= last,
    ensures
        page < last ==> turn(page, last, Button::Next) == page + 1,
        turn(last, last, Button::Next) == last,
        page <= turn(page, last, Button::Next) <= page + 1,
        page > 0 ==> turn(page, last, Button::Last) + 1 == page,
        turn(0, last, Button::Last) == 0,
        turn(page, last, Button::Last) <= page <= turn(page, last, Button::Last) + 1,
{
}

/// Going on a page and back again returns to where the listing was, and so
/// does going back and on again, except at the two ends.
pub proof fn lemma_turn_undo(page: nat, last: nat)
    requires
        page <= last,
    ensures
        page < last ==> turn(turn(page, last, Button::Next), last, Button::Last) == page,
        page > 0 ==> turn(turn(page, last, Button::Last), last, Button::Next) == page,
{
}

/// The buttons reach a page past the end of the listing exactly when the
/// songs fill their last page: `Next` then stops at a page that is not there.
pub proof fn lemma_turn_past_end(size: nat, page: nat)
    requires
        page <= size / 10,
    ensures
        page >= page_count(size) <==> (size % 10 == 0 && page == size / 10),
{
}

} // verus!
