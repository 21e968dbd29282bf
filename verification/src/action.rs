//! What a player does in a turn: builds a structure, builds a wonder stage, or discards a card.

use vstd::prelude::*;
use vstd::string::StringExecFns;

use crate::card::Card;
use crate::resources::Resource;

verus! {

/// One unit of a resource taken from a structure of a neighbour.
#[derive(Debug, Eq, PartialEq, Copy, Clone, Structural)]
pub struct Borrow {
    /// The card the resource is on.
    pub card: Card,
    /// The resource being borrowed.
    pub resource: Resource,
}

impl Borrow {
    /// The borrow of one unit of `resource` from `card`.
    pub fn new(card: Card, resource: Resource) -> (borrow: Borrow)
        ensures
            borrow == (Borrow { card, resource }),
    {
        Borrow { card, resource }
    }
}

/// The resources borrowed from the left and the right neighbour as part of one action.
#[derive(Debug, Eq, PartialEq, Clone)]
pub struct Borrowing {
    pub left: Vec<Borrow>,
    pub right: Vec<Borrow>,
}

/// The mathematical content of a [`Borrowing`].
#[verifier::ext_equal]
pub struct BorrowingView {
    pub left: Seq<Borrow>,
    pub right: Seq<Borrow>,
}

impl BorrowingView {
    /// The borrowing that borrows nothing.
    pub open spec fn none() -> BorrowingView {
        BorrowingView { left: Seq::empty(), right: Seq::empty() }
    }

    /// The number of units borrowed, from both neighbours together.
    pub open spec fn count(self) -> nat {
        self.left.len() + self.right.len()
    }

    /// True if `other` borrows the same units from the same neighbours, in whatever order it lists
    /// them.
    pub open spec fn same_borrows(self, other: BorrowingView) -> bool {
        &&& self.left.to_multiset() == other.left.to_multiset()
        &&& self.right.to_multiset() == other.right.to_multiset()
    }
}

impl View for Borrowing {
    type V = BorrowingView;

    open spec fn view(&self) -> BorrowingView {
        BorrowingView { left: self.left@, right: self.right@ }
    }
}

/// True if and only if the two lists hold the same borrows in the same order.
fn same_borrows(a: &Vec<Borrow>, b: &Vec<Borrow>) -> (same: bool)
    ensures
        same == (a@ == b@),
{
    if a.len() != b.len() {
        return false;
    }
    let mut i: usize = 0;
    while i < a.len()
        invariant
            i <= a.len(),
            a.len() == b.len(),
            forall|k: int| 0 <= k < i ==> a@[k] == b@[k],
        decreases a.len() - i,
    {
        if a[i] != b[i] {
            return false;
        }
        i = i + 1;
    }
    assert(a@ =~= b@);
    true
}

/// Counts the times that `borrow` stands in the list.
fn count_borrow(borrows: &Vec<Borrow>, borrow: Borrow) -> (count: usize)
    ensures
        count == borrows@.to_multiset().count(borrow),
{
    let mut count: usize = 0;
    let mut i: usize = 0;
    proof {
        assert(borrows@.take(0) =~= Seq::empty());
        vstd::seq_lib::to_multiset_contains(Seq::<Borrow>::empty(), borrow);
    }
    while i < borrows.len()
        invariant
            i <= borrows.len(),
            count == borrows@.take(i as int).to_multiset().count(borrow),
            count <= i,
        decreases borrows.len() - i,
    {
        proof {
            assert(borrows@.take(i + 1) =~= borrows@.take(i as int).push(borrows@[i as int]));
            vstd::seq_lib::to_multiset_build(borrows@.take(i as int), borrows@[i as int]);
        }
        if borrows[i] == borrow {
            count = count + 1;
        }
        i = i + 1;
    }
    assert(borrows@.take(borrows.len() as int) =~= borrows@);
    count
}

/// True if every borrow of `some` stands in `a` as often as in `b`.
fn same_counts(some: &Vec<Borrow>, a: &Vec<Borrow>, b: &Vec<Borrow>) -> (same: bool)
    ensures
        same == (forall|i: int|
            0 <= i < some@.len() ==> a@.to_multiset().count(#[trigger] some@[i]) == b@.to_multiset().count(
                some@[i],
            )),
{
    let mut i: usize = 0;
    while i < some.len()
        invariant
            i <= some.len(),
            forall|k: int|
                0 <= k < i ==> a@.to_multiset().count(#[trigger] some@[k]) == b@.to_multiset().count(some@[k]),
        decreases some.len() - i,
    {
        if count_borrow(a, some[i]) != count_borrow(b, some[i]) {
            return false;
        }
        i = i + 1;
    }
    true
}

/// True if and only if the two lists hold the same borrows, each as often in the one as in the
/// other, in whatever order.
fn same_borrows_in_any_order(a: &Vec<Borrow>, b: &Vec<Borrow>) -> (same: bool)
    ensures
        same == (a@.to_multiset() == b@.to_multiset()),
{
    let same = same_counts(a, a, b) && same_counts(b, a, b);
    proof {
        broadcast use vstd::seq_lib::group_to_multiset_ensures;

        if same {
            assert forall|borrow: Borrow| a@.to_multiset().count(borrow) == b@.to_multiset().count(borrow) by {
                if a@.contains(borrow) {
                    let i = choose|i: int| 0 <= i < a@.len() && a@[i] == borrow;
                    assert(a@.to_multiset().count(a@[i]) == b@.to_multiset().count(a@[i]));
                } else if b@.contains(borrow) {
                    let i = choose|i: int| 0 <= i < b@.len() && b@[i] == borrow;
                    assert(a@.to_multiset().count(b@[i]) == b@.to_multiset().count(b@[i]));
                }
            }
            assert(a@.to_multiset() =~= b@.to_multiset());
        }
    }
    same
}

/// A list with the same borrows in the same order.
fn copy_borrows(borrows: &Vec<Borrow>) -> (copy: Vec<Borrow>)
    ensures
        copy@ == borrows@,
{
    let mut copy: Vec<Borrow> = Vec::new();
    let mut i: usize = 0;
    while i < borrows.len()
        invariant
            i <= borrows.len(),
            copy@ == borrows@.take(i as int),
        decreases borrows.len() - i,
    {
        copy.push(borrows[i]);
        assert(borrows@.take(i + 1) =~= borrows@.take(i as int).push(borrows@[i as int]));
        i = i + 1;
    }
    assert(borrows@.take(borrows.len() as int) =~= borrows@);
    copy
}

impl Borrowing {
    /// The borrowing of the given units from the left and from the right neighbour.
    pub fn new(left: Vec<Borrow>, right: Vec<Borrow>) -> (borrowing: Borrowing)
        ensures
            borrowing.left == left,
            borrowing.right == right,
    {
        Borrowing { left, right }
    }

    /// The borrowing of an action that needs nothing from the neighbours.
    pub fn no_borrowing() -> (borrowing: Borrowing)
        ensures
            borrowing@ == BorrowingView::none(),
    {
        Self::new(Vec::new(), Vec::new())
    }

    /// True if anything is borrowed, false if the player gets by on their own cards.
    pub fn has_borrowing(&self) -> (yes: bool)
        ensures
            yes == (self@.count() > 0),
    {
        !self.left.is_empty() || !self.right.is_empty()
    }

    /// True if and only if `other` borrows the same units from the same neighbours in the same order.
    pub fn same_as(&self, other: &Borrowing) -> (same: bool)
        ensures
            same == (self@ == other@),
    {
        same_borrows(&self.left, &other.left) && same_borrows(&self.right, &other.right)
    }

    /// True if and only if `other` borrows the same units from the same neighbours, in whatever
    /// order it lists them.
    pub fn same_borrows(&self, other: &Borrowing) -> (same: bool)
        ensures
            same == self@.same_borrows(other@),
    {
        same_borrows_in_any_order(&self.left, &other.left) && same_borrows_in_any_order(
            &self.right,
            &other.right,
        )
    }

    /// A borrowing with the same content.
    pub fn duplicate(&self) -> (copy: Borrowing)
        ensures
            copy@ == self@,
    {
        Borrowing { left: copy_borrows(&self.left), right: copy_borrows(&self.right) }
    }
}

/// An action of a player.
#[derive(Debug, Clone)]
pub enum Action {
    Build(Card, Borrowing),
    Wonder(Card, Borrowing),
    Discard(Card),
}

/// The mathematical content of an [`Action`].
#[verifier::ext_equal]
pub enum ActionView {
    Build(Card, BorrowingView),
    Wonder(Card, BorrowingView),
    Discard(Card),
}

impl View for Action {
    type V = ActionView;

    open spec fn view(&self) -> ActionView {
        match self {
            Action::Build(card, borrowing) => ActionView::Build(*card, borrowing@),
            Action::Wonder(card, borrowing) => ActionView::Wonder(*card, borrowing@),
            Action::Discard(card) => ActionView::Discard(*card),
        }
    }
}

/// What everybody may know of an action: which card is built, but not which card is discarded or
/// goes under a wonder stage.
pub open spec fn action_text(action: ActionView) -> Seq<char> {
    match action {
        ActionView::Build(card, _) => "Build "@ + card.spec_name(),
        ActionView::Wonder(_, _) => "Build a wonder stage"@,
        ActionView::Discard(_) => "Discard"@,
    }
}

impl Action {
    /// Writes the action with what everybody may know of it only: see [`action_text`].
    pub fn to_string(&self) -> (text: String)
        ensures
            text@ == action_text(self@),
    {
        match self {
            Action::Build(card, _) => {
                let mut text = "Build ".to_string();
                text.append(card.name());
                text
            },
            Action::Wonder(_, _) => "Build a wonder stage".to_string(),
            Action::Discard(_) => "Discard".to_string(),
        }
    }

    /// An action with the same content.
    pub fn duplicate(&self) -> (copy: Action)
        ensures
            copy@ == self@,
    {
        match self {
            Action::Build(card, borrowing) => Action::Build(*card, borrowing.duplicate()),
            Action::Wonder(card, borrowing) => Action::Wonder(*card, borrowing.duplicate()),
            Action::Discard(card) => Action::Discard(*card),
        }
    }
}

/// The views of a list of actions, in the order of the list.
pub open spec fn action_views(actions: Seq<Action>) -> Seq<ActionView> {
    actions.map_values(|action: Action| action@)
}

/// The actions that a player can take in order to lay a particular card.
#[derive(Debug, Clone)]
pub struct ActionOptions {
    pub actions: Vec<Action>,
}

impl View for ActionOptions {
    type V = Seq<ActionView>;

    open spec fn view(&self) -> Seq<ActionView> {
        action_views(self.actions@)
    }
}

impl ActionOptions {
    /// Returns `true` if it is possible to lay the card, `false` otherwise.
    pub fn possible(&self) -> (yes: bool)
        ensures
            yes == (self@.len() > 0),
    {
        !self.actions.is_empty()
    }

    /// Returns `true` if the only way to lay the card is to build it with the player's own
    /// structures, borrowing nothing.
    pub fn own_cards_only(&self) -> (yes: bool)
        ensures
            yes == (self@.len() == 1 && self@[0] is Build && self@[0]->Build_1.count() == 0),
    {
        if self.actions.len() != 1 {
            return false;
        }
        if let Action::Build(_, borrowing) = &self.actions[0] {
            if !borrowing.has_borrowing() {
                return true;
            }
        }
        false
    }
}

} // verus!
