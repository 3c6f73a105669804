//! The stack of what the functions of an isolate need to stay alive.
use ijson::IValue;
use vstd::prelude::*;

verus! {

/// Declares ijson's [`IValue`], a JSON value.
#[verifier::external_type_specification]
#[verifier::external_body]
pub struct ExIValue(IValue);

/// The characters of a JSON value that is a string; nothing for any other JSON value.
pub uninterp spec fn json_text(value: IValue) -> Option<Seq<char>>;

/// Calls ijson's `to_value` on a string, which gives the JSON string with the same
/// characters. Serializing a string does not fail.
#[verifier::external_body]
fn json_string(text: &str) -> (value: IValue)
    ensures
        json_text(value) == Some(text@),
{
    ijson::to_value(text).unwrap()
}

/// Calls `as_string` of ijson's `IValue`: the text of a JSON string, and nothing for any
/// other JSON value.
#[verifier::external_body]
fn json_string_text(value: &IValue) -> (text: Option<String>)
    ensures
        text is Some <==> json_text(*value) is Some,
        text matches Some(characters) ==> json_text(*value) == Some(characters@),
{
    value.as_string().map(|text| text.to_string())
}

/// What a function that was added to an isolate refers to: the isolate, by the number of its
/// state, and the name of the function.
#[derive(Debug)]
pub struct ArcStackItem {
    state: u64,
    name: IValue,
}

impl ArcStackItem {
    /// The name is a JSON string.
    #[verifier::type_invariant]
    spec fn names_a_function(self) -> bool {
        json_text(self.name) is Some
    }

    /// The number of the state that the item belongs to.
    pub closed spec fn owner(&self) -> u64 {
        self.state
    }

    /// The characters of the function's name.
    pub closed spec fn text(&self) -> Seq<char> {
        json_text(self.name)->0
    }

    /// An item for the function `name` of the isolate with the given state.
    pub fn new(state: u64, name: &str) -> (item: ArcStackItem)
        ensures
            item.owner() == state,
            item.text() == name@,
    {
        ArcStackItem { state, name: json_string(name) }
    }

    /// The number of the state that the item belongs to.
    pub fn state(&self) -> (state: u64)
        ensures
            state == self.owner(),
    {
        self.state
    }

    /// The name of the function.
    pub fn name(&self) -> (name: String)
        ensures
            name@ == self.text(),
    {
        proof {
            use_type_invariant(self);
        }
        json_string_text(&self.name).unwrap()
    }
}

/// A reference to an item of an [`ArcStack`] that does not keep the item alive.
#[derive(Clone, Copy, Debug, PartialEq, Eq, Structural)]
pub struct WeakItem {
    /// The place in the stack at which the item was pushed.
    pub slot: usize,
}

/// A share in an item of an [`ArcStack`]: it keeps the item alive until it is given up, whether
/// the stack still holds the item or not.
#[derive(Debug)]
pub struct SharedItem {
    slot: usize,
}

impl SharedItem {
    /// The place in the stack at which the item was pushed.
    pub closed spec fn place(&self) -> usize {
        self.slot
    }

    /// A reference to the item that does not keep it alive.
    pub fn get_weak(&self) -> (weak: WeakItem)
        ensures
            weak == (WeakItem { slot: self.place() }),
    {
        WeakItem { slot: self.slot }
    }
}

/// A place of a stack.
#[derive(Debug)]
pub enum Place {
    /// The item is held: by the stack itself or not, and by so many shares.
    Held { item: ArcStackItem, stacked: bool, shares: u64 },
    /// The item was dropped. The place is not used again, so that a reference to a dropped
    /// item never comes to stand for a later one.
    Dropped,
}

/// A stack containing a bunch of values which can be dropped.
#[derive(Debug)]
pub struct ArcStack {
    places: Vec<Place>,
}

/// Every place that was ever used, oldest first.
impl View for ArcStack {
    type V = Seq<Place>;

    closed spec fn view(&self) -> Seq<Place> {
        self.places@
    }
}

impl Place {
    /// The item at the place, as long as anyone holds it.
    pub open spec fn item(self) -> Option<ArcStackItem> {
        match self {
            Place::Held { item, .. } => Some(item),
            Place::Dropped => None,
        }
    }

    /// The number of shares in the item.
    pub open spec fn shares(self) -> nat {
        match self {
            Place::Held { shares, .. } => shares as nat,
            Place::Dropped => 0,
        }
    }

    /// The place with one more share in its item.
    pub open spec fn shared(self) -> Place {
        match self {
            Place::Held { item, stacked, shares } => Place::Held {
                item,
                stacked,
                shares: (shares + 1) as u64,
            },
            Place::Dropped => Place::Dropped,
        }
    }

    /// The place with one share less in its item, which is dropped if nobody holds it then.
    pub open spec fn given_up(self) -> Place {
        match self {
            Place::Held { item, stacked, shares } => if stacked || shares > 1 {
                Place::Held { item, stacked, shares: (shares - 1) as u64 }
            } else {
                Place::Dropped
            },
            Place::Dropped => Place::Dropped,
        }
    }

    /// The place once the stack does not hold its item any more, which is dropped if nobody
    /// else holds it.
    pub open spec fn left(self) -> Place {
        match self {
            Place::Held { item, stacked, shares } => if shares > 0 {
                Place::Held { item, stacked: false, shares }
            } else {
                Place::Dropped
            },
            Place::Dropped => Place::Dropped,
        }
    }
}

/// The item that a reference stands for, as long as anyone holds it.
pub open spec fn upgraded(places: Seq<Place>, weak: WeakItem) -> Option<ArcStackItem> {
    if weak.slot < places.len() {
        places[weak.slot as int].item()
    } else {
        None
    }
}

/// The number of shares in the item that a reference stands for.
pub open spec fn shares_in(places: Seq<Place>, weak: WeakItem) -> nat {
    if weak.slot < places.len() {
        places[weak.slot as int].shares()
    } else {
        0
    }
}

/// The places once the stack holds nothing any more.
pub open spec fn emptied(places: Seq<Place>) -> Seq<Place> {
    Seq::new(places.len(), |slot: int| places[slot].left())
}

/// Nobody but the stack holds any of its items.
pub open spec fn nothing_shared(places: Seq<Place>) -> bool {
    forall|slot: int| 0 <= slot < places.len() ==> (#[trigger] places[slot]).shares() == 0
}

impl ArcStack {
    /// A stack that holds nothing.
    pub fn new() -> (stack: ArcStack)
        ensures
            stack@ == Seq::<Place>::empty(),
    {
        ArcStack { places: Vec::new() }
    }

    /// Puts an item on the stack and returns the reference to it.
    pub fn push(&mut self, item: ArcStackItem) -> (weak: WeakItem)
        ensures
            final(self)@ == old(self)@.push(Place::Held { item, stacked: true, shares: 0 }),
            weak.slot == old(self)@.len(),
            upgraded(final(self)@, weak) == Some(item),
    {
        let weak: WeakItem = WeakItem { slot: self.places.len() };
        self.places.push(Place::Held { item, stacked: true, shares: 0 });
        weak
    }

    /// The item that a reference stands for, if it has not been dropped.
    pub fn upgrade(&self, weak: WeakItem) -> (item: Option<&ArcStackItem>)
        ensures
            item is Some <==> upgraded(self@, weak) is Some,
            item matches Some(found) ==> upgraded(self@, weak) == Some(*found),
    {
        if weak.slot < self.places.len() {
            match &self.places[weak.slot] {
                Place::Held { item, .. } => Some(item),
                Place::Dropped => None,
            }
        } else {
            None
        }
    }

    /// Takes a share in the item that a reference stands for, if it has not been dropped.
    pub fn share(&mut self, weak: WeakItem) -> (share: Option<SharedItem>)
        requires
            shares_in(old(self)@, weak) < u64::MAX,
        ensures
            share is Some <==> upgraded(old(self)@, weak) is Some,
            match share {
                Some(shared) => {
                    &&& shared.place() == weak.slot
                    &&& final(self)@ == old(self)@.update(
                        weak.slot as int,
                        old(self)@[weak.slot as int].shared(),
                    )
                },
                None => final(self)@ == old(self)@,
            },
    {
        if weak.slot >= self.places.len() {
            return None;
        }
        let mut place: Place = Place::Dropped;
        core::mem::swap(&mut self.places[weak.slot], &mut place);
        match place {
            Place::Held { item, stacked, shares } => {
                self.places[weak.slot] = Place::Held { item, stacked, shares: shares + 1 };
                Some(SharedItem { slot: weak.slot })
            },
            Place::Dropped => None,
        }
    }

    /// Gives up a share in an item. The item is dropped if neither the stack nor another share
    /// holds it.
    pub fn give_up(&mut self, shared: SharedItem)
        requires
            shares_in(old(self)@, WeakItem { slot: shared.place() }) > 0,
        ensures
            final(self)@ == old(self)@.update(
                shared.place() as int,
                old(self)@[shared.place() as int].given_up(),
            ),
    {
        let mut place: Place = Place::Dropped;
        core::mem::swap(&mut self.places[shared.slot], &mut place);
        match place {
            Place::Held { item, stacked, shares } => {
                if stacked || shares > 1 {
                    self.places[shared.slot] = Place::Held { item, stacked, shares: shares - 1 };
                }
            },
            Place::Dropped => {},
        }
    }

    /// Drops every item, as far as the stack holds it. An item in which there are shares stays
    /// until the last of them is given up.
    pub fn drop_all(&mut self)
        ensures
            final(self)@ == emptied(old(self)@),
    {
        let count: usize = self.places.len();
        let mut slot: usize = 0;
        while slot < count
            invariant
                slot <= count,
                count == self.places@.len(),
                count == old(self)@.len(),
                forall|i: int| 0 <= i < slot ==> self.places@[i] == old(self)@[i].left(),
                forall|i: int| slot <= i < count ==> self.places@[i] == old(self)@[i],
            decreases count - slot,
        {
            let mut place: Place = Place::Dropped;
            core::mem::swap(&mut self.places[slot], &mut place);
            match place {
                Place::Held { item, shares, .. } => {
                    if shares > 0 {
                        self.places[slot] = Place::Held { item, stacked: false, shares };
                    }
                },
                Place::Dropped => {},
            }
            slot = slot + 1;
        }
    }
}

/// A reference to an item keeps standing for that item while others are pushed.
pub proof fn law_push_keeps_items(places: Seq<Place>, pushed: Place, weak: WeakItem)
    requires
        upgraded(places, weak) is Some,
    ensures
        upgraded(places.push(pushed), weak) == upgraded(places, weak),
{
}

/// Once everything was dropped, a reference that was handed out before to an item in which
/// there is no share stands for nothing, whatever is pushed afterwards.
pub proof fn law_dropped_items_stay_dropped(
    places: Seq<Place>,
    later: Seq<Place>,
    weak: WeakItem,
)
    requires
        weak.slot < places.len(),
        shares_in(places, weak) == 0,
    ensures
        upgraded(emptied(places) + later, weak) is None,
{
}

/// An item in which there is a share outlives the stack: a reference to it still stands for it
/// once everything was dropped, and stands for nothing once the last share was given up.
pub proof fn law_shared_item_outlives_the_stack(places: Seq<Place>, weak: WeakItem)
    requires
        shares_in(places, weak) > 0,
    ensures
        upgraded(emptied(places), weak) == upgraded(places, weak),
        upgraded(emptied(places), weak) is Some,
        shares_in(emptied(places), weak) == shares_in(places, weak),
        shares_in(places, weak) == 1 ==> upgraded(
            emptied(places).update(
                weak.slot as int,
                emptied(places)[weak.slot as int].given_up(),
            ),
            weak,
        ) is None,
{
}

/// An item tells the state and the name that it was made with, character for character.
pub proof fn law_item_tells_what_it_was_made_with(
    state: u64,
    name: &str,
    item: ArcStackItem,
    told_state: u64,
    told_name: String,
)
    requires
        call_ensures(ArcStackItem::new, (state, name), item),
        call_ensures(ArcStackItem::state, (&item,), told_state),
        call_ensures(ArcStackItem::name, (&item,), told_name),
    ensures
        told_state == state,
        told_name@ == name@,
{
}

/// The reference that a push returns finds the item that was pushed.
pub proof fn law_pushed_item_is_found(
    stack: &mut ArcStack,
    item: ArcStackItem,
    weak: WeakItem,
    found: Option<&ArcStackItem>,
)
    requires
        call_ensures(ArcStack::push, (stack, item), weak),
        call_ensures(ArcStack::upgrade, (final(stack), weak), found),
    ensures
        found matches Some(same) && *same == item,
{
}

/// No reference that found something before a push finds anything else after it, and none of
/// them is the reference that the push returns.
pub proof fn law_push_leaves_other_references(
    stack: &mut ArcStack,
    item: ArcStackItem,
    weak: WeakItem,
    other: WeakItem,
    before: Option<&ArcStackItem>,
    after: Option<&ArcStackItem>,
)
    requires
        call_ensures(ArcStack::push, (stack, item), weak),
        call_ensures(ArcStack::upgrade, (old(stack), other), before),
        call_ensures(ArcStack::upgrade, (final(stack), other), after),
    ensures
        other != weak ==> after is Some == before is Some,
        before matches Some(one) ==> other != weak && (after matches Some(same) && *same == *one),
{
}

/// A new stack has nothing to find.
pub proof fn law_new_stack_has_nothing(
    stack: ArcStack,
    weak: WeakItem,
    found: Option<&ArcStackItem>,
)
    requires
        call_ensures(ArcStack::new, (), stack),
        call_ensures(ArcStack::upgrade, (&stack, weak), found),
    ensures
        found is None,
{
}

/// An item that is only on the stack is gone once the stack drops everything.
pub proof fn law_unshared_item_is_dropped(
    stack: &mut ArcStack,
    item: ArcStackItem,
    weak: WeakItem,
    later: &mut ArcStack,
    found: Option<&ArcStackItem>,
)
    requires
        call_ensures(ArcStack::push, (stack, item), weak),
        *old(later) == *final(stack),
        call_ensures(ArcStack::drop_all, (later,), ()),
        call_ensures(ArcStack::upgrade, (final(later), weak), found),
    ensures
        found is None,
{
}

/// An item that is shared is found after the stack dropped everything, and the very same item,
/// until its only share is given up.
pub proof fn law_shared_item_is_found_until_given_up(
    stack: &mut ArcStack,
    item: ArcStackItem,
    weak: WeakItem,
    sharing: &mut ArcStack,
    share: Option<SharedItem>,
    dropping: &mut ArcStack,
    found: Option<&ArcStackItem>,
    giving_up: &mut ArcStack,
    last: Option<&ArcStackItem>,
)
    requires
        call_ensures(ArcStack::push, (stack, item), weak),
        *old(sharing) == *final(stack),
        call_ensures(ArcStack::share, (sharing, weak), share),
        *old(dropping) == *final(sharing),
        call_ensures(ArcStack::drop_all, (dropping,), ()),
        call_ensures(ArcStack::upgrade, (final(dropping), weak), found),
        *old(giving_up) == *final(dropping),
        share matches Some(shared) ==> call_ensures(ArcStack::give_up, (giving_up, shared), ()),
        call_ensures(ArcStack::upgrade, (final(giving_up), weak), last),
    ensures
        share is Some,
        found matches Some(same) && *same == item,
        last is None,
{
}

/// A share that is taken and given up again leaves every reference as it was.
pub proof fn law_share_given_up_leaves_the_stack(
    stack: &mut ArcStack,
    weak: WeakItem,
    shared: SharedItem,
    giving_up: &mut ArcStack,
    other: WeakItem,
    before: Option<&ArcStackItem>,
    between: Option<&ArcStackItem>,
    after: Option<&ArcStackItem>,
)
    requires
        weak.slot < old(stack)@.len(),
        old(stack)@[weak.slot as int] matches Place::Held { stacked, shares, .. } && (stacked
            || shares > 0) && shares < u64::MAX,
        call_ensures(ArcStack::share, (stack, weak), Some(shared)),
        *old(giving_up) == *final(stack),
        call_ensures(ArcStack::give_up, (giving_up, shared), ()),
        call_ensures(ArcStack::upgrade, (old(stack), other), before),
        call_ensures(ArcStack::upgrade, (final(stack), other), between),
        call_ensures(ArcStack::upgrade, (final(giving_up), other), after),
    ensures
        before is Some == between is Some,
        before is Some == after is Some,
        before matches Some(one) ==> (between matches Some(same) && *same == *one) && (
        after matches Some(still) && *still == *one),
{
}

/// A share refers to the item that it was taken in.
pub proof fn law_share_refers_to_its_item(
    stack: &mut ArcStack,
    weak: WeakItem,
    shared: SharedItem,
    reference: WeakItem,
)
    requires
        call_ensures(ArcStack::share, (stack, weak), Some(shared)),
        call_ensures(SharedItem::get_weak, (&shared,), reference),
    ensures
        reference == weak,
{
}

/// What a stack drops is exactly what nobody else holds: an item is found afterwards if and only
/// if it was found before and there are shares in it, and it is the same item then.
pub proof fn law_drop_leaves_what_is_shared(
    stack: &mut ArcStack,
    weak: WeakItem,
    before: Option<&ArcStackItem>,
    after: Option<&ArcStackItem>,
)
    requires
        call_ensures(ArcStack::drop_all, (stack,), ()),
        call_ensures(ArcStack::upgrade, (old(stack), weak), before),
        call_ensures(ArcStack::upgrade, (final(stack), weak), after),
    ensures
        after is Some <==> weak.slot < old(stack)@.len() && (
        old(stack)@[weak.slot as int] matches Place::Held { shares, .. } && shares > 0),
        after matches Some(kept) ==> (before matches Some(one) && *kept == *one),
        final(stack)@.len() == old(stack)@.len(),
        forall|slot: int|
            0 <= slot < final(stack)@.len() ==> !(#[trigger] final(stack)@[slot] matches Place::Held {
                stacked: true,
                ..
            }),
{
}

/// Taking a share in an item, and giving one up, changes the number of its shares by one, and
/// nothing else of the stack. An item that neither the stack nor a share holds is dropped.
pub proof fn law_shares_are_counted_one_by_one(
    taking: &mut ArcStack,
    giving_up: &mut ArcStack,
    weak: WeakItem,
    shared: SharedItem,
    given_up: SharedItem,
    item: ArcStackItem,
    stacked: bool,
    shares: u64,
    other: int,
)
    requires
        shares < u64::MAX,
        weak.slot < old(taking)@.len(),
        old(taking)@[weak.slot as int] == (Place::Held { item, stacked, shares }),
        call_ensures(ArcStack::share, (taking, weak), Some(shared)),
        weak.slot < old(giving_up)@.len(),
        old(giving_up)@[weak.slot as int] == (Place::Held {
            item,
            stacked,
            shares: (shares + 1) as u64,
        }),
        call_ensures(SharedItem::get_weak, (&given_up,), weak),
        call_ensures(ArcStack::give_up, (giving_up, given_up), ()),
        other != weak.slot,
    ensures
        final(taking)@[weak.slot as int] == (Place::Held {
            item,
            stacked,
            shares: (shares + 1) as u64,
        }),
        stacked || shares > 0 ==> final(giving_up)@[weak.slot as int] == (Place::Held {
            item,
            stacked,
            shares,
        }),
        !stacked && shares == 0 ==> final(giving_up)@[weak.slot as int] is Dropped,
        final(taking)@.len() == old(taking)@.len(),
        final(giving_up)@.len() == old(giving_up)@.len(),
        0 <= other < old(taking)@.len() ==> final(taking)@[other] == old(taking)@[other],
        0 <= other < old(giving_up)@.len() ==> final(giving_up)@[other] == old(giving_up)@[other],
{
}

/// A share is taken in every item that is found, and in nothing else.
pub proof fn law_share_is_taken_in_what_is_found(
    stack: &mut ArcStack,
    weak: WeakItem,
    found: Option<&ArcStackItem>,
    share: Option<SharedItem>,
)
    requires
        call_ensures(ArcStack::upgrade, (old(stack), weak), found),
        call_ensures(ArcStack::share, (stack, weak), share),
    ensures
        share is Some == found is Some,
        share is None ==> final(stack)@ == old(stack)@,
{
}

} // verus!
