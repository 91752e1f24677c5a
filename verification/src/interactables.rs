//! Things the player interacts with: chests, doors, lights, and how a
//! collision between an interactor and an interactable becomes an interaction.
use vstd::prelude::*;

verus! {

/// A chest holding gold; it can be opened once.
#[derive(Clone, Copy, PartialEq, Eq, Structural, Debug)]
pub struct Chest {
    pub is_open: bool,
    pub gold_content: u32,
}

/// The result of opening a chest and what opening it again gives.
pub open spec fn spec_open_chest(chest: Chest) -> (Chest, Option<u32>) {
    if chest.is_open {
        (chest, None)
    } else {
        (Chest { is_open: true, gold_content: chest.gold_content }, Some(chest.gold_content))
    }
}

impl Default for Chest {
    /// A closed chest with 10 gold.
    fn default() -> (chest: Chest)
        ensures
            chest == (Chest { is_open: false, gold_content: 10 }),
    {
        Chest { is_open: false, gold_content: 10 }
    }
}

impl Chest {
    /// A closed chest holding `gold`.
    pub fn with_gold(gold: u32) -> (chest: Chest)
        ensures
            chest == (Chest { is_open: false, gold_content: gold }),
    {
        Chest { is_open: false, gold_content: gold }
    }

    /// Interacting with the chest: a closed chest opens and hands out its gold;
    /// an open chest stays as it is and hands out nothing.
    pub fn open(&mut self) -> (gold: Option<u32>)
        ensures
            (*final(self), gold) == spec_open_chest(*old(self)),
            final(self).is_open,
            final(self).gold_content == old(self).gold_content,
            gold is Some <==> !old(self).is_open,
            gold matches Some(g) ==> g == old(self).gold_content,
            old(self).is_open ==> *final(self) == *old(self),
    {
        if self.is_open {
            None
        } else {
            self.is_open = true;
            Some(self.gold_content)
        }
    }
}

/// A chest hands out its gold at most once: once opened, opening it again
/// changes nothing and gives nothing.
pub proof fn lemma_chest_pays_once(chest: Chest)
    ensures
        spec_open_chest(spec_open_chest(chest).0) == (spec_open_chest(chest).0, None::<u32>),
{
}

/// A door that opens and closes when interacted with; an open door lets
/// bodies pass through (it becomes a sensor).
#[derive(Clone, Copy, PartialEq, Eq, Structural, Debug)]
pub struct Door {
    pub is_open: bool,
}

impl Default for Door {
    /// A closed door.
    fn default() -> (door: Door)
        ensures
            !door.is_open,
    {
        Door { is_open: false }
    }
}

impl Door {
    /// Interacting with the door flips it between open and closed; the result
    /// is whether it is now open (and so a sensor).
    pub fn toggle(&mut self) -> (now_open: bool)
        ensures
            *final(self) == spec_toggle_door(*old(self)),
            now_open == final(self).is_open,
    {
        self.is_open = !self.is_open;
        self.is_open
    }
}

/// A light that the player switches on and off.
#[derive(Clone, Copy, PartialEq, Eq, Structural, Debug)]
pub struct Light {
    pub is_on: bool,
}

impl Default for Light {
    /// A light that is off.
    fn default() -> (light: Light)
        ensures
            !light.is_on,
    {
        Light { is_on: false }
    }
}

impl Light {
    /// Switching the light flips it; the result is whether it is now on.
    pub fn toggle(&mut self) -> (now_on: bool)
        ensures
            *final(self) == spec_toggle_light(*old(self)),
            now_on == final(self).is_on,
    {
        self.is_on = !self.is_on;
        self.is_on
    }
}

/// The door after one interaction.
pub open spec fn spec_toggle_door(door: Door) -> Door {
    Door { is_open: !door.is_open }
}

/// The light after one switch.
pub open spec fn spec_toggle_light(light: Light) -> Light {
    Light { is_on: !light.is_on }
}

/// Interacting twice with a door, or switching a light twice, leaves it as it was.
pub proof fn lemma_toggle_twice(door: Door, light: Light)
    ensures
        spec_toggle_door(spec_toggle_door(door)) == door,
        spec_toggle_light(spec_toggle_light(light)) == light,
{
}

/// A collision that started between two colliders (entities given by their
/// bits), with what each of them is: an interactor (something that interacts,
/// such as the player) and/or an interactable.
#[derive(Clone, Copy, PartialEq, Eq, Structural, Debug)]
pub struct Contact {
    pub collider1: u64,
    pub collider2: u64,
    pub collider1_interactor: bool,
    pub collider1_interactable: bool,
    pub collider2_interactor: bool,
    pub collider2_interactable: bool,
}

/// An interaction to deliver: `interactor` interacted with `interactable`.
#[derive(Clone, Copy, PartialEq, Eq, Structural, Debug)]
pub struct Interaction {
    pub interactable: u64,
    pub interactor: u64,
}

/// The interaction a contact gives, if any: when the first collider is an
/// interactor and the second an interactable, the first interacts with the
/// second; otherwise, the other way round if that fits; otherwise none.
pub open spec fn spec_contact_interaction(c: Contact) -> Option<Interaction> {
    if c.collider1_interactor && c.collider2_interactable {
        Some(Interaction { interactable: c.collider2, interactor: c.collider1 })
    } else if c.collider2_interactor && c.collider1_interactable {
        Some(Interaction { interactable: c.collider1, interactor: c.collider2 })
    } else {
        None
    }
}

/// The interactions of a list of contacts, in the order of the contacts.
pub open spec fn spec_interactions(contacts: Seq<Contact>) -> Seq<Interaction>
    decreases contacts.len(),
{
    if contacts.len() == 0 {
        Seq::empty()
    } else {
        let before = spec_interactions(contacts.drop_last());
        match spec_contact_interaction(contacts.last()) {
            Some(i) => before.push(i),
            None => before,
        }
    }
}

/// The interaction one contact gives, if any.
pub fn contact_interaction(c: Contact) -> (interaction: Option<Interaction>)
    ensures
        interaction == spec_contact_interaction(c),
        interaction matches Some(i) ==> ((i.interactable == c.collider2 && i.interactor
            == c.collider1 && c.collider1_interactor && c.collider2_interactable) || (
        i.interactable == c.collider1 && i.interactor == c.collider2 && c.collider2_interactor
            && c.collider1_interactable)),
        (c.collider1_interactor && c.collider2_interactable) ==> interaction == Some(
            Interaction { interactable: c.collider2, interactor: c.collider1 },
        ),
        interaction is Some <==> ((c.collider1_interactor && c.collider2_interactable) || (
        c.collider2_interactor && c.collider1_interactable)),
{
    if c.collider1_interactor && c.collider2_interactable {
        Some(Interaction { interactable: c.collider2, interactor: c.collider1 })
    } else if c.collider2_interactor && c.collider1_interactable {
        Some(Interaction { interactable: c.collider1, interactor: c.collider2 })
    } else {
        None
    }
}

/// The interactions that the contacts of a frame give, in order; contacts
/// between two bodies that cannot interact give none.
pub fn detect_interactions(contacts: &Vec<Contact>) -> (interactions: Vec<Interaction>)
    ensures
        interactions@ == spec_interactions(contacts@),
        interactions@.len() <= contacts@.len(),
{
    let mut interactions: Vec<Interaction> = Vec::new();
    for k in 0..contacts.len()
        invariant
            interactions@ == spec_interactions(contacts@.take(k as int)),
            interactions@.len() <= k,
    {
        let found = contact_interaction(contacts[k]);
        proof {
            assert(contacts@.take(k + 1).drop_last() =~= contacts@.take(k as int));
            assert(contacts@.take(k + 1).last() == contacts@[k as int]);
        }
        match found {
            Some(i) => interactions.push(i),
            None => {},
        }
    }
    proof {
        assert(contacts@.take(contacts@.len() as int) =~= contacts@);
    }
    interactions
}

/// Every interaction that the contacts give comes from one of the contacts,
/// between an interactor and an interactable of that contact.
pub proof fn lemma_interactions_come_from_contacts(contacts: Seq<Contact>, j: int)
    requires
        0 <= j < spec_interactions(contacts).len(),
    ensures
        exists|k: int|
            0 <= k < contacts.len() && spec_contact_interaction(#[trigger] contacts[k]) == Some(
                spec_interactions(contacts)[j],
            ),
    decreases contacts.len(),
{
    let before = spec_interactions(contacts.drop_last());
    if j < before.len() {
        lemma_interactions_come_from_contacts(contacts.drop_last(), j);
        let k = choose|k: int|
            0 <= k < contacts.drop_last().len() && spec_contact_interaction(
                #[trigger] contacts.drop_last()[k],
            ) == Some(before[j]);
        assert(contacts[k] == contacts.drop_last()[k]);
    } else {
        assert(contacts[contacts.len() - 1] == contacts.last());
    }
}

/// An interaction always joins an interactor and an interactable of its
/// contact, with the first collider as interactor when both orders fit; a
/// contact gives one exactly when some order fits.
pub proof fn lemma_contact_roles(c: Contact)
    ensures
        spec_contact_interaction(c) matches Some(i) ==> ((i.interactable == c.collider2
            && i.interactor == c.collider1 && c.collider1_interactor && c.collider2_interactable)
            || (i.interactable == c.collider1 && i.interactor == c.collider2
            && c.collider2_interactor && c.collider1_interactable)),
        (c.collider1_interactor && c.collider2_interactable) ==> spec_contact_interaction(c)
            == Some(Interaction { interactable: c.collider2, interactor: c.collider1 }),
        spec_contact_interaction(c) is Some <==> ((c.collider1_interactor
            && c.collider2_interactable) || (c.collider2_interactor && c.collider1_interactable)),
{
}

/// Opening a closed chest hands out exactly its gold and leaves it open;
/// opening an open chest changes nothing.
pub proof fn lemma_chest_open(chest: Chest)
    ensures
        !chest.is_open ==> spec_open_chest(chest) == (Chest {
            is_open: true,
            gold_content: chest.gold_content,
        }, Some(chest.gold_content)),
        chest.is_open ==> spec_open_chest(chest) == (chest, None::<u32>),
{
}

} // verus!
