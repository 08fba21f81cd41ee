//! A person record with owned text fields and an activity flag.
use vstd::prelude::*;
use crate::decimal::{decimal, push_decimal};

verus! {

/// What a person record holds.
pub struct PersonModel {
    pub name: Seq<char>,
    pub age: u32,
    pub email: Seq<char>,
    pub is_active: bool,
}

/// A person with a name, an age, an e-mail address and an activity flag.
#[derive(Debug)]
pub struct Person {
    name: String,
    age: u32,
    email: String,
    is_active: bool,
}

impl View for Person {
    type V = PersonModel;

    closed spec fn view(&self) -> PersonModel {
        PersonModel { name: self.name@, age: self.age, email: self.email@, is_active: self.is_active }
    }
}

/// The greeting of a person named `name` who is `age` years old.
pub open spec fn greeting(name: Seq<char>, age: u32) -> Seq<char> {
    "Hello, my name is "@ + name + " and I'm "@ + decimal(age as nat) + " years old"@
}

/// The notice given when the person named `name` is deleted.
pub open spec fn deletion_notice(name: Seq<char>) -> Seq<char> {
    name + " has been permanently deleted"@
}

impl Person {
    /// A new person, active from the start.
    pub fn new(name: String, age: u32, email: String) -> (r: Person)
        ensures
            r@ == (PersonModel { name: name@, age, email: email@, is_active: true }),
    {
        Person { name, age, email, is_active: true }
    }

    /// A greeting that gives the person's name and age.
    pub fn greet(&self) -> (r: String)
        ensures
            r@ == greeting(self@.name, self@.age),
    {
        let mut s = String::from_str("Hello, my name is ");
        s.append(self.name.as_str());
        s.append(" and I'm ");
        push_decimal(&mut s, self.age);
        s.append(" years old");
        s
    }

    /// Marks the person inactive; every other field stays.
    pub fn deactivate(&mut self)
        ensures
            final(self)@ == (PersonModel { is_active: false, ..old(self)@ }),
    {
        self.is_active = false;
    }

    /// Consumes the person and returns the notice of its deletion.
    pub fn delete(self) -> (r: String)
        ensures
            r@ == deletion_notice(self@.name),
    {
        let mut s = self.name;
        s.append(" has been permanently deleted");
        s
    }

    /// Whether the person is active.
    pub fn is_active(&self) -> (r: bool)
        ensures
            r == self@.is_active,
    {
        self.is_active
    }
}

} // verus!
