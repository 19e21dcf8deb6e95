//! A named person with an age.

use vstd::prelude::*;

verus! {

/// A person, by name and age.
pub struct Person {
    pub name: String,
    pub age: u8,
}

/// Builds a `Person` from a borrowed name and an age.
pub fn make_person(name: &str, age: u8) -> (r: Person)
    ensures
        r.name@ == name@,
        r.age == age,
{
    Person { name: name.to_owned(), age }
}

} // verus!
