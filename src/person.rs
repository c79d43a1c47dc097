use vstd::prelude::*;
use vstd::string::StringExecFns;

use crate::text::decimal;
use crate::text::decimal_string;

verus! {

/// A plain record: a name and an age, with no identity beyond them.
#[derive(Clone, Debug, PartialEq, Eq)]
pub struct Person {
    pub name: String,
    pub age: u32,
}

impl View for Person {
    type V = (Seq<char>, u32);

    open spec fn view(&self) -> (Seq<char>, u32) {
        (self.name@, self.age)
    }
}

/// The greeting for `name`.
pub open spec fn greeting(name: Seq<char>) -> Seq<char> {
    "Hello, "@ + name + "!"@
}

/// The sentence that describes a person.
pub open spec fn description(name: Seq<char>, age: u32) -> Seq<char> {
    name + " is "@ + decimal(age as nat) + " years old"@
}

/// Greets `name`.
pub fn greet(name: String) -> (r: String)
    ensures
        r@ == greeting(name@),
{
    let mut r = String::from_str("Hello, ");
    r.append(name.as_str());
    r.append("!");
    r
}

/// Greets `name`, or a stranger when no name is given.
pub fn greet_optional(name: Option<String>) -> (r: String)
    ensures
        name matches Some(n) ==> r@ == greeting(n@),
        name is None ==> r@ == "Hello, stranger!"@,
{
    match name {
        Some(n) => greet(n),
        None => String::from_str("Hello, stranger!"),
    }
}

/// A person with this name and age.
pub fn create_person(name: String, age: u32) -> (r: Person)
    ensures
        r@ == (name@, age),
{
    Person { name, age }
}

/// The sentence that says how old the person is.
pub fn describe_person(person: Person) -> (r: String)
    ensures
        r@ == description(person.name@, person.age),
{
    let mut r = person.name;
    r.append(" is ");
    let d = decimal_string(person.age as u64);
    r.append(d.as_str());
    r.append(" years old");
    r
}

} // verus!
