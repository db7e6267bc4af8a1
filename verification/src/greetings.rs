//! The greeting capability: a trait with a specification-level greeting,
//! implemented per type, dispatched statically and dynamically.

use vstd::prelude::*;

verus! {

/// The capability of producing a greeting. `greeting` is the
/// specification-level text; `say_hello` must return exactly it.
pub trait Greet {
    /// The greeting this entity owes, at the specification level. A type
    /// that does not state its own keeps the default text.
    open spec fn greeting(&self) -> Seq<char> {
        "Default hello"@
    }

    /// Produces this entity's own greeting text.
    fn say_hello(&self) -> (r: String)
        ensures
            r@ == self.greeting(),
    ;
}

/// A bird; keeps the capability's default greeting.
pub struct Bird;

impl Greet for Bird {
    fn say_hello(&self) -> (r: String) {
        String::from_str("Default hello")
    }
}

/// A named person; greets with its name.
pub struct Person {
    pub name: String,
}

impl Greet for Person {
    open spec fn greeting(&self) -> Seq<char> {
        "My name is "@ + self.name@
    }

    fn say_hello(&self) -> (r: String) {
        let mut r = String::from_str("My name is ");
        r.append(self.name.as_str());
        r
    }
}

/// A robot; greets impersonally.
pub struct Robot;

impl Greet for Robot {
    open spec fn greeting(&self) -> Seq<char> {
        "I am a robot"@
    }

    fn say_hello(&self) -> (r: String) {
        String::from_str("I am a robot")
    }
}

/// A primary color; greets with its own name.
#[derive(Clone, Copy, Debug, PartialEq, Eq, Structural)]
pub enum Color {
    Red,
    Blue,
    Green,
}

impl Greet for Color {
    open spec fn greeting(&self) -> Seq<char> {
        match *self {
            Color::Red => "Red"@,
            Color::Blue => "Blue"@,
            Color::Green => "Green"@,
        }
    }

    fn say_hello(&self) -> (r: String) {
        match self {
            Color::Red => String::from_str("Red"),
            Color::Blue => String::from_str("Blue"),
            Color::Green => String::from_str("Green"),
        }
    }
}

/// Greets an entity through static dispatch: the concrete type is known at
/// the call site, and the result is that entity's own greeting.
pub fn greet_someone<G: Greet>(greeter: &G) -> (r: String)
    ensures
        r@ == greeter.greeting(),
{
    greeter.say_hello()
}

/// Greets an entity through dynamic dispatch: the concrete type is behind
/// an indirection, and the call is resolved per instance at run time.
pub fn dynamic_greet(greeter: &dyn Greet) -> (r: String)
    ensures
        r@ == greeter.greeting(),
{
    greeter.say_hello()
}

/// The capability of making a sound. As with `Greet`, `sound` is the
/// specification-level text and `speak` must produce exactly it; callers
/// print or log the text themselves.
pub trait Animal {
    /// The sound this animal owes, at the specification level.
    spec fn sound(&self) -> Seq<char>;

    /// Produces this animal's own sound text.
    fn speak(&self) -> (r: String)
        ensures
            r@ == self.sound(),
    ;
}

/// A dog.
pub struct Dog;

impl Animal for Dog {
    open spec fn sound(&self) -> Seq<char> {
        "Woof!"@
    }

    fn speak(&self) -> (r: String) {
        String::from_str("Woof!")
    }
}

/// A cat.
pub struct Cat;

impl Animal for Cat {
    open spec fn sound(&self) -> Seq<char> {
        "Meow!"@
    }

    fn speak(&self) -> (r: String) {
        String::from_str("Meow!")
    }
}

/// Any one of the greeting entities, as a tagged union: the closed-set
/// counterpart of a heterogeneous trait-object collection, dispatched by
/// tag instead of by a per-instance lookup table.
pub enum Greeter {
    Person(Person),
    Robot(Robot),
    Color(Color),
    Bird(Bird),
}

impl Greet for Greeter {
    open spec fn greeting(&self) -> Seq<char> {
        match *self {
            Greeter::Person(p) => p.greeting(),
            Greeter::Robot(r) => r.greeting(),
            Greeter::Color(c) => c.greeting(),
            Greeter::Bird(b) => b.greeting(),
        }
    }

    fn say_hello(&self) -> (r: String) {
        match self {
            Greeter::Person(p) => p.say_hello(),
            Greeter::Robot(r) => r.say_hello(),
            Greeter::Color(c) => c.say_hello(),
            Greeter::Bird(b) => b.say_hello(),
        }
    }
}

/// Greets a heterogeneous collection: entities of different variants share
/// only the greeting capability, and each one's own implementation is
/// invoked exactly once, in iteration order.
pub fn greet_all(greeters: &Vec<Greeter>) -> (r: Vec<String>)
    ensures
        r@.len() == greeters@.len(),
        forall|i: int| 0 <= i < r@.len() ==> r@[i]@ == greeters@[i].greeting(),
{
    let mut r: Vec<String> = Vec::new();
    let mut idx: usize = 0;
    while idx < greeters.len()
        invariant
            idx <= greeters@.len(),
            r@.len() == idx,
            forall|i: int| 0 <= i < idx ==> r@[i]@ == greeters@[i].greeting(),
        decreases greeters@.len() - idx,
    {
        let greeting = greeters[idx].say_hello();
        r.push(greeting);
        idx = idx + 1;
    }
    r
}

/// Hands out a named greeter, owned by the caller.
pub fn get_greeter(name: &str) -> (r: Person)
    ensures
        r.greeting() == "My name is "@ + name@,
{
    Person { name: String::from_str(name) }
}

} // verus!
