//! Two traits with a method of the same name, and a type that has both.

use vstd::prelude::*;

verus! {

/// Something that holds a user name.
pub trait UsernameWidget {
    /// The user name held.
    spec fn username(&self) -> Seq<char>;

    /// A copy of the user name.
    fn get(&self) -> (name: String)
        ensures
            name@ == self.username(),
    ;
}

/// Something that holds an age.
pub trait AgeWidget {
    /// The age held.
    spec fn age(&self) -> u8;

    /// The age.
    fn get(&self) -> (age: u8)
        ensures
            age == self.age(),
    ;
}

/// A form with a user name and an age.
pub struct Form {
    pub username: String,
    pub age: u8,
}

impl UsernameWidget for Form {
    open spec fn username(&self) -> Seq<char> {
        self.username@
    }

    fn get(&self) -> (name: String) {
        self.username.clone()
    }
}

impl AgeWidget for Form {
    open spec fn age(&self) -> u8 {
        self.age
    }

    fn get(&self) -> (age: u8) {
        self.age
    }
}

} // verus!
