//! Labels for elements.
//!
//! A label attaches to the closest preceding element and can be
//! referenced, queried for, and styled. Its model is its name.

use vstd::prelude::*;
use vstd::string::StringExecFns;

verus! {

/// A label for an element, carrying its name.
pub struct Label(String);

impl View for Label {
    type V = Seq<char>;

    closed spec fn view(&self) -> Seq<char> {
        self.0@
    }
}

impl Clone for Label {
    fn clone(&self) -> (r: Self)
        ensures
            r@ == self@,
    {
        Label(self.0.clone())
    }
}

impl Label {
    /// Creates a label from its name.
    pub fn new(name: String) -> (r: Self)
        ensures
            r@ == name@,
    {
        Label(name)
    }

    /// Resolves the label to its name.
    pub fn resolve(self) -> (r: String)
        ensures
            r@ == self@,
    {
        self.0
    }

    /// Turns this label into its inner name.
    pub fn into_inner(self) -> (r: String)
        ensures
            r@ == self@,
    {
        self.0
    }

    /// Creates a label from a string, as the constructor function
    /// exposed to documents does.
    pub fn construct(name: String) -> (r: Label)
        ensures
            r@ == name@,
    {
        Label(name)
    }

    /// The label's display form: its name in angle brackets.
    pub fn repr(&self) -> (r: String)
        ensures
            r@ == "<"@ + self@ + ">"@,
    {
        let mut out = "<".to_owned();
        out.append(self.0.as_str());
        out.append(">");
        out
    }
}

/// Indicates that an element cannot be labelled.
pub trait Unlabellable {

}

} // verus!
