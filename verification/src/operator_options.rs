//! Options that every operator takes.
use vstd::prelude::*;

verus! {

/// The options of an operator: a label, empty by default.
#[derive(Debug, PartialEq, Eq)]
pub struct MLOperatorOptions {
    pub label: String,
}

impl View for MLOperatorOptions {
    type V = Seq<char>;

    /// The label.
    open spec fn view(&self) -> Seq<char> {
        self.label@
    }
}

impl Default for MLOperatorOptions {
    fn default() -> (options: Self)
        ensures
            options@ == Seq::<char>::empty(),
    {
        MLOperatorOptions { label: String::new() }
    }
}

impl Clone for MLOperatorOptions {
    fn clone(&self) -> (copy: Self)
        ensures
            copy@ == self@,
    {
        MLOperatorOptions { label: self.label.clone() }
    }
}

} // verus!
