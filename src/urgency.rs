//! Urgency marks, added to `String` through a trait of this crate.
use vstd::prelude::*;
use vstd::string::StringExecFns;

verus! {

/// A text that can be made to sound urgent.
pub trait Urgency {
    /// Appends an exclamation mark.
    fn add_urgency(&mut self);

    /// Wraps the text in Spanish exclamation marks: an inverted one in front,
    /// a plain one at the end.
    fn add_urgency_in_spanish(&mut self);
}

impl Urgency for String {
    fn add_urgency(&mut self)
        ensures
            final(self)@ == old(self)@.push('!'),
    {
        proof {
            reveal_strlit("!");
        }
        self.append("!");
    }

    fn add_urgency_in_spanish(&mut self)
        ensures
            final(self)@ == seq!['¡'] + old(self)@.push('!'),
    {
        proof {
            reveal_strlit("¡");
            reveal_strlit("!");
        }
        let mut marked = String::from_str("¡");
        marked.append(self.as_str());
        marked.append("!");
        *self = marked;
    }
}

/// Four marks added to a greeting, one after another.
#[allow(dead_code)]
fn example() {
    let mut name = String::from_str("Hello");
    name.add_urgency();
    name.add_urgency();
    name.add_urgency();
    name.add_urgency();
    proof {
        reveal_strlit("Hello");
        reveal_strlit("Hello!!!!");
    }
    assert(name@ == "Hello!!!!"@);
}

} // verus!
