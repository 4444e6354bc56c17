//! Response headers as plain name/value pairs.
//!
//! The transport hands headers over as owned strings; this type carries them
//! through the response envelope and offers lookup by name.

use vstd::prelude::*;
use vstd::string::StringExecFns;

verus! {

/// The headers of one response, in the order the transport delivered them.
pub struct Headers(Vec<(String, String)>);

impl View for Headers {
    type V = Seq<(Seq<char>, Seq<char>)>;

    closed spec fn view(&self) -> Seq<(Seq<char>, Seq<char>)> {
        self.0.deep_view()
    }
}

impl Headers {
    /// Wraps a list of name/value pairs.
    pub fn new(pairs: Vec<(String, String)>) -> (h: Headers)
        ensures
            h@ == pairs.deep_view(),
    {
        Headers(pairs)
    }

    /// No headers at all.
    pub fn empty() -> (h: Headers)
        ensures
            h@ == Seq::<(Seq<char>, Seq<char>)>::empty(),
    {
        let v: Vec<(String, String)> = Vec::new();
        proof {
            assert(v.deep_view() =~= Seq::<(Seq<char>, Seq<char>)>::empty());
        }
        Headers(v)
    }

    /// All pairs, in delivery order.
    pub fn pairs(&self) -> (p: &Vec<(String, String)>)
        ensures
            p.deep_view() == self@,
    {
        &self.0
    }

    /// The value of the first header named `name`, if any.
    pub fn get(&self, name: &str) -> (r: Option<&String>)
        ensures
            r matches Some(v) ==> exists|i: int|
                0 <= i < self@.len() && self@[i] == (name@, v@),
            r is None ==> forall|i: int| 0 <= i < self@.len() ==> (#[trigger] self@[i]).0 != name@,
    {
        let key = String::from_str(name);
        let n = self.0.len();
        for i in 0..n
            invariant
                n == self.0.len(),
                key@ == name@,
                forall|j: int| 0 <= j < i ==> (#[trigger] self.0.deep_view()[j]).0 != name@,
        {
            proof {
                assert(self.0.deep_view()[i as int].0 == self.0@[i as int].0@);
                assert(self.0.deep_view()[i as int].1 == self.0@[i as int].1@);
            }
            if self.0[i].0.eq(&key) {
                proof {
                    assert(self@[i as int] == (name@, self.0@[i as int].1@));
                }
                return Some(&self.0[i].1);
            }
        }
        None
    }
}

} // verus!
