//! Person data that accompanies image references.
use vstd::prelude::*;
use vstd::string::StrSliceExecFns;

verus! {

#[derive(Clone, Copy, Debug, PartialEq, Eq, Structural)]
pub enum Gender {
    Male,
    Female,
}

/// What `str::to_lowercase` returns for `s`.
pub uninterp spec fn lower_of(s: Seq<char>) -> Seq<char>;

/// Relies on `str::to_lowercase`: the result depends on the characters alone.
#[verifier::external_body]
fn lowercase(s: &str) -> (r: String)
    ensures
        r@ == lower_of(s@),
{
    s.to_lowercase()
}

/// Whether two strings hold the same characters.
fn same_text(a: &str, b: &str) -> (r: bool)
    ensures
        r == (a@ == b@),
{
    let n = a.unicode_len();
    if n != b.unicode_len() {
        return false;
    }
    let mut i: usize = 0;
    while i < n
        invariant
            n == a@.len(),
            n == b@.len(),
            i <= n,
            forall|j: int| 0 <= j < i ==> a@[j] == b@[j],
        decreases n - i,
    {
        if a.get_char(i) != b.get_char(i) {
            return false;
        }
        i = i + 1;
    }
    assert(a@ =~= b@);
    true
}

/// The gender named by the lower-case text `t`.
pub open spec fn gender_named(t: Seq<char>) -> Option<Gender> {
    if t == "male"@ {
        Some(Gender::Male)
    } else if t == "female"@ {
        Some(Gender::Female)
    } else {
        None
    }
}

impl Gender {
    /// The gender named by `t`, which is already in lower case.
    pub fn from_lowercase(t: &str) -> (r: Option<Gender>)
        ensures
            r == gender_named(t@),
    {
        if same_text(t, "male") {
            Some(Gender::Male)
        } else if same_text(t, "female") {
            Some(Gender::Female)
        } else {
            None
        }
    }

    /// The gender named by a form value, in any case.
    pub fn from_value(value: &str) -> (r: Option<Gender>)
        ensures
            r == gender_named(lower_of(value@)),
    {
        let t = lowercase(value);
        Gender::from_lowercase(t.as_str())
    }
}

} // verus!
