//! The executables that the helper may start.

use vstd::prelude::*;

use crate::command::{
    base_name, exe_suffix, has_exe_suffix, lemma_base_start_is, normalized_name,
};
use crate::text::{lower, same_text};

verus! {

/// The names on the allow-list, each in the form that
/// [`normalized_name`](crate::command::normalized_name) produces.
pub open spec fn allowed_names() -> Set<Seq<char>> {
    set!["ffplay_dt"@]
}

/// A fixed set of executable names. A request may start an executable only
/// if its normalised name is in this set.
pub struct AllowList {
    names: Vec<String>,
}

impl View for AllowList {
    type V = Set<Seq<char>>;

    closed spec fn view(&self) -> Set<Seq<char>> {
        Set::new(|name: Seq<char>| exists|i: int| 0 <= i < self.names.len() && self.names[i]@ == name)
    }
}

impl AllowList {
    /// Whether `name` is on the list.
    pub fn contains(&self, name: &str) -> (listed: bool)
        ensures
            listed == self@.contains(name@),
    {
        let mut i: usize = 0;
        while i < self.names.len()
            invariant
                i <= self.names.len(),
                forall|k: int| 0 <= k < i ==> self.names[k]@ != name@,
            decreases self.names.len() - i,
        {
            if same_text(self.names[i].as_str(), name) {
                return true;
            }
            i += 1;
        }
        false
    }
}

/// The allow-list of this helper.
pub fn allowed_executables() -> (list: AllowList)
    ensures
        list@ == allowed_names(),
{
    let mut names: Vec<String> = Vec::new();
    names.push("ffplay_dt".to_owned());
    let list = AllowList { names };
    assert(list.names[0]@ == "ffplay_dt"@);
    assert(list@ =~= allowed_names());
    list
}

/// Every name on the allow-list is in normalised form: it holds no path,
/// no executable suffix and no upper-case letter, so it is the name under
/// which an executable of that name is looked up.
pub proof fn lemma_allowed_names_are_normalized(name: Seq<char>)
    requires
        allowed_names().contains(name),
    ensures
        normalized_name(name) == name,
{
    reveal_strlit("ffplay_dt");
    assert(name == "ffplay_dt"@);
    lemma_base_start_is(name, 0);
    assert(base_name(name) =~= name);
    assert(lower(name.skip(name.len() - 4))[0] != exe_suffix()[0]);
    assert(!has_exe_suffix(name));
    assert(lower(name) =~= name);
}

} // verus!
