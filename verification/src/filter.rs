//! Which station names the operator still waits for.

use vstd::prelude::*;

verus! {

/// The names that a restricted filter still waits for, or `None` for a filter
/// that takes every name.
pub open spec fn pending_of(names: Seq<Seq<char>>) -> Option<Set<Seq<char>>> {
    if names.len() == 0 {
        None
    } else {
        Some(names.to_set())
    }
}

/// A filter has nothing left to wait for: it is restricted and no name is
/// pending. An unrestricted filter never gets there.
pub open spec fn completed(pending: Option<Set<Seq<char>>>) -> bool {
    match pending {
        None => false,
        Some(names) => names.is_empty(),
    }
}

/// Whether a filter takes a station of this name.
pub open spec fn takes(pending: Option<Set<Seq<char>>>, name: Seq<char>) -> bool {
    match pending {
        None => true,
        Some(names) => names.contains(name),
    }
}

/// What a filter waits for once a station of this name has been offered to it.
pub open spec fn after_match(pending: Option<Set<Seq<char>>>, name: Seq<char>) -> Option<
    Set<Seq<char>>,
> {
    match pending {
        None => None,
        Some(names) => Some(names.remove(name)),
    }
}

/// What a filter waits for once every name of `offered` has been offered to
/// it, first to last.
pub open spec fn after_matches(pending: Option<Set<Seq<char>>>, offered: Seq<Seq<char>>) -> Option<
    Set<Seq<char>>,
>
    decreases offered.len(),
{
    if offered.len() == 0 {
        pending
    } else {
        after_matches(after_match(pending, offered[0]), offered.drop_first())
    }
}

/// No two entries of `names` hold the same text.
spec fn distinct(names: Seq<String>) -> bool {
    forall|i: int, j: int| 0 <= i < j < names.len() ==> names[i]@ != names[j]@
}

/// Selects stations by name. An unrestricted filter takes every station and
/// never completes; a restricted one takes each of its names once and is
/// complete when none is left.
#[derive(Debug)]
pub struct Filter {
    names: Option<Vec<String>>,
}

impl View for Filter {
    type V = Option<Set<Seq<char>>>;

    closed spec fn view(&self) -> Option<Set<Seq<char>>> {
        match self.names {
            None => None,
            Some(names) => Some(names.deep_view().to_set()),
        }
    }
}

impl Filter {
    #[verifier::type_invariant]
    spec fn each_name_once(self) -> bool {
        match self.names {
            None => true,
            Some(names) => distinct(names@),
        }
    }

    /// A filter for the given names: unrestricted if there is none, else
    /// restricted to them, each counted once however often it is given.
    pub fn new(names: Vec<String>) -> (filter: Filter)
        ensures
            filter@ == pending_of(names.deep_view()),
    {
        if names.len() == 0 {
            return Filter { names: None };
        }
        let mut pending: Vec<String> = Vec::new();
        let mut i: usize = 0;
        while i < names.len()
            invariant
                i <= names.len(),
                distinct(pending@),
                forall|n: Seq<char>|
                    pending.deep_view().contains(n) <==> names.deep_view().take(i as int).contains(
                        n,
                    ),
            decreases names.len() - i,
        {
            let ghost before = pending.deep_view();
            let ghost seen = names.deep_view().take(i as int);
            let found = position(&pending, &names[i]);
            if found.is_none() {
                assert forall|k: int| 0 <= k < pending.len() implies pending[k]@
                    != names[i as int]@ by {
                    assert(before[k] == pending[k]@);
                }
                pending.push(names[i].clone());
                assert(pending.deep_view() =~= before.push(names[i as int]@));
            }
            proof {
                let grown = names.deep_view().take(i + 1);
                assert(grown =~= seen.push(names[i as int]@));
                assert forall|n: Seq<char>|
                    pending.deep_view().contains(n) <==> grown.contains(n) by {
                    if n == names[i as int]@ {
                        assert(grown[i as int] == n);
                        if found is Some {
                            assert(before[found.unwrap() as int] == n);
                        } else {
                            assert(pending.deep_view()[pending.len() - 1] == n);
                        }
                    } else {
                        if before.contains(n) {
                            let k = choose|k: int| 0 <= k < before.len() && before[k] == n;
                            assert(pending.deep_view()[k] == n);
                        }
                        if seen.contains(n) {
                            let k = choose|k: int| 0 <= k < seen.len() && seen[k] == n;
                            assert(grown[k] == n);
                        }
                        if pending.deep_view().contains(n) {
                            let k = choose|k: int|
                                0 <= k < pending.deep_view().len() && pending.deep_view()[k] == n;
                            assert(before[k] == n);
                        }
                        if grown.contains(n) {
                            let k = choose|k: int| 0 <= k < grown.len() && grown[k] == n;
                            assert(seen[k] == n);
                        }
                    }
                }
            }
            i += 1;
        }
        assert(names.deep_view().take(names.len() as int) =~= names.deep_view());
        assert(pending.deep_view().to_set() =~= names.deep_view().to_set());
        Filter { names: Some(pending) }
    }

    /// Whether the filter has taken every name it was made for.
    pub fn is_completed(&self) -> (done: bool)
        ensures
            done == completed(self@),
    {
        match &self.names {
            None => false,
            Some(names) => {
                proof {
                    if names.len() > 0 {
                        assert(names.deep_view()[0] == names[0]@);
                        assert(names.deep_view().to_set().contains(names[0]@));
                    }
                }
                names.len() == 0
            },
        }
    }

    /// Offers a station's name to the filter. A restricted filter takes the
    /// name if it still waits for it, and no longer waits for it afterwards;
    /// an unrestricted one takes every name and stays as it is.
    pub fn is_matched(&mut self, name: &str) -> (taken: bool)
        ensures
            taken == takes(old(self)@, name@),
            final(self)@ == after_match(old(self)@, name@),
    {
        proof {
            use_type_invariant(&*self);
        }
        let mut held: Option<Vec<String>> = None;
        std::mem::swap(&mut self.names, &mut held);
        match held {
            None => true,
            Some(mut names) => {
                let ghost before = names@;
                let wanted = name.to_owned();
                let found = position(&names, &wanted);
                assert(names.deep_view() =~= texts(before));
                let taken = match found {
                    Some(i) => {
                        names.remove(i);
                        proof {
                            removal_drops_the_name(before, i as int);
                            assert(names.deep_view() =~= texts(before.remove(i as int)));
                            assert(texts(before)[i as int] == name@);
                        }
                        true
                    },
                    None => {
                        assert(names.deep_view().to_set().remove(name@)
                            =~= names.deep_view().to_set());
                        false
                    },
                };
                self.names = Some(names);
                taken
            },
        }
    }
}

/// The first place in `names` that holds the text of `wanted`, if any does.
fn position(names: &Vec<String>, wanted: &String) -> (found: Option<usize>)
    ensures
        match found {
            Some(i) => i < names.len() && names[i as int]@ == wanted@,
            None => !names.deep_view().contains(wanted@),
        },
{
    let mut i: usize = 0;
    while i < names.len()
        invariant
            i <= names.len(),
            forall|k: int| 0 <= k < i ==> names[k]@ != wanted@,
        decreases names.len() - i,
    {
        if names[i] == *wanted {
            return Some(i);
        }
        i += 1;
    }
    assert forall|k: int| 0 <= k < names.deep_view().len() implies names.deep_view()[k]
        != wanted@ by {
        assert(names[k]@ != wanted@);
    }
    None
}

/// Taking the entry at `at` out of names that are all different leaves them
/// all different, and as a set takes out exactly that entry's text.
proof fn removal_drops_the_name(names: Seq<String>, at: int)
    requires
        distinct(names),
        0 <= at < names.len(),
    ensures
        distinct(names.remove(at)),
        texts(names.remove(at)).to_set() == texts(names).to_set().remove(names[at]@),
{
    let rest = names.remove(at);
    assert forall|n: Seq<char>|
        texts(rest).to_set().contains(n) <==> texts(names).to_set().remove(names[at]@).contains(
            n,
        ) by {
        if texts(rest).contains(n) {
            let k = choose|k: int| 0 <= k < texts(rest).len() && texts(rest)[k] == n;
            if k < at {
                assert(texts(names)[k] == n);
            } else {
                assert(texts(names)[k + 1] == n);
            }
        }
        if n != names[at]@ && texts(names).contains(n) {
            let k = choose|k: int| 0 <= k < texts(names).len() && texts(names)[k] == n;
            if k < at {
                assert(texts(rest)[k] == n);
            } else {
                assert(texts(rest)[k - 1] == n);
            }
        }
    }
    assert(texts(rest).to_set() =~= texts(names).to_set().remove(names[at]@));
}

/// The texts of `names`, in their order.
spec fn texts(names: Seq<String>) -> Seq<Seq<char>> {
    Seq::new(names.len(), |i: int| names[i]@)
}

/// A filter made from no names is never complete and takes every name,
/// whatever has been offered to it before: offering changes nothing.
pub proof fn unrestricted_takes_everything(
    names: Seq<Seq<char>>,
    offered: Seq<Seq<char>>,
    name: Seq<char>,
)
    requires
        names.len() == 0,
    ensures
        after_matches(pending_of(names), offered) == pending_of(names),
        !completed(after_matches(pending_of(names), offered)),
        takes(after_matches(pending_of(names), offered), name),
    decreases offered.len(),
{
    if offered.len() > 0 {
        unrestricted_takes_everything(names, offered.drop_first(), name);
    }
}

/// A restricted filter takes a name at most once: right after the name was
/// offered the filter no longer takes it, whether it took it then or not.
pub proof fn taken_at_most_once(pending: Option<Set<Seq<char>>>, name: Seq<char>)
    requires
        pending is Some,
    ensures
        !takes(after_match(pending, name), name),
        forall|other: Seq<char>|
            other != name ==> takes(after_match(pending, name), other) == takes(pending, other),
{
}

/// A restricted filter waits for exactly those of its names that have not
/// been offered yet, so it is complete exactly when all of them have been.
pub proof fn complete_when_all_offered(names: Set<Seq<char>>, offered: Seq<Seq<char>>)
    ensures
        after_matches(Some(names), offered) == Some(names.difference(offered.to_set())),
        completed(after_matches(Some(names), offered)) <==> names.subset_of(offered.to_set()),
    decreases offered.len(),
{
    if offered.len() == 0 {
        assert(names.difference(offered.to_set()) =~= names);
    } else {
        let first = offered[0];
        let rest = offered.drop_first();
        complete_when_all_offered(names.remove(first), rest);
        assert forall|n: Seq<char>| offered.contains(n) <==> n == first || rest.contains(n) by {
            if offered.contains(n) {
                let k = choose|k: int| 0 <= k < offered.len() && offered[k] == n;
                if k > 0 {
                    assert(rest[k - 1] == n);
                }
            }
            if rest.contains(n) {
                let k = choose|k: int| 0 <= k < rest.len() && rest[k] == n;
                assert(offered[k + 1] == n);
            }
            if n == first {
                assert(offered[0] == n);
            }
        }
        assert(names.remove(first).difference(rest.to_set()) =~= names.difference(
            offered.to_set(),
        ));
    }
    let left = names.difference(offered.to_set());
    if names.subset_of(offered.to_set()) {
        assert(left =~= Set::empty());
    }
    if left.is_empty() {
        assert forall|n: Seq<char>| names.contains(n) implies offered.to_set().contains(n) by {
            assert(!left.contains(n));
        }
    }
}

} // verus!
