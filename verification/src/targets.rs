//! The test targets of a package, gathered under the names their artifacts carry.

use vstd::prelude::*;
use crate::metadata::{PackageMetadata, TargetMetadata};
use crate::text::same_text;

verus! {

/// A test target under the name that its artifacts file carries.
#[derive(Debug)]
pub struct NamedTarget<'a> {
    pub name: String,
    pub target: &'a TargetMetadata,
}

/// Whether the target is a test target.
pub open spec fn is_test_target(target: TargetMetadata) -> bool {
    target.kind@ == "test"@
}

/// The name under which a test target is gathered: its group, where it has one, else
/// its own name.
pub open spec fn test_target_name(target: TargetMetadata) -> Seq<char> {
    match target.group_id {
        Some(group) => group@,
        None => target.name@,
    }
}

/// The names of the test targets, each once, in the order of first appearance.
pub open spec fn test_target_names(targets: Seq<TargetMetadata>) -> Seq<Seq<char>>
    decreases targets.len(),
{
    if targets.len() == 0 {
        Seq::empty()
    } else {
        let earlier = test_target_names(targets.drop_last());
        let last = targets.last();
        if is_test_target(last) && !earlier.contains(test_target_name(last)) {
            earlier.push(test_target_name(last))
        } else {
            earlier
        }
    }
}

/// The test target that a name stands for: the last one gathered under it.
pub open spec fn test_target_named(targets: Seq<TargetMetadata>, name: Seq<char>) -> Option<
    TargetMetadata,
>
    decreases targets.len(),
{
    if targets.len() == 0 {
        None
    } else {
        let last = targets.last();
        if is_test_target(last) && test_target_name(last) == name {
            Some(last)
        } else {
            test_target_named(targets.drop_last(), name)
        }
    }
}

/// Whether `gathered` holds the test targets of `targets` by name: one entry for each
/// name, in the order of first appearance, with the last target of that name.
pub open spec fn gathers(gathered: Seq<NamedTarget>, targets: Seq<TargetMetadata>) -> bool {
    &&& gathered.len() == test_target_names(targets).len()
    &&& forall|i: int|
        0 <= i < gathered.len() ==> {
            &&& (#[trigger] gathered[i]).name@ == test_target_names(targets)[i]
            &&& Some(*gathered[i].target) == test_target_named(targets, gathered[i].name@)
        }
}

/// The names gathered from test targets differ from one another.
pub proof fn lemma_test_target_names_distinct(targets: Seq<TargetMetadata>)
    ensures
        forall|a: int, b: int|
            0 <= a < b < test_target_names(targets).len() ==> test_target_names(targets)[a]
                != test_target_names(targets)[b],
    decreases targets.len(),
{
    if targets.len() > 0 {
        let earlier = test_target_names(targets.drop_last());
        let names = test_target_names(targets);
        lemma_test_target_names_distinct(targets.drop_last());
        assert forall|a: int, b: int| 0 <= a < b < names.len() implies names[a] != names[b] by {
            if b >= earlier.len() {
                assert(earlier[a] == names[a]);
                assert(earlier.contains(names[a]));
            }
        }
    }
}

/// The name under which a test target is gathered.
fn name_of_test_target(target: &TargetMetadata) -> (r: String)
    ensures
        r@ == test_target_name(*target),
{
    match &target.group_id {
        Some(group) => group.clone(),
        None => target.name.clone(),
    }
}

/// The place of the entry with the given name.
fn place_of_name(gathered: &Vec<NamedTarget>, name: &str) -> (r: Option<usize>)
    ensures
        match r {
            Some(j) => j < gathered.len() && gathered@[j as int].name@ == name@,
            None => forall|i: int| 0 <= i < gathered.len() ==> gathered@[i].name@ != name@,
        },
{
    let mut i: usize = 0;
    while i < gathered.len()
        invariant
            i <= gathered.len(),
            forall|k: int| 0 <= k < i ==> gathered@[k].name@ != name@,
        decreases gathered.len() - i,
    {
        if same_text(gathered[i].name.as_str(), name) {
            return Some(i);
        }
        i += 1;
    }
    None
}

/// Gathers the test targets of a package by name.
///
/// Targets that share a name stand for the same compiled code, so one entry is kept
/// for each name: it appears where the name first appeared and holds the last target
/// of that name.
pub fn test_targets_by_name<'a>(package: &'a PackageMetadata) -> (r: Vec<NamedTarget<'a>>)
    ensures
        gathers(r@, package.targets@),
{
    let mut gathered: Vec<NamedTarget<'a>> = Vec::new();
    let mut i: usize = 0;
    while i < package.targets.len()
        invariant
            i <= package.targets.len(),
            gathers(gathered@, package.targets@.take(i as int)),
        decreases package.targets.len() - i,
    {
        let target = &package.targets[i];
        let ghost before = package.targets@.take(i as int);
        let ghost after = package.targets@.take(i + 1);
        proof {
            assert(after.drop_last() =~= before);
            lemma_test_target_names_distinct(before);
        }
        if same_text(target.kind.as_str(), "test") {
            let name = name_of_test_target(target);
            match place_of_name(&gathered, name.as_str()) {
                Some(j) => {
                    proof {
                        assert(test_target_names(before)[j as int] == name@);
                        assert(test_target_names(before).contains(name@));
                    }
                    let kept = gathered[j].name.clone();
                    gathered.set(j, NamedTarget { name: kept, target });
                },
                None => {
                    let ghost names = test_target_names(before);
                    proof {
                        assert(!names.contains(name@)) by {
                            if names.contains(name@) {
                                let k = choose|k: int| 0 <= k < names.len() && names[k] == name@;
                                assert(gathered@[k].name@ == name@);
                            }
                        }
                    }
                    gathered.push(NamedTarget { name, target });
                },
            }
        }
        i += 1;
    }
    assert(package.targets@.take(i as int) =~= package.targets@);
    gathered
}

} // verus!
