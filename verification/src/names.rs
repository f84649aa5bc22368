//! Profile names for the instances: the chosen profile's name, or for a
//! guest a name drawn at random from a pool.

use vstd::prelude::*;
use vstd::multiset::Multiset;
use crate::instance::Instance;
use crate::text::texts;

verus! {

/// Why the instances could not be named.
#[derive(Clone, Copy, Debug, PartialEq, Eq, Structural)]
pub enum NameError {
    /// An instance selects a profile that is not in the list.
    UnknownProfile,
    /// There are more guests than names in the pool.
    NoGuestNameLeft,
}

/// The instance plays as a guest.
pub open spec fn is_guest(instance: Instance) -> bool {
    instance.profselection == 0
}

/// The number of guests among the first `upto` instances.
pub open spec fn guest_count(instances: Seq<Instance>, upto: int) -> nat
    decreases upto,
{
    if upto <= 0 {
        0
    } else if is_guest(instances[upto - 1]) {
        guest_count(instances, upto - 1) + 1
    } else {
        guest_count(instances, upto - 1)
    }
}

/// Every instance that is no guest selects one of `profiles` profiles.
pub open spec fn selections_known(instances: Seq<Instance>, profiles: nat) -> bool {
    forall|i: int|
        0 <= i < instances.len() ==> is_guest(#[trigger] instances[i]) || instances[i].profselection
            < profiles
}

/// The pool after the name at `pick` was taken: the last name moves into its
/// place.
pub open spec fn pool_without<A>(pool: Seq<A>, pick: int) -> Seq<A> {
    pool.update(pick, pool.last()).drop_last()
}

/// The name of a guest is a dot followed by the name drawn for it.
pub open spec fn guest_name(drawn: Seq<char>) -> Seq<char> {
    "."@ + drawn
}

/// The names that the guests among the first `upto` instances carry, without
/// their dots.
pub open spec fn drawn_names(instances: Seq<Instance>, upto: int) -> Multiset<Seq<char>>
    decreases upto,
{
    if upto <= 0 {
        Multiset::empty()
    } else if is_guest(instances[upto - 1]) {
        drawn_names(instances, upto - 1).insert(instances[upto - 1].profname@.skip(1))
    } else {
        drawn_names(instances, upto - 1)
    }
}

/// What stands in the way of naming the instances, if anything.
pub open spec fn naming_obstacle(instances: Seq<Instance>, profiles: nat, pool: nat) -> Option<
    NameError,
> {
    if !selections_known(instances, profiles) {
        Some(NameError::UnknownProfile)
    } else if guest_count(instances, instances.len() as int) > pool {
        Some(NameError::NoGuestNameLeft)
    } else {
        None
    }
}

/// `after` is `before` with every instance named: one that selects a
/// profile carries that profile's name, a guest carries a dot and a name;
/// nothing else about an instance has changed.
pub open spec fn is_named(before: Seq<Instance>, after: Seq<Instance>, profiles: Seq<String>) -> bool {
    &&& after.len() == before.len()
    &&& forall|i: int|
        0 <= i < after.len() ==> {
            &&& (#[trigger] after[i]) == (Instance { profname: after[i].profname, ..before[i] })
            &&& is_guest(before[i]) ==> after[i].profname@ == guest_name(
                after[i].profname@.skip(1),
            )
            &&& !is_guest(before[i]) ==> after[i].profname@ == profiles[before[i].profselection as int]@
        }
}

/// A number below `bound`, drawn at random by `fastrand::usize`. The range
/// `..bound` has the numbers from zero up to but without `bound`; the
/// generator panics on an empty range, so `bound` must be positive. Which
/// number comes back is not known and differs from call to call.
#[verifier::external_body]
fn random_below(bound: usize) -> (index: usize)
    requires
        bound > 0,
    ensures
        index < bound,
{
    fastrand::usize(..bound)
}

/// Taking a name out of a pool leaves the other names, each as often as
/// before.
pub proof fn lemma_pool_without(pool: Seq<String>, pick: int)
    requires
        0 <= pick < pool.len(),
    ensures
        texts(pool).to_multiset() == texts(pool_without(pool, pick)).to_multiset().insert(
            pool[pick]@,
        ),
        pool_without(pool, pick).len() == pool.len() - 1,
{
    broadcast use vstd::seq_lib::group_to_multiset_ensures;
    broadcast use vstd::multiset::group_multiset_axioms;

    let names = texts(pool);
    let last = names.last();
    let taken = names[pick];
    let moved = names.update(pick, last);
    let rest = moved.drop_last();
    assert(texts(pool_without(pool, pick)) =~= rest);
    // Writing the last name over the taken one exchanges one for the other.
    vstd::seq_lib::to_multiset_update(names, pick, last);
    // The last name then stands at the end as well, where it is dropped.
    assert(moved =~= rest.push(last));
    vstd::seq_lib::to_multiset_build(rest, last);
    assert(names.contains(taken));
    assert forall|x: Seq<char>|
        names.to_multiset().count(x) == rest.to_multiset().insert(taken).count(x) by {
        let with_last = names.to_multiset().insert(last);
        assert(with_last.remove(taken).count(x) == rest.to_multiset().insert(last).count(x));
        assert(with_last.count(taken) >= 1);
        assert(Multiset::singleton(taken).count(x) == if x == taken {
            1nat
        } else {
            0nat
        });
    }
    assert(names.to_multiset() =~= rest.to_multiset().insert(taken));
}

/// The guests among the first instances are counted among all of them.
proof fn lemma_guest_count_grows(instances: Seq<Instance>, low: int, high: int)
    requires
        low <= high,
    ensures
        guest_count(instances, low) <= guest_count(instances, high),
    decreases high - low,
{
    if low < high {
        lemma_guest_count_grows(instances, low, high - 1);
    }
}

/// The drawn names of the first instances do not depend on the later ones.
proof fn lemma_drawn_names_frame(a: Seq<Instance>, b: Seq<Instance>, upto: int)
    requires
        upto <= a.len(),
        upto <= b.len(),
        forall|k: int| 0 <= k < upto ==> #[trigger] a[k] == b[k],
    ensures
        drawn_names(a, upto) == drawn_names(b, upto),
    decreases upto,
{
    if upto > 0 {
        lemma_drawn_names_frame(a, b, upto - 1);
    }
}

/// Names a guest after the pool's entry at `pick` and takes that entry out
/// of the pool.
pub fn assign_guest_name(instance: &mut Instance, guests: &mut Vec<String>, pick: usize)
    requires
        pick < old(guests)@.len(),
    ensures
        *final(instance) == (Instance { profname: final(instance).profname, ..*old(instance) }),
        final(instance).profname@ == guest_name(old(guests)@[pick as int]@),
        final(guests)@ == pool_without(old(guests)@, pick as int),
{
    let drawn = guests.swap_remove(pick);
    let mut name = ".".to_owned();
    name.append(drawn.as_str());
    instance.profname = name;
}

/// Counts the guests and checks the selections of the others.
fn survey(instances: &Vec<Instance>, profiles: usize) -> (found: (bool, usize))
    ensures
        found.0 == selections_known(instances@, profiles as nat),
        found.0 ==> found.1 == guest_count(instances@, instances@.len() as int),
{
    let mut guests: usize = 0;
    let mut i: usize = 0;
    while i < instances.len()
        invariant
            i <= instances@.len(),
            guests == guest_count(instances@, i as int),
            guests <= i,
            forall|k: int|
                0 <= k < i ==> is_guest(#[trigger] instances@[k]) || instances@[k].profselection
                    < profiles,
        decreases instances@.len() - i,
    {
        if instances[i].profselection == 0 {
            guests = guests + 1;
        } else if instances[i].profselection >= profiles {
            return (false, 0);
        }
        i = i + 1;
    }
    (true, guests)
}

/// Names every instance: one that selects a profile after that profile, a
/// guest after a name drawn at random from `guests`, with a dot before it.
/// A name that was drawn leaves the pool, so no two guests get the same
/// entry: the names drawn and the names left are together the names that
/// were in the pool. Where [`naming_obstacle`] names an error, that error is
/// returned and nothing is changed.
///
/// A selection of zero marks a guest, so the first of `profiles` is never
/// selected.
pub fn set_instance_names(
    instances: &mut Vec<Instance>,
    profiles: &[String],
    guests: &mut Vec<String>,
) -> (result: Result<(), NameError>)
    ensures
        match naming_obstacle(old(instances)@, profiles@.len(), old(guests)@.len()) {
            Some(error) => {
                &&& result == Err::<(), NameError>(error)
                &&& final(instances)@ == old(instances)@
                &&& final(guests)@ == old(guests)@
            },
            None => {
                &&& result is Ok
                &&& is_named(old(instances)@, final(instances)@, profiles@)
                &&& final(guests)@.len() == old(guests)@.len() - guest_count(
                    old(instances)@,
                    old(instances)@.len() as int,
                )
                &&& texts(old(guests)@).to_multiset() == texts(
                    final(guests)@,
                ).to_multiset().add(drawn_names(final(instances)@, final(instances)@.len() as int))
            },
        },
{
    let (known, needed) = survey(instances, profiles.len());
    if !known {
        return Err(NameError::UnknownProfile);
    }
    if needed > guests.len() {
        return Err(NameError::NoGuestNameLeft);
    }
    let ghost before = instances@;
    let ghost pool = guests@;
    let count: usize = instances.len();
    let mut i: usize = 0;
    assert(texts(pool).to_multiset() =~= texts(guests@).to_multiset().add(
        drawn_names(instances@, 0),
    ));
    while i < count
        invariant
            i <= count,
            count == before.len(),
            instances@.len() == count,
            selections_known(before, profiles@.len()),
            guest_count(before, count as int) <= pool.len(),
            guests@.len() == pool.len() - guest_count(before, i as int),
            forall|k: int| i <= k < count ==> #[trigger] instances@[k] == before[k],
            forall|k: int|
                0 <= k < i ==> {
                    &&& (#[trigger] instances@[k]) == (Instance {
                        profname: instances@[k].profname,
                        ..before[k]
                    })
                    &&& is_guest(before[k]) ==> instances@[k].profname@ == guest_name(
                        instances@[k].profname@.skip(1),
                    )
                    &&& !is_guest(before[k]) ==> instances@[k].profname@
                        == profiles@[before[k].profselection as int]@
                },
            texts(pool).to_multiset() == texts(guests@).to_multiset().add(
                drawn_names(instances@, i as int),
            ),
        decreases count - i,
    {
        let ghost entered = instances@;
        let ghost left = guests@;
        if instances[i].profselection == 0 {
            proof {
                lemma_guest_count_grows(before, i + 1, count as int);
            }
            let pick = random_below(guests.len());
            assign_guest_name(&mut instances[i], guests, pick);
            proof {
                let drawn = left[pick as int]@;
                reveal_strlit(".");
                assert(guest_name(drawn).skip(1) =~= drawn);
                lemma_pool_without(left, pick as int);
                lemma_drawn_names_frame(entered, instances@, i as int);
                assert(drawn_names(instances@, i + 1) == drawn_names(entered, i as int).insert(
                    drawn,
                ));
                assert(texts(pool).to_multiset() =~= texts(guests@).to_multiset().add(
                    drawn_names(instances@, i + 1),
                ));
            }
        } else {
            instances[i].profname = profiles[instances[i].profselection].clone();
            proof {
                lemma_drawn_names_frame(entered, instances@, i as int);
            }
        }
        i = i + 1;
    }
    Ok(())
}

} // verus!
