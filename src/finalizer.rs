use vstd::prelude::*;

verus! {

/// What the reconciler reads of a watched object: its identity, its finalizers and
/// whether its deletion has begun.
pub struct ManagedObject {
    pub name: String,
    pub namespace: Option<String>,
    pub finalizers: Option<Vec<String>>,
    pub deletion_timestamp: Option<String>,
}

/// Where an object stands in its lifecycle, for a controller with or without a
/// finalizer.
#[derive(Debug, PartialEq, Eq)]
pub enum ReconcilePhase<'a> {
    NeedsFinalizer,
    Active,
    Finalizing,
    Noop(&'a str),
}

/// The object's finalizers; an absent list is an empty one.
pub open spec fn finalizers_of(obj: ManagedObject) -> Seq<Seq<char>> {
    match obj.finalizers {
        Some(v) => v.deep_view(),
        None => Seq::empty(),
    }
}

pub open spec fn is_deleting(obj: ManagedObject) -> bool {
    obj.deletion_timestamp is Some
}

/// The phase as a function of whether a finalizer is configured, whether the object
/// carries it, and whether the object is being deleted.
pub open spec fn phase_matches(
    r: ReconcilePhase,
    configured: bool,
    present: bool,
    deleting: bool,
) -> bool {
    if !configured {
        r is Noop && r->Noop_0@ == "reconcile"@
    } else if !present {
        r is NeedsFinalizer
    } else if deleting {
        r is Finalizing
    } else {
        r is Active
    }
}

/// The finalizer list after adding `f`: unchanged when `f` is there already,
/// else `f` appended.
pub open spec fn with_finalizer(fs: Seq<Seq<char>>, f: Seq<char>) -> Seq<Seq<char>> {
    if fs.contains(f) {
        fs
    } else {
        fs.push(f)
    }
}

/// The finalizer list after removing every occurrence of `f`.
pub open spec fn without_finalizer(fs: Seq<Seq<char>>, f: Seq<char>) -> Seq<Seq<char>> {
    fs.filter(|x: Seq<char>| x != f)
}

/// How often `f` occurs in `fs`.
pub open spec fn occurrences(fs: Seq<Seq<char>>, f: Seq<char>) -> nat
    decreases fs.len(),
{
    if fs.len() == 0 {
        0
    } else {
        occurrences(fs.drop_last(), f) + if fs.last() == f {
            1nat
        } else {
            0nat
        }
    }
}

/// Whether `v` holds the text `s`.
pub fn contains_text(v: &Vec<String>, s: &str) -> (r: bool)
    ensures
        r == v.deep_view().contains(s@),
{
    let target = s.to_owned();
    let mut i: usize = 0;
    while i < v.len()
        invariant
            target@ == s@,
            i <= v.len(),
            forall|j: int| 0 <= j < i ==> v[j]@ != s@,
        decreases v.len() - i,
    {
        if v[i] == target {
            assert(v.deep_view()[i as int] == s@);
            return true;
        }
        i = i + 1;
    }
    assert forall|j: int| 0 <= j < v.deep_view().len() implies v.deep_view()[j] != s@ by {
        assert(v.deep_view()[j] == v[j]@);
    }
    false
}

/// The object carries the finalizer `f`.
pub fn has_finalizer(obj: &ManagedObject, f: &str) -> (r: bool)
    ensures
        r == finalizers_of(*obj).contains(f@),
{
    match &obj.finalizers {
        Some(v) => contains_text(v, f),
        None => false,
    }
}

/// The phase of `obj` for a controller whose finalizer is `finalizer`. A pure
/// function of whether a finalizer is configured, whether the object carries it,
/// and whether its deletion has begun.
pub fn detect_phase<'a>(obj: &ManagedObject, finalizer: Option<&'a str>) -> (r: ReconcilePhase<'a>)
    ensures
        phase_matches(
            r,
            finalizer is Some,
            finalizer is Some && finalizers_of(*obj).contains(finalizer->0@),
            is_deleting(*obj),
        ),
{
    match finalizer {
        None => {
            proof {
                reveal_strlit("reconcile");
            }
            ReconcilePhase::Noop("reconcile")
        },
        Some(f) => {
            let present = has_finalizer(obj, f);
            let deleting = obj.deletion_timestamp.is_some();
            if !present {
                ReconcilePhase::NeedsFinalizer
            } else if deleting {
                ReconcilePhase::Finalizing
            } else {
                ReconcilePhase::Active
            }
        },
    }
}

/// Adds the finalizer `f` to `obj` unless it is there already. Returns whether the
/// object changed, and so must be written back.
pub fn add_finalizer(obj: &mut ManagedObject, f: &str) -> (added: bool)
    ensures
        added == !finalizers_of(*old(obj)).contains(f@),
        finalizers_of(*final(obj)) == with_finalizer(finalizers_of(*old(obj)), f@),
        added ==> final(obj).finalizers is Some,
        !added ==> final(obj).finalizers == old(obj).finalizers,
        final(obj).name == old(obj).name,
        final(obj).namespace == old(obj).namespace,
        final(obj).deletion_timestamp == old(obj).deletion_timestamp,
{
    if has_finalizer(obj, f) {
        return false;
    }
    let mut fs = match obj.finalizers.take() {
        Some(v) => v,
        None => Vec::new(),
    };
    let ghost before = fs.deep_view();
    fs.push(f.to_owned());
    assert(fs.deep_view() =~= before.push(f@));
    obj.finalizers = Some(fs);
    true
}

/// Removes every occurrence of the finalizer `f` from `obj`; the object keeps a
/// (possibly empty) list.
pub fn remove_finalizer(obj: &mut ManagedObject, f: &str)
    ensures
        final(obj).finalizers is Some,
        finalizers_of(*final(obj)) == without_finalizer(finalizers_of(*old(obj)), f@),
        final(obj).name == old(obj).name,
        final(obj).namespace == old(obj).namespace,
        final(obj).deletion_timestamp == old(obj).deletion_timestamp,
{
    let ghost all = finalizers_of(*obj);
    let fs = match obj.finalizers.take() {
        Some(v) => v,
        None => Vec::new(),
    };
    assert(fs.deep_view() == all);
    let target = f.to_owned();
    let mut kept: Vec<String> = Vec::new();
    let mut i: usize = 0;
    while i < fs.len()
        invariant
            target@ == f@,
            i <= fs.len(),
            fs.deep_view() == all,
            kept.deep_view() == without_finalizer(all.subrange(0, i as int), f@),
        decreases fs.len() - i,
    {
        let ghost prefix = all.subrange(0, i as int);
        assert(all.subrange(0, i + 1) =~= prefix.push(all[i as int]));
        proof {
            prefix.lemma_filter_push(all[i as int], |x: Seq<char>| x != f@);
        }
        if fs[i] != target {
            let ghost k0 = kept.deep_view();
            kept.push(fs[i].clone());
            assert(kept.deep_view() =~= k0.push(all[i as int]));
        }
        i = i + 1;
    }
    assert(all.subrange(0, fs.len() as int) =~= all);
    obj.finalizers = Some(kept);
}

/// Adding a finalizer twice appends it at most once: the second addition changes
/// nothing, the list grows by at most one, and a list that held `f` at most once
/// holds it exactly once afterwards.
pub proof fn lemma_add_finalizer_idempotent(fs: Seq<Seq<char>>, f: Seq<char>)
    ensures
        with_finalizer(with_finalizer(fs, f), f) == with_finalizer(fs, f),
        with_finalizer(fs, f).len() <= fs.len() + 1,
        occurrences(fs, f) <= 1 ==> occurrences(with_finalizer(fs, f), f) == 1,
{
    if fs.contains(f) {
        lemma_occurrences_contains(fs, f);
    } else {
        assert(fs.push(f).contains(f)) by {
            assert(fs.push(f)[fs.len() as int] == f);
        }
        assert(fs.push(f).drop_last() =~= fs);
        lemma_occurrences_contains(fs, f);
    }
}

proof fn lemma_occurrences_contains(fs: Seq<Seq<char>>, f: Seq<char>)
    ensures
        fs.contains(f) <==> occurrences(fs, f) > 0,
    decreases fs.len(),
{
    if fs.len() > 0 {
        lemma_occurrences_contains(fs.drop_last(), f);
        if fs.contains(f) {
            let i = choose|i: int| 0 <= i < fs.len() && fs[i] == f;
            if i < fs.len() - 1 {
                assert(fs.drop_last()[i] == f);
            }
        }
        if fs.drop_last().contains(f) {
            let i = choose|i: int| 0 <= i < fs.drop_last().len() && fs.drop_last()[i] == f;
            assert(fs[i] == f);
        }
        if fs.last() == f {
            assert(fs[fs.len() - 1] == f);
        }
    }
}

/// The phase depends on nothing but whether a finalizer is configured, whether the
/// object carries it and whether it is being deleted: two objects that agree on
/// those get the same phase.
pub proof fn lemma_phase_is_pure(
    o1: ManagedObject,
    o2: ManagedObject,
    finalizer: Option<&str>,
    a: ReconcilePhase,
    b: ReconcilePhase,
)
    requires
        finalizer is Some ==> (finalizers_of(o1).contains(finalizer->0@) <==> finalizers_of(
            o2,
        ).contains(finalizer->0@)),
        is_deleting(o1) == is_deleting(o2),
        phase_matches(
            a,
            finalizer is Some,
            finalizer is Some && finalizers_of(o1).contains(finalizer->0@),
            is_deleting(o1),
        ),
        phase_matches(
            b,
            finalizer is Some,
            finalizer is Some && finalizers_of(o2).contains(finalizer->0@),
            is_deleting(o2),
        ),
    ensures
        a is NeedsFinalizer <==> b is NeedsFinalizer,
        a is Active <==> b is Active,
        a is Finalizing <==> b is Finalizing,
        a is Noop <==> b is Noop,
        a is Noop ==> a->Noop_0@ == b->Noop_0@,
{
}

} // verus!
