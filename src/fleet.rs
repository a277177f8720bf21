use vstd::prelude::*;

use crate::config::{mapping_matches, mapping_matches_spec, overlaid, overlay, Config, Mapping};

verus! {

/// In standard mode the script at `i` gets a controller when its config loaded and
/// no earlier script that loaded declared the same kind.
pub open spec fn standard_accepted(cs: Seq<Option<Config>>, i: int) -> bool {
    &&& 0 <= i < cs.len()
    &&& cs[i] is Some
    &&& forall|j: int|
        0 <= j < i ==> !(#[trigger] cs[j] is Some && cs[j]->0.kind@ == cs[i]->0.kind@)
}

/// Some mapping is the one for the script that declared `c`.
pub open spec fn has_mapping(ms: Seq<Mapping>, c: Config) -> bool {
    exists|k: int| 0 <= k < ms.len() && mapping_matches_spec(#[trigger] ms[k], c)
}

/// `k` is the first mapping for the script that declared `c`.
pub open spec fn is_first_mapping(ms: Seq<Mapping>, c: Config, k: int) -> bool {
    &&& 0 <= k < ms.len()
    &&& mapping_matches_spec(ms[k], c)
    &&& forall|l: int| 0 <= l < k ==> !mapping_matches_spec(#[trigger] ms[l], c)
}

pub open spec fn same_coordinates(a: Config, b: Config) -> bool {
    a.group@ == b.group@ && a.kind@ == b.kind@ && a.version@ == b.version@
}

/// The script at `i` loaded and has a mapping: a candidate in managed mode.
pub open spec fn managed_candidate(cs: Seq<Option<Config>>, ms: Seq<Mapping>, i: int) -> bool {
    0 <= i < cs.len() && cs[i] is Some && has_mapping(ms, cs[i]->0)
}

/// In managed mode the script at `i` gets a controller when it is a candidate and no
/// earlier candidate declared the same group, version and kind.
pub open spec fn managed_accepted(cs: Seq<Option<Config>>, ms: Seq<Mapping>, i: int) -> bool {
    &&& managed_candidate(cs, ms, i)
    &&& forall|j: int|
        0 <= j < i ==> !(#[trigger] managed_candidate(cs, ms, j) && same_coordinates(
            cs[j]->0,
            cs[i]->0,
        ))
}

pub open spec fn strictly_increasing(s: Seq<usize>) -> bool {
    forall|a: int, b: int| 0 <= a < b < s.len() ==> s[a] < s[b]
}

pub open spec fn all_wf(cs: Seq<Option<Config>>) -> bool {
    forall|i: int| 0 <= i < cs.len() && #[trigger] cs[i] is Some ==> cs[i]->0.wf()
}

pub open spec fn all_mappings_wf(ms: Seq<Mapping>) -> bool {
    forall|i: int| 0 <= i < ms.len() ==> (#[trigger] ms[i]).wf()
}

/// The scripts that get a controller in standard mode, by position, in input order.
/// `configs[i]` is what the script at `i` declared, or nothing where its config
/// could not be had. Among scripts of one kind the first one wins.
pub fn select_standard_controllers(configs: &Vec<Option<Config>>) -> (r: Vec<usize>)
    ensures
        strictly_increasing(r@),
        forall|k: int| 0 <= k < r@.len() ==> standard_accepted(configs@, #[trigger] r@[k] as int),
        forall|i: int| standard_accepted(configs@, i) ==> r@.contains(i as usize),
{
    let n = configs.len();
    let mut r: Vec<usize> = Vec::new();
    let mut i: usize = 0;
    while i < n
        invariant
            n == configs@.len(),
            i <= n,
            strictly_increasing(r@),
            forall|k: int| 0 <= k < r@.len() ==> #[trigger] r@[k] < i,
            forall|k: int|
                0 <= k < r@.len() ==> standard_accepted(configs@, #[trigger] r@[k] as int),
            forall|x: int| 0 <= x < i && standard_accepted(configs@, x) ==> r@.contains(x as usize),
        decreases n - i,
    {
        if let Some(c) = &configs[i] {
            let mut j: usize = 0;
            let mut duplicate = false;
            while j < i
                invariant
                    n == configs@.len(),
                    i < n,
                    j <= i,
                    configs@[i as int] is Some,
                    c == configs@[i as int]->0,
                    !duplicate ==> forall|l: int|
                        0 <= l < j ==> !(#[trigger] configs@[l] is Some && configs@[l]->0.kind@
                            == c.kind@),
                    duplicate ==> !standard_accepted(configs@, i as int),
                decreases i - j,
            {
                if let Some(d) = &configs[j] {
                    if d.kind == c.kind {
                        duplicate = true;
                    }
                }
                j = j + 1;
            }
            if !duplicate {
                let ghost r0 = r@;
                r.push(i);
                assert forall|x: int|
                    0 <= x < i + 1 && standard_accepted(configs@, x) implies r@.contains(
                    x as usize,
                ) by {
                    if x < i {
                        let k = choose|k: int| 0 <= k < r0.len() && r0[k] == x as usize;
                        assert(r@[k] == x as usize);
                    } else {
                        assert(r@[r0.len() as int] == x as usize);
                    }
                }
            }
        }
        i = i + 1;
    }
    r
}

/// The first mapping for the script that declared `config`, if any.
pub fn find_mapping(mappings: &Vec<Mapping>, config: &Config) -> (r: Option<usize>)
    ensures
        r is None <==> !has_mapping(mappings@, *config),
        r is Some ==> is_first_mapping(mappings@, *config, r->0 as int),
{
    let mut k: usize = 0;
    while k < mappings.len()
        invariant
            k <= mappings@.len(),
            forall|l: int| 0 <= l < k ==> !mapping_matches_spec(#[trigger] mappings@[l], *config),
        decreases mappings@.len() - k,
    {
        if mapping_matches(&mappings[k], config) {
            return Some(k);
        }
        k = k + 1;
    }
    None
}

/// The controllers of managed mode, in input order: the position of each script
/// that gets one and its config after the overlay of its first mapping. Scripts
/// without a mapping get none; among candidates with the same group, version and
/// kind the first one wins.
pub fn select_managed_controllers(configs: &Vec<Option<Config>>, mappings: &Vec<Mapping>) -> (r:
    Vec<(usize, Config)>)
    requires
        all_wf(configs@),
        all_mappings_wf(mappings@),
    ensures
        forall|a: int, b: int| 0 <= a < b < r@.len() ==> r@[a].0 < r@[b].0,
        forall|k: int|
            0 <= k < r@.len() ==> managed_accepted(configs@, mappings@, #[trigger] r@[k].0 as int),
        forall|i: int|
            managed_accepted(configs@, mappings@, i) ==> exists|k: int|
                0 <= k < r@.len() && #[trigger] r@[k].0 == i as usize,
        forall|k: int|
            #![trigger r@[k]]
            0 <= k < r@.len() ==> r@[k].1.wf() && exists|m: int|
                is_first_mapping(mappings@, configs@[r@[k].0 as int]->0, m) && overlaid(
                    r@[k].1,
                    configs@[r@[k].0 as int]->0,
                    mappings@[m],
                ),
{
    let n = configs.len();
    let mut r: Vec<(usize, Config)> = Vec::new();
    let mut i: usize = 0;
    while i < n
        invariant
            n == configs@.len(),
            all_wf(configs@),
            all_mappings_wf(mappings@),
            i <= n,
            forall|a: int, b: int| 0 <= a < b < r@.len() ==> r@[a].0 < r@[b].0,
            forall|k: int| 0 <= k < r@.len() ==> #[trigger] r@[k].0 < i,
            forall|k: int|
                0 <= k < r@.len() ==> managed_accepted(configs@, mappings@, #[trigger] r@[k].0 as int),
            forall|x: int|
                0 <= x < i && managed_accepted(configs@, mappings@, x) ==> exists|k: int|
                    0 <= k < r@.len() && #[trigger] r@[k].0 == x as usize,
            forall|k: int|
                #![trigger r@[k]]
                0 <= k < r@.len() ==> r@[k].1.wf() && exists|m: int|
                    is_first_mapping(mappings@, configs@[r@[k].0 as int]->0, m) && overlaid(
                        r@[k].1,
                        configs@[r@[k].0 as int]->0,
                        mappings@[m],
                    ),
        decreases n - i,
    {
        if let Some(c) = &configs[i] {
            if let Some(m) = find_mapping(mappings, c) {
                let mut j: usize = 0;
                let mut duplicate = false;
                while j < i
                    invariant
                        n == configs@.len(),
                        i < n,
                        j <= i,
                        configs@[i as int] is Some,
                        c == configs@[i as int]->0,
                        has_mapping(mappings@, *c),
                        !duplicate ==> forall|l: int|
                            0 <= l < j ==> !(#[trigger] managed_candidate(configs@, mappings@, l)
                                && same_coordinates(configs@[l]->0, *c)),
                        duplicate ==> !managed_accepted(configs@, mappings@, i as int),
                    decreases i - j,
                {
                    if let Some(d) = &configs[j] {
                        if d.group == c.group && d.kind == c.kind && d.version == c.version {
                            if find_mapping(mappings, d).is_some() {
                                assert(managed_candidate(configs@, mappings@, j as int));
                                duplicate = true;
                            }
                        }
                    }
                    j = j + 1;
                }
                if !duplicate {
                    let ghost r0 = r@;
                    let overlaid_config = overlay(c, &mappings[m]);
                    r.push((i, overlaid_config));
                    assert(r@[r0.len() as int].0 == i);
                    assert forall|k: int|
                        #![trigger r@[k]]
                        0 <= k < r@.len() implies r@[k].1.wf() && exists|mm: int|
                            is_first_mapping(mappings@, configs@[r@[k].0 as int]->0, mm)
                                && overlaid(r@[k].1, configs@[r@[k].0 as int]->0, mappings@[mm]) by {
                        if k < r0.len() {
                            assert(r@[k] == r0[k]);
                        } else {
                            assert(is_first_mapping(mappings@, configs@[r@[k].0 as int]->0, m as int));
                        }
                    }
                    assert forall|x: int|
                        0 <= x < i + 1 && managed_accepted(configs@, mappings@, x) implies exists|
                        k: int,
                    | 0 <= k < r@.len() && #[trigger] r@[k].0 == x as usize by {
                        if x < i {
                            let k = choose|k: int| 0 <= k < r0.len() && #[trigger] r0[k].0 == x as usize;
                            assert(r@[k] == r0[k]);
                        } else {
                            assert(r@[r0.len() as int].0 == x as usize);
                        }
                    }
                    assert forall|k: int|
                        0 <= k < r@.len() implies managed_accepted(
                        configs@,
                        mappings@,
                        #[trigger] r@[k].0 as int,
                    ) by {
                        if k < r0.len() {
                            assert(r@[k] == r0[k]);
                        }
                    }
                }
            }
        }
        i = i + 1;
    }
    r
}

/// Among scripts that declare the same kind, the earliest that loaded is the one
/// accepted in standard mode; every later one is refused.
pub proof fn lemma_standard_first_wins(cs: Seq<Option<Config>>, i: int, j: int)
    requires
        0 <= i < j < cs.len(),
        cs[i] is Some,
        cs[j] is Some,
        cs[i]->0.kind@ == cs[j]->0.kind@,
    ensures
        !standard_accepted(cs, j),
{
    assert(cs[i] is Some && cs[i]->0.kind@ == cs[j]->0.kind@);
}

/// Among candidates of managed mode with the same group, version and kind, every
/// one but the earliest is refused.
pub proof fn lemma_managed_first_wins(cs: Seq<Option<Config>>, ms: Seq<Mapping>, i: int, j: int)
    requires
        0 <= i < j < cs.len(),
        managed_candidate(cs, ms, i),
        managed_candidate(cs, ms, j),
        same_coordinates(cs[i]->0, cs[j]->0),
    ensures
        !managed_accepted(cs, ms, j),
{
    assert(managed_candidate(cs, ms, i) && same_coordinates(cs[i]->0, cs[j]->0));
}

} // verus!
