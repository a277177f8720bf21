use vstd::prelude::*;

use crate::config::Mapping;
use crate::model::{OwnerReference, OwnerReferenceView, Source, owners_view};
use crate::names::{join, slug, slug_of};
use crate::text_map::{entries_sorted, has_entry, inserted, TextMap};

verus! {

/// A named, owned collection of text documents: what the worker reads its sources
/// and mappings from. `binary_data` is the bundle's binary part, by key, as text.
pub struct ConfigBundle {
    pub name: String,
    pub namespace: String,
    pub owner_references: Option<Vec<OwnerReference>>,
    pub data: TextMap,
    pub binary_data: TextMap,
}

impl ConfigBundle {
    pub open spec fn wf(&self) -> bool {
        self.data.wf() && self.binary_data.wf()
    }
}

/// `data` maps each key to the document of its last occurrence in `keys`, and
/// holds nothing else.
pub open spec fn holds_last_documents(
    data: Seq<(Seq<char>, Seq<char>)>,
    keys: Seq<Seq<char>>,
    docs: Seq<Seq<char>>,
) -> bool {
    &&& entries_sorted(data)
    &&& forall|k: Seq<char>, v: Seq<char>|
        has_entry(data, k, v) <==> exists|i: int| #[trigger] is_last_document(keys, docs, i, k, v)
}

/// Position `i` holds key `k` with document `v`, and no later position holds `k`.
pub open spec fn is_last_document(
    keys: Seq<Seq<char>>,
    docs: Seq<Seq<char>>,
    i: int,
    k: Seq<char>,
    v: Seq<char>,
) -> bool {
    &&& 0 <= i < keys.len()
    &&& keys[i] == k
    &&& docs[i] == v
    &&& forall|j: int| i < j < keys.len() ==> #[trigger] keys[j] != k
}

/// The file name of a mapping's document.
pub open spec fn mapping_keys(ms: Seq<Mapping>) -> Seq<Seq<char>> {
    Seq::new(ms.len(), |i: int| slug_of(ms[i].name@) + ".yaml"@)
}

/// The file name of a source's document.
pub open spec fn source_keys(ss: Seq<Source>) -> Seq<Seq<char>> {
    Seq::new(ss.len(), |i: int| slug_of(ss[i].path@) + ".yaml"@)
}

pub open spec fn docs_view(docs: Seq<String>) -> Seq<Seq<char>> {
    docs.map_values(|d: String| d@)
}

pub open spec fn owner_list_view(owner: Option<OwnerReference>) -> Option<Seq<OwnerReferenceView>> {
    match owner {
        Some(o) => Some(seq![o@]),
        None => None,
    }
}

/// `b` is the bundle `name` in `namespace`, owned by `owner`, whose data holds the
/// last document under each key.
pub open spec fn is_bundle(
    b: ConfigBundle,
    name: Seq<char>,
    namespace: Seq<char>,
    owner: Option<OwnerReference>,
    keys: Seq<Seq<char>>,
    docs: Seq<Seq<char>>,
) -> bool {
    &&& b.wf()
    &&& b.name@ == name
    &&& b.namespace@ == namespace
    &&& owners_view(b.owner_references) == owner_list_view(owner)
    &&& holds_last_documents(b.data@, keys, docs)
    &&& b.binary_data@.len() == 0
}

proof fn lemma_holds_step(
    before: Seq<(Seq<char>, Seq<char>)>,
    after: Seq<(Seq<char>, Seq<char>)>,
    keys: Seq<Seq<char>>,
    docs: Seq<Seq<char>>,
    i: int,
)
    requires
        0 <= i < keys.len(),
        keys.len() == docs.len(),
        holds_last_documents(before, keys.subrange(0, i), docs.subrange(0, i)),
        entries_sorted(after),
        inserted(before, after, keys[i], docs[i]),
    ensures
        holds_last_documents(after, keys.subrange(0, i + 1), docs.subrange(0, i + 1)),
{
    let k1 = keys.subrange(0, i + 1);
    let d1 = docs.subrange(0, i + 1);
    let k0 = keys.subrange(0, i);
    let d0 = docs.subrange(0, i);
    assert forall|k: Seq<char>, v: Seq<char>|
        has_entry(after, k, v) <==> exists|x: int| #[trigger] is_last_document(k1, d1, x, k, v) by {
        if has_entry(after, k, v) {
            if k == keys[i] && v == docs[i] {
                assert(is_last_document(k1, d1, i, k, v));
            } else {
                assert(k != keys[i] && has_entry(before, k, v));
                let x = choose|x: int| #[trigger] is_last_document(k0, d0, x, k, v);
                assert forall|j: int| x < j < k1.len() implies #[trigger] k1[j] != k by {
                    if j < i {
                        assert(k0[j] == k1[j]);
                    }
                }
                assert(is_last_document(k1, d1, x, k, v));
            }
        }
        if exists|x: int| #[trigger] is_last_document(k1, d1, x, k, v) {
            let x = choose|x: int| #[trigger] is_last_document(k1, d1, x, k, v);
            if x == i {
                assert(k == keys[i] && v == docs[i]);
            } else {
                assert(k1[i] != k);
                assert forall|j: int| x < j < k0.len() implies #[trigger] k0[j] != k by {
                    assert(k0[j] == k1[j]);
                }
                assert(is_last_document(k0, d0, x, k, v));
                assert(has_entry(before, k, v));
            }
        }
    }
}

fn build_bundle(
    name: String,
    namespace: &str,
    owner_ref: Option<OwnerReference>,
    keys: Vec<String>,
    docs: &Vec<String>,
) -> (r: ConfigBundle)
    requires
        keys@.len() == docs@.len(),
    ensures
        is_bundle(
            r,
            name@,
            namespace@,
            owner_ref,
            docs_view(keys@),
            docs_view(docs@),
        ),
{
    let ghost kv = docs_view(keys@);
    let ghost dv = docs_view(docs@);
    let mut data = TextMap::new();
    let mut i: usize = 0;
    assert(holds_last_documents(data@, kv.subrange(0, 0), dv.subrange(0, 0)));
    while i < keys.len()
        invariant
            keys@.len() == docs@.len(),
            kv == docs_view(keys@),
            dv == docs_view(docs@),
            i <= keys@.len(),
            data.wf(),
            holds_last_documents(data@, kv.subrange(0, i as int), dv.subrange(0, i as int)),
        decreases keys@.len() - i,
    {
        let ghost before = data@;
        data.insert(keys[i].clone(), docs[i].clone());
        proof {
            lemma_holds_step(before, data@, kv, dv, i as int);
        }
        i = i + 1;
    }
    assert(kv.subrange(0, keys@.len() as int) =~= kv);
    assert(dv.subrange(0, keys@.len() as int) =~= dv);
    let owner_references = match owner_ref {
        Some(o) => {
            let mut v: Vec<OwnerReference> = Vec::new();
            v.push(o);
            assert(v@.map_values(|r: OwnerReference| r@) =~= seq![v@[0]@]);
            Some(v)
        },
        None => None,
    };
    ConfigBundle {
        name,
        namespace: namespace.to_owned(),
        owner_references,
        data,
        binary_data: TextMap::new(),
    }
}

/// The bundle of the mappings of the workload `deployment_name`:
/// `{deployment_name}-nuop-mapping-config`, holding `documents[i]`, the text of
/// `mappings[i]`, under `{slug of its name}.yaml`. No bundle for no mappings.
pub fn generate_mapping_configmap(
    deployment_name: &str,
    namespace: &str,
    owner_ref: Option<OwnerReference>,
    mappings: &Vec<Mapping>,
    documents: &Vec<String>,
) -> (r: Option<ConfigBundle>)
    requires
        documents@.len() == mappings@.len(),
    ensures
        r is None <==> mappings@.len() == 0,
        r is Some ==> is_bundle(
            r->0,
            deployment_name@ + "-nuop-mapping-config"@,
            namespace@,
            owner_ref,
            mapping_keys(mappings@),
            docs_view(documents@),
        ),
{
    if mappings.len() == 0 {
        return None;
    }
    proof {
        reveal_strlit(".yaml");
        reveal_strlit("-nuop-mapping-config");
    }
    let mut keys: Vec<String> = Vec::new();
    let mut i: usize = 0;
    while i < mappings.len()
        invariant
            i <= mappings@.len(),
            keys@.len() == i,
            forall|j: int| 0 <= j < i ==> #[trigger] keys@[j]@ == slug_of(mappings@[j].name@) + ".yaml"@,
        decreases mappings@.len() - i,
    {
        keys.push(join(slug(mappings[i].name.as_str()).as_str(), ".yaml"));
        i = i + 1;
    }
    assert(docs_view(keys@) =~= mapping_keys(mappings@));
    Some(build_bundle(join(deployment_name, "-nuop-mapping-config"), namespace, owner_ref, keys, documents))
}

/// The bundle of the sources of the workload `deployment_name`:
/// `{deployment_name}-nuop-sources-config`, holding `documents[i]`, the text of
/// `sources[i]`, under `{slug of its path}.yaml`. No bundle for no sources.
pub fn generate_source_configmap(
    deployment_name: &str,
    namespace: &str,
    owner_ref: Option<OwnerReference>,
    sources: &Vec<Source>,
    documents: &Vec<String>,
) -> (r: Option<ConfigBundle>)
    requires
        documents@.len() == sources@.len(),
    ensures
        r is None <==> sources@.len() == 0,
        r is Some ==> is_bundle(
            r->0,
            deployment_name@ + "-nuop-sources-config"@,
            namespace@,
            owner_ref,
            source_keys(sources@),
            docs_view(documents@),
        ),
{
    if sources.len() == 0 {
        return None;
    }
    proof {
        reveal_strlit(".yaml");
        reveal_strlit("-nuop-sources-config");
    }
    let mut keys: Vec<String> = Vec::new();
    let mut i: usize = 0;
    while i < sources.len()
        invariant
            i <= sources@.len(),
            keys@.len() == i,
            forall|j: int| 0 <= j < i ==> #[trigger] keys@[j]@ == slug_of(sources@[j].path@) + ".yaml"@,
        decreases sources@.len() - i,
    {
        keys.push(join(slug(sources[i].path.as_str()).as_str(), ".yaml"));
        i = i + 1;
    }
    assert(docs_view(keys@) =~= source_keys(sources@));
    Some(build_bundle(join(deployment_name, "-nuop-sources-config"), namespace, owner_ref, keys, documents))
}

/// What to do with an object that is wanted in the cluster.
#[derive(Debug, PartialEq, Eq, Structural)]
pub enum WriteAction {
    Create,
    Patch,
    Unchanged,
}

pub open spec fn bundle_write_spec(existing: Option<ConfigBundle>, desired: ConfigBundle) -> WriteAction {
    match existing {
        None => WriteAction::Create,
        Some(e) => if e.data@ == desired.data@ && e.binary_data@ == desired.binary_data@ {
            WriteAction::Unchanged
        } else {
            WriteAction::Patch
        },
    }
}

/// Create a bundle that is absent, patch one whose text or binary data differ, and
/// leave one that holds the same data.
pub fn bundle_write(existing: &Option<ConfigBundle>, desired: &ConfigBundle) -> (r: WriteAction)
    requires
        desired.wf(),
        existing is Some ==> existing->0.wf(),
    ensures
        r == bundle_write_spec(*existing, *desired),
{
    match existing {
        None => WriteAction::Create,
        Some(e) => if e.data.same_entries(&desired.data) && e.binary_data.same_entries(
            &desired.binary_data,
        ) {
            WriteAction::Unchanged
        } else {
            WriteAction::Patch
        },
    }
}

/// The field manager under which the manager applies its objects: `{kind}.{apiVersion}`.
pub fn field_manager(kind: &str, api_version: &str) -> (r: String)
    ensures
        r@ == kind@ + "."@ + api_version@,
{
    proof {
        reveal_strlit(".");
    }
    let k = join(kind, ".");
    join(k.as_str(), api_version)
}

} // verus!
