use vstd::prelude::*;
use sha2::Digest;

use crate::bundle::{
    generate_mapping_configmap, generate_source_configmap, is_bundle, mapping_keys, source_keys,
    docs_view, ConfigBundle, WriteAction,
};
use crate::drift::{drifted, has_drifted};
use crate::model::{owners_view, NuOperatorSpec, OwnerReference};
use crate::names::join;
use crate::reconcile::{Action, ApiError};
use crate::text_map::{TextMap, text_map_opt_view};
use crate::workload::{generate_deployment, is_generated_workload, DeploymentMeta, Workload};

verus! {

/// The worker image used where the `NuOperator` names none.
pub open spec fn default_image() -> Seq<char> {
    "ghcr.io/ck3mp3r/nuop:latest"@
}

/// Seconds between reconciles of a `NuOperator`.
pub const MANAGER_REQUEUE_SECS: u64 = 300;

/// Seconds before a failed reconcile of a `NuOperator` is retried.
pub const MANAGER_ERROR_REQUEUE_SECS: u64 = 60;

/// The lowercase hexadecimal SHA-256 digest of the UTF-8 encoding of a text.
pub uninterp spec fn sha256_hex(text: Seq<char>) -> Seq<char>;

/// Relies on `sha2::Sha256::digest` for the digest of the text's UTF-8 bytes, and on
/// the lowercase hexadecimal formatting of the digest array.
#[verifier::external_body]
fn content_hash(text: &str) -> (r: String)
    ensures
        r@ == sha256_hex(text@),
{
    format!("{:x}", sha2::Sha256::digest(text.as_bytes()))
}

/// The keys and values of the entries, in order, one after another.
pub open spec fn entries_text(s: Seq<(Seq<char>, Seq<char>)>) -> Seq<char>
    decreases s.len(),
{
    if s.len() == 0 {
        Seq::empty()
    } else {
        entries_text(s.drop_last()) + s.last().0 + s.last().1
    }
}

pub open spec fn bundle_text(b: Option<ConfigBundle>) -> Seq<char> {
    match b {
        Some(x) => entries_text(x.data@),
        None => Seq::empty(),
    }
}

/// What is hashed: the mappings bundle's entries, then the sources bundle's, each
/// in key order, key before value.
pub open spec fn hash_input(mapping: Option<ConfigBundle>, sources: Option<ConfigBundle>) -> Seq<
    char,
> {
    bundle_text(mapping) + bundle_text(sources)
}

fn append_entries(out: &mut String, b: &Option<ConfigBundle>)
    requires
        b is Some ==> b->0.wf(),
    ensures
        final(out)@ == old(out)@ + bundle_text(*b),
{
    if let Some(bundle) = b {
        let n = bundle.data.len();
        let ghost start = out@;
        let mut i: usize = 0;
        while i < n
            invariant
                bundle.wf(),
                n == bundle.data@.len(),
                i <= n,
                out@ == start + entries_text(bundle.data@.subrange(0, i as int)),
            decreases n - i,
        {
            let ghost prev = bundle.data@.subrange(0, i as int);
            out.append(bundle.data.key_at(i).as_str());
            out.append(bundle.data.value_at(i).as_str());
            proof {
                let next = bundle.data@.subrange(0, i + 1);
                assert(next.drop_last() =~= prev);
                assert(next.last() == bundle.data@[i as int]);
                assert(out@ =~= start + entries_text(next));
            }
            i = i + 1;
        }
        assert(bundle.data@.subrange(0, n as int) =~= bundle.data@);
    } else {
        assert(out@ =~= old(out)@ + bundle_text(*b));
    }
}

/// The hash of the bundles' contents, which the workload carries so that a change
/// in them restarts the worker.
pub fn bundles_hash(mapping: &Option<ConfigBundle>, sources: &Option<ConfigBundle>) -> (r: String)
    requires
        mapping is Some ==> mapping->0.wf(),
        sources is Some ==> sources->0.wf(),
    ensures
        r@ == sha256_hex(hash_input(*mapping, *sources)),
{
    let mut text = String::new();
    append_entries(&mut text, mapping);
    append_entries(&mut text, sources);
    assert(text@ =~= hash_input(*mapping, *sources));
    content_hash(text.as_str())
}

/// Everything the manager wants in the cluster for one `NuOperator`, and when to
/// look again.
pub struct DesiredState {
    pub mapping_bundle: Option<ConfigBundle>,
    pub sources_bundle: Option<ConfigBundle>,
    pub workload: Workload,
    pub requeue: Action,
}

/// The effective image: the spec's, else the default.
pub open spec fn image_of(spec: NuOperatorSpec) -> Seq<char> {
    match spec.image {
        Some(i) => i@,
        None => default_image(),
    }
}

fn image_text(spec: &NuOperatorSpec) -> (r: String)
    ensures
        r@ == image_of(*spec),
{
    match &spec.image {
        Some(i) => i.clone(),
        None => {
            proof {
                reveal_strlit("ghcr.io/ck3mp3r/nuop:latest");
            }
            "ghcr.io/ck3mp3r/nuop:latest".to_owned()
        },
    }
}

fn owner_list(owner: &Option<OwnerReference>) -> (r: Option<Vec<OwnerReference>>)
    ensures
        owners_view(r) == crate::bundle::owner_list_view(*owner),
{
    match owner {
        Some(o) => {
            let mut v: Vec<OwnerReference> = Vec::new();
            v.push(o.copy());
            assert(v@.map_values(|x: OwnerReference| x@) =~= seq![o@]);
            Some(v)
        },
        None => None,
    }
}

fn copy_owner(owner: &Option<OwnerReference>) -> (r: Option<OwnerReference>)
    ensures
        r is Some <==> owner is Some,
        r is Some ==> r->0@ == owner->0@,
{
    match owner {
        Some(o) => Some(o.copy()),
        None => None,
    }
}

/// The state that one reconcile of the `NuOperator` `name` in `namespace` wants: the
/// mappings and sources bundles of the workload `{name}-nuop` (none for an empty
/// list), and the workload, annotated with the hash of the bundles. `owner` owns
/// all three; `mapping_documents[i]` and `source_documents[i]` are the texts of the
/// spec's `mappings[i]` and `sources[i]`.
pub fn reconcile(
    name: &str,
    namespace: &str,
    owner: &Option<OwnerReference>,
    spec: &NuOperatorSpec,
    mapping_documents: &Vec<String>,
    source_documents: &Vec<String>,
) -> (r: DesiredState)
    requires
        mapping_documents@.len() == spec.mappings@.len(),
        source_documents@.len() == spec.sources@.len(),
    ensures
        ({
            let dn = name@ + "-nuop"@;
            &&& r.mapping_bundle is None <==> spec.mappings@.len() == 0
            &&& r.mapping_bundle is Some ==> is_bundle(
                r.mapping_bundle->0,
                dn + "-nuop-mapping-config"@,
                namespace@,
                *owner,
                mapping_keys(spec.mappings@),
                docs_view(mapping_documents@),
            )
            &&& r.sources_bundle is None <==> spec.sources@.len() == 0
            &&& r.sources_bundle is Some ==> is_bundle(
                r.sources_bundle->0,
                dn + "-nuop-sources-config"@,
                namespace@,
                *owner,
                source_keys(spec.sources@),
                docs_view(source_documents@),
            )
            &&& r.workload.wf()
            &&& text_map_opt_view(r.workload.annotations) == Some(
                seq![("nuop.hash"@, sha256_hex(hash_input(r.mapping_bundle, r.sources_bundle)))],
            )
            &&& exists|meta: DeploymentMeta|
                {
                    &&& meta.name@ == dn
                    &&& meta.namespace@ == namespace@
                    &&& owners_view(meta.owner_references) == crate::bundle::owner_list_view(
                        *owner,
                    )
                    &&& meta.service_account_name.deep_view()
                        == spec.service_account_name.deep_view()
                    &&& text_map_opt_view(meta.annotations) == text_map_opt_view(
                        r.workload.annotations,
                    )
                    &&& is_generated_workload(
                        r.workload,
                        meta,
                        dn,
                        image_of(*spec),
                        spec.env@,
                        spec.sources@,
                        spec.mappings@,
                    )
                }
            &&& r.requeue == Action::Requeue(MANAGER_REQUEUE_SECS)
        }),
{
    proof {
        reveal_strlit("-nuop");
        reveal_strlit("nuop.hash");
    }
    let deployment_name = join(name, "-nuop");
    let mapping_bundle = generate_mapping_configmap(
        deployment_name.as_str(),
        namespace,
        copy_owner(owner),
        &spec.mappings,
        mapping_documents,
    );
    let sources_bundle = generate_source_configmap(
        deployment_name.as_str(),
        namespace,
        copy_owner(owner),
        &spec.sources,
        source_documents,
    );
    let hash = bundles_hash(&mapping_bundle, &sources_bundle);
    let meta = DeploymentMeta {
        name: deployment_name.clone(),
        namespace: namespace.to_owned(),
        owner_references: owner_list(owner),
        service_account_name: crate::model::text_opt_copy(&spec.service_account_name),
        annotations: Some(TextMap::single("nuop.hash".to_owned(), hash)),
    };
    let ghost g = meta;
    let image = image_text(spec);
    let workload = generate_deployment(
        deployment_name.as_str(),
        meta,
        image.as_str(),
        &spec.env,
        &spec.sources,
        &spec.mappings,
    );
    assert(is_generated_workload(
        workload,
        g,
        deployment_name@,
        image_of(*spec),
        spec.env@,
        spec.sources@,
        spec.mappings@,
    ));
    DesiredState {
        mapping_bundle,
        sources_bundle,
        workload,
        requeue: Action::Requeue(MANAGER_REQUEUE_SECS),
    }
}

pub open spec fn workload_write_spec(existing: Option<Workload>, desired: Workload) -> WriteAction {
    match existing {
        None => WriteAction::Create,
        Some(e) => if drifted(e, desired) {
            WriteAction::Patch
        } else {
            WriteAction::Unchanged
        },
    }
}

/// Create the workload where it is absent, apply the desired one where the
/// observed one has drifted, and write nothing otherwise.
pub fn workload_write(existing: &Option<Workload>, desired: &Workload) -> (r: WriteAction)
    requires
        existing is Some ==> existing->0.wf(),
        desired.wf(),
    ensures
        r == workload_write_spec(*existing, *desired),
{
    match existing {
        None => WriteAction::Create,
        Some(e) => if has_drifted(e, desired) {
            WriteAction::Patch
        } else {
            WriteAction::Unchanged
        },
    }
}

/// After any error in a reconcile of a `NuOperator` it is retried after a fixed delay.
pub fn error_policy(err: &ApiError) -> (r: Action)
    ensures
        r == Action::Requeue(MANAGER_ERROR_REQUEUE_SECS),
{
    Action::Requeue(MANAGER_ERROR_REQUEUE_SECS)
}

/// The hash depends on the bundles' entries alone: bundles with the same entries
/// give the same hash.
pub proof fn lemma_hash_determinism(
    m1: Option<ConfigBundle>,
    s1: Option<ConfigBundle>,
    m2: Option<ConfigBundle>,
    s2: Option<ConfigBundle>,
)
    requires
        m1 is Some <==> m2 is Some,
        s1 is Some <==> s2 is Some,
        m1 is Some ==> m1->0.data@ == m2->0.data@,
        s1 is Some ==> s1->0.data@ == s2->0.data@,
    ensures
        sha256_hex(hash_input(m1, s1)) == sha256_hex(hash_input(m2, s2)),
{
}

proof fn lemma_entries_text_split(s: Seq<(Seq<char>, Seq<char>)>, k: int)
    requires
        0 <= k <= s.len(),
    ensures
        entries_text(s) == entries_text(s.subrange(0, k)) + entries_text(s.subrange(k, s.len() as int)),
    decreases s.len(),
{
    if k < s.len() {
        lemma_entries_text_split(s.drop_last(), k);
        assert(s.drop_last().subrange(0, k) =~= s.subrange(0, k));
        let tail = s.subrange(k, s.len() as int);
        assert(tail.drop_last() =~= s.drop_last().subrange(k, s.drop_last().len() as int));
        assert(tail.last() == s.last());
    } else {
        assert(s.subrange(0, k) =~= s);
        assert(s.subrange(k, s.len() as int) =~= Seq::<(Seq<char>, Seq<char>)>::empty());
    }
}

/// Changing the value of one entry of a bundle, keys kept, changes the text that is
/// hashed. (That the digest then differs rests on SHA-256 having no collisions,
/// which is not stated here.)
pub proof fn lemma_value_change_changes_hash_input(
    a: Seq<(Seq<char>, Seq<char>)>,
    b: Seq<(Seq<char>, Seq<char>)>,
    i: int,
)
    requires
        a.len() == b.len(),
        0 <= i < a.len(),
        forall|j: int| 0 <= j < a.len() ==> (#[trigger] a[j]).0 == b[j].0,
        forall|j: int| 0 <= j < a.len() && j != i ==> (#[trigger] a[j]).1 == b[j].1,
        a[i].1 != b[i].1,
    ensures
        entries_text(a) != entries_text(b),
{
    lemma_entries_text_split(a, i + 1);
    lemma_entries_text_split(b, i + 1);
    let pa = a.subrange(0, i + 1);
    let pb = b.subrange(0, i + 1);
    assert(pa.drop_last() =~= pb.drop_last()) by {
        assert forall|j: int| 0 <= j < i implies pa.drop_last()[j] == pb.drop_last()[j] by {
            assert(a[j].0 == b[j].0 && a[j].1 == b[j].1);
        }
    }
    let ra = a.subrange(i + 1, a.len() as int);
    let rb = b.subrange(i + 1, b.len() as int);
    assert(ra =~= rb) by {
        assert forall|j: int| 0 <= j < ra.len() implies #[trigger] ra[j] == rb[j] by {
            assert(a[i + 1 + j].0 == b[i + 1 + j].0 && a[i + 1 + j].1 == b[i + 1 + j].1);
        }
    }
    let head = entries_text(pa.drop_last()) + a[i].0;
    let rest = entries_text(a.subrange(i + 1, a.len() as int));
    assert(pa.last() == a[i] && pb.last() == b[i]);
    assert(entries_text(a) == head + a[i].1 + rest);
    assert(entries_text(b) == head + b[i].1 + rest);
    if entries_text(a) == entries_text(b) {
        let va = a[i].1;
        let vb = b[i].1;
        let ta = head + va + rest;
        let tb = head + vb + rest;
        assert(va.len() == vb.len()) by {
            assert(ta.len() == tb.len());
        }
        assert(!(va =~= vb));
        let x = choose|x: int| 0 <= x < va.len() && va[x] != vb[x];
        assert((head + va)[head.len() + x] == va[x]);
        assert((head + vb)[head.len() + x] == vb[x]);
        assert(ta[head.len() + x] == (head + va)[head.len() + x]);
        assert(tb[head.len() + x] == (head + vb)[head.len() + x]);
    }
}

/// Applying a workload equal to the observed one writes nothing; and once a write
/// has put the desired workload in place, applying it again writes nothing.
pub proof fn lemma_drift_idempotence(existing: Option<Workload>, desired: Workload)
    ensures
        workload_write_spec(Some(desired), desired) == WriteAction::Unchanged,
        ({
            let after = if workload_write_spec(existing, desired) == WriteAction::Unchanged {
                existing
            } else {
                Some(desired)
            };
            workload_write_spec(after, desired) == WriteAction::Unchanged
        }),
{
    crate::drift::lemma_no_drift_from_itself(desired);
}

} // verus!
