use vstd::prelude::*;

use crate::config::Mapping;
use crate::model::{
    env_var_copy, env_view, owners_copy, owners_view, text_opt_copy, Credentials, EnvVar,
    EnvVarView, OwnerReference, Source,
};
use crate::names::{join, slug, slug_of};
use crate::text_map::{
    has_entry, has_key, lemma_entry_has_key, text_map_opt_copy, text_map_opt_view, text_map_opt_wf,
    TextMap,
};

verus! {

/// Mode bits of the files of a bundle or secret volume (0644).
pub const VOLUME_FILE_MODE: i32 = 420;

/// Where a volume's contents come from. `Other` holds a kind this library does not
/// build, as its document text, so that it can still be compared.
pub enum VolumeSource {
    EmptyDir,
    ConfigMap { name: String, default_mode: Option<i32> },
    Secret { secret_name: Option<String>, default_mode: Option<i32> },
    Other(String),
}

pub enum VolumeSourceView {
    EmptyDir,
    ConfigMap(Seq<char>, Option<i32>),
    Secret(Option<Seq<char>>, Option<i32>),
    Other(Seq<char>),
}

pub struct Volume {
    pub name: String,
    pub source: VolumeSource,
}

pub struct VolumeMount {
    pub name: String,
    pub mount_path: String,
    pub read_only: Option<bool>,
}

pub type VolumeView = (Seq<char>, VolumeSourceView);

pub type VolumeMountView = (Seq<char>, Seq<char>, Option<bool>);

impl View for VolumeSource {
    type V = VolumeSourceView;

    open spec fn view(&self) -> VolumeSourceView {
        match self {
            VolumeSource::EmptyDir => VolumeSourceView::EmptyDir,
            VolumeSource::ConfigMap { name, default_mode } => VolumeSourceView::ConfigMap(
                name@,
                *default_mode,
            ),
            VolumeSource::Secret { secret_name, default_mode } => VolumeSourceView::Secret(
                secret_name.deep_view(),
                *default_mode,
            ),
            VolumeSource::Other(t) => VolumeSourceView::Other(t@),
        }
    }
}

impl View for Volume {
    type V = VolumeView;

    open spec fn view(&self) -> VolumeView {
        (self.name@, self.source@)
    }
}

impl View for VolumeMount {
    type V = VolumeMountView;

    open spec fn view(&self) -> VolumeMountView {
        (self.name@, self.mount_path@, self.read_only)
    }
}

pub open spec fn volumes_view(v: Seq<Volume>) -> Seq<VolumeView> {
    v.map_values(|x: Volume| x@)
}

pub open spec fn mounts_view(v: Seq<VolumeMount>) -> Seq<VolumeMountView> {
    v.map_values(|x: VolumeMount| x@)
}

/// The secret that a source's credentials name: that of the token, else of the
/// username, else of the password.
pub open spec fn secret_name_of(s: Source) -> Option<Seq<char>> {
    match s.credentials {
        None => None,
        Some(c) => credentials_secret(c),
    }
}

pub open spec fn credentials_secret(c: Credentials) -> Option<Seq<char>> {
    if c.token is Some {
        Some(c.token->0.name@)
    } else if c.username is Some {
        Some(c.username->0.name@)
    } else if c.password is Some {
        Some(c.password->0.name@)
    } else {
        None
    }
}

/// The volumes for the bundles: scripts and sources where there are sources,
/// mappings where there are mappings.
pub open spec fn bundle_volumes(dn: Seq<char>, has_sources: bool, has_mappings: bool) -> Seq<
    VolumeView,
> {
    (if has_sources {
        seq![
            ("scripts"@, VolumeSourceView::EmptyDir),
            (
                "config-sources"@,
                VolumeSourceView::ConfigMap(dn + "-nuop-sources-config"@, Some(VOLUME_FILE_MODE)),
            ),
        ]
    } else {
        Seq::empty()
    }) + (if has_mappings {
        seq![
            (
                "config-mappings"@,
                VolumeSourceView::ConfigMap(dn + "-nuop-mapping-config"@, Some(VOLUME_FILE_MODE)),
            ),
        ]
    } else {
        Seq::empty()
    })
}

pub open spec fn bundle_mounts(has_sources: bool, has_mappings: bool) -> Seq<VolumeMountView> {
    (if has_sources {
        seq![
            ("scripts"@, "/scripts"@, None::<bool>),
            ("config-sources"@, "/config/sources"@, None::<bool>),
        ]
    } else {
        Seq::empty()
    }) + (if has_mappings {
        seq![("config-mappings"@, "/config/mappings"@, None::<bool>)]
    } else {
        Seq::empty()
    })
}

/// One secret volume for each source whose credentials name a secret, in source order.
pub open spec fn secret_volumes(s: Seq<Source>) -> Seq<VolumeView>
    decreases s.len(),
{
    if s.len() == 0 {
        Seq::empty()
    } else {
        secret_volumes(s.drop_last()) + match secret_name_of(s.last()) {
            Some(n) => seq![
                (
                    slug_of(s.last().path@) + "-nuop-secret"@,
                    VolumeSourceView::Secret(Some(n), Some(VOLUME_FILE_MODE)),
                ),
            ],
            None => Seq::empty(),
        }
    }
}

/// The read-only mount of each secret volume, under `/secrets/` and the source's path.
pub open spec fn secret_mounts(s: Seq<Source>) -> Seq<VolumeMountView>
    decreases s.len(),
{
    if s.len() == 0 {
        Seq::empty()
    } else {
        secret_mounts(s.drop_last()) + match secret_name_of(s.last()) {
            Some(n) => seq![
                (
                    slug_of(s.last().path@) + "-nuop-secret"@,
                    "/secrets/"@ + s.last().path@,
                    Some(true),
                ),
            ],
            None => Seq::empty(),
        }
    }
}

pub open spec fn volumes_spec(dn: Seq<char>, sources: Seq<Source>, mappings: Seq<Mapping>) -> Seq<
    VolumeView,
> {
    bundle_volumes(dn, sources.len() > 0, mappings.len() > 0) + secret_volumes(sources)
}

pub open spec fn mounts_spec(sources: Seq<Source>, mappings: Seq<Mapping>) -> Seq<VolumeMountView> {
    bundle_mounts(sources.len() > 0, mappings.len() > 0) + secret_mounts(sources)
}

fn secret_name(c: &Credentials) -> (r: Option<String>)
    ensures
        r.deep_view() == credentials_secret(*c),
{
    match &c.token {
        Some(t) => Some(t.name.clone()),
        None => match &c.username {
            Some(u) => Some(u.name.clone()),
            None => match &c.password {
                Some(p) => Some(p.name.clone()),
                None => None,
            },
        },
    }
}

fn text(s: &str) -> (r: String)
    ensures
        r@ == s@,
{
    s.to_owned()
}

/// The volumes of the worker and their mounts, in a fixed order: the scripts and
/// sources volumes where there are sources, the mappings volume where there are
/// mappings, then a secret volume for each source whose credentials name a secret.
pub fn generate_volumes_and_mounts(
    deployment_name: &str,
    sources: &Vec<Source>,
    mappings: &Vec<Mapping>,
) -> (r: (Vec<Volume>, Vec<VolumeMount>))
    ensures
        volumes_view(r.0@) == volumes_spec(deployment_name@, sources@, mappings@),
        mounts_view(r.1@) == mounts_spec(sources@, mappings@),
{
    let mut volumes: Vec<Volume> = Vec::new();
    let mut mounts: Vec<VolumeMount> = Vec::new();
    proof {
        reveal_strlit("scripts");
        reveal_strlit("/scripts");
        reveal_strlit("config-sources");
        reveal_strlit("/config/sources");
        reveal_strlit("config-mappings");
        reveal_strlit("/config/mappings");
        reveal_strlit("-nuop-secret");
        reveal_strlit("/secrets/");
        reveal_strlit("-nuop-sources-config");
        reveal_strlit("-nuop-mapping-config");
    }
    if sources.len() > 0 {
        volumes.push(Volume { name: text("scripts"), source: VolumeSource::EmptyDir });
        mounts.push(
            VolumeMount { name: text("scripts"), mount_path: text("/scripts"), read_only: None },
        );
        volumes.push(
            Volume {
                name: text("config-sources"),
                source: VolumeSource::ConfigMap {
                    name: join(deployment_name, "-nuop-sources-config"),
                    default_mode: Some(VOLUME_FILE_MODE),
                },
            },
        );
        mounts.push(
            VolumeMount {
                name: text("config-sources"),
                mount_path: text("/config/sources"),
                read_only: None,
            },
        );
    }
    if mappings.len() > 0 {
        volumes.push(
            Volume {
                name: text("config-mappings"),
                source: VolumeSource::ConfigMap {
                    name: join(deployment_name, "-nuop-mapping-config"),
                    default_mode: Some(VOLUME_FILE_MODE),
                },
            },
        );
        mounts.push(
            VolumeMount {
                name: text("config-mappings"),
                mount_path: text("/config/mappings"),
                read_only: None,
            },
        );
    }
    let ghost base_v = bundle_volumes(deployment_name@, sources@.len() > 0, mappings@.len() > 0);
    let ghost base_m = bundle_mounts(sources@.len() > 0, mappings@.len() > 0);
    assert(volumes_view(volumes@) =~= base_v);
    assert(mounts_view(mounts@) =~= base_m);
    let mut i: usize = 0;
    while i < sources.len()
        invariant
            i <= sources@.len(),
            volumes_view(volumes@) == base_v + secret_volumes(sources@.subrange(0, i as int)),
            mounts_view(mounts@) == base_m + secret_mounts(sources@.subrange(0, i as int)),
        decreases sources@.len() - i,
    {
        let ghost prefix = sources@.subrange(0, i as int);
        let ghost next = sources@.subrange(0, i + 1);
        assert(next.drop_last() =~= prefix);
        assert(next.last() == sources@[i as int]);
        proof {
            reveal_strlit("-nuop-secret");
            reveal_strlit("/secrets/");
        }
        let source = &sources[i];
        if let Some(creds) = &source.credentials {
            if let Some(secret) = secret_name(creds) {
                let ghost v0 = volumes_view(volumes@);
                let ghost m0 = mounts_view(mounts@);
                let name = join(slug(source.path.as_str()).as_str(), "-nuop-secret");
                volumes.push(
                    Volume {
                        name: name.clone(),
                        source: VolumeSource::Secret {
                            secret_name: Some(secret),
                            default_mode: Some(VOLUME_FILE_MODE),
                        },
                    },
                );
                mounts.push(
                    VolumeMount {
                        name,
                        mount_path: join("/secrets/", source.path.as_str()),
                        read_only: Some(true),
                    },
                );
                assert(volumes_view(volumes@) =~= v0 + volumes_view(volumes@).subrange(
                    v0.len() as int,
                    volumes@.len() as int,
                ));
                assert(volumes_view(volumes@) =~= base_v + secret_volumes(next));
                assert(mounts_view(mounts@) =~= m0.push(mounts@.last()@));
                assert(mounts@.last()@ == (
                    slug_of(sources@[i as int].path@) + "-nuop-secret"@,
                    "/secrets/"@ + sources@[i as int].path@,
                    Some(true),
                ));
                assert(mounts_view(mounts@) =~= base_m + secret_mounts(next));
            } else {
                assert(secret_volumes(next) =~= secret_volumes(prefix));
                assert(secret_mounts(next) =~= secret_mounts(prefix));
            }
        } else {
            assert(secret_volumes(next) =~= secret_volumes(prefix));
            assert(secret_mounts(next) =~= secret_mounts(prefix));
        }
        i = i + 1;
    }
    assert(sources@.subrange(0, sources@.len() as int) =~= sources@);
    (volumes, mounts)
}

/// One process of the worker's pod.
pub struct Container {
    pub name: String,
    pub image: Option<String>,
    pub image_pull_policy: Option<String>,
    pub env: Option<Vec<EnvVar>>,
    pub volume_mounts: Option<Vec<VolumeMount>>,
}

pub type ContainerView = (
    Seq<char>,
    Option<Seq<char>>,
    Option<Seq<char>>,
    Option<Seq<EnvVarView>>,
    Option<Seq<VolumeMountView>>,
);

impl View for Container {
    type V = ContainerView;

    open spec fn view(&self) -> ContainerView {
        (
            self.name@,
            self.image.deep_view(),
            self.image_pull_policy.deep_view(),
            env_opt_view(self.env),
            mounts_opt_view(self.volume_mounts),
        )
    }
}

pub open spec fn env_opt_view(o: Option<Vec<EnvVar>>) -> Option<Seq<EnvVarView>> {
    match o {
        Some(e) => Some(env_view(e@)),
        None => None,
    }
}

pub open spec fn mounts_opt_view(o: Option<Vec<VolumeMount>>) -> Option<Seq<VolumeMountView>> {
    match o {
        Some(m) => Some(mounts_view(m@)),
        None => None,
    }
}

pub open spec fn containers_view(v: Seq<Container>) -> Seq<ContainerView> {
    v.map_values(|c: Container| c@)
}

/// The pod that the workload runs.
pub struct PodSpec {
    pub init_containers: Option<Vec<Container>>,
    pub containers: Vec<Container>,
    pub volumes: Option<Vec<Volume>>,
    pub service_account_name: Option<String>,
}

/// The workload's replica count, selector and pod template.
pub struct WorkloadSpec {
    pub replicas: Option<i32>,
    pub selector: Option<TextMap>,
    pub template_labels: Option<TextMap>,
    pub template_annotations: Option<TextMap>,
    pub pod: Option<PodSpec>,
}

/// A worker workload, as desired or as found in the cluster.
pub struct Workload {
    pub name: Option<String>,
    pub namespace: Option<String>,
    pub owner_references: Option<Vec<OwnerReference>>,
    pub annotations: Option<TextMap>,
    pub spec: Option<WorkloadSpec>,
}

impl WorkloadSpec {
    pub open spec fn wf(&self) -> bool {
        &&& text_map_opt_wf(self.selector)
        &&& text_map_opt_wf(self.template_labels)
        &&& text_map_opt_wf(self.template_annotations)
    }
}

impl Workload {
    pub open spec fn wf(&self) -> bool {
        &&& text_map_opt_wf(self.annotations)
        &&& (self.spec is Some ==> self.spec->0.wf())
    }
}

/// What the workload's metadata is built from.
pub struct DeploymentMeta {
    pub name: String,
    pub namespace: String,
    pub owner_references: Option<Vec<OwnerReference>>,
    pub service_account_name: Option<String>,
    pub annotations: Option<TextMap>,
}

/// The annotation that carries the content hash of the worker's bundles.
pub open spec fn hash_key() -> Seq<char> {
    "nuop.hash"@
}

/// The environment of a container in `mode`: `NUOP_MODE` first, then the user's.
pub open spec fn env_spec(mode: Seq<char>, env: Seq<EnvVar>) -> Seq<EnvVarView> {
    seq![("NUOP_MODE"@, Some(mode), None::<Seq<char>>)] + env_view(env)
}

pub open spec fn container_spec(
    name: Seq<char>,
    image: Seq<char>,
    mode: Seq<char>,
    env: Seq<EnvVar>,
    sources: Seq<Source>,
    mappings: Seq<Mapping>,
) -> ContainerView {
    (
        name,
        Some(image),
        Some("Never"@),
        Some(env_spec(mode, env)),
        Some(mounts_spec(sources, mappings)),
    )
}

/// The template annotations: the hash annotation alone, where the workload has one.
pub open spec fn template_annotations_spec(a: Option<TextMap>, t: Option<TextMap>) -> bool {
    match a {
        Some(m) => if has_key(m@, hash_key()) {
            t is Some && exists|h: Seq<char>| has_entry(m@, hash_key(), h) && t->0@ == seq![(hash_key(), h)]
        } else {
            t is None
        },
        None => t is None,
    }
}

/// `w` is the workload described by the arguments of `generate_deployment`.
pub open spec fn is_generated_workload(
    w: Workload,
    meta: DeploymentMeta,
    dn: Seq<char>,
    image: Seq<char>,
    env: Seq<EnvVar>,
    sources: Seq<Source>,
    mappings: Seq<Mapping>,
) -> bool {
    &&& w.name.deep_view() == Some(meta.name@)
    &&& w.namespace.deep_view() == Some(meta.namespace@)
    &&& owners_view(w.owner_references) == owners_view(meta.owner_references)
    &&& text_map_opt_view(w.annotations) == text_map_opt_view(meta.annotations)
    &&& w.spec is Some
    &&& {
        let s = w.spec->0;
        &&& s.replicas == Some(1i32)
        &&& text_map_opt_view(s.selector) == Some(seq![("app"@, meta.name@)])
        &&& text_map_opt_view(s.template_labels) == Some(seq![("app"@, meta.name@)])
        &&& template_annotations_spec(meta.annotations, s.template_annotations)
        &&& s.pod is Some
        &&& {
            let p = s.pod->0;
            &&& p.service_account_name.deep_view() == meta.service_account_name.deep_view()
            &&& p.volumes is Some
            &&& volumes_view(p.volumes->0@) == volumes_spec(dn, sources, mappings)
            &&& containers_view(p.containers@) == seq![
                container_spec("nureconciler"@, image, "managed"@, env, sources, mappings),
            ]
            &&& if sources.len() > 0 {
                p.init_containers is Some && containers_view(p.init_containers->0@) == seq![
                    container_spec("init-container"@, image, "init"@, env, sources, mappings),
                ]
            } else {
                p.init_containers is None
            }
        }
    }
}

fn env_with_mode(mode: &str, env: &Vec<EnvVar>) -> (r: Vec<EnvVar>)
    ensures
        env_view(r@) == env_spec(mode@, env@),
{
    proof {
        reveal_strlit("NUOP_MODE");
    }
    let mut r: Vec<EnvVar> = Vec::new();
    r.push(EnvVar { name: text("NUOP_MODE"), value: Some(text(mode)), value_from: None });
    let mut i: usize = 0;
    while i < env.len()
        invariant
            i <= env@.len(),
            r@.len() == i + 1,
            r@[0]@ == ("NUOP_MODE"@, Some(mode@), None::<Seq<char>>),
            forall|j: int| 0 <= j < i ==> r@[j + 1]@ == env@[j]@,
        decreases env@.len() - i,
    {
        r.push(env_var_copy(&env[i]));
        i = i + 1;
    }
    assert(env_view(r@) =~= env_spec(mode@, env@));
    r
}

fn mounts_copy(m: &Vec<VolumeMount>) -> (r: Vec<VolumeMount>)
    ensures
        mounts_view(r@) == mounts_view(m@),
{
    let mut r: Vec<VolumeMount> = Vec::new();
    let mut i: usize = 0;
    while i < m.len()
        invariant
            i <= m@.len(),
            r@.len() == i,
            forall|j: int| 0 <= j < i ==> r@[j]@ == m@[j]@,
        decreases m@.len() - i,
    {
        let x = &m[i];
        r.push(VolumeMount { name: x.name.clone(), mount_path: x.mount_path.clone(), read_only: x.read_only });
        i = i + 1;
    }
    assert(mounts_view(r@) =~= mounts_view(m@));
    r
}

/// The desired worker workload: one replica labelled with the workload's name, the
/// hash annotation on the workload and on its pod template, an init container
/// where there are sources, and the main container, both with `image` pulled
/// never, their mode first in the environment and every volume mounted.
pub fn generate_deployment(
    deployment_name: &str,
    meta: DeploymentMeta,
    image: &str,
    env_vars: &Vec<EnvVar>,
    sources: &Vec<Source>,
    mappings: &Vec<Mapping>,
) -> (r: Workload)
    requires
        text_map_opt_wf(meta.annotations),
    ensures
        r.wf(),
        is_generated_workload(r, meta, deployment_name@, image@, env_vars@, sources@, mappings@),
{
    proof {
        reveal_strlit("init-container");
        reveal_strlit("nureconciler");
        reveal_strlit("Never");
        reveal_strlit("init");
        reveal_strlit("managed");
        reveal_strlit("app");
        reveal_strlit("nuop.hash");
    }
    let (volumes, volume_mounts) = generate_volumes_and_mounts(deployment_name, sources, mappings);
    let init_containers = if sources.len() > 0 {
        let mut v: Vec<Container> = Vec::new();
        v.push(
            Container {
                name: text("init-container"),
                image: Some(text(image)),
                image_pull_policy: Some(text("Never")),
                env: Some(env_with_mode("init", env_vars)),
                volume_mounts: Some(mounts_copy(&volume_mounts)),
            },
        );
        assert(containers_view(v@) =~= seq![v@[0]@]);
        Some(v)
    } else {
        None
    };
    let template_annotations = match &meta.annotations {
        Some(a) => match a.get("nuop.hash") {
            Some(h) => {
                proof {
                    lemma_entry_has_key(a@, "nuop.hash"@, h@);
                }
                Some(TextMap::single(text("nuop.hash"), h.clone()))
            },
            None => None,
        },
        None => None,
    };
    let mut containers: Vec<Container> = Vec::new();
    containers.push(
        Container {
            name: text("nureconciler"),
            image: Some(text(image)),
            image_pull_policy: Some(text("Never")),
            env: Some(env_with_mode("managed", env_vars)),
            volume_mounts: Some(volume_mounts),
        },
    );
    assert(containers_view(containers@) =~= seq![containers@[0]@]);
    let spec = WorkloadSpec {
        replicas: Some(1),
        selector: Some(TextMap::single(text("app"), meta.name.clone())),
        template_labels: Some(TextMap::single(text("app"), meta.name.clone())),
        template_annotations,
        pod: Some(
            PodSpec {
                init_containers,
                containers,
                volumes: Some(volumes),
                service_account_name: text_opt_copy(&meta.service_account_name),
            },
        ),
    };
    Workload {
        name: Some(meta.name.clone()),
        namespace: Some(meta.namespace.clone()),
        owner_references: owners_copy(&meta.owner_references),
        annotations: text_map_opt_copy(&meta.annotations),
        spec: Some(spec),
    }
}

} // verus!
