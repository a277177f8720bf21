use vstd::prelude::*;

use crate::config::Mapping;

verus! {

/// A reference to one key of a secret.
pub struct SecretKeySelector {
    pub name: String,
    pub key: String,
    pub optional: Option<bool>,
}

/// Secrets with which a source is fetched.
pub struct Credentials {
    pub token: Option<SecretKeySelector>,
    pub username: Option<SecretKeySelector>,
    pub password: Option<SecretKeySelector>,
}

/// Where reconcile scripts are fetched from, and under which path they are mounted.
pub struct Source {
    pub location: String,
    pub path: String,
    pub credentials: Option<Credentials>,
}

/// An environment variable of the worker. `value_from`, where set, is the variable's
/// source document as text, carried through unread.
pub struct EnvVar {
    pub name: String,
    pub value: Option<String>,
    pub value_from: Option<String>,
}

/// What a `NuOperator` asks for.
pub struct NuOperatorSpec {
    pub env: Vec<EnvVar>,
    pub image: Option<String>,
    pub mappings: Vec<Mapping>,
    pub sources: Vec<Source>,
    pub service_account_name: Option<String>,
}

/// A reference from an owned object to its owner.
pub struct OwnerReference {
    pub api_version: String,
    pub kind: String,
    pub name: String,
    pub uid: String,
    pub controller: Option<bool>,
    pub block_owner_deletion: Option<bool>,
}

pub type EnvVarView = (Seq<char>, Option<Seq<char>>, Option<Seq<char>>);

pub type OwnerReferenceView = (Seq<char>, Seq<char>, Seq<char>, Seq<char>, Option<bool>, Option<bool>);

impl View for OwnerReference {
    type V = OwnerReferenceView;

    open spec fn view(&self) -> OwnerReferenceView {
        (
            self.api_version@,
            self.kind@,
            self.name@,
            self.uid@,
            self.controller,
            self.block_owner_deletion,
        )
    }
}

pub open spec fn owners_view(o: Option<Vec<OwnerReference>>) -> Option<Seq<OwnerReferenceView>> {
    match o {
        Some(v) => Some(v@.map_values(|r: OwnerReference| r@)),
        None => None,
    }
}

/// A copy of an optional list of owner references.
pub fn owners_copy(o: &Option<Vec<OwnerReference>>) -> (r: Option<Vec<OwnerReference>>)
    ensures
        owners_view(r) == owners_view(*o),
{
    match o {
        None => None,
        Some(v) => {
            let mut out: Vec<OwnerReference> = Vec::new();
            let mut i: usize = 0;
            while i < v.len()
                invariant
                    i <= v@.len(),
                    out@.len() == i,
                    forall|j: int| 0 <= j < i ==> out@[j]@ == v@[j]@,
                decreases v@.len() - i,
            {
                out.push(v[i].copy());
                i = i + 1;
            }
            assert(out@.map_values(|r: OwnerReference| r@) =~= v@.map_values(|r: OwnerReference| r@));
            Some(out)
        },
    }
}

impl View for EnvVar {
    type V = EnvVarView;

    open spec fn view(&self) -> EnvVarView {
        (self.name@, self.value.deep_view(), self.value_from.deep_view())
    }
}

pub open spec fn env_view(v: Seq<EnvVar>) -> Seq<EnvVarView> {
    v.map_values(|e: EnvVar| e@)
}

/// Whether two optional texts are equal.
pub fn text_opt_eq(a: &Option<String>, b: &Option<String>) -> (r: bool)
    ensures
        r == (a.deep_view() == b.deep_view()),
{
    match a {
        Some(x) => match b {
            Some(y) => *x == *y,
            None => false,
        },
        None => b.is_none(),
    }
}

pub fn text_opt_copy(a: &Option<String>) -> (r: Option<String>)
    ensures
        r.deep_view() == a.deep_view(),
{
    match a {
        Some(x) => Some(x.clone()),
        None => None,
    }
}

pub fn env_var_eq(a: &EnvVar, b: &EnvVar) -> (r: bool)
    ensures
        r == (a@ == b@),
{
    a.name == b.name && text_opt_eq(&a.value, &b.value) && text_opt_eq(&a.value_from, &b.value_from)
}

pub fn env_var_copy(a: &EnvVar) -> (r: EnvVar)
    ensures
        r@ == a@,
{
    EnvVar {
        name: a.name.clone(),
        value: text_opt_copy(&a.value),
        value_from: text_opt_copy(&a.value_from),
    }
}

/// Whether two environment lists are equal, entry by entry.
pub fn env_list_eq(a: &Vec<EnvVar>, b: &Vec<EnvVar>) -> (r: bool)
    ensures
        r == (env_view(a@) == env_view(b@)),
{
    if a.len() != b.len() {
        assert(env_view(a@).len() != env_view(b@).len());
        return false;
    }
    let mut i: usize = 0;
    while i < a.len()
        invariant
            a@.len() == b@.len(),
            i <= a@.len(),
            forall|j: int| 0 <= j < i ==> a@[j]@ == b@[j]@,
        decreases a@.len() - i,
    {
        if !env_var_eq(&a[i], &b[i]) {
            assert(env_view(a@)[i as int] != env_view(b@)[i as int]);
            return false;
        }
        i = i + 1;
    }
    assert(env_view(a@) =~= env_view(b@));
    true
}

impl OwnerReference {
    pub open spec fn describes(&self, api_version: Seq<char>, kind: Seq<char>, name: Seq<char>, uid: Seq<char>) -> bool {
        &&& self.api_version@ == api_version
        &&& self.kind@ == kind
        &&& self.name@ == name
        &&& self.uid@ == uid
        &&& self.controller == Some(true)
        &&& self.block_owner_deletion == Some(true)
    }

    pub fn copy(&self) -> (r: OwnerReference)
        ensures
            r@ == self@,
    {
        OwnerReference {
            api_version: self.api_version.clone(),
            kind: self.kind.clone(),
            name: self.name.clone(),
            uid: self.uid.clone(),
            controller: self.controller,
            block_owner_deletion: self.block_owner_deletion,
        }
    }
}

/// The controlling owner reference to an object, or none when it has no uid yet.
pub fn generate_owner_reference(
    api_version: &str,
    kind: &str,
    name: &str,
    uid: Option<&str>,
) -> (r: Option<OwnerReference>)
    ensures
        r is None <==> uid is None,
        r is Some ==> r->0.describes(api_version@, kind@, name@, uid->0@),
{
    match uid {
        None => None,
        Some(u) => Some(
            OwnerReference {
                api_version: api_version.to_owned(),
                kind: kind.to_owned(),
                name: name.to_owned(),
                uid: u.to_owned(),
                controller: Some(true),
                block_owner_deletion: Some(true),
            },
        ),
    }
}

} // verus!
