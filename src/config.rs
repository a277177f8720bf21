use vstd::prelude::*;
use vstd::string::StringExecFns;

use crate::text_map::TextMap;

verus! {

/// What a reconcile script declares about itself: the resource kind it handles,
/// how to narrow the watch, its finalizer, and how soon to come back.
pub struct Config {
    pub name: String,
    pub group: String,
    pub version: String,
    pub kind: String,
    pub label_selectors: TextMap,
    pub field_selectors: TextMap,
    pub finalizer: Option<String>,
    pub namespace: Option<String>,
    pub requeue_after_change: u64,
    pub requeue_after_noop: u64,
}

/// An operator-supplied overlay for the script whose name and coordinates it carries.
/// Non-empty selectors and set delays replace those the script declared.
pub struct Mapping {
    pub name: String,
    pub group: String,
    pub version: String,
    pub kind: String,
    pub field_selectors: TextMap,
    pub label_selectors: TextMap,
    pub requeue_after_change: Option<u64>,
    pub requeue_after_noop: Option<u64>,
}

/// Seconds before the next reconcile after a script reported a change.
pub fn default_requeue_after_change() -> (r: u64)
    ensures
        r == 10,
{
    10
}

/// Seconds before the next reconcile after a script reported no change.
pub fn default_requeue_after_noop() -> (r: u64)
    ensures
        r == 300,
{
    5 * 60
}

/// `key=value` for one selector entry.
pub open spec fn selector_term(e: (Seq<char>, Seq<char>)) -> Seq<char> {
    e.0 + seq!['='] + e.1
}

/// The selector entries as `k1=v1,k2=v2,...`, in the order given.
pub open spec fn selector_text(s: Seq<(Seq<char>, Seq<char>)>) -> Seq<char>
    decreases s.len(),
{
    if s.len() == 0 {
        Seq::empty()
    } else if s.len() == 1 {
        selector_term(s[0])
    } else {
        selector_text(s.drop_last()) + seq![','] + selector_term(s.last())
    }
}

/// What a selector map becomes in a watch query: nothing when it is empty.
pub open spec fn selector_query(s: Seq<(Seq<char>, Seq<char>)>) -> Option<Seq<char>> {
    if s.len() == 0 {
        None
    } else {
        Some(selector_text(s))
    }
}

fn selector_string(m: &TextMap) -> (r: Option<String>)
    requires
        m.wf(),
    ensures
        r.deep_view() == selector_query(m@),
{
    if m.is_empty() {
        return None;
    }
    let n = m.len();
    let mut out = String::new();
    let mut i: usize = 0;
    while i < n
        invariant
            m.wf(),
            n == m@.len(),
            0 < n,
            i <= n,
            out@ == selector_text(m@.subrange(0, i as int)),
        decreases n - i,
    {
        let ghost prev = m@.subrange(0, i as int);
        proof {
            reveal_strlit("=");
            reveal_strlit(",");
        }
        if i > 0 {
            out.append(",");
        }
        out.append(m.key_at(i).as_str());
        out.append("=");
        out.append(m.value_at(i).as_str());
        proof {
            let next = m@.subrange(0, i + 1);
            assert(next.drop_last() =~= prev);
            assert(next.last() == m@[i as int]);
            if i == 0 {
                assert(out@ =~= selector_term(m@[0]));
            } else {
                assert(out@ =~= selector_text(prev) + seq![','] + selector_term(m@[i as int]));
            }
        }
        i = i + 1;
    }
    assert(m@.subrange(0, n as int) =~= m@);
    Some(out)
}

impl Config {
    pub open spec fn wf(&self) -> bool {
        self.label_selectors.wf() && self.field_selectors.wf()
    }

    /// The label selector for the watch: the entries as `k=v` joined by `,`, or
    /// nothing when there are none.
    pub fn label_selectors(&self) -> (r: Option<String>)
        requires
            self.wf(),
        ensures
            r.deep_view() == selector_query(self.label_selectors@),
    {
        selector_string(&self.label_selectors)
    }

    /// The field selector for the watch, in the same form as the label selector.
    pub fn field_selectors(&self) -> (r: Option<String>)
        requires
            self.wf(),
        ensures
            r.deep_view() == selector_query(self.field_selectors@),
    {
        selector_string(&self.field_selectors)
    }

    /// A copy with the same contents.
    pub fn copy(&self) -> (r: Config)
        requires
            self.wf(),
        ensures
            r.wf(),
            same_config(r, *self),
    {
        Config {
            name: self.name.clone(),
            group: self.group.clone(),
            version: self.version.clone(),
            kind: self.kind.clone(),
            label_selectors: self.label_selectors.copy(),
            field_selectors: self.field_selectors.copy(),
            finalizer: self.finalizer.clone(),
            namespace: self.namespace.clone(),
            requeue_after_change: self.requeue_after_change,
            requeue_after_noop: self.requeue_after_noop,
        }
    }
}

/// Two configs that say the same thing.
pub open spec fn same_config(a: Config, b: Config) -> bool {
    &&& a.name@ == b.name@
    &&& a.group@ == b.group@
    &&& a.version@ == b.version@
    &&& a.kind@ == b.kind@
    &&& a.label_selectors@ == b.label_selectors@
    &&& a.field_selectors@ == b.field_selectors@
    &&& a.finalizer.deep_view() == b.finalizer.deep_view()
    &&& a.namespace.deep_view() == b.namespace.deep_view()
    &&& a.requeue_after_change == b.requeue_after_change
    &&& a.requeue_after_noop == b.requeue_after_noop
}

impl Mapping {
    pub open spec fn wf(&self) -> bool {
        self.label_selectors.wf() && self.field_selectors.wf()
    }
}

/// The mapping names the script's name, group, version and kind.
pub open spec fn mapping_matches_spec(m: Mapping, c: Config) -> bool {
    &&& m.name@ == c.name@
    &&& m.group@ == c.group@
    &&& m.kind@ == c.kind@
    &&& m.version@ == c.version@
}

/// The config after the mapping's overlay: each non-empty selector map and each set
/// delay of the mapping replaces the script's own; the rest is the script's.
pub open spec fn overlaid(r: Config, c: Config, m: Mapping) -> bool {
    &&& r.name@ == c.name@
    &&& r.group@ == c.group@
    &&& r.version@ == c.version@
    &&& r.kind@ == c.kind@
    &&& r.finalizer.deep_view() == c.finalizer.deep_view()
    &&& r.namespace.deep_view() == c.namespace.deep_view()
    &&& r.field_selectors@ == (if m.field_selectors@.len() > 0 {
        m.field_selectors@
    } else {
        c.field_selectors@
    })
    &&& r.label_selectors@ == (if m.label_selectors@.len() > 0 {
        m.label_selectors@
    } else {
        c.label_selectors@
    })
    &&& r.requeue_after_change == match m.requeue_after_change {
        Some(s) => s,
        None => c.requeue_after_change,
    }
    &&& r.requeue_after_noop == match m.requeue_after_noop {
        Some(s) => s,
        None => c.requeue_after_noop,
    }
}

/// Whether `mapping` is the one for the script that declared `config`.
pub fn mapping_matches(mapping: &Mapping, config: &Config) -> (r: bool)
    ensures
        r == mapping_matches_spec(*mapping, *config),
{
    mapping.name == config.name && mapping.group == config.group && mapping.kind == config.kind
        && mapping.version == config.version
}

/// Applies the mapping's overrides to the script's config.
pub fn overlay(config: &Config, mapping: &Mapping) -> (r: Config)
    requires
        config.wf(),
        mapping.wf(),
    ensures
        r.wf(),
        overlaid(r, *config, *mapping),
{
    let mut r = config.copy();
    if !mapping.field_selectors.is_empty() {
        r.field_selectors = mapping.field_selectors.copy();
    }
    if !mapping.label_selectors.is_empty() {
        r.label_selectors = mapping.label_selectors.copy();
    }
    if let Some(s) = mapping.requeue_after_noop {
        r.requeue_after_noop = s;
    }
    if let Some(s) = mapping.requeue_after_change {
        r.requeue_after_change = s;
    }
    r
}

} // verus!
