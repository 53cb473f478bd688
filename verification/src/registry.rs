//! The feature registry: descriptors of optional features (extra
//! packages, version pins, a support matrix), decoded fail-closed from
//! loosely typed document entries, and the install plan derived from a
//! job's requested feature keys.

use vstd::prelude::*;

use crate::job::Language;
use crate::job::TemplateKind;
use crate::text::str_eq;

verus! {

/// One feature of the registry, fully typed.
pub struct FeatureDescriptor {
    pub key: String,
    pub label: String,
    pub package_names: Vec<String>,
    pub is_dev_dependency: bool,
    pub version_v2: Option<String>,
    pub version_v3: Option<String>,
    pub supports_v2: bool,
    pub supports_v3: bool,
    pub supports_ts: bool,
    pub supports_js: bool,
}

/// One entry as it stands in the persisted registry document: every
/// field optional, package names possibly singular, list entries
/// possibly of the wrong type.
pub struct RawFeatureEntry {
    pub key: Option<String>,
    pub label: Option<String>,
    pub packages: Option<Vec<Option<String>>>,
    pub package: Option<String>,
    pub dev: Option<bool>,
    pub version_v2: Option<String>,
    pub version_v3: Option<String>,
    pub supports_v2: Option<bool>,
    pub supports_v3: Option<bool>,
    pub supports_ts: Option<bool>,
    pub supports_js: Option<bool>,
}

/// The view of an optional owned string.
pub open spec fn opt_str_view(o: Option<String>) -> Option<Seq<char>> {
    match o {
        Some(s) => Some(s@),
        None => None,
    }
}

/// The string entries of a loosely typed list, in order.
pub open spec fn keep_strings(s: Seq<Option<Seq<char>>>) -> Seq<Seq<char>>
    decreases s.len(),
{
    if s.len() == 0 {
        Seq::empty()
    } else {
        keep_strings(s.drop_last()) + (match s.last() {
            Some(x) => seq![x],
            None => Seq::empty(),
        })
    }
}

/// The package-name list a raw entry stands for: the plural field wins,
/// with non-string entries dropped; else the singular field; else none.
pub open spec fn spec_packages_of(raw: RawFeatureEntry) -> Seq<Seq<char>> {
    match raw.packages {
        Some(ps) => keep_strings(ps.deep_view()),
        None => match raw.package {
            Some(p) => seq![p@],
            None => Seq::empty(),
        },
    }
}

/// Decodes one raw registry entry, failing closed: an entry without a
/// key is rejected, every other absent field takes its default
/// (dev = false, all support flags = true, label = key).
pub fn decode_entry(raw: RawFeatureEntry) -> (r: Option<FeatureDescriptor>)
    ensures
        r is Some <==> raw.key is Some,
        r is Some ==> {
            let d = r.unwrap();
            &&& d.key@ == raw.key.unwrap()@
            &&& d.label@ == (match raw.label {
                Some(l) => l@,
                None => raw.key.unwrap()@,
            })
            &&& d.package_names.deep_view() == spec_packages_of(raw)
            &&& d.is_dev_dependency == (raw.dev is Some && raw.dev.unwrap())
            &&& opt_str_view(d.version_v2) == opt_str_view(raw.version_v2)
            &&& opt_str_view(d.version_v3) == opt_str_view(raw.version_v3)
            &&& d.supports_v2 == (raw.supports_v2 is None || raw.supports_v2.unwrap())
            &&& d.supports_v3 == (raw.supports_v3 is None || raw.supports_v3.unwrap())
            &&& d.supports_ts == (raw.supports_ts is None || raw.supports_ts.unwrap())
            &&& d.supports_js == (raw.supports_js is None || raw.supports_js.unwrap())
        },
{
    let ghost g = raw;
    let RawFeatureEntry {
        key,
        label,
        packages,
        package,
        dev,
        version_v2,
        version_v3,
        supports_v2,
        supports_v3,
        supports_ts,
        supports_js,
    } = raw;
    let key = match key {
        Some(k) => k,
        None => {
            return None;
        },
    };
    let label = match label {
        Some(l) => l,
        None => key.clone(),
    };
    let package_names: Vec<String> = match packages {
        Some(ps) => {
            let mut out: Vec<String> = Vec::new();
            let mut i: usize = 0;
            let n = ps.len();
            let mut ps = ps;
            proof {
                assert(ps.deep_view().subrange(0, 0) =~= Seq::<Option<Seq<char>>>::empty());
            }
            while i < n
                invariant
                    i <= n,
                    n == ps.len(),
                    ps.deep_view() == g.packages.unwrap().deep_view(),
                    out.deep_view() == keep_strings(ps.deep_view().subrange(0, i as int)),
                decreases n - i,
            {
                let ghost pre = ps.deep_view().subrange(0, i as int);
                let ghost cur = ps.deep_view().subrange(0, i + 1);
                proof {
                    assert(cur.drop_last() =~= pre);
                    assert(cur.last() == ps.deep_view()[i as int]);
                }
                match &ps[i] {
                    Some(s) => {
                        out.push(s.clone());
                        proof {
                            assert(out.deep_view() =~= keep_strings(pre) + seq![
                                ps.deep_view()[i as int].unwrap(),
                            ]);
                        }
                    },
                    None => {
                        proof {
                            assert(out.deep_view() =~= keep_strings(pre)
                                + Seq::<Seq<char>>::empty());
                        }
                    },
                }
                i += 1;
            }
            proof {
                assert(ps.deep_view().subrange(0, n as int) =~= ps.deep_view());
            }
            out
        },
        None => {
            match package {
                Some(p) => {
                    let mut out: Vec<String> = Vec::new();
                    out.push(p);
                    proof {
                        assert(out.deep_view() =~= spec_packages_of(g));
                    }
                    out
                },
                None => {
                    let out: Vec<String> = Vec::new();
                    proof {
                        assert(out.deep_view() =~= spec_packages_of(g));
                    }
                    out
                },
            }
        },
    };
    let is_dev_dependency = match dev {
        Some(b) => b,
        None => false,
    };
    let supports_v2 = match supports_v2 {
        Some(b) => b,
        None => true,
    };
    let supports_v3 = match supports_v3 {
        Some(b) => b,
        None => true,
    };
    let supports_ts = match supports_ts {
        Some(b) => b,
        None => true,
    };
    let supports_js = match supports_js {
        Some(b) => b,
        None => true,
    };
    Some(
        FeatureDescriptor {
            key,
            label,
            package_names,
            is_dev_dependency,
            version_v2,
            version_v3,
            supports_v2,
            supports_v3,
            supports_ts,
            supports_js,
        },
    )
}

/// The first registry entry whose key equals `key`, if any.
pub open spec fn spec_find_key(reg: Seq<FeatureDescriptor>, key: Seq<char>) -> Option<
    FeatureDescriptor,
>
    decreases reg.len(),
{
    if reg.len() == 0 {
        None
    } else if reg[0].key@ == key {
        Some(reg[0])
    } else {
        spec_find_key(reg.drop_first(), key)
    }
}

/// A descriptor supports a template kind and language pair when both
/// matrix entries are true.
pub open spec fn spec_supported(
    d: FeatureDescriptor,
    kind: TemplateKind,
    lang: Language,
) -> bool {
    &&& (if kind == TemplateKind::V3 {
        d.supports_v3
    } else {
        d.supports_v2
    })
    &&& (if lang == Language::Ts {
        d.supports_ts
    } else {
        d.supports_js
    })
}

/// Looks a feature key up: the first entry with that key wins, and the
/// match is kept only when its support matrix admits the job's template
/// kind and language.
pub fn match_feature<'a>(
    registry: &'a Vec<FeatureDescriptor>,
    key: &str,
    kind: TemplateKind,
    lang: Language,
) -> (r: Option<&'a FeatureDescriptor>)
    ensures
        match r {
            Some(d) => {
                &&& spec_find_key(registry@, key@) == Some(*d)
                &&& spec_supported(*d, kind, lang)
            },
            None => {
                spec_find_key(registry@, key@) is None || !spec_supported(
                    spec_find_key(registry@, key@).unwrap(),
                    kind,
                    lang,
                )
            },
        },
{
    let n = registry.len();
    let mut i: usize = 0;
    proof {
        assert(registry@.subrange(0, n as int) =~= registry@);
    }
    while i < n
        invariant
            i <= n,
            n == registry@.len(),
            spec_find_key(registry@, key@) == spec_find_key(
                registry@.subrange(i as int, n as int),
                key@,
            ),
        decreases n - i,
    {
        proof {
            assert(registry@.subrange(i as int, n as int).drop_first() =~= registry@.subrange(
                i + 1,
                n as int,
            ));
            assert(registry@.subrange(i as int, n as int)[0] == registry@[i as int]);
        }
        if str_eq(registry[i].key.as_str(), key) {
            let d = &registry[i];
            let kind_ok = if matches!(kind, TemplateKind::V3) {
                d.supports_v3
            } else {
                d.supports_v2
            };
            let lang_ok = if matches!(lang, Language::Ts) {
                d.supports_ts
            } else {
                d.supports_js
            };
            if kind_ok && lang_ok {
                return Some(d);
            }
            return None;
        }
        i += 1;
    }
    proof {
        assert(registry@.subrange(n as int, n as int) =~= Seq::<FeatureDescriptor>::empty());
    }
    None
}

/// The install text of one package of a descriptor: `name@version` when
/// a version is pinned for the template kind, the bare name otherwise.
pub open spec fn spec_pkg_text(name: Seq<char>, ver: Option<Seq<char>>) -> Seq<char> {
    match ver {
        Some(v) => name + "@"@ + v,
        None => name,
    }
}

/// The version a descriptor pins for a template kind, if any.
pub open spec fn spec_version_for(d: FeatureDescriptor, kind: TemplateKind) -> Option<
    Seq<char>,
> {
    if kind == TemplateKind::V3 {
        opt_str_view(d.version_v3)
    } else {
        opt_str_view(d.version_v2)
    }
}

/// The ordered install texts of a descriptor's packages.
pub open spec fn spec_package_texts(d: FeatureDescriptor, kind: TemplateKind) -> Seq<
    Seq<char>,
> {
    d.package_names.deep_view().map_values(|n: Seq<char>| spec_pkg_text(n, spec_version_for(d, kind)))
}

/// Resolves a descriptor's packages to install texts, pinning the
/// version the descriptor holds for the job's template kind.
pub fn resolve_package_specs(d: &FeatureDescriptor, kind: TemplateKind) -> (r: Vec<String>)
    ensures
        r.deep_view() == spec_package_texts(*d, kind),
{
    let ver: &Option<String> = if matches!(kind, TemplateKind::V3) {
        &d.version_v3
    } else {
        &d.version_v2
    };
    let mut out: Vec<String> = Vec::new();
    let n = d.package_names.len();
    let mut i: usize = 0;
    while i < n
        invariant
            i <= n,
            n == d.package_names@.len(),
            opt_str_view(*ver) == spec_version_for(*d, kind),
            out.deep_view() =~= d.package_names.deep_view().subrange(0, i as int).map_values(
                |nm: Seq<char>| spec_pkg_text(nm, spec_version_for(*d, kind)),
            ),
        decreases n - i,
    {
        let name = &d.package_names[i];
        let text: String = match ver {
            Some(v) => {
                let mut t = String::from_str(name.as_str());
                t.append("@");
                t.append(v.as_str());
                t
            },
            None => name.clone(),
        };
        out.push(text);
        proof {
            let f = |nm: Seq<char>| spec_pkg_text(nm, spec_version_for(*d, kind));
            assert(d.package_names.deep_view().subrange(0, i + 1).map_values(f)
                =~= d.package_names.deep_view().subrange(0, i as int).map_values(f).push(
                f(d.package_names.deep_view()[i as int]),
            ));
        }
        i += 1;
    }
    proof {
        assert(d.package_names.deep_view().subrange(0, n as int)
            =~= d.package_names.deep_view());
    }
    out
}

/// One planned package installation.
pub struct PackageAdd {
    pub pkg: String,
    pub dev: bool,
}

/// The contribution of one requested feature key to the install plan:
/// nothing for an unknown or unsupported key, else the feature's
/// install texts, each marked with the feature's dev flag.
pub open spec fn spec_feature_plan(
    reg: Seq<FeatureDescriptor>,
    key: Seq<char>,
    kind: TemplateKind,
    lang: Language,
) -> Seq<(Seq<char>, bool)> {
    match spec_find_key(reg, key) {
        None => Seq::empty(),
        Some(d) => if spec_supported(d, kind, lang) {
            spec_package_texts(d, kind).map_values(|t: Seq<char>| (t, d.is_dev_dependency))
        } else {
            Seq::empty()
        },
    }
}

/// The whole install plan: the features' contributions in request order.
pub open spec fn spec_install_plan(
    reg: Seq<FeatureDescriptor>,
    feats: Seq<Seq<char>>,
    kind: TemplateKind,
    lang: Language,
) -> Seq<(Seq<char>, bool)>
    decreases feats.len(),
{
    if feats.len() == 0 {
        Seq::empty()
    } else {
        spec_install_plan(reg, feats.drop_last(), kind, lang) + spec_feature_plan(
            reg,
            feats.last(),
            kind,
            lang,
        )
    }
}

/// Builds the ordered install plan for the requested features.
pub fn build_install_plan(
    registry: &Vec<FeatureDescriptor>,
    features: &Vec<String>,
    kind: TemplateKind,
    lang: Language,
) -> (r: Vec<PackageAdd>)
    ensures
        r@.len() == spec_install_plan(registry@, features.deep_view(), kind, lang).len(),
        forall|j: int|
            0 <= j < r@.len() ==> (#[trigger] r@[j].pkg@, r@[j].dev) == spec_install_plan(
                registry@,
                features.deep_view(),
                kind,
                lang,
            )[j],
{
    let mut out: Vec<PackageAdd> = Vec::new();
    let n = features.len();
    let mut i: usize = 0;
    while i < n
        invariant
            i <= n,
            n == features@.len(),
            out@.len() == spec_install_plan(
                registry@,
                features.deep_view().subrange(0, i as int),
                kind,
                lang,
            ).len(),
            forall|j: int|
                0 <= j < out@.len() ==> (#[trigger] out@[j].pkg@, out@[j].dev)
                    == spec_install_plan(
                    registry@,
                    features.deep_view().subrange(0, i as int),
                    kind,
                    lang,
                )[j],
        decreases n - i,
    {
        let ghost pre = features.deep_view().subrange(0, i as int);
        let ghost cur = features.deep_view().subrange(0, i + 1);
        proof {
            assert(cur.drop_last() =~= pre);
            assert(cur.last() == features.deep_view()[i as int]);
        }
        match match_feature(registry, features[i].as_str(), kind, lang) {
            Some(d) => {
                let texts = resolve_package_specs(d, kind);
                let dev = d.is_dev_dependency;
                let m = texts.len();
                let mut k: usize = 0;
                while k < m
                    invariant
                        k <= m,
                        m == texts@.len(),
                        out@.len() == spec_install_plan(registry@, pre, kind, lang).len()
                            + k as int,
                        forall|j: int|
                            0 <= j < spec_install_plan(registry@, pre, kind, lang).len()
                                ==> (#[trigger] out@[j].pkg@, out@[j].dev) == spec_install_plan(
                                registry@,
                                pre,
                                kind,
                                lang,
                            )[j],
                        forall|j: int|
                            spec_install_plan(registry@, pre, kind, lang).len() <= j < out@.len()
                                ==> (#[trigger] out@[j].pkg@, out@[j].dev) == (
                            texts.deep_view()[j - spec_install_plan(
                                registry@,
                                pre,
                                kind,
                                lang,
                            ).len()],
                            dev,
                            ),
                    decreases m - k,
                {
                    out.push(PackageAdd { pkg: texts[k].clone(), dev });
                    k += 1;
                }
                proof {
                    let fp = spec_feature_plan(registry@, cur.last(), kind, lang);
                    assert(fp =~= texts.deep_view().map_values(|t: Seq<char>| (t, dev)));
                    assert(out@.len() == spec_install_plan(registry@, cur, kind, lang).len());
                }
            },
            None => {
                proof {
                    assert(spec_feature_plan(registry@, cur.last(), kind, lang)
                        =~= Seq::<(Seq<char>, bool)>::empty());
                }
            },
        }
        proof {
            let full = spec_install_plan(registry@, cur, kind, lang);
            assert(full == spec_install_plan(registry@, pre, kind, lang) + spec_feature_plan(
                registry@,
                cur.last(),
                kind,
                lang,
            ));
            assert forall|j: int| 0 <= j < out@.len() implies (
                #[trigger] out@[j].pkg@,
                out@[j].dev,
            ) == full[j] by {
                if j < spec_install_plan(registry@, pre, kind, lang).len() {
                    assert(full[j] == spec_install_plan(registry@, pre, kind, lang)[j]);
                } else {
                    assert(full[j] == spec_feature_plan(registry@, cur.last(), kind, lang)[j
                        - spec_install_plan(registry@, pre, kind, lang).len()]);
                }
            }
        }
        i += 1;
    }
    proof {
        assert(features.deep_view().subrange(0, n as int) =~= features.deep_view());
    }
    out
}

/// One descriptor built from plain parts; the building block of the
/// seeded default registry.
fn descriptor(
    key: &str,
    label: &str,
    packages: Vec<String>,
    dev: bool,
    version_v2: Option<String>,
    version_v3: Option<String>,
    supports: (bool, bool, bool, bool),
) -> (r: FeatureDescriptor)
    ensures
        r.key@ == key@,
        r.label@ == label@,
        r.package_names == packages,
        r.is_dev_dependency == dev,
        r.version_v2 == version_v2,
        r.version_v3 == version_v3,
        r.supports_v2 == supports.0,
        r.supports_v3 == supports.1,
        r.supports_ts == supports.2,
        r.supports_js == supports.3,
{
    FeatureDescriptor {
        key: String::from_str(key),
        label: String::from_str(label),
        package_names: packages,
        is_dev_dependency: dev,
        version_v2,
        version_v3,
        supports_v2: supports.0,
        supports_v3: supports.1,
        supports_ts: supports.2,
        supports_js: supports.3,
    }
}

/// The hard-coded default feature set, persisted once when no registry
/// document exists yet.
pub fn default_registry() -> (r: Vec<FeatureDescriptor>)
    ensures
        r@.len() == 6,
        r@[0].key@ == "router"@ && r@[0].label@ == "vue-router"@
            && r@[0].package_names.deep_view() =~= seq!["vue-router"@]
            && !r@[0].is_dev_dependency && opt_str_view(r@[0].version_v2) == Some("^3.x"@)
            && opt_str_view(r@[0].version_v3) == Some("^4.6.3"@) && r@[0].supports_v2
            && r@[0].supports_v3 && r@[0].supports_ts && r@[0].supports_js,
        r@[1].key@ == "pinia"@ && r@[1].label@ == "pinia"@
            && r@[1].package_names.deep_view() =~= seq![
            "pinia"@,
            "pinia-plugin-persistedstate"@,
        ] && !r@[1].is_dev_dependency && r@[1].version_v2 is None && opt_str_view(
            r@[1].version_v3,
        ) == Some("^2.3.1"@) && r@[1].supports_v2 && r@[1].supports_v3 && r@[1].supports_ts
            && r@[1].supports_js,
        r@[2].key@ == "sass"@ && r@[2].label@ == "sass"@ && r@[2].package_names.deep_view()
            =~= seq!["sass"@, "sass-loader"@] && r@[2].is_dev_dependency && opt_str_view(
            r@[2].version_v2,
        ) == Some("^1.94.0"@) && opt_str_view(r@[2].version_v3) == Some("^1.94.0"@)
            && r@[2].supports_v2 && r@[2].supports_v3 && r@[2].supports_ts
            && r@[2].supports_js,
        r@[3].key@ == "naive-ui"@ && r@[3].label@ == "naive-ui"@
            && r@[3].package_names.deep_view() =~= seq!["naive-ui"@]
            && !r@[3].is_dev_dependency && r@[3].version_v2 is None && r@[3].version_v3 is None
            && !r@[3].supports_v2 && r@[3].supports_v3 && r@[3].supports_ts
            && !r@[3].supports_js,
        r@[4].key@ == "vfonts"@ && r@[4].label@ == "vfonts"@
            && r@[4].package_names.deep_view() =~= seq!["vfonts"@] && !r@[4].is_dev_dependency
            && r@[4].version_v2 is None && r@[4].version_v3 is None && r@[4].supports_v2
            && r@[4].supports_v3 && r@[4].supports_ts && r@[4].supports_js,
        r@[5].key@ == "xicons"@ && r@[5].label@ == "@vicons/ionicons5"@
            && r@[5].package_names.deep_view() =~= seq!["@vicons/ionicons5"@]
            && !r@[5].is_dev_dependency && r@[5].version_v2 is None && r@[5].version_v3 is None
            && r@[5].supports_v2 && r@[5].supports_v3 && r@[5].supports_ts
            && r@[5].supports_js,
{
    let mut r: Vec<FeatureDescriptor> = Vec::new();
    let mut p0: Vec<String> = Vec::new();
    p0.push(String::from_str("vue-router"));
    r.push(
        descriptor(
            "router",
            "vue-router",
            p0,
            false,
            Some(String::from_str("^3.x")),
            Some(String::from_str("^4.6.3")),
            (true, true, true, true),
        ),
    );
    let mut p1: Vec<String> = Vec::new();
    p1.push(String::from_str("pinia"));
    p1.push(String::from_str("pinia-plugin-persistedstate"));
    r.push(
        descriptor(
            "pinia",
            "pinia",
            p1,
            false,
            None,
            Some(String::from_str("^2.3.1")),
            (true, true, true, true),
        ),
    );
    let mut p2: Vec<String> = Vec::new();
    p2.push(String::from_str("sass"));
    p2.push(String::from_str("sass-loader"));
    r.push(
        descriptor(
            "sass",
            "sass",
            p2,
            true,
            Some(String::from_str("^1.94.0")),
            Some(String::from_str("^1.94.0")),
            (true, true, true, true),
        ),
    );
    let mut p3: Vec<String> = Vec::new();
    p3.push(String::from_str("naive-ui"));
    r.push(descriptor("naive-ui", "naive-ui", p3, false, None, None, (false, true, true, false)));
    let mut p4: Vec<String> = Vec::new();
    p4.push(String::from_str("vfonts"));
    r.push(descriptor("vfonts", "vfonts", p4, false, None, None, (true, true, true, true)));
    let mut p5: Vec<String> = Vec::new();
    p5.push(String::from_str("@vicons/ionicons5"));
    r.push(
        descriptor(
            "xicons",
            "@vicons/ionicons5",
            p5,
            false,
            None,
            None,
            (true, true, true, true),
        ),
    );
    r
}

/// A key occurs among a registry's entries.
pub open spec fn key_in_registry(reg: Seq<FeatureDescriptor>, key: Seq<char>) -> bool {
    exists|i: int| 0 <= i < reg.len() && reg[i].key@ == key
}

proof fn lemma_find_key_absent(reg: Seq<FeatureDescriptor>, key: Seq<char>)
    requires
        !key_in_registry(reg, key),
    ensures
        spec_find_key(reg, key) is None,
    decreases reg.len(),
{
    if reg.len() > 0 {
        assert(reg[0].key@ != key);
        assert forall|i: int|
            0 <= i < reg.drop_first().len() implies reg.drop_first()[i].key@ != key by {
            assert(reg.drop_first()[i] == reg[i + 1]);
        }
        lemma_find_key_absent(reg.drop_first(), key);
    }
}

/// Applying a feature key that no registry entry carries is a no-op:
/// it contributes no package installation at all.
pub proof fn lemma_unknown_feature_is_noop(
    reg: Seq<FeatureDescriptor>,
    key: Seq<char>,
    kind: TemplateKind,
    lang: Language,
)
    requires
        !key_in_registry(reg, key),
    ensures
        spec_feature_plan(reg, key, kind, lang) == Seq::<(Seq<char>, bool)>::empty(),
{
    lemma_find_key_absent(reg, key);
}

} // verus!
