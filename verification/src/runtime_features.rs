//! Which of the features that rustc reports matter at run time.
use crate::error::SonicError;
use crate::feature_mask::{self, feature_by_name, Feature, FeatureMask, ALL_FEATURES};
use crate::text::{self, str_eq};
use vstd::prelude::*;

verus! {

/// Whether rustc reports the feature for reasons that no host feature stands for.
pub open spec fn is_ignored(feature: Seq<char>) -> bool {
    ||| feature == "crt-static"@
    ||| feature == "ermsb"@
    ||| feature == "lahfsahf"@
    ||| feature == "prfchw"@
    ||| feature == "x87"@
}

/// Whether the crate knows a feature of that name.
pub open spec fn is_known(feature: Seq<char>) -> bool {
    exists|f: Feature| feature_mask::names(feature, f)
}

/// Whether rustc reports the feature for reasons that no host feature stands for.
pub fn is_ignored_rustc_feature(feature: &str) -> (r: bool)
    ensures
        r == is_ignored(feature@),
{
    str_eq(feature, "crt-static") || str_eq(feature, "ermsb") || str_eq(feature, "lahfsahf")
        || str_eq(feature, "prfchw") || str_eq(feature, "x87")
}

/// The features that matter at run time, split by whether the crate knows them.
#[derive(Debug)]
pub struct FeatureSet {
    pub known: Vec<String>,
    pub unknown: Vec<String>,
}

/// The features of a list that are not ignored and known, or unknown.
pub open spec fn runtime_features(features: Seq<Seq<char>>, known: bool) -> Seq<Seq<char>> {
    features.filter(|f: Seq<char>| !is_ignored(f) && is_known(f) == known)
}

/// Filtering one more element of a list.
pub proof fn filter_one_more(features: Seq<Seq<char>>, i: int, p: spec_fn(Seq<char>) -> bool)
    requires
        0 <= i < features.len(),
    ensures
        features.take(i + 1).filter(p) == (if p(features[i]) {
            features.take(i).filter(p).push(features[i])
        } else {
            features.take(i).filter(p)
        }),
{
    reveal(Seq::filter);
    assert(features.take(i + 1).drop_last() =~= features.take(i));
}

/// A filtered list holds what the list holds and the filter lets pass.
pub proof fn filter_holds(features: Seq<Seq<char>>, p: spec_fn(Seq<char>) -> bool, t: Seq<char>)
    ensures
        features.filter(p).contains(t) == (features.contains(t) && p(t)),
    decreases features.len(),
{
    reveal(Seq::filter);
    if features.len() > 0 {
        let shorter = features.drop_last();
        let last = features.last();
        let before = shorter.filter(p);
        filter_holds(shorter, p, t);
        if shorter.contains(t) {
            let k = choose|k: int| 0 <= k < shorter.len() && shorter[k] == t;
            assert(features[k] == t);
        }
        if t == last {
            assert(features[features.len() - 1] == t);
        } else if features.contains(t) {
            let k = choose|k: int| 0 <= k < features.len() && features[k] == t;
            assert(shorter[k] == t);
        }
        if p(last) {
            let after = before.push(last);
            if before.contains(t) {
                let k = choose|k: int| 0 <= k < before.len() && before[k] == t;
                assert(after[k] == t);
            }
            if t == last {
                assert(after[before.len() as int] == t);
            }
        }
    }
}

/// Splits the features that matter at run time by whether the crate knows them, and leaves
/// out the ignored ones.
pub fn classify_runtime_features(features: &[String]) -> (r: FeatureSet)
    ensures
        text::texts(r.known@) == runtime_features(text::texts(features@), true),
        text::texts(r.unknown@) == runtime_features(text::texts(features@), false),
{
    let ghost all = text::texts(features@);
    let mut known: Vec<String> = Vec::new();
    let mut unknown: Vec<String> = Vec::new();
    let mut i: usize = 0;
    proof {
        reveal(Seq::filter);
        assert(all.take(0) =~= Seq::<Seq<char>>::empty());
    }
    while i < features.len()
        invariant
            i <= features@.len(),
            all == text::texts(features@),
            text::texts(known@) == runtime_features(all.take(i as int), true),
            text::texts(unknown@) == runtime_features(all.take(i as int), false),
        decreases features@.len() - i,
    {
        let feature = features[i].as_str();
        let ghost was_known = text::texts(known@);
        let ghost was_unknown = text::texts(unknown@);
        proof {
            assert(all[i as int] == feature@);
            filter_one_more(all, i as int, |f: Seq<char>| !is_ignored(f) && is_known(f) == true);
            filter_one_more(all, i as int, |f: Seq<char>| !is_ignored(f) && is_known(f) == false);
        }
        if !is_ignored_rustc_feature(feature) {
            if feature_by_name(feature).is_some() {
                known.push(features[i].clone());
                assert(text::texts(known@) =~= was_known.push(feature@));
            } else {
                unknown.push(features[i].clone());
                assert(text::texts(unknown@) =~= was_unknown.push(feature@));
            }
        }
        i += 1;
    }
    assert(all.take(i as int) =~= all);
    FeatureSet { known, unknown }
}

/// The features that matter at run time and that the crate knows.
pub fn filter_runtime_features(features: &[String]) -> (r: Vec<String>)
    ensures
        text::texts(r@) == runtime_features(text::texts(features@), true),
{
    classify_runtime_features(features).known
}

/// Every feature on the known side is known.
pub proof fn known_side_is_known(features: Seq<Seq<char>>, i: int)
    requires
        0 <= i < runtime_features(features, true).len(),
    ensures
        is_known(runtime_features(features, true)[i]),
{
    let known = runtime_features(features, true);
    assert(known.contains(known[i]));
    filter_holds(features, |f: Seq<char>| !is_ignored(f) && is_known(f) == true, known[i]);
}

/// Every required feature of a list is in the list.
pub proof fn required_side_is_listed(features: Seq<Seq<char>>, i: int)
    requires
        0 <= i < required_features(features).len(),
    ensures
        features.contains(required_features(features)[i]),
{
    let required = required_features(features);
    assert(required.contains(required[i]));
    filter_holds(features, |f: Seq<char>| is_required(f), required[i]);
}

/// A feature that matters at run time is kept on exactly one side, as it stands in the
/// list.
pub proof fn features_are_split(features: Seq<Seq<char>>, feature: Seq<char>)
    ensures
        runtime_features(features, true).contains(feature) == (features.contains(feature)
            && !is_ignored(feature) && is_known(feature)),
        runtime_features(features, false).contains(feature) == (features.contains(feature)
            && !is_ignored(feature) && !is_known(feature)),
{
    filter_holds(features, |f: Seq<char>| !is_ignored(f) && is_known(f) == true, feature);
    filter_holds(features, |f: Seq<char>| !is_ignored(f) && is_known(f) == false, feature);
}

/// Whether one of the names stands for the feature.
pub open spec fn some_names(features: Seq<Seq<char>>, f: Feature) -> bool {
    exists|i: int| 0 <= i < features.len() && feature_mask::names(#[trigger] features[i], f)
}

/// Whether a mask holds the features that the names stand for, and nothing else.
pub open spec fn is_mask_of(mask: FeatureMask, features: Seq<Seq<char>>) -> bool {
    &&& forall|f: Feature| #[trigger] mask.has(f) == some_names(features, f)
    &&& forall|b: int| mask@.contains(b) ==> 0 <= b < ALL_FEATURES@.len()
}

/// Whether the name at position `i` is the first that stands for no feature.
pub open spec fn first_unknown(features: Seq<Seq<char>>, i: int) -> bool {
    &&& 0 <= i < features.len()
    &&& !is_known(features[i])
    &&& forall|j: int| 0 <= j < i ==> is_known(#[trigger] features[j])
}

/// The mask of the features that the names stand for. A name that stands for none is an
/// error.
pub fn feature_mask(features: &[String]) -> (r: Result<FeatureMask, SonicError>)
    ensures
        match r {
            Ok(mask) => (forall|i: int|
                0 <= i < features@.len() ==> is_known(#[trigger] text::texts(features@)[i]))
                && is_mask_of(mask, text::texts(features@)),
            Err(e) => exists|i: int| #[trigger]
                first_unknown(text::texts(features@), i) && (e matches
                    SonicError::UnsupportedFeature { feature } && feature@
                    == text::texts(features@)[i]),
        },
{
    let ghost all = text::texts(features@);
    let mut mask = FeatureMask::empty();
    let mut i: usize = 0;
    while i < features.len()
        invariant
            i <= features@.len(),
            all == text::texts(features@),
            forall|j: int| 0 <= j < i ==> is_known(#[trigger] all[j]),
            is_mask_of(mask, all.take(i as int)),
        decreases features@.len() - i,
    {
        let ghost before = mask;
        let name = features[i].as_str();
        assert(all[i as int] == name@);
        match feature_by_name(name) {
            Some(feature) => {
                mask.insert(feature);
                proof {
                    assert(is_known(all[i as int]));
                    assert forall|f: Feature| #[trigger]
                        mask.has(f) == some_names(all.take(i + 1), f) by {
                        assert(before.has(f) == some_names(all.take(i as int), f));
                        feature_mask::feature_bits(f, feature);
                        let longer = all.take(i + 1);
                        let shorter = all.take(i as int);
                        assert(longer[i as int] == name@);
                        if f == feature {
                            assert(feature_mask::names(longer[i as int], f));
                        }
                        if some_names(shorter, f) {
                            let j = choose|j: int|
                                0 <= j < shorter.len() && feature_mask::names(
                                    #[trigger] shorter[j],
                                    f,
                                );
                            assert(longer[j] == shorter[j]);
                        }
                        if some_names(longer, f) {
                            let j = choose|j: int|
                                0 <= j < longer.len() && feature_mask::names(#[trigger] longer[j], f);
                            if j < i {
                                assert(shorter[j] == longer[j]);
                            } else {
                                feature_mask::name_is_unambiguous(name@, f, feature);
                            }
                        }
                    }
                    feature_mask::feature_bits(feature, feature);
                }
            },
            None => {
                assert(first_unknown(all, i as int));
                return Err(SonicError::UnsupportedFeature { feature: name.to_owned() });
            },
        }
        i += 1;
    }
    assert(all.take(i as int) =~= all);
    Ok(mask)
}

/// Whether code that was compiled for the feature must not run without it. The others are
/// hints, or registers for monitoring, profiling and random numbers, which firmware,
/// kernels and hypervisors may hide.
pub open spec fn is_required(feature: Seq<char>) -> bool {
    !{
        ||| feature == "bti"@
        ||| feature == "dit"@
        ||| feature == "lor"@
        ||| feature == "mte"@
        ||| feature == "paca"@
        ||| feature == "pacg"@
        ||| feature == "pan"@
        ||| feature == "pmuv3"@
        ||| feature == "rand"@
        ||| feature == "ras"@
        ||| feature == "rdrand"@
        ||| feature == "rdseed"@
        ||| feature == "sb"@
        ||| feature == "spe"@
        ||| feature == "ssbs"@
        ||| feature == "vh"@
    }
}

/// Whether code that was compiled for the feature must not run without it.
pub fn is_safety_required_feature(feature: &str) -> (r: bool)
    ensures
        r == is_required(feature@),
{
    !(str_eq(feature, "bti") || str_eq(feature, "dit") || str_eq(feature, "lor") || str_eq(
        feature,
        "mte",
    ) || str_eq(feature, "paca") || str_eq(feature, "pacg") || str_eq(feature, "pan") || str_eq(
        feature,
        "pmuv3",
    ) || str_eq(feature, "rand") || str_eq(feature, "ras") || str_eq(feature, "rdrand") || str_eq(
        feature,
        "rdseed",
    ) || str_eq(feature, "sb") || str_eq(feature, "spe") || str_eq(feature, "ssbs") || str_eq(
        feature,
        "vh",
    ))
}

/// The features of a list without which code that was compiled for them must not run.
pub open spec fn required_features(features: Seq<Seq<char>>) -> Seq<Seq<char>> {
    features.filter(|f: Seq<char>| is_required(f))
}

/// The features of a list without which code that was compiled for them must not run.
pub fn safety_required_features(features: &[String]) -> (r: Vec<String>)
    ensures
        text::texts(r@) == required_features(text::texts(features@)),
{
    let ghost all = text::texts(features@);
    let mut out: Vec<String> = Vec::new();
    let mut i: usize = 0;
    proof {
        reveal(Seq::filter);
        assert(all.take(0) =~= Seq::<Seq<char>>::empty());
    }
    while i < features.len()
        invariant
            i <= features@.len(),
            all == text::texts(features@),
            text::texts(out@) == required_features(all.take(i as int)),
        decreases features@.len() - i,
    {
        let ghost before = text::texts(out@);
        proof {
            assert(all[i as int] == features@[i as int]@);
            filter_one_more(all, i as int, |f: Seq<char>| is_required(f));
        }
        if is_safety_required_feature(features[i].as_str()) {
            out.push(features[i].clone());
            assert(text::texts(out@) =~= before.push(all[i as int]));
        }
        i += 1;
    }
    assert(all.take(i as int) =~= all);
    out
}

/// The required features of a payload are among the features that it makes use of.
pub proof fn required_is_part_of_rank(
    features: Seq<Seq<char>>,
    rank: FeatureMask,
    required: FeatureMask,
)
    requires
        is_mask_of(rank, features),
        is_mask_of(required, required_features(features)),
    ensures
        required@.subset_of(rank@),
{
    assert forall|b: int| required@.contains(b) implies rank@.contains(b) by {
        let f = ALL_FEATURES@[b];
        feature_mask::feature_bits(f, f);
        assert(f as int == b);
        assert(required.has(f));
        let sub = required_features(features);
        let i = choose|i: int| 0 <= i < sub.len() && feature_mask::names(#[trigger] sub[i], f);
        assert(sub.contains(sub[i]));
        filter_holds(features, |f: Seq<char>| is_required(f), sub[i]);
        assert(features.contains(sub[i]));
        let j = choose|j: int| 0 <= j < features.len() && features[j] == sub[i];
        assert(feature_mask::names(features[j], f));
        assert(rank.has(f));
    }
}

// ---------------------------------------------------------------------------
// What may be missing at run time

/// Whether a name is required goes by the feature that it stands for.
pub(crate) proof fn required_goes_by_feature(name: Seq<char>, feature: Feature)
    requires
        feature_mask::names(name, feature),
    ensures
        !is_required(name) <==> {
            ||| feature == Feature::Bti
            ||| feature == Feature::Dit
            ||| feature == Feature::Lor
            ||| feature == Feature::Mte
            ||| feature == Feature::Paca
            ||| feature == Feature::Pacg
            ||| feature == Feature::Pan
            ||| feature == Feature::Pmuv3
            ||| feature == Feature::Rand
            ||| feature == Feature::Ras
            ||| feature == Feature::Rdrand
            ||| feature == Feature::Rdseed
            ||| feature == Feature::Sb
            ||| feature == Feature::Spe
            ||| feature == Feature::Ssbs
            ||| feature == Feature::Vh
        },
{
    if name == "bti"@ {
        feature_mask::name_is_unambiguous(name, feature, Feature::Bti);
    }
    if name == "dit"@ {
        feature_mask::name_is_unambiguous(name, feature, Feature::Dit);
    }
    if name == "lor"@ {
        feature_mask::name_is_unambiguous(name, feature, Feature::Lor);
    }
    if name == "mte"@ {
        feature_mask::name_is_unambiguous(name, feature, Feature::Mte);
    }
    if name == "paca"@ {
        feature_mask::name_is_unambiguous(name, feature, Feature::Paca);
    }
    if name == "pacg"@ {
        feature_mask::name_is_unambiguous(name, feature, Feature::Pacg);
    }
    if name == "pan"@ {
        feature_mask::name_is_unambiguous(name, feature, Feature::Pan);
    }
    if name == "pmuv3"@ {
        feature_mask::name_is_unambiguous(name, feature, Feature::Pmuv3);
    }
    if name == "rand"@ {
        feature_mask::name_is_unambiguous(name, feature, Feature::Rand);
    }
    if name == "ras"@ {
        feature_mask::name_is_unambiguous(name, feature, Feature::Ras);
    }
    if name == "rdrand"@ {
        feature_mask::name_is_unambiguous(name, feature, Feature::Rdrand);
    }
    if name == "rdseed"@ {
        feature_mask::name_is_unambiguous(name, feature, Feature::Rdseed);
    }
    if name == "sb"@ {
        feature_mask::name_is_unambiguous(name, feature, Feature::Sb);
    }
    if name == "spe"@ {
        feature_mask::name_is_unambiguous(name, feature, Feature::Spe);
    }
    if name == "ssbs"@ {
        feature_mask::name_is_unambiguous(name, feature, Feature::Ssbs);
    }
    if name == "vh"@ {
        feature_mask::name_is_unambiguous(name, feature, Feature::Vh);
    }
}

/// A feature may be missing at run time only if it is one of sixteen: for control flow, data
/// timing, memory tags, signed pointers, privileged access, profiling, errors, random numbers,
/// speculation and virtualization. Every other feature, known or not, is required.
pub proof fn only_hints_may_be_missing(name: &str, feature: Feature, r: bool)
    requires
        call_ensures(is_safety_required_feature, (name,), r),
        feature_mask::names(name@, feature),
    ensures
        !r <==> {
            ||| feature == Feature::Bti
            ||| feature == Feature::Dit
            ||| feature == Feature::Lor
            ||| feature == Feature::Mte
            ||| feature == Feature::Paca
            ||| feature == Feature::Pacg
            ||| feature == Feature::Pan
            ||| feature == Feature::Pmuv3
            ||| feature == Feature::Rand
            ||| feature == Feature::Ras
            ||| feature == Feature::Rdrand
            ||| feature == Feature::Rdseed
            ||| feature == Feature::Sb
            ||| feature == Feature::Spe
            ||| feature == Feature::Ssbs
            ||| feature == Feature::Vh
        },
{
    required_goes_by_feature(name@, feature);
}

/// A name that stands for no feature counts as required.
pub proof fn strangers_are_required(name: &str, r: bool)
    requires
        call_ensures(is_safety_required_feature, (name,), r),
        forall|f: Feature| !feature_mask::names(name@, f),
    ensures
        r,
{
    assert(!feature_mask::names(name@, Feature::Bti));
    assert(!feature_mask::names(name@, Feature::Dit));
    assert(!feature_mask::names(name@, Feature::Lor));
    assert(!feature_mask::names(name@, Feature::Mte));
    assert(!feature_mask::names(name@, Feature::Paca));
    assert(!feature_mask::names(name@, Feature::Pacg));
    assert(!feature_mask::names(name@, Feature::Pan));
    assert(!feature_mask::names(name@, Feature::Pmuv3));
    assert(!feature_mask::names(name@, Feature::Rand));
    assert(!feature_mask::names(name@, Feature::Ras));
    assert(!feature_mask::names(name@, Feature::Rdrand));
    assert(!feature_mask::names(name@, Feature::Rdseed));
    assert(!feature_mask::names(name@, Feature::Sb));
    assert(!feature_mask::names(name@, Feature::Spe));
    assert(!feature_mask::names(name@, Feature::Ssbs));
    assert(!feature_mask::names(name@, Feature::Vh));
}

/// The required features of a list are those of its names that do not stand for one of the
/// sixteen features that may be missing.
pub proof fn required_names_are_the_rest(
    features: &[String],
    out: Vec<String>,
    name: Seq<char>,
    feature: Feature,
)
    requires
        call_ensures(safety_required_features, (features,), out),
        feature_mask::names(name, feature),
    ensures
        text::texts(out@).contains(name) <==> text::texts(features@).contains(name) && !{
            ||| feature == Feature::Bti
            ||| feature == Feature::Dit
            ||| feature == Feature::Lor
            ||| feature == Feature::Mte
            ||| feature == Feature::Paca
            ||| feature == Feature::Pacg
            ||| feature == Feature::Pan
            ||| feature == Feature::Pmuv3
            ||| feature == Feature::Rand
            ||| feature == Feature::Ras
            ||| feature == Feature::Rdrand
            ||| feature == Feature::Rdseed
            ||| feature == Feature::Sb
            ||| feature == Feature::Spe
            ||| feature == Feature::Ssbs
            ||| feature == Feature::Vh
        },
{
    required_goes_by_feature(name, feature);
    filter_holds(text::texts(features@), |f: Seq<char>| is_required(f), name);
}

/// What is ignored is one of five names, and none of them stands for a feature: no feature
/// that a host may lack is ever ignored.
pub proof fn no_known_feature_is_ignored(name: &str, r: bool)
    requires
        call_ensures(is_ignored_rustc_feature, (name,), r),
    ensures
        r ==> forall|f: Feature| !feature_mask::names(name@, f),
        r <==> {
            ||| name@ == "x87"@
            ||| name@ == "prfchw"@
            ||| name@ == "lahfsahf"@
            ||| name@ == "ermsb"@
            ||| name@ == "crt-static"@
        },
{
    if r {
        ignored_is_not_known(name@);
    }
}

/// No ignored name stands for a feature.
pub proof fn ignored_is_not_known(name: Seq<char>)
    requires
        is_ignored(name),
    ensures
        forall|f: Feature| !feature_mask::names(name, f),
{
    assert forall|f: Feature| !feature_mask::names(name, f) by {
        feature_mask::ignored_names_are_free(name, f);
    }
}

/// Whatever a mask is made of, it holds a feature if and only if one of the names stands for
/// it.
pub proof fn masks_hold_what_is_named(
    features: &[String],
    r: Result<FeatureMask, SonicError>,
    feature: Feature,
)
    requires
        call_ensures(feature_mask, (features,), r),
    ensures
        r matches Ok(mask) ==> (mask.has(feature) <==> exists|i: int|
            0 <= i < features@.len() && feature_mask::names((#[trigger] features@[i])@, feature)),
        r is Err <==> exists|i: int|
            0 <= i < features@.len() && !is_known((#[trigger] features@[i])@),
{
    let all = text::texts(features@);
    assert forall|i: int| 0 <= i < all.len() implies #[trigger] all[i] == features@[i]@ by {}
    match r {
        Ok(mask) => {
            assert(mask.has(feature) == some_names(all, feature));
            if some_names(all, feature) {
                let i = choose|i: int| 0 <= i < all.len() && feature_mask::names(#[trigger] all[i], feature);
                assert(feature_mask::names(features@[i]@, feature));
            }
            if exists|i: int|
                0 <= i < features@.len() && feature_mask::names((#[trigger] features@[i])@, feature) {
                let i = choose|i: int|
                    0 <= i < features@.len() && feature_mask::names(
                        (#[trigger] features@[i])@,
                        feature,
                    );
                assert(feature_mask::names(all[i], feature));
            }
            let args = (features,);
            assert forall|i: int| 0 <= i < features@.len() implies is_known(
                (#[trigger] features@[i])@,
            ) by {
                assert(is_known(text::texts(args.0@)[i]));
            }
        },
        Err(e) => {
            let args = (features,);
            let at = choose|at: int| #[trigger]
                first_unknown(text::texts(args.0@), at) && (e matches
                    SonicError::UnsupportedFeature { feature } && feature@ == text::texts(args.0@)[at]);
            assert(!is_known(features@[at]@));
        },
    }
}

} // verus!
