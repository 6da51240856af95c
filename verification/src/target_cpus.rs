//! Which target CPUs a build is for.
use crate::error::SonicError;
use crate::text::{self, list_contains, str_eq};
use vstd::prelude::*;

verus! {

/// The target CPUs that were asked for; there must be at least one.
pub fn effective_target_cpus(target_cpus: Vec<String>) -> (r: Result<Vec<String>, SonicError>)
    ensures
        if target_cpus@.len() == 0 {
            r matches Err(e) && e is NoTargetCpus
        } else {
            r matches Ok(cpus) && cpus@ == target_cpus@
        },
{
    if target_cpus.len() == 0 {
        return Err(SonicError::NoTargetCpus);
    }
    Ok(target_cpus)
}

/// The target CPU that every processor of the architecture can run.
pub open spec fn baseline(target_arch: Seq<char>) -> Seq<char> {
    if target_arch == "x86_64"@ {
        "x86-64"@
    } else {
        "generic"@
    }
}

/// The target CPU that every processor of the architecture can run.
pub fn baseline_target_cpu(target_arch: &str) -> (r: &'static str)
    ensures
        r@ == baseline(target_arch@),
{
    if str_eq(target_arch, "x86_64") {
        "x86-64"
    } else {
        "generic"
    }
}

/// The target CPUs to build for: the baseline, and the ones that were asked for. Asking
/// for `native` or for the baseline itself is an error.
pub fn normalize_target_cpus(cpus: Vec<String>, target_arch: &str) -> (r: Result<
    Vec<String>,
    SonicError,
>)
    ensures
        if text::texts(cpus@).contains("native"@) {
            r matches Err(e) && e is NativeRejected
        } else if text::texts(cpus@).contains(baseline(target_arch@)) {
            r matches Err(SonicError::BaselineIsImplicit { cpu }) && cpu@ == baseline(target_arch@)
        } else {
            r matches Ok(all) && text::texts(all@) == seq![baseline(target_arch@)] + text::texts(
                cpus@,
            )
        },
{
    let base = baseline_target_cpu(target_arch);
    if list_contains(&cpus, "native") {
        return Err(SonicError::NativeRejected);
    }
    if list_contains(&cpus, base) {
        return Err(SonicError::BaselineIsImplicit { cpu: base.to_owned() });
    }
    let mut all = cpus;
    all.insert(0, base.to_owned());
    assert(text::texts(all@) =~= seq![baseline(target_arch@)] + text::texts(cpus@));
    Ok(all)
}

/// Whether a target CPU is valid for the current target.
pub open spec fn accepted(cpu: Seq<char>, current_valid: Seq<Seq<char>>) -> bool {
    cpu == "generic"@ || (cpu != "native"@ && current_valid.contains(cpu))
}

/// Whether no target knows the target CPU.
pub open spec fn is_unknown(
    cpu: Seq<char>,
    current_valid: Seq<Seq<char>>,
    known_union: Seq<Seq<char>>,
) -> bool {
    cpu != "generic"@ && cpu != "native"@ && !current_valid.contains(cpu) && !known_union.contains(
        cpu,
    )
}

/// The accepted target CPUs of a list, each at its first place.
pub open spec fn kept(configured: Seq<Seq<char>>, current_valid: Seq<Seq<char>>) -> Seq<Seq<char>>
    decreases configured.len(),
{
    if configured.len() == 0 {
        Seq::empty()
    } else {
        let before = kept(configured.drop_last(), current_valid);
        if accepted(configured.last(), current_valid) && !before.contains(configured.last()) {
            before.push(configured.last())
        } else {
            before
        }
    }
}

/// Whether the target CPU at position `i` is the first one that is rejected.
pub open spec fn first_rejected(
    configured: Seq<Seq<char>>,
    current_valid: Seq<Seq<char>>,
    known_union: Seq<Seq<char>>,
    i: int,
) -> bool {
    &&& 0 <= i < configured.len()
    &&& configured[i] == "native"@ || is_unknown(configured[i], current_valid, known_union)
    &&& forall|j: int|
        0 <= j < i ==> #[trigger] configured[j] != "native"@ && !is_unknown(
            configured[j],
            current_valid,
            known_union,
        )
}

/// The target CPUs of `configured` that are valid for the current target, each once.
/// One that only another target knows is left out; `native`, and one that no target knows,
/// is an error.
pub fn filter_target_cpus(
    configured: &[String],
    current_valid: &[String],
    known_union: &[String],
) -> (r: Result<Vec<String>, SonicError>)
    ensures
        ({
            let names = text::texts(configured@);
            let current = text::texts(current_valid@);
            let union = text::texts(known_union@);
            match r {
                Ok(cpus) => {
                    &&& forall|i: int| !first_rejected(names, current, union, i)
                    &&& text::texts(cpus@) == kept(names, current)
                },
                Err(e) => exists|i: int| #[trigger]
                    first_rejected(names, current, union, i) && (if names[i] == "native"@ {
                        e is NativeFiltered
                    } else {
                        e matches SonicError::UnknownTargetCpu { cpu } && cpu@ == names[i]
                    }),
            }
        }),
{
    let ghost names = text::texts(configured@);
    let ghost current = text::texts(current_valid@);
    let ghost union = text::texts(known_union@);
    let mut out: Vec<String> = Vec::new();
    let mut i: usize = 0;
    assert(names.take(0) =~= Seq::<Seq<char>>::empty());
    while i < configured.len()
        invariant
            i <= configured@.len(),
            names == text::texts(configured@),
            current == text::texts(current_valid@),
            union == text::texts(known_union@),
            text::texts(out@) == kept(names.take(i as int), current),
            forall|j: int|
                0 <= j < i ==> #[trigger] names[j] != "native"@ && !is_unknown(
                    names[j],
                    current,
                    union,
                ),
        decreases configured@.len() - i,
    {
        let cpu = configured[i].as_str();
        assert(names[i as int] == cpu@);
        assert(names.take(i + 1).drop_last() =~= names.take(i as int));
        let accept = if str_eq(cpu, "generic") {
            true
        } else if str_eq(cpu, "native") {
            proof {
                reveal_strlit("generic");
                reveal_strlit("native");
                assert(first_rejected(names, current, union, i as int));
            }
            return Err(SonicError::NativeFiltered);
        } else if list_contains(current_valid, cpu) {
            true
        } else if list_contains(known_union, cpu) {
            false
        } else {
            assert(first_rejected(names, current, union, i as int));
            return Err(SonicError::UnknownTargetCpu { cpu: cpu.to_owned() });
        };
        proof {
            reveal_strlit("generic");
            reveal_strlit("native");
            assert("generic"@.len() != "native"@.len());
        }
        if accept && !list_contains(&out, cpu) {
            let ghost before = text::texts(out@);
            out.push(configured[i].clone());
            assert(text::texts(out@) =~= before.push(cpu@));
        }
        i += 1;
    }
    assert(names.take(i as int) =~= names);
    Ok(out)
}

/// What is kept holds no target CPU twice, and only accepted ones of the list; every
/// accepted one of the list is kept.
pub proof fn kept_is_a_set(configured: Seq<Seq<char>>, current_valid: Seq<Seq<char>>)
    ensures
        kept(configured, current_valid).no_duplicates(),
        forall|t: Seq<char>| #[trigger]
            kept(configured, current_valid).contains(t) == (configured.contains(t) && accepted(
                t,
                current_valid,
            )),
    decreases configured.len(),
{
    if configured.len() > 0 {
        let shorter = configured.drop_last();
        let last = configured.last();
        let before = kept(shorter, current_valid);
        kept_is_a_set(shorter, current_valid);
        assert forall|t: Seq<char>| #[trigger] configured.contains(t) == (shorter.contains(t) || t == last) by {
            if shorter.contains(t) {
                let k = choose|k: int| 0 <= k < shorter.len() && shorter[k] == t;
                assert(configured[k] == t);
            }
            if configured.contains(t) {
                let k = choose|k: int| 0 <= k < configured.len() && configured[k] == t;
                if k < shorter.len() {
                    assert(shorter[k] == t);
                }
            }
            if t == last {
                assert(configured[configured.len() - 1] == t);
            }
        }
        let after = kept(configured, current_valid);
        assert forall|t: Seq<char>| #[trigger]
            after.contains(t) == (configured.contains(t) && accepted(t, current_valid)) by {
            assert(before.contains(t) == (shorter.contains(t) && accepted(t, current_valid)));
            if accepted(last, current_valid) && !before.contains(last) {
                if before.contains(t) {
                    let k = choose|k: int| 0 <= k < before.len() && before[k] == t;
                    assert(after[k] == t);
                }
                if t == last {
                    assert(after[before.len() as int] == t);
                }
            }
        }
    }
}

/// Where the baseline comes first in the list, it comes first in what is kept.
pub proof fn baseline_stays_first(configured: Seq<Seq<char>>, current_valid: Seq<Seq<char>>)
    requires
        configured.len() > 0,
        accepted(configured[0], current_valid),
    ensures
        kept(configured, current_valid).len() > 0,
        kept(configured, current_valid)[0] == configured[0],
    decreases configured.len(),
{
    if configured.len() > 1 {
        baseline_stays_first(configured.drop_last(), current_valid);
    } else {
        assert(configured.drop_last() =~= Seq::<Seq<char>>::empty());
        assert(kept(configured.drop_last(), current_valid).len() == 0);
    }
}

/// The baseline of x86-64 is `x86-64`, that of every other architecture `generic`.
pub proof fn baselines_have_these_names(arch: &str, r: &'static str)
    requires
        call_ensures(baseline_target_cpu, (arch,), r),
    ensures
        arch@ == "x86_64"@ ==> r@ == "x86-64"@,
        arch@ != "x86_64"@ ==> r@ == "generic"@,
{
}

/// A request is completed by the baseline in front, and rejected if and only if it names
/// `native` or the baseline itself.
pub proof fn requests_get_the_baseline(
    cpus: Vec<String>,
    arch: &str,
    base: &'static str,
    r: Result<Vec<String>, SonicError>,
)
    requires
        call_ensures(baseline_target_cpu, (arch,), base),
        call_ensures(normalize_target_cpus, (cpus, arch), r),
    ensures
        r is Err <==> text::texts(cpus@).contains("native"@) || text::texts(cpus@).contains(base@),
        r matches Ok(all) ==> all@.len() == cpus@.len() + 1 && all@[0]@ == base@ && text::texts(
            all@,
        ).drop_first() == text::texts(cpus@),
{
    if let Ok(all) = r {
        assert(text::texts(all@).len() == all@.len());
        assert(text::texts(all@)[0] == all@[0]@);
        assert(text::texts(all@).drop_first() =~= text::texts(cpus@));
    }
}

/// Of the target CPUs that are configured, those stay that the target knows, each once, and
/// `generic`, which every target knows. One that only another target knows is left out. Naming
/// `native`, or one that nobody knows, is an error.
pub proof fn only_known_cpus_stay(
    configured: &[String],
    current: &[String],
    union: &[String],
    cpu: Seq<char>,
    r: Result<Vec<String>, SonicError>,
)
    requires
        call_ensures(filter_target_cpus, (configured, current, union), r),
        text::texts(configured@).contains(cpu),
    ensures
        cpu == "native"@ ==> r is Err,
        cpu != "generic"@ && !text::texts(current@).contains(cpu) && !text::texts(union@).contains(
            cpu,
        ) ==> r is Err,
        r matches Ok(kept) ==> {
            &&& text::texts(kept@).contains(cpu) <==> cpu == "generic"@ || text::texts(
                current@,
            ).contains(cpu)
            &&& text::texts(kept@).no_duplicates()
            &&& forall|t: Seq<char>|
                text::texts(kept@).contains(t) ==> #[trigger] text::texts(configured@).contains(t)
        },
{
    reveal_strlit("generic");
    reveal_strlit("native");
    assert("generic"@.len() != "native"@.len());
    let args = (configured, current, union);
    let names = text::texts(args.0@);
    let valid = text::texts(args.1@);
    let known = text::texts(args.2@);
    let i = choose|i: int| 0 <= i < names.len() && names[i] == cpu;
    if let Ok(kept) = r {
        kept_is_a_set(names, valid);
        if cpu == "native"@ || is_unknown(cpu, valid, known) {
            some_is_first(names, valid, known, i);
            let k = choose|k: int| first_rejected(names, valid, known, k);
            assert(!first_rejected(names, valid, known, k));
        }
    }
}

proof fn some_is_first(names: Seq<Seq<char>>, valid: Seq<Seq<char>>, known: Seq<Seq<char>>, i: int)
    requires
        0 <= i < names.len(),
        names[i] == "native"@ || is_unknown(names[i], valid, known),
    ensures
        exists|k: int| first_rejected(names, valid, known, k),
    decreases i,
{
    if exists|j: int|
        0 <= j < i && (#[trigger] names[j] == "native"@ || is_unknown(names[j], valid, known)) {
        let j = choose|j: int|
            0 <= j < i && (#[trigger] names[j] == "native"@ || is_unknown(names[j], valid, known));
        some_is_first(names, valid, known, j);
    } else {
        assert(first_rejected(names, valid, known, i));
    }
}

} // verus!
