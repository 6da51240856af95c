//! What rustc prints about its targets.
use crate::error::SonicError;
use crate::sorted::{self, add_text};
use crate::text::{
    self, split_lines, split_whitespace, starts_with, strip_both, strip_prefix, trim_start,
};
use vstd::prelude::*;
use vstd::string::StringExecFns;

verus! {

/// What stands between `prefix` and `suffix` in the first line that consists of the three.
pub open spec fn first_between(
    lines: Seq<Seq<char>>,
    prefix: Seq<char>,
    suffix: Seq<char>,
) -> Option<Seq<char>>
    decreases lines.len(),
{
    if lines.len() == 0 {
        None
    } else if text::between(lines[0], prefix, suffix) is Some {
        text::between(lines[0], prefix, suffix)
    } else {
        first_between(lines.drop_first(), prefix, suffix)
    }
}

/// The value that `rustc --print cfg` gives for a key.
pub open spec fn value_of(cfg: Seq<char>, key: Seq<char>) -> Option<Seq<char>> {
    first_between(text::lines(cfg), key + "=\""@, "\""@)
}

/// The value that `rustc --print cfg` gives for a key.
pub fn cfg_value(cfg: &str, key: &str) -> (r: Option<String>)
    ensures
        text::opt(r) == value_of(cfg@, key@),
{
    let lines = split_lines(cfg);
    let mut prefix = key.to_owned();
    prefix.append("=\"");
    let ghost all = text::texts(lines@);
    let mut i: usize = 0;
    assert(all.skip(0) == all);
    while i < lines.len()
        invariant
            i <= lines@.len(),
            all == text::texts(lines@),
            all == text::lines(cfg@),
            prefix@ == key@ + "=\""@,
            first_between(all, prefix@, "\""@) == first_between(
                all.skip(i as int),
                prefix@,
                "\""@,
            ),
        decreases lines@.len() - i,
    {
        assert(all.skip(i as int)[0] == lines@[i as int]@);
        assert(all.skip(i as int).drop_first() == all.skip(i + 1));
        let value = strip_both(lines[i].as_str(), prefix.as_str(), "\"");
        if value.is_some() {
            return value;
        }
        i += 1;
    }
    None
}

/// Whether `rustc --print cfg` says that the target has the feature.
pub open spec fn states_feature(cfg: Seq<char>, feature: Seq<char>) -> bool {
    exists|i: int|
        0 <= i < text::lines(cfg).len() && text::between(
            #[trigger] text::lines(cfg)[i],
            "target_feature=\""@,
            "\""@,
        ) == Some(feature)
}

/// Whether the list holds the features that `rustc --print cfg` states, sorted, each once.
pub open spec fn is_feature_list(cfg: Seq<char>, list: Seq<Seq<char>>) -> bool {
    &&& sorted::ascending(list)
    &&& forall|t: Seq<char>| #[trigger] list.contains(t) == states_feature(cfg, t)
}

/// The features that `rustc --print cfg` states, sorted, each once.
pub open spec fn stated_features(cfg: Seq<char>) -> Seq<Seq<char>> {
    choose|list: Seq<Seq<char>>| #[trigger] is_feature_list(cfg, list)
}

/// The features that `rustc --print cfg` says the target has, sorted, each once.
pub fn parse_target_features_from_rustc_cfg(cfg: &str) -> (r: Vec<String>)
    ensures
        is_feature_list(cfg@, text::texts(r@)),
        text::texts(r@) == stated_features(cfg@),
{
    let lines = split_lines(cfg);
    let ghost all = text::texts(lines@);
    let ghost stated = |n: int, t: Seq<char>|
        exists|i: int|
            0 <= i < n && text::between(#[trigger] all[i], "target_feature=\""@, "\""@) == Some(t);
    let mut out: Vec<String> = Vec::new();
    let mut i: usize = 0;
    while i < lines.len()
        invariant
            i <= lines@.len(),
            all == text::texts(lines@),
            stated == (|n: int, t: Seq<char>|
                exists|i: int|
                    0 <= i < n && text::between(#[trigger] all[i], "target_feature=\""@, "\""@)
                        == Some(t)),
            sorted::ascending(text::texts(out@)),
            forall|t: Seq<char>| #[trigger] text::texts(out@).contains(t) == stated(i as int, t),
        decreases lines@.len() - i,
    {
        let ghost before = text::texts(out@);
        let feature = strip_both(lines[i].as_str(), "target_feature=\"", "\"");
        let ghost found = text::opt(feature);
        assert(all[i as int] == lines@[i as int]@);
        if let Some(feature) = feature {
            add_text(&mut out, feature);
        }
        assert forall|t: Seq<char>| #[trigger] text::texts(out@).contains(t) == stated(i + 1, t) by {
            assert(before.contains(t) == stated(i as int, t));
            assert(text::texts(out@).contains(t) == (before.contains(t) || found == Some(t)));
            assert(text::between(all[i as int], "target_feature=\""@, "\""@) == found);
        }
        i += 1;
    }
    proof {
        assert(is_feature_list(cfg@, text::texts(out@)));
        let chosen = stated_features(cfg@);
        assert(is_feature_list(cfg@, chosen));
        assert forall|t: Seq<char>| text::texts(out@).contains(t) == chosen.contains(t) by {
            assert(chosen.contains(t) == states_feature(cfg@, t));
        }
        sorted::ascending_is_determined(text::texts(out@), chosen);
    }
    out
}

/// The target CPU that a line of `rustc --print target-cpus` names: its first word, unless
/// the line is the heading.
pub open spec fn cpu_of_line(line: Seq<char>) -> Option<Seq<char>> {
    if text::has_prefix(text::trimmed_start(line), "Available CPUs"@) || text::words(line).len()
        == 0 {
        None
    } else {
        Some(text::words(line)[0])
    }
}

/// Whether `rustc --print target-cpus` lists the target CPU. `generic` always counts as
/// listed.
pub open spec fn lists_cpu(output: Seq<char>, cpu: Seq<char>) -> bool {
    cpu == "generic"@ || exists|i: int|
        0 <= i < text::lines(output).len() && cpu_of_line(#[trigger] text::lines(output)[i]) == Some(
            cpu,
        )
}

/// Whether the list holds the target CPUs that the output of `rustc --print target-cpus`
/// lists, sorted, each once.
pub open spec fn is_cpu_list(output: Seq<char>, list: Seq<Seq<char>>) -> bool {
    &&& sorted::ascending(list)
    &&& forall|t: Seq<char>| #[trigger] list.contains(t) == lists_cpu(output, t)
}

/// The target CPUs that `rustc --print target-cpus` lists, sorted, each once.
pub fn parse_rustc_target_cpus(output: &str) -> (r: Vec<String>)
    ensures
        is_cpu_list(output@, text::texts(r@)),
{
    let lines = split_lines(output);
    let ghost all = text::texts(lines@);
    let ghost listed = |n: int, t: Seq<char>|
        exists|i: int| 0 <= i < n && cpu_of_line(#[trigger] all[i]) == Some(t);
    let mut out: Vec<String> = Vec::new();
    let mut i: usize = 0;
    while i < lines.len()
        invariant
            i <= lines@.len(),
            all == text::texts(lines@),
            listed == (|n: int, t: Seq<char>|
                exists|i: int| 0 <= i < n && cpu_of_line(#[trigger] all[i]) == Some(t)),
            sorted::ascending(text::texts(out@)),
            forall|t: Seq<char>| #[trigger] text::texts(out@).contains(t) == listed(i as int, t),
        decreases lines@.len() - i,
    {
        let ghost before = text::texts(out@);
        let line = lines[i].as_str();
        let trimmed = trim_start(line);
        let words = split_whitespace(line);
        assert(all[i as int] == line@);
        if !starts_with(trimmed.as_str(), "Available CPUs") && words.len() > 0 {
            assert(text::words(line@)[0] == words@[0]@);
            add_text(&mut out, words[0].clone());
        }
        assert forall|t: Seq<char>| #[trigger] text::texts(out@).contains(t) == listed(i + 1, t) by {
            assert(before.contains(t) == listed(i as int, t));
            assert(text::texts(out@).contains(t) == (before.contains(t) || cpu_of_line(line@)
                == Some(t)));
        }
        i += 1;
    }
    add_text(&mut out, "generic".to_owned());
    out
}

/// Whether one of the outputs lists the target CPU.
pub open spec fn some_lists_cpu(outputs: Seq<String>, cpu: Seq<char>) -> bool {
    exists|i: int| 0 <= i < outputs.len() && lists_cpu((#[trigger] outputs[i])@, cpu)
}

/// The target CPUs that at least one of several outputs of `rustc --print target-cpus`
/// lists, sorted, each once.
pub fn known_supported_cpu_union(outputs: &Vec<String>) -> (r: Vec<String>)
    ensures
        sorted::ascending(text::texts(r@)),
        forall|t: Seq<char>| #[trigger] text::texts(r@).contains(t) == some_lists_cpu(outputs@, t),
{
    let mut out: Vec<String> = Vec::new();
    let mut i: usize = 0;
    while i < outputs.len()
        invariant
            i <= outputs@.len(),
            sorted::ascending(text::texts(out@)),
            forall|t: Seq<char>| #[trigger]
                text::texts(out@).contains(t) == some_lists_cpu(outputs@.take(i as int), t),
        decreases outputs@.len() - i,
    {
        let ghost before = text::texts(out@);
        let cpus = parse_rustc_target_cpus(outputs[i].as_str());
        let ghost listed = text::texts(cpus@);
        let mut k: usize = 0;
        while k < cpus.len()
            invariant
                k <= cpus@.len(),
                listed == text::texts(cpus@),
                sorted::ascending(text::texts(out@)),
                forall|t: Seq<char>| #[trigger]
                    text::texts(out@).contains(t) == (before.contains(t) || listed.take(
                        k as int,
                    ).contains(t)),
            decreases cpus@.len() - k,
        {
            let ghost was = text::texts(out@);
            add_text(&mut out, cpus[k].clone());
            assert forall|t: Seq<char>| #[trigger]
                text::texts(out@).contains(t) == (before.contains(t) || listed.take(
                    k + 1,
                ).contains(t)) by {
                assert(was.contains(t) == (before.contains(t) || listed.take(k as int).contains(
                    t,
                )));
                assert(listed.take(k + 1) =~= listed.take(k as int).push(cpus@[k as int]@));
                if listed.take(k as int).contains(t) {
                    let j = choose|j: int| 0 <= j < k && listed.take(k as int)[j] == t;
                    assert(listed.take(k + 1)[j] == t);
                }
                if t == cpus@[k as int]@ {
                    assert(listed.take(k + 1)[k as int] == t);
                }
            }
            k += 1;
        }
        assert(listed.take(k as int) =~= listed);
        assert forall|t: Seq<char>| #[trigger]
            text::texts(out@).contains(t) == some_lists_cpu(outputs@.take(i + 1), t) by {
            let shorter = outputs@.take(i as int);
            let longer = outputs@.take(i + 1);
            assert(before.contains(t) == some_lists_cpu(shorter, t));
            assert(listed.contains(t) == lists_cpu(outputs@[i as int]@, t));
            assert(longer[i as int] == outputs@[i as int]);
            if some_lists_cpu(shorter, t) {
                let j = choose|j: int| 0 <= j < shorter.len() && lists_cpu((#[trigger] shorter[j])@, t);
                assert(longer[j] == shorter[j]);
            }
            if some_lists_cpu(longer, t) {
                let j = choose|j: int| 0 <= j < longer.len() && lists_cpu((#[trigger] longer[j])@, t);
                if j < i {
                    assert(shorter[j] == longer[j]);
                }
            }
        }
        i += 1;
    }
    assert(outputs@.take(i as int) =~= outputs@);
    out
}

/// What follows `prefix` in the first line that begins with it.
pub open spec fn first_after(lines: Seq<Seq<char>>, prefix: Seq<char>) -> Option<Seq<char>>
    decreases lines.len(),
{
    if lines.len() == 0 {
        None
    } else if text::has_prefix(lines[0], prefix) {
        Some(lines[0].skip(prefix.len() as int))
    } else {
        first_after(lines.drop_first(), prefix)
    }
}

/// The target that rustc builds for by default, from the output of `rustc -vV`.
pub fn rustc_default_target(version: &str) -> (r: Result<String, SonicError>)
    ensures
        match first_after(text::lines(version@), "host: "@) {
            Some(target) => r matches Ok(t) && t@ == target,
            None => r matches Err(e) && e is HostTargetUnknown,
        },
{
    let lines = split_lines(version);
    let ghost all = text::texts(lines@);
    let mut i: usize = 0;
    assert(all.skip(0) == all);
    while i < lines.len()
        invariant
            i <= lines@.len(),
            all == text::texts(lines@),
            all == text::lines(version@),
            first_after(all, "host: "@) == first_after(all.skip(i as int), "host: "@),
        decreases lines@.len() - i,
    {
        assert(all.skip(i as int)[0] == lines@[i as int]@);
        assert(all.skip(i as int).drop_first() == all.skip(i + 1));
        if let Some(target) = strip_prefix(lines[i].as_str(), "host: ") {
            return Ok(target);
        }
        i += 1;
    }
    Err(SonicError::HostTargetUnknown)
}

// ---------------------------------------------------------------------------
// What a line says

proof fn between_is_both_ends(s: Seq<char>, prefix: Seq<char>, middle: Seq<char>, suffix: Seq<char>)
    ensures
        text::between(s, prefix, suffix) == Some(middle) <==> s == prefix + middle + suffix,
{
    if text::between(s, prefix, suffix) == Some(middle) {
        let rest = s.skip(prefix.len() as int);
        assert(s =~= s.take(prefix.len() as int) + middle + rest.skip(rest.len() - suffix.len()));
    }
    if s == prefix + middle + suffix {
        assert(s.take(prefix.len() as int) =~= prefix);
        let rest = s.skip(prefix.len() as int);
        assert(rest.skip(rest.len() - suffix.len()) =~= suffix);
        assert(s.subrange(prefix.len() as int, s.len() - suffix.len()) =~= middle);
    }
}

/// A target has a feature if and only if a whole line of `rustc --print cfg` is
/// `target_feature` with the feature in quotes. The features come sorted, each once.
pub proof fn lines_state_features(
    cfg: &str,
    lines: Vec<String>,
    stated: Vec<String>,
    feature: Seq<char>,
)
    requires
        call_ensures(split_lines, (cfg,), lines),
        call_ensures(parse_target_features_from_rustc_cfg, (cfg,), stated),
    ensures
        text::texts(stated@).contains(feature) <==> text::texts(lines@).contains(
            "target_feature=\""@ + feature + "\""@,
        ),
        forall|i: int, j: int|
            0 <= i < j < stated@.len() ==> text::text_less(
                (#[trigger] stated@[i])@,
                (#[trigger] stated@[j])@,
            ),
{
    let all = text::lines(cfg@);
    let line = "target_feature=\""@ + feature + "\""@;
    assert(text::texts(lines@) == all);
    assert(text::texts(stated@).contains(feature) == states_feature(cfg@, feature));
    if states_feature(cfg@, feature) {
        let i = choose|i: int|
            0 <= i < all.len() && text::between(#[trigger] all[i], "target_feature=\""@, "\""@)
                == Some(feature);
        between_is_both_ends(all[i], "target_feature=\""@, feature, "\""@);
        assert(all.contains(all[i]));
    }
    if all.contains(line) {
        let i = choose|i: int| 0 <= i < all.len() && all[i] == line;
        between_is_both_ends(all[i], "target_feature=\""@, feature, "\""@);
        assert(text::between(all[i], "target_feature=\""@, "\""@) == Some(feature));
    }
    assert forall|i: int, j: int| 0 <= i < j < stated@.len() implies text::text_less(
        (#[trigger] stated@[i])@,
        (#[trigger] stated@[j])@,
    ) by {
        let list = text::texts(stated@);
        assert(text::text_less(list[i], list[j]));
    }
}

/// The value of a key is what the first line gives that is the key, an equals sign and
/// something in quotes.
pub proof fn the_first_line_gives_the_value(
    cfg: &str,
    rest: &str,
    key: &str,
    lines: Vec<String>,
    other_lines: Vec<String>,
    whole: Option<String>,
    later: Option<String>,
)
    requires
        call_ensures(split_lines, (cfg,), lines),
        call_ensures(split_lines, (rest,), other_lines),
        call_ensures(cfg_value, (cfg, key), whole),
        call_ensures(cfg_value, (rest, key), later),
        lines@.len() > 0,
        text::texts(other_lines@) == text::texts(lines@).drop_first(),
    ensures
        forall|value: Seq<char>|
            lines@[0]@ == #[trigger] (key@ + "=\""@ + value + "\""@) ==> text::opt(whole) == Some(
                value,
            ),
        (forall|value: Seq<char>| lines@[0]@ != #[trigger] (key@ + "=\""@ + value + "\""@))
            ==> text::opt(whole) == text::opt(later),
        other_lines@.len() == 0 ==> later is None,
{
    let all = text::lines(cfg@);
    let prefix = key@ + "=\""@;
    assert(all[0] == lines@[0]@);
    assert(text::texts(other_lines@).len() == other_lines@.len());
    assert forall|value: Seq<char>|
        lines@[0]@ == #[trigger] (key@ + "=\""@ + value + "\""@) implies text::opt(whole) == Some(
        value,
    ) by {
        between_is_both_ends(all[0], prefix, value, "\""@);
    }
    if forall|value: Seq<char>| lines@[0]@ != #[trigger] (key@ + "=\""@ + value + "\""@) {
        match text::between(all[0], prefix, "\""@) {
            Some(value) => {
                between_is_both_ends(all[0], prefix, value, "\""@);
                assert(lines@[0]@ == key@ + "=\""@ + value + "\""@);
            },
            None => {},
        }
    }
}

/// rustc lists a target CPU if and only if a line begins with it as its first word, the heading
/// aside; `generic` always counts. The list comes sorted, each once.
pub proof fn lines_list_cpus(output: &str, lines: Vec<String>, cpus: Vec<String>, cpu: Seq<char>, i: int)
    requires
        call_ensures(split_lines, (output,), lines),
        call_ensures(parse_rustc_target_cpus, (output,), cpus),
        0 <= i < lines@.len(),
    ensures
        text::texts(cpus@).contains("generic"@),
        text::words(lines@[i]@).len() > 0 && text::words(lines@[i]@)[0] == cpu && !text::has_prefix(
            text::trimmed_start(lines@[i]@),
            "Available CPUs"@,
        ) ==> text::texts(cpus@).contains(cpu),
        text::texts(cpus@).contains(cpu) && cpu != "generic"@ ==> exists|k: int|
            0 <= k < lines@.len() && text::words((#[trigger] lines@[k])@).len() > 0 && text::words(
                lines@[k]@,
            )[0] == cpu,
{
    let all = text::lines(output@);
    assert(text::texts(lines@) == all);
    assert(all[i] == lines@[i]@);
    let list = text::texts(cpus@);
    assert(list.contains("generic"@) == lists_cpu(output@, "generic"@));
    assert(list.contains(cpu) == lists_cpu(output@, cpu));
    if cpu_of_line(all[i]) == Some(cpu) {
        assert(lists_cpu(output@, cpu));
    }
    if list.contains(cpu) && cpu != "generic"@ {
        let k = choose|k: int| 0 <= k < all.len() && cpu_of_line(#[trigger] all[k]) == Some(cpu);
        assert(all[k] == lines@[k]@);
        assert(text::words(lines@[k]@)[0] == cpu);
    }
}

/// rustc's default target is what follows `host: ` in the first line that begins so.
pub proof fn the_host_line_gives_the_target(
    version: &str,
    rest: &str,
    lines: Vec<String>,
    other_lines: Vec<String>,
    target: Seq<char>,
    whole: Result<String, SonicError>,
    later: Result<String, SonicError>,
)
    requires
        call_ensures(split_lines, (version,), lines),
        call_ensures(split_lines, (rest,), other_lines),
        call_ensures(rustc_default_target, (version,), whole),
        call_ensures(rustc_default_target, (rest,), later),
        lines@.len() > 0,
        text::texts(other_lines@) == text::texts(lines@).drop_first(),
    ensures
        lines@[0]@ == "host: "@ + target ==> (whole matches Ok(t) && t@ == target),
        (forall|t: Seq<char>| lines@[0]@ != #[trigger] ("host: "@ + t)) ==> (match (whole, later) {
            (Ok(a), Ok(b)) => a@ == b@,
            (Err(a), Err(b)) => a is HostTargetUnknown && b is HostTargetUnknown,
            _ => false,
        }),
        other_lines@.len() == 0 ==> later is Err,
{
    let all = text::lines(version@);
    let prefix = "host: "@;
    assert(all[0] == lines@[0]@);
    assert(text::texts(other_lines@).len() == other_lines@.len());
    if lines@[0]@ == prefix + target {
        assert(all[0].take(prefix.len() as int) =~= prefix);
        assert(all[0].skip(prefix.len() as int) =~= target);
    }
    if text::has_prefix(all[0], prefix) {
        let t = all[0].skip(prefix.len() as int);
        assert(all[0] =~= all[0].take(prefix.len() as int) + t);
        assert(lines@[0]@ == prefix + t);
    }
}

} // verus!
