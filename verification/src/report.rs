//! The reports of the `probe` and `score` commands.
use crate::feature_mask::{self, feature_name, FeatureMask, ALL_FEATURES};
use crate::select::{
    self, rank_variants, selection_score, CpuIdentity, HostInfo, TargetArch, VariantMeta, X86Vendor, TargetKind, select_variant,
};
use crate::text::{
    self, decimal_text, hex_padded_text, hex_text, join_list, join_strs, str_eq,
};
use crate::text_laws;
use vstd::prelude::*;
use vstd::string::StringExecFns;

verus! {

/// A variant as a report shows it.
#[derive(Debug)]
pub struct ProbeVariant {
    pub target_cpu: String,
    pub required_features: FeatureMask,
    pub rank_features: FeatureMask,
    pub feature_names: Vec<String>,
    pub feature_tier: u8,
}

/// A target CPU that has no variant, and why.
#[derive(Debug)]
pub struct SkippedProbeVariant {
    pub target_cpu: String,
    pub reason: String,
}

// ---------------------------------------------------------------------------
// Parts of a report

/// The name of an architecture.
pub open spec fn arch_text(arch: TargetArch) -> Seq<char> {
    match arch {
        TargetArch::X86_64 => "x86_64"@,
        TargetArch::Aarch64 => "aarch64"@,
    }
}

/// The name of an architecture.
pub fn host_arch_name(arch: TargetArch) -> (r: &'static str)
    ensures
        r@ == arch_text(arch),
{
    match arch {
        TargetArch::X86_64 => "x86_64",
        TargetArch::Aarch64 => "aarch64",
    }
}

/// The names of the features of a mask among the first `n` features.
pub open spec fn names_below(mask: FeatureMask, n: int) -> Seq<Seq<char>>
    decreases n,
{
    if n <= 0 {
        Seq::empty()
    } else {
        let before = names_below(mask, n - 1);
        let feature = ALL_FEATURES@[n - 1];
        if mask.has(feature) {
            before.push(feature_mask::name_of(feature))
        } else {
            before
        }
    }
}

/// The names of the features of a mask, in the order of the features.
pub open spec fn names_in(mask: FeatureMask) -> Seq<Seq<char>> {
    names_below(mask, ALL_FEATURES@.len() as int)
}

/// The names of the features of a mask, in the order of the features.
pub fn feature_names(mask: FeatureMask) -> (r: Vec<&'static str>)
    ensures
        text::str_texts(r@) == names_in(mask),
{
    let mut out: Vec<&'static str> = Vec::new();
    let mut i: usize = 0;
    assert(text::str_texts(out@) =~= Seq::<Seq<char>>::empty());
    while i < ALL_FEATURES.len()
        invariant
            i <= ALL_FEATURES@.len(),
            text::str_texts(out@) == names_below(mask, i as int),
        decreases ALL_FEATURES@.len() - i,
    {
        let feature = ALL_FEATURES[i];
        if mask.contains(feature) {
            let ghost before = text::str_texts(out@);
            let name = feature_name(feature);
            out.push(name);
            assert(text::str_texts(out@) =~= before.push(name@));
        }
        i += 1;
    }
    out
}

/// The two words of a mask in hexadecimal.
pub open spec fn words_text(mask: FeatureMask) -> Seq<char> {
    "[0x"@ + text::hex_padded(mask.low_word() as nat, 16) + ",0x"@ + text::hex_padded(
        mask.high_word() as nat,
        16,
    ) + "]"@
}

/// The two words of a mask in hexadecimal.
pub fn format_words(mask: FeatureMask) -> (r: String)
    ensures
        r@ == words_text(mask),
{
    let words = mask.words();
    let mut r = "[0x".to_owned();
    let low = hex_padded_text(words[0], 16);
    r.append(low.as_str());
    r.append(",0x");
    let high = hex_padded_text(words[1], 16);
    r.append(high.as_str());
    r.append("]");
    r
}

/// The name of a maker of x86 processors.
pub open spec fn vendor_text(vendor: X86Vendor) -> Seq<char> {
    match vendor {
        X86Vendor::Intel => "intel"@,
        X86Vendor::Amd => "amd"@,
        X86Vendor::Other => "other"@,
    }
}

/// What a processor says that it is.
pub open spec fn identity_text(identity: CpuIdentity) -> Seq<char> {
    match identity {
        CpuIdentity::Unknown => "unknown"@,
        CpuIdentity::X86 { vendor, family, model, stepping } => "x86("@ + vendor_text(vendor)
            + " family="@ + text::decimal(family as nat) + " model="@ + text::decimal(model as nat)
            + " stepping="@ + text::decimal(stepping as nat) + ")"@,
        CpuIdentity::Aarch64 { implementer, part, variant, revision } => "aarch64(implementer=0x"@
            + text::hexadecimal(implementer as nat) + " part=0x"@ + text::hexadecimal(part as nat)
            + " variant="@ + text::decimal(variant as nat) + " revision="@ + text::decimal(
            revision as nat,
        ) + ")"@,
    }
}

/// Appends a number in decimal.
fn append_decimal(r: &mut String, n: u64)
    ensures
        final(r)@ == old(r)@ + text::decimal(n as nat),
{
    let number = decimal_text(n);
    r.append(number.as_str());
}

/// Appends a number in hexadecimal.
fn append_hex(r: &mut String, n: u64)
    ensures
        final(r)@ == old(r)@ + text::hexadecimal(n as nat),
{
    let number = hex_text(n);
    r.append(number.as_str());
}

/// Appends the words of a mask.
fn append_words(r: &mut String, mask: FeatureMask)
    ensures
        final(r)@ == old(r)@ + words_text(mask),
{
    let words = format_words(mask);
    r.append(words.as_str());
}

/// Appends the names of a list with commas between them.
fn append_names(r: &mut String, names: &[String])
    ensures
        final(r)@ == old(r)@ + text::join(text::texts(names@), ","@),
{
    let list = join_list(names, ",");
    r.append(list.as_str());
}

/// Appends the names of the features of a mask with commas between them.
fn append_feature_names(r: &mut String, mask: FeatureMask)
    ensures
        final(r)@ == old(r)@ + text::join(names_in(mask), ","@),
{
    let names = feature_names(mask);
    let list = join_strs(&names, ",");
    r.append(list.as_str());
}

/// What a processor says that it is.
pub fn format_identity(identity: CpuIdentity) -> (r: String)
    ensures
        r@ == identity_text(identity),
{
    match identity {
        CpuIdentity::Unknown => "unknown".to_owned(),
        CpuIdentity::X86 { vendor, family, model, stepping } => {
            let mut r = "x86(".to_owned();
            r.append(
                match vendor {
                    X86Vendor::Intel => "intel",
                    X86Vendor::Amd => "amd",
                    X86Vendor::Other => "other",
                },
            );
            r.append(" family=");
            append_decimal(&mut r, family as u64);
            r.append(" model=");
            append_decimal(&mut r, model as u64);
            r.append(" stepping=");
            append_decimal(&mut r, stepping as u64);
            r.append(")");
            r
        },
        CpuIdentity::Aarch64 { implementer, part, variant, revision } => {
            let mut r = "aarch64(implementer=0x".to_owned();
            append_hex(&mut r, implementer as u64);
            r.append(" part=0x");
            append_hex(&mut r, part as u64);
            r.append(" variant=");
            append_decimal(&mut r, variant as u64);
            r.append(" revision=");
            append_decimal(&mut r, revision as u64);
            r.append(")");
            r
        },
    }
}

/// The lines about the target and the host that a report begins with.
pub open spec fn heading(title: Seq<char>, target: Seq<char>, host: HostInfo) -> Seq<char> {
    title + "\n  target="@ + target + "\n  host.arch="@ + arch_text(host.arch)
        + "\n  host.features="@ + words_text(host.features) + "\n  host.feature_names=["@
        + text::join(names_in(host.features), ","@) + "]\n  host.identity="@ + identity_text(
        host.identity,
    ) + "\n"@
}

/// The lines about the target and the host that a report begins with.
fn format_heading(title: &str, target: &str, host: HostInfo) -> (r: String)
    ensures
        r@ == heading(title@, target@, host),
{
    let mut r = title.to_owned();
    r.append("\n  target=");
    r.append(target);
    r.append("\n  host.arch=");
    r.append(host_arch_name(host.arch));
    r.append("\n  host.features=");
    append_words(&mut r, host.features);
    r.append("\n  host.feature_names=[");
    append_feature_names(&mut r, host.features);
    r.append("]\n  host.identity=");
    let identity = format_identity(host.identity);
    r.append(identity.as_str());
    r.append("\n");
    r
}

// ---------------------------------------------------------------------------
// The probe report

/// Whether the host has every feature that the variant requires.
pub open spec fn fits(host: HostInfo, variant: ProbeVariant) -> bool {
    variant.required_features@.subset_of(host.features@)
}

/// What a probe report says of the features that a host lacks.
pub open spec fn missing_text(missing: FeatureMask) -> Seq<char> {
    " missing="@ + words_text(missing) + " missing_features=["@ + text::join(
        names_in(missing),
        ","@,
    ) + "]"@
}

/// What a probe report says of a variant. It names the features that the host lacks, if it
/// lacks any.
pub open spec fn variant_text(host: HostInfo, variant: ProbeVariant) -> Seq<char> {
    "    "@ + variant.target_cpu@ + " eligible="@ + (if fits(host, variant) {
        "yes"@
    } else {
        "no"@
    }) + " tier="@ + text::decimal(variant.feature_tier as nat) + " count="@ + text::decimal(
        variant.rank_features@.len(),
    ) + " required="@ + words_text(variant.required_features) + (if fits(host, variant) {
        Seq::empty()
    } else {
        missing_text(variant.required_features.minus(host.features))
    }) + " flags=["@ + text::join(text::texts(variant.feature_names@), ","@) + "]\n"@
}

/// What a probe report says of a variant.
fn variant_line(host: HostInfo, variant: &ProbeVariant) -> (r: String)
    ensures
        r@ == variant_text(host, *variant),
{
    let eligible = variant.required_features.is_subset_of(host.features);
    let mut r = "    ".to_owned();
    r.append(variant.target_cpu.as_str());
    r.append(" eligible=");
    r.append(
        if eligible {
            "yes"
        } else {
            "no"
        },
    );
    r.append(" tier=");
    append_decimal(&mut r, variant.feature_tier as u64);
    r.append(" count=");
    append_decimal(&mut r, variant.rank_features.count() as u64);
    r.append(" required=");
    append_words(&mut r, variant.required_features);
    let ghost start = r@;
    if !eligible {
        let missing = variant.required_features.missing_from(host.features);
        r.append(" missing=");
        append_words(&mut r, missing);
        r.append(" missing_features=[");
        append_feature_names(&mut r, missing);
        r.append("]");
        assert(r@ =~= start + missing_text(missing));
    } else {
        assert(r@ =~= start + Seq::<char>::empty());
    }
    r.append(" flags=[");
    append_names(&mut r, &variant.feature_names);
    r.append("]\n");
    r
}

/// The lines for the variants.
pub open spec fn variant_lines(host: HostInfo, variants: Seq<ProbeVariant>) -> Seq<char>
    decreases variants.len(),
{
    if variants.len() == 0 {
        Seq::empty()
    } else {
        variant_lines(host, variants.drop_last()) + variant_text(host, variants.last())
    }
}

/// The lines for the target CPUs that have no variant.
pub open spec fn skipped_lines(skipped: Seq<SkippedProbeVariant>) -> Seq<char>
    decreases skipped.len(),
{
    if skipped.len() == 0 {
        Seq::empty()
    } else {
        skipped_lines(skipped.drop_last()) + "    "@ + skipped.last().target_cpu@ + " reason="@
            + skipped.last().reason@ + "\n"@
    }
}

/// The names of the variants that the host can run.
pub open spec fn fitting(host: HostInfo, variants: Seq<ProbeVariant>) -> Seq<Seq<char>>
    decreases variants.len(),
{
    if variants.len() == 0 {
        Seq::empty()
    } else if fits(host, variants.last()) {
        fitting(host, variants.drop_last()).push(variants.last().target_cpu@)
    } else {
        fitting(host, variants.drop_last())
    }
}

/// A probe report.
pub open spec fn probe_text(
    target: Seq<char>,
    host: HostInfo,
    variants: Seq<ProbeVariant>,
    skipped: Seq<SkippedProbeVariant>,
    selected: Seq<char>,
) -> Seq<char> {
    heading("cargo-sonic probe"@, target, host) + "  variants:\n"@ + variant_lines(host, variants) + (if skipped.len()
        == 0 {
        Seq::empty()
    } else {
        "  skipped:\n"@ + skipped_lines(skipped)
    }) + "  fits=["@ + text::join(fitting(host, variants), ","@) + "]\n  selected="@ + selected
        + "\n"@
}

/// Appends the lines for the variants.
fn append_variant_lines(r: &mut String, host: HostInfo, variants: &[ProbeVariant])
    ensures
        final(r)@ == old(r)@ + variant_lines(host, variants@),
{
    let mut i: usize = 0;
    assert(variants@.take(0) =~= Seq::<ProbeVariant>::empty());
    while i < variants.len()
        invariant
            i <= variants@.len(),
            r@ == old(r)@ + variant_lines(host, variants@.take(i as int)),
        decreases variants@.len() - i,
    {
        assert(variants@.take(i + 1).drop_last() =~= variants@.take(i as int));
        let line = variant_line(host, &variants[i]);
        r.append(line.as_str());
        assert(r@ =~= old(r)@ + variant_lines(host, variants@.take(i + 1)));
        i += 1;
    }
    assert(variants@.take(i as int) =~= variants@);
}

/// Appends the lines for the target CPUs that have no variant.
fn append_skipped_lines(r: &mut String, skipped: &[SkippedProbeVariant])
    ensures
        final(r)@ == old(r)@ + skipped_lines(skipped@),
{
    let mut i: usize = 0;
    assert(skipped@.take(0) =~= Seq::<SkippedProbeVariant>::empty());
    while i < skipped.len()
        invariant
            i <= skipped@.len(),
            r@ == old(r)@ + skipped_lines(skipped@.take(i as int)),
        decreases skipped@.len() - i,
    {
        assert(skipped@.take(i + 1).drop_last() =~= skipped@.take(i as int));
        r.append("    ");
        r.append(skipped[i].target_cpu.as_str());
        r.append(" reason=");
        r.append(skipped[i].reason.as_str());
        r.append("\n");
        assert(r@ =~= old(r)@ + skipped_lines(skipped@.take(i + 1)));
        i += 1;
    }
    assert(skipped@.take(i as int) =~= skipped@);
}

/// The names of the variants that the host can run.
fn fitting_names(host: HostInfo, variants: &[ProbeVariant]) -> (r: Vec<String>)
    ensures
        text::texts(r@) == fitting(host, variants@),
{
    let mut out: Vec<String> = Vec::new();
    let mut i: usize = 0;
    assert(text::texts(out@) =~= Seq::<Seq<char>>::empty());
    while i < variants.len()
        invariant
            i <= variants@.len(),
            text::texts(out@) == fitting(host, variants@.take(i as int)),
        decreases variants@.len() - i,
    {
        assert(variants@.take(i + 1).drop_last() =~= variants@.take(i as int));
        if variants[i].required_features.is_subset_of(host.features) {
            let ghost before = text::texts(out@);
            out.push(variants[i].target_cpu.clone());
            assert(text::texts(out@) =~= before.push(variants@[i as int].target_cpu@));
        }
        i += 1;
    }
    assert(variants@.take(i as int) =~= variants@);
    out
}

/// The report of the `probe` command: the host, the variants and whether the host can run
/// them, the target CPUs without a variant, and the variant that was selected.
pub fn format_probe_report(
    target: &str,
    host: HostInfo,
    variants: &[ProbeVariant],
    skipped: &[SkippedProbeVariant],
    selected: &str,
) -> (r: String)
    ensures
        r@ == probe_text(target@, host, variants@, skipped@, selected@),
{
    let mut r = format_heading("cargo-sonic probe", target, host);
    r.append("  variants:\n");
    append_variant_lines(&mut r, host, variants);
    let ghost before = r@;
    if skipped.len() > 0 {
        r.append("  skipped:\n");
        append_skipped_lines(&mut r, skipped);
        assert(r@ =~= before + ("  skipped:\n"@ + skipped_lines(skipped@)));
    } else {
        assert(r@ =~= before + Seq::<char>::empty());
    }
    r.append("  fits=[");
    let names = fitting_names(host, variants);
    append_names(&mut r, &names);
    r.append("]\n  selected=");
    r.append(selected);
    r.append("\n");
    r
}

// ---------------------------------------------------------------------------
// The score report

/// The position of the first variant with the given name.
pub open spec fn display_at(variants: Seq<ProbeVariant>, name: Seq<char>) -> int
    decreases variants.len(),
{
    if variants.len() == 0 || variants[0].target_cpu@ == name {
        0
    } else {
        1 + display_at(variants.drop_first(), name)
    }
}

/// Whether a variant has the given name.
pub open spec fn is_displayed(variants: Seq<ProbeVariant>, name: Seq<char>) -> bool {
    exists|i: int| 0 <= i < variants.len() && (#[trigger] variants[i]).target_cpu@ == name
}

/// What a score report says of a variant.
pub open spec fn score_line(
    host: HostInfo,
    rank: nat,
    meta: VariantMeta,
    variant: ProbeVariant,
) -> Seq<char> {
    let score = select::shown_score(select::score_of(host, meta));
    "    rank="@ + text::decimal(rank) + " target_cpu="@ + variant.target_cpu@ + " exact="@
        + text::decimal(score.exact as nat) + " vendor_affinity="@ + text::decimal(
        score.vendor_affinity as nat,
    ) + " feature_score="@ + text::decimal(score.feature_score as nat) + " tier="@ + text::decimal(
        variant.feature_tier as nat,
    ) + " count="@ + text::decimal(variant.rank_features@.len()) + " required="@ + words_text(
        variant.required_features,
    ) + " flags=["@ + text::join(text::texts(variant.feature_names@), ","@) + "]\n"@
}

/// The lines for the first `n` variants of a ranking.
pub open spec fn score_lines(
    host: HostInfo,
    ranked: Seq<VariantMeta>,
    variants: Seq<ProbeVariant>,
    n: nat,
) -> Seq<char>
    decreases n,
{
    if n == 0 {
        Seq::empty()
    } else {
        let meta = ranked[n - 1];
        score_lines(host, ranked, variants, (n - 1) as nat) + score_line(
            host,
            n,
            meta,
            variants[display_at(variants, meta.target_cpu@)],
        )
    }
}

/// A score report.
pub open spec fn score_text(
    target: Seq<char>,
    host: HostInfo,
    metas: Seq<VariantMeta>,
    variants: Seq<ProbeVariant>,
    skipped: nat,
) -> Seq<char> {
    let ranked = select::ranking(host, metas);
    heading("cargo-sonic score"@, target, host) + (if ranked.len() == 0 {
        Seq::empty()
    } else {
        "  selected="@ + ranked[0].target_cpu@ + "\n"@
    }) + "  compatible:\n"@ + score_lines(host, ranked, variants, ranked.len()) + "  skipped="@
        + text::decimal(skipped) + "\n"@
}

/// What a score report says of a variant.
fn format_score_line(
    host: HostInfo,
    rank: u64,
    meta: &VariantMeta,
    variant: &ProbeVariant,
) -> (r: String)
    ensures
        r@ == score_line(host, rank as nat, *meta, *variant),
{
    let score = selection_score(host, meta);
    let mut r = "    rank=".to_owned();
    append_decimal(&mut r, rank);
    r.append(" target_cpu=");
    r.append(variant.target_cpu.as_str());
    r.append(" exact=");
    append_decimal(&mut r, score.exact as u64);
    r.append(" vendor_affinity=");
    append_decimal(&mut r, score.vendor_affinity as u64);
    r.append(" feature_score=");
    append_decimal(&mut r, score.feature_score as u64);
    r.append(" tier=");
    append_decimal(&mut r, variant.feature_tier as u64);
    r.append(" count=");
    append_decimal(&mut r, variant.rank_features.count() as u64);
    r.append(" required=");
    append_words(&mut r, variant.required_features);
    r.append(" flags=[");
    append_names(&mut r, &variant.feature_names);
    r.append("]\n");
    r
}

/// The position of the first variant with the given name.
fn find_display(variants: &[ProbeVariant], name: &str) -> (i: usize)
    requires
        is_displayed(variants@, name@),
    ensures
        i == display_at(variants@, name@),
        i < variants@.len(),
{
    let mut i: usize = 0;
    assert(variants@.skip(0) =~= variants@);
    while i < variants.len()
        invariant
            i <= variants@.len(),
            i + display_at(variants@.skip(i as int), name@) == display_at(variants@, name@),
            forall|k: int| 0 <= k < i ==> (#[trigger] variants@[k]).target_cpu@ != name@,
        decreases variants@.len() - i,
    {
        if str_eq(variants[i].target_cpu.as_str(), name) {
            return i;
        }
        assert(variants@.skip(i as int).drop_first() =~= variants@.skip(i + 1));
        i += 1;
    }
    proof {
        let k = choose|k: int|
            0 <= k < variants@.len() && (#[trigger] variants@[k]).target_cpu@ == name@;
        assert(variants@[k].target_cpu@ != name@);
    }
    0
}

/// The report of the `score` command: the host, and the variants that it can run, ranked,
/// with their scores. Every variant that the host can run must be among those to show.
pub fn format_score_report(
    target: &str,
    host: HostInfo,
    metas: &[VariantMeta],
    variants: &[ProbeVariant],
    skipped: usize,
) -> (r: String)
    requires
        forall|i: int|
            0 <= i < metas@.len() && select::eligible(host, metas@[i]) ==> is_displayed(
                variants@,
                (#[trigger] metas@[i]).target_cpu@,
            ),
    ensures
        r@ == score_text(target@, host, metas@, variants@, skipped as nat),
{
    let ranked = rank_variants(host, metas);
    let mut r = format_heading("cargo-sonic score", target, host);
    let ghost before = r@;
    if ranked.len() > 0 {
        r.append("  selected=");
        r.append(ranked[0].target_cpu);
        r.append("\n");
        assert(r@ =~= before + ("  selected="@ + ranked@[0].target_cpu@ + "\n"@));
    } else {
        assert(r@ =~= before + Seq::<char>::empty());
    }
    r.append("  compatible:\n");
    let ghost start = r@;
    let mut i: usize = 0;
    while i < ranked.len()
        invariant
            i <= ranked@.len(),
            ranked@ == select::ranking(host, metas@),
            forall|k: int|
                0 <= k < metas@.len() && select::eligible(host, metas@[k]) ==> is_displayed(
                    variants@,
                    (#[trigger] metas@[k]).target_cpu@,
                ),
            r@ == start + score_lines(host, ranked@, variants@, i as nat),
        decreases ranked@.len() - i,
    {
        proof {
            select::ranking_holds_eligible(host, metas@, i as int);
        }
        let at = find_display(variants, ranked[i].target_cpu);
        let line = format_score_line(host, i as u64 + 1, &ranked[i], &variants[at]);
        r.append(line.as_str());
        assert(r@ =~= start + score_lines(host, ranked@, variants@, (i + 1) as nat));
        i += 1;
    }
    r.append("  skipped=");
    append_decimal(&mut r, skipped as u64);
    r.append("\n");
    r
}

// ---------------------------------------------------------------------------
// The probe of a loader without payloads

/// What a loader that carries nothing but the baseline says of itself.
pub fn baseline_report(arch: TargetArch) -> (r: String)
    ensures
        r@ == "{\"arch\":\""@ + arch_text(arch)
            + "\",\"detected_features\":[],\"identity\":{\"unknown\":true},\"configured_variants\":[\"generic\"],\"eligible\":[\"generic\"],\"selected_target_cpu\":\""@
            + "generic"@ + "\",\"selected_flags\":[]}"@,
{
    let generic = VariantMeta {
        target_cpu: "generic",
        required_features: FeatureMask::empty(),
        rank_features: FeatureMask::empty(),
        rank_feature_count: 0,
        feature_tier: 0,
        target_kind: TargetKind::Generic,
    };
    let host = HostInfo {
        arch,
        features: FeatureMask::empty(),
        identity: CpuIdentity::Unknown,
        heterogeneous: false,
    };
    let variants: [VariantMeta; 1] = [generic];
    let selected = select_variant(host, &variants);
    assert(variants@[0] == generic);
    assert(selected.target_cpu@ == "generic"@);
    let mut r = "{\"arch\":\"".to_owned();
    r.append(host_arch_name(arch));
    r.append(
        "\",\"detected_features\":[],\"identity\":{\"unknown\":true},\"configured_variants\":[\"generic\"],\"eligible\":[\"generic\"],\"selected_target_cpu\":\"",
    );
    r.append(selected.target_cpu);
    r.append("\",\"selected_flags\":[]}");
    r
}

// ---------------------------------------------------------------------------
// What reports tell

/// The words of a mask read back from a report, the low word first.
pub proof fn words_read_back(mask: FeatureMask, words: [u64; 2], r: String)
    requires
        call_ensures(FeatureMask::words, (mask,), words),
        call_ensures(format_words, (mask,), r),
    ensures
        r@.len() == 39,
        r@.take(3) == "[0x"@,
        text_laws::is_hex(r@.subrange(3, 19)),
        text_laws::worth(r@.subrange(3, 19), 16) == words[0],
        r@.subrange(19, 22) == ",0x"@,
        text_laws::is_hex(r@.subrange(22, 38)),
        text_laws::worth(r@.subrange(22, 38), 16) == words[1],
        r@.skip(38) == "]"@,
{
    reveal_strlit("[0x");
    reveal_strlit(",0x");
    reveal_strlit("]");
    let low = text::hex_padded(words[0] as nat, 16);
    let high = text::hex_padded(words[1] as nat, 16);
    text_laws::padded_reads_back(words[0] as nat, 16);
    text_laws::padded_reads_back(words[1] as nat, 16);
    assert(text_laws::sixteens(16) == 0x1_0000_0000_0000_0000) by {
        reveal_with_fuel(text_laws::sixteens, 17);
    }
    assert(r@.take(3) =~= "[0x"@);
    assert(r@.subrange(3, 19) =~= low);
    assert(r@.subrange(19, 22) =~= ",0x"@);
    assert(r@.subrange(22, 38) =~= high);
    assert(r@.skip(38) =~= "]"@);
}

proof fn named_below(mask: FeatureMask, n: int, i: int)
    requires
        0 <= i < n <= ALL_FEATURES@.len(),
        mask.has(ALL_FEATURES@[i]),
    ensures
        names_below(mask, i).len() < names_below(mask, n).len(),
        names_below(mask, n)[names_below(mask, i).len() as int] == feature_mask::name_of(
            ALL_FEATURES@[i],
        ),
    decreases n,
{
    if i < n - 1 {
        named_below(mask, n - 1, i);
    }
}

/// The names of a mask's features stand in the order of the features.
pub proof fn names_stand_in_order(
    mask: FeatureMask,
    i: int,
    j: int,
    in_i: bool,
    in_j: bool,
    first: &'static str,
    second: &'static str,
    r: Vec<&'static str>,
) -> (places: (int, int))
    requires
        0 <= i < j < ALL_FEATURES@.len(),
        call_ensures(FeatureMask::contains, (mask, ALL_FEATURES@[i]), in_i),
        call_ensures(FeatureMask::contains, (mask, ALL_FEATURES@[j]), in_j),
        call_ensures(feature_name, (ALL_FEATURES@[i],), first),
        call_ensures(feature_name, (ALL_FEATURES@[j],), second),
        call_ensures(feature_names, (mask,), r),
    ensures
        in_i && in_j ==> 0 <= places.0 < places.1 < r@.len() && r@[places.0]@ == first@
            && r@[places.1]@ == second@,
{
    let n = ALL_FEATURES@.len() as int;
    let places = (names_below(mask, i).len() as int, names_below(mask, j).len() as int);
    if in_i && in_j {
        named_below(mask, n, i);
        named_below(mask, n, j);
        named_below(mask, j, i);
        let shown = text::str_texts(r@);
        assert(shown[places.0] == r@[places.0]@);
        assert(shown[places.1] == r@[places.1]@);
    }
    places
}

proof fn named_has_it(mask: FeatureMask, n: int, k: int) -> (i: int)
    requires
        0 <= n <= ALL_FEATURES@.len(),
        0 <= k < names_below(mask, n).len(),
    ensures
        0 <= i < n,
        mask.has(ALL_FEATURES@[i]),
        names_below(mask, n)[k] == feature_mask::name_of(ALL_FEATURES@[i]),
    decreases n,
{
    let before = names_below(mask, n - 1);
    if k < before.len() {
        named_has_it(mask, n - 1, k)
    } else {
        n - 1
    }
}

/// A report names no feature that the mask does not have.
pub proof fn only_features_are_named(mask: FeatureMask, r: Vec<&'static str>, k: int) -> (i: int)
    requires
        call_ensures(feature_names, (mask,), r),
        0 <= k < r@.len(),
    ensures
        0 <= i < ALL_FEATURES@.len(),
        mask.has(ALL_FEATURES@[i]),
        forall|name: &'static str| #[trigger]
            call_ensures(feature_name, (ALL_FEATURES@[i],), name) ==> name@ == r@[k]@,
{
    let i = named_has_it(mask, ALL_FEATURES@.len() as int, k);
    assert(text::str_texts(r@)[k] == r@[k]@);
    i
}

/// A processor is shown with its maker and its numbers, each under its own name: those of x86
/// in decimal, the maker and the part of an AArch64 core in hexadecimal.
pub proof fn identities_are_shown(
    vendor: X86Vendor,
    family: u16,
    model: u16,
    stepping: u8,
    implementer: u16,
    part: u16,
    variant: u8,
    revision: u8,
    x86: String,
    arm: String,
    unknown: String,
    decimals: (String, String, String),
    numbers: (String, String, String, String),
)
    requires
        call_ensures(
            format_identity,
            (CpuIdentity::X86 { vendor, family, model, stepping },),
            x86,
        ),
        call_ensures(
            format_identity,
            (CpuIdentity::Aarch64 { implementer, part, variant, revision },),
            arm,
        ),
        call_ensures(format_identity, (CpuIdentity::Unknown,), unknown),
        call_ensures(decimal_text, (family as u64,), decimals.0),
        call_ensures(decimal_text, (model as u64,), decimals.1),
        call_ensures(decimal_text, (stepping as u64,), decimals.2),
        call_ensures(hex_text, (implementer as u64,), numbers.0),
        call_ensures(hex_text, (part as u64,), numbers.1),
        call_ensures(decimal_text, (variant as u64,), numbers.2),
        call_ensures(decimal_text, (revision as u64,), numbers.3),
    ensures
        unknown@ == "unknown"@,
        x86@ == "x86("@ + (if vendor is Intel {
            "intel"@
        } else if vendor is Amd {
            "amd"@
        } else {
            "other"@
        }) + " family="@ + decimals.0@ + " model="@ + decimals.1@ + " stepping="@ + decimals.2@
            + ")"@,
        arm@ == "aarch64(implementer=0x"@ + numbers.0@ + " part=0x"@ + numbers.1@ + " variant="@
            + numbers.2@ + " revision="@ + numbers.3@ + ")"@,
{
}

/// What a probe report says of a variant, whatever else it shows: one line that begins with the
/// target CPU and tells whether no required feature is missing, the tier and the count.
#[verifier::spinoff_prover]
#[verifier::rlimit(50)]
pub proof fn probes_show_each_variant(
    target: &str,
    host: HostInfo,
    variants: &[ProbeVariant],
    skipped: &[SkippedProbeVariant],
    selected: &str,
    r: String,
    i: int,
    eligible: bool,
    tier: String,
    count: u16,
    counted: String,
    required: String,
) -> (sides: (Seq<char>, Seq<char>))
    requires
        call_ensures(format_probe_report, (target, host, variants, skipped, selected), r),
        0 <= i < variants@.len(),
        call_ensures(
            FeatureMask::is_subset_of,
            (variants@[i].required_features, host.features),
            eligible,
        ),
        call_ensures(decimal_text, (variants@[i].feature_tier as u64,), tier),
        call_ensures(FeatureMask::count, (variants@[i].rank_features,), count),
        call_ensures(decimal_text, (count as u64,), counted),
        call_ensures(format_words, (variants@[i].required_features,), required),
    ensures
        r@ == sides.0 + "    "@ + variants@[i].target_cpu@ + (if eligible {
            " eligible=yes"@
        } else {
            " eligible=no"@
        }) + " tier="@ + tier@ + " count="@ + counted@ + " required="@ + required@ + (if eligible {
            " flags=["@
        } else {
            " missing="@
        }) + sides.1,
{
    let (h, t) = line_in_lines(host, variants@, i);
    let head = heading("cargo-sonic probe"@, target@, host) + "  variants:\n"@;
    let other = if skipped@.len() == 0 {
        Seq::empty()
    } else {
        "  skipped:\n"@ + skipped_lines(skipped@)
    };
    let fits_list = text::join(fitting(host, variants@), ","@);
    let tail = other + "  fits=["@ + fits_list + "]\n  selected="@ + selected@ + "\n"@;
    let v = variants@[i];
    let shown = if eligible {
        " eligible=yes"@
    } else {
        " eligible=no"@
    };
    let mid = if eligible {
        " flags=["@
    } else {
        " missing="@
    };
    let rest = line_has_parts(host, v, shown, tier@, counted@, required@);
    let lines = variant_lines(host, variants@);
    let line = variant_text(host, v);
    assert(r@ == head + lines + tail) by {
        let l = head + lines;
        text_laws::regroup(l, other, "  fits=["@);
        text_laws::regroup(l, other + "  fits=["@, fits_list);
        text_laws::regroup(l, other + "  fits=["@ + fits_list, "]\n  selected="@);
        text_laws::regroup(l, other + "  fits=["@ + fits_list + "]\n  selected="@, selected@);
        text_laws::regroup(l, other + "  fits=["@ + fits_list + "]\n  selected="@ + selected@, "\n"@);
    }
    let left = head + h;
    let right = rest + (t + tail);
    let f1 = "    "@;
    let f2 = f1 + v.target_cpu@;
    let f3 = f2 + shown;
    let f4 = f3 + " tier="@;
    let f5 = f4 + tier@;
    let f6 = f5 + " count="@;
    let f7 = f6 + counted@;
    let f8 = f7 + " required="@;
    let f9 = f8 + required@;
    let f10 = f9 + mid;
    text_laws::regroup(head, h + line, t);
    text_laws::regroup(head, h, line);
    text_laws::regroup(left + line, t, tail);
    assert(r@ == left + line + (t + tail));
    assert(line == f10 + rest);
    text_laws::regroup(left, f10, rest);
    text_laws::regroup(left + f10, rest, t + tail);
    assert(r@ == left + f10 + right);
    text_laws::regroup(left, f1, v.target_cpu@);
    text_laws::regroup(left, f2, shown);
    text_laws::regroup(left, f3, " tier="@);
    text_laws::regroup(left, f4, tier@);
    text_laws::regroup(left, f5, " count="@);
    text_laws::regroup(left, f6, counted@);
    text_laws::regroup(left, f7, " required="@);
    text_laws::regroup(left, f8, required@);
    text_laws::regroup(left, f9, mid);
    (left, right)
}

proof fn line_has_parts(
    host: HostInfo,
    v: ProbeVariant,
    shown: Seq<char>,
    tier: Seq<char>,
    counted: Seq<char>,
    required: Seq<char>,
) -> (rest: Seq<char>)
    requires
        shown == (if fits(host, v) {
            " eligible=yes"@
        } else {
            " eligible=no"@
        }),
        tier == text::decimal(v.feature_tier as nat),
        counted == text::decimal(v.rank_features@.len()),
        required == words_text(v.required_features),
    ensures
        variant_text(host, v) == "    "@ + v.target_cpu@ + shown + " tier="@ + tier + " count="@
            + counted + " required="@ + required + (if fits(host, v) {
            " flags=["@
        } else {
            " missing="@
        }) + rest,
{
    reveal_strlit(" eligible=");
    reveal_strlit("yes");
    reveal_strlit("no");
    reveal_strlit(" eligible=yes");
    reveal_strlit(" eligible=no");
    assert(" eligible="@ + "yes"@ =~= " eligible=yes"@);
    assert(" eligible="@ + "no"@ =~= " eligible=no"@);
    let told = if fits(host, v) {
        "yes"@
    } else {
        "no"@
    };
    let name = "    "@ + v.target_cpu@;
    text_laws::regroup(name, " eligible="@, told);
    let front = name + shown + " tier="@ + tier + " count="@ + counted + " required="@ + required;
    let names = text::join(text::texts(v.feature_names@), ","@);
    text_laws::regroup(front + " flags=["@, names, "]\n"@);
    if fits(host, v) {
        assert(front + Seq::<char>::empty() =~= front);
        names + "]\n"@
    } else {
        let missing = v.required_features.minus(host.features);
        let words = words_text(missing);
        let lacking = text::join(names_in(missing), ","@);
        let more = words + " missing_features=["@ + lacking + "]"@;
        assert(missing_text(missing) == " missing="@ + more) by {
            text_laws::regroup(" missing="@, words, " missing_features=["@);
            text_laws::regroup(" missing="@, words + " missing_features=["@, lacking);
            text_laws::regroup(" missing="@, words + " missing_features=["@ + lacking, "]"@);
        }
        let start = front + " missing="@;
        text_laws::regroup(front, " missing="@, more);
        text_laws::regroup(start, more, " flags=["@);
        text_laws::regroup(start, more + " flags=["@, names);
        text_laws::regroup(start, more + " flags=["@ + names, "]\n"@);
        more + " flags=["@ + names + "]\n"@
    }
}

proof fn line_in_lines(host: HostInfo, variants: Seq<ProbeVariant>, i: int) -> (sides: (
    Seq<char>,
    Seq<char>,
))
    requires
        0 <= i < variants.len(),
    ensures
        variant_lines(host, variants) == sides.0 + variant_text(host, variants[i]) + sides.1,
    decreases variants.len(),
{
    let before = variants.drop_last();
    if i == variants.len() - 1 {
        assert(variant_lines(host, variants) =~= variant_lines(host, before) + variant_text(
            host,
            variants[i],
        ) + Seq::<char>::empty());
        (variant_lines(host, before), Seq::empty())
    } else {
        let (a, b) = line_in_lines(host, before, i);
        assert(before[i] == variants[i]);
        let last = variant_text(host, variants.last());
        assert(variant_lines(host, variants) =~= a + variant_text(host, variants[i]) + (b + last));
        (a, b + last)
    }
}

/// The last line of a probe report tells which variant was selected.
pub proof fn probes_end_with_the_selection(
    target: &str,
    host: HostInfo,
    variants: &[ProbeVariant],
    skipped: &[SkippedProbeVariant],
    selected: &str,
    r: String,
) -> (front: Seq<char>)
    requires
        call_ensures(format_probe_report, (target, host, variants, skipped, selected), r),
    ensures
        r@ == front + "]\n  selected="@ + selected@ + "\n"@,
{
    heading("cargo-sonic probe"@, target@, host) + "  variants:\n"@ + variant_lines(host, variants@)
        + (if skipped@.len() == 0 {
        Seq::empty()
    } else {
        "  skipped:\n"@ + skipped_lines(skipped@)
    }) + "  fits=["@ + text::join(fitting(host, variants@), ","@)
}

/// Reports name the host's architecture as rustc does.
pub proof fn architectures_are_named(arch: TargetArch, r: &'static str)
    requires
        call_ensures(host_arch_name, (arch,), r),
    ensures
        arch is X86_64 ==> r@ == "x86_64"@,
        arch is Aarch64 ==> r@ == "aarch64"@,
{
}

} // verus!
