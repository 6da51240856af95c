//! The table of payloads that is compiled into the loader.
use crate::feature_mask::{self, FeatureMask};
use crate::payload_names::{self, payload_extension, sanitize_cpu, LoaderStrategy, PayloadCompression};
use crate::select::TargetKind;
use crate::text::{
    self, debug_str, decimal_text, escape_quotes, hex_text, join_list, to_ascii_uppercase,
};
use crate::text_laws;
use vstd::prelude::*;
use vstd::string::StringExecFns;

verus! {

/// A payload that was built.
#[derive(Debug)]
pub struct VariantBuild {
    pub target_cpu: String,
    pub required_features: FeatureMask,
    pub rank_features: FeatureMask,
    pub feature_names: Vec<String>,
    pub feature_tier: u8,
    pub target_kind: TargetKind,
    /// The path of the payload.
    pub artifact: String,
    /// The size of the payload as it is stored.
    pub payload_len: u64,
    pub payload_compression: PayloadCompression,
    pub uncompressed_len: u64,
    /// The file name of the payload in a bundle.
    pub bundle_path: String,
}

// ---------------------------------------------------------------------------
// Parts of the table

/// A compression in the loader's source.
pub open spec fn compression_text(compression: PayloadCompression) -> Seq<char> {
    match compression {
        PayloadCompression::Uncompressed => "PayloadCompression::None"@,
        PayloadCompression::Zstd => "PayloadCompression::Zstd"@,
    }
}

/// A compression in the loader's source.
pub fn payload_compression_expr(compression: PayloadCompression) -> (r: &'static str)
    ensures
        r@ == compression_text(compression),
{
    match compression {
        PayloadCompression::Uncompressed => "PayloadCompression::None",
        PayloadCompression::Zstd => "PayloadCompression::Zstd",
    }
}

/// A kind of target CPU in the loader's source.
pub open spec fn kind_text(kind: TargetKind) -> Seq<char> {
    match kind {
        TargetKind::Generic => "TargetKind::Generic"@,
        TargetKind::X86NeutralLevel { level } => "TargetKind::X86NeutralLevel { level: "@
            + text::decimal(level as nat) + " }"@,
        TargetKind::X86IntelCore => "TargetKind::X86IntelCore"@,
        TargetKind::X86IntelXeon => "TargetKind::X86IntelXeon"@,
        TargetKind::X86IntelAtom => "TargetKind::X86IntelAtom"@,
        TargetKind::X86AmdZen { generation } => "TargetKind::X86AmdZen { generation: "@
            + text::decimal(generation as nat) + " }"@,
        TargetKind::X86AmdOther => "TargetKind::X86AmdOther"@,
        TargetKind::Aarch64ArmNeoverseN => "TargetKind::Aarch64ArmNeoverseN"@,
        TargetKind::Aarch64ArmNeoverseV => "TargetKind::Aarch64ArmNeoverseV"@,
        TargetKind::Aarch64ArmNeoverseE => "TargetKind::Aarch64ArmNeoverseE"@,
        TargetKind::Aarch64ArmCortexA => "TargetKind::Aarch64ArmCortexA"@,
        TargetKind::Aarch64ArmCortexX => "TargetKind::Aarch64ArmCortexX"@,
        TargetKind::Aarch64Apple => "TargetKind::Aarch64Apple"@,
        TargetKind::Aarch64Ampere => "TargetKind::Aarch64Ampere"@,
        TargetKind::Aarch64Other => "TargetKind::Aarch64Other"@,
    }
}

/// A kind with one number in the loader's source.
fn numbered_kind(start: &str, n: u8) -> (r: String)
    ensures
        r@ == start@ + text::decimal(n as nat) + " }"@,
{
    let mut r = start.to_owned();
    let number = decimal_text(n as u64);
    r.append(number.as_str());
    r.append(" }");
    r
}

/// A kind of target CPU in the loader's source.
pub fn target_kind_expr(kind: TargetKind) -> (r: String)
    ensures
        r@ == kind_text(kind),
{
    match kind {
        TargetKind::Generic => "TargetKind::Generic".to_owned(),
        TargetKind::X86NeutralLevel { level } => numbered_kind(
            "TargetKind::X86NeutralLevel { level: ",
            level,
        ),
        TargetKind::X86IntelCore => "TargetKind::X86IntelCore".to_owned(),
        TargetKind::X86IntelXeon => "TargetKind::X86IntelXeon".to_owned(),
        TargetKind::X86IntelAtom => "TargetKind::X86IntelAtom".to_owned(),
        TargetKind::X86AmdZen { generation } => numbered_kind(
            "TargetKind::X86AmdZen { generation: ",
            generation,
        ),
        TargetKind::X86AmdOther => "TargetKind::X86AmdOther".to_owned(),
        TargetKind::Aarch64ArmNeoverseN => "TargetKind::Aarch64ArmNeoverseN".to_owned(),
        TargetKind::Aarch64ArmNeoverseV => "TargetKind::Aarch64ArmNeoverseV".to_owned(),
        TargetKind::Aarch64ArmNeoverseE => "TargetKind::Aarch64ArmNeoverseE".to_owned(),
        TargetKind::Aarch64ArmCortexA => "TargetKind::Aarch64ArmCortexA".to_owned(),
        TargetKind::Aarch64ArmCortexX => "TargetKind::Aarch64ArmCortexX".to_owned(),
        TargetKind::Aarch64Apple => "TargetKind::Aarch64Apple".to_owned(),
        TargetKind::Aarch64Ampere => "TargetKind::Aarch64Ampere".to_owned(),
        TargetKind::Aarch64Other => "TargetKind::Aarch64Other".to_owned(),
    }
}

/// Escapes a text for a byte string literal.
pub fn escape_bytes(s: &str) -> (r: String)
    ensures
        r@ == text::escaped(s@),
{
    escape_quotes(s)
}

/// The constant that holds an embedded payload.
pub open spec fn payload_const(cpu: Seq<char>) -> Seq<char> {
    "PAYLOAD_"@ + text::uppercase(payload_names::safe_name(cpu))
}

/// The constant that holds an embedded payload.
fn payload_const_name(cpu: &str) -> (r: String)
    ensures
        r@ == payload_const(cpu@),
{
    let safe = sanitize_cpu(cpu);
    let upper = to_ascii_uppercase(safe.as_str());
    let mut r = "PAYLOAD_".to_owned();
    r.append(upper.as_str());
    r
}

/// The line that embeds a payload.
pub open spec fn embed_line(v: VariantBuild) -> Seq<char> {
    "static "@ + payload_const(v.target_cpu@) + ": AlignedPayload<"@ + text::decimal(
        v.payload_len as nat,
    ) + "> = AlignedPayload(*include_bytes!(\"../payloads/"@ + payload_names::safe_name(
        v.target_cpu@,
    ) + payload_names::extension(v.payload_compression) + "\"));\n"@
}

/// The lines that embed payloads.
pub open spec fn embed_lines(variants: Seq<VariantBuild>) -> Seq<char>
    decreases variants.len(),
{
    if variants.len() == 0 {
        Seq::empty()
    } else {
        embed_lines(variants.drop_last()) + embed_line(variants.last())
    }
}

/// The line that embeds a payload.
fn format_embed_line(v: &VariantBuild) -> (r: String)
    ensures
        r@ == embed_line(*v),
{
    let name = payload_const_name(v.target_cpu.as_str());
    let safe = sanitize_cpu(v.target_cpu.as_str());
    let len = decimal_text(v.payload_len);
    let mut r = "static ".to_owned();
    r.append(name.as_str());
    r.append(": AlignedPayload<");
    r.append(len.as_str());
    r.append("> = AlignedPayload(*include_bytes!(\"../payloads/");
    r.append(safe.as_str());
    r.append(payload_extension(v.payload_compression));
    r.append("\"));\n");
    r
}

/// The words of a mask in the loader's source.
pub open spec fn mask_text(mask: FeatureMask) -> Seq<char> {
    "FeatureMask::from_words([0x"@ + text::hexadecimal(mask.low_word() as nat) + ", 0x"@
        + text::hexadecimal(mask.high_word() as nat) + "]),\n"@
}

/// The words of a mask in the loader's source.
pub fn format_mask(mask: FeatureMask) -> (r: String)
    ensures
        r@ == mask_text(mask),
{
    let words = mask.words();
    let low = hex_text(words[0]);
    let high = hex_text(words[1]);
    let mut r = "FeatureMask::from_words([0x".to_owned();
    r.append(low.as_str());
    r.append(", 0x");
    r.append(high.as_str());
    r.append("]),\n");
    r
}

/// What selection needs to know of a payload, in the loader's source.
pub open spec fn meta_fields(v: VariantBuild) -> Seq<char> {
    "        target_cpu: "@ + text::debug_text(v.target_cpu@) + ",\n        required_features: "@
        + mask_text(v.required_features) + "        rank_features: "@ + mask_text(v.rank_features)
        + "        rank_feature_count: "@ + text::decimal(v.rank_features@.len())
        + ",\n        feature_tier: "@ + text::decimal(v.feature_tier as nat)
        + ",\n        target_kind: "@ + kind_text(v.target_kind) + ",\n"@
}

/// What the loader needs to run a payload, in its source.
pub open spec fn payload_fields(v: VariantBuild, strategy: LoaderStrategy) -> Seq<char> {
    "        env_selected_target_cpu: b\"CARGO_SONIC_SELECTED_TARGET_CPU="@ + text::escaped(
        v.target_cpu@,
    ) + "\\0\",\n        env_selected_flags: b\"CARGO_SONIC_SELECTED_FLAGS="@ + text::escaped(
        text::join(text::texts(v.feature_names@), ","@),
    ) + "\\0\",\n        payload: "@ + (match strategy {
        LoaderStrategy::Embedded => "&"@ + payload_const(v.target_cpu@) + ".0"@,
        LoaderStrategy::Bundle => "&[]"@,
    }) + ",\n        payload_path: b"@ + text::debug_text(v.bundle_path@)
        + ",\n        payload_compression: "@ + compression_text(v.payload_compression)
        + ",\n        uncompressed_len: "@ + text::decimal(v.uncompressed_len as nat) + ",\n"@
}

/// The entry of a payload in the table.
#[verifier::opaque]
pub open spec fn table_entry(v: VariantBuild, strategy: LoaderStrategy) -> Seq<char> {
    "    Variant {\n"@ + meta_fields(v) + payload_fields(v, strategy) + "    },\n"@
}

/// The entries of payloads in the table.
pub open spec fn table_entries(variants: Seq<VariantBuild>, strategy: LoaderStrategy) -> Seq<char>
    decreases variants.len(),
{
    if variants.len() == 0 {
        Seq::empty()
    } else {
        table_entries(variants.drop_last(), strategy) + table_entry(variants.last(), strategy)
    }
}

/// What selection needs to know of a payload, in the loader's source.
fn format_meta_fields(v: &VariantBuild) -> (r: String)
    ensures
        r@ == meta_fields(*v),
{
    let name = debug_str(v.target_cpu.as_str());
    let required = format_mask(v.required_features);
    let rank = format_mask(v.rank_features);
    let count = decimal_text(v.rank_features.count() as u64);
    let tier = decimal_text(v.feature_tier as u64);
    let kind = target_kind_expr(v.target_kind);
    let mut r = "        target_cpu: ".to_owned();
    r.append(name.as_str());
    r.append(",\n        required_features: ");
    r.append(required.as_str());
    r.append("        rank_features: ");
    r.append(rank.as_str());
    r.append("        rank_feature_count: ");
    r.append(count.as_str());
    r.append(",\n        feature_tier: ");
    r.append(tier.as_str());
    r.append(",\n        target_kind: ");
    r.append(kind.as_str());
    r.append(",\n");
    r
}

/// What the loader needs to run a payload, in its source.
fn format_payload_fields(v: &VariantBuild, strategy: LoaderStrategy) -> (r: String)
    ensures
        r@ == payload_fields(*v, strategy),
{
    let cpu = escape_bytes(v.target_cpu.as_str());
    let joined = join_list(&v.feature_names, ",");
    let flags = escape_bytes(joined.as_str());
    let payload = match strategy {
        LoaderStrategy::Embedded => {
            let name = payload_const_name(v.target_cpu.as_str());
            let mut e = "&".to_owned();
            e.append(name.as_str());
            e.append(".0");
            e
        },
        LoaderStrategy::Bundle => "&[]".to_owned(),
    };
    let path = debug_str(v.bundle_path.as_str());
    let len = decimal_text(v.uncompressed_len);
    let mut r = "        env_selected_target_cpu: b\"CARGO_SONIC_SELECTED_TARGET_CPU=".to_owned();
    r.append(cpu.as_str());
    r.append("\\0\",\n        env_selected_flags: b\"CARGO_SONIC_SELECTED_FLAGS=");
    r.append(flags.as_str());
    r.append("\\0\",\n        payload: ");
    r.append(payload.as_str());
    r.append(",\n        payload_path: b");
    r.append(path.as_str());
    r.append(",\n        payload_compression: ");
    r.append(payload_compression_expr(v.payload_compression));
    r.append(",\n        uncompressed_len: ");
    r.append(len.as_str());
    r.append(",\n");
    r
}

/// The entry of a payload in the table.
fn format_table_entry(v: &VariantBuild, strategy: LoaderStrategy) -> (r: String)
    ensures
        r@ == table_entry(*v, strategy),
{
    let meta = format_meta_fields(v);
    let payload = format_payload_fields(v, strategy);
    let mut r = "    Variant {\n".to_owned();
    r.append(meta.as_str());
    r.append(payload.as_str());
    r.append("    },\n");
    proof {
        reveal(table_entry);
    }
    r
}

// ---------------------------------------------------------------------------
// The table

/// The beginning of the module that holds the table.
pub const IMPORTS: &'static str =
    "use crate::feature_mask::FeatureMask;\nuse crate::select::TargetKind;\n\npub static ENV_ENABLED: &[u8] = b\"CARGO_SONIC_ENABLED=1\\0\";\n\n";

/// The type of an embedded payload.
pub const ALIGNED_PAYLOAD: &'static str =
    "#[repr(align(131072))]\npub struct AlignedPayload<const N: usize>(pub [u8; N]);\n\n";

/// The types of the table.
pub const TYPES: &'static str =
    "pub struct Variant {\n    pub target_cpu: &'static str,\n    pub required_features: FeatureMask,\n    pub rank_features: FeatureMask,\n    pub rank_feature_count: u16,\n    pub feature_tier: u8,\n    pub target_kind: TargetKind,\n    pub env_selected_target_cpu: &'static [u8],\n    pub env_selected_flags: &'static [u8],\n    pub payload: &'static [u8],\n    pub payload_path: &'static [u8],\n    pub payload_compression: PayloadCompression,\n    pub uncompressed_len: usize,\n}\n\n#[derive(Clone, Copy, Eq, PartialEq)]\npub enum PayloadCompression {\n    None,\n    Zstd,\n}\n\n";

/// The module that holds the table: the embedded payloads, if they are embedded, and an
/// entry for each payload.
pub open spec fn manifest_text(variants: Seq<VariantBuild>, strategy: LoaderStrategy) -> Seq<char> {
    IMPORTS@ + (match strategy {
        LoaderStrategy::Embedded => ALIGNED_PAYLOAD@ + embed_lines(variants),
        LoaderStrategy::Bundle => Seq::empty(),
    }) + "\n"@ + TYPES@ + "pub static VARIANTS: &[Variant] = &[\n"@ + table_entries(
        variants,
        strategy,
    ) + "];\n"@
}

/// The module that holds the table of payloads.
pub fn generated_manifest(variants: &[VariantBuild], loader_strategy: LoaderStrategy) -> (r: String)
    ensures
        r@ == manifest_text(variants@, loader_strategy),
{
    let mut r = IMPORTS.to_owned();
    match loader_strategy {
        LoaderStrategy::Embedded => {
            r.append(ALIGNED_PAYLOAD);
            let ghost start = r@;
            let mut i: usize = 0;
            assert(variants@.take(0) =~= Seq::<VariantBuild>::empty());
            while i < variants.len()
                invariant
                    i <= variants@.len(),
                    r@ == start + embed_lines(variants@.take(i as int)),
                decreases variants@.len() - i,
            {
                assert(variants@.take(i + 1).drop_last() =~= variants@.take(i as int));
                let line = format_embed_line(&variants[i]);
                r.append(line.as_str());
                assert(r@ =~= start + embed_lines(variants@.take(i + 1)));
                i += 1;
            }
            assert(variants@.take(i as int) =~= variants@);
            assert(r@ =~= IMPORTS@ + (ALIGNED_PAYLOAD@ + embed_lines(variants@)));
        },
        LoaderStrategy::Bundle => {
            assert(r@ =~= IMPORTS@ + Seq::<char>::empty());
        },
    }
    r.append("\n");
    r.append(TYPES);
    r.append("pub static VARIANTS: &[Variant] = &[\n");
    let ghost start = r@;
    let mut i: usize = 0;
    assert(variants@.take(0) =~= Seq::<VariantBuild>::empty());
    while i < variants.len()
        invariant
            i <= variants@.len(),
            r@ == start + table_entries(variants@.take(i as int), loader_strategy),
        decreases variants@.len() - i,
    {
        assert(variants@.take(i + 1).drop_last() =~= variants@.take(i as int));
        let entry = format_table_entry(&variants[i], loader_strategy);
        r.append(entry.as_str());
        assert(r@ =~= start + table_entries(variants@.take(i + 1), loader_strategy));
        i += 1;
    }
    assert(variants@.take(i as int) =~= variants@);
    r.append("];\n");
    r
}

/// Whether a payload is stored in zstd format.
pub fn uses_zstd(variants: &[VariantBuild]) -> (r: bool)
    ensures
        r == exists|i: int|
            0 <= i < variants@.len() && (#[trigger] variants@[i]).payload_compression is Zstd,
{
    let mut i: usize = 0;
    while i < variants.len()
        invariant
            i <= variants@.len(),
            forall|j: int|
                0 <= j < i ==> !((#[trigger] variants@[j]).payload_compression is Zstd),
        decreases variants@.len() - i,
    {
        if variants[i].payload_compression == PayloadCompression::Zstd {
            return true;
        }
        i += 1;
    }
    false
}

// ---------------------------------------------------------------------------
// The table reads back

/// Where two texts that hold no `c` stand before and after a separator that begins with `c`,
/// the whole tells both.
proof fn parts_are_determined(
    front: Seq<char>,
    a: Seq<char>,
    b: Seq<char>,
    x: Seq<char>,
    y: Seq<char>,
    sep: Seq<char>,
    end: Seq<char>,
)
    requires
        sep.len() > 0,
        front + a + sep + b + end == front + x + sep + y + end,
        forall|i: int| 0 <= i < a.len() ==> #[trigger] a[i] != sep[0],
        forall|i: int| 0 <= i < x.len() ==> #[trigger] x[i] != sep[0],
    ensures
        a == x,
        b == y,
{
    let s = front + a + sep + b + end;
    let t = front + x + sep + y + end;
    let f = front.len() as int;
    if a.len() < x.len() {
        assert(s[f + a.len()] == sep[0]);
        assert(t[f + a.len()] == x[a.len() as int]);
    } else if x.len() < a.len() {
        assert(t[f + x.len()] == sep[0]);
        assert(s[f + x.len()] == a[x.len() as int]);
    }
    assert(a =~= s.subrange(f, f + a.len()));
    assert(x =~= t.subrange(f, f + x.len()));
    let g = f + a.len() + sep.len();
    assert(s.len() == t.len());
    assert(b =~= s.subrange(g, g + b.len()));
    assert(y =~= t.subrange(g, g + y.len()));
}

/// The words of a mask in the loader's source are its two words in hexadecimal, the low one
/// first.
pub proof fn masks_are_spelled(mask: FeatureMask, r: String, words: [u64; 2]) -> (parts: (
    Seq<char>,
    Seq<char>,
))
    requires
        call_ensures(format_mask, (mask,), r),
        call_ensures(FeatureMask::words, (mask,), words),
    ensures
        r@ == "FeatureMask::from_words([0x"@ + parts.0 + ", 0x"@ + parts.1 + "]),\n"@,
        text_laws::is_hex(parts.0),
        text_laws::is_hex(parts.1),
        text_laws::worth(parts.0, 16) == words[0],
        text_laws::worth(parts.1, 16) == words[1],
{
    text_laws::hexadecimal_reads_back(mask.low_word() as nat);
    text_laws::hexadecimal_reads_back(mask.high_word() as nat);
    (text::hexadecimal(mask.low_word() as nat), text::hexadecimal(mask.high_word() as nat))
}

/// The words of a mask in the loader's source read back: the numbers that they are in
/// hexadecimal, handed to `FeatureMask::from_words` in the order in which they stand, make the
/// mask that was written.
pub proof fn masks_read_back(
    mask: FeatureMask,
    r: String,
    first: Seq<char>,
    second: Seq<char>,
    words: [u64; 2],
    back: FeatureMask,
)
    requires
        call_ensures(format_mask, (mask,), r),
        r@ == "FeatureMask::from_words([0x"@ + first + ", 0x"@ + second + "]),\n"@,
        text_laws::is_hex(first),
        text_laws::is_hex(second),
        words[0] == text_laws::worth(first, 16),
        words[1] == text_laws::worth(second, 16),
        call_ensures(FeatureMask::from_words, (words,), back),
    ensures
        back == mask,
{
    let low = text::hexadecimal(mask.low_word() as nat);
    let high = text::hexadecimal(mask.high_word() as nat);
    text_laws::hexadecimal_reads_back(mask.low_word() as nat);
    text_laws::hexadecimal_reads_back(mask.high_word() as nat);
    reveal_strlit(", 0x");
    assert forall|i: int| 0 <= i < first.len() implies #[trigger] first[i] != ", 0x"@[0] by {
        assert('0' <= first[i] <= '9' || 'a' <= first[i] <= 'f');
    }
    assert forall|i: int| 0 <= i < low.len() implies #[trigger] low[i] != ", 0x"@[0] by {
        assert('0' <= low[i] <= '9' || 'a' <= low[i] <= 'f');
    }
    parts_are_determined(
        "FeatureMask::from_words([0x"@,
        low,
        high,
        first,
        second,
        ", 0x"@,
        "]),\n"@,
    );
    feature_mask::words_are_the_mask(mask, back);
}

/// Kinds of target CPU stand in the loader's source under the names that they have there, and
/// the numbers of levels and generations read back.
pub proof fn kinds_are_named(kind: TargetKind, r: String) -> (digits: Seq<char>)
    requires
        call_ensures(target_kind_expr, (kind,), r),
    ensures
        kind is Generic ==> r@ == "TargetKind::Generic"@,
        kind is X86IntelCore ==> r@ == "TargetKind::X86IntelCore"@,
        kind is X86IntelXeon ==> r@ == "TargetKind::X86IntelXeon"@,
        kind is X86IntelAtom ==> r@ == "TargetKind::X86IntelAtom"@,
        kind is X86AmdOther ==> r@ == "TargetKind::X86AmdOther"@,
        kind is Aarch64ArmNeoverseN ==> r@ == "TargetKind::Aarch64ArmNeoverseN"@,
        kind is Aarch64ArmNeoverseV ==> r@ == "TargetKind::Aarch64ArmNeoverseV"@,
        kind is Aarch64ArmNeoverseE ==> r@ == "TargetKind::Aarch64ArmNeoverseE"@,
        kind is Aarch64ArmCortexA ==> r@ == "TargetKind::Aarch64ArmCortexA"@,
        kind is Aarch64ArmCortexX ==> r@ == "TargetKind::Aarch64ArmCortexX"@,
        kind is Aarch64Apple ==> r@ == "TargetKind::Aarch64Apple"@,
        kind is Aarch64Ampere ==> r@ == "TargetKind::Aarch64Ampere"@,
        kind is Aarch64Other ==> r@ == "TargetKind::Aarch64Other"@,
        kind matches TargetKind::X86NeutralLevel { level } ==> r@
            == "TargetKind::X86NeutralLevel { level: "@ + digits + " }"@ && text_laws::is_dec(digits)
            && text_laws::worth(digits, 10) == level,
        kind matches TargetKind::X86AmdZen { generation } ==> r@
            == "TargetKind::X86AmdZen { generation: "@ + digits + " }"@ && text_laws::is_dec(digits)
            && text_laws::worth(digits, 10) == generation,
{
    match kind {
        TargetKind::X86NeutralLevel { level } => {
            text_laws::decimal_reads_back(level as nat);
            text::decimal(level as nat)
        },
        TargetKind::X86AmdZen { generation } => {
            text_laws::decimal_reads_back(generation as nat);
            text::decimal(generation as nat)
        },
        _ => Seq::empty(),
    }
}

/// Compressions stand in the loader's source under the names that they have there.
pub proof fn compressions_are_named(compression: PayloadCompression, r: &'static str)
    requires
        call_ensures(payload_compression_expr, (compression,), r),
    ensures
        compression is Zstd ==> r@ == "PayloadCompression::Zstd"@,
        compression is Uncompressed ==> r@ == "PayloadCompression::None"@,
{
}

proof fn entry_of(variants: Seq<VariantBuild>, strategy: LoaderStrategy, i: int) -> (sides: (
    Seq<char>,
    Seq<char>,
))
    requires
        0 <= i < variants.len(),
    ensures
        table_entries(variants, strategy) == sides.0 + table_entry(variants[i], strategy) + sides.1,
        sides.0 == table_entries(variants.take(i), strategy),
    decreases variants.len(),
{
    let shorter = variants.drop_last();
    if i == variants.len() - 1 {
        assert(variants.take(i) =~= shorter);
        let before = table_entries(shorter, strategy);
        assert(before + table_entry(variants[i], strategy) =~= before + table_entry(
            variants[i],
            strategy,
        ) + Seq::<char>::empty());
        (before, Seq::empty())
    } else {
        let sides = entry_of(shorter, strategy, i);
        let last = table_entry(variants.last(), strategy);
        assert(shorter.take(i) =~= variants.take(i));
        assert(sides.0 + table_entry(variants[i], strategy) + sides.1 + last =~= sides.0
            + table_entry(variants[i], strategy) + (sides.1 + last));
        (sides.0, sides.1 + last)
    }
}

/// The table has an entry for each variant, in their order, and the entry gives under each name
/// what belongs there: the features that the variant requires and those that it makes use of,
/// how many the latter are, its tier, its kind, and how its payload is found and stored.
#[verifier::spinoff_prover]
#[verifier::rlimit(60)]
pub proof fn entries_tell_the_variants(
    variants: &[VariantBuild],
    strategy: LoaderStrategy,
    r: String,
    i: int,
    required: String,
    rank: String,
    count: u16,
    count_text: String,
    tier: String,
    kind: String,
    compression: &'static str,
    length: String,
) -> (sides: (Seq<char>, Seq<char>))
    requires
        call_ensures(generated_manifest, (variants, strategy), r),
        0 <= i < variants@.len(),
        call_ensures(format_mask, (variants@[i].required_features,), required),
        call_ensures(format_mask, (variants@[i].rank_features,), rank),
        call_ensures(FeatureMask::count, (variants@[i].rank_features,), count),
        call_ensures(decimal_text, (count as u64,), count_text),
        call_ensures(decimal_text, (variants@[i].feature_tier as u64,), tier),
        call_ensures(target_kind_expr, (variants@[i].target_kind,), kind),
        call_ensures(payload_compression_expr, (variants@[i].payload_compression,), compression),
        call_ensures(decimal_text, (variants@[i].uncompressed_len,), length),
    ensures
        r@ == sides.0 + ("    Variant {\n"@ + ("        target_cpu: "@ + text::debug_text(
            variants@[i].target_cpu@,
        ) + ",\n        required_features: "@ + required@ + "        rank_features: "@ + rank@
            + "        rank_feature_count: "@ + count_text@ + ",\n        feature_tier: "@ + tier@
            + ",\n        target_kind: "@ + kind@ + ",\n"@) + (
        "        env_selected_target_cpu: b\"CARGO_SONIC_SELECTED_TARGET_CPU="@ + text::escaped(
            variants@[i].target_cpu@,
        ) + "\\0\",\n        env_selected_flags: b\"CARGO_SONIC_SELECTED_FLAGS="@ + text::escaped(
            text::join(text::texts(variants@[i].feature_names@), ","@),
        ) + "\\0\",\n        payload: "@ + (if strategy is Embedded {
            "&"@ + ("PAYLOAD_"@ + text::uppercase(
                payload_names::safe_name(variants@[i].target_cpu@),
            )) + ".0"@
        } else {
            "&[]"@
        }) + ",\n        payload_path: b"@ + text::debug_text(variants@[i].bundle_path@)
            + ",\n        payload_compression: "@ + compression@ + ",\n        uncompressed_len: "@
            + length@ + ",\n"@) + "    },\n"@) + sides.1,
{
    let v = variants@[i];
    let sides = entry_of(variants@, strategy, i);
    let front = IMPORTS@ + (match strategy {
        LoaderStrategy::Embedded => ALIGNED_PAYLOAD@ + embed_lines(variants@),
        LoaderStrategy::Bundle => Seq::empty(),
    }) + "\n"@ + TYPES@ + "pub static VARIANTS: &[Variant] = &[\n"@;
    reveal(table_entry);
    let entry = table_entry(v, strategy);
    text_laws::regroup(front, sides.0 + entry, sides.1);
    text_laws::regroup(front, sides.0, entry);
    text_laws::regroup(front + sides.0 + entry, sides.1, "];\n"@);
    assert(r@ == (front + sides.0) + entry + (sides.1 + "];\n"@));
    (front + sides.0, sides.1 + "];\n"@)
}

proof fn embedded_of(variants: Seq<VariantBuild>, i: int) -> (sides: (Seq<char>, Seq<char>))
    requires
        0 <= i < variants.len(),
    ensures
        embed_lines(variants) == sides.0 + embed_line(variants[i]) + sides.1,
    decreases variants.len(),
{
    let shorter = variants.drop_last();
    if i == variants.len() - 1 {
        let before = embed_lines(shorter);
        assert(before + embed_line(variants[i]) =~= before + embed_line(variants[i]) + Seq::<
            char,
        >::empty());
        (before, Seq::empty())
    } else {
        let sides = embedded_of(shorter, i);
        let last = embed_line(variants.last());
        assert(sides.0 + embed_line(variants[i]) + sides.1 + last =~= sides.0 + embed_line(
            variants[i],
        ) + (sides.1 + last));
        (sides.0, sides.1 + last)
    }
}

/// A loader that embeds its payloads has a constant for each, which is named after the target
/// CPU, as long as the payload is stored, and filled from the payload's file.
#[verifier::spinoff_prover]
#[verifier::rlimit(60)]
pub proof fn payloads_are_embedded(
    variants: &[VariantBuild],
    r: String,
    i: int,
    cpu: &str,
    safe: String,
    length: String,
    ending: &'static str,
) -> (sides: (Seq<char>, Seq<char>))
    requires
        call_ensures(generated_manifest, (variants, LoaderStrategy::Embedded), r),
        0 <= i < variants@.len(),
        cpu@ == variants@[i].target_cpu@,
        call_ensures(sanitize_cpu, (cpu,), safe),
        call_ensures(decimal_text, (variants@[i].payload_len,), length),
        call_ensures(payload_extension, (variants@[i].payload_compression,), ending),
    ensures
        r@ == sides.0 + ("static "@ + ("PAYLOAD_"@ + text::uppercase(safe@)) + ": AlignedPayload<"@
            + length@ + "> = AlignedPayload(*include_bytes!(\"../payloads/"@ + safe@ + ending@
            + "\"));\n"@) + sides.1,
{
    let sides = embedded_of(variants@, i);
    let line = embed_line(variants@[i]);
    let entries = table_entries(variants@, LoaderStrategy::Embedded);
    let front = IMPORTS@ + ALIGNED_PAYLOAD@ + sides.0;
    let start = front + line + sides.1;
    let rest = "\n"@ + TYPES@ + "pub static VARIANTS: &[Variant] = &[\n"@ + entries + "];\n"@;
    let lines = embed_lines(variants@);
    assert(lines == sides.0 + line + sides.1);
    text_laws::regroup(IMPORTS@, ALIGNED_PAYLOAD@, lines);
    text_laws::regroup(IMPORTS@ + ALIGNED_PAYLOAD@, sides.0 + line, sides.1);
    text_laws::regroup(IMPORTS@ + ALIGNED_PAYLOAD@, sides.0, line);
    assert(IMPORTS@ + (ALIGNED_PAYLOAD@ + lines) == start);
    text_laws::regroup(start, "\n"@, TYPES@);
    text_laws::regroup(start, "\n"@ + TYPES@, "pub static VARIANTS: &[Variant] = &[\n"@);
    text_laws::regroup(
        start,
        "\n"@ + TYPES@ + "pub static VARIANTS: &[Variant] = &[\n"@,
        entries,
    );
    text_laws::regroup(
        start,
        "\n"@ + TYPES@ + "pub static VARIANTS: &[Variant] = &[\n"@ + entries,
        "];\n"@,
    );
    text_laws::regroup(front + line, sides.1, rest);
    (front, sides.1 + rest)
}

/// The module begins with what it uses and with the setting that is handed to the payload.
pub proof fn the_module_begins_with_what_it_uses(
    variants: &[VariantBuild],
    strategy: LoaderStrategy,
    r: String,
)
    requires
        call_ensures(generated_manifest, (variants, strategy), r),
    ensures
        text::has_prefix(
            r@,
            "use crate::feature_mask::FeatureMask;\nuse crate::select::TargetKind;\n\npub static ENV_ENABLED: &[u8] = b\"CARGO_SONIC_ENABLED=1\\0\";\n\n"@,
        ),
{
    assert(r@.take(IMPORTS@.len() as int) =~= IMPORTS@);
}

/// The loader needs a decompressor if and only if one of its payloads is compressed.
pub proof fn one_compressed_payload_is_enough(variants: &[VariantBuild], r: bool, i: int)
    requires
        call_ensures(uses_zstd, (variants,), r),
        0 <= i < variants@.len(),
    ensures
        variants@[i].payload_compression is Zstd ==> r,
        r ==> exists|k: int|
            0 <= k < variants@.len() && (#[trigger] variants@[k]).payload_compression is Zstd,
{
}

} // verus!
