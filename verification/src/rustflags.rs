//! The rustc flags that payloads and the loader are built with.
use crate::text::{
    self, chars_of, contains, escape_quotes, join_list, split_whitespace, starts_with,
};
use vstd::prelude::*;
use vstd::string::{StringExecFns, StringSliceAdditionalSpecFns};

verus! {

/// The flag that makes rustc generate code for the target CPU.
pub fn target_cpu_rustflag(cpu: &str) -> (r: String)
    ensures
        r@ == "-Ctarget-cpu="@ + cpu@,
{
    let mut r = "-Ctarget-cpu=".to_owned();
    r.append(cpu);
    r
}

// ---------------------------------------------------------------------------
// Flags in environment variables

/// The byte that separates encoded flags.
pub const SEPARATOR: u8 = 0x1f;

/// Encoded flags with one more flag at the end.
pub open spec fn with_flag(flags: Seq<u8>, flag: Seq<u8>) -> Seq<u8> {
    if flags.len() == 0 {
        flag
    } else {
        flags.push(SEPARATOR) + flag
    }
}

/// Encoded flags with more flags at the end.
pub open spec fn with_flags(flags: Seq<u8>, more: Seq<Seq<u8>>) -> Seq<u8>
    decreases more.len(),
{
    if more.len() == 0 {
        flags
    } else {
        with_flag(with_flags(flags, more.drop_last()), more.last())
    }
}

/// The bytes of the strings of a list.
pub open spec fn byte_texts(list: Seq<String>) -> Seq<Seq<u8>> {
    list.map_values(|s: String| vstd::utf8::encode_utf8(s@))
}

/// Appends the bytes of a string.
fn push_bytes(bytes: &mut Vec<u8>, s: &str)
    ensures
        final(bytes)@ == old(bytes)@ + s.spec_bytes(),
{
    let more = s.as_bytes();
    let mut i: usize = 0;
    while i < more.len()
        invariant
            i <= more@.len(),
            more@ == s.spec_bytes(),
            bytes@ == old(bytes)@ + more@.take(i as int),
        decreases more@.len() - i,
    {
        bytes.push(more[i]);
        assert(more@.take(i + 1) =~= more@.take(i as int).push(more@[i as int]));
        i += 1;
    }
    assert(more@.take(i as int) =~= more@);
}

/// Appends a flag to encoded flags.
pub fn append_encoded_rustflag(flags: Vec<u8>, flag: &str) -> (r: Vec<u8>)
    ensures
        r@ == with_flag(flags@, vstd::utf8::encode_utf8(flag@)),
{
    let ghost before = flags@;
    let mut out = flags;
    if out.len() > 0 {
        out.push(SEPARATOR);
    }
    push_bytes(&mut out, flag);
    assert(out@ =~= with_flag(before, vstd::utf8::encode_utf8(flag@)));
    out
}

/// Appends flags to encoded flags.
pub fn append_encoded_rustflags(flags: Vec<u8>, rustflags: &[String]) -> (r: Vec<u8>)
    ensures
        r@ == with_flags(flags@, byte_texts(rustflags@)),
{
    let ghost more = byte_texts(rustflags@);
    let ghost start = flags@;
    let mut out = flags;
    let mut i: usize = 0;
    assert(more.take(0) =~= Seq::<Seq<u8>>::empty());
    while i < rustflags.len()
        invariant
            i <= rustflags@.len(),
            more == byte_texts(rustflags@),
            out@ == with_flags(start, more.take(i as int)),
        decreases rustflags@.len() - i,
    {
        assert(more.take(i + 1).drop_last() =~= more.take(i as int));
        out = append_encoded_rustflag(out, rustflags[i].as_str());
        i += 1;
    }
    assert(more.take(i as int) =~= more);
    out
}

/// Encodes flags.
pub fn encode_rustflags(rustflags: &[String]) -> (r: Vec<u8>)
    ensures
        r@ == with_flags(Seq::empty(), byte_texts(rustflags@)),
{
    append_encoded_rustflags(Vec::new(), rustflags)
}

/// The flags that encoded flags consist of.
pub open spec fn decoded(flags: Seq<u8>) -> Seq<Seq<u8>>
    decreases flags.len(),
{
    if flags.len() == 0 {
        seq![flags]
    } else {
        let before = decoded(flags.drop_last());
        if flags.last() == SEPARATOR {
            before.push(Seq::empty())
        } else {
            before.update(before.len() - 1, before.last().push(flags.last()))
        }
    }
}

proof fn decoded_is_not_empty(flags: Seq<u8>)
    ensures
        decoded(flags).len() > 0,
    decreases flags.len(),
{
    if flags.len() > 0 {
        decoded_is_not_empty(flags.drop_last());
    }
}

/// Bytes without a separator extend the last flag.
proof fn decoded_of_longer_flag(flags: Seq<u8>, more: Seq<u8>)
    requires
        !more.contains(SEPARATOR),
    ensures
        decoded(flags + more).len() == decoded(flags).len(),
        decoded(flags + more) == decoded(flags).update(
            decoded(flags).len() - 1,
            decoded(flags).last() + more,
        ),
    decreases more.len(),
{
    decoded_is_not_empty(flags);
    if more.len() == 0 {
        assert(flags + more =~= flags);
        assert(decoded(flags).last() + more =~= decoded(flags).last());
        assert(decoded(flags) =~= decoded(flags).update(
            decoded(flags).len() - 1,
            decoded(flags).last() + more,
        ));
    } else {
        let fewer = more.drop_last();
        assert forall|i: int| 0 <= i < fewer.len() implies fewer[i] != SEPARATOR by {
            assert(more.contains(more[i]));
        }
        decoded_of_longer_flag(flags, fewer);
        assert((flags + more).drop_last() =~= flags + fewer);
        assert(more.contains(more.last()));
        assert(decoded(flags).last() + fewer.push(more.last()) =~= (decoded(flags).last()
            + fewer).push(more.last()));
        assert(fewer.push(more.last()) =~= more);
        assert(decoded(flags + more) =~= decoded(flags).update(
            decoded(flags).len() - 1,
            decoded(flags).last() + more,
        ));
    }
}

/// Encoded flags can be read back, if there is at least one, the first is not empty, and
/// none holds the separator.
pub proof fn encoding_is_lossless(list: Seq<Seq<u8>>)
    requires
        list.len() > 0,
        list[0].len() > 0,
        forall|i: int| 0 <= i < list.len() ==> !(#[trigger] list[i]).contains(SEPARATOR),
    ensures
        decoded(with_flags(Seq::empty(), list)) == list,
        with_flags(Seq::empty(), list).len() > 0,
    decreases list.len(),
{
    let before = list.drop_last();
    let last = list.last();
    let flags = with_flags(Seq::empty(), before);
    assert(last == list[list.len() - 1]);
    if before.len() == 0 {
        assert(with_flags(Seq::<u8>::empty(), before) =~= Seq::<u8>::empty());
        decoded_of_longer_flag(Seq::empty(), last);
        assert(Seq::<u8>::empty() + last =~= last);
        assert(decoded(last) =~= list);
    } else {
        assert forall|i: int| 0 <= i < before.len() implies !(#[trigger] before[i]).contains(
            SEPARATOR,
        ) by {
            assert(before[i] == list[i]);
        }
        encoding_is_lossless(before);
        let opened = flags.push(SEPARATOR);
        assert(opened.drop_last() =~= flags);
        assert(decoded(opened) =~= before.push(Seq::<u8>::empty()));
        decoded_of_longer_flag(opened, last);
        assert(Seq::<u8>::empty() + last =~= last);
        assert(decoded(opened + last) =~= list);
    }
}

/// How the flags of a payload are handed to Cargo.
#[derive(Debug)]
pub enum PayloadRustflags {
    /// In `CARGO_ENCODED_RUSTFLAGS`.
    Encoded(Vec<u8>),
    /// In `RUSTFLAGS`.
    Plain(Vec<u8>),
    /// In a `--config` argument.
    CargoConfig(String),
}

/// The `--config` argument that sets the flags of a target.
pub open spec fn config_arg(target: Seq<char>, rustflags: Seq<Seq<char>>) -> Seq<char> {
    "target."@ + target + ".rustflags=["@ + text::join(quoted(rustflags), ","@) + "]"@
}

/// The texts of a list as string literals.
pub open spec fn quoted(list: Seq<Seq<char>>) -> Seq<Seq<char>> {
    list.map_values(|s: Seq<char>| "\""@ + text::escaped(s) + "\""@)
}

/// The `--config` argument that sets the flags of a target.
pub fn target_rustflags_config_arg(target: &str, rustflags: &[String]) -> (r: String)
    ensures
        r@ == config_arg(target@, text::texts(rustflags@)),
{
    let mut literals: Vec<String> = Vec::new();
    while literals.len() < rustflags.len()
        invariant
            literals@.len() <= rustflags@.len(),
            text::texts(literals@) == quoted(text::texts(rustflags@)).take(literals@.len() as int),
        decreases rustflags@.len() - literals@.len(),
    {
        let ghost before = text::texts(literals@);
        let ghost n = literals@.len() as int;
        let mut literal = "\"".to_owned();
        let escaped = escape_toml_string(rustflags[literals.len()].as_str());
        literal.append(escaped.as_str());
        literal.append("\"");
        let ghost line = literal@;
        literals.push(literal);
        assert(text::texts(literals@) =~= before.push(line));
        assert(quoted(text::texts(rustflags@))[n] == line);
    }
    assert(text::texts(literals@) =~= quoted(text::texts(rustflags@)));
    let mut r = "target.".to_owned();
    r.append(target);
    r.append(".rustflags=[");
    let list = join_list(&literals, ",");
    r.append(list.as_str());
    r.append("]");
    r
}

/// Escapes a value for a TOML string.
pub fn escape_toml_string(value: &str) -> (r: String)
    ensures
        r@ == text::escaped(value@),
{
    escape_quotes(value)
}

/// How the flags are handed to Cargo, given the values of `CARGO_ENCODED_RUSTFLAGS` and
/// `RUSTFLAGS`: a variable that is set is extended, the first one before the second; else
/// the flags go into a `--config` argument.
pub fn rustflags_for_target(
    target: &str,
    rustflags: &[String],
    encoded: Option<Vec<u8>>,
    plain: Option<Vec<u8>>,
) -> (r: PayloadRustflags)
    ensures
        match encoded {
            Some(flags) => r matches PayloadRustflags::Encoded(bytes) && bytes@ == with_flags(
                flags@,
                byte_texts(rustflags@),
            ),
            None => match plain {
                Some(flags) => {
                    let gap = if flags@.len() > 0 && rustflags@.len() > 0 {
                        " "@
                    } else {
                        ""@
                    };
                    r matches PayloadRustflags::Plain(bytes) && bytes@ == flags@
                        + vstd::utf8::encode_utf8(gap) + vstd::utf8::encode_utf8(
                        text::join(text::texts(rustflags@), " "@),
                    )
                },
                None => r matches PayloadRustflags::CargoConfig(arg) && arg@ == config_arg(
                    target@,
                    text::texts(rustflags@),
                ),
            },
        },
{
    if let Some(flags) = encoded {
        return PayloadRustflags::Encoded(append_encoded_rustflags(flags, rustflags));
    }
    if let Some(flags) = plain {
        let mut out = flags;
        let gap = if out.len() > 0 && rustflags.len() > 0 {
            " "
        } else {
            ""
        };
        push_bytes(&mut out, gap);
        let list = join_list(rustflags, " ");
        push_bytes(&mut out, list.as_str());
        return PayloadRustflags::Plain(out);
    }
    PayloadRustflags::CargoConfig(target_rustflags_config_arg(target, rustflags))
}

/// How the flags of a payload are handed to Cargo: the one that sets the target CPU, as
/// `rustflags_for_target` says.
pub fn payload_rustflags(
    target: &str,
    cpu: &str,
    encoded: Option<Vec<u8>>,
    plain: Option<Vec<u8>>,
) -> (r: PayloadRustflags)
    ensures
        ({
            let flag = "-Ctarget-cpu="@ + cpu@;
            match encoded {
                Some(flags) => r matches PayloadRustflags::Encoded(bytes) && bytes@ == with_flag(
                    flags@,
                    vstd::utf8::encode_utf8(flag),
                ),
                None => match plain {
                    Some(flags) => {
                        let gap = if flags@.len() > 0 {
                            " "@
                        } else {
                            ""@
                        };
                        r matches PayloadRustflags::Plain(bytes) && bytes@ == flags@
                            + vstd::utf8::encode_utf8(gap) + vstd::utf8::encode_utf8(flag)
                    },
                    None => r matches PayloadRustflags::CargoConfig(arg) && arg@ == config_arg(
                        target@,
                        seq![flag],
                    ),
                },
            }
        }),
{
    let mut rustflags: Vec<String> = Vec::new();
    rustflags.push(target_cpu_rustflag(cpu));
    proof {
        let flag = "-Ctarget-cpu="@ + cpu@;
        assert(text::texts(rustflags@) =~= seq![flag]);
        let bytes = byte_texts(rustflags@);
        assert(bytes =~= seq![vstd::utf8::encode_utf8(flag)]);
        assert(bytes.drop_last() =~= Seq::<Seq<u8>>::empty());
        assert forall|flags: Seq<u8>| #[trigger] with_flags(flags, bytes) == with_flag(
            flags,
            vstd::utf8::encode_utf8(flag),
        ) by {
            assert(with_flags(flags, bytes.drop_last()) == flags);
        }
    }
    rustflags_for_target(target, &rustflags, encoded, plain)
}

// ---------------------------------------------------------------------------
// The loader's flags

/// The character that stands for `c` in the name of an environment variable.
pub open spec fn env_char(c: char) -> char {
    if 'a' <= c <= 'z' {
        (c as u8 - 32) as char
    } else if 'A' <= c <= 'Z' || '0' <= c <= '9' {
        c
    } else {
        '_'
    }
}

/// The environment variable in which Cargo looks for the flags of a target.
pub fn cargo_target_rustflags_env(target: &str) -> (r: String)
    ensures
        r@ == "CARGO_TARGET_"@ + target@.map_values(|c: char| env_char(c)) + "_RUSTFLAGS"@,
{
    let chars = chars_of(target);
    let mut r = "CARGO_TARGET_".to_owned();
    let ghost start = r@;
    let ghost mapped = target@.map_values(|c: char| env_char(c));
    let mut i: usize = 0;
    while i < chars.len()
        invariant
            i <= chars@.len(),
            chars@ == target@,
            mapped == target@.map_values(|c: char| env_char(c)),
            r@ == start + mapped.take(i as int),
        decreases chars@.len() - i,
    {
        let c = chars[i];
        let e = if 'a' <= c && c <= 'z' {
            (c as u8 - 32) as char
        } else if ('A' <= c && c <= 'Z') || ('0' <= c && c <= '9') {
            c
        } else {
            '_'
        };
        assert(mapped[i as int] == e);
        r.push(e);
        assert(mapped.take(i + 1) =~= mapped.take(i as int).push(e));
        i += 1;
    }
    assert(mapped.take(i as int) =~= mapped);
    r.append("_RUSTFLAGS");
    r
}

/// The flags of a text that separates them by white space.
pub fn split_rustflags(flags: &str) -> (r: Vec<String>)
    ensures
        text::texts(r@) == text::words(flags@),
{
    split_whitespace(flags)
}

/// The flags that the loader needs on a target: it is linked statically, without the usual
/// startup code, and on x86-64 with the large code model.
pub open spec fn loader_flags(target: Seq<char>) -> Seq<char> {
    let x86 = text::has_prefix(target, "x86_64-"@);
    let musl = text::has_part(target, "-musl"@);
    if x86 && musl {
        "-C panic=abort -C code-model=large -C target-feature=+crt-static -C relocation-model=static -C link-self-contained=no -C link-arg=-static"@
    } else if x86 {
        "-C panic=abort -C code-model=large -C target-feature=+crt-static -C relocation-model=static -C link-arg=-nostartfiles -C link-arg=-static"@
    } else if musl {
        "-C panic=abort -C target-feature=+crt-static -C relocation-model=static -C link-self-contained=no -C link-arg=-static"@
    } else {
        "-C panic=abort -C target-feature=+crt-static -C relocation-model=static -C link-arg=-nostartfiles -C link-arg=-static"@
    }
}

/// The flags that the loader needs on a target.
pub fn loader_rustflags(target: &str) -> (r: &'static str)
    ensures
        r@ == loader_flags(target@),
{
    let x86 = starts_with(target, "x86_64-");
    let musl = contains(target, "-musl");
    if x86 && musl {
        "-C panic=abort -C code-model=large -C target-feature=+crt-static -C relocation-model=static -C link-self-contained=no -C link-arg=-static"
    } else if x86 {
        "-C panic=abort -C code-model=large -C target-feature=+crt-static -C relocation-model=static -C link-arg=-nostartfiles -C link-arg=-static"
    } else if musl {
        "-C panic=abort -C target-feature=+crt-static -C relocation-model=static -C link-self-contained=no -C link-arg=-static"
    } else {
        "-C panic=abort -C target-feature=+crt-static -C relocation-model=static -C link-arg=-nostartfiles -C link-arg=-static"
    }
}

/// Appends strings to a list.
fn extend(list: &mut Vec<String>, more: Vec<String>)
    ensures
        text::texts(final(list)@) == text::texts(old(list)@) + text::texts(more@),
{
    let mut more = more;
    let ghost added = more@;
    list.append(&mut more);
    assert(text::texts(list@) =~= text::texts(old(list)@) + text::texts(added));
}

/// The flags that the loader is built with: those that the user sets for it, those that it
/// needs, and for an auditable binary those that link the dependency list.
pub fn loader_build_rustflags(target: &str, auditable: bool, user_flags: Option<&str>) -> (r: Vec<
    String,
>)
    ensures
        text::texts(r@) == (match user_flags {
            Some(flags) => text::words(flags@),
            None => Seq::empty(),
        }) + text::words(loader_flags(target@)) + (if auditable {
            text::words(
                "-C link-arg=auditable.o -C link-arg=-Wl,-u,__cargo_sonic_auditable_dep_v0"@,
            )
        } else {
            Seq::empty()
        }),
{
    let mut rustflags: Vec<String> = Vec::new();
    assert(text::texts(rustflags@) =~= Seq::<Seq<char>>::empty());
    if let Some(flags) = user_flags {
        extend(&mut rustflags, split_rustflags(flags));
        assert(text::texts(rustflags@) =~= text::words(flags@));
    }
    extend(&mut rustflags, split_rustflags(loader_rustflags(target)));
    if auditable {
        extend(
            &mut rustflags,
            split_rustflags(
                "-C link-arg=auditable.o -C link-arg=-Wl,-u,__cargo_sonic_auditable_dep_v0",
            ),
        );
    }
    rustflags
}

// ---------------------------------------------------------------------------
// What flags mean to Cargo

/// Encoded flags are separated by the unit separator of ASCII, and nothing else is added or
/// lost.
pub proof fn flags_are_separated(flags: Vec<u8>, flag: &str, r: Vec<u8>)
    requires
        call_ensures(append_encoded_rustflag, (flags, flag), r),
    ensures
        flags@.len() == 0 ==> r@ == vstd::utf8::encode_utf8(flag@),
        flags@.len() > 0 ==> r@ == flags@ + seq![31u8] + vstd::utf8::encode_utf8(flag@),
{
    assert(flags@.push(31u8) =~= flags@ + seq![31u8]);
}

/// Appending flags goes flag by flag, in their order.
pub proof fn flags_are_appended_in_order(
    flags: Vec<u8>,
    list: &[String],
    longer: &[String],
    last: &str,
    some: Vec<u8>,
    more: Vec<u8>,
    all: Vec<u8>,
)
    requires
        call_ensures(append_encoded_rustflags, (flags, list), some),
        call_ensures(append_encoded_rustflag, (some, last), more),
        call_ensures(append_encoded_rustflags, (flags, longer), all),
        longer@.len() == list@.len() + 1,
        longer@.drop_last() == list@,
        longer@.last()@ == last@,
    ensures
        list@.len() == 0 ==> some@ == flags@,
        all@ == more@,
{
    assert(byte_texts(longer@).drop_last() =~= byte_texts(list@));
    assert(byte_texts(longer@).last() == vstd::utf8::encode_utf8(last@));
}

/// The flag for the target CPU of a payload comes after whatever the environment sets, so that
/// it counts: in the encoded variable if that is set, else in the plain one if that is set,
/// else in an argument for Cargo.
pub proof fn the_target_cpu_comes_last(
    target: &str,
    cpu: &str,
    encoded: Option<Vec<u8>>,
    plain: Option<Vec<u8>>,
    flag: String,
    r: PayloadRustflags,
)
    requires
        call_ensures(target_cpu_rustflag, (cpu,), flag),
        call_ensures(payload_rustflags, (target, cpu, encoded, plain), r),
    ensures
        flag@ == "-Ctarget-cpu="@ + cpu@,
        encoded matches Some(flags) ==> (r matches PayloadRustflags::Encoded(bytes) && (if flags@.len()
            == 0 {
            bytes@ == vstd::utf8::encode_utf8(flag@)
        } else {
            bytes@ == flags@ + seq![31u8] + vstd::utf8::encode_utf8(flag@)
        })),
        encoded is None ==> (plain matches Some(flags) ==> (r matches PayloadRustflags::Plain(bytes)
            && (if flags@.len() == 0 {
            bytes@ == vstd::utf8::encode_utf8(flag@)
        } else {
            bytes@ == flags@ + seq![32u8] + vstd::utf8::encode_utf8(flag@)
        }))),
        encoded is None && plain is None ==> (r matches PayloadRustflags::CargoConfig(arg) && arg@
            == "target."@ + target@ + ".rustflags=["@ + ("\""@ + text::escaped(flag@) + "\""@)
            + "]"@),
{
    if let Some(flags) = encoded {
        assert(flags@.push(31u8) =~= flags@ + seq![31u8]);
    } else if let Some(flags) = plain {
        reveal_strlit(" ");
        reveal_strlit("");
        vstd::utf8::is_ascii_chars_encode_utf8(" "@);
        vstd::utf8::is_ascii_chars_encode_utf8(""@);
        assert(vstd::utf8::encode_utf8(" "@) =~= seq![32u8]);
        assert(vstd::utf8::encode_utf8(""@) =~= Seq::<u8>::empty());
        assert(flags@ + Seq::<u8>::empty() =~= flags@);
        assert(flags@.len() == 0 ==> flags@ + vstd::utf8::encode_utf8(flag@)
            =~= vstd::utf8::encode_utf8(flag@));
    } else {
        assert(quoted(seq![flag@]) =~= seq!["\""@ + text::escaped(flag@) + "\""@]);
    }
}

/// The variable for the flags of a target is named after the target: letters in upper case,
/// digits as they are, and an underscore for everything else.
pub proof fn targets_name_their_variable(target: &str, r: String, i: int)
    requires
        call_ensures(cargo_target_rustflags_env, (target,), r),
        0 <= i < target@.len(),
    ensures
        r@.len() == 13 + target@.len() + 10,
        r@.take(13) == "CARGO_TARGET_"@,
        r@.skip(13 + target@.len() as int) == "_RUSTFLAGS"@,
        'a' <= target@[i] <= 'z' ==> r@[13 + i] as int == target@[i] as int - 32,
        'A' <= target@[i] <= 'Z' || '0' <= target@[i] <= '9' ==> r@[13 + i] == target@[i],
        !('a' <= target@[i] <= 'z' || 'A' <= target@[i] <= 'Z' || '0' <= target@[i] <= '9') ==> r@[13
            + i] == '_',
{
    reveal_strlit("CARGO_TARGET_");
    reveal_strlit("_RUSTFLAGS");
    let mapped = target@.map_values(|c: char| env_char(c));
    assert(r@.take(13) =~= "CARGO_TARGET_"@);
    assert(r@.skip(13 + target@.len() as int) =~= "_RUSTFLAGS"@);
    assert(r@[13 + i] == mapped[i]);
}

/// The loader is always built to abort on panics and to be one static executable. On x86-64 it
/// has the large code model. On musl targets it is linked without what rustc brings along, on
/// others without the startup files.
pub proof fn the_loader_is_static(target: &str, x86: bool, musl: bool, r: &'static str)
    requires
        call_ensures(starts_with, (target, "x86_64-"), x86),
        call_ensures(contains, (target, "-musl"), musl),
        call_ensures(loader_rustflags, (target,), r),
    ensures
        r@ == "-C panic=abort"@ + (if x86 {
            " -C code-model=large"@
        } else {
            ""@
        }) + " -C target-feature=+crt-static -C relocation-model=static"@ + (if musl {
            " -C link-self-contained=no"@
        } else {
            " -C link-arg=-nostartfiles"@
        }) + " -C link-arg=-static"@,
{
    reveal_strlit("-C panic=abort");
    reveal_strlit(" -C code-model=large");
    reveal_strlit("");
    reveal_strlit(" -C target-feature=+crt-static -C relocation-model=static");
    reveal_strlit(" -C link-self-contained=no");
    reveal_strlit(" -C link-arg=-nostartfiles");
    reveal_strlit(" -C link-arg=-static");
    reveal_strlit("-C panic=abort -C code-model=large -C target-feature=+crt-static -C relocation-model=static -C link-self-contained=no -C link-arg=-static");
    reveal_strlit("-C panic=abort -C code-model=large -C target-feature=+crt-static -C relocation-model=static -C link-arg=-nostartfiles -C link-arg=-static");
    reveal_strlit("-C panic=abort -C target-feature=+crt-static -C relocation-model=static -C link-self-contained=no -C link-arg=-static");
    reveal_strlit("-C panic=abort -C target-feature=+crt-static -C relocation-model=static -C link-arg=-nostartfiles -C link-arg=-static");
    let s = "-C panic=abort"@ + (if x86 {
        " -C code-model=large"@
    } else {
        ""@
    }) + " -C target-feature=+crt-static -C relocation-model=static"@ + (if musl {
        " -C link-self-contained=no"@
    } else {
        " -C link-arg=-nostartfiles"@
    }) + " -C link-arg=-static"@;
    assert(r@ =~= s);
}

/// A flag that is set in the configuration is a quoted text there, with its quotes and
/// backslashes escaped, and commas stand between the flags.
pub proof fn configured_flags_are_quoted(
    target: &str,
    flags: &[String],
    longer: &[String],
    flag: String,
    text_of_it: &str,
    escaped: String,
    r: String,
    more: String,
)
    requires
        call_ensures(target_rustflags_config_arg, (target, flags), r),
        call_ensures(target_rustflags_config_arg, (target, longer), more),
        longer@ == flags@.push(flag),
        text_of_it@ == flag@,
        call_ensures(escape_toml_string, (text_of_it,), escaped),
    ensures
        flags@.len() == 0 ==> r@ == "target."@ + target@ + ".rustflags=["@ + "]"@ && more@
            == "target."@ + target@ + ".rustflags=["@ + ("\""@ + escaped@ + "\""@) + "]"@,
        flags@.len() > 0 ==> more@ == r@.drop_last() + ","@ + ("\""@ + escaped@ + "\""@) + "]"@,
{
    reveal_strlit("]");
    let was = quoted(text::texts(flags@));
    let now = quoted(text::texts(longer@));
    let literal = "\""@ + escaped@ + "\""@;
    assert(now.len() == was.len() + 1);
    assert(now.drop_last() =~= was);
    assert(now.last() == literal);
    let head = "target."@ + target@ + ".rustflags=["@;
    if flags@.len() == 0 {
        assert(text::join(was, ","@) =~= Seq::<char>::empty());
        assert(head + Seq::<char>::empty() =~= head);
    } else {
        assert(r@.drop_last() =~= head + text::join(was, ","@));
        assert(more@ =~= r@.drop_last() + ","@ + literal + "]"@);
    }
}

/// Flags go where flags are: to the encoded ones of the environment, else to the plain ones,
/// else to the configuration.
pub proof fn flags_go_where_flags_are(
    target: &str,
    rustflags: &[String],
    encoded: Option<Vec<u8>>,
    plain: Option<Vec<u8>>,
    r: PayloadRustflags,
    extended: Vec<u8>,
    joined: String,
    config: String,
)
    requires
        call_ensures(rustflags_for_target, (target, rustflags, encoded, plain), r),
        encoded matches Some(flags) ==> call_ensures(
            append_encoded_rustflags,
            (flags, rustflags),
            extended,
        ),
        call_ensures(join_list, (rustflags, " "), joined),
        call_ensures(target_rustflags_config_arg, (target, rustflags), config),
    ensures
        encoded is Some ==> (r matches PayloadRustflags::Encoded(bytes) && bytes@ == extended@),
        encoded is None && plain is Some ==> {
            let space = vstd::utf8::encode_utf8(" "@);
            &&& r is Plain
            &&& plain->0@.len() > 0 && rustflags@.len() > 0 ==> r->Plain_0@ == plain->0@ + space
                + vstd::utf8::encode_utf8(joined@)
            &&& plain->0@.len() == 0 || rustflags@.len() == 0 ==> r->Plain_0@ == plain->0@
                + vstd::utf8::encode_utf8(joined@)
        },
        encoded is None && plain is None ==> (r matches PayloadRustflags::CargoConfig(arg) && arg@
            == config@),
{
    reveal_strlit("");
    let args = (target, rustflags, encoded, plain);
    assert(""@ =~= Seq::<char>::empty());
    vstd::utf8::is_ascii_chars_encode_utf8(""@);
    assert(vstd::utf8::encode_utf8(""@) =~= Seq::<u8>::empty());
    if encoded is None && plain is Some {
        let flags = args.3->0@;
        assert(flags + Seq::<u8>::empty() =~= flags);
    }
}

/// The loader is built with the flags of the user first, then with its own, then with those
/// that keep the list of dependencies, if it has one.
pub proof fn loaders_get_the_users_flags_first(
    target: &str,
    auditable: bool,
    user: &str,
    own: &'static str,
    with_user: Vec<String>,
    without: Vec<String>,
    a: Vec<String>,
    b: Vec<String>,
    c: Vec<String>,
)
    requires
        call_ensures(loader_build_rustflags, (target, auditable, Some(user)), with_user),
        call_ensures(loader_build_rustflags, (target, auditable, None), without),
        call_ensures(loader_rustflags, (target,), own),
        call_ensures(split_rustflags, (user,), a),
        call_ensures(split_rustflags, (own,), b),
        call_ensures(
            split_rustflags,
            ("-C link-arg=auditable.o -C link-arg=-Wl,-u,__cargo_sonic_auditable_dep_v0",),
            c,
        ),
    ensures
        text::texts(with_user@) == text::texts(a@) + text::texts(without@),
        text::texts(without@) == text::texts(b@) + (if auditable {
            text::texts(c@)
        } else {
            Seq::empty()
        }),
{
    let none = Seq::<Seq<char>>::empty();
    assert(none + text::texts(b@) =~= text::texts(b@));
    assert(text::texts(with_user@) =~= text::texts(a@) + text::texts(without@));
}

} // verus!
