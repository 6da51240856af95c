//! What the kernel hands to a program at its start, and the environment that the loader
//! hands on to a payload.
use vstd::prelude::*;
use vstd::string::StringSliceAdditionalSpecFns;

verus! {

/// The key that ends the auxiliary vector.
pub const AT_NULL: usize = 0;

/// The key of the address of the program headers.
pub const AT_PHDR: usize = 3;

/// The key of the first capability word.
pub const AT_HWCAP: usize = 16;

/// The key of the second capability word.
pub const AT_HWCAP2: usize = 26;

/// The key of the third capability word.
pub const AT_HWCAP3: usize = 29;

// ---------------------------------------------------------------------------
// The initial stack

/// What the initial stack of a process holds. Arguments and environment entries are
/// addresses of strings.
#[derive(Debug)]
pub struct InitialStack {
    pub argc: usize,
    pub argv: Vec<usize>,
    pub envp: Vec<usize>,
    pub envc: usize,
    pub phdr: usize,
    pub hwcap: usize,
    pub hwcap2: usize,
    pub hwcap3: usize,
}

/// How many words other than zero come at `from` and after it.
pub open spec fn run_length(words: Seq<usize>, from: int) -> nat
    decreases words.len() - from,
{
    if 0 <= from < words.len() && words[from] != 0 {
        1 + run_length(words, from + 1)
    } else {
        0
    }
}

/// Where the auxiliary vector begins: after the argument count, the arguments and the
/// environment, the last two each ended by a zero.
pub open spec fn aux_start(words: Seq<usize>) -> int {
    let env = words[0] + 2;
    env + run_length(words, env) + 1
}

/// Whether the pairs of words from `at` on are ended by a pair with the key `AT_NULL`.
pub open spec fn aux_ends(words: Seq<usize>, at: int) -> bool
    decreases words.len() - at,
{
    0 <= at < words.len() && (words[at] == AT_NULL || (at + 1 < words.len() && aux_ends(
        words,
        at + 2,
    )))
}

/// Whether the words begin with an initial stack, up to the end of the auxiliary vector.
pub open spec fn is_initial_stack(words: Seq<usize>) -> bool {
    &&& words.len() > 0
    &&& words[0] + 2 + run_length(words, words[0] + 2) < words.len()
    &&& aux_ends(words, aux_start(words))
}

/// The value of the last pair with the key before the end of the auxiliary vector, and
/// `otherwise` if there is none.
pub open spec fn aux_value(words: Seq<usize>, at: int, key: usize, otherwise: usize) -> usize
    decreases words.len() - at,
{
    if !(0 <= at && at + 1 < words.len()) || words[at] == AT_NULL {
        otherwise
    } else {
        aux_value(
            words,
            at + 2,
            key,
            if words[at] == key {
                words[at + 1]
            } else {
                otherwise
            },
        )
    }
}

/// The words from `from` to `to`.
fn copy_words(words: &[usize], from: usize, to: usize) -> (r: Vec<usize>)
    requires
        from <= to <= words@.len(),
    ensures
        r@ == words@.subrange(from as int, to as int),
{
    let mut r: Vec<usize> = Vec::new();
    let mut i: usize = from;
    while i < to
        invariant
            from <= i <= to <= words@.len(),
            r@ == words@.subrange(from as int, i as int),
        decreases to - i,
    {
        r.push(words[i]);
        i += 1;
    }
    r
}

impl InitialStack {
    /// Reads the initial stack of a process.
    pub fn parse(words: &[usize]) -> (r: InitialStack)
        requires
            is_initial_stack(words@),
        ensures
            r.argc == words@[0],
            r.argv@ == words@.subrange(1, 1 + r.argc),
            r.envc == run_length(words@, words@[0] + 2),
            r.envp@ == words@.subrange(r.argc + 2, r.argc + 2 + r.envc),
            r.phdr == aux_value(words@, aux_start(words@), AT_PHDR, 0),
            r.hwcap == aux_value(words@, aux_start(words@), AT_HWCAP, 0),
            r.hwcap2 == aux_value(words@, aux_start(words@), AT_HWCAP2, 0),
            r.hwcap3 == aux_value(words@, aux_start(words@), AT_HWCAP3, 0),
    {
        let len: usize = words.len();
        let argc: usize = words[0];
        let env: usize = argc + 2;
        let mut end: usize = env;
        while words[end] != 0
            invariant
                len == words@.len(),
                env <= end < len,
                end + run_length(words@, end as int) == env + run_length(words@, env as int),
                env + run_length(words@, env as int) < len,
            decreases len - end,
        {
            end += 1;
        }
        let mut at: usize = end + 1;
        let ghost start = at as int;
        let mut phdr: usize = 0;
        let mut hwcap: usize = 0;
        let mut hwcap2: usize = 0;
        let mut hwcap3: usize = 0;
        assert(start == aux_start(words@));
        while words[at] != AT_NULL
            invariant
                len == words@.len(),
                at < len,
                aux_ends(words@, at as int),
                aux_value(words@, at as int, AT_PHDR, phdr) == aux_value(words@, start, AT_PHDR, 0),
                aux_value(words@, at as int, AT_HWCAP, hwcap) == aux_value(
                    words@,
                    start,
                    AT_HWCAP,
                    0,
                ),
                aux_value(words@, at as int, AT_HWCAP2, hwcap2) == aux_value(
                    words@,
                    start,
                    AT_HWCAP2,
                    0,
                ),
                aux_value(words@, at as int, AT_HWCAP3, hwcap3) == aux_value(
                    words@,
                    start,
                    AT_HWCAP3,
                    0,
                ),
            decreases len - at,
        {
            let key: usize = words[at];
            let value: usize = words[at + 1];
            assert(aux_ends(words@, at + 2));
            if key == AT_PHDR {
                phdr = value;
            }
            if key == AT_HWCAP {
                hwcap = value;
            }
            if key == AT_HWCAP2 {
                hwcap2 = value;
            }
            if key == AT_HWCAP3 {
                hwcap3 = value;
            }
            at += 2;
        }
        InitialStack {
            argc,
            argv: copy_words(words, 1, 1 + argc),
            envp: copy_words(words, env, end),
            envc: end - env,
            phdr,
            hwcap,
            hwcap2,
            hwcap3,
        }
    }
}

// ---------------------------------------------------------------------------
// The auxiliary vector as a file

/// The number that eight bytes stand for, the least significant first.
pub open spec fn word_at(bytes: Seq<u8>, at: int) -> int {
    bytes[at] + 0x100 * bytes[at + 1] + 0x1_0000 * bytes[at + 2] + 0x100_0000 * bytes[at + 3]
        + 0x1_0000_0000 * bytes[at + 4] + 0x100_0000_0000 * bytes[at + 5] + 0x1_0000_0000_0000
        * bytes[at + 6] + 0x100_0000_0000_0000 * bytes[at + 7]
}

/// The value of the last of the first `n` pairs that has the key; zero if there is none.
pub open spec fn file_value(bytes: Seq<u8>, n: nat, key: int) -> int
    decreases n,
{
    if n == 0 {
        0
    } else if word_at(bytes, 16 * (n - 1)) == key {
        word_at(bytes, 16 * (n - 1) + 8)
    } else {
        file_value(bytes, (n - 1) as nat, key)
    }
}

/// The number that eight bytes stand for.
fn read_word(bytes: &[u8], at: usize) -> (r: u64)
    requires
        at + 8 <= bytes@.len(),
    ensures
        r == word_at(bytes@, at as int),
{
    bytes[at] as u64 + 0x100 * (bytes[at + 1] as u64) + 0x1_0000 * (bytes[at + 2] as u64)
        + 0x100_0000 * (bytes[at + 3] as u64) + 0x1_0000_0000 * (bytes[at + 4] as u64)
        + 0x100_0000_0000 * (bytes[at + 5] as u64) + 0x1_0000_0000_0000 * (bytes[at + 6] as u64)
        + 0x100_0000_0000_0000 * (bytes[at + 7] as u64)
}

/// The three capability words in the file that holds the auxiliary vector of a 64-bit
/// process: pairs of words, of which an incomplete last one does not count.
pub fn read_auxv_hwcaps(bytes: &[u8]) -> (r: (u64, u64, u64))
    ensures
        r.0 == file_value(bytes@, (bytes@.len() / 16) as nat, 16),
        r.1 == file_value(bytes@, (bytes@.len() / 16) as nat, 26),
        r.2 == file_value(bytes@, (bytes@.len() / 16) as nat, 29),
{
    let mut hwcap: u64 = 0;
    let mut hwcap2: u64 = 0;
    let mut hwcap3: u64 = 0;
    let len: usize = bytes.len();
    let n: usize = len / 16;
    let mut i: usize = 0;
    while i < n
        invariant
            len == bytes@.len(),
            i <= n == len / 16,
            hwcap == file_value(bytes@, i as nat, 16),
            hwcap2 == file_value(bytes@, i as nat, 26),
            hwcap3 == file_value(bytes@, i as nat, 29),
        decreases n - i,
    {
        let key = read_word(bytes, 16 * i);
        let value = read_word(bytes, 16 * i + 8);
        if key == 16 {
            hwcap = value;
        }
        if key == 26 {
            hwcap2 = value;
        }
        if key == 29 {
            hwcap3 = value;
        }
        i += 1;
    }
    (hwcap, hwcap2, hwcap3)
}

// ---------------------------------------------------------------------------
// The environment

/// The bytes of the entries of an environment.
pub open spec fn entries(env: Seq<Vec<u8>>) -> Seq<Seq<u8>> {
    env.map_values(|entry: Vec<u8>| entry@)
}

/// Whether bytes begin with a prefix.
pub open spec fn begins_with(bytes: Seq<u8>, prefix: Seq<u8>) -> bool {
    prefix.len() <= bytes.len() && bytes.take(prefix.len() as int) == prefix
}

/// Whether bytes begin with a prefix.
pub fn starts_with(bytes: &[u8], prefix: &[u8]) -> (r: bool)
    ensures
        r == begins_with(bytes@, prefix@),
{
    if bytes.len() < prefix.len() {
        return false;
    }
    let mut i: usize = 0;
    while i < prefix.len()
        invariant
            i <= prefix@.len() <= bytes@.len(),
            forall|j: int| 0 <= j < i ==> bytes@[j] == prefix@[j],
        decreases prefix@.len() - i,
    {
        if bytes[i] != prefix[i] {
            assert(bytes@.take(prefix@.len() as int)[i as int] != prefix@[i as int]);
            return false;
        }
        i += 1;
    }
    assert(bytes@.take(prefix@.len() as int) =~= prefix@);
    true
}

/// Whether an entry tells a payload how it was selected.
pub open spec fn tells_selection(entry: Seq<u8>) -> bool {
    begins_with(entry, "CARGO_SONIC_ENABLED=".spec_bytes()) || begins_with(
        entry,
        "CARGO_SONIC_SELECTED_TARGET_CPU=".spec_bytes(),
    ) || begins_with(entry, "CARGO_SONIC_SELECTED_FLAGS=".spec_bytes())
}

/// Whether an entry tells a payload how it was selected.
pub fn is_sonic_key(entry: &[u8]) -> (r: bool)
    ensures
        r == tells_selection(entry@),
{
    starts_with(entry, "CARGO_SONIC_ENABLED=".as_bytes()) || starts_with(
        entry,
        "CARGO_SONIC_SELECTED_TARGET_CPU=".as_bytes(),
    ) || starts_with(entry, "CARGO_SONIC_SELECTED_FLAGS=".as_bytes())
}

/// The entries that do not tell how a payload was selected.
pub open spec fn others(env: Seq<Seq<u8>>) -> Seq<Seq<u8>>
    decreases env.len(),
{
    if env.len() == 0 {
        Seq::empty()
    } else if tells_selection(env.last()) {
        others(env.drop_last())
    } else {
        others(env.drop_last()).push(env.last())
    }
}

/// The environment of a payload: the other entries as they were, and the three that tell
/// how it was selected.
pub open spec fn payload_env(
    env: Seq<Seq<u8>>,
    enabled: Seq<u8>,
    cpu: Seq<u8>,
    flags: Seq<u8>,
) -> Seq<Seq<u8>> {
    others(env).push(enabled).push(cpu).push(flags)
}

/// A copy of bytes.
fn copy_bytes(bytes: &[u8]) -> (r: Vec<u8>)
    ensures
        r@ == bytes@,
{
    vstd::slice::slice_to_vec(bytes)
}

/// The environment of a payload.
pub fn build_envp(env: &[Vec<u8>], enabled: &[u8], cpu: &[u8], flags: &[u8]) -> (r: Vec<Vec<u8>>)
    ensures
        entries(r@) == payload_env(entries(env@), enabled@, cpu@, flags@),
{
    let ghost all = entries(env@);
    let mut out: Vec<Vec<u8>> = Vec::new();
    let mut i: usize = 0;
    assert(all.take(0) =~= Seq::<Seq<u8>>::empty());
    assert(entries(out@) =~= Seq::<Seq<u8>>::empty());
    while i < env.len()
        invariant
            i <= env@.len(),
            all == entries(env@),
            entries(out@) == others(all.take(i as int)),
        decreases env@.len() - i,
    {
        assert(all.take(i + 1).drop_last() =~= all.take(i as int));
        if !is_sonic_key(&env[i]) {
            let ghost before = entries(out@);
            out.push(copy_bytes(&env[i]));
            assert(entries(out@) =~= before.push(env@[i as int]@));
        }
        i += 1;
    }
    assert(all.take(i as int) =~= all);
    let ghost kept = entries(out@);
    out.push(copy_bytes(enabled));
    out.push(copy_bytes(cpu));
    out.push(copy_bytes(flags));
    assert(entries(out@) =~= kept.push(enabled@).push(cpu@).push(flags@));
    out
}

proof fn others_of_others(env: Seq<Seq<u8>>)
    ensures
        others(others(env)) == others(env),
    decreases env.len(),
{
    if env.len() > 0 {
        others_of_others(env.drop_last());
        if !tells_selection(env.last()) {
            assert(others(env).drop_last() =~= others(env.drop_last()));
        }
    } else {
        assert(others(env) =~= Seq::<Seq<u8>>::empty());
    }
}

/// A payload that is itself selected by a loader sees one entry of each kind: handing on
/// an environment that was handed on replaces the three entries.
pub proof fn payload_env_is_stable(
    env: Seq<Seq<u8>>,
    enabled: Seq<u8>,
    cpu: Seq<u8>,
    flags: Seq<u8>,
    cpu2: Seq<u8>,
    flags2: Seq<u8>,
)
    requires
        tells_selection(enabled),
        tells_selection(cpu),
        tells_selection(flags),
    ensures
        payload_env(payload_env(env, enabled, cpu, flags), enabled, cpu2, flags2) == payload_env(
            env,
            enabled,
            cpu2,
            flags2,
        ),
{
    let kept = others(env);
    let a = kept.push(enabled);
    let b = a.push(cpu);
    let c = b.push(flags);
    assert(c.drop_last() =~= b);
    assert(b.drop_last() =~= a);
    assert(a.drop_last() =~= kept);
    others_of_others(env);
    assert(others(a) == others(kept));
    assert(others(b) == others(a));
    assert(others(c) == others(b));
}

/// An entry that does not tell how a payload was selected is in its environment exactly if
/// the loader had it.
pub proof fn payload_env_keeps_others(
    env: Seq<Seq<u8>>,
    enabled: Seq<u8>,
    cpu: Seq<u8>,
    flags: Seq<u8>,
    entry: Seq<u8>,
)
    requires
        !tells_selection(entry),
        tells_selection(enabled),
        tells_selection(cpu),
        tells_selection(flags),
    ensures
        payload_env(env, enabled, cpu, flags).contains(entry) == env.contains(entry),
{
    others_hold(env, entry);
    let kept = others(env);
    let all = payload_env(env, enabled, cpu, flags);
    if kept.contains(entry) {
        let i = choose|i: int| 0 <= i < kept.len() && kept[i] == entry;
        assert(all[i] == entry);
    }
    if all.contains(entry) {
        let i = choose|i: int| 0 <= i < all.len() && all[i] == entry;
        assert(i < kept.len());
        assert(kept[i] == entry);
    }
}

proof fn others_hold(env: Seq<Seq<u8>>, entry: Seq<u8>)
    ensures
        others(env).contains(entry) == (env.contains(entry) && !tells_selection(entry)),
    decreases env.len(),
{
    if env.len() > 0 {
        let shorter = env.drop_last();
        let last = env.last();
        let before = others(shorter);
        others_hold(shorter, entry);
        if shorter.contains(entry) {
            let k = choose|k: int| 0 <= k < shorter.len() && shorter[k] == entry;
            assert(env[k] == entry);
        }
        if entry == last {
            assert(env[env.len() - 1] == entry);
        } else if env.contains(entry) {
            let k = choose|k: int| 0 <= k < env.len() && env[k] == entry;
            assert(shorter[k] == entry);
        }
        if !tells_selection(last) {
            let after = before.push(last);
            if before.contains(entry) {
                let k = choose|k: int| 0 <= k < before.len() && before[k] == entry;
                assert(after[k] == entry);
            }
            if entry == last {
                assert(after[before.len() as int] == entry);
            }
        }
    }
}

/// Whether an entry sets the variable, with or without a value.
pub open spec fn names_variable(entry: Seq<u8>, name: Seq<u8>) -> bool {
    begins_with(entry, name) && (entry.len() == name.len() || entry[name.len() as int] == 0x3d)
}

/// Whether an entry sets the variable, with or without a value.
pub fn env_name_matches(entry: &[u8], name: &[u8]) -> (r: bool)
    ensures
        r == names_variable(entry@, name@),
{
    starts_with(entry, name) && (entry.len() == name.len() || entry[name.len()] == 0x3d)
}

/// Whether the environment asks the loader to tell what it does.
pub fn debug_enabled(env: &[Vec<u8>]) -> (r: bool)
    ensures
        r == exists|i: int|
            0 <= i < env@.len() && names_variable(
                (#[trigger] env@[i])@,
                "CARGO_SONIC_DEBUG".spec_bytes(),
            ),
{
    let mut i: usize = 0;
    while i < env.len()
        invariant
            i <= env@.len(),
            forall|j: int|
                0 <= j < i ==> !names_variable(
                    (#[trigger] env@[j])@,
                    "CARGO_SONIC_DEBUG".spec_bytes(),
                ),
        decreases env@.len() - i,
    {
        if env_name_matches(&env[i], "CARGO_SONIC_DEBUG".as_bytes()) {
            return true;
        }
        i += 1;
    }
    false
}

/// Whether a value switches selection off: `0`, or `false` in any case.
pub open spec fn switches_off(value: Seq<u8>) -> bool {
    ||| value.len() == 1 && value[0] == 0x30
    ||| value.len() == 5 && (value[0] == 0x66 || value[0] == 0x46) && (value[1] == 0x61 || value[1]
        == 0x41) && (value[2] == 0x6c || value[2] == 0x4c) && (value[3] == 0x73 || value[3] == 0x53)
        && (value[4] == 0x65 || value[4] == 0x45)
}

/// Whether a value switches selection off.
pub fn is_disabled_value(value: &[u8]) -> (r: bool)
    ensures
        r == switches_off(value@),
{
    if value.len() == 1 {
        return value[0] == 0x30;
    }
    value.len() == 5 && (value[0] == 0x66 || value[0] == 0x46) && (value[1] == 0x61 || value[1]
        == 0x41) && (value[2] == 0x6c || value[2] == 0x4c) && (value[3] == 0x73 || value[3] == 0x53)
        && (value[4] == 0x65 || value[4] == 0x45)
}

/// Whether the environment leaves selection on: the first entry that sets
/// `CARGO_SONIC_ENABLE` decides, and without one it is on.
pub open spec fn selection_on(env: Seq<Seq<u8>>) -> bool
    decreases env.len(),
{
    if env.len() == 0 {
        true
    } else if begins_with(env[0], "CARGO_SONIC_ENABLE=".spec_bytes()) {
        !switches_off(env[0].skip("CARGO_SONIC_ENABLE=".spec_bytes().len() as int))
    } else {
        selection_on(env.drop_first())
    }
}

/// Whether the environment leaves selection on.
pub fn sonic_enabled(env: &[Vec<u8>]) -> (r: bool)
    ensures
        r == selection_on(entries(env@)),
{
    let prefix = "CARGO_SONIC_ENABLE=".as_bytes();
    let ghost all = entries(env@);
    let mut i: usize = 0;
    assert(all.skip(0) =~= all);
    while i < env.len()
        invariant
            i <= env@.len(),
            all == entries(env@),
            prefix@ == "CARGO_SONIC_ENABLE=".spec_bytes(),
            selection_on(all) == selection_on(all.skip(i as int)),
        decreases env@.len() - i,
    {
        let ghost rest = all.skip(i as int);
        assert(rest[0] == env@[i as int]@);
        if starts_with(&env[i], prefix) {
            let value = vstd::slice::slice_subrange(env[i].as_slice(), prefix.len(), env[i].len());
            assert(value@ =~= env@[i as int]@.skip(prefix@.len() as int));
            return !is_disabled_value(value);
        }
        assert(rest.drop_first() =~= all.skip(i + 1));
        i += 1;
    }
    true
}

// ---------------------------------------------------------------------------
// What is laid out can be read back

proof fn run_length_of(words: Seq<usize>, from: int, n: nat)
    requires
        0 <= from,
        from + n < words.len(),
        forall|i: int| from <= i < from + n ==> #[trigger] words[i] != 0,
        words[from + n] == 0,
    ensures
        run_length(words, from) == n,
    decreases n,
{
    if n > 0 {
        run_length_of(words, from + 1, (n - 1) as nat);
    }
}

/// The words of an auxiliary vector: keys and values in turn.
pub open spec fn flat(pairs: Seq<(usize, usize)>) -> Seq<usize>
    decreases pairs.len(),
{
    if pairs.len() == 0 {
        Seq::empty()
    } else {
        seq![pairs[0].0, pairs[0].1] + flat(pairs.drop_first())
    }
}

proof fn aux_value_of(
    words: Seq<usize>,
    at: int,
    pairs: Seq<(usize, usize)>,
    rest: Seq<usize>,
    key: usize,
    otherwise: usize,
)
    requires
        0 <= at <= words.len(),
        words.skip(at) == flat(pairs) + seq![0usize, 0usize] + rest,
        forall|i: int| 0 <= i < pairs.len() ==> (#[trigger] pairs[i]).0 != 0,
        key != 0,
    ensures
        (forall|i: int| 0 <= i < pairs.len() ==> (#[trigger] pairs[i]).0 != key) ==> aux_value(
            words,
            at,
            key,
            otherwise,
        ) == otherwise,
        forall|k: int|
            0 <= k < pairs.len() && (#[trigger] pairs[k]).0 == key && (forall|i: int|
                k < i < pairs.len() ==> (#[trigger] pairs[i]).0 != key) ==> aux_value(
                words,
                at,
                key,
                otherwise,
            ) == pairs[k].1,
    decreases pairs.len(),
{
    let tail = words.skip(at);
    if pairs.len() == 0 {
        assert(flat(pairs) =~= Seq::<usize>::empty());
        assert(tail[0] == 0);
        assert(words[at] == 0);
    } else {
        let others = pairs.drop_first();
        let next = if pairs[0].0 == key {
            pairs[0].1
        } else {
            otherwise
        };
        assert(tail.len() >= 2);
        assert(tail[0] == pairs[0].0 && tail[1] == pairs[0].1);
        assert(words[at] == tail[0] && words[at + 1] == tail[1]);
        assert(words.skip(at + 2) =~= tail.skip(2));
        assert(tail.skip(2) =~= flat(others) + seq![0usize, 0usize] + rest);
        assert forall|i: int| 0 <= i < others.len() implies (#[trigger] others[i]).0 != 0 by {
            assert(others[i] == pairs[i + 1]);
        }
        aux_value_of(words, at + 2, others, rest, key, next);
        assert(aux_value(words, at, key, otherwise) == aux_value(words, at + 2, key, next));
        if forall|i: int| 0 <= i < pairs.len() ==> (#[trigger] pairs[i]).0 != key {
            assert forall|i: int| 0 <= i < others.len() implies (#[trigger] others[i]).0 != key by {
                assert(others[i] == pairs[i + 1]);
            }
        }
        assert forall|k: int|
            0 <= k < pairs.len() && (#[trigger] pairs[k]).0 == key && (forall|i: int|
                k < i < pairs.len() ==> (#[trigger] pairs[i]).0 != key) implies aux_value(
            words,
            at,
            key,
            otherwise,
        ) == pairs[k].1 by {
            if k == 0 {
                assert forall|i: int| 0 <= i < others.len() implies (#[trigger] others[i]).0
                    != key by {
                    assert(others[i] == pairs[i + 1]);
                }
            } else {
                assert(others[k - 1] == pairs[k]);
                assert forall|i: int| k - 1 < i < others.len() implies (#[trigger] others[i]).0
                    != key by {
                    assert(others[i] == pairs[i + 1]);
                }
            }
        }
    }
}

/// An initial stack reads back: arguments, environment, and of the auxiliary vector the last
/// value under each of the keys 3 (program headers), 16, 26 and 29 (capability words), or zero.
pub proof fn stacks_read_back(
    words: &[usize],
    argv: Seq<usize>,
    envp: Seq<usize>,
    pairs: Seq<(usize, usize)>,
    rest: Seq<usize>,
    argc: usize,
    r: InitialStack,
    k: int,
)
    requires
        call_ensures(InitialStack::parse, (words,), r),
        argc == argv.len(),
        words@ == seq![argc] + argv + seq![0usize] + envp + seq![0usize] + (flat(pairs)
            + seq![0usize, 0usize] + rest),
        forall|i: int| 0 <= i < envp.len() ==> #[trigger] envp[i] != 0,
        forall|i: int| 0 <= i < pairs.len() ==> (#[trigger] pairs[i]).0 != 0,
    ensures
        r.argc == argc,
        r.argv@ == argv,
        r.envp@ == envp,
        r.envc == envp.len(),
        (forall|i: int| 0 <= i < pairs.len() ==> (#[trigger] pairs[i]).0 != 16) ==> r.hwcap == 0,
        0 <= k < pairs.len() && (forall|i: int|
            k < i < pairs.len() ==> (#[trigger] pairs[i]).0 != pairs[k].0) ==> {
            &&& pairs[k].0 == 3 ==> r.phdr == pairs[k].1
            &&& pairs[k].0 == 16 ==> r.hwcap == pairs[k].1
            &&& pairs[k].0 == 26 ==> r.hwcap2 == pairs[k].1
            &&& pairs[k].0 == 29 ==> r.hwcap3 == pairs[k].1
        },
{
    let w = words@;
    let env = argc + 2;
    assert(w[0] == argc);
    assert forall|i: int| env <= i < env + envp.len() implies #[trigger] w[i] != 0 by {
        assert(w[i] == envp[i - env]);
    }
    assert(w[env + envp.len()] == 0);
    run_length_of(w, env as int, envp.len());
    assert(w.subrange(1, 1 + argc) =~= argv);
    assert(w.subrange(env as int, env + envp.len()) =~= envp);
    let start = env + envp.len() + 1;
    assert(w.skip(start) =~= flat(pairs) + seq![0usize, 0usize] + rest);
    assert(start == aux_start(w));
    aux_value_of(w, start, pairs, rest, 3, 0);
    aux_value_of(w, start, pairs, rest, 16, 0);
    aux_value_of(w, start, pairs, rest, 26, 0);
    aux_value_of(w, start, pairs, rest, 29, 0);
}

proof fn file_value_of_prefix(bytes: Seq<u8>, longer: Seq<u8>, n: nat, key: int)
    requires
        16 * n <= bytes.len() <= longer.len(),
        longer.take(bytes.len() as int) == bytes,
    ensures
        file_value(longer, n, key) == file_value(bytes, n, key),
    decreases n,
{
    if n > 0 {
        assert forall|i: int| 0 <= i < bytes.len() implies longer[i] == #[trigger] bytes[i] by {
            assert(longer.take(bytes.len() as int)[i] == bytes[i]);
        }
        file_value_of_prefix(bytes, longer, (n - 1) as nat, key);
    }
}

/// The auxiliary vector as a file is read pair by pair, each word with its least significant
/// byte first: one more pair sets the capability word of its key and leaves the others, and
/// what is no whole pair changes nothing.
pub proof fn files_are_read_pair_by_pair(
    bytes: &[u8],
    longer: &[u8],
    key: Seq<u8>,
    value: Seq<u8>,
    rest: Seq<u8>,
    before: (u64, u64, u64),
    after: (u64, u64, u64),
)
    requires
        call_ensures(read_auxv_hwcaps, (bytes,), before),
        call_ensures(read_auxv_hwcaps, (longer,), after),
        bytes@.len() % 16 == 0,
        key.len() == 8,
        value.len() == 8,
        rest.len() < 16,
        longer@ == bytes@ + key + value + rest,
        forall|i: int| 1 <= i < 8 ==> #[trigger] key[i] == 0,
    ensures
        bytes@.len() == 0 ==> before == (0u64, 0u64, 0u64),
        ({
            let worth = value[0] + 0x100 * (value[1] + 0x100 * (value[2] + 0x100 * (value[3] + 0x100
                * (value[4] + 0x100 * (value[5] + 0x100 * (value[6] + 0x100 * value[7]))))));
            &&& after.0 == (if key[0] == 16 {
                worth
            } else {
                before.0 as int
            })
            &&& after.1 == (if key[0] == 26 {
                worth
            } else {
                before.1 as int
            })
            &&& after.2 == (if key[0] == 29 {
                worth
            } else {
                before.2 as int
            })
        }),
{
    let b = bytes@;
    let l = longer@;
    let n = (b.len() / 16) as nat;
    assert(16 * n == b.len());
    assert((l.len() / 16) as nat == n + 1);
    assert(l.take(b.len() as int) =~= b);
    file_value_of_prefix(b, l, n, 16);
    file_value_of_prefix(b, l, n, 26);
    file_value_of_prefix(b, l, n, 29);
    let at = 16 * n as int;
    assert(l[at] == key[0]);
    assert(l[at + 1] == key[1] && l[at + 2] == key[2] && l[at + 3] == key[3] && l[at + 4] == key[4]
        && l[at + 5] == key[5] && l[at + 6] == key[6] && l[at + 7] == key[7]);
    assert(word_at(l, at) == key[0]);
    assert(l[at + 8] == value[0] && l[at + 9] == value[1] && l[at + 10] == value[2] && l[at + 11]
        == value[3] && l[at + 12] == value[4] && l[at + 13] == value[5] && l[at + 14] == value[6]
        && l[at + 15] == value[7]);
}

proof fn beginning_is_a_prefix(bytes: Seq<u8>, prefix: Seq<u8>)
    ensures
        begins_with(bytes, prefix) <==> exists|rest: Seq<u8>| bytes == #[trigger] (prefix + rest),
{
    if begins_with(bytes, prefix) {
        let rest = bytes.skip(prefix.len() as int);
        assert(bytes =~= prefix + rest);
    }
    if exists|rest: Seq<u8>| bytes == #[trigger] (prefix + rest) {
        let rest = choose|rest: Seq<u8>| bytes == #[trigger] (prefix + rest);
        assert(bytes.take(prefix.len() as int) =~= prefix);
    }
}

/// Bytes begin with others if and only if they are these and something.
pub proof fn prefixes_have_a_rest(bytes: &[u8], prefix: &[u8], r: bool)
    requires
        call_ensures(starts_with, (bytes, prefix), r),
    ensures
        r <==> exists|rest: Seq<u8>| bytes@ == #[trigger] (prefix@ + rest),
{
    beginning_is_a_prefix(bytes@, prefix@);
}

/// The entries that tell a payload how it was selected set one of three variables; an entry of
/// any other variable is never taken for one.
pub proof fn three_variables_tell_the_selection(entry: &[u8], r: bool, value: Seq<u8>)
    requires
        call_ensures(is_sonic_key, (entry,), r),
    ensures
        entry@ == vstd::utf8::encode_utf8("CARGO_SONIC_ENABLED="@) + value ==> r,
        entry@ == vstd::utf8::encode_utf8("CARGO_SONIC_SELECTED_TARGET_CPU="@) + value ==> r,
        entry@ == vstd::utf8::encode_utf8("CARGO_SONIC_SELECTED_FLAGS="@) + value ==> r,
        r ==> exists|rest: Seq<u8>|
            entry@ == #[trigger] (vstd::utf8::encode_utf8("CARGO_SONIC_ENABLED="@) + rest) || entry@
                == vstd::utf8::encode_utf8("CARGO_SONIC_SELECTED_TARGET_CPU="@) + rest || entry@
                == vstd::utf8::encode_utf8("CARGO_SONIC_SELECTED_FLAGS="@) + rest,
{
    let a = vstd::utf8::encode_utf8("CARGO_SONIC_ENABLED="@);
    let b = vstd::utf8::encode_utf8("CARGO_SONIC_SELECTED_TARGET_CPU="@);
    let c = vstd::utf8::encode_utf8("CARGO_SONIC_SELECTED_FLAGS="@);
    beginning_is_a_prefix(entry@, a);
    beginning_is_a_prefix(entry@, b);
    beginning_is_a_prefix(entry@, c);
    if entry@ == a + value {
        assert(begins_with(entry@, a));
    }
    if entry@ == b + value {
        assert(begins_with(entry@, b));
    }
    if entry@ == c + value {
        assert(begins_with(entry@, c));
    }
    if r {
        if begins_with(entry@, a) {
            let rest = choose|rest: Seq<u8>| entry@ == #[trigger] (a + rest);
            assert(entry@ == a + rest);
        } else if begins_with(entry@, b) {
            let rest = choose|rest: Seq<u8>| entry@ == #[trigger] (b + rest);
            let other = a + rest;
            assert(entry@ == b + rest);
        } else {
            let rest = choose|rest: Seq<u8>| entry@ == #[trigger] (c + rest);
            let other = a + rest;
            assert(entry@ == c + rest);
        }
    }
}

/// A payload gets what the loader got, in the same order, but for the entries that tell of a
/// selection, and after it the three entries of its own selection.
pub proof fn payloads_get_the_environment(
    env: &[Vec<u8>],
    shorter: &[Vec<u8>],
    enabled: &[u8],
    cpu: &[u8],
    flags: &[u8],
    last_tells: bool,
    before: Vec<Vec<u8>>,
    after: Vec<Vec<u8>>,
)
    requires
        call_ensures(build_envp, (shorter, enabled, cpu, flags), before),
        call_ensures(build_envp, (env, enabled, cpu, flags), after),
        env@.len() > 0,
        shorter@ == env@.drop_last(),
        last_tells == tells_selection(env@.last()@),
    ensures
        before@.len() >= 3,
        shorter@.len() == 0 ==> before@.len() == 3,
        before@[before@.len() - 3]@ == enabled@,
        before@[before@.len() - 2]@ == cpu@,
        before@[before@.len() - 1]@ == flags@,
        last_tells ==> entries(after@) == entries(before@),
        !last_tells ==> entries(after@) == entries(before@).insert(before@.len() - 3, env@.last()@),
{
    let e = entries(env@);
    assert(e.drop_last() =~= entries(shorter@));
    assert(e.last() == env@.last()@);
    let b = entries(before@);
    let kept = others(entries(shorter@));
    assert(b.len() == before@.len());
    assert(b[b.len() - 3] == before@[before@.len() - 3]@);
    assert(b[b.len() - 2] == before@[before@.len() - 2]@);
    assert(b[b.len() - 1] == before@[before@.len() - 1]@);
    if !last_tells {
        assert(entries(after@) =~= b.insert(before@.len() - 3, env@.last()@));
    }
}

/// An entry sets a variable if it is the name alone, or the name, an equals sign and a value.
pub proof fn entries_set_their_variable(entry: &[u8], name: &[u8], value: Seq<u8>, r: bool)
    requires
        call_ensures(env_name_matches, (entry, name), r),
    ensures
        entry@ == name@ ==> r,
        entry@ == name@ + seq![61u8] + value ==> r,
        r ==> entry@ == name@ || exists|v: Seq<u8>| entry@ == #[trigger] (name@ + seq![61u8] + v),
{
    if entry@ == name@ {
        assert(entry@.take(name@.len() as int) =~= name@);
    }
    if entry@ == name@ + seq![61u8] + value {
        assert(entry@.take(name@.len() as int) =~= name@);
    }
    if r && entry@.len() > name@.len() {
        let v = entry@.skip(name@.len() as int + 1);
        assert(entry@ =~= entry@.take(name@.len() as int) + seq![61u8] + v);
    } else if r {
        assert(entry@ =~= entry@.take(name@.len() as int));
    }
}

/// The loader tells what it does if and only if an entry sets `CARGO_SONIC_DEBUG`, whatever its
/// value.
pub proof fn any_value_asks_for_messages(env: &[Vec<u8>], i: int, value: Seq<u8>, r: bool)
    requires
        call_ensures(debug_enabled, (env,), r),
        0 <= i < env@.len(),
    ensures
        env@[i]@ == vstd::utf8::encode_utf8("CARGO_SONIC_DEBUG"@) ==> r,
        env@[i]@ == vstd::utf8::encode_utf8("CARGO_SONIC_DEBUG"@) + seq![61u8] + value ==> r,
{
    let name = vstd::utf8::encode_utf8("CARGO_SONIC_DEBUG"@);
    if env@[i]@ == name {
        assert(env@[i]@.take(name.len() as int) =~= name);
    }
    if env@[i]@ == name + seq![61u8] + value {
        assert(env@[i]@.take(name.len() as int) =~= name);
        assert(env@[i]@[name.len() as int] == 61);
    }
    let args = (env,);
    if names_variable(env@[i]@, name) {
        assert(names_variable(args.0@[i]@, "CARGO_SONIC_DEBUG".spec_bytes()));
    }
}

/// If no entry is the name of the variable, or the name with an equals sign and a value, the
/// loader says nothing.
pub proof fn no_variable_asks_for_nothing(env: &[Vec<u8>], r: bool) -> (i: int)
    requires
        call_ensures(debug_enabled, (env,), r),
    ensures
        r ==> 0 <= i < env@.len() && (env@[i]@ == vstd::utf8::encode_utf8("CARGO_SONIC_DEBUG"@)
            || exists|v: Seq<u8>|
            env@[i]@ == #[trigger] (vstd::utf8::encode_utf8("CARGO_SONIC_DEBUG"@) + seq![61u8] + v)),
{
    let name = vstd::utf8::encode_utf8("CARGO_SONIC_DEBUG"@);
    if r {
        let i = choose|i: int|
            0 <= i < env@.len() && names_variable(
                (#[trigger] env@[i])@,
                "CARGO_SONIC_DEBUG".spec_bytes(),
            );
        let entry = env@[i]@;
        if entry.len() > name.len() {
            let v = entry.skip(name.len() as int + 1);
            assert(entry =~= entry.take(name.len() as int) + seq![61u8] + v);
        } else {
            assert(entry =~= entry.take(name.len() as int));
        }
        i
    } else {
        0
    }
}

/// Selection is switched off by `0` and by `false` in upper or lower case, and by nothing else.
pub proof fn zero_and_false_switch_off(value: &[u8], r: bool)
    requires
        call_ensures(is_disabled_value, (value,), r),
    ensures
        r <==> value@ == vstd::utf8::encode_utf8("0"@) || value@.len() == 5 && forall|i: int|
            0 <= i < 5 ==> (#[trigger] value@[i] == vstd::utf8::encode_utf8("false"@)[i] || value@[i]
                + 32 == vstd::utf8::encode_utf8("false"@)[i]),
{
    reveal_strlit("0");
    reveal_strlit("false");
    vstd::utf8::is_ascii_chars_encode_utf8("0"@);
    vstd::utf8::is_ascii_chars_encode_utf8("false"@);
    let word = vstd::utf8::encode_utf8("false"@);
    assert(vstd::utf8::encode_utf8("0"@) =~= seq![48u8]);
    assert(word =~= seq![102u8, 97, 108, 115, 101]);
    if value@.len() == 1 && value@[0] == 48 {
        assert(value@ =~= seq![48u8]);
    }
    if value@.len() == 5 && forall|i: int|
        0 <= i < 5 ==> (#[trigger] value@[i] == word[i] || value@[i] + 32 == word[i]) {
        assert(value@[0] == word[0] || value@[0] + 32 == word[0]);
        assert(value@[1] == word[1] || value@[1] + 32 == word[1]);
        assert(value@[2] == word[2] || value@[2] + 32 == word[2]);
        assert(value@[3] == word[3] || value@[3] + 32 == word[3]);
        assert(value@[4] == word[4] || value@[4] + 32 == word[4]);
    }
}

/// The first entry that sets `CARGO_SONIC_ENABLE` decides whether selection is on; entries of
/// other variables do not matter, and without any it is on.
pub proof fn the_first_setting_decides(
    env: &[Vec<u8>],
    rest: &[Vec<u8>],
    value: &[u8],
    off: bool,
    r: bool,
    later: bool,
)
    requires
        call_ensures(sonic_enabled, (env,), r),
        call_ensures(sonic_enabled, (rest,), later),
        call_ensures(is_disabled_value, (value,), off),
        env@.len() > 0 ==> rest@ == env@.drop_first(),
    ensures
        env@.len() == 0 ==> r,
        env@.len() > 0 && env@[0]@ == vstd::utf8::encode_utf8("CARGO_SONIC_ENABLE="@) + value@ ==> r
            == !off,
        env@.len() > 0 && (forall|v: Seq<u8>|
            env@[0]@ != #[trigger] (vstd::utf8::encode_utf8("CARGO_SONIC_ENABLE="@) + v)) ==> r
            == later,
{
    let name = vstd::utf8::encode_utf8("CARGO_SONIC_ENABLE="@);
    if env@.len() > 0 {
        let e = entries(env@);
        assert(e.drop_first() =~= entries(rest@));
        beginning_is_a_prefix(e[0], name);
        if env@[0]@ == name + value@ {
            assert(begins_with(e[0], name));
            assert(e[0].skip(name.len() as int) =~= value@);
        }
    }
}

} // verus!
