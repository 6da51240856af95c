//! Text as sequences of characters: the string operations that the rest of the
//! crate needs, each stated over `Seq<char>`.
use vstd::prelude::*;
use vstd::string::StringExecFns;

verus! {

/// `String::push` of std appends one character at the end of the string.
pub assume_specification[ String::push ](s: &mut String, c: char)
    ensures
        final(s)@ == old(s)@.push(c),
;

// ---------------------------------------------------------------------------
// Views

/// The texts that a list of strings holds.
pub open spec fn texts(list: Seq<String>) -> Seq<Seq<char>> {
    list.map_values(|s: String| s@)
}

/// The texts that a list of string slices holds.
pub open spec fn str_texts(list: Seq<&'static str>) -> Seq<Seq<char>> {
    list.map_values(|s: &'static str| s@)
}

/// The text that an optional string holds.
pub open spec fn opt(s: Option<String>) -> Option<Seq<char>> {
    match s {
        Some(s) => Some(s@),
        None => None,
    }
}

/// The characters of `s`, in order.
pub fn chars_of(s: &str) -> (v: Vec<char>)
    ensures
        v@ == s@,
{
    let mut v: Vec<char> = Vec::new();
    for c in it: s.chars()
        invariant
            v@ == it.seq().take(it.index() as int),
            it.seq() == s@,
    {
        v.push(c);
    }
    v
}

/// The string whose characters are `chars[from..to]`.
pub fn string_from(chars: &Vec<char>, from: usize, to: usize) -> (s: String)
    requires
        from <= to <= chars@.len(),
    ensures
        s@ == chars@.subrange(from as int, to as int),
{
    let mut s = String::new();
    let mut i: usize = from;
    while i < to
        invariant
            from <= i <= to <= chars@.len(),
            s@ == chars@.subrange(from as int, i as int),
        decreases to - i,
    {
        s.push(chars[i]);
        i += 1;
    }
    s
}

/// Whether two strings hold the same characters.
pub fn str_eq(a: &str, b: &str) -> (r: bool)
    ensures
        r == (a@ == b@),
{
    let mut left = a.chars();
    let mut right = b.chars();
    let ghost mut n: int = 0;
    loop
        invariant
            0 <= n <= a@.len(),
            0 <= n <= b@.len(),
            a@.take(n) == b@.take(n),
            vstd::std_specs::iter::IteratorSpec::remaining(&left) == a@.skip(n),
            vstd::std_specs::iter::IteratorSpec::remaining(&right) == b@.skip(n),
            vstd::std_specs::iter::IteratorSpec::obeys_prophetic_iter_laws(&left),
            vstd::std_specs::iter::IteratorSpec::obeys_prophetic_iter_laws(&right),
        decreases a@.len() - n,
    {
        match (left.next(), right.next()) {
            (None, None) => {
                assert(a@ == a@.take(n) && b@ == b@.take(n));
                return true;
            },
            (Some(x), Some(y)) => {
                if x != y {
                    assert(a@[n] != b@[n]);
                    return false;
                }
                proof {
                    n = n + 1;
                    assert(a@.take(n) == a@.take(n - 1).push(x));
                    assert(b@.take(n) == b@.take(n - 1).push(x));
                }
            },
            _ => {
                return false;
            },
        }
    }
}

/// Whether `name` is one of the texts in `list`.
pub fn list_contains(list: &[String], name: &str) -> (r: bool)
    ensures
        r == texts(list@).contains(name@),
{
    let mut i: usize = 0;
    while i < list.len()
        invariant
            i <= list@.len(),
            forall|j: int| 0 <= j < i ==> #[trigger] list@[j]@ != name@,
        decreases list@.len() - i,
    {
        if str_eq(list[i].as_str(), name) {
            assert(texts(list@)[i as int] == name@);
            return true;
        }
        i += 1;
    }
    assert forall|j: int| 0 <= j < texts(list@).len() implies texts(list@)[j] != name@ by {
        assert(list@[j]@ != name@);
    }
    false
}

/// A copy of a list of strings.
pub fn clone_list(list: &[String]) -> (r: Vec<String>)
    ensures
        r@ == list@,
        texts(r@) == texts(list@),
{
    let mut r: Vec<String> = Vec::new();
    let mut i: usize = 0;
    while i < list.len()
        invariant
            i <= list@.len(),
            r@ == list@.take(i as int),
        decreases list@.len() - i,
    {
        r.push(list[i].clone());
        i += 1;
    }
    r
}

// ---------------------------------------------------------------------------
// Lexical order

/// Lexical order of texts: the first differing character decides, and a proper
/// prefix comes first.
pub open spec fn text_less(a: Seq<char>, b: Seq<char>) -> bool
    decreases a.len(),
{
    if b.len() == 0 {
        false
    } else if a.len() == 0 {
        true
    } else if a[0] != b[0] {
        (a[0] as int) < (b[0] as int)
    } else {
        text_less(a.drop_first(), b.drop_first())
    }
}

/// No text comes before itself.
pub proof fn text_less_irreflexive(a: Seq<char>)
    ensures
        !text_less(a, a),
    decreases a.len(),
{
    if a.len() > 0 {
        text_less_irreflexive(a.drop_first());
    }
}

/// Lexical order is transitive.
pub proof fn text_less_transitive(a: Seq<char>, b: Seq<char>, c: Seq<char>)
    requires
        text_less(a, b),
        text_less(b, c),
    ensures
        text_less(a, c),
    decreases a.len(),
{
    if a.len() > 0 && b.len() > 0 && c.len() > 0 && a[0] == b[0] && b[0] == c[0] {
        text_less_transitive(a.drop_first(), b.drop_first(), c.drop_first());
    }
}

/// Of two different texts one comes before the other.
pub proof fn text_less_total(a: Seq<char>, b: Seq<char>)
    ensures
        a == b || text_less(a, b) || text_less(b, a),
    decreases a.len(),
{
    if a.len() > 0 && b.len() > 0 && a[0] == b[0] {
        text_less_total(a.drop_first(), b.drop_first());
        if a.drop_first() == b.drop_first() {
            assert(a =~= seq![a[0]] + a.drop_first());
            assert(b =~= seq![b[0]] + b.drop_first());
        }
    } else if a.len() == 0 && b.len() == 0 {
        assert(a =~= b);
    }
}

/// Whether `a` comes before `b` in lexical order.
pub fn str_less(a: &str, b: &str) -> (r: bool)
    ensures
        r == text_less(a@, b@),
{
    let x = chars_of(a);
    let y = chars_of(b);
    let mut i: usize = 0;
    assert(x@.skip(0) == a@ && y@.skip(0) == b@);
    while i < x.len() && i < y.len()
        invariant
            x@ == a@,
            y@ == b@,
            i <= x@.len(),
            i <= y@.len(),
            text_less(x@.skip(i as int), y@.skip(i as int)) == text_less(a@, b@),
        decreases x@.len() - i,
    {
        if x[i] != y[i] {
            return x[i] < y[i];
        }
        assert(x@.skip(i as int).drop_first() == x@.skip(i + 1));
        assert(y@.skip(i as int).drop_first() == y@.skip(i + 1));
        i += 1;
    }
    i < y.len()
}

// ---------------------------------------------------------------------------
// Prefixes, suffixes and parts

/// Whether `s` begins with `prefix`.
pub open spec fn has_prefix(s: Seq<char>, prefix: Seq<char>) -> bool {
    prefix.len() <= s.len() && s.take(prefix.len() as int) == prefix
}

/// Whether `s` ends with `suffix`.
pub open spec fn has_suffix(s: Seq<char>, suffix: Seq<char>) -> bool {
    suffix.len() <= s.len() && s.skip(s.len() - suffix.len()) == suffix
}

/// Whether `part` occurs in `s`.
pub open spec fn has_part(s: Seq<char>, part: Seq<char>) -> bool {
    exists|i: int| 0 <= i <= s.len() && #[trigger] has_prefix(s.skip(i), part)
}

/// Whether `part` stands in `s` at position `at`.
pub fn matches_at(s: &Vec<char>, at: usize, part: &Vec<char>) -> (r: bool)
    requires
        at <= s@.len(),
    ensures
        r == has_prefix(s@.skip(at as int), part@),
{
    let len: usize = s.len();
    if len - at < part.len() {
        return false;
    }
    let mut i: usize = 0;
    while i < part.len()
        invariant
            at + part@.len() <= len == s@.len(),
            i <= part@.len(),
            forall|j: int| 0 <= j < i ==> s@[at + j] == part@[j],
        decreases part@.len() - i,
    {
        if s[at + i] != part[i] {
            assert(s@.skip(at as int).take(part@.len() as int)[i as int] != part@[i as int]);
            return false;
        }
        i += 1;
    }
    assert(s@.skip(at as int).take(part@.len() as int) == part@);
    true
}

/// Whether `s` begins with `prefix`.
pub fn starts_with(s: &str, prefix: &str) -> (r: bool)
    ensures
        r == has_prefix(s@, prefix@),
{
    let chars = chars_of(s);
    let part = chars_of(prefix);
    assert(chars@.skip(0) == chars@);
    matches_at(&chars, 0, &part)
}

/// Whether `part` occurs in `s`.
pub fn contains(s: &str, part: &str) -> (r: bool)
    ensures
        r == has_part(s@, part@),
{
    let chars = chars_of(s);
    let pattern = chars_of(part);
    let mut i: usize = 0;
    loop
        invariant
            chars@ == s@,
            pattern@ == part@,
            i <= chars@.len(),
            forall|j: int| 0 <= j < i ==> !#[trigger] has_prefix(s@.skip(j), part@),
        decreases chars@.len() - i,
    {
        if matches_at(&chars, i, &pattern) {
            return true;
        }
        if i == chars.len() {
            return false;
        }
        i += 1;
    }
}

/// What follows `prefix` in `s`, if `s` begins with it.
pub fn strip_prefix(s: &str, prefix: &str) -> (r: Option<String>)
    ensures
        match r {
            Some(rest) => has_prefix(s@, prefix@) && rest@ == s@.skip(prefix@.len() as int),
            None => !has_prefix(s@, prefix@),
        },
{
    let chars = chars_of(s);
    let part = chars_of(prefix);
    assert(chars@.skip(0) == chars@);
    if matches_at(&chars, 0, &part) {
        let rest = string_from(&chars, part.len(), chars.len());
        assert(rest@ == s@.skip(prefix@.len() as int));
        Some(rest)
    } else {
        None
    }
}

/// The text between `prefix` and `suffix`, if `s` is the three in a row.
pub open spec fn between(s: Seq<char>, prefix: Seq<char>, suffix: Seq<char>) -> Option<Seq<char>> {
    if has_prefix(s, prefix) && has_suffix(s.skip(prefix.len() as int), suffix) {
        Some(s.subrange(prefix.len() as int, s.len() - suffix.len()))
    } else {
        None
    }
}

/// The text between `prefix` and `suffix`, if `s` is the three in a row.
pub fn strip_both(s: &str, prefix: &str, suffix: &str) -> (r: Option<String>)
    ensures
        match r {
            Some(middle) => between(s@, prefix@, suffix@) == Some(middle@),
            None => between(s@, prefix@, suffix@) is None,
        },
{
    let chars = chars_of(s);
    let head = chars_of(prefix);
    let tail = chars_of(suffix);
    assert(chars@.skip(0) == chars@);
    if !matches_at(&chars, 0, &head) {
        return None;
    }
    if chars.len() - head.len() < tail.len() {
        return None;
    }
    let end: usize = chars.len() - tail.len();
    proof {
        let rest = s@.skip(prefix@.len() as int);
        assert(rest.skip(rest.len() - suffix@.len()) == s@.skip(end as int));
        assert(s@.skip(end as int).take(suffix@.len() as int) == s@.skip(end as int));
    }
    if !matches_at(&chars, end, &tail) {
        return None;
    }
    Some(string_from(&chars, head.len(), end))
}

// ---------------------------------------------------------------------------
// White space and words

/// The characters with Unicode's `White_Space` property.
pub open spec fn is_white(c: char) -> bool {
    let n = c as int;
    ||| 0x9 <= n <= 0xd
    ||| n == 0x20
    ||| n == 0x85
    ||| n == 0xa0
    ||| n == 0x1680
    ||| 0x2000 <= n <= 0x200a
    ||| n == 0x2028
    ||| n == 0x2029
    ||| n == 0x202f
    ||| n == 0x205f
    ||| n == 0x3000
}

/// Whether `c` has Unicode's `White_Space` property.
pub fn is_whitespace(c: char) -> (r: bool)
    ensures
        r == is_white(c),
{
    let n: u32 = c as u32;
    (0x9 <= n && n <= 0xd) || n == 0x20 || n == 0x85 || n == 0xa0 || n == 0x1680 || (0x2000 <= n
        && n <= 0x200a) || n == 0x2028 || n == 0x2029 || n == 0x202f || n == 0x205f || n == 0x3000
}

/// How many white characters `s` begins with.
pub open spec fn white_run(s: Seq<char>) -> nat
    decreases s.len(),
{
    if s.len() > 0 && is_white(s[0]) {
        1 + white_run(s.drop_first())
    } else {
        0
    }
}

/// `s` without the white characters that it begins with.
pub open spec fn trimmed_start(s: Seq<char>) -> Seq<char> {
    s.skip(white_run(s) as int)
}

/// How many characters other than white ones `s` begins with.
pub open spec fn word_run(s: Seq<char>) -> nat
    decreases s.len(),
{
    if s.len() > 0 && !is_white(s[0]) {
        1 + word_run(s.drop_first())
    } else {
        0
    }
}

pub proof fn word_run_bound(s: Seq<char>)
    ensures
        word_run(s) <= s.len(),
    decreases s.len(),
{
    if s.len() > 0 && !is_white(s[0]) {
        word_run_bound(s.drop_first());
    }
}

/// The runs of characters other than white ones, in order.
pub open spec fn words(s: Seq<char>) -> Seq<Seq<char>>
    decreases s.len(),
{
    if s.len() == 0 {
        Seq::empty()
    } else if is_white(s[0]) {
        words(s.drop_first())
    } else {
        proof {
            word_run_bound(s);
        }
        seq![s.take(word_run(s) as int)] + words(s.skip(word_run(s) as int))
    }
}

/// `s` without the white characters that it begins with.
pub fn trim_start(s: &str) -> (r: String)
    ensures
        r@ == trimmed_start(s@),
{
    let chars = chars_of(s);
    let mut i: usize = 0;
    assert(chars@.skip(0) == s@);
    while i < chars.len() && is_whitespace(chars[i])
        invariant
            chars@ == s@,
            i <= chars@.len(),
            white_run(s@) == i + white_run(chars@.skip(i as int)),
        decreases chars@.len() - i,
    {
        assert(chars@.skip(i as int).drop_first() == chars@.skip(i + 1));
        i += 1;
    }
    let r = string_from(&chars, i, chars.len());
    assert(r@ == s@.skip(i as int));
    r
}

/// The end of the run of characters other than white ones that begins at `from`.
fn word_end(chars: &Vec<char>, from: usize) -> (end: usize)
    requires
        from <= chars@.len(),
    ensures
        end == from + word_run(chars@.skip(from as int)),
        end <= chars@.len(),
{
    let mut end: usize = from;
    while end < chars.len() && !is_whitespace(chars[end])
        invariant
            from <= end <= chars@.len(),
            from + word_run(chars@.skip(from as int)) == end + word_run(chars@.skip(end as int)),
        decreases chars@.len() - end,
    {
        assert(chars@.skip(end as int).drop_first() == chars@.skip(end + 1));
        end += 1;
    }
    end
}

/// The words of `s`, in order.
pub fn split_whitespace(s: &str) -> (r: Vec<String>)
    ensures
        texts(r@) == words(s@),
{
    let chars = chars_of(s);
    let mut out: Vec<String> = Vec::new();
    let mut i: usize = 0;
    assert(chars@.skip(0) == s@);
    assert(texts(out@) == Seq::<Seq<char>>::empty());
    while i < chars.len()
        invariant
            chars@ == s@,
            i <= chars@.len(),
            words(s@) == texts(out@) + words(chars@.skip(i as int)),
        decreases chars@.len() - i,
    {
        let ghost rest = chars@.skip(i as int);
        if is_whitespace(chars[i]) {
            assert(rest.drop_first() == chars@.skip(i + 1));
            i += 1;
        } else {
            let end = word_end(&chars, i);
            let word = string_from(&chars, i, end);
            proof {
                assert(rest[0] == chars@[i as int]);
                assert(word@ == rest.take(word_run(rest) as int));
                assert(rest.skip(word_run(rest) as int) == chars@.skip(end as int));
                assert(texts(out@.push(word)) == texts(out@).push(word@));
                assert(texts(out@) + (seq![word@] + words(chars@.skip(end as int))) == texts(
                    out@,
                ).push(word@) + words(chars@.skip(end as int)));
            }
            out.push(word);
            i = end;
        }
    }
    assert(chars@.skip(i as int) == Seq::<char>::empty());
    assert(texts(out@) + Seq::<Seq<char>>::empty() == texts(out@));
    out
}

// ---------------------------------------------------------------------------
// Lines

/// How many characters come before the first `c` in `s`; the length of `s` if
/// there is none.
pub open spec fn before(s: Seq<char>, c: char) -> nat
    decreases s.len(),
{
    if s.len() > 0 && s[0] != c {
        1 + before(s.drop_first(), c)
    } else {
        0
    }
}

/// A line without the carriage return that ended it.
pub open spec fn without_return(line: Seq<char>) -> Seq<char> {
    if line.len() > 0 && line.last() == '\r' {
        line.drop_last()
    } else {
        line
    }
}

/// The lines of a text. A line ends with a line feed, or a carriage return and
/// a line feed; the last line may lack the ending.
pub open spec fn lines(s: Seq<char>) -> Seq<Seq<char>>
    decreases s.len(),
{
    if s.len() == 0 {
        Seq::empty()
    } else {
        let n = before(s, '\n') as int;
        if n >= s.len() {
            seq![s]
        } else {
            seq![without_return(s.take(n))] + lines(s.skip(n + 1))
        }
    }
}

/// The position of the first `c` at or after `from`, or the length.
pub fn find_from(chars: &Vec<char>, from: usize, c: char) -> (at: usize)
    requires
        from <= chars@.len(),
    ensures
        at == from + before(chars@.skip(from as int), c),
        from <= at <= chars@.len(),
        at < chars@.len() ==> chars@[at as int] == c,
{
    let mut at: usize = from;
    while at < chars.len() && chars[at] != c
        invariant
            from <= at <= chars@.len(),
            from + before(chars@.skip(from as int), c) == at + before(chars@.skip(at as int), c),
        decreases chars@.len() - at,
    {
        assert(chars@.skip(at as int).drop_first() == chars@.skip(at + 1));
        at += 1;
    }
    at
}

/// The lines of `s`, in order.
pub fn split_lines(s: &str) -> (r: Vec<String>)
    ensures
        texts(r@) == lines(s@),
{
    let chars = chars_of(s);
    let mut out: Vec<String> = Vec::new();
    let mut i: usize = 0;
    assert(chars@.skip(0) == s@);
    assert(texts(out@) == Seq::<Seq<char>>::empty());
    while i < chars.len()
        invariant
            chars@ == s@,
            i <= chars@.len(),
            lines(s@) == texts(out@) + lines(chars@.skip(i as int)),
        decreases chars@.len() - i,
    {
        let ghost rest = chars@.skip(i as int);
        let at = find_from(&chars, i, '\n');
        let mut end: usize = at;
        if at < chars.len() && at > i && chars[at - 1] == '\r' {
            end = at - 1;
        }
        let line = string_from(&chars, i, end);
        proof {
            let n = before(rest, '\n') as int;
            assert(texts(out@.push(line)) == texts(out@).push(line@));
            if at < chars@.len() {
                assert(n < rest.len());
                let whole = rest.take(n);
                assert(whole == chars@.subrange(i as int, at as int));
                assert(line@ == without_return(whole));
                assert(rest.skip(n + 1) == chars@.skip(at + 1));
                assert(texts(out@) + (seq![line@] + lines(chars@.skip(at + 1))) == texts(
                    out@,
                ).push(line@) + lines(chars@.skip(at + 1)));
            } else {
                assert(line@ == rest);
                assert(chars@.skip(chars@.len() as int) == Seq::<char>::empty());
                assert(texts(out@) + seq![line@] == texts(out@).push(line@) + Seq::<
                    Seq<char>,
                >::empty());
            }
        }
        out.push(line);
        i = if at < chars.len() {
            at + 1
        } else {
            at
        };
    }
    assert(chars@.skip(i as int) == Seq::<char>::empty());
    assert(texts(out@) + Seq::<Seq<char>>::empty() == texts(out@));
    out
}

// ---------------------------------------------------------------------------
// Joining and replacing

/// The texts of `list` with `sep` between neighbours.
pub open spec fn join(list: Seq<Seq<char>>, sep: Seq<char>) -> Seq<char>
    decreases list.len(),
{
    if list.len() == 0 {
        Seq::empty()
    } else if list.len() == 1 {
        list[0]
    } else {
        join(list.drop_last(), sep) + sep + list.last()
    }
}

/// The strings of `list` with `sep` between neighbours.
pub fn join_list(list: &[String], sep: &str) -> (r: String)
    ensures
        r@ == join(texts(list@), sep@),
{
    let mut out = String::new();
    let mut i: usize = 0;
    assert(texts(list@).take(0) == Seq::<Seq<char>>::empty());
    while i < list.len()
        invariant
            i <= list@.len(),
            out@ == join(texts(list@).take(i as int), sep@),
        decreases list@.len() - i,
    {
        let ghost done = texts(list@).take(i + 1);
        assert(done.drop_last() == texts(list@).take(i as int));
        assert(done.last() == list@[i as int]@);
        if i > 0 {
            out.append(sep);
        }
        out.append(list[i].as_str());
        i += 1;
        if i == 1 {
            assert(out@ == done[0]);
        }
    }
    assert(texts(list@).take(i as int) == texts(list@));
    out
}

/// The string slices of `list` with `sep` between neighbours.
pub fn join_strs(list: &[&'static str], sep: &str) -> (r: String)
    ensures
        r@ == join(str_texts(list@), sep@),
{
    let mut owned: Vec<String> = Vec::new();
    while owned.len() < list.len()
        invariant
            owned@.len() <= list@.len(),
            texts(owned@) == str_texts(list@).take(owned@.len() as int),
        decreases list@.len() - owned@.len(),
    {
        let ghost before = texts(owned@);
        let s = list[owned.len()];
        owned.push(s.to_owned());
        assert(texts(owned@) =~= before.push(s@));
    }
    assert(texts(owned@) =~= str_texts(list@));
    join_list(&owned, sep)
}

/// `s` with each occurrence of `from`, taken left to right, replaced by `to`.
pub open spec fn replaced(s: Seq<char>, from: Seq<char>, to: Seq<char>) -> Seq<char>
    decreases s.len(),
{
    if from.len() == 0 || s.len() == 0 {
        s
    } else if has_prefix(s, from) {
        to + replaced(s.skip(from.len() as int), from, to)
    } else {
        seq![s[0]] + replaced(s.drop_first(), from, to)
    }
}

/// `s` with each occurrence of `from`, taken left to right, replaced by `to`.
pub fn replace(s: &str, from: &str, to: &str) -> (r: String)
    requires
        from@.len() > 0,
    ensures
        r@ == replaced(s@, from@, to@),
{
    let chars = chars_of(s);
    let pattern = chars_of(from);
    let mut out = String::new();
    let mut i: usize = 0;
    assert(chars@.skip(0) == s@);
    while i < chars.len()
        invariant
            chars@ == s@,
            pattern@ == from@,
            from@.len() > 0,
            i <= chars@.len(),
            replaced(s@, from@, to@) == out@ + replaced(chars@.skip(i as int), from@, to@),
        decreases chars@.len() - i,
    {
        let ghost rest = chars@.skip(i as int);
        if matches_at(&chars, i, &pattern) {
            proof {
                let next = replaced(chars@.skip(i + pattern@.len()), from@, to@);
                assert(rest.skip(from@.len() as int) == chars@.skip(i + pattern@.len()));
                assert(out@ + (to@ + next) == (out@ + to@) + next);
            }
            out.append(to);
            i += pattern.len();
        } else {
            proof {
                let next = replaced(chars@.skip(i + 1), from@, to@);
                assert(rest.drop_first() == chars@.skip(i + 1));
                assert(out@ + (seq![rest[0]] + next) == out@.push(chars@[i as int]) + next);
            }
            out.push(chars[i]);
            i += 1;
        }
    }
    assert(chars@.skip(i as int) == Seq::<char>::empty());
    assert(out@ + Seq::<char>::empty() == out@);
    out
}

/// `s` in a string literal: a backslash before each backslash and each quote.
pub open spec fn escaped(s: Seq<char>) -> Seq<char>
    decreases s.len(),
{
    if s.len() == 0 {
        Seq::empty()
    } else if s.last() == '\\' || s.last() == '"' {
        escaped(s.drop_last()).push('\\').push(s.last())
    } else {
        escaped(s.drop_last()).push(s.last())
    }
}

/// Puts a backslash before each backslash and each quote of `s`.
pub fn escape_quotes(s: &str) -> (r: String)
    ensures
        r@ == escaped(s@),
{
    let chars = chars_of(s);
    let mut out = String::new();
    let mut i: usize = 0;
    while i < chars.len()
        invariant
            chars@ == s@,
            i <= chars@.len(),
            out@ == escaped(chars@.take(i as int)),
        decreases chars@.len() - i,
    {
        let c = chars[i];
        assert(chars@.take(i + 1).drop_last() == chars@.take(i as int));
        if c == '\\' || c == '"' {
            out.push('\\');
        }
        out.push(c);
        i += 1;
    }
    assert(chars@.take(i as int) == s@);
    out
}

// ---------------------------------------------------------------------------
// Numbers

/// The hexadecimal digit of `d`, in lower case.
pub open spec fn digit(d: int) -> char {
    if d == 0 { '0' } else if d == 1 { '1' } else if d == 2 { '2' } else if d == 3 { '3' }
    else if d == 4 { '4' } else if d == 5 { '5' } else if d == 6 { '6' } else if d == 7 { '7' }
    else if d == 8 { '8' } else if d == 9 { '9' } else if d == 10 { 'a' } else if d == 11 { 'b' }
    else if d == 12 { 'c' } else if d == 13 { 'd' } else if d == 14 { 'e' } else { 'f' }
}

/// The hexadecimal digit of `d`, in lower case.
pub fn digit_char(d: u64) -> (c: char)
    requires
        d < 16,
    ensures
        c == digit(d as int),
{
    match d {
        0 => '0',
        1 => '1',
        2 => '2',
        3 => '3',
        4 => '4',
        5 => '5',
        6 => '6',
        7 => '7',
        8 => '8',
        9 => '9',
        10 => 'a',
        11 => 'b',
        12 => 'c',
        13 => 'd',
        14 => 'e',
        _ => 'f',
    }
}

/// `n` in decimal, without leading zeros.
pub open spec fn decimal(n: nat) -> Seq<char>
    decreases n,
{
    if n < 10 {
        seq![digit(n as int)]
    } else {
        decimal(n / 10).push(digit((n % 10) as int))
    }
}

/// `n` in hexadecimal, without leading zeros.
pub open spec fn hexadecimal(n: nat) -> Seq<char>
    decreases n,
{
    if n < 16 {
        seq![digit(n as int)]
    } else {
        hexadecimal(n / 16).push(digit((n % 16) as int))
    }
}

/// The last `width` hexadecimal digits of `n`, leading zeros included.
pub open spec fn hex_padded(n: nat, width: nat) -> Seq<char>
    decreases width,
{
    if width == 0 {
        Seq::empty()
    } else {
        hex_padded(n / 16, (width - 1) as nat).push(digit((n % 16) as int))
    }
}

/// `n` in decimal, without leading zeros.
pub fn decimal_text(n: u64) -> (s: String)
    ensures
        s@ == decimal(n as nat),
    decreases n,
{
    if n < 10 {
        let mut s = String::new();
        s.push(digit_char(n));
        assert(s@ == seq![digit(n as int)]);
        s
    } else {
        let mut s = decimal_text(n / 10);
        s.push(digit_char(n % 10));
        s
    }
}

/// `n` in hexadecimal, without leading zeros.
pub fn hex_text(n: u64) -> (s: String)
    ensures
        s@ == hexadecimal(n as nat),
    decreases n,
{
    if n < 16 {
        let mut s = String::new();
        s.push(digit_char(n));
        assert(s@ == seq![digit(n as int)]);
        s
    } else {
        let mut s = hex_text(n / 16);
        s.push(digit_char(n % 16));
        s
    }
}

/// The last `width` hexadecimal digits of `n`, leading zeros included.
pub fn hex_padded_text(n: u64, width: u64) -> (s: String)
    ensures
        s@ == hex_padded(n as nat, width as nat),
    decreases width,
{
    if width == 0 {
        String::new()
    } else {
        let mut s = hex_padded_text(n / 16, width - 1);
        s.push(digit_char(n % 16));
        s
    }
}

/// Whether `c` is a decimal digit.
pub open spec fn is_decimal(c: char) -> bool {
    '0' <= c <= '9'
}

/// The number that decimal digits stand for.
pub open spec fn decimal_value(s: Seq<char>) -> nat
    decreases s.len(),
{
    if s.len() == 0 {
        0
    } else {
        decimal_value(s.drop_last()) * 10 + (s.last() as int - '0' as int) as nat
    }
}

/// Whether every character is a decimal digit.
pub open spec fn all_decimal(s: Seq<char>) -> bool {
    forall|i: int| 0 <= i < s.len() ==> is_decimal(#[trigger] s[i])
}

/// A text without the plus sign before a number.
pub open spec fn without_plus(s: Seq<char>) -> Seq<char> {
    if s.len() > 1 && s[0] == '+' {
        s.drop_first()
    } else {
        s
    }
}

/// The small number that a text stands for: decimal digits, at least one, after an optional
/// plus sign, with a value of at most 255.
pub open spec fn small_number(s: Seq<char>) -> Option<u8> {
    let digits = without_plus(s);
    if digits.len() > 0 && all_decimal(digits) && decimal_value(digits) <= 255 {
        Some(decimal_value(digits) as u8)
    } else {
        None
    }
}

/// The number of at most 255 that a text stands for.
pub fn parse_small_number(s: &str) -> (r: Option<u8>)
    ensures
        r == small_number(s@),
{
    let chars = chars_of(s);
    let start: usize = if chars.len() > 1 && chars[0] == '+' {
        1
    } else {
        0
    };
    let ghost digits = chars@.skip(start as int);
    assert(digits =~= without_plus(s@));
    if start == chars.len() {
        return None;
    }
    let mut value: u16 = 0;
    let mut too_large = false;
    let mut i: usize = start;
    assert(digits.take(0) == Seq::<char>::empty());
    while i < chars.len()
        invariant
            start <= i <= chars@.len(),
            digits == chars@.skip(start as int),
            digits.len() > 0,
            digits == without_plus(s@),
            forall|j: int| 0 <= j < i - start ==> is_decimal(#[trigger] digits[j]),
            too_large == (decimal_value(digits.take(i - start)) > 255),
            !too_large ==> value == decimal_value(digits.take(i - start)),
        decreases chars@.len() - i,
    {
        let c = chars[i];
        let ghost k = i - start;
        assert(digits[k] == c);
        if c < '0' || c > '9' {
            return None;
        }
        let d: u16 = (c as u32 - '0' as u32) as u16;
        proof {
            assert(digits.take(k + 1).drop_last() == digits.take(k));
            assert(decimal_value(digits.take(k + 1)) == decimal_value(digits.take(k)) * 10 + d);
        }
        if !too_large {
            value = value * 10 + d;
            if value > 255 {
                too_large = true;
            }
        }
        i += 1;
    }
    assert(digits.take(i - start) =~= digits);
    if too_large {
        None
    } else {
        Some(value as u8)
    }
}

/// `s` without the occurrences of `prefix` that it begins with.
pub open spec fn without_prefixes(s: Seq<char>, prefix: Seq<char>) -> Seq<char>
    decreases s.len(),
{
    if prefix.len() > 0 && has_prefix(s, prefix) {
        without_prefixes(s.skip(prefix.len() as int), prefix)
    } else {
        s
    }
}

/// `s` without the occurrences of `prefix` that it begins with.
pub fn trim_start_matches(s: &str, prefix: &str) -> (r: String)
    requires
        prefix@.len() > 0,
    ensures
        r@ == without_prefixes(s@, prefix@),
{
    let chars = chars_of(s);
    let part = chars_of(prefix);
    let n: usize = chars.len();
    let mut i: usize = 0;
    assert(chars@.skip(0) == s@);
    while matches_at(&chars, i, &part)
        invariant
            chars@ == s@,
            part@ == prefix@,
            prefix@.len() > 0,
            i <= n == chars@.len(),
            without_prefixes(s@, prefix@) == without_prefixes(chars@.skip(i as int), prefix@),
        decreases chars@.len() - i,
    {
        assert(chars@.skip(i as int).skip(prefix@.len() as int) == chars@.skip(i + part@.len()));
        i += part.len();
    }
    let r = string_from(&chars, i, chars.len());
    assert(r@ == chars@.skip(i as int));
    r
}

/// Whether two lists hold the same texts in the same order.
pub fn lists_equal(a: &[String], b: &[String]) -> (r: bool)
    ensures
        r == (texts(a@) == texts(b@)),
{
    if a.len() != b.len() {
        assert(texts(a@).len() != texts(b@).len());
        return false;
    }
    let mut i: usize = 0;
    while i < a.len()
        invariant
            i <= a@.len() == b@.len(),
            forall|j: int| 0 <= j < i ==> (#[trigger] a@[j])@ == b@[j]@,
        decreases a@.len() - i,
    {
        if !str_eq(a[i].as_str(), b[i].as_str()) {
            assert(texts(a@)[i as int] != texts(b@)[i as int]);
            return false;
        }
        i += 1;
    }
    assert forall|j: int| 0 <= j < a@.len() implies texts(a@)[j] == texts(b@)[j] by {
        assert(a@[j]@ == b@[j]@);
    }
    assert(texts(a@) =~= texts(b@));
    true
}

// ---------------------------------------------------------------------------
// Letters

/// `c` in upper case, if it is an ASCII letter.
pub open spec fn upper(c: char) -> char {
    if 'a' <= c <= 'z' {
        (c as u8 - 32) as char
    } else {
        c
    }
}

/// `s` with its ASCII letters in upper case.
pub open spec fn uppercase(s: Seq<char>) -> Seq<char> {
    s.map_values(|c: char| upper(c))
}

/// `s` with its ASCII letters in upper case.
pub fn to_ascii_uppercase(s: &str) -> (r: String)
    ensures
        r@ == uppercase(s@),
{
    let chars = chars_of(s);
    let mut r = String::new();
    let mut i: usize = 0;
    while i < chars.len()
        invariant
            i <= chars@.len(),
            chars@ == s@,
            r@ == uppercase(s@).take(i as int),
        decreases chars@.len() - i,
    {
        let c = chars[i];
        let u = if 'a' <= c && c <= 'z' {
            (c as u8 - 32) as char
        } else {
            c
        };
        assert(uppercase(s@)[i as int] == u);
        r.push(u);
        assert(uppercase(s@).take(i + 1) =~= uppercase(s@).take(i as int).push(u));
        i += 1;
    }
    assert(uppercase(s@).take(i as int) =~= uppercase(s@));
    r
}

// ---------------------------------------------------------------------------
// String literals

/// A string as Rust's `Debug` prints it.
pub uninterp spec fn debug_text(s: Seq<char>) -> Seq<char>;

/// Whether a text consists of ASCII letters, digits, hyphens, underscores and full stops.
pub open spec fn is_plain(s: Seq<char>) -> bool {
    forall|i: int|
        0 <= i < s.len() ==> ('a' <= #[trigger] s[i] <= 'z' || 'A' <= s[i] <= 'Z' || '0' <= s[i]
            <= '9' || s[i] == '-' || s[i] == '_' || s[i] == '.')
}

/// `Debug` of std's `str` prints a string in quotes, with escapes for quotes, backslashes and
/// what cannot be printed. What it prints depends on the string alone; plain text it prints
/// as it is.
#[verifier::external_body]
pub(crate) fn debug_str(s: &str) -> (r: String)
    ensures
        r@ == debug_text(s@),
        is_plain(s@) ==> r@ == "\""@ + s@ + "\""@,
{
    format!("{:?}", s)
}

// ---------------------------------------------------------------------------
// Escapes

/// A string literal read back: each backslash is taken away, and what follows it stays.
pub open spec fn unescaped(s: Seq<char>) -> Seq<char>
    decreases s.len(),
{
    if s.len() == 0 {
        Seq::empty()
    } else if s[0] == '\\' && s.len() > 1 {
        seq![s[1]] + unescaped(s.skip(2))
    } else {
        seq![s[0]] + unescaped(s.drop_first())
    }
}

proof fn escaped_of_concatenation(a: Seq<char>, b: Seq<char>)
    ensures
        escaped(a + b) == escaped(a) + escaped(b),
    decreases b.len(),
{
    if b.len() == 0 {
        assert(a + b =~= a);
        assert(escaped(a) + escaped(b) =~= escaped(a));
    } else {
        assert((a + b).drop_last() =~= a + b.drop_last());
        escaped_of_concatenation(a, b.drop_last());
        assert(escaped(a + b) =~= escaped(a) + escaped(b));
    }
}

/// Reading back an escaped text gives the text.
pub proof fn escaping_is_lossless(s: Seq<char>)
    ensures
        unescaped(escaped(s)) == s,
    decreases s.len(),
{
    if s.len() == 0 {
        assert(escaped(s) =~= Seq::<char>::empty());
        assert(unescaped(escaped(s)) =~= s);
    } else {
        let first = seq![s[0]];
        let rest = s.drop_first();
        assert(s =~= first + rest);
        escaped_of_concatenation(first, rest);
        escaping_is_lossless(rest);
        assert(first.drop_last() =~= Seq::<char>::empty());
        assert(escaped(first.drop_last()) =~= Seq::<char>::empty());
        let e = escaped(s);
        if s[0] == '\\' || s[0] == '"' {
            assert(escaped(first) =~= seq!['\\', s[0]]);
            assert(e.skip(2) =~= escaped(rest));
        } else {
            assert(escaped(first) =~= first);
            assert(e.drop_first() =~= escaped(rest));
        }
        assert(unescaped(e) =~= first + rest);
    }
}

/// In an escaped text every quote stands right after a backslash, so that none ends the
/// literal.
pub proof fn escaped_quotes_are_guarded(s: Seq<char>, i: int)
    requires
        0 <= i < escaped(s).len(),
        escaped(s)[i] == '"',
    ensures
        i > 0,
        escaped(s)[i - 1] == '\\',
    decreases s.len(),
{
    let before = escaped(s.drop_last());
    if i < before.len() {
        escaped_quotes_are_guarded(s.drop_last(), i);
    }
}

// ---------------------------------------------------------------------------
// Parts of a text

/// The texts of a list.
pub fn str_list(items: &[&str]) -> (r: Vec<String>)
    ensures
        texts(r@) == items@.map_values(|s: &str| s@),
{
    let mut out: Vec<String> = Vec::new();
    while out.len() < items.len()
        invariant
            out@.len() <= items@.len(),
            forall|i: int| 0 <= i < out@.len() ==> (#[trigger] out@[i])@ == items@[i]@,
        decreases items@.len() - out@.len(),
    {
        out.push(items[out.len()].to_owned());
    }
    assert(texts(out@) =~= items@.map_values(|s: &str| s@));
    out
}

/// `s` without the white characters that it ends with.
pub open spec fn trimmed_end(s: Seq<char>) -> Seq<char>
    decreases s.len(),
{
    if s.len() > 0 && is_white(s.last()) {
        trimmed_end(s.drop_last())
    } else {
        s
    }
}

/// `s` without the white characters at both ends.
pub open spec fn trimmed(s: Seq<char>) -> Seq<char> {
    trimmed_end(trimmed_start(s))
}

/// `s` without the white characters at both ends.
pub fn trim(s: &str) -> (r: String)
    ensures
        r@ == trimmed(s@),
{
    let start = trim_start(s);
    let chars = chars_of(start.as_str());
    let mut end: usize = chars.len();
    assert(chars@.take(end as int) =~= chars@);
    while end > 0 && is_whitespace(chars[end - 1])
        invariant
            end <= chars@.len(),
            trimmed_end(chars@) == trimmed_end(chars@.take(end as int)),
        decreases end,
    {
        assert(chars@.take(end as int).drop_last() =~= chars@.take(end - 1));
        end -= 1;
    }
    let r = string_from(&chars, 0, end);
    assert(r@ =~= chars@.take(end as int));
    r
}

/// What stands in `s` before the first occurrence of `sep`; all of `s` if there is none.
pub open spec fn part_before(s: Seq<char>, sep: Seq<char>) -> Seq<char>
    decreases s.len(),
{
    if has_prefix(s, sep) || s.len() == 0 {
        Seq::empty()
    } else {
        seq![s[0]] + part_before(s.drop_first(), sep)
    }
}

/// What stands in `s` after the first occurrence of `sep`, if there is one.
pub open spec fn part_after(s: Seq<char>, sep: Seq<char>) -> Option<Seq<char>>
    decreases s.len(),
{
    if has_prefix(s, sep) {
        Some(s.skip(sep.len() as int))
    } else if s.len() == 0 {
        None
    } else {
        part_after(s.drop_first(), sep)
    }
}

/// The position of the first occurrence of `sep` in `s`.
fn find_part(s: &Vec<char>, sep: &Vec<char>) -> (r: Option<usize>)
    ensures
        match r {
            Some(i) => i <= s@.len() && has_prefix(s@.skip(i as int), sep@) && part_before(s@, sep@)
                == s@.take(i as int) && part_after(s@, sep@) == Some(
                s@.skip(i as int).skip(sep@.len() as int),
            ),
            None => part_before(s@, sep@) == s@ && part_after(s@, sep@) is None,
        },
{
    let n: usize = s.len();
    let mut i: usize = 0;
    proof {
        assert(s@.skip(0) =~= s@);
        assert(s@.take(0) + part_before(s@, sep@) =~= part_before(s@, sep@));
    }
    loop
        invariant
            n == s@.len(),
            i <= n,
            part_before(s@, sep@) == s@.take(i as int) + part_before(s@.skip(i as int), sep@),
            part_after(s@, sep@) == part_after(s@.skip(i as int), sep@),
        decreases n - i,
    {
        if matches_at(s, i, sep) {
            assert(s@.take(i as int) + Seq::<char>::empty() =~= s@.take(i as int));
            return Some(i);
        }
        if i == n {
            assert(s@.take(i as int) + Seq::<char>::empty() =~= s@);
            return None;
        }
        proof {
            let rest = s@.skip(i as int);
            assert(rest.drop_first() =~= s@.skip(i + 1));
            assert(rest[0] == s@[i as int]);
            assert(s@.take(i as int) + (seq![rest[0]] + part_before(s@.skip(i + 1), sep@))
                =~= s@.take(i + 1) + part_before(s@.skip(i + 1), sep@));
        }
        i += 1;
    }
}

/// What stands in `s` before the first occurrence of `sep`.
pub fn take_before(s: &str, sep: &str) -> (r: String)
    ensures
        r@ == part_before(s@, sep@),
{
    let chars = chars_of(s);
    let part = chars_of(sep);
    match find_part(&chars, &part) {
        Some(i) => {
            let r = string_from(&chars, 0, i);
            assert(r@ =~= chars@.take(i as int));
            r
        },
        None => s.to_owned(),
    }
}

/// What stands in `s` after the first occurrence of `sep`.
pub fn take_after(s: &str, sep: &str) -> (r: Option<String>)
    ensures
        opt(r) == part_after(s@, sep@),
{
    let chars = chars_of(s);
    let part = chars_of(sep);
    match find_part(&chars, &part) {
        Some(i) => {
            let n: usize = chars.len();
            let from: usize = i + part.len();
            let r = string_from(&chars, from, n);
            assert(r@ =~= chars@.skip(i as int).skip(part@.len() as int));
            Some(r)
        },
        None => None,
    }
}

/// What stands in `s` after the last occurrence of `c`; all of `s` if there is none.
pub open spec fn last_part(s: Seq<char>, c: char) -> Seq<char>
    decreases s.len(),
{
    if s.len() == 0 || s.last() == c {
        Seq::empty()
    } else {
        last_part(s.drop_last(), c).push(s.last())
    }
}

/// What stands in `s` after the last occurrence of `c`.
pub fn take_last_part(s: &str, c: char) -> (r: String)
    ensures
        r@ == last_part(s@, c),
{
    let chars = chars_of(s);
    let n: usize = chars.len();
    let mut from: usize = n;
    assert(chars@.take(n as int) =~= chars@);
    assert(last_part(chars@, c) =~= last_part(chars@, c) + chars@.skip(n as int));
    while from > 0 && chars[from - 1] != c
        invariant
            n == chars@.len(),
            from <= n,
            chars@ == s@,
            last_part(s@, c) == last_part(chars@.take(from as int), c) + chars@.skip(from as int),
        decreases from,
    {
        proof {
            let shorter = chars@.take(from as int);
            assert(shorter.drop_last() =~= chars@.take(from - 1));
            assert(last_part(chars@.take(from - 1), c).push(shorter.last()) + chars@.skip(
                from as int,
            ) =~= last_part(chars@.take(from - 1), c) + chars@.skip(from - 1));
        }
        from -= 1;
    }
    let r = string_from(&chars, from, n);
    assert(r@ =~= Seq::<char>::empty() + chars@.skip(from as int));
    r
}

/// The number that a text stands for: decimal digits, at least one, after an optional plus
/// sign, with a value of at most `usize::MAX`.
pub open spec fn number(s: Seq<char>) -> Option<usize> {
    let digits = without_plus(s);
    if digits.len() > 0 && all_decimal(digits) && decimal_value(digits) <= usize::MAX {
        Some(decimal_value(digits) as usize)
    } else {
        None
    }
}

/// The number of at most `usize::MAX` that a text stands for.
pub fn parse_number(s: &str) -> (r: Option<usize>)
    ensures
        r == number(s@),
{
    let chars = chars_of(s);
    let start: usize = if chars.len() > 1 && chars[0] == '+' {
        1
    } else {
        0
    };
    let ghost digits = chars@.skip(start as int);
    assert(digits =~= without_plus(s@));
    if start == chars.len() {
        return None;
    }
    let mut value: usize = 0;
    let mut too_large = false;
    let mut i: usize = start;
    assert(digits.take(0) == Seq::<char>::empty());
    while i < chars.len()
        invariant
            start <= i <= chars@.len(),
            digits == chars@.skip(start as int),
            digits.len() > 0,
            digits == without_plus(s@),
            forall|j: int| 0 <= j < i - start ==> is_decimal(#[trigger] digits[j]),
            too_large == (decimal_value(digits.take(i - start)) > usize::MAX),
            !too_large ==> value == decimal_value(digits.take(i - start)),
        decreases chars@.len() - i,
    {
        let c = chars[i];
        let ghost k = i - start;
        assert(digits[k] == c);
        if c < '0' || c > '9' {
            return None;
        }
        let d: usize = (c as u32 - '0' as u32) as usize;
        proof {
            assert(digits.take(k + 1).drop_last() == digits.take(k));
            assert(decimal_value(digits.take(k + 1)) == decimal_value(digits.take(k)) * 10 + d);
        }
        if !too_large {
            if value > (usize::MAX - d) / 10 {
                too_large = true;
            } else {
                value = value * 10 + d;
            }
        }
        i += 1;
    }
    assert(digits.take(i - start) =~= digits);
    if too_large {
        None
    } else {
        Some(value)
    }
}

} // verus!
