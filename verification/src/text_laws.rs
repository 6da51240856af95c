//! What is written as text reads back, and how texts are taken apart and put together.
use crate::text::{
    self, contains, decimal_text, escape_quotes, hex_padded_text, hex_text, join_list,
    list_contains, lists_equal, parse_number, parse_small_number, replace, split_lines,
    split_whitespace, starts_with, str_eq, str_less, strip_both, strip_prefix, take_after,
    take_before, take_last_part, trim, trim_start_matches,
};
use vstd::prelude::*;

verus! {

// ---------------------------------------------------------------------------
// Numbers

/// What a digit is worth: the letters `a` to `f` follow upon `9`.
pub open spec fn digit_worth(c: char) -> int {
    if c <= '9' {
        c as int - 48
    } else {
        c as int - 87
    }
}

/// What digits are worth, the last one counting once and each other one as often as the base
/// says for every digit after it.
pub open spec fn worth(s: Seq<char>, base: int) -> int
    decreases s.len(),
{
    if s.len() == 0 {
        0
    } else {
        worth(s.drop_last(), base) * base + digit_worth(s.last())
    }
}

/// Whether a text consists of hexadecimal digits in lower case.
pub open spec fn is_hex(s: Seq<char>) -> bool {
    forall|i: int| 0 <= i < s.len() ==> '0' <= #[trigger] s[i] <= '9' || 'a' <= s[i] <= 'f'
}

/// Whether a text consists of decimal digits.
pub open spec fn is_dec(s: Seq<char>) -> bool {
    forall|i: int| 0 <= i < s.len() ==> '0' <= #[trigger] s[i] <= '9'
}

pub(crate) proof fn hexadecimal_reads_back(n: nat)
    ensures
        text::hexadecimal(n).len() > 0,
        is_hex(text::hexadecimal(n)),
        worth(text::hexadecimal(n), 16) == n,
        n > 0 ==> text::hexadecimal(n)[0] != '0',
    decreases n,
{
    let s = text::hexadecimal(n);
    if n < 16 {
        assert(s.drop_last() =~= Seq::<char>::empty());
        assert(worth(s.drop_last(), 16) == 0);
    } else {
        hexadecimal_reads_back(n / 16);
        assert(s.drop_last() =~= text::hexadecimal(n / 16));
    }
}

pub(crate) proof fn decimal_reads_back(n: nat)
    ensures
        text::decimal(n).len() > 0,
        is_dec(text::decimal(n)),
        worth(text::decimal(n), 10) == n,
        n > 0 ==> text::decimal(n)[0] != '0',
    decreases n,
{
    let s = text::decimal(n);
    if n < 10 {
        assert(s.drop_last() =~= Seq::<char>::empty());
        assert(worth(s.drop_last(), 10) == 0);
    } else {
        decimal_reads_back(n / 10);
        assert(s.drop_last() =~= text::decimal(n / 10));
    }
}

pub(crate) proof fn padded_reads_back(n: nat, width: nat)
    ensures
        text::hex_padded(n, width).len() == width,
        is_hex(text::hex_padded(n, width)),
        worth(text::hex_padded(n, width), 16) <= n,
        n < sixteens(width) ==> worth(text::hex_padded(n, width), 16) == n,
    decreases width,
{
    let s = text::hex_padded(n, width);
    if width > 0 {
        padded_reads_back(n / 16, (width - 1) as nat);
        assert(s.drop_last() =~= text::hex_padded(n / 16, (width - 1) as nat));
    }
}

/// How many numbers a row of hexadecimal digits can stand for.
pub open spec fn sixteens(width: nat) -> nat
    decreases width,
{
    if width == 0 {
        1
    } else {
        16 * sixteens((width - 1) as nat)
    }
}

/// A number that was written in hexadecimal reads back: the text has digits only, none of them
/// a leading zero, and is worth the number.
pub proof fn hex_reads_back(n: u64, s: String)
    requires
        call_ensures(hex_text, (n,), s),
    ensures
        s@.len() > 0,
        is_hex(s@),
        worth(s@, 16) == n,
        n > 0 ==> s@[0] != '0',
{
    hexadecimal_reads_back(n as nat);
}

/// A number that was written in decimal reads back: the text has digits only, none of them a
/// leading zero, and is worth the number.
pub proof fn dec_reads_back(n: u64, s: String)
    requires
        call_ensures(decimal_text, (n,), s),
    ensures
        s@.len() > 0,
        is_dec(s@),
        worth(s@, 10) == n,
        n > 0 ==> s@[0] != '0',
{
    decimal_reads_back(n as nat);
}

/// A number that was written in hexadecimal with a width that is great enough reads back, and
/// has exactly as many digits.
pub proof fn padded_hex_reads_back(n: u64, width: u64, s: String)
    requires
        call_ensures(hex_padded_text, (n, width), s),
    ensures
        s@.len() == width,
        is_hex(s@),
        n < sixteens(width as nat) ==> worth(s@, 16) == n,
{
    padded_reads_back(n as nat, width as nat);
}

pub(crate) proof fn decimal_value_is_worth(s: Seq<char>)
    requires
        is_dec(s),
    ensures
        text::decimal_value(s) == worth(s, 10),
        text::all_decimal(s),
    decreases s.len(),
{
    if s.len() > 0 {
        assert(is_dec(s.drop_last()));
        decimal_value_is_worth(s.drop_last());
    }
}

/// A text of decimal digits, with or without a plus sign, is read as what it is worth, up to
/// the limit of the number; no other text is read as a number.
pub proof fn numbers_are_read(s: &str, digits: Seq<char>, small: Option<u8>, number: Option<usize>)
    requires
        call_ensures(parse_small_number, (s,), small),
        call_ensures(parse_number, (s,), number),
        digits.len() > 0,
        s@ == digits || s@ == seq!['+'] + digits,
        digits[0] != '+',
    ensures
        is_dec(digits) && worth(digits, 10) <= 255 ==> (small matches Some(n) && n == worth(
            digits,
            10,
        )),
        is_dec(digits) && worth(digits, 10) <= usize::MAX ==> (number matches Some(n) && n == worth(
            digits,
            10,
        )),
        !is_dec(digits) || worth(digits, 10) > 255 ==> small is None,
        !is_dec(digits) || worth(digits, 10) > usize::MAX ==> number is None,
{
    assert(text::without_plus(s@) =~= digits);
    if is_dec(digits) {
        decimal_value_is_worth(digits);
    } else {
        let i = choose|i: int| 0 <= i < digits.len() && !('0' <= #[trigger] digits[i] <= '9');
        assert(!text::is_decimal(digits[i]));
    }
}

// ---------------------------------------------------------------------------
// Order and equality

/// Texts are equal if and only if they have the same characters.
pub proof fn equal_texts_are_the_same(a: &str, b: &str, r: bool)
    requires
        call_ensures(str_eq, (a, b), r),
    ensures
        r <==> a@.len() == b@.len() && forall|i: int| 0 <= i < a@.len() ==> a@[i] == b@[i],
{
    if a@.len() == b@.len() && forall|i: int| 0 <= i < a@.len() ==> a@[i] == b@[i] {
        assert(a@ =~= b@);
    }
}

/// Of two texts the first character that differs decides which comes first, and a text comes
/// before every longer one that begins with it.
pub proof fn the_first_difference_decides(
    a: &str,
    b: &str,
    common: Seq<char>,
    rest_a: Seq<char>,
    rest_b: Seq<char>,
    r: bool,
)
    requires
        call_ensures(str_less, (a, b), r),
        a@ == common + rest_a,
        b@ == common + rest_b,
    ensures
        rest_a.len() == 0 ==> r == (rest_b.len() > 0),
        rest_b.len() == 0 ==> !r,
        rest_a.len() > 0 && rest_b.len() > 0 && rest_a[0] != rest_b[0] ==> r == (rest_a[0]
            < rest_b[0]),
{
    less_after_common(common, rest_a, rest_b);
}

proof fn less_after_common(common: Seq<char>, a: Seq<char>, b: Seq<char>)
    ensures
        text::text_less(common + a, common + b) == text::text_less(a, b),
    decreases common.len(),
{
    if common.len() == 0 {
        assert(common + a =~= a);
        assert(common + b =~= b);
    } else {
        let (x, y) = (common + a, common + b);
        assert(x.drop_first() =~= common.drop_first() + a);
        assert(y.drop_first() =~= common.drop_first() + b);
        assert(x[0] == y[0]);
        less_after_common(common.drop_first(), a, b);
    }
}

// ---------------------------------------------------------------------------
// Parts

/// A text begins with another one if and only if it is that one followed by something, and
/// what follows is what stripping leaves.
pub proof fn prefixes_come_off(s: &str, prefix: &str, r: bool, rest: Option<String>)
    requires
        call_ensures(starts_with, (s, prefix), r),
        call_ensures(strip_prefix, (s, prefix), rest),
    ensures
        r == (rest is Some),
        rest matches Some(t) ==> s@ == prefix@ + t@,
        forall|t: Seq<char>| s@ == #[trigger] (prefix@ + t) ==> r,
{
    if let Some(t) = rest {
        assert(s@ =~= s@.take(prefix@.len() as int) + t@);
    }
    assert forall|t: Seq<char>| s@ == #[trigger] (prefix@ + t) implies r by {
        assert(s@.take(prefix@.len() as int) =~= prefix@);
    }
}

/// What stands between a prefix and a suffix is what both leave when they come off.
pub proof fn both_ends_come_off(s: &str, prefix: &str, suffix: &str, r: Option<String>)
    requires
        call_ensures(strip_both, (s, prefix, suffix), r),
    ensures
        r matches Some(middle) ==> s@ == prefix@ + middle@ + suffix@,
        forall|middle: Seq<char>|
            s@ == #[trigger] (prefix@ + middle + suffix@) ==> (r matches Some(m) && m@ == middle),
{
    if let Some(middle) = r {
        let rest = s@.skip(prefix@.len() as int);
        assert(s@ =~= s@.take(prefix@.len() as int) + middle@ + rest.skip(
            rest.len() - suffix@.len(),
        ));
    }
    assert forall|middle: Seq<char>| s@ == #[trigger] (prefix@ + middle + suffix@) implies (
    r matches Some(m) && m@ == middle) by {
        assert(s@.take(prefix@.len() as int) =~= prefix@);
        let rest = s@.skip(prefix@.len() as int);
        assert(rest.skip(rest.len() - suffix@.len()) =~= suffix@);
        assert(s@.subrange(prefix@.len() as int, s@.len() - suffix@.len()) =~= middle);
    }
}

/// A text contains another one if and only if it is something, that one, and something.
pub proof fn parts_have_two_sides(s: &str, part: &str, r: bool)
    requires
        call_ensures(contains, (s, part), r),
    ensures
        r ==> exists|a: Seq<char>, b: Seq<char>| s@ == #[trigger] (a + part@ + b),
        forall|a: Seq<char>, b: Seq<char>| s@ == #[trigger] (a + part@ + b) ==> r,
{
    if r {
        let i = choose|i: int| 0 <= i <= s@.len() && #[trigger] text::has_prefix(s@.skip(i), part@);
        let a = s@.take(i);
        let b = s@.skip(i).skip(part@.len() as int);
        assert(s@ =~= a + s@.skip(i).take(part@.len() as int) + b);
    }
    assert forall|a: Seq<char>, b: Seq<char>| s@ == #[trigger] (a + part@ + b) implies r by {
        assert(s@.skip(a.len() as int).take(part@.len() as int) =~= part@);
        assert(text::has_prefix(s@.skip(a.len() as int), part@));
    }
}

// ---------------------------------------------------------------------------
// Lines and lists

pub(crate) proof fn before_the_first(front: Seq<char>, c: char, rest: Seq<char>)
    requires
        !front.contains(c),
    ensures
        text::before(front, c) == front.len(),
        text::before(front.push(c) + rest, c) == front.len(),
    decreases front.len(),
{
    let all = front.push(c) + rest;
    if front.len() > 0 {
        let shorter = front.drop_first();
        assert(!shorter.contains(c)) by {
            if shorter.contains(c) {
                let i = choose|i: int| 0 <= i < shorter.len() && shorter[i] == c;
                assert(front[i + 1] == c);
            }
        }
        before_the_first(shorter, c, rest);
        assert(all.drop_first() =~= shorter.push(c) + rest);
        assert(front.contains(front[0]));
        assert(all[0] == front[0]);
    } else {
        assert(all[0] == c);
    }
}

/// A text is split at its line feeds: what comes before the first one is the first line,
/// without the carriage return that it may end in, and the other lines are those of the rest.
/// Without a line feed the text is one line, as it stands, unless it is empty.
pub proof fn lines_end_at_line_feeds(
    s: &str,
    line: Seq<char>,
    rest: &str,
    whole: Vec<String>,
    others: Vec<String>,
)
    requires
        call_ensures(split_lines, (s,), whole),
        call_ensures(split_lines, (rest,), others),
        !line.contains('\n'),
    ensures
        s@ == line + seq!['\n'] + rest@ ==> {
            &&& text::texts(whole@).len() == text::texts(others@).len() + 1
            &&& text::texts(whole@).drop_first() == text::texts(others@)
            &&& line.len() > 0 && line.last() == '\r' ==> text::texts(whole@)[0].push('\r') == line
            &&& line.len() == 0 || line.last() != '\r' ==> text::texts(whole@)[0] == line
        },
        s@ == line && line.len() > 0 ==> text::texts(whole@) == seq![line],
        s@.len() == 0 ==> whole@.len() == 0,
{
    if s@ == line + seq!['\n'] + rest@ {
        before_the_first(line, '\n', rest@);
        assert(s@ =~= line.push('\n') + rest@);
        assert(s@.take(line.len() as int) =~= line);
        assert(s@.skip(line.len() as int + 1) =~= rest@);
        assert(text::texts(whole@).drop_first() =~= text::texts(others@));
        if line.len() > 0 && line.last() == '\r' {
            assert(text::texts(whole@)[0].push('\r') =~= line);
        }
    }
    if s@ == line && line.len() > 0 {
        before_the_first(line, '\n', Seq::empty());
    }
    if s@.len() == 0 {
        assert(text::texts(whole@).len() == 0);
    }
}

/// Joining puts the separator before each text but the first.
pub proof fn joining_goes_text_by_text(
    list: &[String],
    longer: &[String],
    sep: &str,
    last: String,
    joined: String,
    more: String,
)
    requires
        call_ensures(join_list, (list, sep), joined),
        call_ensures(join_list, (longer, sep), more),
        longer@ == list@.push(last),
    ensures
        list@.len() == 0 ==> joined@ == Seq::<char>::empty() && more@ == last@,
        list@.len() > 0 ==> more@ == joined@ + sep@ + last@,
{
    assert(text::texts(longer@).drop_last() =~= text::texts(list@));
    assert(text::texts(longer@).last() == last@);
}

pub(crate) proof fn regroup(a: Seq<char>, b: Seq<char>, c: Seq<char>)
    ensures
        a + (b + c) == a + b + c,
{
    assert(a + (b + c) =~= a + b + c);
}

// ---------------------------------------------------------------------------
// Words, ends and pieces

/// Whether a text is made of printable ASCII characters other than the space.
pub open spec fn is_printable(s: Seq<char>) -> bool {
    forall|i: int| 0 <= i < s.len() ==> '!' <= #[trigger] s[i] <= '~'
}

proof fn run_of_printables(word: Seq<char>, rest: Seq<char>)
    requires
        is_printable(word),
        rest.len() > 0 ==> text::is_white(rest[0]),
    ensures
        text::word_run(word + rest) == word.len(),
    decreases word.len(),
{
    let s = word + rest;
    if word.len() > 0 {
        assert(s[0] == word[0]);
        assert(!text::is_white(word[0]));
        let shorter = word.drop_first();
        assert forall|i: int| 0 <= i < shorter.len() implies '!' <= #[trigger] shorter[i] <= '~' by {
            assert(shorter[i] == word[i + 1]);
        }
        run_of_printables(shorter, rest);
        assert(s.drop_first() =~= shorter + rest);
    } else {
        assert(s =~= rest);
    }
}

/// Words end at spaces, tabs and line ends, and nothing else of a text is lost.
pub proof fn words_end_at_white_characters(
    s: &str,
    rest: &str,
    word: Seq<char>,
    white: char,
    whole: Vec<String>,
    others: Vec<String>,
)
    requires
        call_ensures(split_whitespace, (s,), whole),
        call_ensures(split_whitespace, (rest,), others),
        word.len() > 0,
        is_printable(word),
        white == ' ' || white == '\t' || white == '\n' || white == '\r',
    ensures
        s@.len() == 0 ==> whole@.len() == 0,
        s@ == word ==> text::texts(whole@) == seq![word],
        s@ == word + seq![white] + rest@ ==> text::texts(whole@) == seq![word] + text::texts(
            others@,
        ),
        s@ == seq![white] + rest@ ==> text::texts(whole@) == text::texts(others@),
{
    assert(text::texts(whole@).len() == whole@.len());
    assert(text::is_white(white));
    if s@ == word {
        run_of_printables(word, Seq::empty());
        assert(word + Seq::<char>::empty() =~= word);
        assert(word.take(word.len() as int) =~= word);
        assert(word.skip(word.len() as int) =~= Seq::<char>::empty());
        assert('!' <= word[0] <= '~');
        assert(seq![word] + Seq::<Seq<char>>::empty() =~= seq![word]);
        assert(text::words(Seq::<char>::empty()) =~= Seq::<Seq<char>>::empty());
    }
    if s@ == word + seq![white] + rest@ {
        let after = seq![white] + rest@;
        assert(s@ =~= word + after);
        run_of_printables(word, after);
        assert(s@.take(word.len() as int) =~= word);
        assert(s@.skip(word.len() as int) =~= after);
        assert('!' <= word[0] <= '~');
        assert(s@[0] == word[0]);
        assert(after.drop_first() =~= rest@);
        assert(text::words(after) == text::words(rest@));
    }
    if s@ == seq![white] + rest@ {
        assert(s@.drop_first() =~= rest@);
    }
}

/// White characters come off both ends of a text, and nothing else does.
pub proof fn white_ends_come_off(
    s: &str,
    inner: &str,
    white: char,
    trimmed_s: String,
    trimmed_inner: String,
)
    requires
        call_ensures(trim, (s,), trimmed_s),
        call_ensures(trim, (inner,), trimmed_inner),
        white == ' ' || white == '\t' || white == '\n' || white == '\r',
    ensures
        s@ == seq![white] + inner@ ==> trimmed_s@ == trimmed_inner@,
        s@ == inner@ + seq![white] ==> trimmed_s@ == trimmed_inner@,
        s@.len() > 0 && '!' <= s@[0] <= '~' && '!' <= s@.last() <= '~' ==> trimmed_s@ == s@,
        s@.len() == 0 ==> trimmed_s@.len() == 0,
{
    assert(text::is_white(white));
    if s@ == seq![white] + inner@ {
        assert(s@.drop_first() =~= inner@);
        white_run_fits(inner@);
        assert(s@.skip(text::white_run(s@) as int) =~= inner@.skip(
            text::white_run(inner@) as int,
        ));
    }
    if s@ == inner@ + seq![white] {
        assert(s@.drop_last() =~= inner@);
        start_of_a_longer_text(inner@, white);
    }
    if s@.len() > 0 && '!' <= s@[0] <= '~' && '!' <= s@.last() <= '~' {
        assert(s@.skip(0) =~= s@);
    }
    if s@.len() == 0 {
        assert(s@.skip(0) =~= s@);
    }
}

proof fn white_run_fits(s: Seq<char>)
    ensures
        text::white_run(s) <= s.len(),
        text::white_run(s) < s.len() ==> !text::is_white(s[text::white_run(s) as int]),
        forall|i: int| 0 <= i < text::white_run(s) ==> text::is_white(#[trigger] s[i]),
    decreases s.len(),
{
    if s.len() > 0 && text::is_white(s[0]) {
        let shorter = s.drop_first();
        white_run_fits(shorter);
        assert forall|i: int| 0 <= i < text::white_run(s) implies text::is_white(#[trigger] s[i]) by {
            if i > 0 {
                assert(shorter[i - 1] == s[i]);
            }
        }
    }
}

proof fn start_of_a_longer_text(inner: Seq<char>, white: char)
    requires
        text::is_white(white),
    ensures
        text::trimmed(inner.push(white)) == text::trimmed(inner),
        text::trimmed(inner + seq![white]) == text::trimmed(inner),
{
    let s = inner.push(white);
    assert(inner + seq![white] =~= s);
    white_run_fits(inner);
    white_run_fits(s);
    let (m, n) = (text::white_run(inner) as int, text::white_run(s) as int);
    if m < inner.len() {
        if n < m {
            assert(s[n] == inner[n]);
        } else if n > m {
            assert(s[m] == inner[m]);
        }
        assert(m == n);
        assert(s.skip(n) =~= inner.skip(m).push(white));
        assert(s.skip(n).drop_last() =~= inner.skip(m));
    } else {
        if n < s.len() {
            if n < inner.len() {
                assert(s[n] == inner[n]);
            } else {
                assert(s[n] == white);
            }
            assert(false);
        }
        assert(s.skip(n) =~= Seq::<char>::empty());
        assert(inner.skip(m) =~= Seq::<char>::empty());
    }
}

/// Escaping goes character by character: a backslash comes before each backslash and each
/// quote, and everything else stays.
pub proof fn quotes_and_backslashes_are_escaped(s: &str, longer: &str, c: char, r: String, more: String)
    requires
        call_ensures(escape_quotes, (s,), r),
        call_ensures(escape_quotes, (longer,), more),
        longer@ == s@.push(c),
    ensures
        s@.len() == 0 ==> r@.len() == 0,
        c == '\\' || c == '"' ==> more@ == r@ + seq!['\\', c],
        c != '\\' && c != '"' ==> more@ == r@ + seq![c],
{
    assert(longer@.drop_last() =~= s@);
    assert(more@ =~= r@ + (if c == '\\' || c == '"' {
        seq!['\\', c]
    } else {
        seq![c]
    }));
}

/// A text is replaced from the left: where it occurs, the other one takes its place, and the
/// search goes on behind it; else one character stays.
pub proof fn occurrences_are_replaced(
    s: &str,
    from: &str,
    to: &str,
    rest: &str,
    whole: String,
    others: String,
)
    requires
        from@.len() > 0,
        call_ensures(replace, (s, from, to), whole),
        call_ensures(replace, (rest, from, to), others),
    ensures
        s@.len() == 0 ==> whole@.len() == 0,
        s@ == from@ + rest@ ==> whole@ == to@ + others@,
        s@.len() > 0 && rest@ == s@.drop_first() && (forall|tail: Seq<char>|
            s@ != #[trigger] (from@ + tail)) ==> whole@ == seq![s@[0]] + others@,
{
    if s@ == from@ + rest@ {
        assert(s@.take(from@.len() as int) =~= from@);
        assert(s@.skip(from@.len() as int) =~= rest@);
    }
    if text::has_prefix(s@, from@) {
        assert(s@ =~= from@ + s@.skip(from@.len() as int));
    }
}

/// The first occurrence of a separator parts a text in what stands before it and after it.
pub proof fn the_first_separator_parts(
    s: &str,
    sep: &str,
    front: Seq<char>,
    back: Seq<char>,
    first: String,
    second: Option<String>,
)
    requires
        call_ensures(take_before, (s, sep), first),
        call_ensures(take_after, (s, sep), second),
        s@ == front + sep@ + back,
        forall|i: int| 0 <= i < front.len() ==> !text::has_prefix(#[trigger] s@.skip(i), sep@),
    ensures
        first@ == front,
        second matches Some(t) && t@ == back,
{
    parted_at(s@, sep@, front, back);
}

proof fn parted_at(s: Seq<char>, sep: Seq<char>, front: Seq<char>, back: Seq<char>)
    requires
        s == front + sep + back,
        forall|i: int| 0 <= i < front.len() ==> !text::has_prefix(#[trigger] s.skip(i), sep),
    ensures
        text::part_before(s, sep) == front,
        text::part_after(s, sep) == Some(back),
    decreases front.len(),
{
    if front.len() == 0 {
        assert(s.take(sep.len() as int) =~= sep);
        assert(s.skip(sep.len() as int) =~= back);
        assert(front =~= Seq::<char>::empty());
    } else {
        assert(s.skip(0) =~= s);
        let (next, shorter) = (s.drop_first(), front.drop_first());
        assert(next =~= shorter + sep + back);
        assert forall|i: int| 0 <= i < shorter.len() implies !text::has_prefix(
            #[trigger] next.skip(i),
            sep,
        ) by {
            assert(next.skip(i) =~= s.skip(i + 1));
        }
        parted_at(next, sep, shorter, back);
        assert(front =~= seq![s[0]] + shorter);
    }
}

/// A text without the separator has nothing after it, and all of it before.
pub proof fn without_a_separator_all_stands_before(
    s: &str,
    sep: &str,
    first: String,
    second: Option<String>,
)
    requires
        call_ensures(take_before, (s, sep), first),
        call_ensures(take_after, (s, sep), second),
        forall|i: int| 0 <= i <= s@.len() ==> !text::has_prefix(#[trigger] s@.skip(i), sep@),
    ensures
        first@ == s@,
        second is None,
{
    never_parted(s@, sep@);
}

proof fn never_parted(s: Seq<char>, sep: Seq<char>)
    requires
        forall|i: int| 0 <= i <= s.len() ==> !text::has_prefix(#[trigger] s.skip(i), sep),
    ensures
        text::part_before(s, sep) == s,
        text::part_after(s, sep) is None,
    decreases s.len(),
{
    assert(s.skip(0) =~= s);
    if s.len() > 0 {
        let next = s.drop_first();
        assert forall|i: int| 0 <= i <= next.len() implies !text::has_prefix(
            #[trigger] next.skip(i),
            sep,
        ) by {
            assert(next.skip(i) =~= s.skip(i + 1));
        }
        never_parted(next, sep);
        assert(s =~= seq![s[0]] + next);
    } else {
        assert(s =~= Seq::<char>::empty());
    }
}

/// The last part of a text is what stands after its last separator.
pub proof fn the_last_part_stands_after_the_last_separator(
    s: &str,
    c: char,
    front: Seq<char>,
    back: Seq<char>,
    r: String,
)
    requires
        call_ensures(take_last_part, (s, c), r),
        !back.contains(c),
    ensures
        s@ == front + seq![c] + back ==> r@ == back,
        s@ == back ==> r@ == back,
{
    if s@ == front + seq![c] + back {
        assert(s@ =~= front.push(c) + back);
        last_part_is(front.push(c), c, back);
    }
    if s@ == back {
        assert(Seq::<char>::empty() + back =~= back);
        last_part_is(Seq::empty(), c, back);
    }
}

proof fn last_part_is(front: Seq<char>, c: char, back: Seq<char>)
    requires
        !back.contains(c),
        front.len() == 0 || front.last() == c,
    ensures
        text::last_part(front + back, c) == back,
    decreases back.len(),
{
    let s = front + back;
    if back.len() == 0 {
        assert(s =~= front);
        assert(back =~= Seq::<char>::empty());
    } else {
        let shorter = back.drop_last();
        assert(!shorter.contains(c)) by {
            if shorter.contains(c) {
                let i = choose|i: int| 0 <= i < shorter.len() && shorter[i] == c;
                assert(back[i] == c);
            }
        }
        last_part_is(front, c, shorter);
        assert(s.drop_last() =~= front + shorter);
        assert(s.last() == back.last());
        assert(back.contains(back[back.len() - 1]));
        assert(back =~= shorter.push(back.last()));
    }
}

/// A prefix comes off as often as it stands at the beginning.
pub proof fn repeated_prefixes_come_off(
    s: &str,
    prefix: &str,
    rest: &str,
    whole: String,
    others: String,
)
    requires
        prefix@.len() > 0,
        call_ensures(trim_start_matches, (s, prefix), whole),
        call_ensures(trim_start_matches, (rest, prefix), others),
    ensures
        s@ == prefix@ + rest@ ==> whole@ == others@,
        (forall|tail: Seq<char>| s@ != #[trigger] (prefix@ + tail)) ==> whole@ == s@,
{
    if s@ == prefix@ + rest@ {
        assert(s@.take(prefix@.len() as int) =~= prefix@);
        assert(s@.skip(prefix@.len() as int) =~= rest@);
    }
    if text::has_prefix(s@, prefix@) {
        assert(s@ =~= prefix@ + s@.skip(prefix@.len() as int));
    }
}

/// Lists are equal if they are so text by text, and hold a text if one of theirs is that text.
pub proof fn lists_go_text_by_text(
    a: &[String],
    b: &[String],
    name: &str,
    equal: bool,
    held: bool,
)
    requires
        call_ensures(lists_equal, (a, b), equal),
        call_ensures(list_contains, (a, name), held),
    ensures
        equal <==> a@.len() == b@.len() && forall|i: int|
            0 <= i < a@.len() ==> (#[trigger] a@[i])@ == b@[i]@,
        held <==> exists|i: int| 0 <= i < a@.len() && (#[trigger] a@[i])@ == name@,
{
    let (x, y) = (text::texts(a@), text::texts(b@));
    assert forall|i: int| 0 <= i < x.len() implies #[trigger] x[i] == a@[i]@ by {}
    assert forall|i: int| 0 <= i < y.len() implies #[trigger] y[i] == b@[i]@ by {}
    if a@.len() == b@.len() && forall|i: int|
        0 <= i < a@.len() ==> (#[trigger] a@[i])@ == b@[i]@ {
        assert forall|i: int| 0 <= i < x.len() implies x[i] == y[i] by {
            assert(a@[i]@ == b@[i]@);
        }
        assert(x =~= y);
    }
    if equal {
        assert(x.len() == y.len());
        assert forall|i: int| 0 <= i < a@.len() implies (#[trigger] a@[i])@ == b@[i]@ by {
            assert(x[i] == y[i]);
        }
    }
    if held {
        let i = choose|i: int| 0 <= i < x.len() && x[i] == name@;
        assert(a@[i]@ == name@);
    }
    if exists|i: int| 0 <= i < a@.len() && (#[trigger] a@[i])@ == name@ {
        let i = choose|i: int| 0 <= i < a@.len() && (#[trigger] a@[i])@ == name@;
        assert(x[i] == name@);
    }
}

} // verus!
