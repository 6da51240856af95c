//! The arguments that are meant for Cargo.
use crate::error::SonicError;
use crate::text::{self, starts_with, str_eq};
use clap::{Arg, ArgAction, Command};
use vstd::prelude::*;

verus! {

/// When Cargo is to colour its output.
#[derive(Clone, Copy, Debug, PartialEq, Eq, Structural)]
pub enum ColorMode {
    Auto,
    Always,
    Never,
}

/// What the crate reads of the arguments that are meant for Cargo.
#[derive(Debug)]
pub struct CargoArgs {
    pub release: bool,
    pub target: Option<String>,
    pub target_dir: Option<String>,
    pub bin: Option<String>,
    pub package: Option<String>,
    pub manifest_path: Option<String>,
    pub color: Option<ColorMode>,
    /// The arguments to hand on to Cargo.
    pub forwarded: Vec<String>,
}

/// The mode that a `--color` value names; anything unknown is `auto`.
pub open spec fn color_mode(value: Seq<char>) -> ColorMode {
    if value == "always"@ {
        ColorMode::Always
    } else if value == "never"@ {
        ColorMode::Never
    } else {
        ColorMode::Auto
    }
}

/// The mode that a `--color` value names.
pub fn parse_color_mode(value: &str) -> (r: ColorMode)
    ensures
        r == color_mode(value@),
{
    if str_eq(value, "always") {
        ColorMode::Always
    } else if str_eq(value, "never") {
        ColorMode::Never
    } else {
        ColorMode::Auto
    }
}

/// What to pass to Cargo as `--color`: without a choice, colors only on a terminal.
pub open spec fn color_text(color: Option<ColorMode>, terminal: bool) -> Seq<char> {
    match color {
        Some(ColorMode::Always) => "always"@,
        Some(ColorMode::Never) => "never"@,
        _ => if terminal {
            "always"@
        } else {
            "never"@
        },
    }
}

/// The `--color` value to hand to Cargo. Without a mode, and in automatic mode, it depends
/// on whether the output goes to a terminal.
pub fn resolved_cargo_color(color: Option<ColorMode>, terminal: bool) -> (r: &'static str)
    ensures
        r@ == color_text(color, terminal),
{
    match color {
        Some(ColorMode::Always) => "always",
        Some(ColorMode::Never) => "never",
        _ => {
            if terminal {
                "always"
            } else {
                "never"
            }
        },
    }
}

// ---------------------------------------------------------------------------
// The arguments that the crate understands

/// Whether the argument is an option whose value follows it.
pub open spec fn takes_value(arg: Seq<char>) -> bool {
    ||| arg == "--profile"@
    ||| arg == "--target"@
    ||| arg == "--target-dir"@
    ||| arg == "--bin"@
    ||| arg == "--package"@
    ||| arg == "-p"@
    ||| arg == "--manifest-path"@
    ||| arg == "--color"@
}

/// Whether the argument is understood by itself: a release flag, or an option with its
/// value.
pub open spec fn stands_alone(arg: Seq<char>) -> bool {
    ||| arg == "--release"@
    ||| arg == "-r"@
    ||| text::has_prefix(arg, "--profile="@)
    ||| text::has_prefix(arg, "--target="@)
    ||| text::has_prefix(arg, "--target-dir="@)
    ||| text::has_prefix(arg, "--bin="@)
    ||| text::has_prefix(arg, "--package="@)
    ||| text::has_prefix(arg, "--manifest-path="@)
    ||| text::has_prefix(arg, "--color="@)
}

/// The arguments that the crate understands, each option with the value that follows it.
pub open spec fn known(args: Seq<Seq<char>>) -> Seq<Seq<char>>
    decreases args.len(),
{
    if args.len() == 0 {
        Seq::empty()
    } else if takes_value(args[0]) {
        if args.len() == 1 {
            args
        } else {
            args.take(2) + known(args.skip(2))
        }
    } else if stands_alone(args[0]) {
        seq![args[0]] + known(args.drop_first())
    } else {
        known(args.drop_first())
    }
}

/// Whether the argument is an option whose value follows it.
fn is_valued_option(arg: &str) -> (r: bool)
    ensures
        r == takes_value(arg@),
{
    str_eq(arg, "--profile") || str_eq(arg, "--target") || str_eq(arg, "--target-dir") || str_eq(
        arg,
        "--bin",
    ) || str_eq(arg, "--package") || str_eq(arg, "-p") || str_eq(arg, "--manifest-path") || str_eq(
        arg,
        "--color",
    )
}

/// Whether the argument is understood by itself.
fn is_complete_option(arg: &str) -> (r: bool)
    ensures
        r == stands_alone(arg@),
{
    str_eq(arg, "--release") || str_eq(arg, "-r") || starts_with(arg, "--profile=") || starts_with(
        arg,
        "--target=",
    ) || starts_with(arg, "--target-dir=") || starts_with(arg, "--bin=") || starts_with(
        arg,
        "--package=",
    ) || starts_with(arg, "--manifest-path=") || starts_with(arg, "--color=")
}

/// The arguments that the crate understands.
pub fn known_cargo_args(args: &[String]) -> (r: Vec<String>)
    ensures
        text::texts(r@) == known(text::texts(args@)),
{
    let ghost all = text::texts(args@);
    let mut out: Vec<String> = Vec::new();
    let mut i: usize = 0;
    assert(all.skip(0) =~= all);
    assert(text::texts(out@) + known(all) =~= known(all));
    while i < args.len()
        invariant
            i <= args@.len(),
            all == text::texts(args@),
            text::texts(out@) + known(all.skip(i as int)) == known(all),
        decreases args@.len() - i,
    {
        let ghost rest = all.skip(i as int);
        let ghost before = text::texts(out@);
        let arg = args[i].as_str();
        assert(rest[0] == arg@);
        if is_valued_option(arg) {
            out.push(args[i].clone());
            assert(text::texts(out@) =~= before.push(arg@));
            if i + 1 < args.len() {
                i += 1;
                out.push(args[i].clone());
                proof {
                    assert(text::texts(out@) =~= before.push(arg@).push(args@[i as int]@));
                    assert(rest[1] == args@[i as int]@);
                    assert(rest.take(2) =~= seq![arg@, args@[i as int]@]);
                    assert(rest.skip(2) =~= all.skip(i + 1));
                    assert(before + (rest.take(2) + known(rest.skip(2))) =~= text::texts(out@)
                        + known(all.skip(i + 1)));
                }
            } else {
                assert(rest =~= seq![arg@]);
                assert(all.skip(i + 1) =~= Seq::<Seq<char>>::empty());
                assert(before + rest =~= text::texts(out@) + known(all.skip(i + 1)));
            }
        } else if is_complete_option(arg) {
            out.push(args[i].clone());
            proof {
                assert(text::texts(out@) =~= before.push(arg@));
                assert(rest.drop_first() =~= all.skip(i + 1));
                assert(before + (seq![rest[0]] + known(rest.drop_first())) =~= text::texts(out@)
                    + known(all.skip(i + 1)));
            }
        } else {
            assert(rest.drop_first() =~= all.skip(i + 1));
        }
        i += 1;
    }
    assert(all.skip(i as int) =~= Seq::<Seq<char>>::empty());
    assert(text::texts(out@) + Seq::<Seq<char>>::empty() =~= text::texts(out@));
    out
}

// ---------------------------------------------------------------------------
// The arguments that are handed on

/// Whether the argument is an option that the crate sets itself, with its value in the
/// next argument.
pub open spec fn is_overridden(arg: Seq<char>) -> bool {
    arg == "--manifest-path"@ || arg == "--target-dir"@ || arg == "--color"@
}

/// Whether the argument is such an option together with its value.
pub open spec fn is_overridden_pair(arg: Seq<char>) -> bool {
    text::has_prefix(arg, "--manifest-path="@) || text::has_prefix(arg, "--target-dir="@)
        || text::has_prefix(arg, "--color="@)
}

/// The arguments without the options that the crate sets itself.
pub open spec fn forwarded(args: Seq<Seq<char>>) -> Seq<Seq<char>>
    decreases args.len(),
{
    if args.len() == 0 {
        Seq::empty()
    } else if is_overridden(args[0]) {
        if args.len() == 1 {
            Seq::empty()
        } else {
            forwarded(args.skip(2))
        }
    } else if is_overridden_pair(args[0]) {
        forwarded(args.drop_first())
    } else {
        seq![args[0]] + forwarded(args.drop_first())
    }
}

/// The arguments without the options that the crate sets itself.
pub fn forwarded_cargo_args(args: &[String]) -> (r: Vec<String>)
    ensures
        text::texts(r@) == forwarded(text::texts(args@)),
{
    let ghost all = text::texts(args@);
    let mut out: Vec<String> = Vec::new();
    let mut i: usize = 0;
    assert(all.skip(0) =~= all);
    assert(text::texts(out@) + forwarded(all) =~= forwarded(all));
    while i < args.len()
        invariant
            i <= args@.len(),
            all == text::texts(args@),
            text::texts(out@) + forwarded(all.skip(i as int)) == forwarded(all),
        decreases args@.len() - i,
    {
        let ghost rest = all.skip(i as int);
        let ghost before = text::texts(out@);
        let arg = args[i].as_str();
        assert(rest[0] == arg@);
        assert(rest.drop_first() =~= all.skip(i + 1));
        if str_eq(arg, "--manifest-path") || str_eq(arg, "--target-dir") || str_eq(arg, "--color") {
            if i + 1 < args.len() {
                i += 1;
                assert(rest.skip(2) =~= all.skip(i + 1));
            } else {
                assert(all.skip(i + 1) =~= Seq::<Seq<char>>::empty());
            }
        } else if !(starts_with(arg, "--manifest-path=") || starts_with(arg, "--target-dir=")
            || starts_with(arg, "--color=")) {
            out.push(args[i].clone());
            assert(text::texts(out@) =~= before.push(arg@));
            assert(before + (seq![rest[0]] + forwarded(rest.drop_first())) =~= text::texts(out@)
                + forwarded(all.skip(i + 1)));
        }
        i += 1;
    }
    assert(all.skip(i as int) =~= Seq::<Seq<char>>::empty());
    assert(text::texts(out@) + Seq::<Seq<char>>::empty() =~= text::texts(out@));
    out
}

/// What is handed on holds none of the options that the crate sets itself.
pub proof fn forwarded_holds_no_overridden(args: Seq<Seq<char>>, i: int)
    requires
        0 <= i < forwarded(args).len(),
    ensures
        !is_overridden(forwarded(args)[i]),
        !is_overridden_pair(forwarded(args)[i]),
    decreases args.len(),
{
    if is_overridden(args[0]) {
        forwarded_holds_no_overridden(args.skip(2), i);
    } else if is_overridden_pair(args[0]) {
        forwarded_holds_no_overridden(args.drop_first(), i);
    } else if i > 0 {
        forwarded_holds_no_overridden(args.drop_first(), i - 1);
    }
}

/// Handing on what was handed on changes nothing.
pub proof fn forwarding_is_idempotent(args: Seq<Seq<char>>)
    ensures
        forwarded(forwarded(args)) == forwarded(args),
{
    let once = forwarded(args);
    assert forall|i: int| 0 <= i < once.len() implies !is_overridden(#[trigger] once[i])
        && !is_overridden_pair(once[i]) by {
        forwarded_holds_no_overridden(args, i);
    }
    forwarded_of_plain(once);
}

/// A list without the options that the crate sets itself is handed on as it is.
pub proof fn forwarded_of_plain(args: Seq<Seq<char>>)
    requires
        forall|i: int|
            0 <= i < args.len() ==> !is_overridden(#[trigger] args[i]) && !is_overridden_pair(args[i]),
    ensures
        forwarded(args) == args,
    decreases args.len(),
{
    if args.len() > 0 {
        let rest = args.drop_first();
        assert forall|i: int| 0 <= i < rest.len() implies !is_overridden(#[trigger] rest[i])
            && !is_overridden_pair(rest[i]) by {
            assert(rest[i] == args[i + 1]);
        }
        forwarded_of_plain(rest);
        assert(!is_overridden(args[0]));
        assert(seq![args[0]] + rest =~= args);
    } else {
        assert(forwarded(args) =~= args);
    }
}

// ---------------------------------------------------------------------------
// Reading the arguments

/// What the `clap` crate reads in the arguments, given the name and the letter of a flag, and
/// the names and letters of some options that take a value: whether the flag is given, and
/// the values of each option in the order of the options. `None` if `clap` answers with a
/// help text.
pub uninterp spec fn clap_reading(
    args: Seq<Seq<char>>,
    flag: (Seq<char>, char),
    options: Seq<(Seq<char>, Option<char>)>,
) -> Option<(bool, Seq<Seq<Seq<char>>>)>;

/// The texts of several lists.
pub open spec fn text_lists(lists: Seq<Vec<String>>) -> Seq<Seq<Seq<char>>> {
    lists.map_values(|list: Vec<String>| text::texts(list@))
}

/// Options by their texts.
pub open spec fn option_texts(options: Seq<(&'static str, Option<char>)>) -> Seq<
    (Seq<char>, Option<char>),
> {
    options.map_values(|option: (&'static str, Option<char>)| (option.0@, option.1))
}

/// Whether an option can have the name.
pub open spec fn is_option_name(name: Seq<char>) -> bool {
    name.len() > 0 && name[0] != '-' && name != "help"@
}

/// Whether an option can have the letter.
pub open spec fn is_option_letter(letter: char) -> bool {
    letter != '-' && letter != 'h'
}

/// Whether the names and the letters of a flag and some options can be told apart, from each
/// other and from those that ask for help.
pub open spec fn is_option_table(
    flag: (Seq<char>, char),
    options: Seq<(Seq<char>, Option<char>)>,
) -> bool {
    &&& is_option_name(flag.0)
    &&& is_option_letter(flag.1)
    &&& forall|i: int|
        0 <= i < options.len() ==> is_option_name((#[trigger] options[i]).0) && options[i].0
            != flag.0 && (options[i].1 matches Some(letter) ==> is_option_letter(letter) && letter
            != flag.1)
    &&& forall|i: int, j: int|
        0 <= i < j < options.len() ==> (#[trigger] options[i]).0 != (#[trigger] options[j]).0 && (
        options[i].1 is None || options[i].1 != options[j].1)
}

/// Parses the arguments with `clap::Command::try_get_matches_from`: a flag, and options of
/// one value each that may be repeated, each with a name and perhaps a letter, in arguments
/// that do not begin with the name of a program, and with errors ignored. What it reads
/// depends on the arguments, the flag and the options alone. It fails only where `clap` would
/// print a help text.
#[verifier::external_body]
fn clap_matches(
    args: &Vec<String>,
    flag: (&'static str, char),
    options: &[(&'static str, Option<char>)],
) -> (r: Option<(bool, Vec<Vec<String>>)>)
    requires
        is_option_table((flag.0@, flag.1), option_texts(options@)),
    ensures
        ({
            let read = clap_reading(
                text::texts(args@),
                (flag.0@, flag.1),
                option_texts(options@),
            );
            match r {
                Some((given, values)) => values@.len() == options@.len() && read == Some(
                    (given, text_lists(values@)),
                ),
                None => read is None,
            }
        }),
{
    let matches = Command::new("arguments")
        .no_binary_name(true)
        .ignore_errors(true)
        .arg(Arg::new(flag.0).long(flag.0).short(flag.1).action(ArgAction::SetTrue))
        .args(options.iter().map(|option| {
            Arg::new(option.0).long(option.0).short(option.1).num_args(1).action(ArgAction::Append)
        }))
        .try_get_matches_from(args)
        .ok()?;
    let values = options.iter().map(|option| {
        matches.get_many::<String>(option.0).unwrap_or_default().cloned().collect()
    });
    Some((matches.get_flag(flag.0), values.collect()))
}

/// The options of Cargo that the crate reads, with their letters.
pub open spec fn cargo_options() -> Seq<(Seq<char>, Option<char>)> {
    seq![
        ("profile"@, None),
        ("target"@, None),
        ("target-dir"@, None),
        ("bin"@, None),
        ("package"@, Some('p')),
        ("manifest-path"@, None),
        ("color"@, None),
    ]
}

/// What `clap` reads of Cargo's release flag and of the options that the crate reads.
pub open spec fn reading(args: Seq<Seq<char>>) -> Option<(bool, Seq<Seq<Seq<char>>>)> {
    clap_reading(args, ("release"@, 'r'), cargo_options())
}

/// The options of Cargo that the crate reads.
fn cargo_option_table() -> (r: Vec<(&'static str, Option<char>)>)
    ensures
        option_texts(r@) == cargo_options(),
{
    let mut r: Vec<(&'static str, Option<char>)> = Vec::new();
    r.push(("profile", None));
    r.push(("target", None));
    r.push(("target-dir", None));
    r.push(("bin", None));
    r.push(("package", Some('p')));
    r.push(("manifest-path", None));
    r.push(("color", None));
    assert(option_texts(r@) =~= cargo_options());
    r
}

proof fn cargo_options_are_a_table()
    ensures
        is_option_table(("release"@, 'r'), cargo_options()),
{
    reveal_strlit("profile");
    reveal_strlit("target");
    reveal_strlit("target-dir");
    reveal_strlit("bin");
    reveal_strlit("package");
    reveal_strlit("manifest-path");
    reveal_strlit("color");
    reveal_strlit("release");
    reveal_strlit("help");
    let options = cargo_options();
    assert(options[0].0.len() == 7 && options[1].0.len() == 6 && options[2].0.len() == 10
        && options[3].0.len() == 3 && options[4].0.len() == 7 && options[5].0.len() == 13
        && options[6].0.len() == 5);
    assert("profile"@[1] != "package"@[1]);
    assert("profile"@[0] != "release"@[0]);
    assert("package"@[0] != "release"@[0]);
    assert forall|i: int, j: int|
        #![trigger options[i], options[j]]
        0 <= i < j < options.len() implies options[i].0 != options[j].0 by {
        if i == 0 && j == 4 {
            assert(options[i].0[1] != options[j].0[1]);
        } else {
            assert(options[i].0.len() != options[j].0.len());
        }
    }
}

/// The last text of a list.
pub open spec fn last_text(list: Seq<Seq<char>>) -> Option<Seq<char>> {
    if list.len() == 0 {
        None
    } else {
        Some(list.last())
    }
}

/// The last string of a list.
fn last_value(list: &Vec<String>) -> (r: Option<String>)
    ensures
        text::opt(r) == last_text(text::texts(list@)),
{
    if list.len() == 0 {
        None
    } else {
        Some(list[list.len() - 1].clone())
    }
}

/// Whether the arguments ask for what `clap` read in them: of a repeated option the last
/// value counts, and the release profile counts as the release flag.
pub open spec fn asks_for(
    got: CargoArgs,
    release: bool,
    values: Seq<Seq<Seq<char>>>,
    args: Seq<Seq<char>>,
) -> bool {
    &&& got.release == (release || last_text(values[0]) == Some("release"@))
    &&& text::opt(got.target) == last_text(values[1])
    &&& text::opt(got.target_dir) == last_text(values[2])
    &&& text::opt(got.bin) == last_text(values[3])
    &&& text::opt(got.package) == last_text(values[4])
    &&& text::opt(got.manifest_path) == last_text(values[5])
    &&& got.color == (match last_text(values[6]) {
        Some(color) => Some(color_mode(color)),
        None => None,
    })
    &&& text::texts(got.forwarded@) == forwarded(args)
}

/// What the arguments ask for, given the release flag and the values of the seven options
/// in them.
pub fn cargo_args_from(release: bool, values: &Vec<Vec<String>>, args: &[String]) -> (r: CargoArgs)
    requires
        values@.len() == 7,
    ensures
        asks_for(r, release, text_lists(values@), text::texts(args@)),
{
    let profile_is_release = match last_value(&values[0]) {
        Some(profile) => str_eq(profile.as_str(), "release"),
        None => false,
    };
    let color = match last_value(&values[6]) {
        Some(color) => Some(parse_color_mode(color.as_str())),
        None => None,
    };
    CargoArgs {
        release: release || profile_is_release,
        target: last_value(&values[1]),
        target_dir: last_value(&values[2]),
        bin: last_value(&values[3]),
        package: last_value(&values[4]),
        manifest_path: last_value(&values[5]),
        color,
        forwarded: forwarded_cargo_args(args),
    }
}

/// What the arguments ask for.
pub fn parse_cargo_args(args: &[String]) -> (r: Result<CargoArgs, SonicError>)
    ensures
        match reading(known(text::texts(args@))) {
            Some((release, values)) => r matches Ok(got) && asks_for(
                got,
                release,
                values,
                text::texts(args@),
            ),
            None => r matches Err(e) && e is CargoArgsUnreadable,
        },
{
    let known_args = known_cargo_args(args);
    let options = cargo_option_table();
    proof {
        cargo_options_are_a_table();
        assert(option_texts(options@).len() == options@.len());
    }
    match clap_matches(&known_args, ("release", 'r'), &options) {
        Some((release, values)) => Ok(cargo_args_from(release, &values, args)),
        None => Err(SonicError::CargoArgsUnreadable),
    }
}

// ---------------------------------------------------------------------------
// What arguments mean

/// A mode of colors that was asked for counts; `auto`, and no request, go by the terminal.
pub proof fn colors_are_resolved(
    value: &str,
    mode: ColorMode,
    terminal: bool,
    asked: &'static str,
    unasked: &'static str,
)
    requires
        call_ensures(parse_color_mode, (value,), mode),
        call_ensures(resolved_cargo_color, (Some(mode), terminal), asked),
        call_ensures(resolved_cargo_color, (None, terminal), unasked),
    ensures
        value@ == "always"@ || value@ == "never"@ ==> asked@ == value@,
        value@ != "always"@ && value@ != "never"@ ==> asked@ == unasked@,
        terminal ==> unasked@ == "always"@,
        !terminal ==> unasked@ == "never"@,
{
    reveal_strlit("always");
    reveal_strlit("never");
    assert("always"@.len() != "never"@.len());
}

/// Arguments are handed on one by one: those about the manifest, the target directory and the
/// colors are taken out with their values, and everything else stays, in its order.
#[verifier::spinoff_prover]
#[verifier::rlimit(50)]
pub proof fn arguments_are_handed_on(
    args: &[String],
    rest: &[String],
    after_next: &[String],
    whole: Vec<String>,
    others: Vec<String>,
    later: Vec<String>,
)
    requires
        call_ensures(forwarded_cargo_args, (args,), whole),
        call_ensures(forwarded_cargo_args, (rest,), others),
        call_ensures(forwarded_cargo_args, (after_next,), later),
        args@.len() > 0,
        text::texts(rest@) == text::texts(args@).skip(1),
        args@.len() > 1 ==> text::texts(after_next@) == text::texts(args@).skip(2),
    ensures
        ({
            let first = args@[0]@;
            let named = first == "--manifest-path"@ || first == "--target-dir"@ || first
                == "--color"@;
            let joined = exists|value: Seq<char>|
                first == #[trigger] ("--manifest-path="@ + value) || first == "--target-dir="@ + value
                    || first == "--color="@ + value;
            &&& named && args@.len() > 1 ==> text::texts(whole@) == text::texts(later@)
            &&& named && args@.len() == 1 ==> whole@.len() == 0
            &&& !named && joined ==> text::texts(whole@) == text::texts(others@)
            &&& !named && !joined ==> text::texts(whole@) == seq![first] + text::texts(others@)
        }),
{
    let all = text::texts(args@);
    let first = args@[0]@;
    assert(all[0] == first);
    assert(all.drop_first() =~= all.skip(1));
    assert(text::texts(whole@).len() == whole@.len());
    let (a, b, c) = ("--manifest-path="@, "--target-dir="@, "--color="@);
    if text::has_prefix(first, a) {
        let value = first.skip(a.len() as int);
        assert(first =~= a + value);
    } else if text::has_prefix(first, b) {
        let value = first.skip(b.len() as int);
        let other = a + value;
        assert(first =~= b + value);
    } else if text::has_prefix(first, c) {
        let value = first.skip(c.len() as int);
        let other = a + value;
        assert(first =~= c + value);
    }
    if exists|value: Seq<char>|
        first == #[trigger] (a + value) || first == b + value || first == c + value {
        let value = choose|value: Seq<char>|
            first == #[trigger] (a + value) || first == b + value || first == c + value;
        begins_with_it(a, value);
        begins_with_it(b, value);
        begins_with_it(c, value);
    }
}

/// Each option sets its own part of the request, the last value counting, and both the flag and
/// the profile of that name ask for a release build.
pub proof fn options_set_their_part(
    release: bool,
    values: &Vec<Vec<String>>,
    args: &[String],
    r: CargoArgs,
)
    requires
        call_ensures(cargo_args_from, (release, values, args), r),
        values@.len() == 7,
    ensures
        cargo_options().len() == 7,
        cargo_options()[0].0 == "profile"@ && r.release == (release || values@[0]@.len() > 0
            && values@[0]@.last()@ == "release"@),
        cargo_options()[1].0 == "target"@ && text::opt(r.target) == last_text(
            text::texts(values@[1]@),
        ),
        cargo_options()[2].0 == "target-dir"@ && text::opt(r.target_dir) == last_text(
            text::texts(values@[2]@),
        ),
        cargo_options()[3].0 == "bin"@ && text::opt(r.bin) == last_text(text::texts(values@[3]@)),
        cargo_options()[4] == ("package"@, Some('p')) && text::opt(r.package) == last_text(
            text::texts(values@[4]@),
        ),
        cargo_options()[5].0 == "manifest-path"@ && text::opt(r.manifest_path) == last_text(
            text::texts(values@[5]@),
        ),
        cargo_options()[6].0 == "color"@ && (r.color is Some <==> values@[6]@.len() > 0),
        values@[1]@.len() > 0 ==> text::opt(r.target) == Some(values@[1]@.last()@),
        values@[1]@.len() == 0 ==> r.target is None,
{
    let lists = text_lists(values@);
    assert(lists[0] == text::texts(values@[0]@));
    assert(lists[1] == text::texts(values@[1]@));
    assert(lists[2] == text::texts(values@[2]@));
    assert(lists[3] == text::texts(values@[3]@));
    assert(lists[4] == text::texts(values@[4]@));
    assert(lists[5] == text::texts(values@[5]@));
    assert(lists[6] == text::texts(values@[6]@));
    if values@[0]@.len() > 0 {
        assert(lists[0].last() == values@[0]@.last()@);
    }
    if values@[1]@.len() > 0 {
        assert(lists[1].last() == values@[1]@.last()@);
    }
}

/// Of the arguments those are read that the crate knows: an option with its value, be it the
/// next argument or joined by an equals sign, and the release flag. Everything else is passed
/// over.
#[verifier::spinoff_prover]
#[verifier::rlimit(50)]
pub proof fn known_arguments_are_read(
    args: &[String],
    rest: &[String],
    after_next: &[String],
    value: Seq<char>,
    whole: Vec<String>,
    others: Vec<String>,
    later: Vec<String>,
)
    requires
        call_ensures(known_cargo_args, (args,), whole),
        call_ensures(known_cargo_args, (rest,), others),
        call_ensures(known_cargo_args, (after_next,), later),
        args@.len() > 0,
        text::texts(rest@) == text::texts(args@).skip(1),
        args@.len() > 1 ==> text::texts(after_next@) == text::texts(args@).skip(2),
    ensures
        ({
            let first = args@[0]@;
            let valued = first == "--profile"@ || first == "--target"@ || first == "--target-dir"@
                || first == "--bin"@ || first == "--package"@ || first == "-p"@ || first
                == "--manifest-path"@ || first == "--color"@;
            &&& valued && args@.len() > 1 ==> text::texts(whole@) == seq![first, args@[1]@]
                + text::texts(later@)
            &&& valued && args@.len() == 1 ==> text::texts(whole@) == seq![first]
            &&& first == "--release"@ || first == "-r"@ || first == "--profile="@ + value || first
                == "--target="@ + value || first == "--target-dir="@ + value || first == "--bin="@
                + value || first == "--package="@ + value || first == "--manifest-path="@ + value
                || first == "--color="@ + value ==> valued || text::texts(whole@) == seq![first]
                + text::texts(others@)
            &&& first.len() == 0 || first[0] != '-' ==> text::texts(whole@) == text::texts(others@)
        }),
{
    let all = text::texts(args@);
    let first = args@[0]@;
    assert(all[0] == first);
    assert(all.drop_first() =~= all.skip(1));
    if args@.len() > 1 {
        assert(all[1] == args@[1]@);
        assert(all.take(2) =~= seq![first, args@[1]@]);
    } else {
        assert(all =~= seq![first]);
    }
    begins_with_it("--profile="@, value);
    begins_with_it("--target="@, value);
    begins_with_it("--target-dir="@, value);
    begins_with_it("--bin="@, value);
    begins_with_it("--package="@, value);
    begins_with_it("--manifest-path="@, value);
    begins_with_it("--color="@, value);
    if first.len() == 0 || first[0] != '-' {
        reveal_strlit("--profile");
        reveal_strlit("--target");
        reveal_strlit("--target-dir");
        reveal_strlit("--bin");
        reveal_strlit("--package");
        reveal_strlit("-p");
        reveal_strlit("--manifest-path");
        reveal_strlit("--color");
        reveal_strlit("--release");
        reveal_strlit("-r");
        reveal_strlit("--profile=");
        reveal_strlit("--target=");
        reveal_strlit("--target-dir=");
        reveal_strlit("--bin=");
        reveal_strlit("--package=");
        reveal_strlit("--manifest-path=");
        reveal_strlit("--color=");
        assert("--profile"@[0] == '-' && "--target"@[0] == '-' && "--target-dir"@[0] == '-'
            && "--bin"@[0] == '-' && "--package"@[0] == '-' && "-p"@[0] == '-'
            && "--manifest-path"@[0] == '-' && "--color"@[0] == '-' && "--release"@[0] == '-'
            && "-r"@[0] == '-');
        no_dash(first, "--profile="@);
        no_dash(first, "--target="@);
        no_dash(first, "--target-dir="@);
        no_dash(first, "--bin="@);
        no_dash(first, "--package="@);
        no_dash(first, "--manifest-path="@);
        no_dash(first, "--color="@);
    }
}

proof fn begins_with_it(prefix: Seq<char>, value: Seq<char>)
    ensures
        text::has_prefix(prefix + value, prefix),
{
    assert((prefix + value).take(prefix.len() as int) =~= prefix);
}

proof fn no_dash(s: Seq<char>, prefix: Seq<char>)
    requires
        s.len() == 0 || s[0] != '-',
        prefix.len() > 0,
        prefix[0] == '-',
    ensures
        !text::has_prefix(s, prefix),
{
    if text::has_prefix(s, prefix) {
        assert(s.take(prefix.len() as int)[0] == prefix[0]);
    }
}

} // verus!
