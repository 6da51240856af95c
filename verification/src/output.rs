//! What Cargo prints while it builds payloads, and what it builds.
use crate::error::SonicError;
use crate::metadata::CrateKind;
use crate::paths::{self, has_bin_kind};
use crate::text::{self, str_eq};
use vstd::prelude::*;
use vstd::string::StringSliceAdditionalSpecFns;

verus! {

/// How many bytes may be held back before they are printed.
pub const OUTPUT_FLUSH_BYTES: usize = 8192;

/// How many milliseconds output may be held back.
pub const OUTPUT_FLUSH_MILLIS: u64 = 500;

/// Whether output that is held back is to be printed.
pub fn is_flush_due(held_bytes: usize, held_millis: u64) -> (r: bool)
    ensures
        r == (held_bytes >= OUTPUT_FLUSH_BYTES || held_millis >= OUTPUT_FLUSH_MILLIS),
{
    held_bytes >= OUTPUT_FLUSH_BYTES || held_millis >= OUTPUT_FLUSH_MILLIS
}

/// How many bytes come before the first line feed; the number of bytes if there is none.
pub open spec fn line_length(bytes: Seq<u8>) -> nat
    decreases bytes.len(),
{
    if bytes.len() > 0 && bytes[0] != 0x0a {
        1 + line_length(bytes.drop_first())
    } else {
        0
    }
}

/// Lines with two spaces before each, and a line feed after the last one.
pub open spec fn indented(bytes: Seq<u8>) -> Seq<u8>
    decreases bytes.len(),
{
    if bytes.len() == 0 {
        Seq::empty()
    } else {
        let n = line_length(bytes) as int;
        if n >= bytes.len() {
            "  ".spec_bytes() + bytes + "\n".spec_bytes()
        } else {
            "  ".spec_bytes() + bytes.take(n + 1) + indented(bytes.skip(n + 1))
        }
    }
}

/// Output of Cargo under a heading that names the target CPU.
pub open spec fn tagged(cpu: Seq<char>, bytes: Seq<u8>) -> Seq<u8> {
    "cargo-sonic[".spec_bytes() + vstd::utf8::encode_utf8(cpu) + "]\n".spec_bytes() + indented(
        bytes,
    )
}

/// Appends bytes.
pub(crate) fn push_all(out: &mut Vec<u8>, bytes: &[u8])
    ensures
        final(out)@ == old(out)@ + bytes@,
{
    let mut i: usize = 0;
    while i < bytes.len()
        invariant
            i <= bytes@.len(),
            out@ == old(out)@ + bytes@.take(i as int),
        decreases bytes@.len() - i,
    {
        out.push(bytes[i]);
        assert(bytes@.take(i + 1) =~= bytes@.take(i as int).push(bytes@[i as int]));
        i += 1;
    }
    assert(bytes@.take(i as int) =~= bytes@);
}

/// The end of the line that begins at `from`, or the number of bytes.
fn line_end(bytes: &[u8], from: usize) -> (at: usize)
    requires
        from <= bytes@.len(),
    ensures
        at == from + line_length(bytes@.skip(from as int)),
        from <= at <= bytes@.len(),
{
    let mut at: usize = from;
    while at < bytes.len() && bytes[at] != 0x0a
        invariant
            from <= at <= bytes@.len(),
            from + line_length(bytes@.skip(from as int)) == at + line_length(
                bytes@.skip(at as int),
            ),
        decreases bytes@.len() - at,
    {
        assert(bytes@.skip(at as int).drop_first() =~= bytes@.skip(at + 1));
        at += 1;
    }
    at
}

/// What is printed for output of Cargo: a heading that names the target CPU, and each line
/// with two spaces before it.
pub fn write_tagged_output(target_cpu: &str, pending: &[u8]) -> (r: Vec<u8>)
    ensures
        r@ == tagged(target_cpu@, pending@),
{
    let mut out: Vec<u8> = Vec::new();
    push_all(&mut out, "cargo-sonic[".as_bytes());
    push_all(&mut out, target_cpu.as_bytes());
    push_all(&mut out, "]\n".as_bytes());
    let ghost heading = out@;
    assert(heading =~= "cargo-sonic[".spec_bytes() + vstd::utf8::encode_utf8(target_cpu@)
        + "]\n".spec_bytes());
    let mut i: usize = 0;
    assert(pending@.skip(0) =~= pending@);
    while i < pending.len()
        invariant
            i <= pending@.len(),
            out@ + indented(pending@.skip(i as int)) == heading + indented(pending@),
        decreases pending@.len() - i,
    {
        let ghost before = out@;
        let ghost rest = pending@.skip(i as int);
        let end = line_end(pending, i);
        push_all(&mut out, "  ".as_bytes());
        if end == pending.len() {
            let chunk = vstd::slice::slice_subrange(pending, i, end);
            push_all(&mut out, chunk);
            push_all(&mut out, "\n".as_bytes());
            proof {
                assert(chunk@ =~= rest);
                assert(pending@.skip(end as int) =~= Seq::<u8>::empty());
                assert(out@ + indented(pending@.skip(end as int)) =~= before + indented(rest));
            }
            i = end;
        } else {
            let chunk = vstd::slice::slice_subrange(pending, i, end + 1);
            push_all(&mut out, chunk);
            proof {
                let n = line_length(rest) as int;
                assert(chunk@ =~= rest.take(n + 1));
                assert(rest.skip(n + 1) =~= pending@.skip(end + 1));
                assert(out@ + indented(pending@.skip(end + 1)) =~= before + indented(rest));
            }
            i = end + 1;
        }
    }
    assert(pending@.skip(i as int) =~= Seq::<u8>::empty());
    assert(out@ + Seq::<u8>::empty() =~= out@);
    out
}

/// What is printed when the output that was held back is due: nothing if there is none.
/// Nothing is held back afterwards.
pub fn flush_tagged(target_cpu: &str, pending: &mut Vec<u8>) -> (r: Vec<u8>)
    ensures
        final(pending)@ == Seq::<u8>::empty(),
        r@ == (if old(pending)@.len() == 0 {
            Seq::empty()
        } else {
            tagged(target_cpu@, old(pending)@)
        }),
{
    if pending.len() == 0 {
        assert(pending@ =~= Seq::<u8>::empty());
        return Vec::new();
    }
    let r = write_tagged_output(target_cpu, pending.as_slice());
    pending.clear();
    r
}

/// What is printed at the end: output that was held back, if output is tagged. Nothing is
/// held back afterwards.
pub fn flush_payload_stdout(target_cpu: &str, tag_output: bool, pending: &mut Vec<u8>) -> (r: Vec<
    u8,
>)
    ensures
        final(pending)@ == Seq::<u8>::empty(),
        r@ == (if tag_output && old(pending)@.len() > 0 {
            tagged(target_cpu@, old(pending)@)
        } else {
            Seq::empty()
        }),
{
    if tag_output {
        flush_tagged(target_cpu, pending)
    } else {
        pending.clear();
        Vec::new()
    }
}

/// What is printed right away of output that arrives: everything if output is not tagged;
/// else it is held back.
pub fn write_payload_stdout(tag_output: bool, pending: &mut Vec<u8>, bytes: &[u8]) -> (r: Vec<u8>)
    ensures
        if tag_output {
            final(pending)@ == old(pending)@ + bytes@ && r@ == Seq::<u8>::empty()
        } else {
            final(pending)@ == old(pending)@ && r@ == bytes@
        },
{
    if tag_output {
        push_all(pending, bytes);
        Vec::new()
    } else {
        vstd::slice::slice_to_vec(bytes)
    }
}

// ---------------------------------------------------------------------------
// The messages of a build

/// A message of Cargo.
#[derive(Debug)]
pub enum CargoMessage {
    /// A target of a package was built, into an executable or not.
    Artifact { package_id: String, kinds: Vec<CrateKind>, executable: Option<String> },
    /// A diagnostic of rustc.
    Rendered(String),
    /// A line that is no message.
    TextLine(String),
    /// Anything else.
    Other,
}

/// What the messages of a build have told so far.
#[derive(Debug)]
pub struct PayloadProgress {
    /// The output that is held back.
    pub pending: Vec<u8>,
    /// The executables of the package.
    pub executables: Vec<String>,
}

/// The executable that a message tells of, if it is a binary of the package.
pub open spec fn executable_in(package_id: Seq<char>, message: CargoMessage) -> Option<Seq<char>> {
    match message {
        CargoMessage::Artifact { package_id: id, kinds, executable: Some(exe) } => if id@
            == package_id && paths::is_bin(kinds@) {
            Some(exe@)
        } else {
            None
        },
        _ => None,
    }
}

/// The output that a message stands for.
pub open spec fn output_of(message: CargoMessage) -> Seq<u8> {
    match message {
        CargoMessage::Rendered(s) => vstd::utf8::encode_utf8(s@),
        CargoMessage::TextLine(line) => vstd::utf8::encode_utf8(line@) + "\n".spec_bytes(),
        _ => Seq::empty(),
    }
}

impl PayloadProgress {
    /// Nothing has been told.
    pub fn new() -> (r: PayloadProgress)
        ensures
            r.pending@ == Seq::<u8>::empty(),
            r.executables@ == Seq::<String>::empty(),
    {
        PayloadProgress { pending: Vec::new(), executables: Vec::new() }
    }

    /// Takes in a message of the build of a package. Returns what is to be printed right
    /// away.
    pub fn take_message(&mut self, package_id: &str, tag_output: bool, message: &CargoMessage) -> (r:
        Vec<u8>)
        ensures
            text::texts(final(self).executables@) == (match executable_in(package_id@, *message) {
                Some(exe) => text::texts(old(self).executables@).push(exe),
                None => text::texts(old(self).executables@),
            }),
            if tag_output {
                final(self).pending@ == old(self).pending@ + output_of(*message) && r@ == Seq::<
                    u8,
                >::empty()
            } else {
                final(self).pending@ == old(self).pending@ && r@ == output_of(*message)
            },
    {
        assert(self.pending@ + Seq::<u8>::empty() =~= self.pending@);
        match message {
            CargoMessage::Artifact { package_id: id, kinds, executable } => {
                if let Some(exe) = executable {
                    if str_eq(id.as_str(), package_id) && has_bin_kind(kinds) {
                        let ghost before = text::texts(self.executables@);
                        self.executables.push(exe.clone());
                        assert(text::texts(self.executables@) =~= before.push(exe@));
                    }
                }
                Vec::new()
            },
            CargoMessage::Rendered(s) => write_payload_stdout(
                tag_output,
                &mut self.pending,
                s.as_str().as_bytes(),
            ),
            CargoMessage::TextLine(line) => {
                let mut bytes: Vec<u8> = Vec::new();
                push_all(&mut bytes, line.as_str().as_bytes());
                push_all(&mut bytes, "\n".as_bytes());
                assert(bytes@ =~= output_of(*message));
                write_payload_stdout(tag_output, &mut self.pending, bytes.as_slice())
            },
            CargoMessage::Other => Vec::new(),
        }
    }
}

/// The executable of a build that has ended: there must be exactly one.
pub fn built_executable(cpu: &str, success: bool, executables: &[String]) -> (r: Result<
    String,
    SonicError,
>)
    ensures
        if !success {
            r matches Err(SonicError::CargoBuildFailed { cpu: c }) && c@ == cpu@
        } else if executables@.len() != 1 {
            r matches Err(SonicError::NotOneExecutable { cpu: c, found }) && c@ == cpu@ && found
                == executables@.len()
        } else {
            r matches Ok(exe) && exe@ == executables@[0]@
        },
{
    if !success {
        return Err(SonicError::CargoBuildFailed { cpu: cpu.to_owned() });
    }
    if executables.len() != 1 {
        return Err(
            SonicError::NotOneExecutable { cpu: cpu.to_owned(), found: executables.len() as u64 },
        );
    }
    Ok(executables[0].clone())
}

proof fn length_of_a_line(line: Seq<u8>, rest: Seq<u8>)
    requires
        forall|i: int| 0 <= i < line.len() ==> #[trigger] line[i] != 10,
    ensures
        line_length(line) == line.len(),
        line_length(line.push(10) + rest) == line.len(),
    decreases line.len(),
{
    let all = line.push(10) + rest;
    if line.len() > 0 {
        let shorter = line.drop_first();
        assert forall|i: int| 0 <= i < shorter.len() implies #[trigger] shorter[i] != 10 by {
            assert(shorter[i] == line[i + 1]);
        }
        length_of_a_line(shorter, rest);
        assert(all.drop_first() =~= shorter.push(10) + rest);
        assert(all[0] == line[0]);
    } else {
        assert(all[0] == 10);
    }
}

/// Tagged output is a heading that names the target CPU, and every line of the output as it is,
/// with two spaces before it; a last line without a line feed gets one.
pub proof fn every_line_is_indented(
    cpu: &str,
    pending: &[u8],
    rest: &[u8],
    line: Seq<u8>,
    whole: Vec<u8>,
    others: Vec<u8>,
)
    requires
        call_ensures(write_tagged_output, (cpu, pending), whole),
        call_ensures(write_tagged_output, (cpu, rest), others),
        forall|i: int| 0 <= i < line.len() ==> #[trigger] line[i] != 10,
    ensures
        ({
            let heading = vstd::utf8::encode_utf8("cargo-sonic["@) + vstd::utf8::encode_utf8(cpu@)
                + vstd::utf8::encode_utf8("]\n"@);
            let indent = vstd::utf8::encode_utf8("  "@);
            &&& pending@.len() == 0 ==> whole@ == heading
            &&& pending@ == line && line.len() > 0 ==> whole@ == heading + indent + line
                + vstd::utf8::encode_utf8("\n"@)
            &&& pending@ == line.push(10) + rest@ ==> others@.take(heading.len() as int) == heading
                && whole@ == heading + indent + line.push(10) + others@.skip(heading.len() as int)
        }),
{
    let heading = vstd::utf8::encode_utf8("cargo-sonic["@) + vstd::utf8::encode_utf8(cpu@)
        + vstd::utf8::encode_utf8("]\n"@);
    let indent = vstd::utf8::encode_utf8("  "@);
    length_of_a_line(line, rest@);
    if pending@.len() == 0 {
        assert(heading + Seq::<u8>::empty() =~= heading);
    }
    if pending@ == line && line.len() > 0 {
        assert(whole@ =~= heading + indent + line + vstd::utf8::encode_utf8("\n"@));
    }
    if pending@ == line.push(10) + rest@ {
        assert(pending@.take(line.len() as int + 1) =~= line.push(10));
        assert(pending@.skip(line.len() as int + 1) =~= rest@);
        assert(others@.take(heading.len() as int) =~= heading);
        assert(others@.skip(heading.len() as int) =~= indented(rest@));
        assert(whole@ =~= heading + indent + line.push(10) + others@.skip(heading.len() as int));
    }
}

/// Output is held back for half a second or eight kibibytes, whichever comes first.
pub proof fn output_is_held_back_briefly(bytes: usize, millis: u64, r: bool)
    requires
        call_ensures(is_flush_due, (bytes, millis), r),
    ensures
        r <==> bytes >= 8 * 1024 || 2 * millis >= 1000,
{
}

/// A build gives its executable if it succeeds and has made exactly one.
pub proof fn builds_give_one_executable(
    cpu: &str,
    success: bool,
    executables: &[String],
    r: Result<String, SonicError>,
)
    requires
        call_ensures(built_executable, (cpu, success, executables), r),
    ensures
        r is Ok <==> success && executables@.len() == 1,
        r matches Ok(exe) ==> exe@ == executables@[0]@,
        r is Err && !success ==> r->Err_0 is CargoBuildFailed,
        r is Err && success ==> (r->Err_0 matches SonicError::NotOneExecutable { cpu: c, found }
            && c@ == cpu@ && found == executables@.len()),
{
}

/// Nothing of a build's output is lost: what is printed right away and what is held back make
/// up what was held back before and what arrives, and nothing else.
pub proof fn no_output_is_lost(tag_output: bool, pending: &mut Vec<u8>, bytes: &[u8], r: Vec<u8>)
    requires
        call_ensures(write_payload_stdout, (tag_output, pending, bytes), r),
    ensures
        tag_output ==> r@.len() == 0 && final(pending)@ == old(pending)@ + bytes@,
        !tag_output ==> r@ == bytes@ && final(pending)@ == old(pending)@,
{
}

/// What was held back is printed with its heading, once.
pub proof fn held_back_output_is_printed_once(
    cpu: &str,
    tag_output: bool,
    pending: &mut Vec<u8>,
    held: &[u8],
    tagged_text: Vec<u8>,
    r: Vec<u8>,
)
    requires
        call_ensures(flush_payload_stdout, (cpu, tag_output, pending), r),
        held@ == old(pending)@,
        call_ensures(write_tagged_output, (cpu, held), tagged_text),
    ensures
        final(pending)@.len() == 0,
        tag_output && held@.len() > 0 ==> r@ == tagged_text@,
        !tag_output || held@.len() == 0 ==> r@.len() == 0,
{
}

/// An executable counts if it is a binary of the package that is built, and nothing is printed
/// for it.
pub proof fn only_own_binaries_count(
    progress: &mut PayloadProgress,
    package_id: &str,
    tag_output: bool,
    id: String,
    kinds: Vec<CrateKind>,
    exe: String,
    r: Vec<u8>,
    i: int,
)
    requires
        call_ensures(
            PayloadProgress::take_message,
            (
                progress,
                package_id,
                tag_output,
                &CargoMessage::Artifact { package_id: id, kinds, executable: Some(exe) },
            ),
            r,
        ),
        0 <= i < kinds@.len(),
    ensures
        id@ == package_id@ && kinds@[i] is Bin ==> text::texts(final(progress).executables@)
            == text::texts(old(progress).executables@).push(exe@),
        id@ != package_id@ || (forall|k: int| 0 <= k < kinds@.len() ==> !((#[trigger] kinds@[k])
            is Bin)) ==> text::texts(final(progress).executables@) == text::texts(
            old(progress).executables@,
        ),
        r@.len() == 0,
        final(progress).pending@ == old(progress).pending@,
{
    assert(old(progress).pending@ + Seq::<u8>::empty() =~= old(progress).pending@);
}

} // verus!
