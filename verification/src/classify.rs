//! The message classifier: decides whether an inbound text is one of the
//! recognized control commands. A command matches in its bare form
//! (`/stopcollect`) or qualified with the bot's own name
//! (`/stopcollect@botname`), as the transport allows; commands are
//! registered in lowercase and matched exactly.

use vstd::prelude::*;
use crate::names::push_all;

verus! {

/// The recognized control commands.
#[derive(Clone, Copy, Debug, PartialEq, Eq, Structural)]
pub enum Command {
    /// Greets and lists the commands.
    Start,
    /// Same reply as `Start`.
    Help,
    /// Begins collecting photos.
    StartCollect,
    /// Stops collecting and triggers the archive pipeline.
    StopCollect,
    /// Reports the running version.
    Version,
    /// Asks for an archive base name.
    FileName,
}

/// A text matches a command when it is the bare command or the command
/// qualified with `@` and the bot's name.
pub open spec fn cmd_match(t: Seq<u8>, c: Seq<u8>, bot: Seq<u8>) -> bool {
    t == c || t == c + seq![64u8] + bot
}

/// Bytes of the `"/start"` command.
pub open spec fn cmd_start() -> Seq<u8> {
    seq![47u8, 115u8, 116u8, 97u8, 114u8, 116u8]
}

/// The `"/start"` command as plain bytes.
pub fn cmd_start_bytes() -> (r: Vec<u8>)
    ensures
        r@ == cmd_start(),
{
    let mut out: Vec<u8> = Vec::new();
    out.push(47);
    out.push(115);
    out.push(116);
    out.push(97);
    out.push(114);
    out.push(116);
    proof {
        assert(out@ =~= cmd_start());
    }
    out
}

/// Bytes of the `"/help"` command.
pub open spec fn cmd_help() -> Seq<u8> {
    seq![47u8, 104u8, 101u8, 108u8, 112u8]
}

/// The `"/help"` command as plain bytes.
pub fn cmd_help_bytes() -> (r: Vec<u8>)
    ensures
        r@ == cmd_help(),
{
    let mut out: Vec<u8> = Vec::new();
    out.push(47);
    out.push(104);
    out.push(101);
    out.push(108);
    out.push(112);
    proof {
        assert(out@ =~= cmd_help());
    }
    out
}

/// Bytes of the `"/startcollect"` command.
pub open spec fn cmd_startcollect() -> Seq<u8> {
    seq![47u8, 115u8, 116u8, 97u8, 114u8, 116u8, 99u8, 111u8, 108u8, 108u8, 101u8, 99u8, 116u8]
}

/// The `"/startcollect"` command as plain bytes.
pub fn cmd_startcollect_bytes() -> (r: Vec<u8>)
    ensures
        r@ == cmd_startcollect(),
{
    let mut out: Vec<u8> = Vec::new();
    out.push(47);
    out.push(115);
    out.push(116);
    out.push(97);
    out.push(114);
    out.push(116);
    out.push(99);
    out.push(111);
    out.push(108);
    out.push(108);
    out.push(101);
    out.push(99);
    out.push(116);
    proof {
        assert(out@ =~= cmd_startcollect());
    }
    out
}

/// Bytes of the `"/stopcollect"` command.
pub open spec fn cmd_stopcollect() -> Seq<u8> {
    seq![47u8, 115u8, 116u8, 111u8, 112u8, 99u8, 111u8, 108u8, 108u8, 101u8, 99u8, 116u8]
}

/// The `"/stopcollect"` command as plain bytes.
pub fn cmd_stopcollect_bytes() -> (r: Vec<u8>)
    ensures
        r@ == cmd_stopcollect(),
{
    let mut out: Vec<u8> = Vec::new();
    out.push(47);
    out.push(115);
    out.push(116);
    out.push(111);
    out.push(112);
    out.push(99);
    out.push(111);
    out.push(108);
    out.push(108);
    out.push(101);
    out.push(99);
    out.push(116);
    proof {
        assert(out@ =~= cmd_stopcollect());
    }
    out
}

/// Bytes of the `"/version"` command.
pub open spec fn cmd_version() -> Seq<u8> {
    seq![47u8, 118u8, 101u8, 114u8, 115u8, 105u8, 111u8, 110u8]
}

/// The `"/version"` command as plain bytes.
pub fn cmd_version_bytes() -> (r: Vec<u8>)
    ensures
        r@ == cmd_version(),
{
    let mut out: Vec<u8> = Vec::new();
    out.push(47);
    out.push(118);
    out.push(101);
    out.push(114);
    out.push(115);
    out.push(105);
    out.push(111);
    out.push(110);
    proof {
        assert(out@ =~= cmd_version());
    }
    out
}

/// Bytes of the `"/filename"` command.
pub open spec fn cmd_filename() -> Seq<u8> {
    seq![47u8, 102u8, 105u8, 108u8, 101u8, 110u8, 97u8, 109u8, 101u8]
}

/// The `"/filename"` command as plain bytes.
pub fn cmd_filename_bytes() -> (r: Vec<u8>)
    ensures
        r@ == cmd_filename(),
{
    let mut out: Vec<u8> = Vec::new();
    out.push(47);
    out.push(102);
    out.push(105);
    out.push(108);
    out.push(101);
    out.push(110);
    out.push(97);
    out.push(109);
    out.push(101);
    proof {
        assert(out@ =~= cmd_filename());
    }
    out
}

/// Byte-wise equality of two texts.
pub fn bytes_eq(a: &[u8], b: &[u8]) -> (r: bool)
    ensures
        r == (a@ == b@),
{
    if a.len() != b.len() {
        proof {
            assert(a@ !~= b@);
        }
        return false;
    }
    let mut i: usize = 0;
    while i < a.len()
        invariant
            0 <= i <= a.len(),
            a@.len() == b@.len(),
            forall|j: int| 0 <= j < i ==> a@[j] == b@[j],
        decreases a.len() - i,
    {
        if a[i] != b[i] {
            proof {
                assert(a@ !~= b@);
            }
            return false;
        }
        i = i + 1;
    }
    proof {
        assert(a@ =~= b@);
    }
    true
}

/// Does `text` invoke the command `cmd`, bare or qualified with the bot's
/// name?
pub fn matches_cmd(text: &Vec<u8>, cmd: &Vec<u8>, bot: &Vec<u8>) -> (r: bool)
    ensures
        r == cmd_match(text@, cmd@, bot@),
{
    if bytes_eq(text.as_slice(), cmd.as_slice()) {
        return true;
    }
    let mut q: Vec<u8> = Vec::new();
    push_all(&mut q, cmd.as_slice());
    q.push(64);
    push_all(&mut q, bot.as_slice());
    proof {
        assert(q@ =~= cmd@ + seq![64u8] + bot@);
    }
    bytes_eq(text.as_slice(), q.as_slice())
}

/// Which command, if any, a text invokes. Earlier commands win, though no
/// two command forms overlap.
pub open spec fn classify_spec(t: Seq<u8>, bot: Seq<u8>) -> Option<Command> {
    if cmd_match(t, cmd_start(), bot) {
        Some(Command::Start)
    } else if cmd_match(t, cmd_help(), bot) {
        Some(Command::Help)
    } else if cmd_match(t, cmd_startcollect(), bot) {
        Some(Command::StartCollect)
    } else if cmd_match(t, cmd_stopcollect(), bot) {
        Some(Command::StopCollect)
    } else if cmd_match(t, cmd_version(), bot) {
        Some(Command::Version)
    } else if cmd_match(t, cmd_filename(), bot) {
        Some(Command::FileName)
    } else {
        None
    }
}

/// Classifies one inbound text against the recognized commands; `None`
/// means regular content.
pub fn classify(text: &Vec<u8>, bot: &Vec<u8>) -> (r: Option<Command>)
    ensures
        r == classify_spec(text@, bot@),
{
    if matches_cmd(text, &cmd_start_bytes(), bot) {
        Some(Command::Start)
    } else if matches_cmd(text, &cmd_help_bytes(), bot) {
        Some(Command::Help)
    } else if matches_cmd(text, &cmd_startcollect_bytes(), bot) {
        Some(Command::StartCollect)
    } else if matches_cmd(text, &cmd_stopcollect_bytes(), bot) {
        Some(Command::StopCollect)
    } else if matches_cmd(text, &cmd_version_bytes(), bot) {
        Some(Command::Version)
    } else if matches_cmd(text, &cmd_filename_bytes(), bot) {
        Some(Command::FileName)
    } else {
        None
    }
}

} // verus!
