//! The recorder's state machine: a base name fixed at construction, a
//! rotation suffix, a flag for the active session, and the byte count of the
//! current file. The caller owns the actual file handle and the I/O; it keeps
//! the handle present exactly while `recording` is set, writes the payloads
//! this module hands out, and reports every completed write back through
//! [`Recorder::content_written`].

use vstd::prelude::*;
use vstd::string::StringExecFns;

use crate::pathname::base_name;
use crate::pathname::spec_base_name;
use crate::text::into_byte_format;
use crate::text::spec_byte_format;
use crate::text::spec_udec;
use crate::text::append_decimal;

verus! {

/// The recorder's abstract state.
pub ghost struct RecorderModel {
    /// The stem every output file name starts with.
    pub base: Seq<char>,
    /// The rotation counter embedded in the current file name.
    pub suffix: nat,
    /// Whether a session is active, i.e. whether the caller holds an open file.
    pub recording: bool,
    /// Bytes written to the current file since the session began.
    pub size: nat,
}

/// The state after a successful session start: only the flag changes; the
/// suffix and the byte count are left as they were.
pub open spec fn spec_start(m: RecorderModel) -> RecorderModel {
    RecorderModel { recording: true, ..m }
}

/// The state after a stop: the session ends, the suffix advances by one and
/// the byte count clears, whether or not a session was active.
pub open spec fn spec_stop(m: RecorderModel) -> RecorderModel {
    RecorderModel { base: m.base, suffix: m.suffix + 1, recording: false, size: 0 }
}

/// The line written for `content`: content that already ends in a line feed
/// goes out verbatim; anything else gets a carriage return + line feed.
pub open spec fn spec_normalize(c: Seq<char>) -> Seq<char> {
    if c.len() > 0 && c[c.len() - 1] == '\n' {
        c
    } else {
        c + seq!['\r', '\n']
    }
}

/// The name of the file for the session with rotation counter `suffix`.
pub open spec fn spec_filename(base: Seq<char>, suffix: nat) -> Seq<char> {
    base + "_rec"@ + spec_udec(suffix) + ".txt"@
}

#[derive(Debug)]
pub struct Recorder {
    base_filename: String,
    suffix: usize,
    recording: bool,
    file_size: u128,
}

impl View for Recorder {
    type V = RecorderModel;

    closed spec fn view(&self) -> RecorderModel {
        RecorderModel {
            base: self.base_filename@,
            suffix: self.suffix as nat,
            recording: self.recording,
            size: self.file_size as nat,
        }
    }
}

impl Recorder {
    /// The rotation counter starts at one and only ever grows.
    pub open spec fn wf(&self) -> bool {
        self@.suffix >= 1
    }

    /// Derives the base name from `filename` and sets up an idle recorder:
    /// suffix one, no session, zero bytes. Fails exactly where the path has
    /// no usable file-name component.
    pub fn new(filename: String) -> (r: Result<Recorder, String>)
        ensures
            r matches Ok(rec) ==> {
                &&& spec_base_name(filename@) == Some(rec@.base)
                &&& rec@.suffix == 1
                &&& !rec@.recording
                &&& rec@.size == 0
                &&& rec.wf()
            },
            r matches Err(e) ==> {
                &&& spec_base_name(filename@) is None
                &&& e@ == "Cannot get filename to record"@
            },
    {
        match base_name(filename.as_str()) {
            Some(stem) => Ok(Recorder {
                base_filename: stem,
                suffix: 1,
                recording: false,
                file_size: 0,
            }),
            None => Err(String::from_str("Cannot get filename to record")),
        }
    }

    /// The name of the current session's file: "{base}_rec{suffix}.txt".
    pub fn get_filename(&self) -> (r: String)
        ensures
            r@ == spec_filename(self@.base, self@.suffix),
    {
        let mut out = self.base_filename.clone();
        out.append("_rec");
        append_decimal(&mut out, self.suffix as u128);
        out.append(".txt");
        proof {
            assert(out@ =~= spec_filename(self@.base, self@.suffix));
        }
        out
    }

    /// The current file's byte count, rendered for people.
    pub fn get_size(&self) -> (r: String)
        ensures
            r@ == spec_byte_format(self@.size),
    {
        into_byte_format(self.file_size)
    }

    /// The current file's byte count itself.
    pub fn get_size_bytes(&self) -> (r: u128)
        ensures
            r as nat == self@.size,
    {
        self.file_size
    }

    /// The current rotation counter.
    pub fn get_suffix(&self) -> (r: usize)
        ensures
            r as nat == self@.suffix,
    {
        self.suffix
    }

    /// Whether a session is active.
    pub fn is_recording(&self) -> (r: bool)
        ensures
            r == self@.recording,
    {
        self.recording
    }

    /// Opens a session once the caller has created the file named by
    /// [`Recorder::get_filename`]. Starting over an active session keeps the
    /// suffix and the byte count as they were: the caller merely replaces
    /// its handle, and the abandoned file's accounting carries over.
    pub fn start_record(&mut self)
        ensures
            final(self)@ == spec_start(old(self)@),
            old(self).wf() ==> final(self).wf(),
    {
        self.recording = true;
    }

    /// Ends the session, advances the suffix and clears the byte count,
    /// whether or not a session was active; it never fails. The caller drops
    /// its file handle alongside.
    pub fn stop_record(&mut self)
        requires
            old(self)@.suffix < usize::MAX,
        ensures
            final(self)@ == spec_stop(old(self)@),
            final(self).wf(),
    {
        self.recording = false;
        self.suffix = self.suffix + 1;
        self.file_size = 0;
    }

    /// The line to append for `content`, or the error where no session is
    /// active. The caller writes the returned payload to its file and then
    /// reports the bytes through [`Recorder::content_written`]; nothing is
    /// accounted before the write went through.
    pub fn add_content(&self, content: String) -> (r: Result<String, String>)
        ensures
            r matches Ok(payload) ==> self@.recording && payload@ == spec_normalize(content@),
            r matches Err(e) ==> !self@.recording && e@ == "No file recording now"@,
    {
        if !self.recording {
            return Err(String::from_str("No file recording now"));
        }
        let n = content.as_str().unicode_len();
        if n > 0 && content.as_str().get_char(n - 1) == '\n' {
            Ok(content)
        } else {
            proof {
                reveal_strlit("\r\n");
                assert(content@ + "\r\n"@ =~= spec_normalize(content@));
            }
            Ok(content.concat("\r\n"))
        }
    }

    /// Accounts `amount` freshly written bytes to the current file.
    pub fn content_written(&mut self, amount: usize)
        requires
            old(self)@.recording,
            old(self)@.size + amount <= u128::MAX,
        ensures
            final(self)@ == (RecorderModel {
                size: (old(self)@.size + amount) as nat,
                ..old(self)@
            }),
            old(self).wf() ==> final(self).wf(),
    {
        self.file_size = self.file_size + amount as u128;
    }
}

/// A fresh recorder names its first file "{stem}_rec1.txt".
pub proof fn lemma_first_filename(stem: Seq<char>)
    ensures
        spec_filename(stem, 1) =~= stem + "_rec1.txt"@,
{
    reveal_strlit("_rec");
    reveal_strlit(".txt");
    reveal_strlit("_rec1.txt");
}

/// Two stops in a row never fail and advance the suffix by exactly two,
/// ending with no session and a cleared byte count.
pub proof fn lemma_stop_twice(m: RecorderModel)
    ensures
        spec_stop(spec_stop(m)) == (RecorderModel {
            base: m.base,
            suffix: m.suffix + 2,
            recording: false,
            size: 0,
        }),
{
}

/// A line that does not already end in a line feed grows by exactly the two
/// characters of the carriage return + line feed pair; one that does is kept
/// verbatim.
pub proof fn lemma_normalize_len(c: Seq<char>)
    ensures
        c.len() > 0 && c[c.len() - 1] == '\n' ==> spec_normalize(c) == c,
        !(c.len() > 0 && c[c.len() - 1] == '\n') ==> spec_normalize(c).len() == c.len() + 2,
{
}

} // verus!
