//! Reading a transcript line by line within a bound on memory, and choosing
//! which of its lines a copy keeps.
//!
//! A transcript is a sequence of lines that end in a line feed; the last one
//! may lack it. A line over the cap is corruption: it is dropped without being
//! held, and takes no index.

use vstd::prelude::*;

use crate::io_error::IoError;
use crate::text::{before, same_text, text_before, text_order, text_order_transitive};

verus! {

/// The longest transcript line that a copy holds.
pub const MAX_UPDATE_LINE_BYTES: usize = 67_108_864;

pub const LINE_FEED: u8 = 10;

/// The bytes that ASCII counts as white space.
pub open spec fn is_ascii_space(b: u8) -> bool {
    b == 0x20 || b == 0x09 || b == 0x0A || b == 0x0C || b == 0x0D
}

/// How many leading bytes of `s` are white space.
pub open spec fn leading_space(s: Seq<u8>) -> nat
    decreases s.len(),
{
    if s.len() > 0 && is_ascii_space(s[0]) {
        1 + leading_space(s.skip(1))
    } else {
        0
    }
}

/// How many trailing bytes of `s` are white space.
pub open spec fn trailing_space(s: Seq<u8>) -> nat
    decreases s.len(),
{
    if s.len() > 0 && is_ascii_space(s.last()) {
        1 + trailing_space(s.drop_last())
    } else {
        0
    }
}

/// `s` without its leading and trailing white space.
pub open spec fn trimmed_ascii(s: Seq<u8>) -> Seq<u8> {
    let rest = s.skip(leading_space(s) as int);
    rest.take(rest.len() - trailing_space(rest))
}

/// What a raw line counts as: nothing where it is over the cap or blank, else
/// itself without the white space around it.
pub open spec fn line_of(raw: Seq<u8>, cap: nat) -> Seq<Seq<u8>> {
    if raw.len() > cap || trimmed_ascii(raw).len() == 0 {
        seq![]
    } else {
        seq![trimmed_ascii(raw)]
    }
}

/// The bytes of `data` after its last line feed.
pub open spec fn unfinished(data: Seq<u8>) -> Seq<u8>
    decreases data.len(),
{
    if data.len() == 0 || data.last() == LINE_FEED {
        seq![]
    } else {
        unfinished(data.drop_last()).push(data.last())
    }
}

/// The lines of `data` up to its last line feed.
pub open spec fn finished_lines(data: Seq<u8>, cap: nat) -> Seq<Seq<u8>>
    decreases data.len(),
{
    if data.len() == 0 {
        seq![]
    } else if data.last() == LINE_FEED {
        finished_lines(data.drop_last(), cap) + line_of(unfinished(data.drop_last()), cap)
    } else {
        finished_lines(data.drop_last(), cap)
    }
}

/// The lines of `data`, in order; the place of a line is its index.
pub open spec fn lines_of(data: Seq<u8>, cap: nat) -> Seq<Seq<u8>> {
    finished_lines(data, cap) + line_of(unfinished(data), cap)
}

fn ascii_space(b: u8) -> (r: bool)
    ensures
        r == is_ascii_space(b),
{
    b == 0x20 || b == 0x09 || b == 0x0A || b == 0x0C || b == 0x0D
}

/// `s` without leading and trailing white space.
pub fn trim_ascii(s: &Vec<u8>) -> (r: Vec<u8>)
    ensures
        r@ == trimmed_ascii(s@),
{
    let n: usize = s.len();
    let mut from: usize = 0;
    assert(s@.skip(0) =~= s@);
    while from < n && ascii_space(s[from])
        invariant
            from <= n,
            n == s.len(),
            leading_space(s@) == from + leading_space(s@.skip(from as int)),
        decreases n - from,
    {
        assert(s@.skip(from as int).skip(1) =~= s@.skip(from + 1));
        from = from + 1;
    }
    let ghost rest = s@.skip(from as int);
    let mut to: usize = n;
    assert(rest.take(rest.len() as int) =~= rest);
    while to > from && ascii_space(s[to - 1])
        invariant
            from <= to <= n,
            n == s.len(),
            rest == s@.skip(from as int),
            trailing_space(rest) == n - to + trailing_space(rest.take(to - from)),
        decreases to,
    {
        assert(rest.take(to - from).drop_last() =~= rest.take(to - from - 1));
        to = to - 1;
    }
    let mut out: Vec<u8> = Vec::new();
    let mut i: usize = from;
    while i < to
        invariant
            from <= i <= to <= n,
            n == s.len(),
            out@ == s@.subrange(from as int, i as int),
        decreases to - i,
    {
        out.push(s[i]);
        i = i + 1;
    }
    assert(out@ =~= rest.take(to - from));
    out
}

/// A reader that takes a transcript byte by byte and holds at most one line of
/// it, and never more than `cap` bytes.
#[derive(Debug)]
pub struct LineReader {
    pub cap: usize,
    /// The unfinished line, unless it is over the cap.
    pub buf: Vec<u8>,
    pub overlong: bool,
    /// The index of the next line.
    pub index: usize,
}

impl LineReader {
    /// No more than the cap is held.
    pub open spec fn wf(&self) -> bool {
        &&& self.buf@.len() <= self.cap
        &&& self.overlong ==> self.buf@.len() == 0
    }

    /// Whether this is where a reader is after `data`.
    pub open spec fn has_read(&self, data: Seq<u8>) -> bool {
        &&& self.index == finished_lines(data, self.cap as nat).len()
        &&& self.overlong == (unfinished(data).len() > self.cap)
        &&& self.buf@ =~= if self.overlong {
            seq![]
        } else {
            unfinished(data)
        }
    }

    pub fn new(cap: usize) -> (r: LineReader)
        ensures
            r.cap == cap,
            r.wf(),
            r.has_read(seq![]),
    {
        LineReader { cap, buf: Vec::new(), overlong: false, index: 0 }
    }

    /// The unfinished line as a line with its index, if it counts as one.
    fn take_line(&mut self) -> (r: Option<(usize, Vec<u8>)>)
        requires
            old(self).wf(),
            old(self).index < usize::MAX,
        ensures
            final(self).cap == old(self).cap,
            final(self).buf@.len() == 0,
            !final(self).overlong,
            r is Some <==> trimmed_ascii(old(self).buf@).len() > 0,
            r matches Some((index, line)) ==> {
                &&& index == old(self).index
                &&& line@ == trimmed_ascii(old(self).buf@)
                &&& final(self).index == index + 1
            },
            r is None ==> final(self).index == old(self).index,
    {
        let line = trim_ascii(&self.buf);
        self.buf.clear();
        self.overlong = false;
        if line.len() == 0 {
            None
        } else {
            let index: usize = self.index;
            self.index = index + 1;
            Some((index, line))
        }
    }

    /// Takes in one byte; gives the line that it ends, with its index.
    pub fn push(&mut self, byte: u8) -> (r: Option<(usize, Vec<u8>)>)
        requires
            old(self).wf(),
            old(self).index < usize::MAX,
        ensures
            final(self).wf(),
            final(self).cap == old(self).cap,
            forall|data: Seq<u8>| #[trigger]
                old(self).has_read(data) ==> {
                    &&& final(self).has_read(data.push(byte))
                    &&& gives(r, finished_lines(data, old(self).cap as nat), finished_lines(
                        data.push(byte),
                        old(self).cap as nat,
                    ))
                },
    {
        proof {
            assert(trimmed_ascii(Seq::<u8>::empty()) =~= Seq::<u8>::empty());
            assert forall|data: Seq<u8>| #[trigger] old(self).has_read(data) implies ({
                let more = data.push(byte);
                &&& more.drop_last() == data
                &&& unfinished(more) == if byte == LINE_FEED {
                    seq![]
                } else {
                    unfinished(data).push(byte)
                }
                &&& finished_lines(more, self.cap as nat) == if byte == LINE_FEED {
                    finished_lines(data, self.cap as nat) + line_of(
                        unfinished(data),
                        self.cap as nat,
                    )
                } else {
                    finished_lines(data, self.cap as nat)
                }
            }) by {
                assert(data.push(byte).drop_last() =~= data);
            }
        }
        if byte == LINE_FEED {
            let r = self.take_line();
            proof {
                assert forall|data: Seq<u8>| #[trigger] old(self).has_read(data) implies gives(
                    r,
                    finished_lines(data, old(self).cap as nat),
                    finished_lines(data.push(byte), old(self).cap as nat),
                ) by {
                    one_more(r, finished_lines(data, old(self).cap as nat), unfinished(data), old(
                        self,
                    ).cap as nat);
                }
            }
            r
        } else if self.overlong {
            None
        } else if self.buf.len() >= self.cap {
            self.buf.clear();
            self.overlong = true;
            None
        } else {
            self.buf.push(byte);
            None
        }
    }

    /// The last line, where the transcript ends without a line feed.
    pub fn last_line(&mut self) -> (r: Option<(usize, Vec<u8>)>)
        requires
            old(self).wf(),
            old(self).index < usize::MAX,
        ensures
            final(self).wf(),
            final(self).cap == old(self).cap,
            forall|data: Seq<u8>| #[trigger]
                old(self).has_read(data) ==> gives(
                    r,
                    finished_lines(data, old(self).cap as nat),
                    lines_of(data, old(self).cap as nat),
                ),
    {
        proof {
            assert(trimmed_ascii(Seq::<u8>::empty()) =~= Seq::<u8>::empty());
        }
        let r = self.take_line();
        proof {
            assert forall|data: Seq<u8>| #[trigger] old(self).has_read(data) implies gives(
                r,
                finished_lines(data, old(self).cap as nat),
                lines_of(data, old(self).cap as nat),
            ) by {
                one_more(
                    r,
                    finished_lines(data, old(self).cap as nat),
                    unfinished(data),
                    old(self).cap as nat,
                );
            }
        }
        r
    }
}

/// Whether `r` is what `after` holds beyond `before`.
pub open spec fn gives(
    r: Option<(usize, Vec<u8>)>,
    before: Seq<Seq<u8>>,
    after: Seq<Seq<u8>>,
) -> bool {
    match r {
        Some((index, line)) => index == before.len() && after == before.push(line@),
        None => after == before,
    }
}

proof fn one_more(r: Option<(usize, Vec<u8>)>, lines: Seq<Seq<u8>>, raw: Seq<u8>, cap: nat)
    requires
        r is Some <==> raw.len() <= cap && trimmed_ascii(raw).len() > 0,
        r matches Some((index, line)) ==> index == lines.len() && line@ == trimmed_ascii(raw),
    ensures
        gives(r, lines, lines + line_of(raw, cap)),
{
    if r is Some {
        assert(lines + seq![trimmed_ascii(raw)] =~= lines.push(trimmed_ascii(raw)));
    } else {
        assert(lines + Seq::<Seq<u8>>::empty() =~= lines);
    }
}

proof fn fewer_lines_than_bytes(data: Seq<u8>, cap: nat)
    ensures
        finished_lines(data, cap).len() <= data.len(),
    decreases data.len(),
{
    if data.len() > 0 {
        fewer_lines_than_bytes(data.drop_last(), cap);
    }
}

/// All lines of a transcript at hand, each with its index.
pub fn for_each_jsonl_line_capped(data: &[u8], cap: usize) -> (r: Vec<(usize, Vec<u8>)>)
    requires
        data@.len() < usize::MAX,
    ensures
        r@.len() == lines_of(data@, cap as nat).len(),
        forall|i: int|
            0 <= i < r@.len() ==> (#[trigger] r@[i]).0 == i && r@[i].1@ == lines_of(
                data@,
                cap as nat,
            )[i],
{
    let mut reader = LineReader::new(cap);
    let mut out: Vec<(usize, Vec<u8>)> = Vec::new();
    let mut i: usize = 0;
    assert(data@.take(0) =~= seq![]);
    while i < data.len()
        invariant
            i <= data.len(),
            data@.len() < usize::MAX,
            reader.cap == cap,
            reader.wf(),
            reader.has_read(data@.take(i as int)),
            out@.len() == finished_lines(data@.take(i as int), cap as nat).len(),
            forall|k: int|
                0 <= k < out@.len() ==> (#[trigger] out@[k]).0 == k && out@[k].1@
                    == finished_lines(data@.take(i as int), cap as nat)[k],
        decreases data.len() - i,
    {
        let ghost read = data@.take(i as int);
        proof {
            fewer_lines_than_bytes(read, cap as nat);
            assert(data@.take(i + 1) =~= read.push(data@[i as int]));
        }
        if let Some(line) = reader.push(data[i]) {
            out.push(line);
        }
        i = i + 1;
    }
    proof {
        assert(data@.take(i as int) =~= data@);
        fewer_lines_than_bytes(data@, cap as nat);
    }
    if let Some(line) = reader.last_line() {
        out.push(line);
    }
    out
}

// A pass over a transcript that can stop.

/// What the driver does next.
#[derive(Debug)]
pub enum PassStep {
    /// Read the next byte.
    Read,
    /// Hand this line to whoever asked for the pass.
    Call { index: usize, line: Vec<u8> },
    Finished(Result<(), IoError>),
}

/// What happened.
#[derive(Debug)]
pub enum PassEvent {
    Byte(u8),
    /// There are no more bytes.
    End,
    ReadFailed(IoError),
    /// Whether the pass is to stop here.
    Called(Result<bool, IoError>),
}

/// A pass over the lines of a transcript, in progress.
#[derive(Debug)]
pub struct LinePass {
    pub reader: LineReader,
    /// Whether all bytes were read.
    pub ended: bool,
    pub step: PassStep,
}

/// The line that a step hands on, with its index.
pub open spec fn handed_on(step: PassStep) -> Option<(usize, Vec<u8>)> {
    match step {
        PassStep::Call { index, line } => Some((index, line)),
        _ => None,
    }
}

impl LinePass {
    pub open spec fn wf(&self) -> bool {
        &&& self.reader.wf()
        &&& self.step is Read ==> !self.ended
    }

    /// Whether `event` is what the step can lead to.
    pub open spec fn fits(&self, event: PassEvent) -> bool {
        match self.step {
            PassStep::Read => match event {
                PassEvent::Byte(_) => self.reader.index < usize::MAX,
                PassEvent::End => self.reader.index < usize::MAX,
                PassEvent::ReadFailed(_) => true,
                PassEvent::Called(_) => false,
            },
            PassStep::Call { .. } => event is Called,
            PassStep::Finished(_) => false,
        }
    }

    /// Whether `event` leads from here to `new`. A line is handed on as soon as
    /// it is complete, and nothing is read meanwhile; who is handed a line can
    /// end the pass, or fail it with an error of its own.
    pub open spec fn leads_to(self, event: PassEvent, new: LinePass) -> bool {
        let cap = self.reader.cap as nat;
        match event {
            PassEvent::Byte(byte) => {
                &&& !new.ended && !(new.step is Finished)
                &&& new.reader.cap == cap
                &&& forall|data: Seq<u8>| #[trigger]
                    self.reader.has_read(data) ==> {
                        &&& new.reader.has_read(data.push(byte))
                        &&& gives(
                            handed_on(new.step),
                            finished_lines(data, cap),
                            finished_lines(data.push(byte), cap),
                        )
                    }
            },
            PassEvent::End => {
                &&& new.ended
                &&& new.step is Call || new.step == PassStep::Finished(Ok(()))
                &&& forall|data: Seq<u8>| #[trigger]
                    self.reader.has_read(data) ==> gives(
                        handed_on(new.step),
                        finished_lines(data, cap),
                        lines_of(data, cap),
                    )
            },
            PassEvent::ReadFailed(e) => new == (LinePass {
                step: PassStep::Finished(Err(e)),
                ..self
            }),
            PassEvent::Called(Err(e)) => new == (LinePass {
                step: PassStep::Finished(Err(e)),
                ..self
            }),
            PassEvent::Called(Ok(stop)) => new == (LinePass {
                step: if stop || self.ended {
                    PassStep::Finished(Ok(()))
                } else {
                    PassStep::Read
                },
                ..self
            }),
        }
    }

    pub fn begin(cap: usize) -> (r: LinePass)
        ensures
            r.wf(),
            r.reader.cap == cap,
            r.reader.has_read(seq![]),
            !r.ended,
            r.step == PassStep::Read,
    {
        LinePass { reader: LineReader::new(cap), ended: false, step: PassStep::Read }
    }

    /// Whether `event` is what the step can lead to.
    pub fn accepts(&self, event: &PassEvent) -> (r: bool)
        ensures
            r == self.fits(*event),
    {
        match (&self.step, event) {
            (PassStep::Read, PassEvent::Byte(_)) => self.reader.index < usize::MAX,
            (PassStep::Read, PassEvent::End) => self.reader.index < usize::MAX,
            (PassStep::Read, PassEvent::ReadFailed(_)) => true,
            (PassStep::Call { .. }, PassEvent::Called(_)) => true,
            _ => false,
        }
    }

    /// Takes in what happened.
    pub fn step(&mut self, event: PassEvent)
        requires
            old(self).wf(),
            old(self).fits(event),
        ensures
            final(self).wf(),
            old(self).leads_to(event, *final(self)),
    {
        match event {
            PassEvent::Byte(byte) => {
                if let Some((index, line)) = self.reader.push(byte) {
                    self.step = PassStep::Call { index, line };
                }
            },
            PassEvent::End => {
                self.ended = true;
                self.step = match self.reader.last_line() {
                    Some((index, line)) => PassStep::Call { index, line },
                    None => PassStep::Finished(Ok(())),
                };
            },
            PassEvent::ReadFailed(e) => {
                self.step = PassStep::Finished(Err(e));
            },
            PassEvent::Called(Err(e)) => {
                self.step = PassStep::Finished(Err(e));
            },
            PassEvent::Called(Ok(stop)) => {
                self.step = if stop || self.ended {
                    PassStep::Finished(Ok(()))
                } else {
                    PassStep::Read
                };
            },
        }
    }
}

/// Once who is handed the lines says stop, or fails, no line is handed on any
/// more; a failure is what the pass ends with.
pub proof fn stopped_pass_hands_nothing_on(
    pass: LinePass,
    answer: Result<bool, IoError>,
    new: LinePass,
)
    requires
        pass.fits(PassEvent::Called(answer)),
        pass.leads_to(PassEvent::Called(answer), new),
        answer != Ok::<bool, IoError>(false),
    ensures
        match answer {
            Ok(_) => new.step == PassStep::Finished(Ok(())),
            Err(e) => new.step == PassStep::Finished(Err(e)),
        },
        forall|event: PassEvent| !new.fits(event),
{
}

/// A pass goes on after a line if it is not told to stop, until all is read; it
/// then ends well. A failure to read ends it and is what it ends with.
pub proof fn pass_goes_on_to_the_end(pass: LinePass, e: IoError, new: LinePass)
    ensures
        pass.leads_to(PassEvent::Called(Ok(false)), new) ==> if pass.ended {
            new.step == PassStep::Finished(Ok(()))
        } else {
            new.step is Read && !new.ended && new.reader == pass.reader
        },
        pass.leads_to(PassEvent::ReadFailed(e), new) ==> new.step == PassStep::Finished(Err(e)),
        pass.leads_to(PassEvent::End, new) ==> new.ended && (new.step is Call || new.step
            == PassStep::Finished(Ok(()))),
{
}

/// A line over the cap changes no other line, nor the index of any: what comes
/// after it reads as if it were not there.
pub proof fn overlong_lines_take_no_index(data: Seq<u8>, line: Seq<u8>, cap: nat)
    requires
        data.len() == 0 || data.last() == LINE_FEED,
        line.len() > cap,
        forall|i: int| 0 <= i < line.len() ==> line[i] != LINE_FEED,
    ensures
        lines_of((data + line).push(LINE_FEED), cap) == lines_of(data, cap),
{
    let raw = data + line;
    let all = raw.push(LINE_FEED);
    unfinished_of_line(data, line);
    assert(all.drop_last() =~= raw);
    lines_before_line(data, line, cap);
    assert(trimmed_ascii(Seq::<u8>::empty()) =~= Seq::<u8>::empty());
}

proof fn unfinished_of_line(data: Seq<u8>, line: Seq<u8>)
    requires
        data.len() == 0 || data.last() == LINE_FEED,
        forall|i: int| 0 <= i < line.len() ==> line[i] != LINE_FEED,
    ensures
        unfinished(data + line) == line,
    decreases line.len(),
{
    if line.len() == 0 {
        assert(data + line =~= data);
    } else {
        unfinished_of_line(data, line.drop_last());
        assert((data + line).drop_last() =~= data + line.drop_last());
        assert(line.drop_last().push(line.last()) =~= line);
    }
}

proof fn lines_before_line(data: Seq<u8>, line: Seq<u8>, cap: nat)
    requires
        forall|i: int| 0 <= i < line.len() ==> line[i] != LINE_FEED,
    ensures
        finished_lines(data + line, cap) == finished_lines(data, cap),
    decreases line.len(),
{
    if line.len() == 0 {
        assert(data + line =~= data);
    } else {
        lines_before_line(data, line.drop_last(), cap);
        assert((data + line).drop_last() =~= data + line.drop_last());
    }
}

// Which lines a copy keeps.

/// The indexes of the lines on the live branch among the first `n`, where
/// `live` tells of each line whether it is there.
pub open spec fn live_lines(live: Seq<bool>, n: nat) -> Seq<usize>
    decreases n,
{
    if n == 0 {
        seq![]
    } else if live[n - 1] {
        live_lines(live, (n - 1) as nat).push((n - 1) as usize)
    } else {
        live_lines(live, (n - 1) as nat)
    }
}

/// The lines that a cut keeps: of those on the live branch the first `keep`.
pub open spec fn cut_to(live: Seq<bool>, keep: nat) -> Seq<usize> {
    let lines = live_lines(live, live.len());
    if keep <= lines.len() {
        lines.take(keep as int)
    } else {
        lines
    }
}

/// Whether indexes of lines ascend; so none occurs twice.
pub open spec fn in_line_order(lines: Seq<usize>) -> bool {
    forall|i: int, j: int| 0 <= i < j < lines.len() ==> lines[i] < lines[j]
}

proof fn live_lines_ascend(live: Seq<bool>, n: nat)
    requires
        n <= live.len() <= usize::MAX,
    ensures
        in_line_order(live_lines(live, n)),
        forall|i: int|
            0 <= i < live_lines(live, n).len() ==> (#[trigger] live_lines(live, n)[i]) < n
                && live[live_lines(live, n)[i] as int],
    decreases n,
{
    if n > 0 {
        live_lines_ascend(live, (n - 1) as nat);
    }
}

/// The indexes of the lines that a cut keeps: of those on the live branch the
/// first `keep`. `live` tells of each line of the transcript whether it is on
/// that branch. Which lines are, and how many of them come before a prompt, is
/// for who knows what the lines mean; that a later prompt has no fewer before
/// it is not claimed here.
pub fn surviving_line_indexes(live: &Vec<bool>, keep: usize) -> (r: Vec<usize>)
    ensures
        r@ == cut_to(live@, keep as nat),
        in_line_order(r@),
        forall|i: int| 0 <= i < r@.len() ==> (#[trigger] r@[i]) < live@.len() && live@[r@[i] as int],
{
    let mut records: Vec<usize> = Vec::new();
    let mut i: usize = 0;
    while i < live.len()
        invariant
            i <= live@.len(),
            records@ == live_lines(live@, i as nat),
        decreases live@.len() - i,
    {
        if live[i] {
            records.push(i);
        }
        i = i + 1;
    }
    proof {
        live_lines_ascend(live@, live@.len());
    }
    records.truncate(keep);
    records
}

/// The lines of a transcript that a cut keeps ascend and are lines of it, and
/// an earlier cut keeps a prefix of what a later one keeps.
pub proof fn earlier_cut_keeps_a_prefix(
    data: Seq<u8>,
    cap: nat,
    live: Seq<bool>,
    earlier: nat,
    later: nat,
)
    requires
        live.len() == lines_of(data, cap).len(),
        live.len() <= usize::MAX,
        earlier <= later,
    ensures
        in_line_order(cut_to(live, later)),
        forall|i: int|
            0 <= i < cut_to(live, later).len() ==> #[trigger] cut_to(live, later)[i] < lines_of(
                data,
                cap,
            ).len(),
        cut_to(live, earlier).len() <= cut_to(live, later).len(),
        cut_to(live, earlier) == cut_to(live, later).take(cut_to(live, earlier).len() as int),
{
    live_lines_ascend(live, live.len());
    assert(cut_to(live, earlier) =~= cut_to(live, later).take(
        cut_to(live, earlier).len() as int,
    ));
}

/// A place in the list of lines to keep.
#[derive(Debug)]
pub struct SurvivorCursor {
    pub survivors: Vec<usize>,
    pub next: usize,
}

/// How many of `survivors` the cursor has passed once `lines` lines were read.
pub open spec fn passed(survivors: Seq<usize>, lines: nat) -> nat
    decreases lines,
{
    if lines == 0 {
        0
    } else {
        let so_far = passed(survivors, (lines - 1) as nat);
        if so_far < survivors.len() && survivors[so_far as int] == lines - 1 {
            so_far + 1
        } else {
            so_far
        }
    }
}

impl SurvivorCursor {
    pub open spec fn wf(&self) -> bool {
        self.next <= self.survivors@.len()
    }

    pub fn new(survivors: Vec<usize>) -> (r: SurvivorCursor)
        ensures
            r.wf(),
            r.survivors == survivors,
            r.next == 0,
    {
        SurvivorCursor { survivors, next: 0 }
    }

    /// Whether the line at `index` is kept; moves on past it.
    pub fn take(&mut self, index: usize) -> (r: bool)
        requires
            old(self).wf(),
        ensures
            final(self).wf(),
            final(self).survivors == old(self).survivors,
            r == (old(self).next < old(self).survivors@.len() && old(self).survivors@[old(
                self,
            ).next as int] == index),
            final(self).next == if r {
                old(self).next + 1
            } else {
                old(self).next as int
            },
    {
        if self.next < self.survivors.len() && self.survivors[self.next] == index {
            self.next = self.next + 1;
            true
        } else {
            false
        }
    }

    /// Whether no line that is still to come is kept.
    pub fn is_done(&self) -> (r: bool)
        ensures
            r == (self.next >= self.survivors@.len()),
    {
        self.next >= self.survivors.len()
    }
}

/// A cursor over ascending indexes keeps exactly the lines that they name: it
/// has passed those below the line that it is at and no others, so it keeps
/// that line if and only if it is among them.
pub proof fn cursor_keeps_exactly_survivors(survivors: Seq<usize>, line: nat)
    requires
        in_line_order(survivors),
    ensures
        passed(survivors, line) <= survivors.len(),
        forall|i: int| 0 <= i < passed(survivors, line) ==> survivors[i] < line,
        forall|i: int| passed(survivors, line) <= i < survivors.len() ==> survivors[i] >= line,
        (passed(survivors, line) < survivors.len() && survivors[passed(survivors, line) as int]
            == line) <==> (exists|i: int| 0 <= i < survivors.len() && survivors[i] == line),
    decreases line,
{
    if line > 0 {
        cursor_keeps_exactly_survivors(survivors, (line - 1) as nat);
    }
}

/// An update as far as a copy looks at it.
#[derive(Debug)]
pub enum ParsedUpdate {
    Acp,
    WorkflowUpdated,
    GoalUpdated,
    CompactionCheckpoint { checkpoint_file: String },
    OtherExtension,
}

/// Whether an update only shows the state of an orchestration, which a copy
/// does not take over.
pub open spec fn shows_orchestration(update: ParsedUpdate) -> bool {
    update is WorkflowUpdated || update is GoalUpdated
}

pub fn is_orchestration_projection_update(update: &ParsedUpdate) -> (r: bool)
    ensures
        r == shows_orchestration(*update),
{
    match update {
        ParsedUpdate::WorkflowUpdated => true,
        ParsedUpdate::GoalUpdated => true,
        _ => false,
    }
}

/// Whether `name` is among `names`.
pub open spec fn lists(names: Seq<String>, name: Seq<char>) -> bool {
    exists|i: int| 0 <= i < names.len() && (#[trigger] names[i])@ == name
}

/// Whether `names` ascend in the order of strings; so none occurs twice.
pub open spec fn ascending(names: Seq<String>) -> bool {
    forall|i: int, j: int| 0 <= i < j < names.len() ==> text_before(names[i]@, names[j]@)
}

/// What a copy of a transcript has written, and the checkpoint files that it
/// refers to.
#[derive(Debug)]
pub struct CopiedUpdates {
    pub count: usize,
    pub checkpoint_files: Vec<String>,
}

fn add_name(names: &mut Vec<String>, name: String)
    requires
        ascending(old(names)@),
    ensures
        ascending(final(names)@),
        forall|t: Seq<char>| #[trigger]
            lists(final(names)@, t) <==> lists(old(names)@, t) || t == name@,
{
    let mut at: usize = 0;
    while at < names.len() && before(names[at].as_str(), name.as_str())
        invariant
            at <= names.len(),
            names@ == old(names)@,
            forall|i: int| 0 <= i < at ==> text_before(#[trigger] names@[i]@, name@),
        decreases names.len() - at,
    {
        at = at + 1;
    }
    if at < names.len() && same_text(names[at].as_str(), name.as_str()) {
        return;
    }
    let ghost was = names@;
    names.insert(at, name);
    proof {
        assert(names@ =~= was.take(at as int).push(name) + was.skip(at as int));
        assert forall|i: int| at <= i < was.len() implies text_before(name@, #[trigger] was[i]@) by {
            text_order(was[at as int]@, name@);
            if i > at {
                text_order_transitive(name@, was[at as int]@, was[i]@);
            }
        }
        assert forall|i: int, j: int| 0 <= i < j < names@.len() implies text_before(
            names@[i]@,
            names@[j]@,
        ) by {
            if i < at {
                assert(names@[i] == was[i]);
            } else if i > at {
                assert(names@[i] == was[i - 1]);
            }
            if j < at {
                assert(names@[j] == was[j]);
            } else if j > at {
                assert(names@[j] == was[j - 1]);
            }
        }
        assert forall|t: Seq<char>| #[trigger] lists(names@, t) <==> lists(was, t) || t == name@ by {
            if lists(was, t) {
                let i = choose|i: int| 0 <= i < was.len() && (#[trigger] was[i])@ == t;
                if i < at {
                    assert(names@[i]@ == t);
                } else {
                    assert(names@[i + 1]@ == t);
                }
            }
            if t == name@ {
                assert(names@[at as int]@ == t);
            }
            if lists(names@, t) {
                let i = choose|i: int| 0 <= i < names@.len() && (#[trigger] names@[i])@ == t;
                if i < at {
                    assert(was[i]@ == t);
                } else if i > at {
                    assert(was[i - 1]@ == t);
                }
            }
        }
    }
}

/// The writer of a copied transcript.
#[derive(Debug)]
pub struct UpdateLineWriter {
    pub copied: CopiedUpdates,
    /// Lines that could not be read as updates.
    pub skipped_lines: usize,
}

/// Whether a line is taken over: it is an update, and shows more than the state
/// of an orchestration.
pub open spec fn taken_over(update: Option<ParsedUpdate>) -> bool {
    update matches Some(u) && !shows_orchestration(u)
}

/// Whether an update is the record of a checkpoint in `file`.
pub open spec fn names_checkpoint(update: Option<ParsedUpdate>, file: Seq<char>) -> bool {
    update matches Some(ParsedUpdate::CompactionCheckpoint { checkpoint_file })
        && checkpoint_file@ == file
}

/// What one line makes of a writer, and whether it is written: a line that is
/// no update is counted as skipped, and the file of a checkpoint is remembered.
pub open spec fn line_copied(
    before: UpdateLineWriter,
    update: Option<ParsedUpdate>,
    after: UpdateLineWriter,
    wrote: bool,
) -> bool {
    &&& wrote == taken_over(update)
    &&& after.copied.count == before.copied.count + if wrote {
        1int
    } else {
        0int
    }
    &&& after.skipped_lines == before.skipped_lines + if update is None {
        1int
    } else {
        0int
    }
    &&& forall|t: Seq<char>| #[trigger]
        lists(after.copied.checkpoint_files@, t) <==> lists(before.copied.checkpoint_files@, t)
            || names_checkpoint(update, t)
}

impl UpdateLineWriter {
    pub open spec fn wf(&self) -> bool {
        ascending(self.copied.checkpoint_files@)
    }

    pub fn new() -> (r: UpdateLineWriter)
        ensures
            r.wf(),
            r.copied.count == 0,
            r.copied.checkpoint_files@.len() == 0,
            r.skipped_lines == 0,
    {
        UpdateLineWriter {
            copied: CopiedUpdates { count: 0, checkpoint_files: Vec::new() },
            skipped_lines: 0,
        }
    }

    /// Whether a line is written to the copy: a line that is no update is
    /// skipped and counted, an orchestration's state is left out, and the file
    /// of a checkpoint is remembered.
    pub fn copy_line(&mut self, update: Option<ParsedUpdate>) -> (r: bool)
        requires
            old(self).wf(),
            old(self).copied.count < usize::MAX,
            old(self).skipped_lines < usize::MAX,
        ensures
            final(self).wf(),
            line_copied(*old(self), update, *final(self), r),
    {
        match update {
            None => {
                self.skipped_lines = self.skipped_lines + 1;
                false
            },
            Some(update) => {
                if is_orchestration_projection_update(&update) {
                    return false;
                }
                if let ParsedUpdate::CompactionCheckpoint { checkpoint_file } = update {
                    add_name(&mut self.copied.checkpoint_files, checkpoint_file);
                }
                self.copied.count = self.copied.count + 1;
                true
            },
        }
    }

    pub fn finish(self) -> (r: CopiedUpdates)
        ensures
            r == self.copied,
    {
        self.copied
    }
}

/// What the question for the line at `index` makes of a cursor, and the answer:
/// without a cursor every line is wanted.
pub open spec fn line_asked(
    before: Option<SurvivorCursor>,
    index: usize,
    after: Option<SurvivorCursor>,
    wanted: bool,
) -> bool {
    match before {
        None => wanted && after is None,
        Some(was) => {
            &&& wanted == (was.next < was.survivors@.len() && was.survivors@[was.next as int]
                == index)
            &&& after matches Some(now)
            &&& now.survivors == was.survivors
            &&& now.next == if wanted {
                was.next + 1
            } else {
                was.next as int
            }
        },
    }
}

/// A copy of a transcript in progress: of every line, or of the lines that a
/// cut keeps.
#[derive(Debug)]
pub struct TranscriptCopy {
    pub cursor: Option<SurvivorCursor>,
    pub writer: UpdateLineWriter,
}

impl TranscriptCopy {
    pub open spec fn wf(&self) -> bool {
        &&& self.writer.wf()
        &&& self.cursor matches Some(cursor) ==> cursor.wf()
    }

    pub fn begin(survivors: Option<Vec<usize>>) -> (r: TranscriptCopy)
        ensures
            r.wf(),
            forall|lines: Seq<Option<ParsedUpdate>>| #[trigger]
                copied_so_far(lines, indexes_of(survivors), 0, r),
    {
        let cursor = match survivors {
            Some(survivors) => Some(SurvivorCursor::new(survivors)),
            None => None,
        };
        TranscriptCopy { cursor, writer: UpdateLineWriter::new() }
    }

    /// Whether the line at `index` is to be copied.
    pub fn wants(&mut self, index: usize) -> (r: bool)
        requires
            old(self).wf(),
        ensures
            final(self).wf(),
            final(self).writer == old(self).writer,
            line_asked(old(self).cursor, index, final(self).cursor, r),
    {
        match self.cursor.take() {
            None => true,
            Some(c) => {
                let mut cursor = c;
                let r = cursor.take(index);
                self.cursor = Some(cursor);
                r
            },
        }
    }

    /// Whether no line that is still to come is to be copied.
    pub fn is_done(&self) -> (r: bool)
        ensures
            r == (self.cursor matches Some(cursor) && cursor.next >= cursor.survivors@.len()),
    {
        match &self.cursor {
            None => false,
            Some(cursor) => cursor.is_done(),
        }
    }
}

// A whole transcript.

pub open spec fn indexes_of(survivors: Option<Vec<usize>>) -> Option<Seq<usize>> {
    match survivors {
        Some(survivors) => Some(survivors@),
        None => None,
    }
}

/// Whether a copy looks at the line at `index`.
pub open spec fn keeps_line(survivors: Option<Seq<usize>>, index: int) -> bool {
    match survivors {
        None => true,
        Some(survivors) => exists|k: int| 0 <= k < survivors.len() && survivors[k] == index,
    }
}

/// The indexes of the lines that the copy of a transcript holds, in order, once
/// `n` lines were read.
pub open spec fn written_lines(
    lines: Seq<Option<ParsedUpdate>>,
    survivors: Option<Seq<usize>>,
    n: nat,
) -> Seq<int>
    decreases n,
{
    if n == 0 {
        Seq::empty()
    } else {
        let last = n - 1;
        let earlier = written_lines(lines, survivors, last as nat);
        if keeps_line(survivors, last) && taken_over(lines[last]) {
            earlier.push(last)
        } else {
            earlier
        }
    }
}

/// How many lines were skipped because they are no updates, once `n` were read.
pub open spec fn skipped_among(
    lines: Seq<Option<ParsedUpdate>>,
    survivors: Option<Seq<usize>>,
    n: nat,
) -> nat
    decreases n,
{
    if n == 0 {
        0
    } else {
        let last = n - 1;
        skipped_among(lines, survivors, last as nat) + if keeps_line(survivors, last) && lines[last]
            is None {
            1nat
        } else {
            0nat
        }
    }
}

/// Whether the file of a checkpoint is named by one of the first `n` lines, as
/// far as they are kept.
pub open spec fn checkpoint_named(
    lines: Seq<Option<ParsedUpdate>>,
    survivors: Option<Seq<usize>>,
    n: nat,
    file: Seq<char>,
) -> bool {
    exists|i: int|
        0 <= i < n && #[trigger] keeps_line(survivors, i) && names_checkpoint(lines[i], file)
}

/// Whether `states` are those of a copy that reads `lines` one after the other,
/// and `wrote` tells which of them it writes.
pub open spec fn copy_run(
    lines: Seq<Option<ParsedUpdate>>,
    states: Seq<TranscriptCopy>,
    wrote: Seq<bool>,
) -> bool {
    &&& states.len() == lines.len() + 1
    &&& wrote.len() == lines.len()
    &&& lines.len() <= usize::MAX
    &&& forall|i: int| #![trigger wrote[i]]
        0 <= i < lines.len() ==> exists|wanted: bool| #[trigger]
            line_asked(states[i].cursor, i as usize, states[i + 1].cursor, wanted) && if wanted {
                line_copied(states[i].writer, lines[i], states[i + 1].writer, wrote[i])
            } else {
                states[i + 1].writer == states[i].writer && !wrote[i]
            }
}

/// Whether a copy stands where `n` lines of a transcript have brought it.
pub open spec fn copied_so_far(
    lines: Seq<Option<ParsedUpdate>>,
    survivors: Option<Seq<usize>>,
    n: nat,
    c: TranscriptCopy,
) -> bool {
    &&& match survivors {
        None => c.cursor is None,
        Some(survivors) => c.cursor matches Some(cursor) && cursor.survivors@ == survivors
            && cursor.next == passed(survivors, n),
    }
    &&& c.writer.copied.count == written_lines(lines, survivors, n).len()
    &&& c.writer.skipped_lines == skipped_among(lines, survivors, n)
    &&& forall|t: Seq<char>| #[trigger]
        lists(c.writer.copied.checkpoint_files@, t) <==> checkpoint_named(lines, survivors, n, t)
}

proof fn line_is_copied(
    lines: Seq<Option<ParsedUpdate>>,
    survivors: Option<Seq<usize>>,
    n: nat,
    before: TranscriptCopy,
    after: TranscriptCopy,
    wanted: bool,
    wrote: bool,
)
    requires
        survivors matches Some(s) ==> in_line_order(s),
        n < lines.len() <= usize::MAX,
        copied_so_far(lines, survivors, n, before),
        line_asked(before.cursor, n as usize, after.cursor, wanted),
        wanted ==> line_copied(before.writer, lines[n as int], after.writer, wrote),
        !wanted ==> after.writer == before.writer && !wrote,
    ensures
        copied_so_far(lines, survivors, n + 1, after),
        wrote <==> keeps_line(survivors, n as int) && taken_over(lines[n as int]),
{
    if let Some(s) = survivors {
        cursor_keeps_exactly_survivors(s, n);
    }
    assert(wanted == keeps_line(survivors, n as int));
    assert forall|t: Seq<char>| #[trigger]
        lists(after.writer.copied.checkpoint_files@, t) <==> checkpoint_named(
            lines,
            survivors,
            n + 1,
            t,
        ) by {
        assert(lists(before.writer.copied.checkpoint_files@, t) <==> checkpoint_named(
            lines,
            survivors,
            n,
            t,
        ));
        if checkpoint_named(lines, survivors, n, t) {
            let i = choose|i: int|
                0 <= i < n && #[trigger] keeps_line(survivors, i) && names_checkpoint(lines[i], t);
            assert(keeps_line(survivors, i) && names_checkpoint(lines[i], t));
        }
        if wanted && names_checkpoint(lines[n as int], t) {
            assert(keeps_line(survivors, n as int) && names_checkpoint(lines[n as int], t));
        }
    }
}

/// The copy of a transcript holds exactly the lines that are kept and taken
/// over, in their order: those are the ones written, and what is counted,
/// skipped and remembered at the end is what they amount to.
pub proof fn whole_transcript_is_copied(
    lines: Seq<Option<ParsedUpdate>>,
    survivors: Option<Seq<usize>>,
    states: Seq<TranscriptCopy>,
    wrote: Seq<bool>,
    n: nat,
)
    requires
        survivors matches Some(s) ==> in_line_order(s),
        copy_run(lines, states, wrote),
        copied_so_far(lines, survivors, 0, states[0]),
        n <= lines.len(),
    ensures
        copied_so_far(lines, survivors, n, states[n as int]),
        forall|i: int|
            0 <= i < n ==> (#[trigger] wrote[i] <==> keeps_line(survivors, i) && taken_over(
                lines[i],
            )),
    decreases n,
{
    if n > 0 {
        let last = (n - 1) as nat;
        whole_transcript_is_copied(lines, survivors, states, wrote, last);
        let w = wrote[last as int];
        let before = states[last as int];
        let after = states[n as int];
        let wanted = choose|wanted: bool| #[trigger]
            line_asked(before.cursor, last as usize, after.cursor, wanted) && if wanted {
                line_copied(before.writer, lines[last as int], after.writer, w)
            } else {
                after.writer == before.writer && !w
            };
        line_is_copied(lines, survivors, last, before, after, wanted, w);
    }
}

/// A copy that is done may stop: none of the lines that follow is kept.
pub proof fn done_copy_keeps_no_more(survivors: Seq<usize>, n: nat, line: nat)
    requires
        in_line_order(survivors),
        passed(survivors, n) >= survivors.len(),
        n <= line,
    ensures
        !keeps_line(Some(survivors), line as int),
{
    cursor_keeps_exactly_survivors(survivors, n);
}

// What a transcript says, by its bytes.

/// A byte that separates: a space, a tab, a line feed, a form feed or a carriage
/// return.
pub open spec fn blank(b: u8) -> bool {
    b == 32 || b == 9 || b == 10 || b == 12 || b == 13
}

pub open spec fn all_blank(s: Seq<u8>) -> bool {
    forall|i: int| 0 <= i < s.len() ==> blank(#[trigger] s[i])
}

/// Whether bytes all stand on one line.
pub open spec fn on_one_line(s: Seq<u8>) -> bool {
    forall|i: int| 0 <= i < s.len() ==> #[trigger] s[i] != 10
}

/// Whether a transcript is at the start of a line.
pub open spec fn at_line_start(data: Seq<u8>) -> bool {
    data.len() == 0 || data.last() == 10
}

proof fn leading_of_blank(blanks: Seq<u8>, rest: Seq<u8>)
    requires
        all_blank(blanks),
        rest.len() > 0 ==> !blank(rest[0]),
    ensures
        leading_space(blanks + rest) == blanks.len(),
    decreases blanks.len(),
{
    if blanks.len() == 0 {
        assert(blanks + rest =~= rest);
    } else {
        assert(blank(blanks[0]));
        assert((blanks + rest).skip(1) =~= blanks.skip(1) + rest);
        assert forall|i: int| 0 <= i < blanks.skip(1).len() implies blank(
            #[trigger] blanks.skip(1)[i],
        ) by {
            assert(blank(blanks[i + 1]));
        }
        leading_of_blank(blanks.skip(1), rest);
    }
}

proof fn trailing_of_blank(rest: Seq<u8>, blanks: Seq<u8>)
    requires
        all_blank(blanks),
        rest.len() > 0 ==> !blank(rest.last()),
    ensures
        trailing_space(rest + blanks) == blanks.len(),
    decreases blanks.len(),
{
    if blanks.len() == 0 {
        assert(rest + blanks =~= rest);
    } else {
        assert(blank(blanks[blanks.len() - 1]));
        assert((rest + blanks).drop_last() =~= rest + blanks.drop_last());
        trailing_of_blank(rest, blanks.drop_last());
    }
}

/// White space around something is cut away, and nothing else: what stands
/// between remains as it is, with the white space in it.
pub proof fn white_space_around_is_cut(before: Seq<u8>, core: Seq<u8>, after: Seq<u8>)
    requires
        all_blank(before),
        all_blank(after),
        core.len() > 0 ==> !blank(core[0]) && !blank(core.last()),
        core.len() == 0 ==> after.len() == 0,
    ensures
        trimmed_ascii(before + core + after) == core,
{
    let rest = core + after;
    assert(before + core + after =~= before + rest);
    leading_of_blank(before, rest);
    assert((before + rest).skip(before.len() as int) =~= rest);
    if core.len() > 0 {
        trailing_of_blank(core, after);
        assert(rest.take(core.len() as int) =~= core);
    } else {
        assert(rest =~= seq![]);
        assert(rest.take(0) =~= core);
    }
}

/// A line that is not over the cap is read as it stands, without the white space
/// around it, behind all lines before it; whether or not a line feed ends it.
pub proof fn line_is_read(
    data: Seq<u8>,
    before: Seq<u8>,
    core: Seq<u8>,
    after: Seq<u8>,
    cap: nat,
)
    requires
        at_line_start(data),
        all_blank(before) && on_one_line(before),
        core.len() > 0 && !blank(core[0]) && !blank(core.last()) && on_one_line(core),
        all_blank(after) && on_one_line(after),
        before.len() + core.len() + after.len() <= cap,
    ensures
        lines_of((data + (before + core + after)).push(10), cap) == lines_of(data, cap).push(core),
        lines_of(data + (before + core + after), cap) == lines_of(data, cap).push(core),
{
    let line = before + core + after;
    assert forall|i: int| 0 <= i < line.len() implies #[trigger] line[i] != LINE_FEED by {
        if i < before.len() {
            assert(before[i] != 10);
        } else if i < before.len() + core.len() {
            assert(core[i - before.len()] != 10);
        } else {
            assert(after[i - before.len() - core.len()] != 10);
        }
    }
    white_space_around_is_cut(before, core, after);
    unfinished_of_line(data, line);
    lines_before_line(data, line, cap);
    line_start_has_no_rest(data, cap);
    let all = (data + line).push(LINE_FEED);
    assert(all.drop_last() =~= data + line);
    line_start_has_no_rest(all, cap);
    assert(finished_lines(data, cap) + seq![core] =~= finished_lines(data, cap).push(core));
}

/// A blank line counts for nothing.
pub proof fn blank_line_is_passed(data: Seq<u8>, blanks: Seq<u8>, cap: nat)
    requires
        at_line_start(data),
        all_blank(blanks) && on_one_line(blanks),
    ensures
        lines_of((data + blanks).push(10), cap) == lines_of(data, cap),
        lines_of(data + blanks, cap) == lines_of(data, cap),
{
    white_space_around_is_cut(blanks, seq![], seq![]);
    assert(blanks + seq![] + seq![] =~= blanks);
    unfinished_of_line(data, blanks);
    lines_before_line(data, blanks, cap);
    line_start_has_no_rest(data, cap);
    let all = (data + blanks).push(LINE_FEED);
    assert(all.drop_last() =~= data + blanks);
    line_start_has_no_rest(all, cap);
    assert(finished_lines(data, cap) + Seq::<Seq<u8>>::empty() =~= finished_lines(data, cap));
}

proof fn line_start_has_no_rest(data: Seq<u8>, cap: nat)
    requires
        at_line_start(data),
    ensures
        lines_of(data, cap) == finished_lines(data, cap),
{
    assert(trimmed_ascii(Seq::<u8>::empty()) =~= Seq::<u8>::empty());
    assert(finished_lines(data, cap) + Seq::<Seq<u8>>::empty() =~= finished_lines(data, cap));
}

/// An empty transcript has no lines.
pub proof fn empty_transcript_has_no_lines(cap: nat)
    ensures
        lines_of(Seq::empty(), cap).len() == 0,
{
    line_start_has_no_rest(Seq::empty(), cap);
}

// Which lines are kept.

/// A cut keeps as many lines of the live branch as it is told, all where there
/// are no more; and it keeps the first ones: with a line it keeps every live
/// line before it.
pub proof fn cut_keeps_the_first_live_lines(live: Seq<bool>, keep: nat, i: nat)
    requires
        live.len() <= usize::MAX,
        i < live.len(),
    ensures
        cut_to(live, keep).len() <= keep,
        cut_to(live, keep).contains(i as usize) ==> live[i as int],
        live[i as int] && cut_to(live, keep).len() < keep ==> cut_to(live, keep).contains(
            i as usize,
        ),
        forall|j: int|
            0 <= j < i && live[j] && cut_to(live, keep).contains(i as usize) ==> #[trigger] cut_to(
                live,
                keep,
            ).contains(j as usize),
{
    live_lines_ascend(live, live.len());
    let lines = live_lines(live, live.len());
    let cut = cut_to(live, keep);
    if live[i as int] {
        live_line_is_listed(live, live.len(), i);
    }
    assert(cut.len() < keep ==> cut == lines);
    assert forall|j: int|
        0 <= j < i && live[j] && cut.contains(i as usize) implies #[trigger] cut.contains(
        j as usize,
    ) by {
        live_line_is_listed(live, live.len(), j as nat);
        let a = choose|a: int| 0 <= a < lines.len() && lines[a] == j as usize;
        let b = choose|b: int| 0 <= b < cut.len() && cut[b] == i as usize;
        assert(cut[b] == lines[b]);
        assert(a < b);
        assert(cut[a] == lines[a]);
    }
    if cut.contains(i as usize) {
        let b = choose|b: int| 0 <= b < cut.len() && cut[b] == i as usize;
        assert(cut[b] == lines[b]);
    }
}

proof fn live_line_is_listed(live: Seq<bool>, n: nat, i: nat)
    requires
        i < n <= live.len() <= usize::MAX,
        live[i as int],
    ensures
        live_lines(live, n).contains(i as usize),
    decreases n,
{
    let now = live_lines(live, n);
    if i == n - 1 {
        assert(now[now.len() - 1] == i as usize);
    } else {
        let earlier = live_lines(live, (n - 1) as nat);
        live_line_is_listed(live, (n - 1) as nat, i);
        let k = choose|k: int| 0 <= k < earlier.len() && earlier[k] == i as usize;
        assert(now[k] == i as usize);
    }
}

/// What a copy takes over: every update but those that show the state of a
/// workflow or of a goal. What is no update is not taken over but counted, and
/// the file that the record of a checkpoint names is remembered with all that
/// were named before.
pub proof fn copy_leaves_out_orchestration_only(
    before: UpdateLineWriter,
    update: Option<ParsedUpdate>,
    after: UpdateLineWriter,
    wrote: bool,
)
    requires
        line_copied(before, update, after, wrote),
    ensures
        update matches Some(ParsedUpdate::Acp) ==> wrote,
        update matches Some(ParsedUpdate::OtherExtension) ==> wrote,
        update matches Some(ParsedUpdate::CompactionCheckpoint { checkpoint_file }) ==> wrote
            && lists(after.copied.checkpoint_files@, checkpoint_file@),
        update matches Some(ParsedUpdate::WorkflowUpdated) ==> !wrote,
        update matches Some(ParsedUpdate::GoalUpdated) ==> !wrote,
        update is None ==> !wrote,
        wrote ==> after.copied.count == before.copied.count + 1,
        !wrote ==> after.copied.count == before.copied.count,
        update is None ==> after.skipped_lines == before.skipped_lines + 1,
        update is Some ==> after.skipped_lines == before.skipped_lines,
        forall|t: Seq<char>| #[trigger]
            lists(before.copied.checkpoint_files@, t) ==> lists(after.copied.checkpoint_files@, t),
        forall|t: Seq<char>| #[trigger]
            lists(after.copied.checkpoint_files@, t) && !lists(before.copied.checkpoint_files@, t)
                ==> (update matches Some(ParsedUpdate::CompactionCheckpoint { checkpoint_file })
                && checkpoint_file@ == t),
{
}

} // verus!
