//! The writer that prints JavaScript text, tracking line, column and a
//! source map.

use vstd::prelude::*;
use vstd::string::{StrSliceExecFns, StringExecFns, StringSliceAdditionalSpecFns};

use rustc_hash::{FxHashSet, FxHasher};
use std::hash::BuildHasherDefault;

use crate::ast::Span;

verus! {

/// Whether the byte at `i` ends a line: a `\n` that does not follow a `\r`
/// (a `\r\n` pair is consumed as a whole and starts no new line).
pub open spec fn breaks_line_at(b: Seq<u8>, i: int) -> bool {
    b[i] == 10u8 && (i == 0 || b[i - 1] != 13u8)
}

/// The offsets just past each line break among the first `n` bytes, in order.
pub open spec fn break_ends(b: Seq<u8>, n: nat) -> Seq<usize>
    decreases n,
{
    if n == 0 {
        seq![]
    } else {
        let prev = break_ends(b, (n - 1) as nat);
        if breaks_line_at(b, n - 1) {
            prev.push(n as usize)
        } else {
            prev
        }
    }
}

/// The byte offset at which each line of `b` starts.
pub open spec fn line_starts_of(b: Seq<u8>) -> Seq<usize> {
    seq![0usize] + break_ends(b, b.len())
}

/// Byte offsets at which the lines of `s` start; the first is always 0.
pub fn compute_line_starts(s: &str) -> (res: Vec<usize>)
    ensures
        res@ == line_starts_of(s.spec_bytes()),
{
    let bytes = s.as_bytes();
    let n = bytes.len();
    let mut res: Vec<usize> = Vec::new();
    let mut line_start: usize = 0;
    let mut i: usize = 0;
    while i < n
        invariant
            n == bytes@.len(),
            bytes@ == s.spec_bytes(),
            i <= n,
            res@.push(line_start) == seq![0usize] + break_ends(bytes@, i as nat),
        decreases n - i,
    {
        if bytes[i] == 10u8 && (i == 0 || bytes[i - 1] != 13u8) {
            res.push(line_start);
            line_start = i + 1;
        }
        i = i + 1;
    }
    res.push(line_start);
    res
}

#[verifier::external_type_specification]
#[verifier::external_body]
pub struct ExFxHasher(FxHasher);

#[verifier::external_type_specification]
#[verifier::external_body]
#[verifier::reject_recursive_types(H)]
pub struct ExBuildHasherDefault<H>(BuildHasherDefault<H>);

/// Relies on std's `HashSet::insert`, here over rustc_hash's deterministic
/// `FxHasher`: adds the key, and tells whether it was absent.
#[verifier::external_body]
fn insert_done(set: &mut FxHashSet<(u32, u32, u32)>, key: (u32, u32, u32)) -> (r: bool)
    ensures
        final(set)@ == old(set)@.insert(key),
        r == !old(set)@.contains(key),
{
    set.insert(key)
}

/// A position in the output: line and column, both from 0.
#[derive(Clone, Copy, Debug, PartialEq, Eq, Hash, Structural)]
pub struct LineCol {
    pub line: u32,
    pub col: u32,
}

/// The number of characters that the UTF-8 bytes `b[from..]` encode: the
/// bytes that are no continuation bytes.
pub open spec fn char_count_from(b: Seq<u8>, from: int) -> nat
    decreases b.len() - from,
{
    if from < 0 || from >= b.len() {
        0
    } else {
        (if b[from] & 0xC0u8 != 0x80u8 { 1nat } else { 0nat }) + char_count_from(b, from + 1)
    }
}

/// Writes JavaScript text into a buffer, keeping the line and column of the
/// output and, when asked, a source map from input positions to output
/// positions.
pub struct JsWriter {
    indent: usize,
    line_start: bool,
    line_count: usize,
    line_pos: usize,
    new_line: String,
    srcmap: Option<Vec<(u32, LineCol)>>,
    srcmap_done: FxHashSet<(u32, u32, u32)>,
    /// Used to avoid including whitespaces created by indention.
    pending_srcmap: Option<u32>,
    out: String,
}

/// What a writer holds.
pub struct WriterView {
    pub indent: nat,
    pub line_start: bool,
    pub line_count: nat,
    pub line_pos: nat,
    pub new_line: Seq<char>,
    pub srcmap: Option<Seq<(u32, LineCol)>>,
    pub done: Set<(u32, u32, u32)>,
    pub pending: Option<u32>,
    pub out: Seq<char>,
}

pub open spec fn indent_text(n: nat) -> Seq<char>
    decreases n,
{
    if n == 0 { seq![] } else { indent_text((n - 1) as nat) + seq![' ', ' ', ' ', ' '] }
}

/// The state after `data` is written as it stands; the column counts its
/// characters when a source map is kept.
pub open spec fn after_raw(v: WriterView, data: Seq<char>) -> WriterView {
    WriterView {
        out: v.out + data,
        line_pos: if v.srcmap is Some { v.line_pos + data.len() } else { v.line_pos },
        ..v
    }
}

/// The state after the input position `pos` is mapped to the current output
/// position: nothing for the dummy position 0, nothing without a source
/// map, and nothing where that pair was already recorded.
pub open spec fn after_mark(v: WriterView, pos: u32) -> WriterView {
    let key = (pos, v.line_count as u32, v.line_pos as u32);
    if pos == 0 || v.srcmap is None || v.done.contains(key) {
        v
    } else {
        WriterView {
            srcmap: Some(v.srcmap->0.push((pos, LineCol { line: v.line_count as u32, col: v.line_pos as u32 }))),
            done: v.done.insert(key),
            ..v
        }
    }
}

pub open spec fn after_opt_mark(v: WriterView, pos: Option<u32>) -> WriterView {
    match pos {
        Some(p) => after_mark(v, p),
        None => v,
    }
}

/// At the start of a line: the indentation, then the pending position.
pub open spec fn after_line_start(v: WriterView) -> WriterView {
    if v.line_start {
        after_opt_mark(WriterView { line_start: false, pending: None, ..after_raw(v, indent_text(v.indent)) }, v.pending)
    } else {
        v
    }
}

/// The state after `data` is written, with `span`'s ends mapped around it.
pub open spec fn after_write(v: WriterView, span: Option<Span>, data: Seq<char>) -> WriterView {
    if data.len() == 0 {
        v
    } else {
        let a = after_line_start(v);
        let b = match span {
            Some(sp) => after_mark(a, sp.lo),
            None => a,
        };
        let c = after_raw(b, data);
        match span {
            Some(sp) => after_mark(c, sp.hi),
            None => c,
        }
    }
}

/// A writer with room left in its counters.
pub open spec fn fits(v: WriterView, extra: nat) -> bool {
    v.line_pos + extra + 4 * v.indent <= usize::MAX && v.line_count + extra < usize::MAX
}

impl View for JsWriter {
    type V = WriterView;

    closed spec fn view(&self) -> WriterView {
        WriterView {
            indent: self.indent as nat,
            line_start: self.line_start,
            line_count: self.line_count as nat,
            line_pos: self.line_pos as nat,
            new_line: self.new_line@,
            srcmap: match self.srcmap {
                Some(m) => Some(m@),
                None => None,
            },
            done: self.srcmap_done@,
            pending: self.pending_srcmap,
            out: self.out@,
        }
    }
}

impl JsWriter {
    /// A writer at the start of an empty output, which ends lines with
    /// `new_line` and keeps a source map when `with_srcmap` is set.
    pub fn new(new_line: &str, with_srcmap: bool) -> (r: JsWriter)
        ensures
            r@.indent == 0,
            r@.line_start,
            r@.line_count == 0,
            r@.line_pos == 0,
            r@.new_line == new_line@,
            r@.srcmap == (if with_srcmap { Some(Seq::<(u32, LineCol)>::empty()) } else { None }),
            r@.done == Set::<(u32, u32, u32)>::empty(),
            r@.pending is None,
            r@.out.len() == 0,
    {
        JsWriter {
            indent: 0,
            line_start: true,
            line_count: 0,
            line_pos: 0,
            new_line: String::from_str(new_line),
            srcmap: if with_srcmap { Some(Vec::new()) } else { None },
            srcmap_done: FxHashSet::default(),
            pending_srcmap: None,
            out: String::new(),
        }
    }

    /// The current indentation level.
    pub fn indent(&self) -> (r: usize)
        ensures
            r == self@.indent,
    {
        self.indent
    }

    /// The line of the output that is being written, from 0.
    pub fn line_count(&self) -> (r: usize)
        ensures
            r == self@.line_count,
    {
        self.line_count
    }

    /// The column of the output, counted only where a source map is kept.
    pub fn line_pos(&self) -> (r: usize)
        ensures
            r == self@.line_pos,
    {
        self.line_pos
    }

    /// The counters of every writer fit in a `usize`.
    pub proof fn lemma_bounds(&self)
        ensures
            self@.indent <= usize::MAX,
            self@.line_count <= usize::MAX,
            self@.line_pos <= usize::MAX,
    {
    }

    /// The text written so far.
    pub fn output(&self) -> (r: &str)
        ensures
            r@ == self@.out,
    {
        self.out.as_str()
    }

    /// The source map recorded so far, if one is kept.
    pub fn source_map(&self) -> (r: Option<&Vec<(u32, LineCol)>>)
        ensures
            match r {
                Some(m) => self@.srcmap == Some(m@),
                None => self@.srcmap is None,
            },
    {
        match &self.srcmap {
            Some(m) => Some(m),
            None => None,
        }
    }

    fn raw_write(&mut self, data: &str)
        requires
            old(self)@.line_pos + data@.len() <= usize::MAX,
        ensures
            final(self)@ == after_raw(old(self)@, data@),
    {
        self.out.append(data);
        if self.srcmap.is_some() {
            self.line_pos = self.line_pos + data.unicode_len();
        }
    }

    fn write_indent_string(&mut self)
        requires
            old(self)@.line_pos + 4 * old(self)@.indent <= usize::MAX,
        ensures
            final(self)@ == after_raw(old(self)@, indent_text(old(self)@.indent)),
    {
        let ghost start = self@;
        let mut i: usize = 0;
        while i < self.indent
            invariant
                i <= self.indent,
                self.indent == start.indent,
                start.line_pos + 4 * start.indent <= usize::MAX,
                self@ == after_raw(start, indent_text(i as nat)),
            decreases self.indent - i,
        {
            proof {
                reveal_strlit("    ");
                assert(indent_text((i + 1) as nat) == indent_text(i as nat) + seq![' ', ' ', ' ', ' ']);
                lemma_indent_len(i as nat);
            }
            self.raw_write("    ");
            assert(self@.out =~= start.out + indent_text((i + 1) as nat));
            i = i + 1;
        }
    }

    fn srcmap(&mut self, byte_pos: u32)
        ensures
            final(self)@ == after_mark(old(self)@, byte_pos),
    {
        if byte_pos == 0 {
            return;
        }
        let line = #[verifier::truncate] (self.line_count as u32);
        let col = #[verifier::truncate] (self.line_pos as u32);
        match self.srcmap.take() {
            Some(mut map) => {
                let ghost done0 = self.srcmap_done@;
                if insert_done(&mut self.srcmap_done, (byte_pos, line, col)) {
                    map.push((byte_pos, LineCol { line, col }));
                } else {
                    assert(self.srcmap_done@ =~= done0);
                }
                self.srcmap = Some(map);
            },
            None => {},
        }
    }

    fn write(&mut self, span: Option<Span>, data: &str)
        requires
            fits(old(self)@, data@.len()),
        ensures
            final(self)@ == after_write(old(self)@, span, data@),
    {
        if data.is_empty() {
            return;
        }
        if self.line_start {
            proof {
                lemma_indent_len(self@.indent);
            }
            self.write_indent_string();
            self.line_start = false;
            let pending = self.pending_srcmap;
            self.pending_srcmap = None;
            match pending {
                Some(p) => self.srcmap(p),
                None => {},
            }
        }
        match span {
            Some(sp) => self.srcmap(sp.lo),
            None => {},
        }
        self.raw_write(data);
        match span {
            Some(sp) => self.srcmap(sp.hi),
            None => {},
        }
    }

    fn chars_from(s: &str, from: usize) -> (r: usize)
        requires
            from <= s.spec_bytes().len(),
        ensures
            r == char_count_from(s.spec_bytes(), from as int),
    {
        let b = s.as_bytes();
        let mut n: usize = 0;
        let mut i: usize = from;
        while i < b.len()
            invariant
                from <= i <= b@.len(),
                b@ == s.spec_bytes(),
                n + char_count_from(b@, i as int) == char_count_from(b@, from as int),
                n <= i - from,
            decreases b@.len() - i,
        {
            if b[i] & 0xC0u8 != 0x80u8 {
                n = n + 1;
            }
            i = i + 1;
        }
        n
    }

    fn track_lines(&mut self, s: &str)
        requires
            old(self)@.line_count + s.spec_bytes().len() <= usize::MAX,
        ensures
            final(self)@ == after_lines_of(old(self)@, s.spec_bytes()),
    {
        if self.srcmap.is_some() {
            let starts = compute_line_starts(s);
            proof {
                lemma_break_ends_len(s.spec_bytes(), s.spec_bytes().len());
            }
            assert(starts@.len() == 1 + break_ends(s.spec_bytes(), s.spec_bytes().len()).len());
            if starts.len() > 1 {
                let last = starts[starts.len() - 1];
                proof {
                    let k = starts@.len() - 2;
                    assert(starts@[starts@.len() - 1] == break_ends(s.spec_bytes(), s.spec_bytes().len())[k]);
                }
                self.line_count = self.line_count + (starts.len() - 1);
                self.line_pos = JsWriter::chars_from(s, last);
            }
        }
    }

    /// Whether a source map is kept.
    pub fn care_about_srcmap(&self) -> (r: bool)
        ensures
            r == (self@.srcmap is Some),
    {
        self.srcmap.is_some()
    }

    pub fn increase_indent(&mut self)
        requires
            old(self)@.indent < usize::MAX,
        ensures
            final(self)@ == (WriterView { indent: old(self)@.indent + 1, ..old(self)@ }),
    {
        self.indent = self.indent + 1;
    }

    pub fn decrease_indent(&mut self)
        requires
            old(self)@.indent > 0,
        ensures
            final(self)@ == (WriterView { indent: (old(self)@.indent - 1) as nat, ..old(self)@ }),
    {
        self.indent = self.indent - 1;
    }

    pub fn write_semi(&mut self, span: Option<Span>)
        requires
            fits(old(self)@, 1),
        ensures
            final(self)@ == after_write(old(self)@, span, seq![';']),
    {
        proof {
            reveal_strlit(";");
            assert(";"@ =~= seq![';']);
        }
        self.write(span, ";");
    }

    pub fn write_space(&mut self)
        requires
            fits(old(self)@, 1),
        ensures
            final(self)@ == after_write(old(self)@, None, seq![' ']),
    {
        proof {
            reveal_strlit(" ");
            assert(" "@ =~= seq![' ']);
        }
        self.write(None, " ");
    }

    pub fn write_keyword(&mut self, span: Option<Span>, s: &str)
        requires
            fits(old(self)@, s@.len()),
        ensures
            final(self)@ == after_write(old(self)@, span, s@),
    {
        self.write(span, s);
    }

    pub fn write_operator(&mut self, span: Option<Span>, s: &str)
        requires
            fits(old(self)@, s@.len()),
        ensures
            final(self)@ == after_write(old(self)@, span, s@),
    {
        self.write(span, s);
    }

    pub fn write_param(&mut self, s: &str)
        requires
            fits(old(self)@, s@.len()),
        ensures
            final(self)@ == after_write(old(self)@, None, s@),
    {
        self.write(None, s);
    }

    pub fn write_property(&mut self, s: &str)
        requires
            fits(old(self)@, s@.len()),
        ensures
            final(self)@ == after_write(old(self)@, None, s@),
    {
        self.write(None, s);
    }

    pub fn write_str(&mut self, s: &str)
        requires
            fits(old(self)@, s@.len()),
        ensures
            final(self)@ == after_write(old(self)@, None, s@),
    {
        self.write(None, s);
    }

    pub fn write_symbol(&mut self, span: Span, s: &str)
        requires
            fits(old(self)@, s@.len()),
        ensures
            final(self)@ == after_write(old(self)@, Some(span), s@),
    {
        self.write(Some(span), s);
    }

    pub fn write_punct(&mut self, span: Option<Span>, s: &str)
        requires
            fits(old(self)@, s@.len()),
        ensures
            final(self)@ == after_write(old(self)@, span, s@),
    {
        self.write(span, s);
    }

    /// Ends the current line, unless nothing stands on it yet.
    pub fn write_line(&mut self)
        requires
            fits(old(self)@, old(self)@.new_line.len()),
        ensures
            final(self)@ == after_line(old(self)@),
    {
        let pending = self.pending_srcmap;
        self.pending_srcmap = None;
        if !self.line_start {
            let nl = self.new_line.clone();
            self.raw_write(nl.as_str());
            self.line_count = self.line_count + 1;
            self.line_pos = 0;
            self.line_start = true;
            match pending {
                Some(p) => self.srcmap(p),
                None => {},
            }
        }
    }

    /// Writes a literal that may span lines, mapping both ends of its span.
    pub fn write_lit(&mut self, span: Span, s: &str)
        requires
            fits(old(self)@, s@.len()),
            old(self)@.line_count + s.spec_bytes().len() <= usize::MAX,
        ensures
            final(self)@ == after_lit(old(self)@, span, s@, s.spec_bytes()),
    {
        if !s.is_empty() {
            self.srcmap(span.lo);
            self.write(None, s);
            self.track_lines(s);
            self.srcmap(span.hi);
        }
    }

    /// Writes a string literal that may span lines, mapping both ends of its
    /// span.
    pub fn write_str_lit(&mut self, span: Span, s: &str)
        requires
            fits(old(self)@, s@.len()),
            old(self)@.line_count + s.spec_bytes().len() <= usize::MAX,
        ensures
            final(self)@ == after_lit(old(self)@, span, s@, s.spec_bytes()),
    {
        if !s.is_empty() {
            self.srcmap(span.lo);
            self.write(None, s);
            self.track_lines(s);
            self.srcmap(span.hi);
        }
    }

    /// Writes a comment that may span lines.
    pub fn write_comment(&mut self, s: &str)
        requires
            fits(old(self)@, s@.len()),
            old(self)@.line_count + s.spec_bytes().len() <= usize::MAX,
        ensures
            final(self)@ == after_lines_of(after_write(old(self)@, None, s@), s.spec_bytes()),
    {
        self.write(None, s);
        self.track_lines(s);
    }

    /// Maps `pos` to the current position; at the start of a line it waits
    /// for the indentation, so that it maps to the first character written.
    pub fn add_srcmap(&mut self, pos: u32)
        ensures
            old(self)@.line_start ==> final(self)@ == (WriterView { pending: Some(pos), ..old(self)@ }),
            !old(self)@.line_start ==> final(self)@ == after_mark(old(self)@, pos),
    {
        if self.line_start {
            self.pending_srcmap = Some(pos);
        } else {
            self.srcmap(pos);
        }
    }

    /// Nothing is held back: semicolons are written when asked for.
    pub fn commit_pending_semi(&mut self)
        ensures
            final(self)@ == old(self)@,
    {
    }
}

/// The state after a line break: nothing at the start of a line, where
/// only the pending position is dropped.
pub open spec fn after_line(v: WriterView) -> WriterView {
    let v0 = WriterView { pending: None, ..v };
    if v.line_start {
        v0
    } else {
        let w = after_raw(v0, v.new_line);
        after_opt_mark(WriterView { line_count: v.line_count + 1, line_pos: 0, line_start: true, ..w }, v.pending)
    }
}

/// After text `b` (as bytes) that may span lines: with a source map, the
/// line advances by its line breaks and the column is the length of its
/// last line.
pub open spec fn after_lines_of(v: WriterView, b: Seq<u8>) -> WriterView {
    let starts = line_starts_of(b);
    if v.srcmap is Some && starts.len() > 1 {
        WriterView {
            line_count: (v.line_count + starts.len() - 1) as nat,
            line_pos: char_count_from(b, starts.last() as int),
            ..v
        }
    } else {
        v
    }
}

/// The state after a literal `s` (chars `c`, bytes `b`) with span `sp`.
pub open spec fn after_lit(v: WriterView, sp: Span, c: Seq<char>, b: Seq<u8>) -> WriterView {
    if c.len() == 0 {
        v
    } else {
        after_mark(after_lines_of(after_write(after_mark(v, sp.lo), None, c), b), sp.hi)
    }
}

pub proof fn lemma_break_ends_len(b: Seq<u8>, n: nat)
    ensures
        break_ends(b, n).len() <= n,
        forall|k: int| 0 <= k < break_ends(b, n).len() ==> #[trigger] break_ends(b, n)[k] <= n,
    decreases n,
{
    if n > 0 {
        lemma_break_ends_len(b, (n - 1) as nat);
    }
}

pub proof fn lemma_indent_len(n: nat)
    ensures
        indent_text(n).len() == 4 * n,
    decreases n,
{
    if n > 0 {
        lemma_indent_len((n - 1) as nat);
    }
}

} // verus!
