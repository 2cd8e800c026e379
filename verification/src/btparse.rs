//! Backtrace parser, trimmer and decorator.
//!
//! The parser turns the textual rendering of a captured stack trace into an
//! ordered sequence of frames (method, optional file and line), outermost
//! first.  The trimmer drops the leading frames that belong to the capture
//! and panic machinery itself.  The decorator attaches a small window of
//! source lines around each frame's reported line.

use vstd::prelude::*;

use crate::payload::entries_view;
use crate::payload::source_view;
use crate::payload::BacktraceEntry;
use crate::payload::BacktraceEntryV;
use crate::strutil::dec_digits;
use crate::strutil::find_char;
use crate::strutil::u32_to_string;
use crate::strutil::find_char_spec;
use crate::strutil::is_digit_char;
use crate::strutil::line_num_spec;
use crate::strutil::parse_line_num;
use crate::strutil::rfind_char;
use crate::strutil::rfind_char_spec;
use crate::strutil::split_char;
use crate::strutil::split_char_spec;
use crate::strutil::starts_with_spec;
use crate::strutil::starts_with_str;
use crate::strutil::str_eq;
use crate::strutil::trim_spec;
use crate::strutil::trim_start_spec;
use crate::strutil::trim_start_str;
use crate::strutil::trim_str;

verus! {

/// One parsed stack frame: a method name, and the source location when the
/// trace carried one.
#[derive(Debug)]
pub struct BacktraceLine {
    /// 1-based source line, when the trace carried a location.
    pub line: Option<u32>,
    /// Source file path, when the trace carried a location.
    pub file: Option<String>,
    /// The method (symbol) named by the frame.
    pub method: String,
}

/// The mathematical value of a parsed frame.
pub struct BtLineV {
    pub line: Option<u32>,
    pub file: Option<Seq<char>>,
    pub method: Seq<char>,
}

impl View for BacktraceLine {
    type V = BtLineV;

    open spec fn view(&self) -> BtLineV {
        BtLineV {
            line: self.line,
            file: match self.file {
                Some(f) => Some(f@),
                None => None,
            },
            method: self.method@,
        }
    }
}

/// The frame-number prefix `"<digits>:"` removed: everything through the
/// first colon is dropped when the line opens with a digit.
pub open spec fn strip_frameno(l: Seq<char>) -> Seq<char> {
    if l.len() > 0 && is_digit_char(l[0]) {
        let p = find_char_spec(l, ':');
        if p < l.len() {
            l.subrange(p + 1, l.len() as int)
        } else {
            Seq::empty()
        }
    } else {
        l
    }
}

/// Whether `c` is a hexadecimal digit.
pub open spec fn is_hex_digit_char(c: char) -> bool {
    (48 <= c as int && c as int <= 57) || (97 <= c as int && c as int <= 102) || (65 <= c as int
        && c as int <= 70)
}

/// The index of the first character of `s` that is not a hexadecimal digit,
/// or `s.len()` if all are.
pub open spec fn find_non_hex_spec(s: Seq<char>) -> int
    decreases s.len(),
{
    if s.len() == 0 {
        0
    } else if !is_hex_digit_char(s[0]) {
        0
    } else {
        1 + find_non_hex_spec(s.drop_first())
    }
}

/// The pointer token `"0x<hex-digits>"` removed from the front of the line.
pub open spec fn strip_hex(l: Seq<char>) -> Seq<char> {
    if l.len() >= 2 && l[0] == '0' && l[1] == 'x' {
        let rest = l.subrange(2, l.len() as int);
        rest.subrange(find_non_hex_spec(rest), rest.len() as int)
    } else {
        l
    }
}

/// A single leading `-` marker removed.
pub open spec fn strip_dash(l: Seq<char>) -> Seq<char> {
    if l.len() > 0 && l[0] == '-' {
        l.drop_first()
    } else {
        l
    }
}

/// The noise tokens stripped from a trimmed trace line, in order: the
/// frame-number prefix, then a pointer token, then a dash marker, trimming
/// blanks after each step.
pub open spec fn clean_line_spec(t: Seq<char>) -> Seq<char> {
    trim_start_spec(strip_dash(trim_start_spec(strip_hex(trim_start_spec(strip_frameno(t))))))
}

/// The location denoted by a cleaned line that opens with `"at "`: the
/// rightmost colon separates file from line number; a missing colon means
/// the whole remainder is the file, at line 1.
pub open spec fn loc_of(c: Seq<char>) -> (Seq<char>, u32) {
    let rest = trim_start_spec(c.subrange(3, c.len() as int));
    let p = rfind_char_spec(rest, ':');
    if p >= 0 {
        (rest.subrange(0, p), line_num_spec(rest.subrange(p + 1, rest.len() as int)))
    } else {
        (rest, 1)
    }
}

/// The parser's running state: the most recent location line, the currently
/// buffered method line, and the completed frames.
pub struct ParserStateV {
    pub loc: Option<(Seq<char>, u32)>,
    pub method: Option<Seq<char>>,
    pub out: Seq<BtLineV>,
}

/// The state with the buffered method flushed as one completed frame; a
/// pending location with no method is discarded.
pub open spec fn flush_spec(st: ParserStateV) -> ParserStateV {
    match st.method {
        Some(m) => (ParserStateV {
            loc: None,
            method: None,
            out: st.out.push(
                BtLineV {
                    line: match st.loc {
                        Some(fl) => Some(fl.1),
                        None => None,
                    },
                    file: match st.loc {
                        Some(fl) => Some(fl.0),
                        None => None,
                    },
                    method: m,
                },
            ),
        }),
        None => (ParserStateV { loc: None, method: st.method, out: st.out }),
    }
}

/// One raw trace line applied to the parser state.
pub open spec fn step_spec(st: ParserStateV, l: Seq<char>) -> ParserStateV {
    let t = trim_spec(l);
    if t == "stack backtrace:"@ {
        st
    } else {
        let c = clean_line_spec(t);
        if c.len() == 0 {
            st
        } else if starts_with_spec(c, "at "@) {
            ParserStateV { loc: Some(loc_of(c)), method: st.method, out: st.out }
        } else {
            let f = flush_spec(st);
            ParserStateV { loc: None, method: Some(c), out: f.out }
        }
    }
}

/// The parser state after a sequence of raw lines.
pub open spec fn run_spec(st: ParserStateV, ls: Seq<Seq<char>>) -> ParserStateV
    decreases ls.len(),
{
    if ls.len() == 0 {
        st
    } else {
        run_spec(step_spec(st, ls[0]), ls.drop_first())
    }
}

pub proof fn lemma_run_spec_push(st: ParserStateV, ls: Seq<Seq<char>>, l: Seq<char>)
    ensures
        run_spec(st, ls.push(l)) == step_spec(run_spec(st, ls), l),
    decreases ls.len(),
{
    if ls.len() == 0 {
        assert(ls.push(l).drop_first() =~= Seq::<Seq<char>>::empty());
        assert(ls.push(l)[0] == l);
        assert(run_spec(st, ls.push(l)) == run_spec(step_spec(st, l), ls.push(l).drop_first()));
        assert(run_spec(step_spec(st, l), Seq::<Seq<char>>::empty()) == step_spec(st, l));
        assert(run_spec(st, ls) == st);
    } else {
        assert(ls.push(l).drop_first() =~= ls.drop_first().push(l));
        assert(ls.push(l)[0] == ls[0]);
        lemma_run_spec_push(step_spec(st, ls[0]), ls.drop_first(), l);
        assert(run_spec(st, ls.push(l)) == run_spec(step_spec(st, ls[0]), ls.push(l).drop_first()));
        assert(run_spec(st, ls) == run_spec(step_spec(st, ls[0]), ls.drop_first()));
    }
}

/// The empty parser state.
pub open spec fn init_state() -> ParserStateV {
    ParserStateV { loc: None, method: None, out: Seq::empty() }
}

/// The frames parsed from the textual rendering of a stack trace.
pub open spec fn parse_spec(s: Seq<char>) -> Seq<BtLineV> {
    flush_spec(run_spec(init_state(), split_char_spec(s, '\n'))).out
}

/// The mathematical value of a pending location.
pub open spec fn loc_view(o: Option<(String, u32)>) -> Option<(Seq<char>, u32)> {
    match o {
        Some(p) => Some((p.0@, p.1)),
        None => None,
    }
}

/// The mathematical value of a pending method line.
pub open spec fn method_view(o: Option<String>) -> Option<Seq<char>> {
    match o {
        Some(m) => Some(m@),
        None => None,
    }
}

/// The mathematical value of a frame vector.
pub open spec fn frames_view(v: Vec<BacktraceLine>) -> Seq<BtLineV> {
    v@.map_values(|b: BacktraceLine| b@)
}

/// The parser state denoted by the three executable state variables.
pub open spec fn state_of(
    loc: Option<(String, u32)>,
    m: Option<String>,
    out: Vec<BacktraceLine>,
) -> ParserStateV {
    ParserStateV { loc: loc_view(loc), method: method_view(m), out: frames_view(out) }
}

/// Whether `c` is a hexadecimal digit.
fn is_hex_digit(c: char) -> (r: bool)
    ensures
        r == is_hex_digit_char(c),
{
    let v = c as u32;
    (v >= 48 && v <= 57) || (v >= 97 && v <= 102) || (v >= 65 && v <= 70)
}

proof fn lemma_find_non_hex_at(s: Seq<char>, i: int)
    requires
        0 <= i <= s.len(),
        forall|k: int| 0 <= k < i ==> is_hex_digit_char(s[k]),
        i == s.len() || !is_hex_digit_char(s[i]),
    ensures
        find_non_hex_spec(s) == i,
    decreases i,
{
    if i > 0 {
        lemma_find_non_hex_at(s.drop_first(), i - 1);
    }
}

/// Strips the noise tokens from an already trimmed trace line.
fn clean_line(t: &str) -> (r: String)
    ensures
        r@ == clean_line_spec(t@),
{
    // frame-number prefix
    let n = t.unicode_len();
    let c1: String;
    if n > 0 {
        let v0 = t.get_char(0) as u32;
        if v0 >= 48 && v0 <= 57 {
            let p = find_char(t, ':');
            if p < n {
                c1 = t.substring_char(p + 1, n).to_owned();
            } else {
                c1 = String::new();
            }
        } else {
            c1 = t.to_owned();
        }
    } else {
        c1 = t.to_owned();
    }
    assert(c1@ == strip_frameno(t@));
    let c2 = trim_start_str(c1.as_str());
    // pointer token
    let n2 = c2.as_str().unicode_len();
    let c3: String;
    if n2 >= 2 && c2.as_str().get_char(0) == '0' && c2.as_str().get_char(1) == 'x' {
        let rest = c2.as_str().substring_char(2, n2);
        let rn = rest.unicode_len();
        let mut i: usize = 0;
        while i < rn && is_hex_digit(rest.get_char(i))
            invariant
                rn == rest@.len(),
                0 <= i <= rn,
                forall|k: int| 0 <= k < i ==> is_hex_digit_char(rest@[k]),
            decreases rn - i,
        {
            i = i + 1;
        }
        proof {
            lemma_find_non_hex_at(rest@, i as int);
        }
        c3 = rest.substring_char(i, rn).to_owned();
    } else {
        c3 = c2.as_str().to_owned();
    }
    assert(c3@ == strip_hex(trim_start_spec(strip_frameno(t@))));
    let c4 = trim_start_str(c3.as_str());
    // dash marker
    let n4 = c4.as_str().unicode_len();
    let c5: String;
    if n4 > 0 && c4.as_str().get_char(0) == '-' {
        c5 = c4.as_str().substring_char(1, n4).to_owned();
        proof {
            assert(c4@.drop_first() =~= c4@.subrange(1, c4@.len() as int));
        }
    } else {
        c5 = c4.as_str().to_owned();
    }
    trim_start_str(c5.as_str())
}

/// Parses the location denoted by a cleaned `"at "` line.
fn parse_loc(c: &str) -> (r: (String, u32))
    requires
        c@.len() >= 3,
    ensures
        (loc_of(c@).0, loc_of(c@).1) == (r.0@, r.1),
{
    let n = c.unicode_len();
    let rest = trim_start_str(c.substring_char(3, n).to_owned().as_str());
    let rn = rest.as_str().unicode_len();
    let p = rfind_char(rest.as_str(), ':');
    if p < rn {
        let file = rest.as_str().substring_char(0, p).to_owned();
        let num = parse_line_num(rest.as_str().substring_char(p + 1, rn));
        (file, num)
    } else {
        assert(rfind_char_spec(rest@, ':') < 0);
        (rest, 1)
    }
}

/// Completes the buffered frame, if any: the pending method joins the
/// pending location; a location with no method is discarded.
fn flush_state(
    last_file: &mut Option<(String, u32)>,
    last_method: &mut Option<String>,
    out: &mut Vec<BacktraceLine>,
)
    ensures
        state_of(*final(last_file), *final(last_method), *final(out)) == flush_spec(
            state_of(*old(last_file), *old(last_method), *old(out)),
        ),
{
    let m = last_method.take();
    match m {
        Some(method) => {
            let fl = last_file.take();
            match fl {
                Some(pair) => {
                    out.push(
                        BacktraceLine { line: Some(pair.1), file: Some(pair.0), method },
                    );
                },
                None => {
                    out.push(BacktraceLine { line: None, file: None, method });
                },
            }
            assert(frames_view(*final(out)) =~= flush_spec(
                state_of(*old(last_file), *old(last_method), *old(out)),
            ).out);
        },
        None => {
            let _discarded = last_file.take();
        },
    }
}

/// Parses the textual rendering of a stack trace into an ordered sequence
/// of frames, outermost first.  Method name and source location arrive on
/// separate lines, so a method line is buffered until the next method line
/// or the end of input completes it; a location line attaches to the most
/// recently seen method line.  Malformed pieces are best effort: an
/// unparseable line number defaults to 1, and entries are never dropped
/// merely because a sub-field failed to parse.
pub fn parse(trace: &str) -> (r: Vec<BacktraceLine>)
    ensures
        frames_view(r) == parse_spec(trace@),
{
    let lines = split_char(trace, '\n');
    let ghost dv: Seq<Seq<char>> = lines.deep_view();
    let mut last_file: Option<(String, u32)> = None;
    let mut last_method: Option<String> = None;
    let mut out: Vec<BacktraceLine> = Vec::new();
    let mut idx: usize = 0;
    proof {
        assert(frames_view(out) =~= init_state().out);
        assert(dv.take(0) =~= Seq::<Seq<char>>::empty());
    }
    while idx < lines.len()
        invariant
            dv == lines.deep_view(),
            dv == split_char_spec(trace@, '\n'),
            dv.len() == lines.len(),
            0 <= idx <= lines.len(),
            state_of(last_file, last_method, out) == run_spec(init_state(), dv.take(idx as int)),
        decreases lines.len() - idx,
    {
        let ghost st_pre: ParserStateV = state_of(last_file, last_method, out);
        let ghost l: Seq<char> = dv[idx as int];
        proof {
            assert(lines@[idx as int].deep_view() == dv[idx as int]);
        }
        let t = trim_str(lines[idx].as_str());
        if str_eq(t.as_str(), "stack backtrace:") {
            assert(state_of(last_file, last_method, out) == step_spec(st_pre, l));
        } else {
            let c = clean_line(t.as_str());
            let cn = c.as_str().unicode_len();
            if cn == 0 {
                assert(state_of(last_file, last_method, out) == step_spec(st_pre, l));
            } else if starts_with_str(c.as_str(), "at ") {
                proof {
                    reveal_strlit("at ");
                }
                let loc = parse_loc(c.as_str());
                last_file = Some(loc);
                assert(state_of(last_file, last_method, out) == step_spec(st_pre, l));
            } else {
                flush_state(&mut last_file, &mut last_method, &mut out);
                last_method = Some(c);
                assert(state_of(last_file, last_method, out) == step_spec(st_pre, l));
            }
        }
        proof {
            lemma_run_spec_push(init_state(), dv.take(idx as int), l);
            assert(dv.take(idx + 1) =~= dv.take(idx as int).push(l));
        }
        idx = idx + 1;
    }
    proof {
        assert(dv.take(idx as int) =~= dv);
    }
    flush_state(&mut last_file, &mut last_method, &mut out);
    out
}

/// Whether a method name belongs to the capture or panic machinery: it
/// starts with one of the fixed denylist prefixes (unwrap/expect helpers,
/// panic-initiation helpers, backtrace-construction helpers, error-context
/// constructors).
pub open spec fn is_trim_method(m: Seq<char>) -> bool {
    ||| starts_with_spec(m, "honeybadger::notify::"@)
    ||| starts_with_spec(m, "backtrace::backtrace::capture::Backtrace::new::"@)
    ||| starts_with_spec(m, "backtrace::backtrace::capture::Backtrace::new_unresolved::"@)
    ||| starts_with_spec(m, "failure::backtrace::Backtrace::new::"@)
    ||| starts_with_spec(m, "<failure::backtrace::Backtrace as core::default::Default>::default::"@)
    ||| starts_with_spec(m, "failure::failure::error_message::err_msg::"@)
    ||| starts_with_spec(m, "<failure::context::Context<D>>::new::"@)
    ||| starts_with_spec(m, "std::panicking::begin_panic::"@)
    ||| starts_with_spec(m, "core::panicking::panic::"@)
    ||| starts_with_spec(m, "core::panicking::panic_bounds_check::"@)
    ||| starts_with_spec(m, "<core::option::Option<T>>::unwrap::"@)
    ||| starts_with_spec(m, "<core::option::Option<T>>::expect::"@)
    ||| starts_with_spec(m, "<core::result::Result<T, E>>::unwrap::"@)
    ||| starts_with_spec(m, "<core::result::Result<T, E>>::expect::"@)
    ||| starts_with_spec(m, "<core::result::Result<T, E>>::unwrap_err::"@)
    ||| starts_with_spec(m, "<core::result::Result<T, E>>::expect_err::"@)
}

/// One past the index of the last frame whose method is on the denylist,
/// or 0 when no frame is.
pub open spec fn trim_pos(frames: Seq<BtLineV>) -> int
    decreases frames.len(),
{
    if frames.len() == 0 {
        0
    } else if is_trim_method(frames.last().method) {
        frames.len() as int
    } else {
        trim_pos(frames.drop_last())
    }
}

/// The frames strictly below the last denylisted frame; all of them when no
/// frame is denylisted.
pub open spec fn trim_frames_spec(frames: Seq<BtLineV>) -> Seq<BtLineV> {
    frames.subrange(trim_pos(frames), frames.len() as int)
}

pub proof fn lemma_trim_pos_at(frames: Seq<BtLineV>, pos: int)
    requires
        0 <= pos <= frames.len(),
        pos == 0 ==> forall|j: int| 0 <= j < frames.len() ==> !is_trim_method(frames[j].method),
        pos > 0 ==> is_trim_method(frames[pos - 1].method),
        forall|j: int| pos <= j < frames.len() ==> !is_trim_method(frames[j].method),
    ensures
        trim_pos(frames) == pos,
    decreases frames.len(),
{
    if frames.len() > 0 && pos < frames.len() {
        lemma_trim_pos_at(frames.drop_last(), pos);
    }
}

/// A denylist match at index `k` (and none after it) makes the trimmed
/// sequence exactly the original from `k + 1` to the end.
pub proof fn lemma_trim_keeps_tail(frames: Seq<BtLineV>, k: int)
    requires
        0 <= k < frames.len(),
        is_trim_method(frames[k].method),
        forall|j: int| k < j < frames.len() ==> !is_trim_method(frames[j].method),
    ensures
        trim_frames_spec(frames) == frames.subrange(k + 1, frames.len() as int),
{
    lemma_trim_pos_at(frames, k + 1);
}

proof fn lemma_trim_pos_bounds(frames: Seq<BtLineV>)
    ensures
        0 <= trim_pos(frames) <= frames.len(),
    decreases frames.len(),
{
    if frames.len() > 0 && !is_trim_method(frames.last().method) {
        lemma_trim_pos_bounds(frames.drop_last());
    }
}

proof fn lemma_no_match_after_trim_pos(frames: Seq<BtLineV>)
    ensures
        forall|j: int|
            trim_pos(frames) <= j < frames.len() ==> !is_trim_method(#[trigger] frames[j].method),
    decreases frames.len(),
{
    if frames.len() == 0 {
    } else if is_trim_method(frames.last().method) {
        assert(trim_pos(frames) == frames.len());
    } else {
        lemma_trim_pos_bounds(frames.drop_last());
        lemma_no_match_after_trim_pos(frames.drop_last());
        assert(trim_pos(frames) == trim_pos(frames.drop_last()));
        assert forall|j: int|
            trim_pos(frames) <= j < frames.len() implies !is_trim_method(
            #[trigger] frames[j].method,
        ) by {
            if j == frames.len() - 1 {
                assert(frames[j] == frames.last());
            } else {
                assert(frames.drop_last()[j] == frames[j]);
                assert(!is_trim_method(frames.drop_last()[j].method));
            }
        }
    }
}

/// No frame that survives trimming is on the denylist: the trimmed
/// backtrace holds application frames only.
pub proof fn lemma_trimmed_frames_are_clean(frames: Seq<BtLineV>)
    ensures
        forall|j: int|
            0 <= j < trim_frames_spec(frames).len() ==> !is_trim_method(
                #[trigger] trim_frames_spec(frames)[j].method,
            ),
{
    lemma_trim_pos_bounds(frames);
    lemma_no_match_after_trim_pos(frames);
    assert forall|j: int|
        0 <= j < trim_frames_spec(frames).len() implies !is_trim_method(
        #[trigger] trim_frames_spec(frames)[j].method,
    ) by {
        assert(trim_frames_spec(frames)[j] == frames[trim_pos(frames) + j]);
    }
}

/// With no denylist match anywhere, trimming keeps the sequence unchanged.
pub proof fn lemma_trim_no_match(frames: Seq<BtLineV>)
    requires
        forall|j: int| 0 <= j < frames.len() ==> !is_trim_method(frames[j].method),
    ensures
        trim_frames_spec(frames) == frames,
{
    lemma_trim_pos_at(frames, 0);
    assert(frames.subrange(0, frames.len() as int) =~= frames);
}

/// Whether the frame's method starts with one of the denylist prefixes.
fn matches_denylist(m: &String) -> (r: bool)
    ensures
        r == is_trim_method(m@),
{
    let s = m.as_str();
    starts_with_str(s, "honeybadger::notify::")
        || starts_with_str(s, "backtrace::backtrace::capture::Backtrace::new::")
        || starts_with_str(s, "backtrace::backtrace::capture::Backtrace::new_unresolved::")
        || starts_with_str(s, "failure::backtrace::Backtrace::new::")
        || starts_with_str(s, "<failure::backtrace::Backtrace as core::default::Default>::default::")
        || starts_with_str(s, "failure::failure::error_message::err_msg::")
        || starts_with_str(s, "<failure::context::Context<D>>::new::")
        || starts_with_str(s, "std::panicking::begin_panic::")
        || starts_with_str(s, "core::panicking::panic::")
        || starts_with_str(s, "core::panicking::panic_bounds_check::")
        || starts_with_str(s, "<core::option::Option<T>>::unwrap::")
        || starts_with_str(s, "<core::option::Option<T>>::expect::")
        || starts_with_str(s, "<core::result::Result<T, E>>::unwrap::")
        || starts_with_str(s, "<core::result::Result<T, E>>::expect::")
        || starts_with_str(s, "<core::result::Result<T, E>>::unwrap_err::")
        || starts_with_str(s, "<core::result::Result<T, E>>::expect_err::")
}

/// Drops every frame up to and including the last one whose method is on
/// the denylist, keeping only the frames that represent the application's
/// own call path; a trace with no denylisted frame is kept whole.
pub fn trim_backtrace(bt_lines: &mut Vec<BacktraceLine>)
    ensures
        frames_view(*final(bt_lines)) == trim_frames_spec(frames_view(*old(bt_lines))),
{
    let ghost frames: Seq<BtLineV> = frames_view(*bt_lines);
    let mut pos: usize = 0;
    let mut i: usize = bt_lines.len();
    let mut found: bool = false;
    while i > 0 && !found
        invariant
            frames == frames_view(*bt_lines),
            0 <= i <= bt_lines.len(),
            !found ==> pos == 0,
            !found ==> forall|j: int| i <= j < frames.len() ==> !is_trim_method(frames[j].method),
            found ==> 0 < pos <= frames.len() && is_trim_method(frames[pos - 1].method) && (forall|
                j: int,
            |
                pos <= j < frames.len() ==> !is_trim_method(frames[j].method)),
        decreases i,
    {
        i = i - 1;
        if matches_denylist(&bt_lines[i].method) {
            pos = i + 1;
            found = true;
        }
    }
    proof {
        lemma_trim_pos_at(frames, pos as int);
    }
    let tail = bt_lines.split_off(pos);
    *bt_lines = tail;
    proof {
        assert(frames_view(*final(bt_lines)) =~= frames.subrange(
            trim_pos(frames),
            frames.len() as int,
        ));
    }
}

/// The frame's value is kept through cloning.
impl Clone for BacktraceLine {
    fn clone(&self) -> (c: BacktraceLine)
        ensures
            c@ == self@,
    {
        BacktraceLine {
            line: self.line,
            file: match &self.file {
                Some(f) => Some(f.clone()),
                None => None,
            },
            method: self.method.clone(),
        }
    }
}

/// The 0-based index of the first source line of the window around
/// 1-based line `l`: two lines before `l`, clipped at the start of the
/// file.
pub open spec fn window_skip(l: u32) -> int {
    if l >= 3 {
        l - 3
    } else {
        0
    }
}

/// The 0-based exclusive end of the window around 1-based line `l`: three
/// lines past `l - 1`, saturated.
pub open spec fn window_upto(l: u32) -> int {
    if l == 0 {
        3
    } else if l as int + 2 <= u32::MAX {
        l as int + 2
    } else {
        u32::MAX as int
    }
}

/// How many source lines the window around `l` holds in a file of `n`
/// lines.
pub open spec fn window_count(n: int, l: u32) -> int {
    let end = if window_upto(l) < n {
        window_upto(l)
    } else {
        n
    };
    if end > window_skip(l) {
        end - window_skip(l)
    } else {
        0
    }
}

/// The source window around 1-based line `l`: the text of the covered
/// lines, keyed by their 1-based absolute line numbers.
pub open spec fn source_window_spec(lines: Seq<Seq<char>>, l: u32) -> Seq<(u32, Seq<char>)> {
    Seq::new(
        window_count(lines.len() as int, l) as nat,
        |i: int| (((window_skip(l) + i + 1) as u32), lines[window_skip(l) + i]),
    )
}

/// The first 1-based line number of the window around `l`.
pub open spec fn window_first_key(l: u32) -> int {
    if l >= 3 {
        l - 2
    } else {
        1
    }
}

/// For a frame pointing at 1-based line `l` of a file with at least
/// `l + 3` lines, the window's key set is exactly
/// `max(1, l - 2) ..= l + 2`, in order, and each key maps to the text of
/// that line.
pub proof fn lemma_source_window_keys(lines: Seq<Seq<char>>, l: u32)
    requires
        1 <= l,
        l as int + 3 <= lines.len(),
        l as int + 2 <= u32::MAX,
    ensures
        source_window_spec(lines, l).len() == l as int + 3 - window_first_key(l),
        forall|i: int|
            0 <= i < source_window_spec(lines, l).len() ==> source_window_spec(lines, l)[i].0
                == window_first_key(l) + i,
        forall|i: int|
            0 <= i < source_window_spec(lines, l).len() ==> source_window_spec(lines, l)[i].1
                == lines[window_first_key(l) + i - 1],
{
}

/// The source catalog's mathematical value: file names paired with the
/// file's lines.
pub open spec fn catalog_view(files: Seq<(String, Vec<String>)>) -> Seq<
    (Seq<char>, Seq<Seq<char>>),
> {
    files.map_values(|p: (String, Vec<String>)| (p.0@, p.1.deep_view()))
}

/// The lines recorded in the catalog for `name`: the first entry with that
/// name, or nothing.
pub open spec fn lookup_spec(cat: Seq<(Seq<char>, Seq<Seq<char>>)>, name: Seq<char>) -> Option<
    Seq<Seq<char>>,
>
    decreases cat.len(),
{
    if cat.len() == 0 {
        None
    } else if cat[0].0 == name {
        Some(cat[0].1)
    } else {
        lookup_spec(cat.drop_first(), name)
    }
}

proof fn lemma_lookup_at(cat: Seq<(Seq<char>, Seq<Seq<char>>)>, name: Seq<char>, i: int)
    requires
        0 <= i <= cat.len(),
        forall|j: int| 0 <= j < i ==> cat[j].0 != name,
        i < cat.len() ==> cat[i].0 == name,
    ensures
        i < cat.len() ==> lookup_spec(cat, name) == Some(cat[i].1),
        i == cat.len() ==> lookup_spec(cat, name) is None,
    decreases i + 1,
{
    if cat.len() == 0 {
    } else if i == 0 {
    } else {
        lemma_lookup_at(cat.drop_first(), name, i - 1);
    }
}

fn lookup_file<'a>(files: &'a Vec<(String, Vec<String>)>, name: &str) -> (r: Option<
    &'a Vec<String>,
>)
    ensures
        match r {
            Some(v) => lookup_spec(catalog_view(files@), name@) == Some(v.deep_view()),
            None => lookup_spec(catalog_view(files@), name@) is None,
        },
{
    let mut i: usize = 0;
    while i < files.len()
        invariant
            0 <= i <= files@.len(),
            forall|j: int| 0 <= j < i ==> catalog_view(files@)[j].0 != name@,
        decreases files@.len() - i,
    {
        if str_eq(files[i].0.as_str(), name) {
            proof {
                lemma_lookup_at(catalog_view(files@), name@, i as int);
            }
            return Some(&files[i].1);
        }
        proof {
            assert(catalog_view(files@)[i as int].0 == files@[i as int].0@);
        }
        i = i + 1;
    }
    proof {
        lemma_lookup_at(catalog_view(files@), name@, files@.len() as int);
    }
    None
}

fn frame_source(lines: &Vec<String>, l: u32) -> (r: Vec<(u32, String)>)
    ensures
        source_view(r@) == source_window_spec(lines.deep_view(), l),
{
    let skip64: u64 = if l >= 3 {
        (l - 3) as u64
    } else {
        0
    };
    let upto64: u64 = if l == 0 {
        3
    } else if l <= u32::MAX - 2 {
        (l + 2) as u64
    } else {
        u32::MAX as u64
    };
    let n64: u64 = lines.len() as u64;
    let end64: u64 = if upto64 < n64 {
        upto64
    } else {
        n64
    };
    let mut r: Vec<(u32, String)> = Vec::new();
    let mut k: u64 = skip64;
    if end64 <= skip64 {
        proof {
            assert(source_view(r@) =~= source_window_spec(lines.deep_view(), l));
        }
        return r;
    }
    while k < end64
        invariant
            skip64 == window_skip(l),
            skip64 <= end64,
            end64 <= lines@.len(),
            end64 - skip64 == window_count(lines@.len() as int, l),
            end64 <= u32::MAX,
            skip64 <= k <= end64,
            r@.len() == k - skip64,
            forall|j: int|
                0 <= j < r@.len() ==> (r@[j].0 == skip64 + j + 1 && r@[j].1@ == lines@[
                    skip64 + j
                ]@),
        decreases end64 - k,
    {
        r.push((((k + 1) as u32), lines[k as usize].clone()));
        k = k + 1;
    }
    proof {
        assert forall|j: int| 0 <= j < r@.len() implies source_view(r@)[j] == source_window_spec(
            lines.deep_view(),
            l,
        )[j] by {
            assert(source_view(r@)[j] == (r@[j].0, r@[j].1@));
            assert(lines.deep_view()[window_skip(l) + j] == lines@[window_skip(l) + j]@);
        }
        assert(source_view(r@) =~= source_window_spec(lines.deep_view(), l));
    }
    r
}

/// The decorated value of one trimmed frame: the line number rendered as
/// text, the file name passed through, and, when the catalog holds the
/// file, the source window around the line.
pub open spec fn entry_spec(b: BtLineV, cat: Seq<(Seq<char>, Seq<Seq<char>>)>) -> BacktraceEntryV {
    BacktraceEntryV {
        number: match b.line {
            Some(l) => Some(dec_digits(l as int)),
            None => None,
        },
        file: b.file,
        method: b.method,
        source: match b.line {
            Some(l) => match b.file {
                Some(f) => match lookup_spec(cat, f) {
                    Some(lines) => Some(source_window_spec(lines, l)),
                    None => None,
                },
                None => None,
            },
            None => None,
        },
    }
}

/// The decorated value of a trimmed frame sequence.
pub open spec fn decorate_spec(frames: Seq<BtLineV>, cat: Seq<(Seq<char>, Seq<Seq<char>>)>) -> Seq<
    BacktraceEntryV,
> {
    frames.map_values(|b: BtLineV| entry_spec(b, cat))
}

fn decorate_frame(b: BacktraceLine, files: &Vec<(String, Vec<String>)>) -> (e: BacktraceEntry)
    ensures
        e@ == entry_spec(b@, catalog_view(files@)),
{
    let source: Option<Vec<(u32, String)>> = match (&b.line, &b.file) {
        (Some(l), Some(f)) => match lookup_file(files, f.as_str()) {
            Some(lines) => Some(frame_source(lines, *l)),
            None => None,
        },
        _ => None,
    };
    let number: Option<String> = match &b.line {
        Some(l) => Some(u32_to_string(*l)),
        None => None,
    };
    BacktraceEntry { number, file: b.file, method: b.method, source }
}

/// Attaches to each retained frame with a resolvable file and line the
/// window of source text around that line, read from the given catalog of
/// file contents; frames whose file is missing from the catalog pass
/// through without source.
pub fn decorate(bt_lines: Vec<BacktraceLine>, files: &Vec<(String, Vec<String>)>) -> (r: Vec<
    BacktraceEntry,
>)
    ensures
        entries_view(r@) == decorate_spec(frames_view(bt_lines), catalog_view(files@)),
{
    let mut r: Vec<BacktraceEntry> = Vec::new();
    let mut i: usize = 0;
    while i < bt_lines.len()
        invariant
            0 <= i <= bt_lines@.len(),
            r@.len() == i,
            forall|k: int|
                0 <= k < i ==> r@[k]@ == entry_spec(frames_view(bt_lines)[k], catalog_view(files@)),
        decreases bt_lines@.len() - i,
    {
        let e = decorate_frame(bt_lines[i].clone(), files);
        proof {
            assert(frames_view(bt_lines)[i as int] == bt_lines@[i as int]@);
        }
        r.push(e);
        i = i + 1;
    }
    proof {
        assert forall|k: int| 0 <= k < r@.len() implies entries_view(r@)[k] == decorate_spec(
            frames_view(bt_lines),
            catalog_view(files@),
        )[k] by {
            assert(entries_view(r@)[k] == r@[k]@);
        }
        assert(entries_view(r@) =~= decorate_spec(frames_view(bt_lines), catalog_view(files@)));
    }
    r
}

/// Parses, trims and decorates a raw trace in one step.
pub fn parse_and_decorate(trace: &str, files: &Vec<(String, Vec<String>)>) -> (r: Vec<
    BacktraceEntry,
>)
    ensures
        entries_view(r@) == decorate_spec(
            trim_frames_spec(parse_spec(trace@)),
            catalog_view(files@),
        ),
{
    let mut bt_lines = parse(trace);
    trim_backtrace(&mut bt_lines);
    decorate(bt_lines, files)
}


/// A line that the parser reads as a method line: it is not the trace
/// banner, cleaning leaves it non-empty, and it does not open a location.
pub open spec fn plain_method_line(l: Seq<char>) -> bool {
    &&& trim_spec(l) != "stack backtrace:"@
    &&& clean_line_spec(trim_spec(l)).len() > 0
    &&& !starts_with_spec(clean_line_spec(trim_spec(l)), "at "@)
}

/// A line that the parser reads as a location line: it is not the trace
/// banner, and cleaning leaves an `"at "` remainder.
pub open spec fn location_line(l: Seq<char>) -> bool {
    &&& trim_spec(l) != "stack backtrace:"@
    &&& clean_line_spec(trim_spec(l)).len() > 0
    &&& starts_with_spec(clean_line_spec(trim_spec(l)), "at "@)
}

pub proof fn lemma_run_spec_concat(st: ParserStateV, a: Seq<Seq<char>>, b: Seq<Seq<char>>)
    ensures
        run_spec(st, a + b) == run_spec(run_spec(st, a), b),
    decreases a.len(),
{
    if a.len() == 0 {
        assert(a + b =~= b);
    } else {
        assert((a + b)[0] == a[0]);
        assert((a + b).drop_first() =~= a.drop_first() + b);
        lemma_run_spec_concat(step_spec(st, a[0]), a.drop_first(), b);
    }
}

/// One method line followed by one location line: whatever was buffered is
/// completed, the method is buffered, and the location attaches to it.
proof fn lemma_pair_steps(st: ParserStateV, m: Seq<char>, a: Seq<char>)
    requires
        plain_method_line(m),
        location_line(a),
    ensures
        run_spec(st, seq![m, a]) == (ParserStateV {
            loc: Some(loc_of(clean_line_spec(trim_spec(a)))),
            method: Some(clean_line_spec(trim_spec(m))),
            out: flush_spec(st).out,
        }),
{
    let ls = seq![m, a];
    assert(ls[0] == m);
    assert(ls.drop_first() =~= seq![a]);
    assert(seq![a][0] == a);
    assert(seq![a].drop_first() =~= Seq::<Seq<char>>::empty());
    let st1 = step_spec(st, m);
    let st2 = step_spec(st1, a);
    assert(run_spec(st, ls) == run_spec(st1, seq![a]));
    assert(run_spec(st1, seq![a]) == run_spec(st2, Seq::<Seq<char>>::empty()));
}

/// The frames emitted for method lines `ms` paired with location lines
/// `locs`.
pub open spec fn paired_entries(ms: Seq<Seq<char>>, locs: Seq<Seq<char>>) -> Seq<BtLineV> {
    Seq::new(
        ms.len(),
        |i: int|
            BtLineV {
                line: Some(loc_of(clean_line_spec(trim_spec(locs[i]))).1),
                file: Some(loc_of(clean_line_spec(trim_spec(locs[i]))).0),
                method: clean_line_spec(trim_spec(ms[i])),
            },
    )
}

/// The raw lines of a trace of method lines each followed by its location
/// line.
pub open spec fn paired_lines(ms: Seq<Seq<char>>, locs: Seq<Seq<char>>) -> Seq<Seq<char>>
    decreases ms.len(),
{
    if ms.len() == 0 {
        Seq::empty()
    } else {
        seq![ms[0], locs[0]] + paired_lines(ms.drop_first(), locs.drop_first())
    }
}

proof fn lemma_parser_pairs_general(st: ParserStateV, ms: Seq<Seq<char>>, locs: Seq<Seq<char>>)
    requires
        ms.len() == locs.len(),
        forall|i: int| 0 <= i < ms.len() ==> plain_method_line(ms[i]),
        forall|i: int| 0 <= i < locs.len() ==> location_line(locs[i]),
    ensures
        flush_spec(run_spec(st, paired_lines(ms, locs))).out == flush_spec(st).out
            + paired_entries(ms, locs),
    decreases ms.len(),
{
    if ms.len() == 0 {
        assert(paired_lines(ms, locs) =~= Seq::<Seq<char>>::empty());
        assert(flush_spec(st).out + paired_entries(ms, locs) =~= flush_spec(st).out);
    } else {
        let pair = seq![ms[0], locs[0]];
        let rest = paired_lines(ms.drop_first(), locs.drop_first());
        lemma_run_spec_concat(st, pair, rest);
        lemma_pair_steps(st, ms[0], locs[0]);
        let st1 = run_spec(st, pair);
        lemma_parser_pairs_general(st1, ms.drop_first(), locs.drop_first());
        let entry0 = BtLineV {
            line: Some(loc_of(clean_line_spec(trim_spec(locs[0]))).1),
            file: Some(loc_of(clean_line_spec(trim_spec(locs[0]))).0),
            method: clean_line_spec(trim_spec(ms[0])),
        };
        assert(flush_spec(st1).out =~= flush_spec(st).out.push(entry0));
        assert(flush_spec(st).out.push(entry0) + paired_entries(
            ms.drop_first(),
            locs.drop_first(),
        ) =~= flush_spec(st).out + paired_entries(ms, locs));
    }
}

/// A trace of `N` method lines, each followed by one location line, parses
/// to exactly `N` frames, in the same order, each carrying that pair's
/// method, file and line.
pub proof fn lemma_parser_pairs(ms: Seq<Seq<char>>, locs: Seq<Seq<char>>)
    requires
        ms.len() == locs.len(),
        forall|i: int| 0 <= i < ms.len() ==> plain_method_line(ms[i]),
        forall|i: int| 0 <= i < locs.len() ==> location_line(locs[i]),
    ensures
        flush_spec(run_spec(init_state(), paired_lines(ms, locs))).out == paired_entries(ms, locs),
        paired_entries(ms, locs).len() == ms.len(),
        forall|i: int|
            0 <= i < ms.len() ==> paired_entries(ms, locs)[i].method == clean_line_spec(
                trim_spec(ms[i]),
            ) && paired_entries(ms, locs)[i].file == Some(
                loc_of(clean_line_spec(trim_spec(locs[i]))).0,
            ) && paired_entries(ms, locs)[i].line == Some(
                loc_of(clean_line_spec(trim_spec(locs[i]))).1,
            ),
{
    lemma_parser_pairs_general(init_state(), ms, locs);
    assert(flush_spec(init_state()).out + paired_entries(ms, locs) =~= paired_entries(ms, locs));
}

/// A trace text whose lines are `N` method lines, each followed by one
/// location line, parses to exactly those `N` frames, in the same order,
/// each with that pair's method, file and line.
pub proof fn lemma_parse_spec_pairs(s: Seq<char>, ms: Seq<Seq<char>>, locs: Seq<Seq<char>>)
    requires
        split_char_spec(s, '\n') == paired_lines(ms, locs),
        ms.len() == locs.len(),
        forall|i: int| 0 <= i < ms.len() ==> plain_method_line(ms[i]),
        forall|i: int| 0 <= i < locs.len() ==> location_line(locs[i]),
    ensures
        parse_spec(s) == paired_entries(ms, locs),
        parse_spec(s).len() == ms.len(),
        forall|i: int|
            0 <= i < ms.len() ==> parse_spec(s)[i].method == clean_line_spec(trim_spec(ms[i]))
                && parse_spec(s)[i].file == Some(loc_of(clean_line_spec(trim_spec(locs[i]))).0)
                && parse_spec(s)[i].line == Some(loc_of(clean_line_spec(trim_spec(locs[i]))).1),
{
    lemma_parser_pairs(ms, locs);
}

/// A trace text of one method line with no location line parses to one
/// frame whose file and line are absent.
pub proof fn lemma_parse_spec_method_without_location(s: Seq<char>, m: Seq<char>)
    requires
        split_char_spec(s, '\n') == seq![m],
        plain_method_line(m),
    ensures
        parse_spec(s) == seq![
            BtLineV { line: None, file: None, method: clean_line_spec(trim_spec(m)) },
        ],
{
    lemma_method_without_location(init_state(), m);
    assert(flush_spec(init_state()).out.push(
        BtLineV { line: None, file: None, method: clean_line_spec(trim_spec(m)) },
    ) =~= seq![BtLineV { line: None, file: None, method: clean_line_spec(trim_spec(m)) }]);
}

/// A method line with no following location line completes as a frame
/// without file and without line.
pub proof fn lemma_method_without_location(st: ParserStateV, m: Seq<char>)
    requires
        plain_method_line(m),
    ensures
        flush_spec(run_spec(st, seq![m])).out == flush_spec(st).out.push(
            BtLineV { line: None, file: None, method: clean_line_spec(trim_spec(m)) },
        ),
{
    assert(seq![m][0] == m);
    assert(seq![m].drop_first() =~= Seq::<Seq<char>>::empty());
    let st1 = step_spec(st, m);
    assert(run_spec(st, seq![m]) == run_spec(st1, Seq::<Seq<char>>::empty()));
}

} // verus!
