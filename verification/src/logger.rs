//! Log-line classification for the supervised node's log file.
//!
//! The log is plain text, line-oriented, split at line feeds. A line is
//! classified as an error line when it contains the error marker `ERRO`
//! (case-sensitive) or the explicit invalid-state marker `invalid`. The
//! functions here classify the current log content handed to them as bytes;
//! reading the (possibly still growing) file is the harness's job.

use vstd::prelude::*;
use vstd::slice::slice_to_vec;

verus! {

/// The byte at which one log line ends and the next begins (ASCII line feed).
pub open spec fn is_line_feed(b: u8) -> bool {
    b == 10
}

/// Folds a log prefix into the complete lines seen so far and the pending
/// partial line after the last line feed.
pub open spec fn split_acc(s: Seq<u8>) -> (Seq<Seq<u8>>, Seq<u8>)
    decreases s.len(),
{
    if s.len() == 0 {
        (Seq::empty(), Seq::empty())
    } else {
        let prev = split_acc(s.drop_last());
        if is_line_feed(s.last()) {
            (prev.0.push(prev.1), Seq::empty())
        } else {
            (prev.0, prev.1.push(s.last()))
        }
    }
}

/// The lines of a log, in file order. A trailing partial line (bytes after
/// the last line feed, as when a scan races an in-progress write) counts as a
/// line; a trailing line feed does not open an empty final line.
pub open spec fn lines_of(s: Seq<u8>) -> Seq<Seq<u8>> {
    let acc = split_acc(s);
    if acc.1.len() == 0 {
        acc.0
    } else {
        acc.0.push(acc.1)
    }
}

/// `needle` occurs contiguously somewhere in `hay`.
pub open spec fn contains_seq(hay: Seq<u8>, needle: Seq<u8>) -> bool {
    exists|i: int| 0 <= i && i + needle.len() <= hay.len() && #[trigger] hay.subrange(i, i + needle.len()) == needle
}

/// The error marker: the ASCII bytes of `ERRO`.
pub open spec fn error_marker() -> Seq<u8> {
    seq![69u8, 82u8, 82u8, 79u8]
}

/// The invalid-state marker: the ASCII bytes of `invalid`.
pub open spec fn invalid_marker() -> Seq<u8> {
    seq![105u8, 110u8, 118u8, 97u8, 108u8, 105u8, 100u8]
}

/// A line that signals a failure-level event: it contains the error marker
/// or the explicit invalid-state marker.
pub open spec fn is_error_line(line: Seq<u8>) -> bool {
    contains_seq(line, error_marker()) || contains_seq(line, invalid_marker())
}

pub open spec fn error_line_pred() -> spec_fn(Seq<u8>) -> bool {
    |l: Seq<u8>| is_error_line(l)
}

/// The subsequence of a log's lines classified as error lines, in file
/// order.
pub open spec fn error_lines_of(s: Seq<u8>) -> Seq<Seq<u8>> {
    lines_of(s).filter(error_line_pred())
}

/// Whether `needle` occurs in `hay` starting exactly at `at`.
fn matches_at(hay: &[u8], needle: &[u8], at: usize) -> (r: bool)
    requires
        at + needle@.len() <= hay@.len(),
    ensures
        r == (hay@.subrange(at as int, at + needle@.len()) == needle@),
{
    let hay_len = hay.len();
    let mut j: usize = 0;
    while j < needle.len()
        invariant
            at + needle@.len() <= hay@.len(),
            hay_len == hay@.len(),
            j <= needle@.len(),
            forall|k: int| 0 <= k < j ==> hay@[at + k] == needle@[k],
        decreases needle@.len() - j,
    {
        if hay[at + j] != needle[j] {
            proof {
                assert(hay@.subrange(at as int, at + needle@.len())[j as int] == hay@[at + j]);
            }
            return false;
        }
        j += 1;
    }
    proof {
        assert(hay@.subrange(at as int, at + needle@.len()) =~= needle@);
    }
    true
}

/// Whether `needle` occurs contiguously anywhere in `hay`.
pub fn contains_subslice(hay: &[u8], needle: &[u8]) -> (r: bool)
    ensures
        r == contains_seq(hay@, needle@),
{
    if needle.len() > hay.len() {
        return false;
    }
    if needle.len() == 0 {
        proof {
            assert(contains_seq(hay@, needle@)) by {
                assert(hay@.subrange(0, 0 + needle@.len() as int) =~= needle@);
            }
        }
        return true;
    }
    let last_start = hay.len() - needle.len();
    let mut i: usize = 0;
    while i <= last_start
        invariant
            1 <= needle@.len() <= hay@.len(),
            hay@.len() <= usize::MAX,
            last_start == hay@.len() - needle@.len(),
            i <= last_start + 1,
            forall|j: int| 0 <= j < i ==> #[trigger] hay@.subrange(j, j + needle@.len()) != needle@,
        decreases last_start + 1 - i,
    {
        if matches_at(hay, needle, i) {
            return true;
        }
        i += 1;
    }
    false
}

/// Splits log content into its lines.
pub fn split_lines(content: &[u8]) -> (r: Vec<Vec<u8>>)
    ensures
        r.deep_view() == lines_of(content@),
{
    let mut done: Vec<Vec<u8>> = Vec::new();
    let mut cur: Vec<u8> = Vec::new();
    let mut i: usize = 0;
    while i < content.len()
        invariant
            i <= content@.len(),
            done.deep_view() == split_acc(content@.take(i as int)).0,
            cur@ == split_acc(content@.take(i as int)).1,
        decreases content@.len() - i,
    {
        let ghost prev_done = done.deep_view();
        let b = content[i];
        proof {
            assert(content@.take(i + 1).drop_last() =~= content@.take(i as int));
            assert(content@.take(i + 1).last() == content@[i as int]);
        }
        if b == 10 {
            done.push(cur);
            cur = Vec::new();
            proof {
                assert(done.deep_view() =~~= prev_done.push(split_acc(content@.take(i as int)).1));
            }
        } else {
            cur.push(b);
            proof {
                assert(done.deep_view() =~~= prev_done);
            }
        }
        i += 1;
    }
    proof {
        assert(content@.take(content@.len() as int) =~= content@);
    }
    let ghost final_done = done.deep_view();
    if cur.len() > 0 {
        done.push(cur);
        proof {
            assert(done.deep_view() =~~= final_done.push(split_acc(content@).1));
        }
    }
    done
}

/// Keeps the lines classified as error lines: those with the error marker or
/// the invalid-state marker.
fn select_lines(lines: Vec<Vec<u8>>) -> (r: Vec<Vec<u8>>)
    ensures
        r.deep_view() == lines.deep_view().filter(error_line_pred()),
{
    let ghost pred = error_line_pred();
    let error_marker_bytes = marker_bytes_error();
    let invalid_marker_bytes = marker_bytes_invalid();
    let mut out: Vec<Vec<u8>> = Vec::new();
    let mut i: usize = 0;
    proof {
        reveal(Seq::filter);
        assert(lines.deep_view().take(0) =~~= Seq::<Seq<u8>>::empty());
        assert(out.deep_view() =~~= lines.deep_view().take(0).filter(pred));
    }
    while i < lines.len()
        invariant
            i <= lines@.len(),
            pred == error_line_pred(),
            error_marker_bytes@ == error_marker(),
            invalid_marker_bytes@ == invalid_marker(),
            out.deep_view() == lines.deep_view().take(i as int).filter(pred),
        decreases lines@.len() - i,
    {
        let ghost prev_out = out.deep_view();
        let line = &lines[i];
        let mut hit = contains_subslice(line.as_slice(), error_marker_bytes.as_slice());
        if !hit {
            hit = contains_subslice(line.as_slice(), invalid_marker_bytes.as_slice());
        }
        proof {
            reveal(Seq::filter);
            let dv = lines.deep_view();
            assert(dv[i as int] =~= line@);
            assert(dv.take(i + 1).drop_last() =~= dv.take(i as int));
            assert(dv.take(i + 1).last() == dv[i as int]);
            assert(hit == pred(dv[i as int]));
        }
        if hit {
            let kept = slice_to_vec(line.as_slice());
            out.push(kept);
            proof {
                assert(out.deep_view() =~~= prev_out.push(lines.deep_view()[i as int]));
            }
        }
        i += 1;
    }
    proof {
        assert(lines.deep_view().take(lines@.len() as int) =~= lines.deep_view());
    }
    out
}

/// Every error line of the log — each line with the error marker or the
/// invalid-state marker — in file order. The one detection behind the soft
/// check, the hard check and the teardown diagnostic.
pub fn error_lines(content: &[u8]) -> (r: Vec<Vec<u8>>)
    ensures
        r.deep_view() == error_lines_of(content@),
{
    let lines = split_lines(content);
    select_lines(lines)
}

/// The ASCII bytes of the error marker `ERRO`.
fn marker_bytes_error() -> (r: Vec<u8>)
    ensures
        r@ == error_marker(),
{
    let mut r: Vec<u8> = Vec::new();
    r.push(69u8);
    r.push(82u8);
    r.push(82u8);
    r.push(79u8);
    proof {
        assert(r@ =~= error_marker());
    }
    r
}

/// The ASCII bytes of the invalid-state marker `invalid`.
fn marker_bytes_invalid() -> (r: Vec<u8>)
    ensures
        r@ == invalid_marker(),
{
    let mut r: Vec<u8> = Vec::new();
    r.push(105u8);
    r.push(110u8);
    r.push(118u8);
    r.push(97u8);
    r.push(108u8);
    r.push(105u8);
    r.push(100u8);
    proof {
        assert(r@ =~= invalid_marker());
    }
    r
}

/// A piece of a log with no line feed in it: what a single line looks like.
pub open spec fn feed_free(l: Seq<u8>) -> bool {
    forall|k: int| 0 <= k < l.len() ==> !is_line_feed(#[trigger] l[k])
}

proof fn lemma_split_acc_feed_free(s: Seq<u8>)
    ensures
        forall|i: int| 0 <= i < split_acc(s).0.len() ==> feed_free(#[trigger] split_acc(s).0[i]),
        feed_free(split_acc(s).1),
    decreases s.len(),
{
    if s.len() > 0 {
        lemma_split_acc_feed_free(s.drop_last());
        let prev = split_acc(s.drop_last());
        if is_line_feed(s.last()) {
            assert forall|i: int| 0 <= i < split_acc(s).0.len() implies feed_free(
                #[trigger] split_acc(s).0[i],
            ) by {
                if i < prev.0.len() {
                    assert(split_acc(s).0[i] == prev.0[i]);
                } else {
                    assert(split_acc(s).0[i] == prev.1);
                }
            }
        } else {
            assert(feed_free(prev.1.push(s.last())));
        }
    }
}

/// Law: the split is made at every line feed, so no line carries one.
pub proof fn lemma_lines_feed_free(s: Seq<u8>, i: int)
    requires
        0 <= i < lines_of(s).len(),
    ensures
        feed_free(lines_of(s)[i]),
{
    lemma_split_acc_feed_free(s);
}

/// Every element a filter keeps already stood in the filtered sequence.
proof fn lemma_filter_member<A>(s: Seq<A>, pred: spec_fn(A) -> bool, i: int)
    requires
        0 <= i < s.filter(pred).len(),
    ensures
        s.contains(s.filter(pred)[i]),
    decreases s.len(),
{
    reveal(Seq::filter);
    if s.len() > 0 {
        let sub = s.drop_last().filter(pred);
        if pred(s.last()) && i == sub.len() {
            assert(s.filter(pred)[i] == s.last());
            assert(s[s.len() - 1] == s.last());
        } else {
            lemma_filter_member(s.drop_last(), pred, i);
            let x = s.drop_last().filter(pred)[i];
            let j = choose|j: int| 0 <= j < s.drop_last().len() && s.drop_last()[j] == x;
            assert(s[j] == x);
        }
    }
}

/// Law: the error scan is sound. Every reported error line is one of the
/// log's lines and carries one of the markers.
pub proof fn lemma_error_lines_sound(s: Seq<u8>, i: int)
    requires
        0 <= i < error_lines_of(s).len(),
    ensures
        lines_of(s).contains(error_lines_of(s)[i]),
        is_error_line(error_lines_of(s)[i]),
{
    lines_of(s).lemma_filter_pred(error_line_pred(), i);
    lemma_filter_member(lines_of(s), error_line_pred(), i);
}

/// Law: the error scan is complete. Every line of the log that carries one
/// of the markers appears among the reported error lines.
pub proof fn lemma_error_lines_complete(s: Seq<u8>, i: int)
    requires
        0 <= i < lines_of(s).len(),
        is_error_line(lines_of(s)[i]),
    ensures
        error_lines_of(s).contains(lines_of(s)[i]),
{
    lines_of(s).lemma_filter_contains(error_line_pred(), i);
}

/// Law: a log none of whose lines carries a marker has no error lines.
pub proof fn lemma_error_lines_empty(s: Seq<u8>)
    requires
        forall|i: int| 0 <= i < lines_of(s).len() ==> !is_error_line(#[trigger] lines_of(s)[i]),
    ensures
        error_lines_of(s).len() == 0,
{
    if error_lines_of(s).len() > 0 {
        lemma_error_lines_sound(s, 0);
        let x = error_lines_of(s)[0];
        let j = choose|j: int| 0 <= j < lines_of(s).len() && lines_of(s)[j] == x;
        assert(!is_error_line(lines_of(s)[j]));
    }
}

/// Classifies the lines of one node's log file. The scanner is bound to the
/// log's location at construction; each scan works on the content the
/// harness read from that location at call time.
#[derive(Debug)]
pub struct JormungandrLogger {
    pub log_file_path: String,
}

impl JormungandrLogger {
    pub fn new(log_file_path: String) -> (r: Self)
        ensures
            r.log_file_path == log_file_path,
    {
        JormungandrLogger { log_file_path }
    }

    /// The error lines of `content` — each line with the error marker or the
    /// invalid-state marker — in file order.
    pub fn get_lines_with_error(&self, content: &[u8]) -> (r: Vec<Vec<u8>>)
        ensures
            r.deep_view() == error_lines_of(content@),
    {
        error_lines(content)
    }
}

} // verus!
