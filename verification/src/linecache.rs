//! The line cache: the visible document model as a sparse array of line
//! records, kept in sync with the remote core by incremental updates.

use vstd::prelude::*;

verus! {

/// One row of the document as currently known to the front end: its text and
/// the caret offsets inside it. A `Line` is immutable once constructed; it is
/// replaced wholesale, never patched in place.
pub struct Line {
    text: String,
    cursor: Vec<usize>,
}

impl Line {
    /// The text of the line, as a sequence of characters.
    pub closed spec fn text_spec(&self) -> Seq<char> {
        self.text@
    }

    /// The caret offsets into the text, in the order they were given.
    pub closed spec fn cursor_spec(&self) -> Seq<usize> {
        self.cursor@
    }

    pub fn new(text: String, cursor: Vec<usize>) -> (l: Line)
        ensures
            l.text_spec() == text@,
            l.cursor_spec() == cursor@,
    {
        Line { text, cursor }
    }

    pub fn text(&self) -> (t: &str)
        ensures
            t@ == self.text_spec(),
    {
        self.text.as_str()
    }

    pub fn cursor(&self) -> (c: &[usize])
        ensures
            c@ == self.cursor_spec(),
    {
        self.cursor.as_slice()
    }
}

/// One instruction of an update: how the next stretch of the new line
/// sequence is produced from the old one.
pub enum Op {
    /// Append these brand-new materialized lines to the new sequence.
    Insert(Vec<Line>),
    /// Move the next `n` slots of the old sequence to the new one unchanged;
    /// slots past the end of the old sequence come over as placeholders.
    Copy(usize),
    /// Advance `n` positions in the old sequence without copying them.
    Skip(usize),
    /// Append `n` placeholder slots whose content is currently unknown.
    Invalidate(usize),
}

/// A batch of ops applied atomically to transform the cache's old line
/// sequence into a new one.
pub struct Update {
    pub ops: Vec<Op>,
}

/// How many slots of the old sequence the op consumes.
pub open spec fn op_consumed(op: Op) -> int {
    match op {
        Op::Insert(_) => 0,
        Op::Copy(n) => n as int,
        Op::Skip(n) => n as int,
        Op::Invalidate(_) => 0,
    }
}

/// How many slots the op appends to the new sequence.
pub open spec fn op_added(op: Op) -> int {
    match op {
        Op::Insert(lines) => lines@.len() as int,
        Op::Copy(n) => n as int,
        Op::Skip(_) => 0,
        Op::Invalidate(n) => n as int,
    }
}

/// Position of the read cursor into the old sequence after these ops.
/// The cursor only ever moves forward; it may run past the end.
pub open spec fn ops_cursor(ops: Seq<Op>) -> int
    decreases ops.len(),
{
    if ops.len() == 0 {
        0
    } else {
        ops_cursor(ops.drop_last()) + op_consumed(ops.last())
    }
}

/// Total number of slots the ops append to the new sequence.
pub open spec fn ops_added(ops: Seq<Op>) -> int
    decreases ops.len(),
{
    if ops.len() == 0 {
        0
    } else {
        ops_added(ops.drop_last()) + op_added(ops.last())
    }
}

/// The slots one op appends, given the old sequence and the cursor position
/// at which the op runs. A copy that runs past the end of the old sequence
/// yields placeholders for the missing slots.
pub open spec fn op_lines(old_seq: Seq<Option<Line>>, cursor: int, op: Op) -> Seq<Option<Line>> {
    match op {
        Op::Insert(lines) => lines@.map_values(|l: Line| Some(l)),
        Op::Copy(n) => Seq::new(
            n as nat,
            |k: int| if cursor + k < old_seq.len() && cursor + k >= 0 {
                old_seq[cursor + k]
            } else {
                None
            },
        ),
        Op::Skip(_) => Seq::empty(),
        Op::Invalidate(n) => Seq::new(n as nat, |k: int| None),
    }
}

/// The new line sequence that applying the ops, in order, to `old_seq`
/// produces.
pub open spec fn apply_ops(old_seq: Seq<Option<Line>>, ops: Seq<Op>) -> Seq<Option<Line>>
    decreases ops.len(),
{
    if ops.len() == 0 {
        Seq::empty()
    } else {
        apply_ops(old_seq, ops.drop_last()) + op_lines(
            old_seq,
            ops_cursor(ops.drop_last()),
            ops.last(),
        )
    }
}

/// The new sequence is exactly as long as the sum of what each op appends:
/// inserted lines, copied slots and invalidated slots count; skipped slots
/// do not.
pub proof fn lemma_apply_ops_len(old_seq: Seq<Option<Line>>, ops: Seq<Op>)
    ensures
        apply_ops(old_seq, ops).len() == ops_added(ops),
        ops_added(ops) >= 0,
    decreases ops.len(),
{
    if ops.len() > 0 {
        lemma_apply_ops_len(old_seq, ops.drop_last());
    }
}

/// The read cursor into the old sequence never rewinds: each op moves it
/// forward or leaves it in place.
pub proof fn lemma_cursor_monotonic(ops: Seq<Op>, i: int)
    requires
        0 <= i < ops.len(),
    ensures
        ops_cursor(ops.take(i)) <= ops_cursor(ops.take(i + 1)),
{
    assert(ops.take(i + 1).drop_last() =~= ops.take(i));
    assert(op_consumed(ops.take(i + 1).last()) >= 0);
}

/// Applying a single copy of the whole old sequence reproduces it unchanged.
pub proof fn lemma_copy_all_round_trip(old_seq: Seq<Option<Line>>, n: usize)
    requires
        n == old_seq.len(),
    ensures
        apply_ops(old_seq, seq![Op::Copy(n)]) == old_seq,
{
    let ops = seq![Op::Copy(n)];
    assert(ops.last() == Op::Copy(n));
    assert(ops.drop_last() =~= Seq::<Op>::empty());
    assert(apply_ops(old_seq, ops.drop_last()) =~= Seq::<Option<Line>>::empty());
    assert(ops_cursor(ops.drop_last()) == 0);
    assert(apply_ops(old_seq, ops) =~= old_seq);
}

/// The ordered sequence of `Option<Line>` slots, index = line number. A
/// `None` slot means the line exists but its content is not known yet.
pub struct LineCache {
    lines: Vec<Option<Line>>,
}

impl View for LineCache {
    type V = Seq<Option<Line>>;

    closed spec fn view(&self) -> Seq<Option<Line>> {
        self.lines@
    }
}

impl LineCache {
    pub fn new() -> (c: LineCache)
        ensures
            c@ == Seq::<Option<Line>>::empty(),
    {
        LineCache { lines: Vec::new() }
    }

    fn push_opt_line(&mut self, line: Option<Line>)
        ensures
            final(self)@ == old(self)@.push(line),
    {
        self.lines.push(line);
    }

    /// Current total known line count.
    pub fn height(&self) -> (h: usize)
        ensures
            h == self@.len(),
    {
        self.lines.len()
    }

    /// The line at `index`, if it is in range and materialized; `None` both
    /// for an out-of-range index and for an invalidated slot.
    pub fn get_line(&self, ix: usize) -> (r: Option<&Line>)
        ensures
            match r {
                Some(l) => ix < self@.len() && self@[ix as int] == Some(*l),
                None => ix >= self@.len() || self@[ix as int] is None,
            },
    {
        if ix < self.lines.len() {
            self.lines[ix].as_ref()
        } else {
            None
        }
    }

    /// Apply a batch of update ops, in order, replacing the old line
    /// sequence with the new one it describes. The whole new sequence is
    /// built before it becomes visible; an update with no ops empties the
    /// cache.
    pub fn apply_update(&mut self, update: Update)
        ensures
            final(self)@ == apply_ops(old(self)@, update.ops@),
            final(self)@.len() == ops_added(update.ops@),
    {
        let mut ops = update.ops;
        let ghost ops_view = ops@;
        let mut old_lines: Vec<Option<Line>> = Vec::new();
        std::mem::swap(&mut self.lines, &mut old_lines);
        let ghost old_view = old_lines@;
        let ghost old_len = old_view.len() as int;

        let mut i: usize = 0;
        let n_ops = ops.len();
        while i < n_ops
            invariant
                n_ops == ops_view.len(),
                old_len == old_view.len(),
                i <= n_ops,
                ops@ == ops_view.skip(i as int),
                self.lines@ == apply_ops(old_view, ops_view.take(i as int)),
                old_lines@ == old_view.skip(
                    vstd::math::min(ops_cursor(ops_view.take(i as int)), old_len),
                ),
                ops_cursor(ops_view.take(i as int)) >= 0,
            decreases n_ops - i,
        {
            let ghost done = ops_view.take(i as int);
            let ghost cur = ops_cursor(done);
            let ghost base = self.lines@;
            proof {
                assert(ops_view.take(i + 1).drop_last() =~= done);
                assert(ops_view.take(i + 1).last() == ops_view[i as int]);
            }
            let op = ops.remove(0);
            assert(op == ops_view[i as int]);
            match op {
                Op::Insert(mut lines) => {
                    let ghost lines_view = lines@;
                    let mut k: usize = 0;
                    let n_lines = lines.len();
                    while k < n_lines
                        invariant
                            n_lines == lines_view.len(),
                            k <= n_lines,
                            lines@ == lines_view.skip(k as int),
                            self.lines@ == base + lines_view.take(k as int).map_values(
                                |l: Line| Some(l),
                            ),
                        decreases n_lines - k,
                    {
                        let line = lines.remove(0);
                        self.push_opt_line(Some(line));
                        proof {
                            assert(lines_view.take(k + 1).map_values(|l: Line| Some(l)) =~= (
                                lines_view.take(k as int).map_values(|l: Line| Some(l)).push(
                                    Some(lines_view[k as int]),
                                )
                            ));
                        }
                        k = k + 1;
                    }
                    proof {
                        assert(lines_view.take(n_lines as int) =~= lines_view);
                        assert(self.lines@ =~= apply_ops(old_view, ops_view.take(i + 1)));
                    }
                }
                Op::Copy(n) => {
                    let mut k: usize = 0;
                    while k < n
                        invariant
                            k <= n,
                            ops_cursor(done) == cur,
                            cur >= 0,
                            old_len == old_view.len(),
                            self.lines@ == base + Seq::new(
                                k as nat,
                                |j: int| if cur + j < old_len && cur + j >= 0 {
                                    old_view[cur + j]
                                } else {
                                    None
                                },
                            ),
                            old_lines@ == old_view.skip(vstd::math::min(cur + k, old_len)),
                        decreases n - k,
                    {
                        let slot = if old_lines.len() > 0 {
                            old_lines.remove(0)
                        } else {
                            None
                        };
                        assert(slot == (if cur + k < old_len {
                            old_view[cur + k]
                        } else {
                            Option::<Line>::None
                        }));
                        self.push_opt_line(slot);
                        proof {
                            let f = |j: int| if cur + j < old_len && cur + j >= 0 {
                                old_view[cur + j]
                            } else {
                                None
                            };
                            assert(Seq::new((k + 1) as nat, f) =~= Seq::new(k as nat, f).push(
                                f(k as int),
                            ));
                        }
                        k = k + 1;
                    }
                    proof {
                        assert(self.lines@ =~= apply_ops(old_view, ops_view.take(i + 1)));
                        assert(old_lines@ =~= old_view.skip(
                            vstd::math::min(ops_cursor(ops_view.take(i + 1)), old_len),
                        ));
                    }
                }
                Op::Skip(n) => {
                    let mut k: usize = 0;
                    while k < n
                        invariant
                            k <= n,
                            ops_cursor(done) == cur,
                            cur >= 0,
                            old_len == old_view.len(),
                            old_lines@ == old_view.skip(vstd::math::min(cur + k, old_len)),
                        decreases n - k,
                    {
                        if old_lines.len() > 0 {
                            let _ = old_lines.remove(0);
                        }
                        k = k + 1;
                    }
                    proof {
                        assert(self.lines@ =~= apply_ops(old_view, ops_view.take(i + 1)));
                        assert(old_lines@ =~= old_view.skip(
                            vstd::math::min(ops_cursor(ops_view.take(i + 1)), old_len),
                        ));
                    }
                }
                Op::Invalidate(n) => {
                    let mut k: usize = 0;
                    while k < n
                        invariant
                            k <= n,
                            self.lines@ == base + Seq::new(k as nat, |j: int| None::<Line>),
                        decreases n - k,
                    {
                        self.push_opt_line(None);
                        proof {
                            let f = |j: int| None::<Line>;
                            assert(Seq::new((k + 1) as nat, f) =~= Seq::new(k as nat, f).push(
                                None,
                            ));
                        }
                        k = k + 1;
                    }
                    proof {
                        assert(self.lines@ =~= apply_ops(old_view, ops_view.take(i + 1)));
                    }
                }
            }
            i = i + 1;
        }
        proof {
            assert(ops_view.take(n_ops as int) =~= ops_view);
            lemma_apply_ops_len(old_view, ops_view);
        }
    }
}

} // verus!
