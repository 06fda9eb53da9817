//! A local mirror of a window of the engine's document lines.
//!
//! The cache is an ordered sequence of slots indexed by document line
//! number. Each slot is either present, holding the line's text together
//! with cursor offsets and style spans, or invalid: a placeholder the
//! engine has not yet delivered. The engine keeps the cache in sync by
//! sending patches, ordered lists of operations that transform the prior
//! cache into the new one.

use vstd::prelude::*;

verus! {

/// One style span: `length` bytes of style `style_id`, starting `offset`
/// bytes after the end of the previous span (offsets may be negative to
/// step backwards).
#[derive(Clone, Copy, PartialEq, Eq, Structural, Debug)]
pub struct StyleSpan {
    pub offset: i64,
    pub length: usize,
    pub style_id: usize,
}

impl View for StyleSpan {
    type V = StyleSpan;

    open spec fn view(&self) -> StyleSpan {
        *self
    }
}

impl DeepView for StyleSpan {
    type V = StyleSpan;

    open spec fn deep_view(&self) -> StyleSpan {
        *self
    }
}

/// One present line: its text (without a trailing newline), the byte
/// offsets of the carets on it, and its style spans.
pub struct Line {
    pub text: String,
    pub cursors: Vec<usize>,
    pub styles: Vec<StyleSpan>,
}

/// The mathematical value of a [`Line`].
pub ghost struct LineView {
    pub text: Seq<char>,
    pub cursors: Seq<usize>,
    pub styles: Seq<StyleSpan>,
}

impl View for Line {
    type V = LineView;

    open spec fn view(&self) -> LineView {
        LineView { text: self.text@, cursors: self.cursors@, styles: self.styles@ }
    }
}

impl DeepView for Line {
    type V = LineView;

    open spec fn deep_view(&self) -> LineView {
        self@
    }
}

/// A record carried by an `update` operation: fields that are present
/// replace the corresponding fields of the carried slot, absent fields
/// preserve the prior values. The text of the slot is always kept.
pub struct LineUpdate {
    pub cursors: Option<Vec<usize>>,
    pub styles: Option<Vec<StyleSpan>>,
}

/// The mathematical value of a [`LineUpdate`].
pub ghost struct LineUpdateView {
    pub cursors: Option<Seq<usize>>,
    pub styles: Option<Seq<StyleSpan>>,
}

impl View for LineUpdate {
    type V = LineUpdateView;

    open spec fn view(&self) -> LineUpdateView {
        LineUpdateView {
            cursors: match self.cursors {
                Some(ref c) => Some(c@),
                None => None,
            },
            styles: match self.styles {
                Some(ref s) => Some(s@),
                None => None,
            },
        }
    }
}

impl DeepView for LineUpdate {
    type V = LineUpdateView;

    open spec fn deep_view(&self) -> LineUpdateView {
        self@
    }
}

/// One operation of a patch.
pub enum PatchOp {
    /// Take the next `n` slots from the old cache unchanged.
    Copy(usize),
    /// Drop the next `n` slots from the old cache.
    Skip(usize),
    /// Append `n` invalid placeholders to the new cache.
    Invalidate(usize),
    /// Append the supplied literal lines to the new cache.
    Ins(Vec<Line>),
    /// Take `n` slots from the old cache, overlaying cursor and style
    /// fields from the supplied records while keeping the text.
    Update(usize, Vec<LineUpdate>),
}

/// The mathematical value of a [`PatchOp`].
pub ghost enum PatchOpView {
    Copy(nat),
    Skip(nat),
    Invalidate(nat),
    Ins(Seq<LineView>),
    Update(nat, Seq<LineUpdateView>),
}

impl DeepView for PatchOp {
    type V = PatchOpView;

    open spec fn deep_view(&self) -> PatchOpView {
        match self {
            PatchOp::Copy(n) => PatchOpView::Copy(*n as nat),
            PatchOp::Skip(n) => PatchOpView::Skip(*n as nat),
            PatchOp::Invalidate(n) => PatchOpView::Invalidate(*n as nat),
            PatchOp::Ins(lines) => PatchOpView::Ins(lines.deep_view()),
            PatchOp::Update(n, ups) => PatchOpView::Update(*n as nat, ups.deep_view()),
        }
    }
}

/// A patch: the operations, and the total line count the engine declares
/// for the document after the patch. The declared height is authoritative:
/// a patch whose operations build a cache of any other length is malformed.
pub struct Patch {
    pub ops: Vec<PatchOp>,
    pub height: usize,
}

/// The mathematical value of a [`Patch`].
pub ghost struct PatchView {
    pub ops: Seq<PatchOpView>,
    pub height: nat,
}

impl DeepView for Patch {
    type V = PatchView;

    open spec fn deep_view(&self) -> PatchView {
        PatchView { ops: self.ops.deep_view(), height: self.height as nat }
    }
}

/// Why a patch was rejected. A rejected patch leaves the cache unchanged.
#[derive(Clone, Copy, PartialEq, Eq, Structural, Debug)]
pub enum PatchError {
    /// An operation consumed slots beyond the end of the old cache.
    Overrun,
    /// The operations consumed fewer slots than the old cache holds.
    Underrun,
    /// The new cache's length differs from the declared height.
    HeightMismatch,
}

/// Overlay one update record on one slot: present fields of the record
/// replace the slot's cursors and styles, the text is kept. An invalid
/// slot stays invalid.
pub open spec fn overlay_slot(slot: Option<LineView>, up: LineUpdateView) -> Option<LineView> {
    match slot {
        Some(line) => Some(
            LineView {
                text: line.text,
                cursors: match up.cursors {
                    Some(c) => c,
                    None => line.cursors,
                },
                styles: match up.styles {
                    Some(s) => s,
                    None => line.styles,
                },
            },
        ),
        None => None,
    }
}

/// Overlay a sequence of update records on a sequence of slots, by index;
/// slots beyond the records are carried unchanged.
pub open spec fn overlay_seq(
    slots: Seq<Option<LineView>>,
    ups: Seq<LineUpdateView>,
) -> Seq<Option<LineView>> {
    Seq::new(
        slots.len(),
        |i: int|
            if 0 <= i < ups.len() {
                overlay_slot(slots[i], ups[i])
            } else {
                slots[i]
            },
    )
}

/// `n` invalid placeholder slots.
pub open spec fn invalid_slots(n: nat) -> Seq<Option<LineView>> {
    Seq::new(n, |i: int| None::<LineView>)
}

/// The supplied literal lines, each as a present slot.
pub open spec fn all_present(lines: Seq<LineView>) -> Seq<Option<LineView>> {
    Seq::new(lines.len(), |i: int| Some(lines[i]))
}

/// Run the operations against the old cache, starting with the consumption
/// cursor at index `i`. Returns the slots the remaining operations emit, or
/// the first error: `Overrun` when an operation consumes beyond the old
/// length, `Underrun` when the operations end with old slots left over.
pub open spec fn run_ops(
    old_cache: Seq<Option<LineView>>,
    ops: Seq<PatchOpView>,
    i: nat,
) -> Result<Seq<Option<LineView>>, PatchError>
    decreases ops.len(),
{
    if ops.len() == 0 {
        if i == old_cache.len() {
            Ok(Seq::empty())
        } else {
            Err(PatchError::Underrun)
        }
    } else {
        let rest_ops = ops.drop_first();
        match ops[0] {
            PatchOpView::Copy(n) => if i + n <= old_cache.len() {
                match run_ops(old_cache, rest_ops, i + n) {
                    Ok(rest) => Ok(old_cache.subrange(i as int, (i + n) as int) + rest),
                    Err(e) => Err(e),
                }
            } else {
                Err(PatchError::Overrun)
            },
            PatchOpView::Skip(n) => if i + n <= old_cache.len() {
                run_ops(old_cache, rest_ops, i + n)
            } else {
                Err(PatchError::Overrun)
            },
            PatchOpView::Invalidate(n) => match run_ops(old_cache, rest_ops, i) {
                Ok(rest) => Ok(invalid_slots(n) + rest),
                Err(e) => Err(e),
            },
            PatchOpView::Ins(lines) => match run_ops(old_cache, rest_ops, i) {
                Ok(rest) => Ok(all_present(lines) + rest),
                Err(e) => Err(e),
            },
            PatchOpView::Update(n, ups) => if i + n <= old_cache.len() {
                match run_ops(old_cache, rest_ops, i + n) {
                    Ok(rest) => Ok(overlay_seq(old_cache.subrange(i as int, (i + n) as int), ups) + rest),
                    Err(e) => Err(e),
                }
            } else {
                Err(PatchError::Overrun)
            },
        }
    }
}

/// What applying a patch yields: the new cache when the operations consume
/// exactly the old cache and build exactly the declared height, the first
/// error otherwise.
pub open spec fn apply_patch(
    old_cache: Seq<Option<LineView>>,
    p: PatchView,
) -> Result<Seq<Option<LineView>>, PatchError> {
    match run_ops(old_cache, p.ops, 0) {
        Ok(s) => if s.len() == p.height {
            Ok(s)
        } else {
            Err(PatchError::HeightMismatch)
        },
        Err(e) => Err(e),
    }
}

/// The new cache of an accepted patch has exactly the declared height, and
/// every index below it holds either a present line or an invalid slot.
pub proof fn lemma_apply_patch_len(old_cache: Seq<Option<LineView>>, p: PatchView)
    ensures
        apply_patch(old_cache, p) matches Ok(s) ==> s.len() == p.height,
{
}

/// A patch consisting solely of `copy` over the whole cache, declaring the
/// same height, is an identity on the cache.
pub proof fn lemma_copy_patch_identity(cache: Seq<Option<LineView>>)
    ensures
        apply_patch(
            cache,
            PatchView { ops: seq![PatchOpView::Copy(cache.len())], height: cache.len() },
        ) == Ok::<Seq<Option<LineView>>, PatchError>(cache),
{
    let ops = seq![PatchOpView::Copy(cache.len())];
    assert(ops.drop_first() =~= Seq::<PatchOpView>::empty());
    assert(run_ops(cache, ops.drop_first(), cache.len()) == Ok::<Seq<Option<LineView>>, PatchError>(Seq::empty()));
    assert(cache.subrange(0, cache.len() as int) + Seq::<Option<LineView>>::empty() =~= cache);
}

/// Copy a vector of plainly copyable values.
fn copy_vec<T: Copy>(v: &Vec<T>) -> (r: Vec<T>)
    ensures
        r@ == v@,
{
    let mut r: Vec<T> = Vec::new();
    let n = v.len();
    let mut i: usize = 0;
    while i < n
        invariant
            i <= n,
            n == v@.len(),
            r@ == v@.subrange(0, i as int),
        decreases n - i,
    {
        r.push(v[i]);
        assert(r@ =~= v@.subrange(0, i + 1));
        i += 1;
    }
    assert(r@ =~= v@);
    r
}

impl Line {
    /// A copy of the line with the same mathematical value.
    pub fn clone_line(&self) -> (r: Line)
        ensures
            r@ == self@,
    {
        Line {
            text: self.text.clone(),
            cursors: copy_vec(&self.cursors),
            styles: copy_vec(&self.styles),
        }
    }

    /// The line's text.
    pub fn text(&self) -> (r: &String)
        ensures
            r@ == self@.text,
    {
        &self.text
    }

    /// The byte offsets of the carets on this line.
    pub fn cursor(&self) -> (r: &Vec<usize>)
        ensures
            r@ == self@.cursors,
    {
        &self.cursors
    }
}

/// Push one slot, tracked at the level of slot views.
fn push_slot(v: &mut Vec<Option<Line>>, slot: Option<Line>)
    ensures
        final(v).deep_view() == old(v).deep_view().push(slot.deep_view()),
{
    let ghost gslot = slot.deep_view();
    v.push(slot);
    proof {
        assert forall|i: int| 0 <= i < v@.len() implies v.deep_view()[i] == old(
            v,
        ).deep_view().push(gslot)[i] by {
            if i < old(v)@.len() {
                assert(v@[i] == old(v)@[i]);
            } else {
                assert(v@[i] == slot);
            }
        }
        assert(v.deep_view() =~= old(v).deep_view().push(gslot));
    }
}

/// Clone one slot: a present line is copied, an invalid slot stays invalid.
fn clone_slot(slot: &Option<Line>) -> (r: Option<Line>)
    ensures
        r.deep_view() == slot.deep_view(),
{
    match slot {
        Some(line) => Some(line.clone_line()),
        None => None,
    }
}

/// The line cache itself: one slot per document line.
pub struct LineCache {
    lines: Vec<Option<Line>>,
}

impl View for LineCache {
    type V = Seq<Option<LineView>>;

    closed spec fn view(&self) -> Seq<Option<LineView>> {
        self.lines.deep_view()
    }
}

impl LineCache {
    /// An empty cache: the document has no lines yet.
    pub fn new() -> (r: LineCache)
        ensures
            r@ == Seq::<Option<LineView>>::empty(),
    {
        let r = LineCache { lines: Vec::new() };
        assert(r@ =~= Seq::<Option<LineView>>::empty());
        r
    }

    /// The total line count of the document, as the engine last declared it.
    pub fn height(&self) -> (r: usize)
        ensures
            r == self@.len(),
    {
        self.lines.len()
    }

    /// Replace the cache by applying a patch. A malformed patch — one
    /// whose operations consume past the end of the old cache, leave old
    /// slots unconsumed, or build a cache of a length other than the
    /// declared height — is rejected, and the cache stays unchanged;
    /// observers never see a half-applied state.
    pub fn apply_update(&mut self, patch: &Patch) -> (r: Result<(), PatchError>)
        ensures
            match apply_patch(old(self)@, patch.deep_view()) {
                Ok(s) => r == Ok::<(), PatchError>(()) && final(self)@ == s,
                Err(e) => r == Err::<(), PatchError>(e) && final(self)@ == old(self)@,
            },
    {
        let ghost old_cache = self@;
        let ghost pops = patch.deep_view().ops;
        let mut new_lines: Vec<Option<Line>> = Vec::new();
        let mut j: usize = 0;
        let n_ops: usize = patch.ops.len();
        let mut k: usize = 0;
        proof {
            assert(pops.skip(0) =~= pops);
            assert(new_lines.deep_view() =~= Seq::<Option<LineView>>::empty());
            let r0 = run_ops(old_cache, pops, 0);
            if r0 is Ok {
                assert(new_lines.deep_view() + r0->Ok_0 =~= r0->Ok_0);
            }
        }
        while k < n_ops
            invariant
                k <= n_ops,
                j <= self.lines.len(),
                n_ops == pops.len(),
                pops == patch.deep_view().ops,
                self@ == old(self)@,
                old_cache == old(self)@,
                match run_ops(old_cache, pops.skip(k as int), j as nat) {
                    Ok(rest) => run_ops(old_cache, pops, 0) == Ok::<Seq<Option<LineView>>, PatchError>(
                        new_lines.deep_view() + rest,
                    ),
                    Err(e) => run_ops(old_cache, pops, 0) == Err::<Seq<Option<LineView>>, PatchError>(e),
                },
            decreases n_ops - k,
        {
            let ghost pre_new = new_lines.deep_view();
            let ghost j0 = j as nat;
            proof {
                assert(pops.skip(k as int)[0] == pops[k as int]);
                assert(pops.skip(k as int).drop_first() =~= pops.skip(k as int + 1));
                assert(pops[k as int] == patch.ops@[k as int].deep_view());
            }
            match &patch.ops[k] {
                PatchOp::Copy(n) => {
                    let n: usize = *n;
                    if n > self.lines.len() - j {
                        return Err(PatchError::Overrun);
                    }
                    let mut t: usize = 0;
                    while t < n
                        invariant
                            t <= n,
                            j + n <= self.lines.len(),
                            self@ == old_cache,
                            new_lines.deep_view() == pre_new + old_cache.subrange(
                                j as int,
                                j + t,
                            ),
                        decreases n - t,
                    {
                        let slot = clone_slot(&self.lines[j + t]);
                        proof {
                            assert(old_cache[j + t] == self.lines@[j + t].deep_view());
                            assert(slot.deep_view() == old_cache[j + t]);
                        }
                        push_slot(&mut new_lines, slot);
                        proof {
                            assert(new_lines.deep_view() =~= pre_new + old_cache.subrange(
                                j as int,
                                j + t + 1,
                            ));
                        }
                        t += 1;
                    }
                    j = j + n;
                    proof {
                        let tail = run_ops(old_cache, pops.skip(k + 1), j as nat);
                        if tail is Ok {
                            let rest = tail->Ok_0;
                            assert(run_ops(old_cache, pops.skip(k as int), j0) == Ok::<
                                Seq<Option<LineView>>,
                                PatchError,
                            >(old_cache.subrange(j0 as int, j as int) + rest));
                            assert(pre_new + (old_cache.subrange(j0 as int, j as int) + rest)
                                =~= new_lines.deep_view() + rest);
                        }
                    }
                },
                PatchOp::Skip(n) => {
                    let n: usize = *n;
                    if n > self.lines.len() - j {
                        return Err(PatchError::Overrun);
                    }
                    j = j + n;
                },
                PatchOp::Invalidate(n) => {
                    let n: usize = *n;
                    let mut t: usize = 0;
                    while t < n
                        invariant
                            t <= n,
                            new_lines.deep_view() == pre_new + invalid_slots(t as nat),
                        decreases n - t,
                    {
                        push_slot(&mut new_lines, None);
                        proof {
                            assert(new_lines.deep_view() =~= pre_new + invalid_slots(
                                (t + 1) as nat,
                            ));
                        }
                        t += 1;
                    }
                    proof {
                        let tail = run_ops(old_cache, pops.skip(k + 1), j as nat);
                        if tail is Ok {
                            let rest = tail->Ok_0;
                            assert(pre_new + (invalid_slots(n as nat) + rest) =~= new_lines.deep_view()
                                + rest);
                        }
                    }
                },
                PatchOp::Ins(lines) => {
                    let ghost lv = lines.deep_view();
                    let n_lines: usize = lines.len();
                    let mut t: usize = 0;
                    while t < n_lines
                        invariant
                            t <= n_lines,
                            n_lines == lv.len(),
                            lv == lines.deep_view(),
                            new_lines.deep_view() == pre_new + all_present(lv).subrange(
                                0,
                                t as int,
                            ),
                        decreases n_lines - t,
                    {
                        let slot = Some(lines[t].clone_line());
                        proof {
                            assert(lv[t as int] == lines@[t as int].deep_view());
                            assert(slot.deep_view() == Some(lv[t as int]));
                            assert(all_present(lv)[t as int] == Some(lv[t as int]));
                        }
                        push_slot(&mut new_lines, slot);
                        proof {
                            assert(new_lines.deep_view() =~= pre_new + all_present(lv).subrange(
                                0,
                                t + 1,
                            ));
                        }
                        t += 1;
                    }
                    proof {
                        assert(all_present(lv).subrange(0, n_lines as int) =~= all_present(lv));
                        let tail = run_ops(old_cache, pops.skip(k + 1), j as nat);
                        if tail is Ok {
                            let rest = tail->Ok_0;
                            assert(pre_new + (all_present(lv) + rest) =~= new_lines.deep_view()
                                + rest);
                        }
                    }
                },
                PatchOp::Update(n, ups) => {
                    let n: usize = *n;
                    if n > self.lines.len() - j {
                        return Err(PatchError::Overrun);
                    }
                    let ghost upsv = ups.deep_view();
                    let ghost emitted = overlay_seq(
                        old_cache.subrange(j as int, j + n),
                        upsv,
                    );
                    let mut t: usize = 0;
                    while t < n
                        invariant
                            t <= n,
                            j + n <= self.lines.len(),
                            self@ == old_cache,
                            upsv == ups.deep_view(),
                            emitted == overlay_seq(old_cache.subrange(j as int, j + n), upsv),
                            new_lines.deep_view() == pre_new + emitted.subrange(0, t as int),
                        decreases n - t,
                    {
                        let new_slot: Option<Line> = match &self.lines[j + t] {
                            Some(line) => if t < ups.len() {
                                let cursors: Vec<usize> = match &ups[t].cursors {
                                    Some(c) => copy_vec(c),
                                    None => copy_vec(&line.cursors),
                                };
                                let styles: Vec<StyleSpan> = match &ups[t].styles {
                                    Some(sv) => copy_vec(sv),
                                    None => copy_vec(&line.styles),
                                };
                                Some(Line { text: line.text.clone(), cursors, styles })
                            } else {
                                Some(line.clone_line())
                            },
                            None => None,
                        };
                        proof {
                            assert(old_cache[j + t] == self.lines@[j + t].deep_view());
                            assert(old_cache.subrange(j as int, j + n)[t as int] == old_cache[j
                                + t]);
                            if t < ups@.len() {
                                assert(upsv[t as int] == ups@[t as int].deep_view());
                            }
                            assert(new_slot.deep_view() == emitted[t as int]);
                        }
                        push_slot(&mut new_lines, new_slot);
                        proof {
                            assert(new_lines.deep_view() =~= pre_new + emitted.subrange(
                                0,
                                t + 1,
                            ));
                        }
                        t += 1;
                    }
                    j = j + n;
                    proof {
                        assert(emitted.subrange(0, n as int) =~= emitted);
                        let tail = run_ops(old_cache, pops.skip(k + 1), j as nat);
                        if tail is Ok {
                            let rest = tail->Ok_0;
                            assert(run_ops(old_cache, pops.skip(k as int), j0) == Ok::<
                                Seq<Option<LineView>>,
                                PatchError,
                            >(emitted + rest));
                            assert(pre_new + (emitted + rest) =~= new_lines.deep_view() + rest);
                        }
                    }
                },
            }
            k += 1;
        }
        proof {
            assert(pops.skip(n_ops as int) =~= Seq::<PatchOpView>::empty());
        }
        if j != self.lines.len() {
            return Err(PatchError::Underrun);
        }
        proof {
            assert(new_lines.deep_view() + Seq::<Option<LineView>>::empty() =~= new_lines.deep_view());
        }
        if new_lines.len() != patch.height {
            return Err(PatchError::HeightMismatch);
        }
        self.lines = new_lines;
        Ok(())
    }

    /// The slot at index `n`: the line when it is present, nothing when the
    /// index is out of range or the slot is invalid.
    pub fn get_line(&self, n: usize) -> (r: Option<&Line>)
        ensures
            match r {
                Some(line) => n < self@.len() && self@[n as int] == Some(line@),
                None => n >= self@.len() || self@[n as int] is None,
            },
    {
        if n < self.lines.len() {
            match &self.lines[n] {
                Some(line) => Some(line),
                None => None,
            }
        } else {
            None
        }
    }
}

} // verus!
