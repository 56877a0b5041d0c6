//! Bookkeeping for the per-layer progress bars shown while an image is pulled.
//!
//! The tracker decides, for each pull event, which bar is touched, whether it
//! is new, and which display operations are applied to it, in order. Bars are
//! kept in the order in which they were added, which is the order in which
//! they are displayed; no two bars share a key.
use vstd::prelude::*;
use vstd::utf8::*;
use vstd::string::*;
use crate::text::same_text;

verus! {

broadcast use vstd::utf8::encode_utf8_decode_utf8;

/// The look of a bar.
#[derive(Clone, Copy, PartialEq, Eq, Structural, Debug)]
pub enum BarStyle {
    /// Bytes downloaded of a layer.
    Download,
    /// Bytes extracted of a layer.
    Extract,
    /// A plain status line.
    Status,
}

/// The byte counters that come with a pull event.
#[derive(Clone, Copy, Debug)]
pub struct ProgressDetail {
    pub current: Option<i64>,
    pub total: Option<i64>,
}

/// One event of an image pull.
#[derive(Debug)]
pub struct ImageInfo {
    /// The layer the event is about; none for events about the whole pull.
    pub id: Option<String>,
    pub status: Option<String>,
    pub progress_detail: Option<ProgressDetail>,
}

/// An event, its texts as character sequences.
pub struct ImageInfoView {
    pub id: Option<Seq<char>>,
    pub status: Option<Seq<char>>,
    pub progress_detail: Option<ProgressDetail>,
}

/// An optional text as an optional character sequence.
pub open spec fn opt_text(s: Option<String>) -> Option<Seq<char>> {
    match s {
        Some(t) => Some(t@),
        None => None,
    }
}

impl View for ImageInfo {
    type V = ImageInfoView;

    open spec fn view(&self) -> ImageInfoView {
        ImageInfoView {
            id: opt_text(self.id),
            status: opt_text(self.status),
            progress_detail: self.progress_detail,
        }
    }
}

/// A display operation on one bar.
#[derive(Debug)]
pub enum BarOp {
    SetStyle(BarStyle),
    SetPrefix(String),
    SetMessage(String),
    SetLength(u64),
    SetPosition(u64),
    FinishWithMessage(String),
}

/// A display operation, its texts as character sequences.
pub enum BarOpView {
    SetStyle(BarStyle),
    SetPrefix(Seq<char>),
    SetMessage(Seq<char>),
    SetLength(u64),
    SetPosition(u64),
    FinishWithMessage(Seq<char>),
}

impl View for BarOp {
    type V = BarOpView;

    open spec fn view(&self) -> BarOpView {
        match self {
            BarOp::SetStyle(s) => BarOpView::SetStyle(*s),
            BarOp::SetPrefix(p) => BarOpView::SetPrefix(p@),
            BarOp::SetMessage(m) => BarOpView::SetMessage(m@),
            BarOp::SetLength(n) => BarOpView::SetLength(*n),
            BarOp::SetPosition(n) => BarOpView::SetPosition(*n),
            BarOp::FinishWithMessage(m) => BarOpView::FinishWithMessage(m@),
        }
    }
}

/// Operations as their views.
pub open spec fn ops_view(ops: Seq<BarOp>) -> Seq<BarOpView> {
    ops.map_values(|o: BarOp| o@)
}

/// What one event does: the bar (by position), whether it was added by this
/// event, and the operations applied to it, in order.
#[derive(Debug)]
pub struct BarCommand {
    pub index: usize,
    pub added: bool,
    pub ops: Vec<BarOp>,
}

/// The state of one bar.
#[derive(Debug)]
pub struct BarState {
    pub key: String,
    pub style: BarStyle,
    pub prefix: String,
    pub message: String,
    pub length: u64,
    pub position: u64,
    pub finished: bool,
}

/// A bar, its texts as character sequences.
pub struct BarView {
    pub key: Seq<char>,
    pub style: BarStyle,
    pub prefix: Seq<char>,
    pub message: Seq<char>,
    pub length: u64,
    pub position: u64,
    pub finished: bool,
}

impl View for BarState {
    type V = BarView;

    open spec fn view(&self) -> BarView {
        BarView {
            key: self.key@,
            style: self.style,
            prefix: self.prefix@,
            message: self.message@,
            length: self.length,
            position: self.position,
            finished: self.finished,
        }
    }
}

/// A bar as it is when first added: empty, at zero, not finished.
pub open spec fn new_bar(key: Seq<char>) -> BarView {
    BarView {
        key,
        style: BarStyle::Status,
        prefix: Seq::empty(),
        message: Seq::empty(),
        length: 0,
        position: 0,
        finished: false,
    }
}

/// `b` after the operation `op`.
pub open spec fn apply_op(b: BarView, op: BarOpView) -> BarView {
    match op {
        BarOpView::SetStyle(s) => BarView { style: s, ..b },
        BarOpView::SetPrefix(p) => BarView { prefix: p, ..b },
        BarOpView::SetMessage(m) => BarView { message: m, ..b },
        BarOpView::SetLength(n) => BarView { length: n, ..b },
        BarOpView::SetPosition(n) => BarView { position: n, ..b },
        BarOpView::FinishWithMessage(m) => BarView { message: m, finished: true, ..b },
    }
}

/// `b` after the operations `ops`, first to last.
pub open spec fn apply_ops(b: BarView, ops: Seq<BarOpView>) -> BarView
    decreases ops.len(),
{
    if ops.len() == 0 {
        b
    } else {
        apply_op(apply_ops(b, ops.drop_last()), ops.last())
    }
}

/// The key of the bar for events that carry no layer id.
pub open spec fn status_key() -> Seq<char> {
    "__status__"@
}

/// The first 12 bytes of the UTF-8 encoding of `id`, as text, when the
/// encoding is longer than that; else `id`.
pub open spec fn short_id(id: Seq<char>) -> Seq<char> {
    if encode_utf8(id).len() > 12 {
        decode_utf8(encode_utf8(id).subrange(0, 12))
    } else {
        id
    }
}

/// `id` can be cut after its 12th byte: that byte ends a character.
pub open spec fn short_id_cuttable(id: Seq<char>) -> bool {
    encode_utf8(id).len() > 12 ==> is_char_boundary(encode_utf8(id), 12)
}

/// The events that the tracker accepts: a layer id can be shortened.
pub open spec fn info_acceptable(info: ImageInfoView) -> bool {
    info.id matches Some(id) ==> short_id_cuttable(id)
}

/// Some bar has the key `key`.
pub open spec fn has_key(bars: Seq<BarView>, key: Seq<char>) -> bool {
    exists|i: int| 0 <= i < bars.len() && bars[i].key == key
}

/// The position of the bar with key `key`.
pub open spec fn key_pos(bars: Seq<BarView>, key: Seq<char>) -> int
    recommends
        has_key(bars, key),
{
    choose|i: int| 0 <= i < bars.len() && bars[i].key == key
}

/// No two bars share a key.
pub open spec fn keys_distinct(bars: Seq<BarView>) -> bool {
    forall|i: int, j: int|
        0 <= i < bars.len() && 0 <= j < bars.len() && i != j ==> bars[i].key != bars[j].key
}

/// The operations that set a bar's length and position from the byte
/// counters, when both counters are present (each read as `u64`).
pub open spec fn detail_ops(d: Option<ProgressDetail>) -> Seq<BarOpView> {
    match d {
        Some(ProgressDetail { current: Some(c), total: Some(t) }) => seq![
            BarOpView::SetLength(t as u64),
            BarOpView::SetPosition(c as u64),
        ],
        _ => Seq::empty(),
    }
}

/// A plan: position, added, key of the bar, and operations.
pub type Plan = (int, bool, Seq<char>, Seq<BarOpView>);

/// Touch the bar with key `key`, adding it first (as a status bar whose prefix
/// is `short`) when there is none.
pub open spec fn touch(bars: Seq<BarView>, key: Seq<char>, short: Seq<char>, ops: Seq<BarOpView>) -> Option<Plan> {
    if has_key(bars, key) {
        Some((key_pos(bars, key), false, key, ops))
    } else {
        Some(
            (
                bars.len() as int,
                true,
                key,
                seq![BarOpView::SetStyle(BarStyle::Status), BarOpView::SetPrefix(short)] + ops,
            ),
        )
    }
}

/// What the tracker does for one event.
pub open spec fn plan(bars: Seq<BarView>, info: ImageInfoView) -> Option<Plan> {
    match info.id {
        None => match info.status {
            None => None,
            Some(st) => touch(
                bars,
                status_key(),
                "Status"@,
                seq![BarOpView::SetMessage(st)],
            ),
        },
        Some(id) => {
            let short = short_id(id);
            let st = match info.status {
                Some(s) => s,
                None => Seq::empty(),
            };
            if st == "Downloading"@ {
                touch(
                    bars,
                    id,
                    short,
                    seq![BarOpView::SetStyle(BarStyle::Download), BarOpView::SetPrefix(short + " dl"@)]
                        + detail_ops(info.progress_detail),
                )
            } else if st == "Extracting"@ {
                touch(
                    bars,
                    id,
                    short,
                    seq![BarOpView::SetStyle(BarStyle::Extract), BarOpView::SetPrefix(short + " ex"@)]
                        + detail_ops(info.progress_detail),
                )
            } else if st == "Pull complete"@ || st == "Already exists"@ {
                if has_key(bars, id) {
                    Some(
                        (
                            key_pos(bars, id),
                            false,
                            id,
                            seq![
                                BarOpView::SetStyle(BarStyle::Status),
                                BarOpView::SetPrefix(short),
                                BarOpView::FinishWithMessage(st),
                            ],
                        ),
                    )
                } else {
                    None
                }
            } else {
                touch(
                    bars,
                    id,
                    short,
                    seq![
                        BarOpView::SetStyle(BarStyle::Status),
                        BarOpView::SetPrefix(short),
                        BarOpView::SetMessage(st),
                    ],
                )
            }
        },
    }
}

/// The bars after carrying out `p`.
pub open spec fn carry_out(bars: Seq<BarView>, p: Option<Plan>) -> Seq<BarView> {
    match p {
        None => bars,
        Some((i, added, key, ops)) => {
            let base = if added {
                bars.push(new_bar(key))
            } else {
                bars
            };
            base.update(i, apply_ops(base[i], ops))
        },
    }
}

/// The bars after one event.
pub open spec fn step(bars: Seq<BarView>, info: ImageInfoView) -> Seq<BarView> {
    carry_out(bars, plan(bars, info))
}

/// A command as a plan without its key.
pub open spec fn command_view(c: Option<BarCommand>) -> Option<(int, bool, Seq<BarOpView>)> {
    match c {
        None => None,
        Some(c) => Some((c.index as int, c.added, ops_view(c.ops@))),
    }
}

/// What a plan tells the caller: position, added, operations.
pub open spec fn plan_command(p: Option<Plan>) -> Option<(int, bool, Seq<BarOpView>)> {
    match p {
        None => None,
        Some((i, added, _key, ops)) => Some((i, added, ops)),
    }
}

proof fn lemma_apply_ops_keeps_key(b: BarView, ops: Seq<BarOpView>)
    ensures
        apply_ops(b, ops).key == b.key,
    decreases ops.len(),
{
    if ops.len() > 0 {
        lemma_apply_ops_keeps_key(b, ops.drop_last());
    }
}

impl BarState {
    fn fresh(key: String) -> (b: BarState)
        ensures
            b@ == new_bar(key@),
    {
        BarState {
            key,
            style: BarStyle::Status,
            prefix: String::new(),
            message: String::new(),
            length: 0,
            position: 0,
            finished: false,
        }
    }

    fn apply(&mut self, op: &BarOp)
        ensures
            final(self)@ == apply_op(old(self)@, op@),
    {
        match op {
            BarOp::SetStyle(s) => self.style = *s,
            BarOp::SetPrefix(p) => self.prefix = p.clone(),
            BarOp::SetMessage(m) => self.message = m.clone(),
            BarOp::SetLength(n) => self.length = *n,
            BarOp::SetPosition(n) => self.position = *n,
            BarOp::FinishWithMessage(m) => {
                self.message = m.clone();
                self.finished = true;
            },
        }
    }

    fn apply_all(&mut self, ops: &Vec<BarOp>)
        ensures
            final(self)@ == apply_ops(old(self)@, ops_view(ops@)),
    {
        let ghost start = self@;
        let mut k: usize = 0;
        while k < ops.len()
            invariant
                k <= ops@.len(),
                self@ == apply_ops(start, ops_view(ops@.take(k as int))),
            decreases ops@.len() - k,
        {
            proof {
                assert(ops_view(ops@.take(k + 1)).drop_last() =~= ops_view(ops@.take(k as int)));
            }
            self.apply(&ops[k]);
            k = k + 1;
        }
        assert(ops@.take(ops@.len() as int) =~= ops@);
    }
}

/// `id` shortened for display: its first 12 bytes when it is longer.
pub fn shorten_id(id: &String) -> (r: String)
    requires
        short_id_cuttable(id@),
    ensures
        r@ == short_id(id@),
{
    let s = id.as_str();
    if s.as_bytes().len() > 12 {
        let (head, _tail) = s.split_at(12);
        proof {
            assert(s@ == id@);
            assert(head.spec_bytes() == encode_utf8(id@).subrange(0, 12));
            assert(decode_utf8(encode_utf8(head@)) == head@);
        }
        let r = head.to_owned();
        assert(r@ == head@);
        r
    } else {
        id.clone()
    }
}

/// The bars of a pull, in display order.
pub struct ProgressTracker {
    bars: Vec<BarState>,
}

impl View for ProgressTracker {
    type V = Seq<BarView>;

    closed spec fn view(&self) -> Seq<BarView> {
        self.bars@.map_values(|b: BarState| b@)
    }
}

impl ProgressTracker {
    /// The tracker's own invariant: no two bars share a key.
    pub open spec fn well_formed(&self) -> bool {
        keys_distinct(self@)
    }

    /// A tracker with no bars.
    pub fn new() -> (t: ProgressTracker)
        ensures
            t@ == Seq::<BarView>::empty(),
            t.well_formed(),
    {
        let t = ProgressTracker { bars: Vec::new() };
        assert(t@ =~= Seq::<BarView>::empty());
        t
    }

    /// The number of bars.
    pub fn len(&self) -> (n: usize)
        ensures
            n == self@.len(),
    {
        self.bars.len()
    }

    /// The bar at position `i`.
    pub fn bar(&self, i: usize) -> (b: &BarState)
        requires
            i < self@.len(),
        ensures
            b@ == self@[i as int],
    {
        &self.bars[i]
    }

    /// The position of the bar with key `key`, if there is one.
    pub fn find(&self, key: &String) -> (r: Option<usize>)
        requires
            self.well_formed(),
        ensures
            match r {
                Some(i) => has_key(self@, key@) && i == key_pos(self@, key@),
                None => !has_key(self@, key@),
            },
    {
        let n = self.bars.len();
        let mut i: usize = 0;
        while i < n
            invariant
                n == self@.len(),
                i <= n,
                self.well_formed(),
                forall|q: int| 0 <= q < i ==> self@[q].key != key@,
            decreases n - i,
        {
            if self.bars[i].key == *key {
                assert(self@[i as int].key == key@);
                return Some(i);
            }
            i = i + 1;
        }
        None
    }

    /// Position of the bar with key `key`, adding a status bar whose prefix
    /// is `short` when there is none, with the operations that the addition
    /// made.
    fn touch_bar(&mut self, key: &String, short: &String) -> (r: (usize, bool, Vec<BarOp>))
        requires
            old(self).well_formed(),
        ensures
            ({
                let p = touch(old(self)@, key@, short@, Seq::empty()).unwrap();
                &&& r.0 == p.0
                &&& r.1 == p.1
                &&& ops_view(r.2@) == p.3
                &&& final(self)@ == if r.1 {
                    old(self)@.push(new_bar(key@))
                } else {
                    old(self)@
                }
                &&& r.0 < final(self)@.len()
                &&& final(self).well_formed()
            }),
    {
        match self.find(key) {
            Some(i) => {
                let ops: Vec<BarOp> = Vec::new();
                proof {
                    assert(ops_view(ops@) =~= Seq::<BarOpView>::empty());
                }
                (i, false, ops)
            },
            None => {
                let i = self.bars.len();
                self.bars.push(BarState::fresh(key.clone()));
                let mut ops: Vec<BarOp> = Vec::new();
                ops.push(BarOp::SetStyle(BarStyle::Status));
                ops.push(BarOp::SetPrefix(short.clone()));
                proof {
                    assert(self@ =~= old(self)@.push(new_bar(key@)));
                    assert(ops_view(ops@) =~= seq![
                        BarOpView::SetStyle(BarStyle::Status),
                        BarOpView::SetPrefix(short@),
                    ] + Seq::<BarOpView>::empty());
                }
                (i, true, ops)
            },
        }
    }
}


impl ProgressTracker {
    /// Applies `ops` to the bar at position `i`.
    fn run(&mut self, i: usize, ops: &Vec<BarOp>)
        requires
            old(self).well_formed(),
            i < old(self)@.len(),
        ensures
            final(self)@ == old(self)@.update(i as int, apply_ops(old(self)@[i as int], ops_view(ops@))),
            final(self).well_formed(),
    {
        let mut b = BarState::fresh(String::new());
        self.bars.set_and_swap(i, &mut b);
        b.apply_all(ops);
        self.bars.set_and_swap(i, &mut b);
        proof {
            lemma_apply_ops_keeps_key(old(self)@[i as int], ops_view(ops@));
            assert(self@ =~= old(self)@.update(i as int, apply_ops(old(self)@[i as int], ops_view(ops@))));
        }
    }

    /// Records one event of the pull: touches the bar that the event is about
    /// and says what was done to it, or returns `None` when the event changes
    /// nothing.
    pub fn update(&mut self, info: &ImageInfo) -> (r: Option<BarCommand>)
        requires
            old(self).well_formed(),
            info_acceptable(info@),
        ensures
            final(self).well_formed(),
            final(self)@ == step(old(self)@, info@),
            command_view(r) == plan_command(plan(old(self)@, info@)),
    {
        let ghost bars = self@;
        match &info.id {
            None => match &info.status {
                None => None,
                Some(st) => {
                    let key = "__status__".to_string();
                    let label = "Status".to_string();
                    let (i, added, mut ops) = self.touch_bar(&key, &label);
                    ops.push(BarOp::SetMessage(st.clone()));
                    proof {
                        let p = touch(bars, status_key(), "Status"@, seq![BarOpView::SetMessage(st@)]);
                        let q = touch(bars, status_key(), "Status"@, Seq::empty());
                        assert(ops_view(ops@) =~= q.unwrap().3 + seq![BarOpView::SetMessage(st@)]);
                        assert(p.unwrap().3 =~= q.unwrap().3 + seq![BarOpView::SetMessage(st@)]);
                    }
                    self.run(i, &ops);
                    Some(BarCommand { index: i, added, ops })
                },
            },
            Some(id) => {
                let short = shorten_id(id);
                let status = match &info.status {
                    Some(st) => st.clone(),
                    None => String::new(),
                };
                let downloading = same_text(status.as_str(), "Downloading");
                let extracting = same_text(status.as_str(), "Extracting");
                if downloading || extracting {
                    let (i, added, mut ops) = self.touch_bar(id, &short);
                    let ghost before = ops_view(ops@);
                    let mut prefix = short.clone();
                    if downloading {
                        ops.push(BarOp::SetStyle(BarStyle::Download));
                        prefix.append(" dl");
                    } else {
                        ops.push(BarOp::SetStyle(BarStyle::Extract));
                        prefix.append(" ex");
                    }
                    ops.push(BarOp::SetPrefix(prefix));
                    let ghost mid = ops_view(ops@);
                    match &info.progress_detail {
                        Some(ProgressDetail { current: Some(c), total: Some(t) }) => {
                            ops.push(BarOp::SetLength(*t as u64));
                            ops.push(BarOp::SetPosition(*c as u64));
                        },
                        _ => {},
                    }
                    proof {
                        let style = if downloading { BarStyle::Download } else { BarStyle::Extract };
                        let pre = if downloading { short@ + " dl"@ } else { short@ + " ex"@ };
                        let tail = seq![BarOpView::SetStyle(style), BarOpView::SetPrefix(pre)]
                            + detail_ops(info@.progress_detail);
                        assert(mid =~= before + seq![BarOpView::SetStyle(style), BarOpView::SetPrefix(pre)]);
                        assert(ops_view(ops@) =~= before + tail);
                        let q = touch(bars, id@, short@, Seq::empty());
                        let p = touch(bars, id@, short@, tail);
                        assert(p.unwrap().3 =~= q.unwrap().3 + tail);
                    }
                    self.run(i, &ops);
                    Some(BarCommand { index: i, added, ops })
                } else if same_text(status.as_str(), "Pull complete") || same_text(
                    status.as_str(),
                    "Already exists",
                ) {
                    match self.find(id) {
                        Some(i) => {
                            let mut ops: Vec<BarOp> = Vec::new();
                            ops.push(BarOp::SetStyle(BarStyle::Status));
                            ops.push(BarOp::SetPrefix(short));
                            ops.push(BarOp::FinishWithMessage(status));
                            proof {
                                assert(ops_view(ops@) =~= seq![
                                    BarOpView::SetStyle(BarStyle::Status),
                                    BarOpView::SetPrefix(short_id(id@)),
                                    BarOpView::FinishWithMessage(status@),
                                ]);
                            }
                            self.run(i, &ops);
                            Some(BarCommand { index: i, added: false, ops })
                        },
                        None => None,
                    }
                } else {
                    let (i, added, mut ops) = self.touch_bar(id, &short);
                    let ghost before = ops_view(ops@);
                    ops.push(BarOp::SetStyle(BarStyle::Status));
                    ops.push(BarOp::SetPrefix(short.clone()));
                    ops.push(BarOp::SetMessage(status.clone()));
                    proof {
                        let tail = seq![
                            BarOpView::SetStyle(BarStyle::Status),
                            BarOpView::SetPrefix(short@),
                            BarOpView::SetMessage(status@),
                        ];
                        assert(ops_view(ops@) =~= before + tail);
                        let q = touch(bars, id@, short@, Seq::empty());
                        let p = touch(bars, id@, short@, tail);
                        assert(p.unwrap().3 =~= q.unwrap().3 + tail);
                    }
                    self.run(i, &ops);
                    Some(BarCommand { index: i, added, ops })
                }
            },
        }
    }
}

/// The plan of an event names a bar that exists after the event: an existing
/// one, or one added at the end under the key it was planned for.
proof fn lemma_plan_in_range(bars: Seq<BarView>, info: ImageInfoView)
    ensures
        plan(bars, info) matches Some((i, added, key, _ops)) ==> {
            &&& added ==> i == bars.len() && !has_key(bars, key)
            &&& !added ==> 0 <= i < bars.len() && bars[i].key == key
        },
{
}

/// An event never removes or reorders bars: the bars that were there keep
/// their positions and keys, and at most one bar is added, at the end.
pub proof fn lemma_bars_only_grow(bars: Seq<BarView>, info: ImageInfoView)
    ensures
        bars.len() <= step(bars, info).len() <= bars.len() + 1,
        forall|i: int| 0 <= i < bars.len() ==> #[trigger] step(bars, info)[i].key == bars[i].key,
{
    lemma_plan_in_range(bars, info);
    if let Some((i, added, key, ops)) = plan(bars, info) {
        let base = if added { bars.push(new_bar(key)) } else { bars };
        lemma_apply_ops_keeps_key(base[i], ops);
    }
}

/// An event changes at most one bar: every bar other than the one it names
/// stays as it was.
pub proof fn lemma_one_bar_per_event(bars: Seq<BarView>, info: ImageInfoView)
    ensures
        plan(bars, info) is None ==> step(bars, info) == bars,
        plan(bars, info) matches Some((k, _added, _key, _ops)) ==> forall|i: int|
            0 <= i < bars.len() && i != k ==> #[trigger] step(bars, info)[i] == bars[i],
{
    lemma_plan_in_range(bars, info);
}

/// The end of a layer ("Pull complete", "Already exists") never adds a bar:
/// it finishes the layer's bar if there is one and is ignored otherwise.
pub proof fn lemma_layer_end_adds_no_bar(bars: Seq<BarView>, info: ImageInfoView)
    requires
        info.id is Some,
        info.status == Some("Pull complete"@) || info.status == Some("Already exists"@),
    ensures
        step(bars, info).len() == bars.len(),
        !has_key(bars, info.id.unwrap()) ==> step(bars, info) == bars,
        has_key(bars, info.id.unwrap()) ==> step(bars, info)[key_pos(bars, info.id.unwrap())].finished,
{
    reveal_strlit("Pull complete");
    reveal_strlit("Already exists");
    reveal_strlit("Downloading");
    reveal_strlit("Extracting");
    lemma_plan_in_range(bars, info);
    let st = info.status.unwrap();
    assert(st.len() == 13 || st.len() == 14);
    assert("Downloading"@.len() == 11 && "Extracting"@.len() == 10);
    assert(st != "Downloading"@ && st != "Extracting"@);
    if has_key(bars, info.id.unwrap()) {
        let short = short_id(info.id.unwrap());
        let ops = seq![
            BarOpView::SetStyle(BarStyle::Status),
            BarOpView::SetPrefix(short),
            BarOpView::FinishWithMessage(st),
        ];
        let i = key_pos(bars, info.id.unwrap());
        assert(ops.drop_last().drop_last().drop_last() =~= Seq::<BarOpView>::empty());
        assert(apply_ops(bars[i], ops).finished);
    }
}

/// An event without a layer id touches no bar but the pull's status bar.
pub proof fn lemma_untagged_event_touches_status_bar_only(bars: Seq<BarView>, info: ImageInfoView)
    requires
        info.id is None,
    ensures
        forall|i: int|
            0 <= i < bars.len() && bars[i].key != status_key() ==> #[trigger] step(bars, info)[i]
                == bars[i],
{
    lemma_plan_in_range(bars, info);
}

proof fn lemma_apply_ops_concat(b: BarView, x: Seq<BarOpView>, y: Seq<BarOpView>)
    ensures
        apply_ops(b, x + y) == apply_ops(apply_ops(b, x), y),
    decreases y.len(),
{
    if y.len() == 0 {
        assert(x + y =~= x);
    } else {
        lemma_apply_ops_concat(b, x, y.drop_last());
        assert((x + y).drop_last() =~= x + y.drop_last());
        assert((x + y).last() == y.last());
    }
}

proof fn lemma_apply_ops_one(b: BarView, o1: BarOpView)
    ensures
        apply_ops(b, seq![o1]) == apply_op(b, o1),
{
    assert(seq![o1].drop_last() =~= Seq::<BarOpView>::empty());
    assert(apply_ops(b, Seq::<BarOpView>::empty()) == b);
    assert(seq![o1].last() == o1);
}

proof fn lemma_apply_ops_two(b: BarView, o1: BarOpView, o2: BarOpView)
    ensures
        apply_ops(b, seq![o1, o2]) == apply_op(apply_op(b, o1), o2),
{
    assert(seq![o1, o2].drop_last() =~= seq![o1]);
    assert(seq![o1, o2].last() == o2);
    lemma_apply_ops_one(b, o1);
}

proof fn lemma_apply_ops_three(b: BarView, o1: BarOpView, o2: BarOpView, o3: BarOpView)
    ensures
        apply_ops(b, seq![o1, o2, o3]) == apply_op(apply_op(apply_op(b, o1), o2), o3),
{
    assert(seq![o1, o2, o3].drop_last() =~= seq![o1, o2]);
    assert(seq![o1, o2, o3].last() == o3);
    lemma_apply_ops_two(b, o1, o2);
}

proof fn lemma_distinct_statuses()
    ensures
        "Downloading"@ != "Extracting"@,
        "Downloading"@ != "Pull complete"@,
        "Downloading"@ != "Already exists"@,
        "Extracting"@ != "Pull complete"@,
        "Extracting"@ != "Already exists"@,
        "Pull complete"@ != "Already exists"@,
{
    reveal_strlit("Downloading");
    reveal_strlit("Extracting");
    reveal_strlit("Pull complete");
    reveal_strlit("Already exists");
    assert("Downloading"@.len() == 11);
    assert("Extracting"@.len() == 10);
    assert("Pull complete"@.len() == 13);
    assert("Already exists"@.len() == 14);
}

/// Where the bar with key `key` is after an event that touches it: where it
/// was, or at the end when it is new.
pub open spec fn touched_pos(bars: Seq<BarView>, key: Seq<char>) -> int {
    if has_key(bars, key) {
        key_pos(bars, key)
    } else {
        bars.len() as int
    }
}

/// The bar with key `key` before an event: the one there is, or a new one.
pub open spec fn bar_before(bars: Seq<BarView>, key: Seq<char>) -> BarView {
    if has_key(bars, key) {
        bars[key_pos(bars, key)]
    } else {
        new_bar(key)
    }
}

/// The status of an event with a layer id, as shown: empty when it has none.
pub open spec fn shown_status(info: ImageInfoView) -> Seq<char> {
    match info.status {
        Some(s) => s,
        None => Seq::empty(),
    }
}

proof fn lemma_touched_bar(bars: Seq<BarView>, key: Seq<char>, short: Seq<char>, ops: Seq<BarOpView>)
    ensures
        carry_out(bars, touch(bars, key, short, ops)).len() == if has_key(bars, key) {
            bars.len()
        } else {
            bars.len() + 1
        },
        0 <= touched_pos(bars, key) < carry_out(bars, touch(bars, key, short, ops)).len(),
        carry_out(bars, touch(bars, key, short, ops))[touched_pos(bars, key)] == if has_key(
            bars,
            key,
        ) {
            apply_ops(bar_before(bars, key), ops)
        } else {
            apply_ops(
                apply_ops(
                    bar_before(bars, key),
                    seq![BarOpView::SetStyle(BarStyle::Status), BarOpView::SetPrefix(short)],
                ),
                ops,
            )
        },
{
    if !has_key(bars, key) {
        lemma_apply_ops_concat(
            new_bar(key),
            seq![BarOpView::SetStyle(BarStyle::Status), BarOpView::SetPrefix(short)],
            ops,
        );
    }
}

/// Download and extraction progress of a layer: after an event with a layer
/// id and status `Downloading` (or `Extracting`), the layer's bar (the one
/// it had, else a new one at the end) has the download (extract) style, the
/// prefix of the short id then ` dl` (` ex`), and, when the event carries
/// both counters, the total as its length and the current count as its
/// position (each read as `u64`); without both counters its length and
/// position stay as they were (zero for a new bar). Its message and whether
/// it is finished do not change.
pub proof fn lemma_layer_progress_bar(bars: Seq<BarView>, info: ImageInfoView)
    requires
        info.id is Some,
        info.status == Some("Downloading"@) || info.status == Some("Extracting"@),
    ensures
        ({
            let id = info.id.unwrap();
            let after = step(bars, info);
            let k = touched_pos(bars, id);
            let before = bar_before(bars, id);
            let downloading = info.status == Some("Downloading"@);
            &&& after.len() == if has_key(bars, id) { bars.len() } else { bars.len() + 1 }
            &&& 0 <= k < after.len()
            &&& after[k].key == id
            &&& after[k].style == if downloading { BarStyle::Download } else { BarStyle::Extract }
            &&& after[k].prefix == short_id(id) + if downloading { " dl"@ } else { " ex"@ }
            &&& after[k].message == before.message
            &&& after[k].finished == before.finished
            &&& match info.progress_detail {
                Some(ProgressDetail { current: Some(c), total: Some(t) }) => after[k].length
                    == t as u64 && after[k].position == c as u64,
                _ => after[k].length == before.length && after[k].position == before.position,
            }
        }),
{
    lemma_distinct_statuses();
    let id = info.id.unwrap();
    let short = short_id(id);
    let downloading = info.status == Some("Downloading"@);
    let style = if downloading { BarStyle::Download } else { BarStyle::Extract };
    let pre = short + if downloading { " dl"@ } else { " ex"@ };
    let mid = seq![BarOpView::SetStyle(style), BarOpView::SetPrefix(pre)];
    let d = detail_ops(info.progress_detail);
    let ops = mid + d;
    assert(plan(bars, info) == touch(bars, id, short, ops));
    lemma_touched_bar(bars, id, short, ops);
    let start = if has_key(bars, id) {
        bar_before(bars, id)
    } else {
        apply_ops(
            bar_before(bars, id),
            seq![BarOpView::SetStyle(BarStyle::Status), BarOpView::SetPrefix(short)],
        )
    };
    lemma_apply_ops_two(
        bar_before(bars, id),
        BarOpView::SetStyle(BarStyle::Status),
        BarOpView::SetPrefix(short),
    );
    lemma_apply_ops_concat(start, mid, d);
    lemma_apply_ops_two(start, BarOpView::SetStyle(style), BarOpView::SetPrefix(pre));
    let m = apply_ops(start, mid);
    match info.progress_detail {
        Some(ProgressDetail { current: Some(c), total: Some(t) }) => {
            lemma_apply_ops_two(m, BarOpView::SetLength(t as u64), BarOpView::SetPosition(c as u64));
        },
        _ => {
            assert(d =~= Seq::<BarOpView>::empty());
        },
    }
    if has_key(bars, id) {
        lemma_apply_ops_keeps_key(bars[key_pos(bars, id)], ops);
    }
}

/// Any other status of a layer (none counts as empty): after the event the
/// layer's bar (the one it had, else a new one at the end) has the status
/// style, the short id as prefix and the status as message; its length,
/// position and whether it is finished do not change.
pub proof fn lemma_layer_status_bar(bars: Seq<BarView>, info: ImageInfoView)
    requires
        info.id is Some,
        shown_status(info) != "Downloading"@,
        shown_status(info) != "Extracting"@,
        shown_status(info) != "Pull complete"@,
        shown_status(info) != "Already exists"@,
    ensures
        ({
            let id = info.id.unwrap();
            let after = step(bars, info);
            let k = touched_pos(bars, id);
            let before = bar_before(bars, id);
            &&& after.len() == if has_key(bars, id) { bars.len() } else { bars.len() + 1 }
            &&& 0 <= k < after.len()
            &&& after[k].key == id
            &&& after[k].style == BarStyle::Status
            &&& after[k].prefix == short_id(id)
            &&& after[k].message == shown_status(info)
            &&& after[k].length == before.length
            &&& after[k].position == before.position
            &&& after[k].finished == before.finished
        }),
{
    let id = info.id.unwrap();
    let short = short_id(id);
    let st = shown_status(info);
    let ops = seq![
        BarOpView::SetStyle(BarStyle::Status),
        BarOpView::SetPrefix(short),
        BarOpView::SetMessage(st),
    ];
    assert(plan(bars, info) == touch(bars, id, short, ops));
    lemma_touched_bar(bars, id, short, ops);
    let start = if has_key(bars, id) {
        bar_before(bars, id)
    } else {
        apply_ops(
            bar_before(bars, id),
            seq![BarOpView::SetStyle(BarStyle::Status), BarOpView::SetPrefix(short)],
        )
    };
    lemma_apply_ops_two(
        bar_before(bars, id),
        BarOpView::SetStyle(BarStyle::Status),
        BarOpView::SetPrefix(short),
    );
    lemma_apply_ops_three(start, ops[0], ops[1], ops[2]);
    if has_key(bars, id) {
        lemma_apply_ops_keeps_key(bars[key_pos(bars, id)], ops);
    }
}

/// The end of a known layer: after "Pull complete" or "Already exists" for a
/// layer that has a bar, the bar is finished with the status as its message,
/// the status style and the short id as prefix; its length and position do
/// not change.
pub proof fn lemma_layer_end_finishes_bar(bars: Seq<BarView>, info: ImageInfoView)
    requires
        info.id is Some,
        has_key(bars, info.id.unwrap()),
        info.status == Some("Pull complete"@) || info.status == Some("Already exists"@),
    ensures
        ({
            let id = info.id.unwrap();
            let after = step(bars, info);
            let k = key_pos(bars, id);
            &&& after.len() == bars.len()
            &&& 0 <= k < after.len()
            &&& after[k].key == id
            &&& after[k].finished
            &&& after[k].message == info.status.unwrap()
            &&& after[k].style == BarStyle::Status
            &&& after[k].prefix == short_id(id)
            &&& after[k].length == bars[k].length
            &&& after[k].position == bars[k].position
        }),
{
    lemma_distinct_statuses();
    let id = info.id.unwrap();
    let k = key_pos(bars, id);
    let ops = seq![
        BarOpView::SetStyle(BarStyle::Status),
        BarOpView::SetPrefix(short_id(id)),
        BarOpView::FinishWithMessage(info.status.unwrap()),
    ];
    lemma_apply_ops_three(bars[k], ops[0], ops[1], ops[2]);
}

/// Events about the whole pull: after an event without a layer id that has
/// a status, the status bar (key `__status__`; the one there is, else a new
/// one at the end with the status style and prefix `Status`) shows the
/// status as its message; nothing else of it changes.
pub proof fn lemma_untagged_status_message(bars: Seq<BarView>, info: ImageInfoView)
    requires
        info.id is None,
        info.status is Some,
    ensures
        ({
            let after = step(bars, info);
            let k = touched_pos(bars, status_key());
            let before = bar_before(bars, status_key());
            &&& after.len() == if has_key(bars, status_key()) { bars.len() } else { bars.len() + 1 }
            &&& 0 <= k < after.len()
            &&& after[k].key == status_key()
            &&& after[k].message == info.status.unwrap()
            &&& after[k].style == if has_key(bars, status_key()) { before.style } else { BarStyle::Status }
            &&& after[k].prefix == if has_key(bars, status_key()) { before.prefix } else { "Status"@ }
            &&& after[k].length == before.length
            &&& after[k].position == before.position
            &&& after[k].finished == before.finished
        }),
{
    let key = status_key();
    let ops = seq![BarOpView::SetMessage(info.status.unwrap())];
    assert(plan(bars, info) == touch(bars, key, "Status"@, ops));
    lemma_touched_bar(bars, key, "Status"@, ops);
    lemma_apply_ops_one(bar_before(bars, key), ops[0]);
    lemma_apply_ops_one(
        apply_ops(
            bar_before(bars, key),
            seq![BarOpView::SetStyle(BarStyle::Status), BarOpView::SetPrefix("Status"@)],
        ),
        ops[0],
    );
    lemma_apply_ops_two(
        bar_before(bars, key),
        BarOpView::SetStyle(BarStyle::Status),
        BarOpView::SetPrefix("Status"@),
    );
    if has_key(bars, key) {
        lemma_apply_ops_keeps_key(bars[key_pos(bars, key)], ops);
    }
}

} // verus!
