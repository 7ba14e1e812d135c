//! Putting the model's streamed answer together, fragment by fragment.

use crate::error::{
    text_outcome, SmartCommitterError, SmartCommitterErrorKind, SmartCommitterErrorView,
};
use crate::text::optional_text;
use vstd::prelude::*;
use vstd::string::*;

verus! {

/// The words shown while the answer arrives.
pub const PROGRESS_LABEL: &'static str = "Drafting diff message";

/// The message of the error for a stream that broke off.
pub const STREAM_FAILED: &'static str = "Failed to fetch output from the LLM.";

/// One incremental unit of the streamed answer: what it adds to the content
/// and what it adds to the reasoning, each of which may be absent.
#[derive(Debug, Clone, PartialEq, Eq)]
pub struct ResponseFragment {
    pub content: Option<String>,
    pub reasoning_content: Option<String>,
}

pub struct ResponseFragmentView {
    pub content: Option<Seq<char>>,
    pub reasoning_content: Option<Seq<char>>,
}

impl View for ResponseFragment {
    type V = ResponseFragmentView;

    open spec fn view(&self) -> ResponseFragmentView {
        ResponseFragmentView {
            content: optional_text(self.content),
            reasoning_content: optional_text(self.reasoning_content),
        }
    }
}

/// The text that an optional addition adds: nothing where it is absent.
pub open spec fn added(addition: Option<Seq<char>>) -> Seq<char> {
    match addition {
        Some(t) => t,
        None => Seq::<char>::empty(),
    }
}

/// The content of a message after a fragment was applied to it.
pub open spec fn content_after(content: Seq<char>, fragment: ResponseFragmentView) -> Seq<char> {
    content + added(fragment.content)
}

/// The reasoning of a message after a fragment was applied to it: it stays
/// absent until a fragment adds to it.
pub open spec fn reasoning_after(reasoning: Option<Seq<char>>, fragment: ResponseFragmentView)
    -> Option<Seq<char>> {
    match fragment.reasoning_content {
        Some(t) => Some(added(reasoning) + t),
        None => reasoning,
    }
}

/// Applies a fragment to a message by `ChatMessage::apply_model_response_chunk`
/// of the crate `nah_chat`. The message is made of `content` and `reasoning`
/// and has no role and no tool calls; the chunk is made of the fragment and
/// has neither. Not verified: the contract says what that method does to the
/// two fields, which is to append what the chunk holds for each.
#[verifier::external_body]
fn apply_model_response_chunk(
    content: String,
    reasoning: Option<String>,
    fragment: ResponseFragment,
) -> (after: (String, Option<String>))
    ensures
        after.0@ == content_after(content@, fragment@),
        optional_text(after.1) == reasoning_after(optional_text(reasoning), fragment@),
{
    let mut message = nah_chat::ChatMessage::new();
    message.content = content;
    message.reasoning_content = reasoning;
    message.apply_model_response_chunk(
        nah_chat::ChatResponseChunkDelta {
            role: None,
            content: fragment.content,
            reasoning_content: fragment.reasoning_content,
            tool_calls: None,
        },
    );
    (message.content, message.reasoning_content)
}

/// The number of cells of the progress bar.
pub const PROGRESS_CELLS: u8 = 10;

/// The progress bar with `cells` of its ten cells filled, from the left.
pub open spec fn progress_bar(cells: nat) -> Seq<char> {
    Seq::new(PROGRESS_CELLS as nat, |i: int| if i < cells { '.' } else { ' ' })
}

/// What an accumulator holds.
pub struct StreamAccumulatorView {
    /// The content put together so far.
    pub content: Seq<char>,
    /// The reasoning put together so far; it is never handed on.
    pub reasoning: Option<Seq<char>>,
    /// Whether a fragment has arrived.
    pub started: bool,
    /// The number of filled cells of the progress bar.
    pub cells: nat,
}

impl StreamAccumulatorView {
    /// Before the first fragment.
    pub open spec fn initial() -> StreamAccumulatorView {
        StreamAccumulatorView {
            content: Seq::<char>::empty(),
            reasoning: None,
            started: false,
            cells: 0,
        }
    }

    /// After one more fragment: its additions are appended, and the progress
    /// bar gains a cell, or is empty again after the tenth.
    pub open spec fn apply(self, fragment: ResponseFragmentView) -> StreamAccumulatorView {
        StreamAccumulatorView {
            content: content_after(self.content, fragment),
            reasoning: reasoning_after(self.reasoning, fragment),
            started: true,
            cells: (self.cells + 1) % (PROGRESS_CELLS as nat),
        }
    }

    /// After the given fragments, applied in their order.
    pub open spec fn apply_all(self, fragments: Seq<ResponseFragmentView>) -> StreamAccumulatorView
        decreases fragments.len(),
    {
        if fragments.len() == 0 {
            self
        } else {
            self.apply_all(fragments.drop_last()).apply(fragments.last())
        }
    }

    /// The text that shows the progress on the diagnostic stream: the label
    /// alone before the first fragment; after it a carriage return, the
    /// label and the bar, so that the line is drawn over the one before.
    pub open spec fn progress(self) -> Seq<char> {
        if self.started {
            seq!['\r'] + PROGRESS_LABEL@ + progress_bar(self.cells)
        } else {
            PROGRESS_LABEL@
        }
    }
}

/// Puts the streamed answer together and keeps the state of the progress bar.
#[derive(Debug, PartialEq, Eq)]
pub struct StreamAccumulator {
    content: String,
    reasoning: Option<String>,
    started: bool,
    cells: u8,
}

impl View for StreamAccumulator {
    type V = StreamAccumulatorView;

    closed spec fn view(&self) -> StreamAccumulatorView {
        StreamAccumulatorView {
            content: self.content@,
            reasoning: optional_text(self.reasoning),
            started: self.started,
            cells: self.cells as nat,
        }
    }
}

impl StreamAccumulator {
    #[verifier::type_invariant]
    spec fn well_formed(self) -> bool {
        self.cells < PROGRESS_CELLS
    }

    /// An accumulator that has seen no fragment.
    pub fn new() -> (accumulator: StreamAccumulator)
        ensures
            accumulator@ == StreamAccumulatorView::initial(),
    {
        StreamAccumulator { content: String::new(), reasoning: None, started: false, cells: 0 }
    }

    /// Takes in the next fragment.
    pub fn apply(self, fragment: ResponseFragment) -> (after: StreamAccumulator)
        ensures
            after@ == self@.apply(fragment@),
    {
        proof {
            use_type_invariant(&self);
        }
        let cells: u8 = if self.cells + 1 >= PROGRESS_CELLS {
            0
        } else {
            self.cells + 1
        };
        let (content, reasoning) = apply_model_response_chunk(
            self.content,
            self.reasoning,
            fragment,
        );
        StreamAccumulator { content, reasoning, started: true, cells }
    }

    /// The text to show on the diagnostic stream now.
    pub fn progress(&self) -> (line: String)
        ensures
            line@ == self@.progress(),
            self@.cells < PROGRESS_CELLS,
    {
        proof {
            use_type_invariant(self);
        }
        if !self.started {
            return PROGRESS_LABEL.to_owned();
        }
        proof {
            reveal_strlit("\r");
            reveal_strlit(".");
            reveal_strlit(" ");
        }
        let mut line: String = "\r".to_owned();
        line.append(PROGRESS_LABEL);
        let ghost head = line@;
        assert(head =~= seq!['\r'] + PROGRESS_LABEL@);
        let mut i: u8 = 0;
        while i < PROGRESS_CELLS
            invariant
                i <= PROGRESS_CELLS,
                self.cells < PROGRESS_CELLS,
                line@ == head + progress_bar(self.cells as nat).take(i as int),
            decreases PROGRESS_CELLS - i,
        {
            proof {
                reveal_strlit(".");
                reveal_strlit(" ");
            }
            let ghost before = line@;
            if i < self.cells {
                line.append(".");
                assert(line@ =~= before.push('.'));
            } else {
                line.append(" ");
                assert(line@ =~= before.push(' '));
            }
            assert(progress_bar(self.cells as nat).take(i + 1) =~= progress_bar(
                self.cells as nat,
            ).take(i as int).push(progress_bar(self.cells as nat)[i as int]));
            assert(line@ =~= head + progress_bar(self.cells as nat).take(i + 1));
            i = i + 1;
        }
        assert(progress_bar(self.cells as nat).take(PROGRESS_CELLS as int) =~= progress_bar(
            self.cells as nat,
        ));
        line
    }

    /// Ends the accumulation and hands out the content. The reasoning is
    /// dropped.
    pub fn finish(self) -> (message: String)
        ensures
            message@ == self@.content,
    {
        self.content
    }
}

/// What the stream hands over at one step: a fragment, or the text of the
/// error that ended the stream.
pub open spec fn item_view(item: Result<ResponseFragment, String>) -> Result<
    ResponseFragmentView,
    Seq<char>,
> {
    match item {
        Ok(fragment) => Ok(fragment@),
        Err(cause) => Err(cause@),
    }
}

/// What the stream handed over, in the order of arrival.
pub open spec fn items_view(items: Seq<Result<ResponseFragment, String>>) -> Seq<
    Result<ResponseFragmentView, Seq<char>>,
> {
    Seq::new(items.len(), |i: int| item_view(items[i]))
}

/// The error for a stream that broke off with `cause`.
pub open spec fn model_failure(cause: Seq<char>) -> SmartCommitterErrorView {
    SmartCommitterErrorView {
        source: Some(cause),
        kind: SmartCommitterErrorKind::ModelError,
        message: STREAM_FAILED@,
    }
}

/// What the content additions of the fragments make when they are put one
/// after the other.
pub open spec fn contents(fragments: Seq<ResponseFragmentView>) -> Seq<char>
    decreases fragments.len(),
{
    if fragments.len() == 0 {
        Seq::<char>::empty()
    } else {
        contents(fragments.drop_last()) + added(fragments.last().content)
    }
}

/// Whether the item at `k` is an error and none before it is.
pub open spec fn is_first_failure(
    items: Seq<Result<ResponseFragmentView, Seq<char>>>,
    k: int,
) -> bool {
    &&& 0 <= k < items.len()
    &&& items[k] is Err
    &&& forall|j: int| 0 <= j < k ==> (#[trigger] items[j]) is Ok
}

/// Whether no item is an error.
pub open spec fn all_fragments(items: Seq<Result<ResponseFragmentView, Seq<char>>>) -> bool {
    forall|j: int| 0 <= j < items.len() ==> (#[trigger] items[j]) is Ok
}

/// The fragments of a stream without an error.
pub open spec fn fragments_of(items: Seq<Result<ResponseFragmentView, Seq<char>>>) -> Seq<
    ResponseFragmentView,
> {
    Seq::new(items.len(), |i: int| items[i]->Ok_0)
}

/// The result of a whole stream: the contents of its fragments where none of
/// its items is an error, else the error for the first item that is one.
pub open spec fn accumulated(items: Seq<Result<ResponseFragmentView, Seq<char>>>) -> Result<
    Seq<char>,
    SmartCommitterErrorView,
> {
    if all_fragments(items) {
        Ok(contents(fragments_of(items)))
    } else {
        let k = choose|k: int| is_first_failure(items, k);
        Err(model_failure(items[k]->Err_0))
    }
}

/// A stream with an error has exactly one first error.
pub proof fn lemma_first_failure(items: Seq<Result<ResponseFragmentView, Seq<char>>>)
    requires
        !all_fragments(items),
    ensures
        exists|k: int| is_first_failure(items, k),
        forall|k: int, l: int| is_first_failure(items, k) && is_first_failure(items, l) ==> k == l,
    decreases items.len(),
{
    if items.len() > 0 {
        let front = items.drop_last();
        if all_fragments(front) {
            assert(items.last() is Err) by {
                if items.last() is Ok {
                    assert forall|j: int| 0 <= j < items.len() implies (#[trigger] items[j]) is Ok by {
                        if j < front.len() {
                            assert(front[j] is Ok);
                        }
                    }
                }
            }
            assert forall|j: int| 0 <= j < items.len() - 1 implies (#[trigger] items[j]) is Ok by {
                assert(front[j] is Ok);
            }
            assert(is_first_failure(items, items.len() - 1));
        } else {
            lemma_first_failure(front);
            let k = choose|k: int| is_first_failure(front, k);
            assert forall|j: int| 0 <= j < k implies (#[trigger] items[j]) is Ok by {
                assert(front[j] is Ok);
            }
            assert(items[k] == front[k]);
            assert(is_first_failure(items, k));
        }
    }
    assert forall|k: int, l: int|
        is_first_failure(items, k) && is_first_failure(items, l) implies k == l by {
        if k < l {
            assert(items[k] is Ok);
        }
        if l < k {
            assert(items[l] is Ok);
        }
    }
}

/// Order is kept: the contents of two runs of fragments, one after the other,
/// are the contents of the first followed by the contents of the second. So
/// the result depends on the order of the additions and not on where the
/// text is cut into fragments.
pub proof fn law_contents_in_order(a: Seq<ResponseFragmentView>, b: Seq<ResponseFragmentView>)
    ensures
        contents(a + b) == contents(a) + contents(b),
        contents(Seq::<ResponseFragmentView>::empty()) == Seq::<char>::empty(),
        forall|f: ResponseFragmentView| #[trigger] contents(seq![f]) == added(f.content),
    decreases b.len(),
{
    assert forall|f: ResponseFragmentView| #[trigger] contents(seq![f]) == added(f.content) by {
        assert(seq![f].drop_last() =~= Seq::<ResponseFragmentView>::empty());
        assert(contents(seq![f].drop_last()) + added(f.content) =~= added(f.content));
    }
    if b.len() == 0 {
        assert(a + b =~= a);
        assert(contents(a) + contents(b) =~= contents(a));
    } else {
        law_contents_in_order(a, b.drop_last());
        assert((a + b).drop_last() =~= a + b.drop_last());
        assert((a + b).last() == b.last());
        assert(contents(a + b) =~= contents(a) + contents(b));
    }
}

/// A stream without an error gives the contents of all its fragments, in
/// the order of arrival; the accumulator that took them one by one holds
/// the same.
pub proof fn law_order_preserved(items: Seq<Result<ResponseFragmentView, Seq<char>>>)
    requires
        all_fragments(items),
    ensures
        accumulated(items) == Ok::<Seq<char>, SmartCommitterErrorView>(
            contents(fragments_of(items)),
        ),
        StreamAccumulatorView::initial().apply_all(fragments_of(items)).content == contents(
            fragments_of(items),
        ),
{
    lemma_apply_all_content(fragments_of(items));
}

/// An accumulator that took fragments one by one holds their contents.
pub proof fn lemma_apply_all_content(fragments: Seq<ResponseFragmentView>)
    ensures
        StreamAccumulatorView::initial().apply_all(fragments).content == contents(fragments),
    decreases fragments.len(),
{
    if fragments.len() > 0 {
        lemma_apply_all_content(fragments.drop_last());
    }
}

/// An error cuts the stream short: where an item is an error, the result
/// is a model error; it is the error for the first such item, and nothing
/// that stands after that item has any part in it.
pub proof fn law_error_short_circuits(
    items: Seq<Result<ResponseFragmentView, Seq<char>>>,
    k: int,
)
    requires
        0 <= k < items.len(),
        items[k] is Err,
    ensures
        accumulated(items) is Err,
        accumulated(items)->Err_0.kind == SmartCommitterErrorKind::ModelError,
        is_first_failure(items, k) ==> accumulated(items) == Err::<
            Seq<char>,
            SmartCommitterErrorView,
        >(model_failure(items[k]->Err_0)),
        is_first_failure(items, k) ==> forall|other: Seq<Result<ResponseFragmentView, Seq<char>>>|
            other.len() > k && other.take(k + 1) == items.take(k + 1) ==> #[trigger] accumulated(
                other,
            ) == accumulated(items),
{
    assert(!all_fragments(items));
    lemma_first_failure(items);
    if is_first_failure(items, k) {
        assert forall|other: Seq<Result<ResponseFragmentView, Seq<char>>>|
            other.len() > k && other.take(k + 1) == items.take(k + 1) implies #[trigger] accumulated(
            other,
        ) == accumulated(items) by {
            assert forall|j: int| 0 <= j <= k implies other[j] == items[j] by {
                assert(other.take(k + 1)[j] == other[j]);
                assert(items.take(k + 1)[j] == items[j]);
            }
            assert(is_first_failure(other, k));
            assert(!all_fragments(other));
            lemma_first_failure(other);
        }
    }
}

/// The error that ends the drafting when the stream breaks off.
pub fn stream_failure(cause: String) -> (e: SmartCommitterError)
    ensures
        e@ == model_failure(cause@),
{
    SmartCommitterError::new(
        SmartCommitterErrorKind::ModelError,
        STREAM_FAILED.to_owned(),
        Some(cause),
    )
}

/// Puts a whole stream together: takes the items in the order of arrival,
/// stops at the first that is an error and returns the error for it; where
/// there is none, returns the content that the fragments add up to. A stream
/// without items gives the empty message.
pub fn accumulate(items: Vec<Result<ResponseFragment, String>>) -> (r: Result<
    String,
    SmartCommitterError,
>)
    ensures
        text_outcome(r) == accumulated(items_view(items@)),
{
    let ghost all = items_view(items@);
    let mut accumulator: StreamAccumulator = StreamAccumulator::new();
    let total: usize = items.len();
    let mut seen: usize = 0;
    assert(fragments_of(all.take(0)) =~= Seq::<ResponseFragmentView>::empty());
    for item in it: items
        invariant
            it.seq() == items@,
            all == items_view(items@),
            seen == it.index(),
            total == items@.len(),
            all_fragments(all.take(seen as int)),
            accumulator@.content == contents(fragments_of(all.take(seen as int))),
    {
        assert(item_view(item) == all[seen as int]);
        match item {
            Ok(fragment) => {
                accumulator = accumulator.apply(fragment);
                proof {
                    let now = all.take(seen + 1);
                    assert(now.drop_last() =~= all.take(seen as int));
                    assert(fragments_of(now).drop_last() =~= fragments_of(all.take(seen as int)));
                    assert(fragments_of(now).last() == fragment@);
                    assert forall|j: int| 0 <= j < now.len() implies (#[trigger] now[j]) is Ok by {
                        if j < seen {
                            assert(all.take(seen as int)[j] is Ok);
                        }
                    }
                }
            },
            Err(cause) => {
                proof {
                    assert forall|j: int| 0 <= j < seen implies (#[trigger] all[j]) is Ok by {
                        assert(all.take(seen as int)[j] is Ok);
                    }
                    assert(is_first_failure(all, seen as int));
                    assert(!all_fragments(all));
                    lemma_first_failure(all);
                }
                return Err(stream_failure(cause));
            },
        }
        seen = seen + 1;
    }
    assert(all.take(seen as int) =~= all);
    Ok(accumulator.finish())
}

} // verus!
