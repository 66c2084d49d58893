//! The stream of text generated by the language model for a new post or a
//! reply. Each item of the model's stream is a batch of response fragments;
//! the board appends every fragment to the text generated so far and, after
//! each item, sends the whole text to the browser as a `generation_chunk`
//! event. When a fragment says that the model is done, the text is stored as
//! a generation of the stream's generation group, and the button that offers
//! to publish it replaces the text.
//!
//! Storing and rendering happen outside this library, so a stream is a state
//! machine: each call takes what the last action gave back and returns the
//! next action.
use vstd::prelude::*;
use vstd::string::*;
use crate::state_db::DBError;
use crate::web::error::GenerationError;
use crate::web::generate_post::PostButton;
use crate::web::generate_reply::ReplyButton;

verus! {

/// One fragment of the model's answer, and whether the model is done.
#[derive(Debug)]
pub struct Chunk {
    pub response: String,
    pub done: bool,
}

/// What the stream generates: a new post, or a reply to the given post.
#[derive(Debug, Clone, Copy)]
pub enum Target {
    Post,
    Reply { post_id: i64 },
}

/// Where a stream stands: waiting for the model's next item, waiting for the
/// finished text to be stored, or waiting for its button to be rendered.
#[derive(Debug, Clone, Copy)]
pub enum Phase {
    Idle,
    Writing,
    Rendering,
}

/// The button to render for a stored generation.
#[derive(Debug)]
pub enum Button {
    Post(PostButton),
    Reply(ReplyButton),
}

/// A server-sent event: its name and its data.
#[derive(Debug)]
pub struct SseMessage {
    pub event: String,
    pub data: String,
}

/// What the program around the stream must do next.
#[derive(Debug)]
pub enum StreamAction {
    /// Store `content` as a generation of `generation_group`, and hand back
    /// the id of the new generation (or the error) to `on_written`.
    WriteGeneration { generation_group: i64, content: String },
    /// Render this button, and hand back the HTML (or the error) to `on_rendered`.
    Render(Button),
    /// Send this item of the event stream, then wait for the model's next item.
    Emit(Result<SseMessage, GenerationError>),
}

/// The state of a stream as the contracts see it.
pub struct StreamView {
    pub generation_group: i64,
    pub target: Target,
    /// The text generated so far (or the rendered button, once done).
    pub text: Seq<char>,
    /// The fragments of the current item that are still to be handled.
    pub pending: Seq<Chunk>,
    pub phase: Phase,
}

/// A generation stream for a post or a reply.
pub struct GenerationStream {
    generation_group: i64,
    target: Target,
    text: String,
    pending: Vec<Chunk>,
    phase: Phase,
}

impl View for GenerationStream {
    type V = StreamView;

    closed spec fn view(&self) -> StreamView {
        StreamView {
            generation_group: self.generation_group,
            target: self.target,
            text: self.text@,
            pending: self.pending@,
            phase: self.phase,
        }
    }
}

/// The fragments' texts, one after the other.
pub open spec fn concat_responses(chunks: Seq<Chunk>) -> Seq<char>
    decreases chunks.len(),
{
    if chunks.len() == 0 {
        Seq::empty()
    } else {
        concat_responses(chunks.drop_last()) + chunks.last().response@
    }
}

/// Whether none of the first `n` fragments says that the model is done.
pub open spec fn none_done(chunks: Seq<Chunk>, n: int) -> bool {
    forall|j: int| 0 <= j < n ==> !(#[trigger] chunks[j]).done
}

/// Whether some fragment says that the model is done.
pub open spec fn has_done(chunks: Seq<Chunk>) -> bool {
    !none_done(chunks, chunks.len() as int)
}

/// The event sent after an item: `generation_chunk`, carrying the whole text.
pub open spec fn is_chunk_event(m: SseMessage, text: Seq<char>) -> bool {
    m.event@ == "generation_chunk"@ && m.data@ == text
}

/// Going through the fragments `chunks` from state `before` led to state
/// `after` and action `action`: every fragment up to the first that says
/// done is appended to the text; at that fragment the stream asks to store
/// the text, and keeps the rest of the fragments for after the button is
/// rendered; when no fragment says done, all are appended and the whole text
/// is sent as a `generation_chunk` event.
pub open spec fn scanned(before: StreamView, chunks: Seq<Chunk>, after: StreamView, action: StreamAction) -> bool {
    &&& after.generation_group == before.generation_group
    &&& after.target == before.target
    &&& if !has_done(chunks) {
        &&& after.text == before.text + concat_responses(chunks)
        &&& after.pending.len() == 0
        &&& after.phase is Idle
        &&& (action matches StreamAction::Emit(Ok(m)) && is_chunk_event(m, after.text))
    } else {
        let d = chunks.len() - after.pending.len() - 1;
        &&& 0 <= d < chunks.len()
        &&& chunks[d].done
        &&& none_done(chunks, d)
        &&& after.pending == chunks.skip(d + 1)
        &&& after.text == before.text + concat_responses(chunks.take(d + 1))
        &&& after.phase is Writing
        &&& (action matches StreamAction::WriteGeneration { generation_group, content }
            && generation_group == before.generation_group && content@ == after.text)
    }
}

/// The button for a generation with the given id and text: a post button, or
/// a reply button for the post the stream replies to.
pub open spec fn is_button_for(target: Target, generation_id: i64, text: Seq<char>, b: Button) -> bool {
    match target {
        Target::Post => b matches Button::Post(pb) && pb.generation_id == generation_id && pb.post_data@ == text,
        Target::Reply { post_id } => b matches Button::Reply(rb) && rb.generation_id == generation_id
            && rb.reply_data@ == text && rb.post_id == post_id,
    }
}

proof fn lemma_concat_take_succ(chunks: Seq<Chunk>, k: int)
    requires
        0 <= k < chunks.len(),
    ensures
        concat_responses(chunks.take(k + 1)) == concat_responses(chunks.take(k)) + chunks[k].response@,
{
    assert(chunks.take(k + 1).drop_last() =~= chunks.take(k));
}

impl GenerationStream {
    /// A new stream that stores its generation in `generation_group`.
    pub fn new(generation_group: i64, target: Target) -> (s: Self)
        ensures
            s@ == (StreamView {
                generation_group,
                target,
                text: Seq::empty(),
                pending: Seq::empty(),
                phase: Phase::Idle,
            }),
    {
        GenerationStream { generation_group, target, text: String::new(), pending: Vec::new(), phase: Phase::Idle }
    }

    /// Whether the stream waits for the model's next item.
    pub fn is_idle(&self) -> (b: bool)
        ensures
            b == self@.phase is Idle,
    {
        match self.phase {
            Phase::Idle => true,
            _ => false,
        }
    }

    /// Whether the stream waits for its text to be stored.
    pub fn is_writing(&self) -> (b: bool)
        ensures
            b == self@.phase is Writing,
    {
        match self.phase {
            Phase::Writing => true,
            _ => false,
        }
    }

    /// Whether the stream waits for its button to be rendered.
    pub fn is_rendering(&self) -> (b: bool)
        ensures
            b == self@.phase is Rendering,
    {
        match self.phase {
            Phase::Rendering => true,
            _ => false,
        }
    }

    /// Goes through the pending fragments as `scanned` says.
    fn run(&mut self) -> (action: StreamAction)
        ensures
            scanned(old(self)@, old(self)@.pending, final(self)@, action),
    {
        let ghost start = self@;
        let ghost chunks = self.pending@;
        let mut found_done = false;
        while !found_done && self.pending.len() > 0
            invariant
                self.generation_group == start.generation_group,
                self.target == start.target,
                chunks == start.pending,
                self.pending@.len() <= chunks.len(),
                self.pending@ == chunks.skip(chunks.len() - self.pending@.len()),
                self.text@ == start.text + concat_responses(chunks.take(chunks.len() - self.pending@.len())),
                !found_done ==> none_done(chunks, chunks.len() - self.pending@.len()),
                found_done ==> {
                    let d = chunks.len() - self.pending@.len() - 1;
                    &&& 0 <= d
                    &&& chunks[d].done
                    &&& none_done(chunks, d)
                },
            decreases self.pending@.len(),
        {
            let ghost k = chunks.len() - self.pending@.len();
            let chunk = self.pending.remove(0);
            assert(chunk == chunks[k]);
            assert(self.pending@ =~= chunks.skip(k + 1));
            proof {
                lemma_concat_take_succ(chunks, k);
            }
            self.text.append(chunk.response.as_str());
            found_done = chunk.done;
        }
        if found_done {
            assert(!none_done(chunks, chunks.len() as int)) by {
                let d = chunks.len() - self.pending@.len() - 1;
                assert(chunks[d].done);
            }
            self.phase = Phase::Writing;
            StreamAction::WriteGeneration { generation_group: self.generation_group, content: self.text.clone() }
        } else {
            assert(chunks.take(chunks.len() as int) =~= chunks);
            self.phase = Phase::Idle;
            StreamAction::Emit(Ok(SseMessage { event: String::from_str("generation_chunk"), data: self.text.clone() }))
        }
    }

    /// Handles the model's next item: an error is sent on as the item's
    /// error, and a batch of fragments is gone through as `scanned` says.
    pub fn on_item(&mut self, item: Result<Vec<Chunk>, ollama_rs::error::OllamaError>) -> (action: StreamAction)
        requires
            old(self)@.phase is Idle,
        ensures
            match item {
                Err(e) => {
                    &&& final(self)@ == old(self)@
                    &&& action == StreamAction::Emit(Err(GenerationError::Ollama(e)))
                },
                Ok(chunks) => scanned(old(self)@, chunks@, final(self)@, action),
            },
    {
        match item {
            Err(e) => StreamAction::Emit(Err(GenerationError::Ollama(e))),
            Ok(chunks) => {
                self.pending = chunks;
                self.run()
            },
        }
    }

    /// Handles the outcome of storing the text: with the new generation's
    /// id, asks for its button; a database error ends the current item with
    /// that error, dropping its remaining fragments.
    pub fn on_written(&mut self, written: Result<i64, DBError>) -> (action: StreamAction)
        requires
            old(self)@.phase is Writing,
        ensures
            match written {
                Err(e) => {
                    &&& final(self)@ == (StreamView { pending: Seq::empty(), phase: Phase::Idle, ..old(self)@ })
                    &&& action == StreamAction::Emit(Err(GenerationError::DB(e)))
                },
                Ok(id) => {
                    &&& final(self)@ == (StreamView { phase: Phase::Rendering, ..old(self)@ })
                    &&& (action matches StreamAction::Render(b) && is_button_for(old(self)@.target, id, old(self)@.text, b))
                    &&& (old(self)@.target is Post ==> (action matches StreamAction::Render(Button::Post(pb))
                        && pb.generation_id == id && pb.post_data@ == old(self)@.text))
                    &&& (old(self)@.target matches Target::Reply { post_id } ==> (action matches StreamAction::Render(Button::Reply(rb))
                        && rb.generation_id == id && rb.reply_data@ == old(self)@.text && rb.post_id == post_id))
                },
            },
    {
        match written {
            Err(e) => {
                self.pending = Vec::new();
                self.phase = Phase::Idle;
                StreamAction::Emit(Err(GenerationError::DB(e)))
            },
            Ok(id) => {
                self.phase = Phase::Rendering;
                let button = match self.target {
                    Target::Post => Button::Post(PostButton { generation_id: id, post_data: self.text.clone() }),
                    Target::Reply { post_id } => Button::Reply(
                        ReplyButton { generation_id: id, reply_data: self.text.clone(), post_id },
                    ),
                };
                StreamAction::Render(button)
            },
        }
    }

    /// Handles the rendered button: it replaces the text, and the fragments
    /// left in the item are gone through as `scanned` says; a rendering error
    /// ends the current item with that error, dropping its remaining fragments.
    pub fn on_rendered(&mut self, rendered: Result<String, askama::Error>) -> (action: StreamAction)
        requires
            old(self)@.phase is Rendering,
        ensures
            match rendered {
                Err(e) => {
                    &&& final(self)@ == (StreamView { pending: Seq::empty(), phase: Phase::Idle, ..old(self)@ })
                    &&& action == StreamAction::Emit(Err(GenerationError::Templating(e)))
                },
                Ok(html) => scanned(StreamView { text: html@, ..old(self)@ }, old(self)@.pending, final(self)@, action),
            },
    {
        match rendered {
            Err(e) => {
                self.pending = Vec::new();
                self.phase = Phase::Idle;
                StreamAction::Emit(Err(GenerationError::Templating(e)))
            },
            Ok(html) => {
                self.text = html;
                self.run()
            },
        }
    }
}

/// All the text of a run of items, one item after the other.
pub open spec fn items_text(items: Seq<Seq<Chunk>>) -> Seq<char>
    decreases items.len(),
{
    if items.len() == 0 {
        Seq::empty()
    } else {
        items_text(items.drop_last()) + concat_responses(items.last())
    }
}

/// The index of the first fragment that says the model is done.
pub open spec fn first_done_index(chunks: Seq<Chunk>) -> int {
    choose|d: int| 0 <= d < chunks.len() && (#[trigger] chunks[d]).done && none_done(chunks, d)
}

/// A run of a stream: `states[i]` is its state before the i-th item,
/// `items[i]` that item and `actions[i]` what the stream answered to it.
pub open spec fn is_item_run(states: Seq<StreamView>, actions: Seq<StreamAction>, items: Seq<Seq<Chunk>>) -> bool {
    &&& states.len() == items.len() + 1
    &&& actions.len() == items.len()
    &&& forall|i: int| 0 <= i < items.len() ==> #[trigger] scanned(states[i], items[i], states[i + 1], actions[i])
}

proof fn lemma_text_before_done(states: Seq<StreamView>, actions: Seq<StreamAction>, items: Seq<Seq<Chunk>>, n: int)
    requires
        is_item_run(states, actions, items),
        states[0].text == Seq::<char>::empty(),
        0 <= n <= items.len(),
        forall|j: int| 0 <= j < n ==> !has_done(#[trigger] items[j]),
    ensures
        states[n].text == items_text(items.take(n)),
    decreases n,
{
    if n == 0 {
        assert(items.take(0) =~= Seq::<Seq<Chunk>>::empty());
    } else {
        lemma_text_before_done(states, actions, items, n - 1);
        assert(scanned(states[n - 1], items[n - 1], states[(n - 1) + 1], actions[n - 1]));
        assert(!has_done(items[n - 1]));
        assert(items.take(n).drop_last() =~= items.take(n - 1));
        assert(items.take(n).last() == items[n - 1]);
    }
}

/// The law of a generation stream. Take a fresh stream (no text yet) and a
/// run of items handed to it (a finished generation's button rendering does
/// not count as an item). As long as no fragment has said that the model is
/// done, the event sent after each item carries all the text that the model
/// generated so far; and at the first fragment that says done, the stream
/// asks to store exactly all the text generated up to and including that
/// fragment, in the stream's generation group.
pub proof fn lemma_stream_sends_and_stores_whole_text(
    states: Seq<StreamView>,
    actions: Seq<StreamAction>,
    items: Seq<Seq<Chunk>>,
    i: int,
)
    requires
        is_item_run(states, actions, items),
        states[0].text == Seq::<char>::empty(),
        0 <= i < items.len(),
        forall|j: int| 0 <= j < i ==> !has_done(#[trigger] items[j]),
    ensures
        !has_done(items[i]) ==> (actions[i] matches StreamAction::Emit(Ok(m))
            && is_chunk_event(m, items_text(items.take(i + 1)))),
        has_done(items[i]) ==> (actions[i] matches StreamAction::WriteGeneration { generation_group, content }
            && generation_group == states[0].generation_group
            && content@ == items_text(items.take(i)) + concat_responses(items[i].take(first_done_index(items[i]) + 1))),
{
    lemma_text_before_done(states, actions, items, i);
    assert(scanned(states[i], items[i], states[i + 1], actions[i]));
    assert forall|j: int| 0 <= j <= i implies #[trigger] states[j].generation_group == states[0].generation_group by {
        lemma_group_kept(states, actions, items, j);
    }
    if !has_done(items[i]) {
        assert forall|j: int| 0 <= j < i + 1 implies !has_done(#[trigger] items[j]) by {
            if j < i {
            } else {
                assert(j == i);
            }
        }
        lemma_text_before_done(states, actions, items, i + 1);
    } else {
        let chunks = items[i];
        let d = chunks.len() - states[i + 1].pending.len() - 1;
        assert(0 <= d < chunks.len() && chunks[d].done && none_done(chunks, d));
        let c = first_done_index(chunks);
        assert(0 <= c < chunks.len() && chunks[c].done && none_done(chunks, c));
        if c < d {
            assert(!chunks[c].done);
        } else if d < c {
            assert(!chunks[d].done);
        }
        assert(c == d);
    }
}

proof fn lemma_group_kept(states: Seq<StreamView>, actions: Seq<StreamAction>, items: Seq<Seq<Chunk>>, j: int)
    requires
        is_item_run(states, actions, items),
        0 <= j <= items.len(),
    ensures
        states[j].generation_group == states[0].generation_group,
    decreases j,
{
    if j > 0 {
        lemma_group_kept(states, actions, items, j - 1);
        assert(scanned(states[j - 1], items[j - 1], states[(j - 1) + 1], actions[j - 1]));
    }
}

/// Law of the accumulated text: the fragments of two batches, one after the
/// other, give the text of the first batch followed by that of the second;
/// a single fragment gives its own text, and no fragment gives no text.
pub proof fn law_concat_responses(a: Seq<Chunk>, b: Seq<Chunk>)
    ensures
        concat_responses(a + b) == concat_responses(a) + concat_responses(b),
        concat_responses(Seq::<Chunk>::empty()) == Seq::<char>::empty(),
        forall|c: Chunk| #[trigger] concat_responses(seq![c]) == c.response@,
    decreases b.len(),
{
    assert forall|c: Chunk| #[trigger] concat_responses(seq![c]) == c.response@ by {
        let one = seq![c];
        assert(one.drop_last() =~= Seq::<Chunk>::empty());
        assert(one.last() == c);
        assert(concat_responses(Seq::<Chunk>::empty()) == Seq::<char>::empty());
        assert(concat_responses(one) == concat_responses(one.drop_last()) + one.last().response@);
        assert(Seq::<char>::empty() + c.response@ =~= c.response@);
    }
    if b.len() == 0 {
        assert(a + b =~= a);
        assert(concat_responses(a) + Seq::<char>::empty() =~= concat_responses(a));
    } else {
        law_concat_responses(a, b.drop_last());
        assert((a + b).drop_last() =~= a + b.drop_last());
        assert((a + b).last() == b.last());
        assert(concat_responses(a) + concat_responses(b.drop_last()) + b.last().response@
            =~= concat_responses(a) + (concat_responses(b.drop_last()) + b.last().response@));
    }
}

/// Law of the publish button: when a fragment says the model is done, the
/// stream asks to store some text; the button then made for the stored
/// generation (with whatever id the store gave) shows exactly that stored
/// text, in full, and carries that id; a reply button also names the post
/// the stream replies to.
pub proof fn law_button_shows_the_stored_text(
    before: StreamView,
    chunks: Seq<Chunk>,
    after: StreamView,
    action: StreamAction,
    generation_id: i64,
    b: Button,
)
    requires
        scanned(before, chunks, after, action),
        has_done(chunks),
        is_button_for(after.target, generation_id, after.text, b),
    ensures
        action matches StreamAction::WriteGeneration { content, .. } && match b {
            Button::Post(pb) => before.target is Post && pb.generation_id == generation_id && pb.post_data@ == content@,
            Button::Reply(rb) => before.target matches Target::Reply { post_id } && rb.post_id == post_id
                && rb.generation_id == generation_id && rb.reply_data@ == content@,
        },
{
}

/// The event that ends every generation stream: `close`, with no data.
pub fn close_event() -> (m: SseMessage)
    ensures
        m.event@ == "close"@,
        m.data@ == Seq::<char>::empty(),
{
    SseMessage { event: String::from_str("close"), data: String::new() }
}

} // verus!
