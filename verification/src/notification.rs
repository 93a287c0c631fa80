//! Session updates and the merging of consecutive text chunks.
//!
//! `P` stands for what the library carries but does not read: metadata,
//! annotations and the payload of updates other than agent text.

use vstd::prelude::*;
use vstd::string::*;

verus! {

#[derive(Debug, Clone)]
pub struct TextContent<P> {
    pub text: String,
    pub annotations: Option<P>,
    pub meta: Option<P>,
}

#[derive(Debug, Clone)]
pub enum ContentBlock<P> {
    Text(TextContent<P>),
    Other(P),
}

#[derive(Debug, Clone)]
pub struct ContentChunk<P> {
    pub content: ContentBlock<P>,
    pub meta: Option<P>,
}

/// An update of the agent client protocol.
#[derive(Debug, Clone)]
pub enum AcpUpdate<P> {
    AgentMessageChunk(ContentChunk<P>),
    AgentThoughtChunk(ContentChunk<P>),
    Other(P),
}

#[derive(Debug, Clone)]
pub struct SessionNotification<P> {
    pub session_id: String,
    pub update: AcpUpdate<P>,
    pub meta: Option<P>,
}

/// A line of the update log: a protocol update or an extension update.
#[derive(Debug, Clone)]
pub enum SessionUpdate<P> {
    Acp(SessionNotification<P>),
    Xai(P),
}

/// The content blocks of one user turn.
#[derive(Debug, Clone)]
pub struct PersistenceContentChunk<P> {
    pub content_chunks: Vec<ContentBlock<P>>,
}

/// Texts joined by line breaks.
pub open spec fn joined(texts: Seq<Seq<char>>) -> Seq<char>
    decreases texts.len(),
{
    if texts.len() == 0 {
        Seq::empty()
    } else if texts.len() == 1 {
        texts[0]
    } else {
        joined(texts.drop_last()) + "\n"@ + texts.last()
    }
}

/// The texts among content blocks, in order.
pub open spec fn block_texts<P>(blocks: Seq<ContentBlock<P>>) -> Seq<Seq<char>>
    decreases blocks.len(),
{
    if blocks.len() == 0 {
        Seq::empty()
    } else {
        let before = block_texts(blocks.drop_last());
        match blocks.last() {
            ContentBlock::Text(t) => before.push(t.text@),
            ContentBlock::Other(_) => before,
        }
    }
}

impl<P> PersistenceContentChunk<P> {
    pub fn new(content_chunks: Vec<ContentBlock<P>>) -> (r: Self)
        ensures
            r.content_chunks == content_chunks,
    {
        PersistenceContentChunk { content_chunks }
    }

    /// The texts of the blocks, one per line; other blocks leave nothing.
    pub fn joined_text(&self) -> (r: String)
        ensures
            r@ == joined(block_texts(self.content_chunks@)),
    {
        let mut out = String::new();
        let mut first = true;
        let mut i: usize = 0;
        let ghost blocks = self.content_chunks@;
        while i < self.content_chunks.len()
            invariant
                blocks == self.content_chunks@,
                i <= blocks.len(),
                out@ == joined(block_texts(blocks.take(i as int))),
                first == (block_texts(blocks.take(i as int)).len() == 0),
            decreases blocks.len() - i,
        {
            assert(blocks.take(i as int + 1).drop_last() =~= blocks.take(i as int));
            match &self.content_chunks[i] {
                ContentBlock::Text(t) => {
                    let ghost before = block_texts(blocks.take(i as int));
                    assert(before.push(t.text@).drop_last() =~= before);
                    if !first {
                        out.append("\n");
                    }
                    out.append(t.text.as_str());
                    first = false;
                },
                ContentBlock::Other(_) => {},
            }
            i += 1;
        }
        assert(blocks.take(i as int) =~= blocks);
        out
    }
}

/// A chunk of text that carries nothing but its text.
pub open spec fn plain_text<P>(chunk: ContentChunk<P>) -> bool {
    &&& chunk.meta is None
    &&& chunk.content matches ContentBlock::Text(t)
    &&& t.annotations is None
    &&& t.meta is None
}

/// The text of a chunk; nothing where the chunk holds none.
pub open spec fn chunk_text<P>(chunk: ContentChunk<P>) -> Seq<char> {
    match chunk.content {
        ContentBlock::Text(t) => t.text@,
        ContentBlock::Other(_) => Seq::empty(),
    }
}

/// An agent chunk with empty text and no metadata.
pub open spec fn empty_chunk<P>(update: AcpUpdate<P>) -> bool {
    match update {
        AcpUpdate::AgentMessageChunk(c) | AcpUpdate::AgentThoughtChunk(c) => {
            &&& c.meta is None
            &&& c.content matches ContentBlock::Text(t)
            &&& t.text@.len() == 0
        },
        AcpUpdate::Other(_) => false,
    }
}

/// Whether the second update can be appended to the first: both are messages,
/// or both are thoughts, and neither carries more than text.
pub open spec fn mergeable<P>(first: AcpUpdate<P>, second: AcpUpdate<P>) -> bool {
    match (first, second) {
        (AcpUpdate::AgentMessageChunk(a), AcpUpdate::AgentMessageChunk(b)) => plain_text(a)
            && plain_text(b),
        (AcpUpdate::AgentThoughtChunk(a), AcpUpdate::AgentThoughtChunk(b)) => plain_text(a)
            && plain_text(b),
        _ => false,
    }
}

/// Whether `r` is the plain text chunk of this text.
pub open spec fn is_plain_chunk<P>(r: ContentChunk<P>, text: Seq<char>) -> bool {
    plain_text(r) && chunk_text(r) == text
}

/// Whether `r` is `first` with the text of `second` appended, under the
/// session and the metadata of `second`.
pub open spec fn merged_into<P>(
    first: SessionNotification<P>,
    second: SessionNotification<P>,
    r: SessionNotification<P>,
) -> bool {
    &&& r.session_id == second.session_id
    &&& r.meta == second.meta
    &&& match (first.update, second.update, r.update) {
        (
            AcpUpdate::AgentMessageChunk(a),
            AcpUpdate::AgentMessageChunk(b),
            AcpUpdate::AgentMessageChunk(c),
        ) => is_plain_chunk(c, chunk_text(a) + chunk_text(b)),
        (
            AcpUpdate::AgentThoughtChunk(a),
            AcpUpdate::AgentThoughtChunk(b),
            AcpUpdate::AgentThoughtChunk(c),
        ) => is_plain_chunk(c, chunk_text(a) + chunk_text(b)),
        _ => false,
    }
}

/// What the merge buffer holds and what is due for writing once `incoming`
/// has arrived: an empty chunk changes nothing; the first notification is
/// buffered; a mergeable one joins the buffered one; any other one takes its
/// place and makes it due.
pub open spec fn merge_step<P>(
    pending: Option<SessionNotification<P>>,
    incoming: SessionNotification<P>,
    after: Option<SessionNotification<P>>,
    due: Option<SessionNotification<P>>,
) -> bool {
    if empty_chunk(incoming.update) {
        after == pending && due is None
    } else {
        match pending {
            None => after == Some(incoming) && due is None,
            Some(first) => if mergeable(first.update, incoming.update) {
                &&& due is None
                &&& after matches Some(r)
                &&& merged_into(first, incoming, r)
            } else {
                after == Some(incoming) && due == Some(first)
            },
        }
    }
}

/// Appends the text of `new` to `prev` where both are text without
/// annotations and metadata; says whether it did.
pub fn try_merge_text<P>(prev: ContentBlock<P>, new: &ContentBlock<P>) -> (r: (ContentBlock<P>, bool))
    ensures
        r.1 == ({
            &&& prev matches ContentBlock::Text(a)
            &&& *new matches ContentBlock::Text(b)
            &&& a.annotations is None && a.meta is None
            &&& b.annotations is None && b.meta is None
        }),
        !r.1 ==> r.0 == prev,
        r.1 ==> {
            &&& r.0 matches ContentBlock::Text(t)
            &&& t.annotations is None && t.meta is None
            &&& t.text@ == prev->Text_0.text@ + new->Text_0.text@
        },
{
    match (prev, new) {
        (ContentBlock::Text(a), ContentBlock::Text(b)) => {
            if a.annotations.is_none() && a.meta.is_none() && b.annotations.is_none()
                && b.meta.is_none() {
                let mut text = a.text;
                text.append(b.text.as_str());
                (ContentBlock::Text(TextContent { text, annotations: None, meta: None }), true)
            } else {
                (ContentBlock::Text(a), false)
            }
        },
        (prev, _) => (prev, false),
    }
}

/// Whether an update is an agent chunk with empty text and no metadata.
pub fn is_empty_chunk<P>(update: &AcpUpdate<P>) -> (r: bool)
    ensures
        r == empty_chunk(*update),
{
    match update {
        AcpUpdate::AgentMessageChunk(c) | AcpUpdate::AgentThoughtChunk(c) => {
            let empty_text = match &c.content {
                ContentBlock::Text(t) => t.text.as_str().is_empty(),
                ContentBlock::Other(_) => false,
            };
            empty_text && c.meta.is_none()
        },
        AcpUpdate::Other(_) => false,
    }
}

/// Whether a chunk is text that carries nothing but its text.
fn is_plain_text<P>(chunk: &ContentChunk<P>) -> (r: bool)
    ensures
        r == plain_text(*chunk),
{
    match &chunk.content {
        ContentBlock::Text(t) => chunk.meta.is_none() && t.annotations.is_none() && t.meta.is_none(),
        ContentBlock::Other(_) => false,
    }
}

/// Whether the second update can be appended to the first.
fn can_merge<P>(first: &AcpUpdate<P>, second: &AcpUpdate<P>) -> (r: bool)
    ensures
        r == mergeable(*first, *second),
{
    match (first, second) {
        (AcpUpdate::AgentMessageChunk(a), AcpUpdate::AgentMessageChunk(b)) => is_plain_text(a)
            && is_plain_text(b),
        (AcpUpdate::AgentThoughtChunk(a), AcpUpdate::AgentThoughtChunk(b)) => is_plain_text(a)
            && is_plain_text(b),
        _ => false,
    }
}

/// The merge buffer and the notification due for writing, if any, once
/// `incoming` has arrived.
pub fn maybe_merge_notification<P>(
    pending: Option<SessionNotification<P>>,
    incoming: SessionNotification<P>,
) -> (r: (Option<SessionNotification<P>>, Option<SessionNotification<P>>))
    ensures
        merge_step(pending, incoming, r.0, r.1),
{
    if is_empty_chunk(&incoming.update) {
        return (pending, None);
    }
    let first = match pending {
        None => {
            return (Some(incoming), None);
        },
        Some(first) => first,
    };
    if !can_merge(&first.update, &incoming.update) {
        return (Some(incoming), Some(first));
    }
    let session_id = incoming.session_id;
    let meta = incoming.meta;
    let update = match (first.update, incoming.update) {
        (AcpUpdate::AgentMessageChunk(a), AcpUpdate::AgentMessageChunk(b)) => {
            let (content, _) = try_merge_text(a.content, &b.content);
            AcpUpdate::AgentMessageChunk(ContentChunk { content, meta: None })
        },
        (AcpUpdate::AgentThoughtChunk(a), AcpUpdate::AgentThoughtChunk(b)) => {
            let (content, _) = try_merge_text(a.content, &b.content);
            AcpUpdate::AgentThoughtChunk(ContentChunk { content, meta: None })
        },
        (_, second) => second,
    };
    (Some(SessionNotification { session_id, update, meta }), None)
}

/// An update that the log keeps as it came: neither an empty chunk nor plain
/// agent text.
pub open spec fn kept_as_is<P>(update: AcpUpdate<P>) -> bool {
    !empty_chunk(update) && match update {
        AcpUpdate::AgentMessageChunk(c) => !plain_text(c),
        AcpUpdate::AgentThoughtChunk(c) => !plain_text(c),
        AcpUpdate::Other(_) => true,
    }
}

/// A piece of what notifications show: a character of a message or of a
/// thought, or a notification that is kept as it came.
pub enum Piece<P> {
    Said(char),
    Thought(char),
    Kept(SessionNotification<P>),
}

/// The pieces of a message of this text.
pub open spec fn said_pieces<P>(text: Seq<char>) -> Seq<Piece<P>>
    decreases text.len(),
{
    if text.len() == 0 {
        Seq::empty()
    } else {
        said_pieces(text.drop_last()).push(Piece::Said(text.last()))
    }
}

/// The pieces of a thought of this text.
pub open spec fn thought_pieces<P>(text: Seq<char>) -> Seq<Piece<P>>
    decreases text.len(),
{
    if text.len() == 0 {
        Seq::empty()
    } else {
        thought_pieces(text.drop_last()).push(Piece::Thought(text.last()))
    }
}

proof fn pushed_behind<A>(u: Seq<A>, v: Seq<A>, x: A)
    ensures
        (u + v).push(x) == u + v.push(x),
{
    assert((u + v).push(x) =~= u + v.push(x));
}

proof fn pieces_add_up<P>(a: Seq<char>, b: Seq<char>)
    ensures
        said_pieces::<P>(a + b) == said_pieces::<P>(a) + said_pieces::<P>(b),
        thought_pieces::<P>(a + b) == thought_pieces::<P>(a) + thought_pieces::<P>(b),
    decreases b.len(),
{
    if b.len() == 0 {
        assert(a + b =~= a);
        assert(said_pieces::<P>(a + b) =~= said_pieces::<P>(a) + said_pieces::<P>(b));
        assert(thought_pieces::<P>(a + b) =~= thought_pieces::<P>(a) + thought_pieces::<P>(b));
    } else {
        pieces_add_up::<P>(a, b.drop_last());
        assert((a + b).drop_last() =~= a + b.drop_last());
        assert((a + b).last() == b.last());
        pushed_behind(
            said_pieces::<P>(a),
            said_pieces::<P>(b.drop_last()),
            Piece::Said(b.last()),
        );
        pushed_behind(
            thought_pieces::<P>(a),
            thought_pieces::<P>(b.drop_last()),
            Piece::Thought(b.last()),
        );
    }
}

/// What one notification shows.
pub open spec fn pieces_of<P>(n: SessionNotification<P>) -> Seq<Piece<P>> {
    if kept_as_is(n.update) {
        seq![Piece::Kept(n)]
    } else {
        match n.update {
            AcpUpdate::AgentMessageChunk(c) => said_pieces(chunk_text(c)),
            AcpUpdate::AgentThoughtChunk(c) => thought_pieces(chunk_text(c)),
            AcpUpdate::Other(_) => Seq::empty(),
        }
    }
}

/// What a run of notifications shows, in order.
pub open spec fn shown<P>(ns: Seq<SessionNotification<P>>) -> Seq<Piece<P>>
    decreases ns.len(),
{
    if ns.len() == 0 {
        Seq::empty()
    } else {
        shown(ns.drop_last()) + pieces_of(ns.last())
    }
}

/// What has been handed out for writing, followed by what is still buffered.
pub open spec fn with_buffer<P>(
    written: Seq<SessionNotification<P>>,
    pending: Option<SessionNotification<P>>,
) -> Seq<SessionNotification<P>> {
    match pending {
        Some(n) => written.push(n),
        None => written,
    }
}

/// Whether `buffers` are the states of the merge buffer, empty at first, and
/// `dues` what each arrival makes due, when `incoming` arrives.
pub open spec fn merge_run<P>(
    incoming: Seq<SessionNotification<P>>,
    buffers: Seq<Option<SessionNotification<P>>>,
    dues: Seq<Option<SessionNotification<P>>>,
) -> bool {
    &&& dues.len() == incoming.len()
    &&& buffers.len() == incoming.len() + 1
    &&& buffers[0] is None
    &&& forall|i: int|
        0 <= i < incoming.len() ==> merge_step(
            buffers[i],
            #[trigger] incoming[i],
            buffers[i + 1],
            dues[i],
        )
}

/// The notifications that became due, in order.
pub open spec fn handed_out<P>(dues: Seq<Option<SessionNotification<P>>>) -> Seq<
    SessionNotification<P>,
>
    decreases dues.len(),
{
    if dues.len() == 0 {
        Seq::empty()
    } else {
        with_buffer(handed_out(dues.drop_last()), dues.last())
    }
}

proof fn merged_shows_both<P>(
    first: SessionNotification<P>,
    second: SessionNotification<P>,
    r: SessionNotification<P>,
)
    requires
        mergeable(first.update, second.update),
        merged_into(first, second, r),
    ensures
        pieces_of(r) == pieces_of(first) + pieces_of(second),
{
    match (first.update, second.update, r.update) {
        (
            AcpUpdate::AgentMessageChunk(a),
            AcpUpdate::AgentMessageChunk(b),
            AcpUpdate::AgentMessageChunk(c),
        ) => {
            pieces_add_up::<P>(chunk_text(a), chunk_text(b));
            assert(pieces_of(r) =~= pieces_of(first) + pieces_of(second));
        },
        (
            AcpUpdate::AgentThoughtChunk(a),
            AcpUpdate::AgentThoughtChunk(b),
            AcpUpdate::AgentThoughtChunk(c),
        ) => {
            pieces_add_up::<P>(chunk_text(a), chunk_text(b));
            assert(pieces_of(r) =~= pieces_of(first) + pieces_of(second));
        },
        _ => {},
    }
}

/// Merging loses nothing and reorders nothing: what is handed out and still
/// buffered shows the same messages, thoughts and other notifications as what
/// arrived, in the same order among each other.
pub proof fn merging_preserves_content<P>(
    incoming: Seq<SessionNotification<P>>,
    buffers: Seq<Option<SessionNotification<P>>>,
    dues: Seq<Option<SessionNotification<P>>>,
)
    requires
        merge_run(incoming, buffers, dues),
    ensures
        shown(with_buffer(handed_out(dues), buffers.last())) == shown(incoming),
    decreases incoming.len(),
{
    if incoming.len() > 0 {
        let n = incoming.len() - 1;
        let last = incoming.last();
        let p = buffers.drop_last().last();
        let w = handed_out(dues.drop_last());
        assert forall|i: int| 0 <= i < n implies merge_step(
            buffers.drop_last()[i],
            #[trigger] incoming.drop_last()[i],
            buffers.drop_last()[i + 1],
            dues.drop_last()[i],
        ) by {
            assert(incoming.drop_last()[i] == incoming[i]);
        }
        merging_preserves_content(incoming.drop_last(), buffers.drop_last(), dues.drop_last());
        assert(merge_step(p, incoming[n], buffers.last(), dues.last()));
        let before = with_buffer(w, p);
        let after = with_buffer(handed_out(dues), buffers.last());
        assert(shown(before) == shown(incoming.drop_last()));
        if empty_chunk(last.update) {
            assert(after == before);
            match last.update {
                AcpUpdate::AgentMessageChunk(c) => {
                    assert(chunk_text(c).len() == 0);
                },
                AcpUpdate::AgentThoughtChunk(c) => {
                    assert(chunk_text(c).len() == 0);
                },
                AcpUpdate::Other(_) => {},
            }
            assert(pieces_of(last) =~= Seq::empty());
            assert(shown(after) =~= shown(incoming));
        } else {
            assert(after.drop_last() =~= handed_out(dues));
            match p {
                None => {},
                Some(first) => {
                    assert(before.drop_last() =~= w);
                    if mergeable(first.update, last.update) {
                        merged_shows_both(first, last, after.last());
                        assert(shown(after) =~= shown(incoming));
                    } else {
                        assert(handed_out(dues) == before);
                    }
                },
            }
        }
    }
}

// What happens to single notifications.

/// A chunk that carries this text and nothing else.
pub open spec fn bare<P>(chunk: ContentChunk<P>, text: Seq<char>) -> bool {
    &&& chunk.meta is None
    &&& chunk.content is Text
    &&& chunk.content->Text_0.text@ == text
    &&& chunk.content->Text_0.annotations is None
    &&& chunk.content->Text_0.meta is None
}

/// Whether two updates are of the same kind of speech, as chunks `a` and `b`.
pub open spec fn same_speech<P>(
    first: AcpUpdate<P>,
    second: AcpUpdate<P>,
    a: ContentChunk<P>,
    b: ContentChunk<P>,
) -> bool {
    ||| first == AcpUpdate::AgentMessageChunk(a) && second == AcpUpdate::AgentMessageChunk(b)
    ||| first == AcpUpdate::AgentThoughtChunk(a) && second == AcpUpdate::AgentThoughtChunk(b)
}

/// A chunk that says more of what is buffered is appended to it: nothing is
/// written, and what is buffered is one chunk of the same kind with both texts,
/// under the session and the metadata that came last.
pub proof fn speech_is_gathered<P>(
    pending: SessionNotification<P>,
    incoming: SessionNotification<P>,
    after: Option<SessionNotification<P>>,
    due: Option<SessionNotification<P>>,
    a: ContentChunk<P>,
    b: ContentChunk<P>,
    said: Seq<char>,
    more: Seq<char>,
)
    requires
        merge_step(Some(pending), incoming, after, due),
        same_speech(pending.update, incoming.update, a, b),
        bare(a, said),
        bare(b, more),
        more.len() > 0,
    ensures
        due is None,
        after is Some,
        after->0.session_id == incoming.session_id,
        after->0.meta == incoming.meta,
        exists|c: ContentChunk<P>| #[trigger]
            same_speech(pending.update, after->0.update, a, c) && bare(c, said + more),
{
    let r = after->0;
    match r.update {
        AcpUpdate::AgentMessageChunk(c) => {
            assert(same_speech(pending.update, r.update, a, c) && bare(c, said + more));
        },
        AcpUpdate::AgentThoughtChunk(c) => {
            assert(same_speech(pending.update, r.update, a, c) && bare(c, said + more));
        },
        AcpUpdate::Other(_) => {},
    }
}

/// Whether an update can take part in gathering: it is a chunk of speech that
/// carries its text and nothing else.
pub open spec fn gathers<P>(update: AcpUpdate<P>) -> bool {
    match update {
        AcpUpdate::AgentMessageChunk(c) => bare(c, c.content->Text_0.text@),
        AcpUpdate::AgentThoughtChunk(c) => bare(c, c.content->Text_0.text@),
        AcpUpdate::Other(_) => false,
    }
}

/// What cannot be appended makes what is buffered due, as it is, and is buffered
/// itself, as it came: something that is no speech, speech of another kind, and
/// speech that carries more than text, on either side.
pub proof fn other_notifications_take_turns<P>(
    pending: SessionNotification<P>,
    incoming: SessionNotification<P>,
    after: Option<SessionNotification<P>>,
    due: Option<SessionNotification<P>>,
)
    requires
        merge_step(Some(pending), incoming, after, due),
        incoming.update is Other || pending.update is Other || (incoming.update
            is AgentMessageChunk && pending.update is AgentThoughtChunk) || (incoming.update
            is AgentThoughtChunk && pending.update is AgentMessageChunk) || !gathers(pending.update)
            || !gathers(incoming.update),
        !silent(incoming.update),
    ensures
        due == Some(pending),
        after == Some(incoming),
{
}

/// Whether an update says nothing: speech of no length and without metadata.
pub open spec fn silent<P>(update: AcpUpdate<P>) -> bool {
    match update {
        AcpUpdate::AgentMessageChunk(c) => c.meta is None && c.content is Text
            && c.content->Text_0.text@.len() == 0,
        AcpUpdate::AgentThoughtChunk(c) => c.meta is None && c.content is Text
            && c.content->Text_0.text@.len() == 0,
        AcpUpdate::Other(_) => false,
    }
}

/// What says nothing is dropped; anything else that comes first is buffered as
/// it came.
pub proof fn silence_changes_nothing<P>(
    pending: Option<SessionNotification<P>>,
    incoming: SessionNotification<P>,
    after: Option<SessionNotification<P>>,
    due: Option<SessionNotification<P>>,
)
    requires
        merge_step(pending, incoming, after, due),
    ensures
        silent(incoming.update) ==> after == pending && due is None,
        !silent(incoming.update) && pending is None ==> after == Some(incoming) && due is None,
{
}

proof fn texts_add_up(a: Seq<Seq<char>>, b: Seq<Seq<char>>)
    requires
        a.len() > 0,
        b.len() > 0,
    ensures
        joined(a + b) == joined(a) + "\n"@ + joined(b),
    decreases b.len(),
{
    let all = a + b;
    assert(all.drop_last() =~= a + b.drop_last());
    assert(all.last() == b.last());
    if b.len() == 1 {
        assert(all.drop_last() =~= a);
    } else {
        texts_add_up(a, b.drop_last());
        assert(joined(all) =~= joined(a) + "\n"@ + joined(b));
    }
}

proof fn blocks_add_up<P>(a: Seq<ContentBlock<P>>, b: Seq<ContentBlock<P>>)
    ensures
        block_texts(a + b) == block_texts(a) + block_texts(b),
    decreases b.len(),
{
    if b.len() == 0 {
        assert(a + b =~= a);
        assert(block_texts(a) + block_texts(b) =~= block_texts(a));
    } else {
        assert((a + b).drop_last() =~= a + b.drop_last());
        blocks_add_up(a, b.drop_last());
        assert(block_texts(a + b) =~= block_texts(a) + block_texts(b));
    }
}

/// Whether there is a text among content blocks.
pub open spec fn has_text<P>(blocks: Seq<ContentBlock<P>>) -> bool {
    exists|i: int| 0 <= i < blocks.len() && (#[trigger] blocks[i]) is Text
}

proof fn text_is_among<P>(blocks: Seq<ContentBlock<P>>)
    ensures
        has_text(blocks) <==> block_texts(blocks).len() > 0,
    decreases blocks.len(),
{
    if blocks.len() > 0 {
        let earlier = blocks.drop_last();
        text_is_among(earlier);
        if has_text(blocks) && blocks.last() is Other {
            let i = choose|i: int| 0 <= i < blocks.len() && (#[trigger] blocks[i]) is Text;
            assert(earlier[i] is Text);
        }
        if has_text(earlier) {
            let i = choose|i: int| 0 <= i < earlier.len() && (#[trigger] earlier[i]) is Text;
            assert(blocks[i] is Text);
        }
        if blocks.last() is Text {
            assert(blocks[blocks.len() - 1] is Text);
        }
    }
}

/// The text of a turn: of one text it is that text, of two parts with text it is
/// what they say on lines of their own, and a part without text adds nothing.
pub proof fn turn_is_read_line_by_line<P>(a: Seq<ContentBlock<P>>, b: Seq<ContentBlock<P>>)
    ensures
        a.len() == 1 && a[0] is Text ==> joined(block_texts(a)) == a[0]->Text_0.text@,
        !has_text(a) ==> joined(block_texts(a)).len() == 0,
        has_text(a) && has_text(b) ==> joined(block_texts(a + b)) == joined(block_texts(a)) + "\n"@
            + joined(block_texts(b)),
        !has_text(b) ==> joined(block_texts(a + b)) == joined(block_texts(a)),
        !has_text(a) ==> joined(block_texts(a + b)) == joined(block_texts(b)),
{
    text_is_among(a);
    text_is_among(b);
    blocks_add_up(a, b);
    if has_text(a) && has_text(b) {
        texts_add_up(block_texts(a), block_texts(b));
    }
    if !has_text(b) {
        assert(block_texts(a) + block_texts(b) =~= block_texts(a));
    }
    if !has_text(a) {
        assert(block_texts(a) + block_texts(b) =~= block_texts(b));
    }
    if a.len() == 1 && a[0] is Text {
        assert(block_texts(a.drop_last()) =~= Seq::empty());
        assert(block_texts(a) =~= seq![a[0]->Text_0.text@]);
    }
}

} // verus!
