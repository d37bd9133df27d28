use vstd::prelude::*;
use crate::authorship::{
    derivation, rfc3339_instant, signature_for, Authorship, AuthorshipView, ImportError,
};

verus! {

/// The identifier the object store gave a message node.
#[derive(Debug, Clone)]
pub struct NodeId {
    pub bytes: Vec<u8>,
}

impl View for NodeId {
    type V = Seq<u8>;

    open spec fn view(&self) -> Seq<u8> {
        self.bytes@
    }
}

impl NodeId {
    pub fn duplicate(&self) -> (r: NodeId)
        ensures
            r@ == self@,
    {
        let mut bytes: Vec<u8> = Vec::new();
        let mut i: usize = 0;
        while i < self.bytes.len()
            invariant
                i <= self.bytes@.len(),
                bytes@ == self.bytes@.take(i as int),
            decreases self.bytes@.len() - i,
        {
            bytes.push(self.bytes[i]);
            i = i + 1;
            assert(bytes@ =~= self.bytes@.take(i as int));
        }
        assert(bytes@ =~= self.bytes@);
        NodeId { bytes }
    }
}

/// A comment as the tracker returned it.
#[derive(Debug, Clone)]
pub struct CommentRecord {
    pub author: String,
    pub created_at: String,
    pub body: String,
}

pub ghost struct CommentView {
    pub author: Seq<char>,
    pub created_at: Seq<char>,
    pub body: Seq<char>,
}

impl View for CommentRecord {
    type V = CommentView;

    open spec fn view(&self) -> CommentView {
        CommentView { author: self.author@, created_at: self.created_at@, body: self.body@ }
    }
}

/// A message node the store is asked to create. Its committer and its tree
/// are the same for every node of an import.
#[derive(Debug)]
pub struct NodeRequest {
    pub author: Authorship,
    pub body: String,
    pub parents: Vec<NodeId>,
}

pub ghost struct NodeRequestView {
    pub author: AuthorshipView,
    pub body: Seq<char>,
    pub parents: Seq<Seq<u8>>,
}

impl View for NodeRequest {
    type V = NodeRequestView;

    open spec fn view(&self) -> NodeRequestView {
        NodeRequestView {
            author: self.author@,
            body: self.body@,
            parents: self.parents@.map_values(|p: NodeId| p@),
        }
    }
}

pub open spec fn request_outcome(r: Result<NodeRequest, ImportError>) -> Result<NodeRequestView, ImportError> {
    match r {
        Ok(q) => Ok(q@),
        Err(e) => Err(e),
    }
}

/// The body of a reply: the subject of the node replied to, a blank line and
/// the comment, or the comment alone where that node has no subject.
pub open spec fn reply_body(subject: Option<Seq<char>>, body: Seq<char>) -> Seq<char> {
    match subject {
        Some(s) => s + "\n\n"@ + body,
        None => body,
    }
}

/// The thread of one issue while it is being written to the store.
pub struct ThreadImport {
    author: String,
    created_at: String,
    body: String,
    comments: Vec<CommentRecord>,
    /// The nodes created so far, the root first; the last is the head.
    created: Vec<NodeId>,
    /// The reply subject the store derived for the head.
    head_subject: Option<String>,
}

pub ghost struct ThreadView {
    pub author: Seq<char>,
    pub created_at: Seq<char>,
    pub body: Seq<char>,
    pub comments: Seq<CommentView>,
    pub created: Seq<Seq<u8>>,
    pub head_subject: Option<Seq<char>>,
}

pub open spec fn option_text(s: Option<String>) -> Option<Seq<char>> {
    match s {
        Some(t) => Some(t@),
        None => None,
    }
}

impl View for ThreadImport {
    type V = ThreadView;

    closed spec fn view(&self) -> ThreadView {
        ThreadView {
            author: self.author@,
            created_at: self.created_at@,
            body: self.body@,
            comments: self.comments@.map_values(|c: CommentRecord| c@),
            created: self.created@.map_values(|n: NodeId| n@),
            head_subject: option_text(self.head_subject),
        }
    }
}

impl ThreadView {
    /// Every comment has its node: nothing is left to create.
    pub open spec fn complete(self) -> bool {
        self.created.len() > self.comments.len()
    }

    pub open spec fn head(self) -> Option<Seq<u8>> {
        if self.created.len() == 0 {
            None
        } else {
            Some(self.created.last())
        }
    }

    /// The node to create next: the root from the issue, then one reply per
    /// comment, in order, each with the head as its one parent.
    pub open spec fn next_request(self) -> Option<Result<NodeRequestView, ImportError>> {
        let k = self.created.len();
        if k == 0 {
            Some(
                match derivation(self.author, self.created_at) {
                    Ok(a) => Ok(NodeRequestView { author: a, body: self.body, parents: Seq::empty() }),
                    Err(e) => Err(e),
                },
            )
        } else if k <= self.comments.len() {
            let c = self.comments[k - 1];
            Some(
                match derivation(c.author, c.created_at) {
                    Ok(a) => Ok(
                        NodeRequestView {
                            author: a,
                            body: reply_body(self.head_subject, c.body),
                            parents: seq![self.created.last()],
                        },
                    ),
                    Err(e) => Err(e),
                },
            )
        } else {
            None
        }
    }

    /// The state once the store has created the node asked for.
    pub open spec fn record(self, id: Seq<u8>, subject: Option<Seq<char>>) -> ThreadView {
        ThreadView { created: self.created.push(id), head_subject: subject, ..self }
    }
}

impl ThreadImport {
    /// Starts the thread of an issue written by `author` at `created_at`.
    pub fn new(author: String, created_at: String, body: String, comments: Vec<CommentRecord>) -> (r: ThreadImport)
        ensures
            r@ == (ThreadView {
                author: author@,
                created_at: created_at@,
                body: body@,
                comments: comments@.map_values(|c: CommentRecord| c@),
                created: Seq::empty(),
                head_subject: None,
            }),
    {
        let r = ThreadImport { author, created_at, body, comments, created: Vec::new(), head_subject: None };
        assert(r@.created =~= Seq::empty());
        r
    }

    pub fn is_complete(&self) -> (r: bool)
        ensures
            r == self@.complete(),
    {
        self.created.len() > self.comments.len()
    }

    /// The node most recently created, if any.
    pub fn head(&self) -> (r: Option<NodeId>)
        ensures
            match r {
                Some(n) => self@.head() == Some(n@),
                None => self@.head() is None,
            },
    {
        if self.created.len() == 0 {
            None
        } else {
            Some(self.created[self.created.len() - 1].duplicate())
        }
    }

    /// The root node, once the store has created it.
    pub fn root(&self) -> (r: Option<NodeId>)
        ensures
            match r {
                Some(n) => self@.created.len() > 0 && n@ == self@.created[0],
                None => self@.created.len() == 0,
            },
    {
        if self.created.len() == 0 {
            None
        } else {
            Some(self.created[0].duplicate())
        }
    }

    /// The number of nodes created so far.
    pub fn node_count(&self) -> (r: usize)
        ensures
            r == self@.created.len(),
    {
        self.created.len()
    }

    /// What the store is to create next; `None` once the thread is complete.
    pub fn next_request(&self) -> (r: Option<Result<NodeRequest, ImportError>>)
        ensures
            match r {
                Some(q) => self@.next_request() == Some(request_outcome(q)),
                None => self@.next_request() is None,
            },
    {
        let k = self.created.len();
        if k == 0 {
            match signature_for(self.author.as_str(), self.created_at.as_str()) {
                Ok(a) => {
                    let q = NodeRequest { author: a, body: self.body.clone(), parents: Vec::new() };
                    assert(q@.parents =~= Seq::empty());
                    Some(Ok(q))
                },
                Err(e) => Some(Err(e)),
            }
        } else if k <= self.comments.len() {
            let c = &self.comments[k - 1];
            match signature_for(c.author.as_str(), c.created_at.as_str()) {
                Ok(a) => {
                    let body = match &self.head_subject {
                        Some(s) => {
                            let mut t = s.clone();
                            t.append("\n\n");
                            t.append(c.body.as_str());
                            t
                        },
                        None => c.body.clone(),
                    };
                    let mut parents: Vec<NodeId> = Vec::new();
                    parents.push(self.created[k - 1].duplicate());
                    let q = NodeRequest { author: a, body, parents };
                    assert(q@.parents =~= seq![self@.created.last()]);
                    Some(Ok(q))
                },
                Err(e) => Some(Err(e)),
            }
        } else {
            None
        }
    }

    /// Records that the store created the node asked for, as `id`, and
    /// derived `subject` as the subject of replies to it.
    pub fn node_created(&mut self, id: NodeId, subject: Option<String>)
        requires
            !old(self)@.complete(),
        ensures
            final(self)@ == old(self)@.record(id@, option_text(subject)),
    {
        self.created.push(id);
        self.head_subject = subject;
        assert(self@.created =~= old(self)@.created.push(id@));
    }
}

/// The state after the store created the nodes of `events`, in order: each
/// event is a node's identifier and the reply subject derived for it.
pub open spec fn replay(v: ThreadView, events: Seq<(Seq<u8>, Option<Seq<char>>)>) -> ThreadView
    decreases events.len(),
{
    if events.len() == 0 {
        v
    } else {
        replay(v, events.drop_last()).record(events.last().0, events.last().1)
    }
}

/// A thread on which no node has been created yet.
pub open spec fn fresh(v: ThreadView) -> bool {
    v.created.len() == 0 && v.head_subject is None
}

pub open spec fn event_ids(events: Seq<(Seq<u8>, Option<Seq<char>>)>) -> Seq<Seq<u8>> {
    events.map_values(|e: (Seq<u8>, Option<Seq<char>>)| e.0)
}

/// Replaying appends the identifiers and leaves the head's subject to the
/// last event.
pub proof fn lemma_replay_shape(v: ThreadView, events: Seq<(Seq<u8>, Option<Seq<char>>)>)
    ensures
        replay(v, events).created == v.created + event_ids(events),
        replay(v, events).author == v.author,
        replay(v, events).created_at == v.created_at,
        replay(v, events).body == v.body,
        replay(v, events).comments == v.comments,
        events.len() > 0 ==> replay(v, events).head_subject == events.last().1,
        events.len() == 0 ==> replay(v, events).head_subject == v.head_subject,
    decreases events.len(),
{
    if events.len() > 0 {
        lemma_replay_shape(v, events.drop_last());
        assert(event_ids(events) =~= event_ids(events.drop_last()).push(events.last().0));
    } else {
        assert(v.created + event_ids(events) =~= v.created);
    }
}

/// An issue with comments c1 .. cn becomes exactly n + 1 nodes: a root with
/// no parent, then one node per comment whose one parent is the node created
/// just before it.
pub proof fn lemma_thread_chain(v: ThreadView, events: Seq<(Seq<u8>, Option<Seq<char>>)>)
    requires
        fresh(v),
        events.len() == v.comments.len() + 1,
    ensures
        replay(v, events).complete(),
        replay(v, events).created == event_ids(events),
        replay(v, events).created.len() == v.comments.len() + 1,
        replay(v, events).next_request() is None,
        forall|k: int|
            0 <= k < events.len() ==> {
                let w = #[trigger] replay(v, events.take(k));
                &&& !w.complete()
                &&& w.next_request() is Some
                &&& (w.next_request()->Some_0 matches Ok(q) ==> q.parents == if k == 0 {
                    Seq::<Seq<u8>>::empty()
                } else {
                    seq![events[k - 1].0]
                })
            },
{
    lemma_replay_shape(v, events);
    assert(v.created + event_ids(events) =~= event_ids(events));
    assert forall|k: int| 0 <= k < events.len() implies {
        let w = #[trigger] replay(v, events.take(k));
        &&& !w.complete()
        &&& w.next_request() is Some
        &&& (w.next_request()->Some_0 matches Ok(q) ==> q.parents == if k == 0 {
            Seq::<Seq<u8>>::empty()
        } else {
            seq![events[k - 1].0]
        })
    } by {
        lemma_replay_shape(v, events.take(k));
        let w = replay(v, events.take(k));
        assert(w.created =~= event_ids(events.take(k)));
        if k > 0 {
            assert(w.created.last() == events[k - 1].0);
        }
    }
}

/// Each reply carries the subject of the node created just before it, the
/// current head, and not that of the root.
pub proof fn lemma_reply_subject_follows_head(
    v: ThreadView,
    events: Seq<(Seq<u8>, Option<Seq<char>>)>,
    k: int,
)
    requires
        fresh(v),
        1 <= k <= v.comments.len(),
        k <= events.len(),
    ensures
        replay(v, events.take(k)).next_request() is Some,
        replay(v, events.take(k)).next_request()->Some_0 matches Ok(q) ==> q.body == reply_body(
            events[k - 1].1,
            v.comments[k - 1].body,
        ),
{
    lemma_replay_shape(v, events.take(k));
    assert(event_ids(events.take(k)).len() == k);
}

/// An issue without comments is its root alone: once the root exists the
/// thread is complete and its head is the root.
pub proof fn lemma_zero_comments(v: ThreadView, root: Seq<u8>, subject: Option<Seq<char>>)
    requires
        fresh(v),
        v.comments.len() == 0,
    ensures
        v.next_request() is Some,
        v.record(root, subject).complete(),
        v.record(root, subject).created == seq![root],
        v.record(root, subject).head() == Some(root),
        v.record(root, subject).next_request() is None,
{
    assert(v.record(root, subject).created =~= seq![root]);
}

/// A timestamp that does not parse stops the thread with
/// `MalformedTimestamp` before a node is asked for its author.
pub proof fn lemma_malformed_timestamp_stops(v: ThreadView)
    requires
        !v.complete(),
        rfc3339_instant(
            if v.created.len() == 0 {
                v.created_at
            } else {
                v.comments[v.created.len() - 1].created_at
            },
        ) is None,
    ensures
        v.next_request() == Some(Err::<NodeRequestView, ImportError>(ImportError::MalformedTimestamp)),
{
}

/// The thread written to a store whose node identifiers are a function of
/// the node's content, `address`, and which derives reply subjects from a
/// node's body with `subject_of`, after `steps` nodes were asked for.
pub open spec fn store_run(
    v: ThreadView,
    address: spec_fn(NodeRequestView) -> Seq<u8>,
    subject_of: spec_fn(Seq<char>) -> Option<Seq<char>>,
    steps: nat,
) -> ThreadView
    decreases steps,
{
    if steps == 0 {
        v
    } else {
        let w = store_run(v, address, subject_of, (steps - 1) as nat);
        match w.next_request() {
            Some(Ok(q)) => w.record(address(q), subject_of(q.body)),
            _ => w,
        }
    }
}

/// Importing the same issue and comments into two empty content-addressed
/// stores gives the same node identifiers.
pub proof fn lemma_same_input_same_nodes(
    a: ThreadView,
    b: ThreadView,
    address: spec_fn(NodeRequestView) -> Seq<u8>,
    subject_of: spec_fn(Seq<char>) -> Option<Seq<char>>,
    steps: nat,
)
    requires
        fresh(a),
        fresh(b),
        a.author == b.author,
        a.created_at == b.created_at,
        a.body == b.body,
        a.comments == b.comments,
    ensures
        store_run(a, address, subject_of, steps).created == store_run(b, address, subject_of, steps).created,
{
    assert(a.created =~= b.created);
    assert(a == b);
}

} // verus!
