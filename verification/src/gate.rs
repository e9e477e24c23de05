use vstd::prelude::*;

verus! {

/// One logical request stream (one exists for search, one for detail): the
/// generation most recently accepted from the presentation surface, and the
/// snapshot last handed to it, tagged with the generation that produced it.
pub struct Stream<S> {
    pub accepted: u64,
    pub published: Option<(u64, S)>,
}

/// A new intent was accepted on the stream: the accepted generation moved up
/// by one and nothing was published.
pub open spec fn begin_step<S>(pre: Stream<S>, post: Stream<S>, g: u64) -> bool {
    &&& pre.accepted < u64::MAX
    &&& g == pre.accepted + 1
    &&& post.accepted == g
    &&& post.published == pre.published
}

/// A result produced under generation `g` came up for publication: it was
/// handed on exactly when `g` is still the accepted generation, and dropped
/// without a trace otherwise.
pub open spec fn publish_step<S>(
    pre: Stream<S>,
    post: Stream<S>,
    g: u64,
    snap: S,
    ok: bool,
) -> bool {
    &&& ok == (g == pre.accepted)
    &&& post.accepted == pre.accepted
    &&& (ok ==> post.published == Some((g, snap)))
    &&& (!ok ==> post.published == pre.published)
}

/// Whatever stands published came from a generation no newer than the
/// accepted one.
pub open spec fn stream_wf<S>(s: Stream<S>) -> bool {
    s.published matches Some(p) ==> p.0 <= s.accepted
}

impl<S> Stream<S> {
    /// A fresh stream: no intent accepted yet, nothing published.
    pub fn new() -> (s: Stream<S>)
        ensures
            s.accepted == 0,
            s.published is None,
            stream_wf(s),
    {
        Stream { accepted: 0, published: None }
    }

    /// Accepts a new user intent: stamps it with the next generation, which
    /// supersedes every earlier generation on this stream.
    pub fn begin(&mut self) -> (g: u64)
        requires
            old(self).accepted < u64::MAX,
            stream_wf(*old(self)),
        ensures
            begin_step(*old(self), *final(self), g),
            stream_wf(*final(self)),
    {
        self.accepted = self.accepted + 1;
        self.accepted
    }

    /// The publish gate: hands `snap` to the presentation surface only when
    /// the generation it was produced under is still the accepted one. A
    /// superseded result is silently dropped, leaving what the surface sees
    /// untouched.
    pub fn try_publish(&mut self, g: u64, snap: S) -> (ok: bool)
        requires
            stream_wf(*old(self)),
        ensures
            publish_step(*old(self), *final(self), g, snap, ok),
            stream_wf(*final(self)),
    {
        if g == self.accepted {
            self.published = Some((g, snap));
            true
        } else {
            false
        }
    }

    /// Whether `g` is still the accepted generation of this stream.
    pub fn is_current(&self, g: u64) -> (b: bool)
        ensures
            b == (g == self.accepted),
    {
        g == self.accepted
    }
}

/// Supersession law: when two intents are accepted on one stream in turn
/// and the first one's work finishes only after the second's, the second
/// intent's snapshot is published and the first one's late result is
/// dropped, so the presentation surface only ever sees the newer result.
pub proof fn lemma_supersession<S>(
    s0: Stream<S>,
    s1: Stream<S>,
    s2: Stream<S>,
    s3: Stream<S>,
    s4: Stream<S>,
    g1: u64,
    g2: u64,
    snap1: S,
    snap2: S,
    ok1: bool,
    ok2: bool,
)
    requires
        begin_step(s0, s1, g1),
        begin_step(s1, s2, g2),
        publish_step(s2, s3, g2, snap2, ok2),
        publish_step(s3, s4, g1, snap1, ok1),
    ensures
        ok2,
        !ok1,
        s4.published == Some((g2, snap2)),
{
}

/// Any result stamped with a generation older than the accepted one is
/// dropped, whatever else happened in between.
pub proof fn lemma_stale_dropped<S>(pre: Stream<S>, post: Stream<S>, g: u64, snap: S, ok: bool)
    requires
        publish_step(pre, post, g, snap, ok),
        g < pre.accepted,
    ensures
        !ok,
        post.published == pre.published,
{
}

/// A result stamped with the accepted generation is always published.
pub proof fn lemma_current_publishes<S>(pre: Stream<S>, post: Stream<S>, g: u64, snap: S, ok: bool)
    requires
        publish_step(pre, post, g, snap, ok),
        g == pre.accepted,
    ensures
        ok,
        post.published == Some((g, snap)),
{
}

} // verus!
