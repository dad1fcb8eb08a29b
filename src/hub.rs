//! Decisions of the control loop that owns the transport session and the
//! listener registry. The loop itself (waiting on the transport and on the
//! command channel, sending on listener channels) runs outside; it hands each
//! event to a [`Hub`] and carries out the [`Step`] it returns.
//!
//! Listeners are named by the ids the loop gave their channels.
use vstd::prelude::*;
use vstd::utf8::{decode_utf8, valid_utf8};

verus! {

/// Instruction from a printer handle to its control loop.
#[derive(Clone, Copy, PartialEq, Eq, Debug, Structural)]
pub enum Commands {
    /// Add a listener
    Subscribe(u64),
    /// Close the session and stop
    Disconnect,
}

/// What the control loop does next.
#[derive(Debug)]
pub enum Step {
    /// Send `(topic, text)` to each of `targets`, then report the ones whose
    /// receiving end had gone through [`Hub::delivered`].
    Deliver { topic: String, text: String, targets: Vec<u64> },
    /// Drop the message: its payload is not UTF-8 text.
    Discard,
    /// Wait for the next event.
    Continue,
    /// Close the transport session; the loop then ends.
    Close,
}

/// Relies on `String::from_utf8`: it succeeds exactly on valid UTF-8 and
/// then holds the decoded characters.
#[verifier::external_body]
fn utf8_text(bytes: Vec<u8>) -> (r: Option<String>)
    ensures
        r is Some <==> valid_utf8(bytes@),
        r matches Some(s) ==> s@ == decode_utf8(bytes@),
{
    String::from_utf8(bytes).ok()
}

/// `ls` without the listeners in `failed`, order kept.
pub open spec fn without(ls: Seq<u64>, failed: Seq<u64>) -> Seq<u64>
    decreases ls.len(),
{
    if ls.len() == 0 {
        seq![]
    } else if failed.contains(ls.last()) {
        without(ls.drop_last(), failed)
    } else {
        without(ls.drop_last(), failed).push(ls.last())
    }
}

/// Registry state of the control loop.
pub struct Hub {
    listeners: Vec<u64>,
    running: bool,
}

impl Hub {
    /// The registered listeners, in order of registration.
    pub closed spec fn listeners(&self) -> Seq<u64> {
        self.listeners@
    }

    /// The loop has not yet decided to stop.
    pub closed spec fn is_running(&self) -> bool {
        self.running
    }

    pub fn new() -> (r: Self)
        ensures
            r.listeners() == Seq::<u64>::empty(),
            r.is_running(),
    {
        Hub { listeners: Vec::new(), running: true }
    }

    pub fn running(&self) -> (r: bool)
        ensures
            r == self.is_running(),
    {
        self.running
    }

    /// A command from a printer handle: `Subscribe` appends the listener
    /// (a second registration of one id is kept too); `Disconnect` stops.
    pub fn on_command(&mut self, c: Commands) -> (r: Step)
        ensures
            match c {
                Commands::Subscribe(id) => {
                    &&& final(self).listeners() == old(self).listeners().push(id)
                    &&& final(self).is_running() == old(self).is_running()
                    &&& r is Continue
                },
                Commands::Disconnect => {
                    &&& final(self).listeners() == old(self).listeners()
                    &&& !final(self).is_running()
                    &&& r is Close
                },
            },
    {
        match c {
            Commands::Subscribe(id) => {
                self.listeners.push(id);
                Step::Continue
            },
            Commands::Disconnect => {
                self.running = false;
                Step::Close
            },
        }
    }

    /// The next transport message, or `None` when the stream has ended. A
    /// UTF-8 payload goes as text to every registered listener; any other is
    /// dropped; the end of the stream stops the loop as `Disconnect` does.
    pub fn on_transport(&mut self, m: Option<(String, Vec<u8>)>) -> (r: Step)
        ensures
            final(self).listeners() == old(self).listeners(),
            match m {
                None => {
                    &&& r is Close
                    &&& !final(self).is_running()
                },
                Some((topic, payload)) => {
                    &&& final(self).is_running() == old(self).is_running()
                    &&& valid_utf8(payload@) ==> (r matches Step::Deliver { topic: t, text, targets }
                        && t@ == topic@ && text@ == decode_utf8(payload@) && targets@ == old(
                        self,
                    ).listeners())
                    &&& !valid_utf8(payload@) ==> r is Discard
                },
            },
    {
        match m {
            None => {
                self.running = false;
                Step::Close
            },
            Some((topic, payload)) => match utf8_text(payload) {
                Some(text) => Step::Deliver { topic, text, targets: self.listeners.clone() },
                None => Step::Discard,
            },
        }
    }

    /// After a delivery: the listeners whose send failed are removed.
    pub fn delivered(&mut self, failed: &Vec<u64>)
        ensures
            final(self).listeners() == without(old(self).listeners(), failed@),
            final(self).is_running() == old(self).is_running(),
    {
        let ghost ls = self.listeners@;
        let mut kept: Vec<u64> = Vec::new();
        let mut i: usize = 0;
        while i < self.listeners.len()
            invariant
                i <= ls.len(),
                self.listeners@ == ls,
                kept@ == without(ls.subrange(0, i as int), failed@),
            decreases ls.len() - i,
        {
            let id = self.listeners[i];
            assert(ls.subrange(0, i + 1).drop_last() == ls.subrange(0, i as int));
            if !contains_id(failed, id) {
                kept.push(id);
            }
            i = i + 1;
        }
        assert(ls.subrange(0, ls.len() as int) == ls);
        self.listeners = kept;
    }
}

fn contains_id(v: &Vec<u64>, id: u64) -> (r: bool)
    ensures
        r == v@.contains(id),
{
    let mut i: usize = 0;
    while i < v.len()
        invariant
            i <= v@.len(),
            forall|j: int| 0 <= j < i ==> v@[j] != id,
        decreases v@.len() - i,
    {
        if v[i] == id {
            return true;
        }
        i = i + 1;
    }
    false
}

/// One step of the registry's life, as the lemmas below model it: a listener
/// registers, or a text is delivered and the listeners in `failed` (those
/// whose receiving end had gone) drop out.
pub enum Event {
    Subscribe(u64),
    Message(Seq<char>, Seq<u64>),
}

/// The listeners after `e`, with [`Hub::on_command`] and [`Hub::delivered`].
pub open spec fn after(ls: Seq<u64>, e: Event) -> Seq<u64> {
    match e {
        Event::Subscribe(id) => ls.push(id),
        Event::Message(_, failed) => without(ls, failed),
    }
}

/// The listeners after all of `evs`.
pub open spec fn after_all(ls: Seq<u64>, evs: Seq<Event>) -> Seq<u64>
    decreases evs.len(),
{
    if evs.len() == 0 {
        ls
    } else {
        after_all(after(ls, evs[0]), evs.drop_first())
    }
}

/// The texts that listener `id` receives along `evs`: each message goes to
/// the registered listeners, and reaches those whose receiving end is open.
pub open spec fn received(ls: Seq<u64>, evs: Seq<Event>, id: u64) -> Seq<Seq<char>>
    decreases evs.len(),
{
    if evs.len() == 0 {
        seq![]
    } else {
        let now = match evs[0] {
            Event::Message(t, failed) => if ls.contains(id) && !failed.contains(id) {
                seq![t]
            } else {
                seq![]
            },
            Event::Subscribe(_) => seq![],
        };
        now + received(after(ls, evs[0]), evs.drop_first(), id)
    }
}

/// The texts of the messages of `evs`, in order.
pub open spec fn texts(evs: Seq<Event>) -> Seq<Seq<char>>
    decreases evs.len(),
{
    if evs.len() == 0 {
        seq![]
    } else {
        let now = match evs[0] {
            Event::Message(t, _) => seq![t],
            Event::Subscribe(_) => seq![],
        };
        now + texts(evs.drop_first())
    }
}

/// The receiving end of `id` stays open through `evs`.
pub open spec fn stays_open(evs: Seq<Event>, id: u64) -> bool {
    forall|i: int|
        0 <= i < evs.len() ==> (#[trigger] evs[i] matches Event::Message(_, failed) ==> !failed.contains(id))
}

/// `id` does not register during `evs`.
pub open spec fn never_subscribes(evs: Seq<Event>, id: u64) -> bool {
    forall|i: int| 0 <= i < evs.len() ==> #[trigger] evs[i] != Event::Subscribe(id)
}

/// A registered listener stays registered through deliveries it does not fail.
proof fn lemma_after_keeps(ls: Seq<u64>, e: Event, id: u64)
    requires
        ls.contains(id),
        e matches Event::Message(_, failed) ==> !failed.contains(id),
    ensures
        after(ls, e).contains(id),
{
    match e {
        Event::Subscribe(n) => {
            assert(ls.push(n).contains(id)) by {
                let j = choose|j: int| 0 <= j < ls.len() && ls[j] == id;
                assert(ls.push(n)[j] == id);
            }
        },
        Event::Message(_, failed) => {
            let j = choose|j: int| 0 <= j < ls.len() && ls[j] == id;
            lemma_filter_keeps(ls, failed, j);
        },
    }
}

proof fn lemma_filter_keeps(ls: Seq<u64>, failed: Seq<u64>, j: int)
    requires
        0 <= j < ls.len(),
        !failed.contains(ls[j]),
    ensures
        without(ls, failed).contains(ls[j]),
    decreases ls.len(),
{
    if j < ls.len() - 1 {
        lemma_filter_keeps(ls.drop_last(), failed, j);
        let w = without(ls.drop_last(), failed);
        let k = choose|k: int| 0 <= k < w.len() && w[k] == ls[j];
        if !failed.contains(ls.last()) {
            assert(without(ls, failed) == w.push(ls.last()));
            assert(without(ls, failed)[k] == ls[j]);
        } else {
            assert(without(ls, failed) == w);
        }
    } else {
        assert(without(ls, failed) == without(ls.drop_last(), failed).push(ls.last()));
        assert(without(ls, failed).last() == ls[j]);
    }
}

/// A listener that is not registered does not come back without registering.
proof fn lemma_after_absent(ls: Seq<u64>, e: Event, id: u64)
    requires
        !ls.contains(id),
        e != Event::Subscribe(id),
    ensures
        !after(ls, e).contains(id),
{
    match e {
        Event::Subscribe(n) => {
            if ls.push(n).contains(id) {
                let j = choose|j: int| 0 <= j < ls.len() + 1 && ls.push(n)[j] == id;
                if j < ls.len() {
                    assert(ls[j] == id);
                }
            }
        },
        Event::Message(_, failed) => {
            lemma_filter_subset(ls, failed, id);
        },
    }
}

proof fn lemma_filter_subset(ls: Seq<u64>, failed: Seq<u64>, id: u64)
    ensures
        without(ls, failed).contains(id) ==> ls.contains(id) && !failed.contains(id),
    decreases ls.len(),
{
    if ls.len() > 0 {
        let w = without(ls.drop_last(), failed);
        lemma_filter_subset(ls.drop_last(), failed, id);
        if without(ls, failed).contains(id) {
            let k = choose|k: int| 0 <= k < without(ls, failed).len() && without(ls, failed)[k] == id;
            if k < w.len() {
                assert(w[k] == id);
                let j = choose|j: int| 0 <= j < ls.drop_last().len() && ls.drop_last()[j] == id;
                assert(ls[j] == id);
            } else {
                assert(ls[ls.len() - 1] == id);
            }
        }
    }
}

/// A listener registered before the first message, whose receiving end stays
/// open, receives every message, in the order the transport delivered them.
pub proof fn lemma_fanout_fidelity(ls: Seq<u64>, evs: Seq<Event>, id: u64)
    requires
        ls.contains(id),
        stays_open(evs, id),
    ensures
        received(ls, evs, id) == texts(evs),
    decreases evs.len(),
{
    if evs.len() > 0 {
        lemma_after_keeps(ls, evs[0], id);
        assert(stays_open(evs.drop_first(), id)) by {
            assert forall|i: int| 0 <= i < evs.drop_first().len() implies (
            #[trigger] evs.drop_first()[i] matches Event::Message(_, failed) ==> !failed.contains(
                id,
            )) by {
                assert(evs.drop_first()[i] == evs[i + 1]);
            }
        }
        lemma_fanout_fidelity(after(ls, evs[0]), evs.drop_first(), id);
    }
}

/// A listener that is not registered receives nothing until it registers.
pub proof fn lemma_unregistered_receives_nothing(ls: Seq<u64>, evs: Seq<Event>, id: u64)
    requires
        !ls.contains(id),
        never_subscribes(evs, id),
    ensures
        received(ls, evs, id) == Seq::<Seq<char>>::empty(),
        !after_all(ls, evs).contains(id),
    decreases evs.len(),
{
    if evs.len() > 0 {
        assert(evs[0] != Event::Subscribe(id));
        lemma_after_absent(ls, evs[0], id);
        assert(never_subscribes(evs.drop_first(), id)) by {
            assert forall|i: int| 0 <= i < evs.drop_first().len() implies #[trigger] evs.drop_first()[i]
                != Event::Subscribe(id) by {
                assert(evs.drop_first()[i] == evs[i + 1]);
            }
        }
        lemma_unregistered_receives_nothing(after(ls, evs[0]), evs.drop_first(), id);
    }
}

/// What is received along `a + b` is what is received along `a`, then along
/// `b` from the registry `a` leaves.
pub proof fn lemma_received_append(ls: Seq<u64>, a: Seq<Event>, b: Seq<Event>, id: u64)
    ensures
        received(ls, a + b, id) == received(ls, a, id) + received(after_all(ls, a), b, id),
    decreases a.len(),
{
    if a.len() == 0 {
        assert(a + b == b);
    } else {
        assert((a + b)[0] == a[0]);
        assert((a + b).drop_first() == a.drop_first() + b);
        lemma_received_append(after(ls, a[0]), a.drop_first(), b, id);
    }
}

/// A listener that registers after the messages of `before` receives only
/// the messages that follow its registration, none of the earlier ones.
pub proof fn lemma_no_replay(ls: Seq<u64>, before: Seq<Event>, rest: Seq<Event>, id: u64)
    requires
        !ls.contains(id),
        never_subscribes(before, id),
        stays_open(rest, id),
    ensures
        received(ls, before + seq![Event::Subscribe(id)] + rest, id) == texts(rest),
{
    let reg = seq![Event::Subscribe(id)];
    lemma_unregistered_receives_nothing(ls, before, id);
    lemma_received_append(ls, before, reg + rest, id);
    assert(before + reg + rest == before + (reg + rest));
    let mid = after_all(ls, before);
    assert((reg + rest)[0] == Event::Subscribe(id));
    assert((reg + rest).drop_first() == rest);
    assert(mid.push(id).contains(id)) by {
        assert(mid.push(id)[mid.len() as int] == id);
    }
    lemma_fanout_fidelity(mid.push(id), rest, id);
}

/// A delivery that fails for `id` removes it, so it receives nothing more
/// until it registers again; whether any other listener is registered is
/// left as it was.
pub proof fn lemma_pruning(ls: Seq<u64>, t: Seq<char>, failed: Seq<u64>, rest: Seq<Event>, id: u64)
    requires
        failed.contains(id),
        never_subscribes(rest, id),
    ensures
        !after(ls, Event::Message(t, failed)).contains(id),
        received(ls, seq![Event::Message(t, failed)] + rest, id) == Seq::<Seq<char>>::empty(),
        forall|other: u64|
            !failed.contains(other) ==> (#[trigger] after(ls, Event::Message(t, failed)).contains(
                other,
            ) == ls.contains(other)),
{
    let e = Event::Message(t, failed);
    lemma_filter_subset(ls, failed, id);
    lemma_unregistered_receives_nothing(after(ls, e), rest, id);
    let evs = seq![e] + rest;
    assert(evs[0] == e);
    assert(evs.drop_first() == rest);
    assert forall|other: u64| !failed.contains(other) implies (#[trigger] after(ls, e).contains(
        other,
    ) == ls.contains(other)) by {
        lemma_filter_subset(ls, failed, other);
        if ls.contains(other) {
            let j = choose|j: int| 0 <= j < ls.len() && ls[j] == other;
            lemma_filter_keeps(ls, failed, j);
        }
    }
}

} // verus!
