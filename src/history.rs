use vstd::prelude::*;
use vstd::string::StringExecFns;

verus! {

/// Number of interactions a dialogue cache keeps by default.
pub const DEFAULT_CAPACITY: usize = 10;

/// One user message and the reply attached to it (empty until the reply is known).
pub struct UserInteraction {
    pub timestamp: String,
    pub user_request: String,
    pub llm_response: String,
}

/// The mathematical value of an interaction.
pub ghost struct Interaction {
    pub timestamp: Seq<char>,
    pub user_request: Seq<char>,
    pub llm_response: Seq<char>,
}

impl View for UserInteraction {
    type V = Interaction;

    open spec fn view(&self) -> Interaction {
        Interaction {
            timestamp: self.timestamp@,
            user_request: self.user_request@,
            llm_response: self.llm_response@,
        }
    }
}

/// A bounded, oldest-first history of interactions for one conversation.
pub struct DialogueCache {
    pub messages: Vec<UserInteraction>,
    pub max_size: usize,
}

/// The state kept for one conversation.
pub struct UserState {
    pub dialogue_cache: DialogueCache,
}

/// Appends `x` to `s`, dropping the oldest element when the length would exceed `cap`.
pub open spec fn push_bounded<A>(s: Seq<A>, x: A, cap: nat) -> Seq<A> {
    let t = s.push(x);
    if t.len() > cap {
        t.drop_first()
    } else {
        t
    }
}

/// The history after appending each of `items` in turn.
pub open spec fn push_all_bounded<A>(s: Seq<A>, items: Seq<A>, cap: nat) -> Seq<A>
    decreases items.len(),
{
    if items.len() == 0 {
        s
    } else {
        push_bounded(push_all_bounded(s, items.drop_last(), cap), items.last(), cap)
    }
}

/// The history with `response` set on its most recent interaction (unchanged when empty).
pub open spec fn attach_last(s: Seq<Interaction>, response: Seq<char>) -> Seq<Interaction> {
    if s.len() == 0 {
        s
    } else {
        s.update(s.len() - 1, Interaction { llm_response: response, ..s.last() })
    }
}

/// What one interaction shows in a transcript.
pub open spec fn render_entry(ts: Seq<char>, request: Seq<char>, response: Seq<char>) -> Seq<char> {
    "["@ + ts + "] User: "@ + request + "\nAssistant: "@ + response
}

/// Each interaction of `s` rendered, in order.
pub open spec fn rendered(s: Seq<Interaction>) -> Seq<Seq<char>> {
    s.map_values(|e: Interaction| render_entry(e.timestamp, e.user_request, e.llm_response))
}

/// The parts joined with `sep` between each two neighbours.
pub open spec fn join(parts: Seq<Seq<char>>, sep: Seq<char>) -> Seq<char>
    decreases parts.len(),
{
    if parts.len() == 0 {
        Seq::empty()
    } else if parts.len() == 1 {
        parts[0]
    } else {
        join(parts.drop_last(), sep) + sep + parts.last()
    }
}

/// The views of a vector of strings.
pub open spec fn string_views(v: Seq<String>) -> Seq<Seq<char>> {
    v.map_values(|s: String| s@)
}

/// Relies on chrono's `Local::now` and `format`: the local time now as
/// "YYYY-MM-DD HH:MM:SS (Weekday)". Nothing is promised of the value.
#[verifier::external_body]
fn now_timestamp() -> (r: String) {
    chrono::Local::now().format("%Y-%m-%d %H:%M:%S (%A)").to_string()
}

fn copy_string(s: &String) -> (r: String)
    ensures
        r@ == s@,
{
    String::from_str(s.as_str())
}

impl View for DialogueCache {
    type V = Seq<Interaction>;

    open spec fn view(&self) -> Seq<Interaction> {
        self.messages@.map_values(|e: UserInteraction| e@)
    }
}

impl DialogueCache {
    /// Holds at most `max_size` interactions.
    pub open spec fn wf(&self) -> bool {
        self.messages@.len() <= self.max_size
    }

    /// An empty cache with the default capacity.
    pub fn new() -> (r: DialogueCache)
        ensures
            r.wf(),
            r.messages@.len() == 0,
            r.max_size == DEFAULT_CAPACITY,
    {
        DialogueCache { messages: Vec::new(), max_size: DEFAULT_CAPACITY }
    }

    /// An empty cache holding at most `max_size` interactions.
    pub fn with_capacity(max_size: usize) -> (r: DialogueCache)
        ensures
            r.wf(),
            r.messages@.len() == 0,
            r.max_size == max_size,
    {
        DialogueCache { messages: Vec::new(), max_size }
    }

    /// Number of interactions held.
    pub fn len(&self) -> (r: usize)
        ensures
            r == self.messages@.len(),
    {
        self.messages.len()
    }

    /// Appends an interaction with the given timestamp and an empty response,
    /// evicting the oldest one when the capacity is exceeded.
    pub fn add_user_message_at(&mut self, timestamp: String, user_question: String)
        requires
            old(self).wf(),
        ensures
            final(self).wf(),
            final(self).max_size == old(self).max_size,
            final(self)@ == push_bounded(
                old(self)@,
                Interaction { timestamp: timestamp@, user_request: user_question@, llm_response: Seq::empty() },
                old(self).max_size as nat,
            ),
    {
        let entry = UserInteraction { timestamp, user_request: user_question, llm_response: String::new() };
        self.messages.push(entry);
        let ghost pushed = old(self)@.push(entry@);
        assert(self@ =~= pushed);
        if self.messages.len() > self.max_size {
            self.messages.remove(0);
            assert(self@ =~= pushed.drop_first());
        }
    }

    /// Appends an interaction stamped with the current local time.
    pub fn add_user_message(&mut self, user_question: String)
        requires
            old(self).wf(),
        ensures
            final(self).wf(),
            final(self).max_size == old(self).max_size,
            exists|ts: Seq<char>|
                final(self)@ == push_bounded(
                    old(self)@,
                    Interaction { timestamp: ts, user_request: user_question@, llm_response: Seq::empty() },
                    old(self).max_size as nat,
                ),
    {
        let timestamp = now_timestamp();
        self.add_user_message_at(timestamp, user_question);
    }

    /// Sets the response of the most recent interaction; does nothing on an empty cache.
    pub fn update_last_response(&mut self, llm_response: String)
        requires
            old(self).wf(),
        ensures
            final(self).wf(),
            final(self).max_size == old(self).max_size,
            final(self)@ == attach_last(old(self)@, llm_response@),
    {
        let n = self.messages.len();
        if n > 0 {
            let last = &self.messages[n - 1];
            let entry = UserInteraction {
                timestamp: copy_string(&last.timestamp),
                user_request: copy_string(&last.user_request),
                llm_response,
            };
            self.messages.set(n - 1, entry);
            assert(self@ =~= attach_last(old(self)@, llm_response@));
        }
    }

    fn render_at(&self, i: usize) -> (r: String)
        requires
            i < self@.len(),
        ensures
            r@ == rendered(self@)[i as int],
    {
        let e = &self.messages[i];
        let mut r = String::from_str("[");
        r.append(e.timestamp.as_str());
        r.append("] User: ");
        r.append(e.user_request.as_str());
        r.append("\nAssistant: ");
        r.append(e.llm_response.as_str());
        r
    }

    /// The whole transcript: each interaction rendered, joined by blank lines.
    pub fn to_string(&self) -> (r: String)
        ensures
            r@ == join(rendered(self@), "\n\n"@),
    {
        let mut r = String::new();
        let n = self.messages.len();
        let mut i: usize = 0;
        while i < n
            invariant
                n == self@.len(),
                i <= n,
                r@ == join(rendered(self@).take(i as int), "\n\n"@),
            decreases n - i,
        {
            let part = self.render_at(i);
            if i > 0 {
                r.append("\n\n");
            }
            r.append(part.as_str());
            proof {
                let parts = rendered(self@).take(i + 1);
                assert(parts.drop_last() =~= rendered(self@).take(i as int));
                if i == 0 {
                    assert(r@ =~= parts[0]);
                }
            }
            i = i + 1;
        }
        assert(rendered(self@).take(n as int) =~= rendered(self@));
        r
    }

    /// Each interaction rendered, oldest first.
    pub fn to_vec(&self) -> (r: Vec<String>)
        ensures
            string_views(r@) == rendered(self@),
    {
        let mut r: Vec<String> = Vec::new();
        let n = self.messages.len();
        let mut i: usize = 0;
        while i < n
            invariant
                n == self@.len(),
                i <= n,
                string_views(r@) =~= rendered(self@).take(i as int),
            decreases n - i,
        {
            let part = self.render_at(i);
            let ghost before = r@;
            r.push(part);
            assert(string_views(r@) =~= string_views(before).push(part@));
            assert(rendered(self@).take(i + 1) =~= rendered(self@).take(i as int).push(part@));
            i = i + 1;
        }
        assert(rendered(self@).take(n as int) =~= rendered(self@));
        r
    }
}

/// After any `n` appends to a history that starts empty with capacity `cap`, it holds
/// `min(n, cap)` records, and they are the last ones appended, in arrival order.
pub proof fn lemma_bounded_history<A>(items: Seq<A>, cap: nat)
    ensures
        push_all_bounded(Seq::<A>::empty(), items, cap).len() == if items.len() <= cap {
            items.len()
        } else {
            cap
        },
        push_all_bounded(Seq::<A>::empty(), items, cap) == items.subrange(
            items.len() - (if items.len() <= cap { items.len() as int } else { cap as int }),
            items.len() as int,
        ),
    decreases items.len(),
{
    let n = items.len();
    if n > 0 {
        let init = items.drop_last();
        lemma_bounded_history(init, cap);
        let k = if n - 1 <= cap { n - 1 } else { cap as int };
        let t = items.subrange(n - 1 - k, n - 1).push(items.last());
        assert(t =~= items.subrange(n - 1 - k, n as int));
        if t.len() > cap {
            assert(t.drop_first() =~= items.subrange(n - k, n as int));
        }
    } else {
        assert(items.subrange(0, 0) =~= Seq::<A>::empty());
    }
}

/// Attaching a response right after an append sets it on the record just appended and on
/// no earlier one, whatever responses the earlier records hold.
pub proof fn lemma_response_on_latest(s: Seq<Interaction>, x: Interaction, cap: nat, r: Seq<char>)
    requires
        s.len() <= cap,
        cap > 0,
    ensures
        ({
            let appended = push_bounded(s, x, cap);
            let attached = attach_last(appended, r);
            &&& attached.len() == appended.len()
            &&& attached.last() == Interaction { llm_response: r, ..x }
            &&& forall|i: int| 0 <= i < attached.len() - 1 ==> attached[i] == appended[i]
        }),
{
}

/// The joined transcript and the list of rendered records agree: the transcript is
/// exactly the list joined with a blank line between neighbours, and the list holds one
/// element per record.
pub proof fn lemma_dual_rendering(c: DialogueCache, transcript: Seq<char>, list: Seq<Seq<char>>)
    requires
        transcript == join(rendered(c@), "\n\n"@),
        list == rendered(c@),
    ensures
        transcript == join(list, "\n\n"@),
        list.len() == c@.len(),
{
}

} // verus!
