//! The chat: a message is trimmed, censored, checked for length and for its
//! sender's waiting window, and then numbered.
use crate::messages::message_censor::MessageCensorer;
use crate::messages::message_censor_impl::MessageCensorerImpl;
use vstd::utf8::encode_utf8;
use crate::rate_limiter::{free_at, without_expired, IpKey, RateLimiter, RateLimiterImpl};
use crate::text::{byte_len, trim, trimmed};
use vstd::prelude::*;

verus! {

pub struct ChatManagerConfig {
    /// The largest length of a message, in bytes of UTF-8.
    pub max_message_length: usize,
    /// How long an address waits between two messages, in milliseconds.
    pub rate_limit_timeout_ms: u64,
}

/// A message as a user sends it.
pub struct SendMessageInput {
    pub text: String,
    pub sender_id: String,
    /// The sender's address.
    pub sender_ip: IpKey,
    pub reply_to: Option<u64>,
}

#[derive(Debug, Clone, Copy, PartialEq, Eq, Structural)]
pub enum ChatError {
    RateLimited,
    InvalidMessageLength,
}

/// A message that the chat accepted.
#[derive(Debug, Clone, Hash, PartialEq, Eq)]
pub struct SentMessage {
    pub text: String,
    pub sender_id: String,
    pub id: u64,
    pub reply_to: Option<u64>,
}

/// The number that follows `id`, wrapping around after `u64::MAX`.
pub open spec fn next_id_after(id: u64) -> u64 {
    if id == u64::MAX {
        0
    } else {
        (id + 1) as u64
    }
}

/// The number handed out `k` messages after `start`.
pub open spec fn nth_id(start: u64, k: nat) -> u64
    decreases k,
{
    if k == 0 {
        start
    } else {
        next_id_after(nth_id(start, (k - 1) as nat))
    }
}

/// The `k`-th number after `start` is `start + k`, wrapped around `2^64`.
pub proof fn lemma_nth_id(start: u64, k: nat)
    ensures
        nth_id(start, k) == (start + k) % 0x1_0000_0000_0000_0000,
    decreases k,
{
    if k > 0 {
        lemma_nth_id(start, (k - 1) as nat);
    }
}

/// Accepted messages are numbered one after another, so no two of fewer
/// than `2^64` successive accepted messages share a number.
pub proof fn lemma_ids_are_distinct(start: u64, k1: nat, k2: nat)
    requires
        k1 < k2 < 0x1_0000_0000_0000_0000,
    ensures
        nth_id(start, k1) != nth_id(start, k2),
{
    lemma_nth_id(start, k1);
    lemma_nth_id(start, k2);
}

pub struct ChatManager<C: MessageCensorer> {
    max_message_length: usize,
    rate_limiter: RateLimiterImpl,
    censorer: C,
    id_counter: u64,
}

impl<C: MessageCensorer> ChatManager<C> {
    pub closed spec fn max_length(&self) -> usize {
        self.max_message_length
    }

    /// For each address, when it last sent a message.
    pub closed spec fn limited(&self) -> Map<IpKey, u64> {
        self.rate_limiter@
    }

    /// How long an address waits between two messages, in milliseconds.
    pub closed spec fn wait(&self) -> u64 {
        self.rate_limiter.wait()
    }

    /// The censor that messages go through.
    pub closed spec fn censorer(&self) -> C {
        self.censorer
    }

    /// The number that the next accepted message gets.
    pub closed spec fn next_id(&self) -> u64 {
        self.id_counter
    }

    /// Whether `ip` may send a message at `now`.
    pub open spec fn ip_is_free(&self, ip: IpKey, now: u64) -> bool {
        free_at(self.limited(), self.wait(), ip, now)
    }

    /// What a message whose final text is `text` gets: the length of the
    /// text is checked first, then the sender's waiting window.
    pub open spec fn message_outcome(&self, text: Seq<char>, ip: IpKey, now: u64) -> Result<
        (),
        ChatError,
    > {
        let n = byte_len(text);
        if n > self.max_length() || n < 1 {
            Err(ChatError::InvalidMessageLength)
        } else if !self.ip_is_free(ip, now) {
            Err(ChatError::RateLimited)
        } else {
            Ok(())
        }
    }

    /// How accepting a message changes the chat: the sender is marked at
    /// `now` and the next number moves on by one.
    pub open spec fn accept_step(&self, next: &Self, ip: IpKey, now: u64) -> bool {
        &&& next.next_id() == next_id_after(self.next_id())
        &&& next.limited() == self.limited().insert(ip, now)
        &&& next.wait() == self.wait()
        &&& next.max_length() == self.max_length()
    }

    /// What the chat answers, and how it changes into `next`, for a message
    /// whose final text is `text`: accepted, it carries the text, the
    /// sender's id and the next number, and the sender is marked; refused,
    /// it gives the reason and nothing changes.
    pub open spec fn answers(
        &self,
        next: &Self,
        text: Seq<char>,
        sender_id: Seq<char>,
        ip: IpKey,
        now: u64,
        r: Result<SentMessage, ChatError>,
    ) -> bool {
        match r {
            Ok(sent) => {
                &&& self.message_outcome(text, ip, now) == Ok::<(), ChatError>(())
                &&& sent.text@ == text
                &&& sent.sender_id@ == sender_id
                &&& sent.id == self.next_id()
                &&& sent.reply_to == None::<u64>
                &&& self.accept_step(next, ip, now)
                &&& next.censorer() == self.censorer()
            },
            Err(e) => {
                &&& self.message_outcome(text, ip, now) == Err::<(), ChatError>(e)
                &&& *next == *self
            },
        }
    }

    pub fn new(config: ChatManagerConfig, censorer: C) -> (m: Self)
        ensures
            m.max_length() == config.max_message_length,
            m.limited() == Map::<IpKey, u64>::empty(),
            m.wait() == config.rate_limit_timeout_ms,
            m.next_id() == 0,
            m.censorer() == censorer,
    {
        ChatManager {
            max_message_length: config.max_message_length,
            rate_limiter: RateLimiterImpl::new(config.rate_limit_timeout_ms),
            censorer,
            id_counter: 0,
        }
    }

    /// Accepts or refuses a message whose final text is `text`, sent by
    /// `sender_ip` at `now` (milliseconds). An accepted message carries the
    /// text and the next number, and its sender is marked so that it waits
    /// before its next message. A refused message changes nothing.
    pub fn accept_censored(&mut self, text: String, sender_id: String, sender_ip: IpKey, now: u64) -> (r:
        Result<SentMessage, ChatError>)
        ensures
            old(self).answers(&*final(self), text@, sender_id@, sender_ip, now, r),
    {
        let n = text.as_str().len();
        if n > self.max_message_length || n < 1 {
            return Err(ChatError::InvalidMessageLength);
        }
        if !self.rate_limiter.is_free(&sender_ip, now) {
            return Err(ChatError::RateLimited);
        }
        self.rate_limiter.mark_as_limited(sender_ip, now);
        let id = self.id_counter;
        self.id_counter = if id == u64::MAX {
            0
        } else {
            id + 1
        };
        Ok(SentMessage { text, sender_id, id, reply_to: None })
    }

    /// Trims `message`'s text, hands it to the censor, and accepts or refuses
    /// what the censor returns as `accept_censored` does.
    pub fn handle_message(&mut self, message: SendMessageInput, now: u64) -> (r: Result<
        SentMessage,
        ChatError,
    >)
        ensures
            exists|c: Seq<char>|
                #[trigger] old(self).censorer().censors(trimmed(message.text@), c) && old(
                    self,
                ).answers(&*final(self), c, message.sender_id@, message.sender_ip, now, r),
    {
        let trimmed_text = trim(message.text.as_str());
        let text = self.censorer.censor(trimmed_text);
        let ghost c = text@;
        let r = self.accept_censored(text, message.sender_id, message.sender_ip, now);
        assert(old(self).censorer().censors(trimmed(message.text@), c));
        r
    }

    /// Forgets the addresses whose waiting window has run out at `now`.
    pub fn collect_garbage(&mut self, now: u64)
        ensures
            final(self).max_length() == old(self).max_length(),
            final(self).wait() == old(self).wait(),
            final(self).next_id() == old(self).next_id(),
            final(self).censorer() == old(self).censorer(),
            final(self).limited() == without_expired(old(self).limited(), old(self).wait(), now),
            forall|ip: IpKey, t: u64|
                t >= now ==> #[trigger] final(self).ip_is_free(ip, t) == old(self).ip_is_free(
                    ip,
                    t,
                ),
    {
        self.rate_limiter.collect_garbage(now);
    }
}

/// After a sender's message is accepted at `now`, every further message of
/// that sender before `now + wait` is refused, as rate limited where its
/// length would pass; from `now + wait` on the sender is free again; no
/// other sender is affected.
pub proof fn lemma_accepted_message_limits_sender<C: MessageCensorer>(
    before: ChatManager<C>,
    after: ChatManager<C>,
    ip: IpKey,
    now: u64,
    later: u64,
    next_text: Seq<char>,
    other: IpKey,
)
    requires
        before.accept_step(&after, ip, now),
    ensures
        now <= later < now + before.wait() ==> after.message_outcome(next_text, ip, later) is Err,
        now <= later < now + before.wait() && 1 <= byte_len(next_text) <= before.max_length()
            ==> after.message_outcome(next_text, ip, later) == Err::<(), ChatError>(
            ChatError::RateLimited,
        ),
        later >= now + before.wait() ==> after.ip_is_free(ip, later),
        other != ip ==> after.ip_is_free(other, later) == before.ip_is_free(other, later),
{
}

/// The number of accepted messages among `rs`.
pub open spec fn accepted_count(rs: Seq<Result<SentMessage, ChatError>>) -> nat
    decreases rs.len(),
{
    if rs.len() == 0 {
        0
    } else {
        accepted_count(rs.drop_last()) + if rs.last() is Ok {
            1nat
        } else {
            0nat
        }
    }
}

/// `states[0]`, `states[1]`, ... are the states of a chat before and after
/// each of a run of messages, the `i`-th with final text `texts[i]`, sender
/// `senders[i]` at address `ips[i]`, sent at `nows[i]` and answered `rs[i]`,
/// as `accept_censored` answers, and `handle_message` does for the text the
/// censor returned.
pub open spec fn is_run<C: MessageCensorer>(
    states: Seq<ChatManager<C>>,
    texts: Seq<Seq<char>>,
    senders: Seq<Seq<char>>,
    ips: Seq<IpKey>,
    nows: Seq<u64>,
    rs: Seq<Result<SentMessage, ChatError>>,
) -> bool {
    &&& states.len() == rs.len() + 1
    &&& texts.len() == rs.len()
    &&& senders.len() == rs.len()
    &&& ips.len() == rs.len()
    &&& nows.len() == rs.len()
    &&& forall|i: int|
        0 <= i < rs.len() ==> #[trigger] states[i].answers(
            &states[i + 1],
            texts[i],
            senders[i],
            ips[i],
            nows[i],
            rs[i],
        )
}

proof fn lemma_accepted_count_bounds(rs: Seq<Result<SentMessage, ChatError>>, i: int, j: int)
    requires
        0 <= i <= j <= rs.len(),
    ensures
        accepted_count(rs.take(i)) <= accepted_count(rs.take(j)),
        accepted_count(rs.take(j)) <= j,
        i < j && rs[i] is Ok ==> accepted_count(rs.take(i)) + 1 <= accepted_count(rs.take(j)),
        (forall|k: int| i <= k < j ==> #[trigger] rs[k] is Err) ==> accepted_count(rs.take(i))
            == accepted_count(rs.take(j)),
    decreases j - i, j,
{
    if j > 0 {
        assert(rs.take(j).drop_last() == rs.take(j - 1));
        if i < j {
            lemma_accepted_count_bounds(rs, i, j - 1);
            if i == j - 1 {
                assert(rs.take(i) == rs.take(j - 1));
            }
        } else {
            lemma_accepted_count_bounds(rs, j - 1, j - 1);
        }
    }
}

/// Along a run, the chat's next number is the one handed out after as many
/// steps as messages were accepted so far, and only senders that were
/// already marked or had a message accepted are marked.
pub proof fn lemma_run<C: MessageCensorer>(
    states: Seq<ChatManager<C>>,
    texts: Seq<Seq<char>>,
    senders: Seq<Seq<char>>,
    ips: Seq<IpKey>,
    nows: Seq<u64>,
    rs: Seq<Result<SentMessage, ChatError>>,
    i: int,
)
    requires
        is_run(states, texts, senders, ips, nows, rs),
        0 <= i <= rs.len(),
    ensures
        states[i].next_id() == nth_id(states[0].next_id(), accepted_count(rs.take(i))),
        forall|k: IpKey|
            #[trigger] states[i].limited().contains_key(k) ==> states[0].limited().contains_key(k)
                || exists|j: int| 0 <= j < i && ips[j] == k,
    decreases i,
{
    if i == 0 {
        assert(rs.take(0) =~= Seq::<Result<SentMessage, ChatError>>::empty());
    } else {
        lemma_run(states, texts, senders, ips, nows, rs, i - 1);
        assert(rs.take(i).drop_last() == rs.take(i - 1));
        let p = i - 1;
        assert(states[p].answers(&states[p + 1], texts[p], senders[p], ips[p], nows[p], rs[p]));
        assert(p + 1 == i);
        assert forall|k: IpKey|
            #[trigger] states[i].limited().contains_key(k) implies states[0].limited().contains_key(
            k,
        ) || exists|j: int| 0 <= j < i && ips[j] == k by {
            if k != ips[i - 1] {
                assert(states[i - 1].limited().contains_key(k));
                if !states[0].limited().contains_key(k) {
                    let j = choose|j: int| 0 <= j < i - 1 && ips[j] == k;
                    assert(0 <= j < i && ips[j] == k);
                }
            } else {
                assert(0 <= i - 1 < i && ips[i - 1] == k);
            }
        }
    }
}

/// In a run of fewer than `2^64` messages, every accepted message gets the
/// number after that of the previous accepted one, so no two accepted
/// messages share a number; and where the chat started with no sender
/// marked, a sender who had no message in the run before is free.
pub proof fn lemma_run_ids<C: MessageCensorer>(
    states: Seq<ChatManager<C>>,
    texts: Seq<Seq<char>>,
    senders: Seq<Seq<char>>,
    ips: Seq<IpKey>,
    nows: Seq<u64>,
    rs: Seq<Result<SentMessage, ChatError>>,
    i: int,
    j: int,
)
    requires
        is_run(states, texts, senders, ips, nows, rs),
        rs.len() <= 0x1_0000_0000_0000_0000,
        0 <= i < j < rs.len(),
    ensures
        rs[i] is Ok && rs[j] is Ok ==> rs[i]->Ok_0.id != rs[j]->Ok_0.id,
        rs[i] is Ok && rs[j] is Ok && (forall|k: int| i < k < j ==> #[trigger] rs[k] is Err)
            ==> rs[j]->Ok_0.id == next_id_after(rs[i]->Ok_0.id),
        states[0].limited() == Map::<IpKey, u64>::empty() && (forall|k: int|
            0 <= k < j ==> #[trigger] ips[k] != ips[j]) ==> states[j].ip_is_free(ips[j], nows[j]),
{
    let start = states[0].next_id();
    lemma_run(states, texts, senders, ips, nows, rs, i);
    lemma_run(states, texts, senders, ips, nows, rs, j);
    assert(states[i].answers(&states[i + 1], texts[i], senders[i], ips[i], nows[i], rs[i]));
    assert(states[j].answers(&states[j + 1], texts[j], senders[j], ips[j], nows[j], rs[j]));
    lemma_accepted_count_bounds(rs, i, j);
    lemma_accepted_count_bounds(rs, i + 1, j);
    lemma_accepted_count_bounds(rs, i, i + 1);
    assert(rs.take(i + 1).drop_last() == rs.take(i));
    if rs[i] is Ok && rs[j] is Ok {
        lemma_ids_are_distinct(
            start,
            accepted_count(rs.take(i)),
            accepted_count(rs.take(j)),
        );
    }
    if states[0].limited() == Map::<IpKey, u64>::empty() && (forall|k: int|
        0 <= k < j ==> #[trigger] ips[k] != ips[j]) {
        if states[j].limited().contains_key(ips[j]) {
            let k = choose|k: int| 0 <= k < j && ips[k] == ips[j];
            assert(ips[k] != ips[j]);
        }
    }
}

/// A message is accepted exactly when its final text takes between 1 and
/// the maximum number of bytes in UTF-8 and its sender has no mark whose
/// window is still running; the length is checked first.
pub proof fn lemma_message_outcome<C: MessageCensorer>(
    chat: ChatManager<C>,
    text: Seq<char>,
    ip: IpKey,
    now: u64,
)
    requires
        encode_utf8(text).len() <= usize::MAX,
    ensures
        ({
            let n = encode_utf8(text).len();
            let free = !chat.limited().contains_key(ip) || chat.limited()[ip] + chat.wait() <= now;
            &&& chat.message_outcome(text, ip, now) is Ok <==> (1 <= n <= chat.max_length() && free)
            &&& !(1 <= n <= chat.max_length()) ==> chat.message_outcome(text, ip, now) == Err::<
                (),
                ChatError,
            >(ChatError::InvalidMessageLength)
            &&& 1 <= n <= chat.max_length() && !free ==> chat.message_outcome(text, ip, now) == Err::<
                (),
                ChatError,
            >(ChatError::RateLimited)
        }),
{
}

/// An accepted message carries exactly the final text, the sender's id, the
/// chat's next number and no reply-to; the next number then moves on by one
/// (wrapping after `u64::MAX`) and the sender is marked at `now`. A refused
/// message leaves the chat exactly as it was.
pub proof fn lemma_answers<C: MessageCensorer>(
    before: ChatManager<C>,
    after: ChatManager<C>,
    text: Seq<char>,
    sender_id: Seq<char>,
    ip: IpKey,
    now: u64,
    r: Result<SentMessage, ChatError>,
)
    requires
        before.answers(&after, text, sender_id, ip, now, r),
    ensures
        r matches Ok(sent) ==> {
            &&& sent.text@ == text
            &&& sent.sender_id@ == sender_id
            &&& sent.id == before.next_id()
            &&& sent.reply_to is None
            &&& after.next_id() == (if before.next_id() == u64::MAX {
                0
            } else {
                (before.next_id() + 1) as u64
            })
            &&& after.limited() == before.limited().insert(ip, now)
            &&& after.wait() == before.wait()
            &&& after.max_length() == before.max_length()
            &&& after.censorer() == before.censorer()
        },
        r is Err ==> after == before,
{
}

/// With the censor in use, the text a message is judged on and carries is
/// its text trimmed of leading and trailing whitespace.
pub proof fn lemma_identity_censor_keeps_trimmed_text(
    chat: ChatManager<MessageCensorerImpl>,
    text: Seq<char>,
    c: Seq<char>,
)
    requires
        chat.censorer().censors(trimmed(text), c),
    ensures
        c == trimmed(text),
{
}

} // verus!
