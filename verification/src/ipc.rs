//! Message-based inter-process communication, independent of how tasks are
//! scheduled or how messages travel.

use vstd::prelude::*;

verus! {

/// A message that can travel through an IPC channel.
pub trait Message {
    /// A short, stable identifier of the message's type.
    fn message_type(&self) -> &'static str;
}

/// A message endpoint that may drop messages: senders try to send and
/// receivers try to receive.
pub trait MessageEndpoint<M: Message> {
    /// Whether the endpoint, as it is now, may be holding `n` messages.
    /// Unless an implementation says more, any number may be; only an
    /// implementation verified with Verus can say more.
    open spec fn may_hold(&self, n: nat) -> bool {
        true
    }

    /// Tries to send `msg`; `false` when it could not be enqueued, for
    /// example because the channel is full. A message that was sent is
    /// held by the endpoint on top of what it held before.
    fn send(&mut self, msg: M) -> (sent: bool)
        ensures
            sent ==> forall|n: nat| #[trigger] old(self).may_hold(n) ==> final(self).may_hold(n + 1),
    ;

    /// Tries to receive a message.
    fn recv(&mut self) -> Option<M>;

    /// The number of messages buffered.
    fn len(&self) -> (n: usize)
        ensures
            self.may_hold(n as nat),
    ;

    /// Whether no message is buffered, as `len` reports it.
    fn is_empty(&self) -> (empty: bool)
        ensures
            exists|n: nat| #[trigger] self.may_hold(n) && empty == (n == 0),
    {
        let n = self.len();
        assert(self.may_hold(n as nat));
        n == 0
    }
}

/// An endpoint whose count of messages is determined is not empty right
/// after a successful send: `before` held `n` messages, `after` is what the
/// send left, and `empty` is what `is_empty` reports of `after`.
pub proof fn endpoint_is_not_empty_after_send<M: Message, E: MessageEndpoint<M>>(
    before: E,
    after: E,
    n: nat,
    empty: bool,
)
    requires
        before.may_hold(n),
        forall|m: nat| #[trigger] before.may_hold(m) ==> after.may_hold(m + 1),
        forall|m1: nat, m2: nat| after.may_hold(m1) && after.may_hold(m2) ==> m1 == m2,
        exists|m: nat| #[trigger] after.may_hold(m) && empty == (m == 0),
    ensures
        !empty,
{
    assert(after.may_hold(n + 1));
}

} // verus!
