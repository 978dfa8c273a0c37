//! Typing indicators: who is typing in which channel, stamped with the
//! receiver's clock at arrival and considered stale after a fixed window.

use vstd::prelude::*;

use crate::codec::str_eq;

verus! {

/// Seconds after which a typing notice is considered stale.
pub const TYPING_EXPIRY_SECS: i64 = 10;

/// One live typing notice.
#[derive(Clone, Debug)]
pub struct TypingEntry {
    pub channel_id: String,
    pub user_id: String,
    /// Receiver-clock time at which the notice goes stale.
    pub expires_at: i64,
}

/// Mathematical value of a [`TypingEntry`].
#[verifier::ext_equal]
pub struct TypingEntryV {
    pub channel_id: Seq<char>,
    pub user_id: Seq<char>,
    pub expires_at: i64,
}

impl DeepView for TypingEntry {
    type V = TypingEntryV;

    open spec fn deep_view(&self) -> TypingEntryV {
        TypingEntryV {
            channel_id: self.channel_id@,
            user_id: self.user_id@,
            expires_at: self.expires_at,
        }
    }
}

/// At most one notice per (channel, user) pair.
pub open spec fn spec_tracker_wf(t: Seq<TypingEntryV>) -> bool {
    forall|i: int, j: int|
        0 <= i < j < t.len() ==> !(t[i].channel_id == t[j].channel_id && t[i].user_id
            == t[j].user_id)
}

/// Recording a notice refreshes the pair's expiry in place, or appends it.
pub open spec fn spec_note(t: Seq<TypingEntryV>, ch: Seq<char>, u: Seq<char>, exp: i64) -> Seq<
    TypingEntryV,
> {
    let e = TypingEntryV { channel_id: ch, user_id: u, expires_at: exp };
    if exists|i: int| 0 <= i < t.len() && t[i].channel_id == ch && t[i].user_id == u {
        let i = choose|i: int| 0 <= i < t.len() && t[i].channel_id == ch && t[i].user_id == u;
        t.update(i, e)
    } else {
        t.push(e)
    }
}

/// The users whose notices for this channel are still live at `now`.
pub open spec fn spec_active(t: Seq<TypingEntryV>, ch: Seq<char>, now: i64) -> Seq<Seq<char>>
    decreases t.len(),
{
    if t.len() == 0 {
        Seq::empty()
    } else {
        let rest = spec_active(t.drop_first(), ch, now);
        if t[0].channel_id == ch && t[0].expires_at > now {
            seq![t[0].user_id] + rest
        } else {
            rest
        }
    }
}

proof fn lemma_active_push(t: Seq<TypingEntryV>, e: TypingEntryV, ch: Seq<char>, now: i64)
    ensures
        spec_active(t.push(e), ch, now) == spec_active(t, ch, now) + (if e.channel_id == ch
            && e.expires_at > now {
            seq![e.user_id]
        } else {
            Seq::<Seq<char>>::empty()
        }),
    decreases t.len(),
{
    if t.len() == 0 {
        let r = t.push(e).drop_first();
        assert(r =~= Seq::<TypingEntryV>::empty());
        assert(spec_active(r, ch, now) == Seq::<Seq<char>>::empty());
        assert(spec_active(t.push(e), ch, now) =~= spec_active(t, ch, now) + (if e.channel_id
            == ch && e.expires_at > now {
            seq![e.user_id]
        } else {
            Seq::<Seq<char>>::empty()
        }));
    } else {
        assert(t.push(e).drop_first() =~= t.drop_first().push(e));
        lemma_active_push(t.drop_first(), e, ch, now);
        assert(spec_active(t.push(e), ch, now) =~= spec_active(t, ch, now) + (if e.channel_id
            == ch && e.expires_at > now {
            seq![e.user_id]
        } else {
            Seq::<Seq<char>>::empty()
        }));
    }
}

/// Tracks which users are typing in which channels.
pub struct TypingTracker {
    entries: Vec<TypingEntry>,
}

impl View for TypingTracker {
    type V = Seq<TypingEntryV>;

    closed spec fn view(&self) -> Seq<TypingEntryV> {
        self.entries.deep_view()
    }
}

impl TypingTracker {
    /// An empty tracker.
    pub fn new() -> (r: Self)
        ensures
            r@ == Seq::<TypingEntryV>::empty(),
            spec_tracker_wf(r@),
    {
        let t = TypingTracker { entries: Vec::new() };
        proof {
            assert(t@ =~= Seq::<TypingEntryV>::empty());
        }
        t
    }

    /// Record a typing notice seen at `now` on the receiver's clock.
    pub fn note_typing(&mut self, channel_id: String, user_id: String, now: i64)
        requires
            spec_tracker_wf(old(self)@),
            now <= i64::MAX - TYPING_EXPIRY_SECS,
        ensures
            spec_tracker_wf(final(self)@),
            final(self)@ == spec_note(old(self)@, channel_id@, user_id@, (now + TYPING_EXPIRY_SECS) as i64),
    {
        let exp = now + TYPING_EXPIRY_SECS;
        let n = self.entries.len();
        let mut i: usize = 0;
        while i < n
            invariant
                i <= n,
                n == self@.len(),
                self@ == old(self)@,
                spec_tracker_wf(old(self)@),
                exp == now + TYPING_EXPIRY_SECS,
                now <= i64::MAX - TYPING_EXPIRY_SECS,
                forall|k: int|
                    0 <= k < i ==> !(self@[k].channel_id == channel_id@ && self@[k].user_id
                        == user_id@),
            decreases n - i,
        {
            let hit = str_eq(self.entries[i].channel_id.as_str(), channel_id.as_str()) && str_eq(
                self.entries[i].user_id.as_str(),
                user_id.as_str(),
            );
            if hit {
                proof {
                    assert(self@[i as int].channel_id == channel_id@ && self@[i as int].user_id
                        == user_id@);
                }
                self.entries[i] = TypingEntry { channel_id, user_id, expires_at: exp };
                proof {
                    let ghost t = old(self)@;
                    assert(0 <= i < t.len() && t[i as int].channel_id == channel_id@ && t[
                        i as int
                    ].user_id == user_id@);
                    let w = choose|w: int|
                        0 <= w < t.len() && t[w].channel_id == channel_id@ && t[w].user_id
                            == user_id@;
                    if w < i as int {
                        assert(!(t[w].channel_id == t[i as int].channel_id && t[w].user_id == t[
                            i as int
                        ].user_id));
                    } else if w > i as int {
                        assert(!(t[i as int].channel_id == t[w].channel_id && t[
                            i as int
                        ].user_id == t[w].user_id));
                    }
                    assert(w == i);
                    assert(self@ =~= t.update(
                        i as int,
                        TypingEntryV {
                            channel_id: channel_id@,
                            user_id: user_id@,
                            expires_at: exp,
                        },
                    ));
                    assert(self@ =~= spec_note(
                        t,
                        channel_id@,
                        user_id@,
                        (now + TYPING_EXPIRY_SECS) as i64,
                    ));
                    assert forall|a: int, b: int| 0 <= a < b < self@.len() implies !(self@[
                        a
                    ].channel_id == self@[b].channel_id && self@[a].user_id == self@[
                        b
                    ].user_id) by {
                        assert(!(t[a].channel_id == t[b].channel_id && t[a].user_id
                            == t[b].user_id));
                    }
                }
                return ;
            }
            i = i + 1;
        }
        self.entries.push(TypingEntry { channel_id, user_id, expires_at: exp });
        proof {
            let ghost t = old(self)@;
            assert(self@ =~= t.push(
                TypingEntryV { channel_id: channel_id@, user_id: user_id@, expires_at: exp },
            ));
            assert(self@ =~= spec_note(t, channel_id@, user_id@, (now + TYPING_EXPIRY_SECS) as i64));
            assert forall|a: int, b: int| 0 <= a < b < self@.len() implies !(self@[a].channel_id
                == self@[b].channel_id && self@[a].user_id == self@[b].user_id) by {
                if b < t.len() {
                    assert(!(t[a].channel_id == t[b].channel_id && t[a].user_id == t[b].user_id));
                } else {
                    assert(!(t[a].channel_id == channel_id@ && t[a].user_id == user_id@));
                }
            }
        }
    }

    /// The users whose typing notices for this channel are still live.
    pub fn typing_users(&self, channel_id: &str, now: i64) -> (r: Vec<String>)
        ensures
            r.deep_view() == spec_active(self@, channel_id@, now),
    {
        let n = self.entries.len();
        let mut out: Vec<String> = Vec::new();
        proof {
            assert(out.deep_view() =~= spec_active(self@.take(0), channel_id@, now));
        }
        let mut i: usize = 0;
        while i < n
            invariant
                i <= n,
                n == self@.len(),
                out.deep_view() == spec_active(self@.take(i as int), channel_id@, now),
            decreases n - i,
        {
            let e = &self.entries[i];
            if str_eq(e.channel_id.as_str(), channel_id) && e.expires_at > now {
                out.push(e.user_id.clone());
            }
            proof {
                assert(self@.take(i + 1) =~= self@.take(i as int).push(self@[i as int]));
                lemma_active_push(self@.take(i as int), self@[i as int], channel_id@, now);
                assert(out.deep_view() =~= spec_active(self@.take(i + 1), channel_id@, now));
            }
            i = i + 1;
        }
        proof {
            assert(self@.take(n as int) =~= self@);
        }
        out
    }
}

} // verus!
