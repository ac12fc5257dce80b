//! The decision core of a single-cell handoff.
//!
//! A slot hands one value from a producer to at most one consumer and can
//! fire a one-shot callback on each transition: on-full when a value
//! arrives, on-empty when it is taken. The callback code itself is
//! type-erased and lives outside the verified library; every decision —
//! whether a transition happens, which callback fires, whether a
//! registration fires inline or stays pending, what a cancellation removes
//! — is made here, over plain data, and is verified. Each registered
//! callback is named by a fresh token; at most one callback of each flavour
//! is pending, and a callback leaves the pending state the moment it is
//! handed out to fire, so it fires exactly once.

use vstd::prelude::*;

verus! {

/// The state of a single-cell handoff: the stored value and the tokens of
/// the pending callbacks. Holding a token here stands for holding the
/// callback registered under it.
pub struct SlotCore<T> {
    /// The stored value, while the slot is full.
    pub value: Option<T>,
    /// The token of the pending on-full callback.
    pub on_full: Option<u64>,
    /// The token of the pending on-empty callback.
    pub on_empty: Option<u64>,
    /// The next callback token to mint; larger than every token minted.
    pub next_token: u64,
}

impl<T> SlotCore<T> {
    /// Tokens already minted are below the mint counter, so a fresh token
    /// never collides with a pending one.
    pub open spec fn wf(&self) -> bool {
        &&& (self.on_full matches Some(t) ==> t < self.next_token)
        &&& (self.on_empty matches Some(t) ==> t < self.next_token)
    }

    /// An empty slot with no callbacks pending.
    pub fn new() -> (s: SlotCore<T>)
        ensures
            s == (SlotCore::<T> { value: None, on_full: None, on_empty: None, next_token: 0 }),
            s.wf(),
    {
        SlotCore { value: None, on_full: None, on_empty: None, next_token: 0 }
    }

    /// Fill the slot with `v` if it is empty: the success carries whether a
    /// pending on-full callback must now fire, and that callback leaves the
    /// pending state. A full slot is left unchanged and hands `v` back.
    pub fn produce(&mut self, v: T) -> (r: Result<bool, T>)
        requires
            old(self).wf(),
        ensures
            final(self).wf(),
            match r {
                Result::Ok(fire) => {
                    &&& old(self).value is None
                    &&& fire == (old(self).on_full is Some)
                    &&& *final(self) == (SlotCore::<T> {
                        value: Some(v),
                        on_full: None,
                        ..*old(self)
                    })
                },
                Result::Err(back) => {
                    &&& old(self).value is Some
                    &&& back == v
                    &&& *final(self) == *old(self)
                },
            },
    {
        if self.value.is_some() {
            return Err(v);
        }
        self.value = Some(v);
        let fire = self.on_full.is_some();
        self.on_full = None;
        Ok(fire)
    }

    /// Take the value out of the slot if it is full: the result carries the
    /// value and whether a pending on-empty callback must now fire, and
    /// that callback leaves the pending state. An empty slot is unchanged.
    pub fn consume(&mut self) -> (r: Option<(T, bool)>)
        requires
            old(self).wf(),
        ensures
            final(self).wf(),
            match r {
                Option::Some(out) => {
                    &&& old(self).value == Some(out.0)
                    &&& out.1 == (old(self).on_empty is Some)
                    &&& *final(self) == (SlotCore::<T> {
                        value: None,
                        on_empty: None,
                        ..*old(self)
                    })
                },
                Option::None => old(self).value is None && *final(self) == *old(self),
            },
    {
        match self.value.take() {
            None => None,
            Some(v) => {
                let fire = self.on_empty.is_some();
                self.on_empty = None;
                Some((v, fire))
            },
        }
    }

    /// Register an on-full callback: mint its token and decide its fate.
    /// On a full slot it fires inline at once and is never pending; on an
    /// empty slot it stays pending under the token. Fails, changing
    /// nothing, while another on-full callback is pending.
    pub fn register_on_full(&mut self) -> (r: Result<(u64, bool), ()>)
        requires
            old(self).wf(),
            old(self).next_token < u64::MAX,
        ensures
            final(self).wf(),
            match r {
                Result::Ok(out) => {
                    &&& old(self).on_full is None
                    &&& out.0 == old(self).next_token
                    &&& out.1 == (old(self).value is Some)
                    &&& *final(self) == (SlotCore::<T> {
                        on_full: if out.1 { None } else { Some(out.0) },
                        next_token: (old(self).next_token + 1) as u64,
                        ..*old(self)
                    })
                },
                Result::Err(_) => old(self).on_full is Some && *final(self) == *old(self),
            },
    {
        if self.on_full.is_some() {
            return Err(());
        }
        let token = self.next_token;
        self.next_token = self.next_token + 1;
        if self.value.is_some() {
            Ok((token, true))
        } else {
            self.on_full = Some(token);
            Ok((token, false))
        }
    }

    /// Register an on-empty callback: mint its token and decide its fate.
    /// On an empty slot it fires inline at once and is never pending; on a
    /// full slot it stays pending under the token. Fails, changing nothing,
    /// while another on-empty callback is pending.
    pub fn register_on_empty(&mut self) -> (r: Result<(u64, bool), ()>)
        requires
            old(self).wf(),
            old(self).next_token < u64::MAX,
        ensures
            final(self).wf(),
            match r {
                Result::Ok(out) => {
                    &&& old(self).on_empty is None
                    &&& out.0 == old(self).next_token
                    &&& out.1 == (old(self).value is None)
                    &&& *final(self) == (SlotCore::<T> {
                        on_empty: if out.1 { None } else { Some(out.0) },
                        next_token: (old(self).next_token + 1) as u64,
                        ..*old(self)
                    })
                },
                Result::Err(_) => old(self).on_empty is Some && *final(self) == *old(self),
            },
    {
        if self.on_empty.is_some() {
            return Err(());
        }
        let token = self.next_token;
        self.next_token = self.next_token + 1;
        if self.value.is_none() {
            Ok((token, true))
        } else {
            self.on_empty = Some(token);
            Ok((token, false))
        }
    }

    /// Remove the callback registered under `token` if it is still pending:
    /// exactly the pending registrations carrying that token are cleared,
    /// and nothing else changes. A callback that already fired, or another
    /// token, is unaffected — racing a cancellation against the transition
    /// is allowed, and firing wins.
    pub fn cancel(&mut self, token: u64)
        requires
            old(self).wf(),
        ensures
            final(self).wf(),
            final(self).on_full == (if old(self).on_full == Some(token) {
                Option::<u64>::None
            } else {
                old(self).on_full
            }),
            final(self).on_empty == (if old(self).on_empty == Some(token) {
                Option::<u64>::None
            } else {
                old(self).on_empty
            }),
            final(self).value == old(self).value,
            final(self).next_token == old(self).next_token,
    {
        match self.on_full {
            Some(t) => {
                if t == token {
                    self.on_full = None;
                }
            },
            None => (),
        }
        match self.on_empty {
            Some(t) => {
                if t == token {
                    self.on_empty = None;
                }
            },
            None => (),
        }
    }
}

} // verus!
