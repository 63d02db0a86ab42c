//! The context: exclusive owner of one module channel, the three
//! authorization-session slots, the handle registry and the property cache.
//!
//! Every module operation is orchestrated from here in a fixed order:
//! session resolution, native call, error translation, registry update,
//! output decoding, zeroization. The native calls themselves are performed
//! by the caller, which hands their outcomes back to the verified decision
//! logic in this module.

use vstd::prelude::*;

use crate::capability::{
    batch_lookup, CapabilityData, CapabilityRequest, CapabilityType, TaggedProperty,
};
use crate::errors::{Error, WrapperErrorKind};
use crate::handle_manager::{close_handles, flush_handles, HandleManager};
use crate::session::{raw_session, raw_session_spec, AuthSession, SessionSlots};

verus! {

/// Lifecycle of a context: operations run while it is open; teardown
/// sweeps the registry exactly once and then releases the channel.
#[derive(Clone, Copy, PartialEq, Eq, Structural, Debug)]
pub enum LifecycleState {
    /// The channel is initialized and operations may run.
    Open,
    /// The teardown sweep is in progress; no further operations start.
    TearingDown,
    /// The sweep is done and the channel has been released.
    Closed,
}

/// The capability query that the property cache issues on a miss for
/// `tag`: a small batch of properties starting at the tag, since a query
/// is expensive relative to caching a few neighbours.
pub open spec fn property_cache_request(tag: u32) -> CapabilityRequest {
    CapabilityRequest {
        capability: CapabilityType::TpmProperties,
        starting_property: tag,
        property_count: 4,
    }
}

/// Exclusive owner of one module channel together with all per-channel
/// bookkeeping: session slots, handle registry and property cache.
#[derive(Debug)]
pub struct Context {
    /// Where the context stands in its lifecycle.
    pub state: LifecycleState,
    /// The initialized channel handle this context owns; released exactly
    /// once, at the end of teardown.
    pub channel: u64,
    /// The three ordered session slots used for the next module call.
    pub sessions: SessionSlots,
    /// Registry of every open native handle created through this context.
    pub handle_manager: HandleManager,
    /// Properties the module has reported, appended as they arrive and
    /// read through last-wins lookup; never invalidated while the context
    /// lives, since the module's capabilities are static.
    pub cached_tpm_properties: Vec<TaggedProperty>,
}

impl Context {
    /// Well-formedness: the handle registry holds each handle at most once.
    pub open spec fn wf(self) -> bool {
        self.handle_manager.wf()
    }

    /// The cached value for a property tag, if the module has reported one.
    pub open spec fn cached_property(self, tag: u32) -> Option<u32> {
        batch_lookup(self.cached_tpm_properties@, tag)
    }

    /// Creates a context around an initialized channel handle obtained from
    /// the transport loader. The context takes ownership of the channel and
    /// releases it exactly once, during teardown.
    pub fn new(channel: u64) -> (r: Context)
        ensures
            r.state == LifecycleState::Open,
            r.channel == channel,
            r.sessions == (None::<AuthSession>, None::<AuthSession>, None::<AuthSession>),
            r.handle_manager.entries_seq() == Seq::<crate::handle_manager::HandleEntry>::empty(),
            r.cached_tpm_properties@ == Seq::<TaggedProperty>::empty(),
            r.wf(),
    {
        Context {
            state: LifecycleState::Open,
            channel,
            sessions: (None, None, None),
            handle_manager: HandleManager::new(),
            cached_tpm_properties: Vec::new(),
        }
    }

    /// Sets the sessions used in subsequent module calls. In some calls
    /// these sessions are optional, in others they are required.
    pub fn set_sessions(&mut self, session_handles: SessionSlots)
        ensures
            *final(self) == (Context { sessions: session_handles, ..*old(self) }),
    {
        self.sessions = session_handles;
    }

    /// Clears all three session slots, so the "no session" sentinel is
    /// used wherever sessions are optional.
    pub fn clear_sessions(&mut self)
        ensures
            *final(self) == (Context {
                sessions: (None::<AuthSession>, None::<AuthSession>, None::<AuthSession>),
                ..*old(self)
            }),
    {
        self.sessions = (None, None, None);
    }

    /// Returns the sessions currently set.
    pub fn sessions(&self) -> (r: SessionSlots)
        ensures
            r == self.sessions,
    {
        self.sessions
    }

    /// Runs `f` with the given sessions in place and restores the previous
    /// sessions afterwards, whether `f` succeeded, failed or itself changed
    /// the slots: callers composing operations never observe session state
    /// leaking from one call into the next.
    pub fn execute_with_sessions<F, T>(&mut self, session_handles: SessionSlots, f: F) -> (r: T) where
        F: FnOnce(&mut Context) -> T,

        requires
            forall|c: &mut Context|
                *c == (Context { sessions: session_handles, ..*old(self) }) ==> call_requires(
                    f,
                    (c,),
                ),
        ensures
            final(self).sessions == old(self).sessions,
            exists|c: &mut Context|
                {
                    &&& *c == (Context { sessions: session_handles, ..*old(self) })
                    &&& #[trigger] call_ensures(f, (c,), r)
                    &&& *final(self) == (Context { sessions: old(self).sessions, ..*final(c) })
                },
    {
        let oldses = self.sessions();
        self.set_sessions(session_handles);
        let res = f(self);
        self.set_sessions(oldses);
        res
    }

    /// Runs `f` with a single session in slot one and the other slots
    /// empty, restoring the previous sessions afterwards.
    pub fn execute_with_session<F, T>(&mut self, session_handle: Option<AuthSession>, f: F) -> (r:
        T) where F: FnOnce(&mut Context) -> T,
        requires
            forall|c: &mut Context|
                *c == (Context {
                    sessions: (session_handle, None::<AuthSession>, None::<AuthSession>),
                    ..*old(self)
                }) ==> call_requires(f, (c,)),
        ensures
            final(self).sessions == old(self).sessions,
            exists|c: &mut Context|
                {
                    &&& *c == (Context {
                        sessions: (session_handle, None::<AuthSession>, None::<AuthSession>),
                        ..*old(self)
                    })
                    &&& #[trigger] call_ensures(f, (c,), r)
                    &&& *final(self) == (Context { sessions: old(self).sessions, ..*final(c) })
                },
    {
        self.execute_with_sessions((session_handle, None, None), f)
    }

    /// Runs `f` with all three session slots empty, restoring the previous
    /// sessions afterwards.
    pub fn execute_without_session<F, T>(&mut self, f: F) -> (r: T) where
        F: FnOnce(&mut Context) -> T,

        requires
            forall|c: &mut Context|
                *c == (Context {
                    sessions: (None::<AuthSession>, None::<AuthSession>, None::<AuthSession>),
                    ..*old(self)
                }) ==> call_requires(f, (c,)),
        ensures
            final(self).sessions == old(self).sessions,
            exists|c: &mut Context|
                {
                    &&& *c == (Context {
                        sessions: (None::<AuthSession>, None::<AuthSession>, None::<AuthSession>),
                        ..*old(self)
                    })
                    &&& #[trigger] call_ensures(f, (c,), r)
                    &&& *final(self) == (Context { sessions: old(self).sessions, ..*final(c) })
                },
    {
        self.execute_with_sessions((None, None, None), f)
    }

    /// Runs `f` with a handle to a temporary object and releases the object
    /// afterwards through the caller-supplied `flush` operation, which runs
    /// on every path, even when `f` fails. A failure of the flush itself
    /// overrides `f`'s own result, so a resource leak is surfaced loudly
    /// rather than masked by the body's error; this precedence is a
    /// deliberate choice, and a caller that needs both causes can inspect
    /// the flush outcome through its own `flush` closure.
    pub fn execute_with_temporary_object<F, G, T>(&mut self, object: u32, f: F, flush: G) -> (r:
        Result<T, Error>) where
        F: FnOnce(&mut Context, u32) -> Result<T, Error>,
        G: FnOnce(&mut Context, u32) -> Result<(), Error>,

        requires
            forall|c: &mut Context| *c == *old(self) ==> call_requires(f, (c, object)),
            forall|c: &mut Context| call_requires(flush, (c, object)),
        ensures
            exists|c1: &mut Context, c2: &mut Context, body: Result<T, Error>, fr: Result<
                (),
                Error,
            >|
                #![trigger call_ensures(f, (c1, object), body), call_ensures(flush, (c2, object), fr)]
                {
                    &&& *c1 == *old(self)
                    &&& call_ensures(f, (c1, object), body)
                    &&& *c2 == *final(c1)
                    &&& call_ensures(flush, (c2, object), fr)
                    &&& *final(self) == *final(c2)
                    &&& r == (match fr {
                        Ok(_) => body,
                        Err(e) => Err(e),
                    })
                },
    {
        let res = f(self, object);
        let fres = flush(self, object);
        match fres {
            Err(e) => Err(e),
            Ok(_) => res,
        }
    }

    /// Runs `f` scoped to a freshly started "null auth" session and
    /// releases the session afterwards through the caller-supplied `flush`
    /// operation, which runs on every path. The caller starts the session
    /// (an HMAC session per `nullauth_session_request`, with the attribute
    /// bits of `nullauth_session_attributes` set) and hands in what the
    /// module returned: `None` is rejected as `WrongValueFromTpm` before
    /// `f` runs. The previous sessions are restored around `f`, and a
    /// failure of the flush never suppresses `f`'s own result or error.
    /// The flush operation runs after the restoration; its effect on the
    /// context stands in the contract, so a flush that leaves the session
    /// slots alone provably leaves them exactly as they were before the
    /// call.
    pub fn execute_with_nullauth_session<F, G, T>(
        &mut self,
        started: Option<AuthSession>,
        f: F,
        flush: G,
    ) -> (r: Result<T, Error>) where
        F: FnOnce(&mut Context) -> Result<T, Error>,
        G: FnOnce(&mut Context, AuthSession) -> Result<(), Error>,

        requires
            started matches Some(s) ==> forall|c: &mut Context|
                *c == (Context {
                    sessions: (Some(s), None::<AuthSession>, None::<AuthSession>),
                    ..*old(self)
                }) ==> call_requires(f, (c,)),
            forall|c: &mut Context, s: AuthSession| call_requires(flush, (c, s)),
        ensures
            started is None ==> *final(self) == *old(self) && r == Result::<T, Error>::Err(
                Error::WrapperError(WrapperErrorKind::WrongValueFromTpm),
            ),
            started matches Some(s) ==> exists|
                c1: &mut Context,
                c2: &mut Context,
                body: Result<T, Error>,
                fr: Result<(), Error>,
            |
                #![trigger call_ensures(f, (c1,), body), call_ensures(flush, (c2, s), fr)]
                {
                    &&& *c1 == (Context {
                        sessions: (Some(s), None::<AuthSession>, None::<AuthSession>),
                        ..*old(self)
                    })
                    &&& call_ensures(f, (c1,), body)
                    &&& *c2 == (Context { sessions: old(self).sessions, ..*final(c1) })
                    &&& call_ensures(flush, (c2, s), fr)
                    &&& *final(self) == *final(c2)
                    &&& r == body
                },
    {
        let session = match Context::accept_started_session(started) {
            Ok(s) => s,
            Err(e) => {
                return Err(e);
            },
        };
        let res = self.execute_with_session(Some(session), f);
        // The session is released on every path; a flush failure is left to
        // the flush operation itself to surface and never replaces the
        // body's result.
        let _ = flush(self, session);
        res
    }

    /// Accepts what the module answered to a session-start request: the
    /// fresh session, or a `WrongValueFromTpm` failure where the module
    /// reported success yet returned no usable session.
    pub fn accept_started_session(started: Option<AuthSession>) -> (r: Result<AuthSession, Error>)
        ensures
            match started {
                Some(s) => r == Result::<AuthSession, Error>::Ok(s),
                None => r == Result::<AuthSession, Error>::Err(
                    Error::WrapperError(WrapperErrorKind::WrongValueFromTpm),
                ),
            },
    {
        match started {
            Some(s) => Ok(s),
            None => Err(Error::WrapperError(WrapperErrorKind::WrongValueFromTpm)),
        }
    }

    /// Resolves the raw argument for optional session slot one.
    pub fn optional_session_1(&self) -> (r: u32)
        ensures
            r == raw_session_spec(self.sessions.0),
    {
        raw_session(self.sessions.0)
    }

    /// Resolves the raw argument for optional session slot two.
    pub fn optional_session_2(&self) -> (r: u32)
        ensures
            r == raw_session_spec(self.sessions.1),
    {
        raw_session(self.sessions.1)
    }

    /// Resolves the raw argument for optional session slot three.
    pub fn optional_session_3(&self) -> (r: u32)
        ensures
            r == raw_session_spec(self.sessions.2),
    {
        raw_session(self.sessions.2)
    }

    /// Resolves the raw argument for session slot one where the protocol
    /// mandates a session: an empty slot is a `MissingAuthSession` failure,
    /// never the sentinel.
    pub fn required_session_1(&self) -> (r: Result<u32, Error>)
        ensures
            match self.sessions.0 {
                Some(s) => r == Result::<u32, Error>::Ok(raw_session_spec(Some(s))),
                None => r == Result::<u32, Error>::Err(
                    Error::WrapperError(WrapperErrorKind::MissingAuthSession),
                ),
            },
    {
        match self.sessions.0 {
            Some(s) => Ok(raw_session(Some(s))),
            None => Err(Error::WrapperError(WrapperErrorKind::MissingAuthSession)),
        }
    }

    /// Resolves the raw argument for session slot two where the protocol
    /// mandates a session there.
    pub fn required_session_2(&self) -> (r: Result<u32, Error>)
        ensures
            match self.sessions.1 {
                Some(s) => r == Result::<u32, Error>::Ok(raw_session_spec(Some(s))),
                None => r == Result::<u32, Error>::Err(
                    Error::WrapperError(WrapperErrorKind::MissingAuthSession),
                ),
            },
    {
        match self.sessions.1 {
            Some(s) => Ok(raw_session(Some(s))),
            None => Err(Error::WrapperError(WrapperErrorKind::MissingAuthSession)),
        }
    }

    /// Looks a property tag up in the cache alone; the module is not
    /// consulted.
    pub fn lookup_cached_property(&self, tag: u32) -> (r: Option<u32>)
        ensures
            r == self.cached_property(tag),
    {
        let mut found: Option<u32> = None;
        let mut i: usize = 0;
        while i < self.cached_tpm_properties.len()
            invariant
                0 <= i <= self.cached_tpm_properties@.len(),
                found == batch_lookup(self.cached_tpm_properties@.take(i as int), tag),
            decreases self.cached_tpm_properties@.len() - i,
        {
            let e = self.cached_tpm_properties[i];
            proof {
                let t = self.cached_tpm_properties@.take(i as int + 1);
                assert(t.drop_last() =~= self.cached_tpm_properties@.take(i as int));
                assert(t.last() == e);
            }
            if e.property == tag {
                found = Some(e.value);
            }
            i += 1;
        }
        proof {
            assert(self.cached_tpm_properties@.take(self.cached_tpm_properties@.len() as int)
                =~= self.cached_tpm_properties@);
        }
        found
    }

    /// Appends a run of reported properties to the cache; a tag reported
    /// again shadows its earlier value under last-wins lookup.
    fn absorb_tagged_properties(&mut self, props: &Vec<TaggedProperty>)
        ensures
            *final(self) == (Context {
                cached_tpm_properties: final(self).cached_tpm_properties,
                ..*old(self)
            }),
            final(self).cached_tpm_properties@ == old(self).cached_tpm_properties@ + props@,
    {
        let mut i: usize = 0;
        while i < props.len()
            invariant
                0 <= i <= props@.len(),
                *self == (Context {
                    cached_tpm_properties: self.cached_tpm_properties,
                    ..*old(self)
                }),
                self.cached_tpm_properties@ == old(self).cached_tpm_properties@ + props@.take(
                    i as int,
                ),
            decreases props@.len() - i,
        {
            self.cached_tpm_properties.push(props[i]);
            proof {
                assert(old(self).cached_tpm_properties@ + props@.take(i as int + 1)
                    =~= (old(self).cached_tpm_properties@ + props@.take(i as int)).push(
                    props@[i as int],
                ));
            }
            i += 1;
        }
        proof {
            assert(props@.take(props@.len() as int) =~= props@);
        }
    }

    /// Returns the module's value for a property tag, or `None` where the
    /// module defines no value for it.
    ///
    /// A tag already in the cache is served from the cache alone: the
    /// context is left untouched and `query` is never invoked, so a second
    /// call for the same tag issues no further capability query and returns
    /// the identical value. On a miss, `query` is invoked once, without
    /// sessions, for a small batch starting at the tag; every returned
    /// entry is cached, even ones not asked for, and the answer is read
    /// from the refreshed cache. A response of any shape other than tagged
    /// properties is a `WrongValueFromTpm` failure.
    pub fn get_tpm_property<Q>(&mut self, property: u32, query: Q) -> (r: Result<
        Option<u32>,
        Error,
    >) where Q: FnOnce(&mut Context, CapabilityRequest) -> Result<CapabilityData, Error>,
        requires
            forall|c: &mut Context| call_requires(query, (c, property_cache_request(property))),
        ensures
            final(self).sessions == old(self).sessions,
            old(self).cached_property(property) is Some ==> *final(self) == *old(self) && r
                == Result::<Option<u32>, Error>::Ok(old(self).cached_property(property)),
            old(self).cached_property(property) is None ==> exists|
                c: &mut Context,
                qr: Result<CapabilityData, Error>,
            |
                {
                    &&& *c == (Context {
                        sessions: (None::<AuthSession>, None::<AuthSession>, None::<AuthSession>),
                        ..*old(self)
                    })
                    &&& #[trigger] call_ensures(query, (c, property_cache_request(property)), qr)
                    &&& match qr {
                        Ok(CapabilityData::TpmProperties(props)) => {
                            &&& *final(self) == (Context {
                                sessions: old(self).sessions,
                                cached_tpm_properties: final(self).cached_tpm_properties,
                                ..*final(c)
                            })
                            &&& final(self).cached_tpm_properties@
                                == final(c).cached_tpm_properties@ + props@
                            &&& forall|t: u32|
                                final(self).cached_property(t) == (match batch_lookup(
                                    props@,
                                    t,
                                ) {
                                    Some(v) => Some(v),
                                    None => final(c).cached_property(t),
                                })
                            &&& r == Result::<Option<u32>, Error>::Ok(
                                final(self).cached_property(property),
                            )
                        },
                        Ok(CapabilityData::OtherShape) => {
                            &&& *final(self) == (Context {
                                sessions: old(self).sessions,
                                ..*final(c)
                            })
                            &&& r == Result::<Option<u32>, Error>::Err(
                                Error::WrapperError(WrapperErrorKind::WrongValueFromTpm),
                            )
                        },
                        Err(e) => {
                            &&& *final(self) == (Context {
                                sessions: old(self).sessions,
                                ..*final(c)
                            })
                            &&& r == Result::<Option<u32>, Error>::Err(e)
                        },
                    }
                },
    {
        if let Some(v) = self.lookup_cached_property(property) {
            return Ok(Some(v));
        }
        let request = CapabilityRequest {
            capability: CapabilityType::TpmProperties,
            starting_property: property,
            property_count: 4,
        };
        let saved = self.sessions;
        self.sessions = (None, None, None);
        let resp = query(self, request);
        self.sessions = saved;
        match resp {
            Ok(CapabilityData::TpmProperties(props)) => {
                let ghost cache_before = self.cached_tpm_properties@;
                self.absorb_tagged_properties(&props);
                proof {
                    assert forall|t: u32|
                        self.cached_property(t) == (match batch_lookup(props@, t) {
                            Some(v) => Some(v),
                            None => batch_lookup(cache_before, t),
                        }) by {
                        crate::capability::lemma_batch_lookup_append(cache_before, props@, t);
                    }
                }
                Ok(self.lookup_cached_property(property))
            },
            Ok(CapabilityData::OtherShape) => Err(
                Error::WrapperError(WrapperErrorKind::WrongValueFromTpm),
            ),
            Err(e) => Err(e),
        }
    }

    /// Starts the teardown sweep: the context leaves `Open` for good and
    /// the complete release plan is handed back, listing every handle owed
    /// a flush and every handle owed a close. The two lists together cover
    /// the whole registry, so the sweep attempts exactly one release call
    /// per open handle, regardless of how the individual calls fare.
    pub fn begin_teardown(&mut self) -> (plan: (Vec<u32>, Vec<u32>))
        requires
            old(self).state == LifecycleState::Open,
        ensures
            *final(self) == (Context { state: LifecycleState::TearingDown, ..*old(self) }),
            plan.0@ == flush_handles(old(self).handle_manager.entries_seq()),
            plan.1@ == close_handles(old(self).handle_manager.entries_seq()),
            plan.0@.len() + plan.1@.len() == old(self).handle_manager.entries_seq().len(),
    {
        proof {
            crate::handle_manager::lemma_teardown_sweep_exhaustive(
                self.handle_manager.entries_seq(),
            );
        }
        self.state = LifecycleState::TearingDown;
        let flushes = self.handle_manager.handles_to_flush();
        let closes = self.handle_manager.handles_to_close();
        (flushes, closes)
    }

    /// Records that a release call for `handle` succeeded: the handle is
    /// deregistered. A failed release call is simply not recorded, so after
    /// the sweep the registry holds exactly the handles whose release
    /// failed.
    pub fn record_released_handle(&mut self, handle: u32)
        requires
            old(self).wf(),
        ensures
            final(self).wf(),
            *final(self) == (Context { handle_manager: final(self).handle_manager, ..*old(self) }),
            final(self).handle_manager.entries_seq() == crate::handle_manager::without_handle(
                old(self).handle_manager.entries_seq(),
                handle,
            ),
            !final(self).handle_manager.contains_handle(handle),
    {
        self.handle_manager.remove_handle(handle);
    }

    /// Ends the teardown sweep: reports whether any handle failed to be
    /// released (a resource-leak signal, not a fatal error) and moves the
    /// context to `Closed`, after which the caller releases the channel
    /// handle itself, unconditionally and exactly once.
    pub fn finish_teardown(&mut self) -> (leaked: bool)
        requires
            old(self).state == LifecycleState::TearingDown,
        ensures
            *final(self) == (Context { state: LifecycleState::Closed, ..*old(self) }),
            leaked == (old(self).handle_manager.entries_seq().len() != 0),
    {
        let leaked = self.handle_manager.has_open_handles();
        self.state = LifecycleState::Closed;
        leaked
    }
}

} // verus!
