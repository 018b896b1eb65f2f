//! Per-agent security state: the engine identity learnt at discovery, the agent's
//! boot count and clock, and the counters that each message consumes.
use vstd::prelude::*;
use crate::error::SnmpError;

verus! {

/// A salt counter that advances once per encrypted message.
pub trait Step: Sized {
    /// The value after one step.
    spec fn next_spec(self) -> Self;

    /// Advances the counter by one step.
    fn step(&mut self)
        ensures
            *final(self) == old(self).next_spec(),
    ;
}

impl Step for u32 {
    open spec fn next_spec(self) -> u32 {
        if self == u32::MAX {
            0
        } else {
            (self + 1) as u32
        }
    }

    fn step(&mut self) {
        *self = self.wrapping_add(1);
    }
}

impl Step for u64 {
    open spec fn next_spec(self) -> u64 {
        if self == u64::MAX {
            0
        } else {
            (self + 1) as u64
        }
    }

    fn step(&mut self) {
        *self = self.wrapping_add(1);
    }
}

/// The request identifier after `id`, wrapping from the largest to the smallest.
pub open spec fn next_request_id(id: i32) -> i32 {
    if id == i32::MAX {
        i32::MIN
    } else {
        (id + 1) as i32
    }
}

/// What one outgoing message uses: its request identifier, whether it is
/// authenticated, and the salt it is encrypted under where it is encrypted.
#[derive(Clone, Copy, Debug)]
pub struct MessagePlan<S> {
    pub request_id: i32,
    pub authenticated: bool,
    pub salt: Option<S>,
}

/// The security state of one exchange with one agent. `S` is the salt of the
/// privacy algorithm in use.
#[derive(Clone, Debug)]
pub struct Session<S> {
    /// The user on whose behalf requests are made.
    pub username: Vec<u8>,
    /// The agent's authoritative engine identifier.
    pub engine_id: Vec<u8>,
    /// How often the agent's engine has restarted.
    pub engine_boots: u32,
    /// The agent's clock, in seconds since its last restart.
    pub engine_time: u32,
    /// The identifier that the next request carries.
    pub request_id: i32,
    /// The salt that the next encrypted request uses.
    pub salt: S,
}

impl<S: Step + Copy> Session<S> {
    /// A session with the engine identity, boot count and clock that discovery
    /// reported.
    pub fn discovered(
        username: Vec<u8>,
        engine_id: Vec<u8>,
        engine_boots: u32,
        engine_time: u32,
        request_id: i32,
        salt: S,
    ) -> (r: Session<S>)
        ensures
            r.username@ == username@,
            r.engine_id@ == engine_id@,
            r.engine_boots == engine_boots,
            r.engine_time == engine_time,
            r.request_id == request_id,
            r.salt == salt,
    {
        Session { username, engine_id, engine_boots, engine_time, request_id, salt }
    }

    /// The identifier for the next request; the counter advances by one, wrapping.
    pub fn take_request_id(&mut self) -> (r: i32)
        ensures
            r == old(self).request_id,
            final(self).request_id == next_request_id(old(self).request_id),
            final(self).salt == old(self).salt,
            final(self).engine_boots == old(self).engine_boots,
            final(self).engine_time == old(self).engine_time,
            final(self).engine_id == old(self).engine_id,
            final(self).username == old(self).username,
    {
        let r = self.request_id;
        self.request_id = self.request_id.wrapping_add(1);
        r
    }

    /// The salt for the next encrypted message; the salt advances exactly one step,
    /// so no salt is used twice.
    pub fn take_salt(&mut self) -> (r: S)
        ensures
            r == old(self).salt,
            final(self).salt == old(self).salt.next_spec(),
            final(self).request_id == old(self).request_id,
            final(self).engine_boots == old(self).engine_boots,
            final(self).engine_time == old(self).engine_time,
            final(self).engine_id == old(self).engine_id,
            final(self).username == old(self).username,
    {
        let r = self.salt;
        self.salt.step();
        r
    }

    /// Plans the next message. Every message takes a request identifier; only an
    /// encrypted one takes a salt. Privacy is used only together with authentication.
    pub fn plan_message(&mut self, has_auth_key: bool, has_priv_key: bool) -> (r: MessagePlan<S>)
        ensures
            r.request_id == old(self).request_id,
            r.authenticated == has_auth_key,
            final(self).request_id == next_request_id(old(self).request_id),
            has_auth_key && has_priv_key ==> r.salt == Some(old(self).salt) && final(self).salt
                == old(self).salt.next_spec(),
            !(has_auth_key && has_priv_key) ==> r.salt is None && final(self).salt == old(
                self,
            ).salt,
            final(self).engine_boots == old(self).engine_boots,
            final(self).engine_time == old(self).engine_time,
            final(self).engine_id == old(self).engine_id,
            final(self).username == old(self).username,
    {
        let request_id = self.take_request_id();
        let salt = if has_auth_key && has_priv_key {
            Some(self.take_salt())
        } else {
            None
        };
        MessagePlan { request_id, authenticated: has_auth_key, salt }
    }

    /// Accepts a reply to the request `expected_id`: a reply to another request fails
    /// with `ProtocolError` and changes nothing; otherwise the boot count and clock
    /// that the reply reports are taken as `update_timeliness` does.
    pub fn accept_reply(
        &mut self,
        expected_id: i32,
        reply_id: i32,
        engine_boots: u32,
        engine_time: u32,
    ) -> (r: Result<(), SnmpError>)
        ensures
            reply_id != expected_id ==> r == Err::<(), SnmpError>(SnmpError::ProtocolError)
                && *final(self) == *old(self),
            reply_id == expected_id && engine_boots < old(self).engine_boots ==> r == Err::<
                (),
                SnmpError,
            >(SnmpError::SecurityError) && *final(self) == *old(self),
            reply_id == expected_id && engine_boots >= old(self).engine_boots ==> {
                &&& r is Ok
                &&& final(self).engine_boots == engine_boots
                &&& final(self).engine_time == engine_time
                &&& final(self).request_id == old(self).request_id
                &&& final(self).salt == old(self).salt
                &&& final(self).engine_id == old(self).engine_id
                &&& final(self).username == old(self).username
            },
    {
        if reply_id != expected_id {
            return Err(SnmpError::ProtocolError);
        }
        self.update_timeliness(engine_boots, engine_time)
    }

    /// Takes the boot count and clock that an authenticated response reports. A boot
    /// count below the known one is a rollback and fails with `SecurityError`, leaving
    /// the session as it was; a higher one marks a restart and replaces both values;
    /// an equal one updates the clock.
    pub fn update_timeliness(&mut self, engine_boots: u32, engine_time: u32) -> (r: Result<
        (),
        SnmpError,
    >)
        ensures
            engine_boots < old(self).engine_boots ==> r == Err::<(), SnmpError>(
                SnmpError::SecurityError,
            ) && *final(self) == *old(self),
            engine_boots >= old(self).engine_boots ==> {
                &&& r is Ok
                &&& final(self).engine_boots == engine_boots
                &&& final(self).engine_time == engine_time
                &&& final(self).request_id == old(self).request_id
                &&& final(self).salt == old(self).salt
                &&& final(self).engine_id == old(self).engine_id
                &&& final(self).username == old(self).username
            },
    {
        if engine_boots < self.engine_boots {
            return Err(SnmpError::SecurityError);
        }
        self.engine_boots = engine_boots;
        self.engine_time = engine_time;
        Ok(())
    }
}

} // verus!
