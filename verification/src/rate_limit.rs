//! A rate-limiting verifier contract: at most `limit` cross-chain requests
//! per rolling time period.  The host hands in the block timestamp; the
//! contract keeps the window end and the count of requests inside it.
//! Admission is for the gateway alone, and reconfiguration for the owner
//! alone: both guards fail closed on a caller mismatch.

use vstd::prelude::*;
use crate::errors::AuthError;
use crate::store::{bytes_eq, clone_bytes};

verus! {

/// The rate limiter's whole state.
pub struct RateLimit {
    pub time_period: u64,
    pub limit: u128,
    pub tx_count: u128,
    pub current_period_end: u64,
    pub gateway_contract: Vec<u8>,
    pub owner: Vec<u8>,
}

impl RateLimit {
    /// Initializes the limiter: the deployer becomes the owner and the
    /// current block timestamp ends the (empty) first period.
    pub fn new(
        caller: &Vec<u8>,
        gateway_contract: &Vec<u8>,
        time_period: u64,
        limit: u128,
        now: u64,
    ) -> (s: Self)
        ensures
            s.gateway_contract@ == gateway_contract@,
            s.owner@ == caller@,
            s.time_period == time_period,
            s.limit == limit,
            s.tx_count == 0,
            s.current_period_end == now,
    {
        RateLimit {
            time_period,
            limit,
            tx_count: 0,
            current_period_end: now,
            gateway_contract: clone_bytes(gateway_contract),
            owner: clone_bytes(caller),
        }
    }

    /// The gateway's verification hook: admits or refuses one more
    /// cross-chain request at time `now`.  A caller that is not the gateway
    /// is turned away without touching the window.
    pub fn verify_cross_chain_request(
        &mut self,
        caller: &Vec<u8>,
        _request_identifier: u128,
        _request_timestamp: u128,
        _request_sender: &Vec<u8>,
        _src_chain_id: &Vec<u8>,
        _packet: &Vec<u8>,
        _handler_address: &Vec<u8>,
        now: u64,
    ) -> (r: Result<bool, AuthError>)
        requires
            now >= old(self).current_period_end ==> now + old(self).time_period <= u64::MAX,
        ensures
            match r {
                Ok(admitted) => caller@ == old(self).gateway_contract@ && rate_limit_post(
                    *old(self),
                    *final(self),
                    now,
                    admitted,
                ),
                Err(e) => caller@ != old(self).gateway_contract@ && e == AuthError::NotGateway
                    && *final(self) == *old(self),
            },
    {
        match self.only_gateway(caller) {
            Ok(_) => {},
            Err(e) => {
                return Err(e);
            },
        }
        Ok(self.execute_rate_limiting(now))
    }

    /// What one rate-limiting step does: an elapsed period opens a fresh
    /// window ending `time_period` after `now`; a request is admitted, and
    /// counted, exactly while the window's count is below the limit.
    pub fn execute_rate_limiting(&mut self, now: u64) -> (r: bool)
        requires
            now >= old(self).current_period_end ==> now + old(self).time_period <= u64::MAX,
        ensures
            rate_limit_post(*old(self), *final(self), now, r),
    {
        if now >= self.current_period_end {
            self.current_period_end = now + self.time_period;
            self.tx_count = 0;
        }
        if self.tx_count < self.limit {
            self.tx_count = self.tx_count + 1;
            true
        } else {
            false
        }
    }

    /// Replaces the per-period limit; only the owner may.
    pub fn update_limit(&mut self, caller: &Vec<u8>, limit: u128) -> (r: Result<(), AuthError>)
        ensures
            final(self).time_period == old(self).time_period,
            final(self).tx_count == old(self).tx_count,
            final(self).current_period_end == old(self).current_period_end,
            final(self).gateway_contract@ == old(self).gateway_contract@,
            final(self).owner@ == old(self).owner@,
            match r {
                Ok(_) => caller@ == old(self).owner@ && final(self).limit == limit,
                Err(e) => caller@ != old(self).owner@ && e == AuthError::NotOwner && final(self).limit == old(self).limit,
            },
    {
        match self.only_owner(caller) {
            Ok(_) => {},
            Err(e) => {
                return Err(e);
            },
        }
        self.limit = limit;
        Ok(())
    }

    /// Replaces the period length; only the owner may.
    pub fn update_time_period(&mut self, caller: &Vec<u8>, time_period: u64) -> (r: Result<
        (),
        AuthError,
    >)
        ensures
            final(self).limit == old(self).limit,
            final(self).tx_count == old(self).tx_count,
            final(self).current_period_end == old(self).current_period_end,
            final(self).gateway_contract@ == old(self).gateway_contract@,
            final(self).owner@ == old(self).owner@,
            match r {
                Ok(_) => caller@ == old(self).owner@ && final(self).time_period == time_period,
                Err(e) => caller@ != old(self).owner@ && e == AuthError::NotOwner && final(self).time_period == old(self).time_period,
            },
    {
        match self.only_owner(caller) {
            Ok(_) => {},
            Err(e) => {
                return Err(e);
            },
        }
        self.time_period = time_period;
        Ok(())
    }

    pub fn get_update_limit(&self) -> (r: u128)
        ensures
            r == self.limit,
    {
        self.limit
    }

    pub fn get_time_period(&self) -> (r: u64)
        ensures
            r == self.time_period,
    {
        self.time_period
    }

    /// The owner modifier: fails closed on any other caller.
    pub fn only_owner(&self, caller: &Vec<u8>) -> (r: Result<(), AuthError>)
        ensures
            r is Ok <==> caller@ == self.owner@,
            r is Err ==> r->Err_0 == AuthError::NotOwner,
    {
        if !bytes_eq(caller, &self.owner) {
            return Err(AuthError::NotOwner);
        }
        Ok(())
    }

    /// The gateway modifier: fails closed on any other caller.
    pub fn only_gateway(&self, caller: &Vec<u8>) -> (r: Result<(), AuthError>)
        ensures
            r is Ok <==> caller@ == self.gateway_contract@,
            r is Err ==> r->Err_0 == AuthError::NotGateway,
    {
        if !bytes_eq(caller, &self.gateway_contract) {
            return Err(AuthError::NotGateway);
        }
        Ok(())
    }
}

/// The full transition relation of one rate-limiting step.
pub open spec fn rate_limit_post(pre: RateLimit, post: RateLimit, now: u64, admitted: bool) -> bool {
    let window_end = if now >= pre.current_period_end {
        (now + pre.time_period) as u64
    } else {
        pre.current_period_end
    };
    let count_in = if now >= pre.current_period_end {
        0
    } else {
        pre.tx_count as int
    };
    &&& admitted == (count_in < pre.limit)
    &&& post.current_period_end == window_end
    &&& post.tx_count == if admitted {
        count_in + 1
    } else {
        count_in
    }
    &&& post.limit == pre.limit
    &&& post.time_period == pre.time_period
    &&& post.gateway_contract@ == pre.gateway_contract@
    &&& post.owner@ == pre.owner@
}

} // verus!
