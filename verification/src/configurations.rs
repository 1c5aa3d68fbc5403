//! What a user asks of the channels that peers want to open.
use vstd::prelude::*;

verus! {

/// The settings of a user.
#[derive(Copy, Clone, Debug, PartialEq, Eq, Structural)]
pub struct UserConfigurations {
    /// What the user asks of a channel.
    pub channel_limits: ChannelLimits,
}

impl UserConfigurations {
    /// Settings that ask nothing.
    pub fn new() -> (configurations: Self)
        ensures
            configurations == (UserConfigurations { channel_limits: ChannelLimits::unset() }),
    {
        UserConfigurations { channel_limits: ChannelLimits::new() }
    }
}

/// What a user asks of a channel.
#[derive(Copy, Clone, Debug, PartialEq, Eq, Structural)]
pub struct ChannelLimits {
    pub funding_satoshis: u64,
    pub htlc_minimum_msat: u64,
    pub max_htlc_value_in_flight_msat: u64,
    pub channel_reserve_satoshis: u64,
    pub max_accepted_htlcs: u16,
    pub dust_limit_satoshis: u64,
}

impl ChannelLimits {
    /// Limits that rule nothing out.
    pub open spec fn unset() -> Self {
        ChannelLimits {
            funding_satoshis: 0,
            htlc_minimum_msat: u64::MAX,
            max_htlc_value_in_flight_msat: 0,
            channel_reserve_satoshis: u64::MAX,
            max_accepted_htlcs: 0,
            dust_limit_satoshis: 0,
        }
    }

    /// Limits that rule nothing out: each is the greatest or the least value that there is,
    /// because one that is not set should not be checked.
    pub fn new() -> (limits: Self)
        ensures
            limits == ChannelLimits::unset(),
    {
        ChannelLimits {
            funding_satoshis: 0,
            htlc_minimum_msat: u64::MAX,
            max_htlc_value_in_flight_msat: 0,
            channel_reserve_satoshis: u64::MAX,
            max_accepted_htlcs: 0,
            dust_limit_satoshis: 0,
        }
    }
}

/// A limit that is not set is never exceeded: of the values that a channel can have, none is less
/// than an unset lower limit, and none is greater than an unset upper one.
pub proof fn unset_limits_rule_nothing_out(amount: u64, count: u16)
    ensures
        ChannelLimits::unset().funding_satoshis <= amount,
        amount <= ChannelLimits::unset().htlc_minimum_msat,
        ChannelLimits::unset().max_htlc_value_in_flight_msat <= amount,
        amount <= ChannelLimits::unset().channel_reserve_satoshis,
        ChannelLimits::unset().max_accepted_htlcs <= count,
        ChannelLimits::unset().dust_limit_satoshis <= amount,
{
}

} // verus!
