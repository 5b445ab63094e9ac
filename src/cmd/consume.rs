use vstd::prelude::*;
use crate::error::Error;
use crate::text::{ascii_lower, ascii_lower_equals, join3};

verus! {

/// How a subscription shares a topic among consumers.
#[derive(Clone, Copy, Debug, PartialEq, Eq, Structural)]
pub enum SubscriptionType {
    Exclusive,
    Shared,
    Failover,
}

/// Where a new subscription starts reading.
#[derive(Clone, Copy, Debug, PartialEq, Eq, Structural)]
pub enum StartPosition {
    Earliest,
    Latest,
}

/// The message of an unknown subscription type.
pub open spec fn illegal_type_message(name: Seq<char>) -> Seq<char> {
    "illegal subscription type ["@ + name + "]"@
}

/// The message of an unknown start position.
pub open spec fn illegal_position_message(name: Seq<char>) -> Seq<char> {
    "illegal initial position ["@ + name + "]"@
}

/// The subscription type `t` names, in any ASCII case.
pub fn parse_sub_type(t: &str) -> (r: Result<SubscriptionType, Error>)
    ensures
        ascii_lower(t@) == "exclusive"@ <==> r == Ok::<SubscriptionType, Error>(SubscriptionType::Exclusive),
        ascii_lower(t@) == "shared"@ <==> r == Ok::<SubscriptionType, Error>(SubscriptionType::Shared),
        ascii_lower(t@) == "failover"@ <==> r == Ok::<SubscriptionType, Error>(SubscriptionType::Failover),
        r is Err ==> (r matches Err(Error::Custom(m)) && m@ == illegal_type_message(t@)),
{
    proof {
        reveal_strlit("exclusive");
        reveal_strlit("shared");
        reveal_strlit("failover");
        assert("exclusive"@.len() != "shared"@.len());
        assert("exclusive"@.len() != "failover"@.len());
        assert("shared"@.len() != "failover"@.len());
    }
    if ascii_lower_equals(t, "exclusive") {
        Ok(SubscriptionType::Exclusive)
    } else if ascii_lower_equals(t, "shared") {
        Ok(SubscriptionType::Shared)
    } else if ascii_lower_equals(t, "failover") {
        Ok(SubscriptionType::Failover)
    } else {
        Err(Error::Custom(join3("illegal subscription type [", t, "]")))
    }
}

/// The start position `t` names, in any ASCII case.
pub fn parse_subscription_position(t: &str) -> (r: Result<StartPosition, Error>)
    ensures
        ascii_lower(t@) == "earliest"@ <==> r == Ok::<StartPosition, Error>(StartPosition::Earliest),
        ascii_lower(t@) == "latest"@ <==> r == Ok::<StartPosition, Error>(StartPosition::Latest),
        r is Err ==> (r matches Err(Error::Custom(m)) && m@ == illegal_position_message(t@)),
{
    proof {
        reveal_strlit("earliest");
        reveal_strlit("latest");
        assert("earliest"@.len() != "latest"@.len());
    }
    if ascii_lower_equals(t, "earliest") {
        Ok(StartPosition::Earliest)
    } else if ascii_lower_equals(t, "latest") {
        Ok(StartPosition::Latest)
    } else {
        Err(Error::Custom(join3("illegal initial position [", t, "]")))
    }
}

} // verus!
