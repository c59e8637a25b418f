//! Fee calculation for the optimistic dual-proof protocol: a chain's base
//! fee, plus what the message's complexity, its verification and its route
//! cost, scaled by congestion, plus priority and timeout insurance, adjusted
//! for the assigned relayer's record.
//!
//! Multipliers and rates are in basis points; products are rounded to the
//! nearest unit, halves up.

use vstd::prelude::*;
use vstd::utf8::encode_utf8;
use crate::bytes::{copy_string, str_eq};
use crate::chain_adapter::{ChainId, NetworkConditions, Route};
use crate::clock::unix_time_now;
use crate::decimal::{decimal_digits, parse_u64, parse_u64_spec, u64_to_decimal};
use crate::error::RelayerError;
use crate::hexcode::{hex_encode, hex_encode_spec};
use crate::uibc::{
    Fee, MessageType, Payload, Priority, Requirement, UniversalMessage,
};

verus! {

/// Gas that each way of verifying a message costs.
#[derive(Debug, Clone, Copy, PartialEq, Eq)]
pub struct VerificationCosts {
    pub traditional_ics23_gas: u64,
    pub zk_verification_gas: u64,
    pub optimistic_overhead_gas: u64,
    pub challenge_processing_gas: u64,
}

/// Parameters of the optimistic protocol.
#[derive(Debug, Clone, PartialEq, Eq)]
pub struct OptimisticParameters {
    /// Seconds.
    pub base_challenge_period: u64,
    pub min_relayer_bond: Fee,
    pub challenger_bond: Fee,
    /// Basis points of the bond slashed for fraud.
    pub fraud_slash_percentage: u32,
    /// Basis points of the bond paid to a successful challenger.
    pub challenger_reward_percentage: u32,
    /// Insurance per second of timeout, in basis points.
    pub timeout_insurance_rate_bps: u64,
}

/// A relayer's record.
#[derive(Debug, Clone, Copy, PartialEq, Eq)]
pub struct RelayerPerformance {
    pub success_rate_bps: u64,
    pub average_latency_ms: u64,
    pub total_volume_processed: u64,
    /// Unix seconds.
    pub last_fraud_detected: Option<u64>,
    pub reputation_score_bps: u64,
}

/// A route's record.
#[derive(Debug, Clone, Copy, PartialEq, Eq)]
pub struct RoutePerformance {
    /// Seconds.
    pub average_completion_time: u64,
    pub success_rate_bps: u64,
    pub congestion_level_bps: u64,
    pub reliability_score_bps: u64,
}

/// Records that pricing reads, by relayer, by route and by chain.
#[derive(Debug, Clone, PartialEq, Eq)]
pub struct PerformanceTracker {
    pub relayer_performance: Vec<(String, RelayerPerformance)>,
    pub route_performance: Vec<(String, RoutePerformance)>,
    pub network_conditions: Vec<(String, NetworkConditions)>,
}

/// The fee calculator: base fees by chain and multipliers by message type
/// and route.
pub struct FeeCalculator {
    base_fees: Vec<(String, Fee)>,
    congestion_multipliers: Vec<(String, u64)>,
    route_premiums: Vec<(String, String, u64)>,
    message_type_multipliers: Vec<(MessageType, u64)>,
    verification_costs: VerificationCosts,
    optimistic_parameters: OptimisticParameters,
    performance_tracker: PerformanceTracker,
}

// ----- Table lookups: the first entry under a key counts -----

pub open spec fn lookup_fee(t: Seq<(String, Fee)>, key: Seq<char>) -> Option<Fee>
    decreases t.len(),
{
    if t.len() == 0 {
        None
    } else if t[0].0@ == key {
        Some(t[0].1)
    } else {
        lookup_fee(t.drop_first(), key)
    }
}

pub open spec fn lookup_type_multiplier(t: Seq<(MessageType, u64)>, key: MessageType) -> Option<u64>
    decreases t.len(),
{
    if t.len() == 0 {
        None
    } else if t[0].0 == key {
        Some(t[0].1)
    } else {
        lookup_type_multiplier(t.drop_first(), key)
    }
}

pub open spec fn lookup_premium(t: Seq<(String, String, u64)>, from: Seq<char>, to: Seq<char>) -> Option<u64>
    decreases t.len(),
{
    if t.len() == 0 {
        None
    } else if t[0].0@ == from && t[0].1@ == to {
        Some(t[0].2)
    } else {
        lookup_premium(t.drop_first(), from, to)
    }
}

pub open spec fn lookup_performance(t: Seq<(String, RelayerPerformance)>, key: Seq<char>) -> Option<RelayerPerformance>
    decreases t.len(),
{
    if t.len() == 0 {
        None
    } else if t[0].0@ == key {
        Some(t[0].1)
    } else {
        lookup_performance(t.drop_first(), key)
    }
}

// ----- The parts of a fee -----

/// `x` scaled by `ratio_bps` basis points, rounded to the nearest unit,
/// halves up.
pub open spec fn round_bps(x: nat, ratio_bps: nat) -> nat {
    (x * ratio_bps + 5000) / 10000
}

/// `x`, or the largest `u64` where `x` is larger: the saturating conversion
/// of an amount to 64 bits.
pub open spec fn saturate_u64(x: nat) -> nat {
    if x <= u64::MAX {
        x
    } else {
        u64::MAX as nat
    }
}

/// The size-dependent base of the complexity fee: 5 000 plus 10 per byte of
/// denomination for a token transfer, 10 000 plus 10 per call-data byte for a
/// contract call, 15 000 for a state query, 20 000 otherwise.
pub open spec fn complexity_base(m: UniversalMessage) -> nat {
    match m.payload {
        Some(Payload::TokenTransfer(t)) => 5000 + encode_utf8(t.denom@).len() * 10,
        Some(Payload::ContractCall(c)) => 10000 + c.call_data@.len() * 10,
        Some(Payload::StateQuery(_)) => 15000,
        _ => 20000,
    }
}

/// The gas of the verification that the message asks for.
pub open spec fn verification_gas(costs: VerificationCosts, m: UniversalMessage) -> nat {
    match m.proof_requirement {
        Some(p) => match p.requirement {
            Some(Requirement::LightClient(_)) => costs.traditional_ics23_gas as nat,
            Some(Requirement::ZkProof(_)) => costs.zk_verification_gas as nat,
            Some(Requirement::Optimistic(_)) => costs.optimistic_overhead_gas as nat,
            None => 0,
        },
        None => 0,
    }
}

/// The priority fee: 5 000 scaled by 0.8, 1.0, 1.5 or 3.0 for low, normal,
/// high and critical; normal where none is set.
pub open spec fn priority_fee(m: UniversalMessage) -> nat {
    match m.economic_parameters {
        Some(e) => match e.priority {
            Some(Priority::Low) => 4000,
            Some(Priority::Normal) => 5000,
            Some(Priority::High) => 7500,
            Some(Priority::Critical) => 15000,
            None => 5000,
        },
        None => 5000,
    }
}

/// The timeout insurance for `duration` seconds at `rate_bps` per second,
/// at least 1 000.
pub open spec fn timeout_insurance(duration: nat, rate_bps: nat) -> nat {
    let insurance = round_bps(duration, rate_bps);
    if insurance < 1000 {
        1000
    } else {
        insurance
    }
}

/// The key under which the assigned relayer's record is kept: its address in
/// lowercase hexadecimal, empty where none is assigned.
pub open spec fn relayer_key(m: UniversalMessage) -> Seq<char> {
    match m.relayer_assignment {
        Some(r) => hex_encode_spec(r.assigned_relayer@),
        None => Seq::empty(),
    }
}

/// The record assumed of a relayer without one.
pub open spec fn default_performance() -> RelayerPerformance {
    RelayerPerformance {
        success_rate_bps: 5000,
        average_latency_ms: 1000,
        total_volume_processed: 0,
        last_fraud_detected: None,
        reputation_score_bps: 5000,
    }
}

/// The adjustment for a relayer's record: 10% off for a success rate of at
/// least 95%, 20% more for a reputation under 0.3.
pub open spec fn performance_adjustment_bps(p: RelayerPerformance) -> nat {
    if p.success_rate_bps >= 9500 {
        9000
    } else if p.reputation_score_bps < 3000 {
        12000
    } else {
        10000
    }
}

/// The chains of a route, by identifier.
pub open spec fn route_ids(route: Route) -> Seq<Seq<char>> {
    route.path@.map_values(|c: ChainId| c@)
}

/// The chain a message is priced on: its destination, or, where the
/// destination names no chain, the last chain of the route.
pub open spec fn pricing_chain(m: UniversalMessage, path: Seq<Seq<char>>) -> Seq<char> {
    let d = m.destination.unwrap().chain_id@;
    if d.len() == 0 && path.len() > 0 {
        path.last()
    } else {
        d
    }
}

/// The chain a message is priced on, where it has a destination.
fn pricing_chain_of<'a>(message: &'a UniversalMessage, route: &'a Route) -> (r: Option<&'a str>)
    ensures
        match r {
            Some(c) => message.destination is Some && c@ == pricing_chain(*message, route_ids(*route)),
            None => message.destination is None,
        },
{
    match &message.destination {
        Some(d) => {
            if d.chain_id.as_str().unicode_len() == 0 && route.path.len() > 0 {
                Some(route.path[route.path.len() - 1].as_str())
            } else {
                Some(d.chain_id.as_str())
            }
        },
        None => None,
    }
}

/// The congestion multiplier from oracle readings: the first reading, held
/// between 0.5 and 2.0; 1.0 where no oracle answers.
pub open spec fn congestion_from_readings(readings: Seq<Option<u64>>) -> u64
    decreases readings.len(),
{
    if readings.len() == 0 {
        10000
    } else {
        match readings[0] {
            Some(c) => if c < 5000 {
                5000
            } else if c > 20000 {
                20000
            } else {
                c
            },
            None => congestion_from_readings(readings.drop_first()),
        }
    }
}

/// The gas price from oracle readings: the first reading; 100 where no
/// oracle answers.
pub open spec fn gas_price_from_readings(readings: Seq<Option<u64>>) -> u64
    decreases readings.len(),
{
    if readings.len() == 0 {
        100
    } else {
        match readings[0] {
            Some(p) => p,
            None => gas_price_from_readings(readings.drop_first()),
        }
    }
}

impl FeeCalculator {
    pub closed spec fn base_fee_for(&self, chain_id: Seq<char>) -> Option<Fee> {
        lookup_fee(self.base_fees@, chain_id)
    }

    pub closed spec fn type_multiplier_for(&self, t: MessageType) -> Option<u64> {
        lookup_type_multiplier(self.message_type_multipliers@, t)
    }

    pub closed spec fn premium_for(&self, from: Seq<char>, to: Seq<char>) -> Option<u64> {
        lookup_premium(self.route_premiums@, from, to)
    }

    pub closed spec fn performance_for(&self, relayer: Seq<char>) -> Option<RelayerPerformance> {
        lookup_performance(self.performance_tracker.relayer_performance@, relayer)
    }

    pub closed spec fn costs(&self) -> VerificationCosts {
        self.verification_costs
    }

    pub closed spec fn parameters(&self) -> OptimisticParameters {
        self.optimistic_parameters
    }

    /// Whether the calculator holds the standard tables: the base fees of
    /// Ethereum (50 000 gwei), the Cosmos Hub (5 000 uatom) and Polygon
    /// (25 000 wei) and no other chain, multipliers of 1.0, 1.5, 0.8 and 1.2
    /// for transfers, contract calls, batches and state queries, no route
    /// premiums or relayer records, and the standard costs and parameters of
    /// the optimistic protocol.
    pub open spec fn has_standard_tables(self) -> bool {
        &&& (self.base_fee_for("ethereum-1"@) matches Some(f) && f.amount@ == "50000"@ && f.denom@
            == "gwei"@ && f.chain_id@ == "ethereum-1"@ && f.decimals == 9)
        &&& (self.base_fee_for("cosmoshub-4"@) matches Some(f) && f.amount@ == "5000"@ && f.denom@
            == "uatom"@ && f.chain_id@ == "cosmoshub-4"@ && f.decimals == 6)
        &&& (self.base_fee_for("polygon-mainnet"@) matches Some(f) && f.amount@ == "25000"@
            && f.denom@ == "wei"@ && f.chain_id@ == "polygon-mainnet"@ && f.decimals == 18)
        &&& forall|id: Seq<char>|
            id != "ethereum-1"@ && id != "cosmoshub-4"@ && id != "polygon-mainnet"@
                ==> #[trigger] self.base_fee_for(id) is None
        &&& self.type_multiplier_for(MessageType::MessageTypeTokenTransfer) == Some(10000u64)
        &&& self.type_multiplier_for(MessageType::MessageTypeContractCall) == Some(15000u64)
        &&& self.type_multiplier_for(MessageType::MessageTypeBatchTransfer) == Some(8000u64)
        &&& self.type_multiplier_for(MessageType::MessageTypeStateQuery) == Some(12000u64)
        &&& self.type_multiplier_for(MessageType::MessageTypeUnspecified) is None
        &&& forall|a: Seq<char>, b: Seq<char>| #[trigger] self.premium_for(a, b) is None
        &&& forall|r: Seq<char>| #[trigger] self.performance_for(r) is None
        &&& self.costs() == (VerificationCosts {
            traditional_ics23_gas: 500_000,
            zk_verification_gas: 5_000,
            optimistic_overhead_gas: 10_000,
            challenge_processing_gas: 100_000,
        })
        &&& self.parameters().base_challenge_period == 7 * 24 * 3600
        &&& self.parameters().min_relayer_bond.amount@ == "1000000000000000000"@
        &&& self.parameters().min_relayer_bond.denom@ == "ETH"@
        &&& self.parameters().min_relayer_bond.chain_id@ == "ethereum-1"@
        &&& self.parameters().min_relayer_bond.decimals == 18
        &&& self.parameters().challenger_bond.amount@ == "100000000000000000"@
        &&& self.parameters().challenger_bond.denom@ == "ETH"@
        &&& self.parameters().challenger_bond.chain_id@ == "ethereum-1"@
        &&& self.parameters().challenger_bond.decimals == 18
        &&& self.parameters().fraud_slash_percentage == 10000
        &&& self.parameters().challenger_reward_percentage == 2000
        &&& self.parameters().timeout_insurance_rate_bps == 200
    }

    /// The complexity fee of a message.
    pub open spec fn complexity_fee_of(&self, m: UniversalMessage) -> nat {
        round_bps(
            complexity_base(m),
            (match self.type_multiplier_for(m.message_type) {
                Some(x) => x,
                None => 10000,
            }) as nat,
        )
    }

    /// The premium of a route: the premiums of its hops multiplied in order
    /// (each product rounded), 1.0 for a hop without one.
    pub open spec fn route_premium(&self, path: Seq<Seq<char>>) -> nat
        decreases path.len(),
    {
        if path.len() < 2 {
            10000
        } else {
            round_bps(
                self.route_premium(path.drop_last()),
                (match self.premium_for(path[path.len() - 2], path[path.len() - 1]) {
                    Some(x) => x,
                    None => 10000,
                }) as nat,
            )
        }
    }

    /// The route fee: 5 000 scaled by the route's premium.
    pub open spec fn route_fee_of(&self, path: Seq<Seq<char>>) -> nat {
        round_bps(5000, self.route_premium(path))
    }

    /// The adjustment for the message's relayer.
    pub open spec fn adjustment_of(&self, m: UniversalMessage) -> nat {
        performance_adjustment_bps(
            match self.performance_for(relayer_key(m)) {
                Some(p) => p,
                None => default_performance(),
            },
        )
    }

    /// The fee's running totals for a message with base fee `base`, the
    /// congestion multiplier `congestion` and Unix time `now`: before
    /// congestion, after priority and insurance, and in the end, after the
    /// relayer's adjustment, which saturates at the largest `u64`.
    pub open spec fn fee_stages(
        &self,
        m: UniversalMessage,
        path: Seq<Seq<char>>,
        base: nat,
        congestion: nat,
        now: u64,
    ) -> (nat, nat, nat) {
        let s1 = base + self.complexity_fee_of(m) + verification_gas(self.costs(), m)
            + self.route_fee_of(path);
        let insurance = match m.spec_timeout_timestamp() {
            Some(t) => timeout_insurance(
                (if t >= now {
                    t - now
                } else {
                    0
                }) as nat,
                self.parameters().timeout_insurance_rate_bps as nat,
            ),
            None => 0,
        };
        let s3 = round_bps(s1, congestion) + priority_fee(m) + insurance;
        (s1, s3, saturate_u64(round_bps(s3, self.adjustment_of(m))))
    }

    /// Whether no running total of the fee before the relayer's adjustment
    /// exceeds the largest `u64`, and the route premium stays within it at
    /// every hop.
    pub open spec fn fee_fits(&self, m: UniversalMessage, path: Seq<Seq<char>>, congestion: nat, now: u64) -> bool {
        &&& m.destination is Some
        &&& (forall|k: int| 0 <= k <= path.len() ==> #[trigger] self.route_premium(path.take(k))
            <= u64::MAX)
        &&& complexity_base(m) <= u64::MAX
        &&& match self.base_fee_for(pricing_chain(m, path)) {
            Some(f) => match parse_u64_spec(encode_utf8(f.amount@)) {
                Some(b) => {
                    let (s1, s3, _) = self.fee_stages(m, path, b as nat, congestion, now);
                    s1 <= u64::MAX && s3 <= u64::MAX
                },
                None => true,
            },
            None => true,
        }
    }
}

} // verus!

verus! {

fn fee_entry(chain: &str, amount: &str, denom: &str, decimals: u32) -> (r: (String, Fee))
    ensures
        r.0@ == chain@,
        r.1.amount@ == amount@,
        r.1.denom@ == denom@,
        r.1.chain_id@ == chain@,
        r.1.decimals == decimals,
{
    (
        copy_string(chain),
        Fee {
            amount: copy_string(amount),
            denom: copy_string(denom),
            chain_id: copy_string(chain),
            decimals,
        },
    )
}

/// Scaling two 64-bit numbers stays below 2^115.
proof fn lemma_round_bps_bound(x: nat, ratio_bps: nat)
    requires
        x <= u64::MAX,
        ratio_bps <= u64::MAX,
    ensures
        round_bps(x, ratio_bps) <= 0x8_0000_0000_0000_0000_0000_0000_0000,
{
    let big: int = (u64::MAX as int) * (u64::MAX as int);
    assert(x * ratio_bps <= big) by (nonlinear_arith)
        requires
            x <= u64::MAX,
            ratio_bps <= u64::MAX,
            big == (u64::MAX as int) * (u64::MAX as int),
    ;
    vstd::arithmetic::div_mod::lemma_div_is_ordered((x * ratio_bps + 5000) as int, big + 5000, 10000);
    let bound: int = 0x8_0000_0000_0000_0000_0000_0000_0000;
    vstd::arithmetic::div_mod::lemma_div_is_ordered(big + 5000, 10000 * bound, 10000);
    vstd::arithmetic::div_mod::lemma_div_multiples_vanish(bound, 10000);
}

/// `x` scaled by `ratio_bps`, rounded, halves up; the product is wide
/// enough not to overflow.
fn round_bps_wide(x: u64, ratio_bps: u64) -> (r: u128)
    ensures
        r == round_bps(x as nat, ratio_bps as nat),
{
    assert((x as nat) * (ratio_bps as nat) <= (u64::MAX as nat) * (u64::MAX as nat))
        by (nonlinear_arith)
        requires
            x <= u64::MAX,
            ratio_bps <= u64::MAX,
    ;
    ((x as u128) * (ratio_bps as u128) + 5000) / 10000
}

impl FeeCalculator {
    /// The calculator with the base fees of Ethereum (50 000 gwei), the
    /// Cosmos Hub (5 000 uatom) and Polygon (25 000 wei), multipliers of 1.0,
    /// 1.5, 0.8 and 1.2 for transfers, contract calls, batches and state
    /// queries, and no route premiums or relayer records yet.
    pub fn new() -> (c: Self)
        ensures
            c.has_standard_tables(),
    {
        let mut base_fees: Vec<(String, Fee)> = Vec::new();
        base_fees.push(fee_entry("ethereum-1", "50000", "gwei", 9));
        base_fees.push(fee_entry("cosmoshub-4", "5000", "uatom", 6));
        base_fees.push(fee_entry("polygon-mainnet", "25000", "wei", 18));
        let mut message_type_multipliers: Vec<(MessageType, u64)> = Vec::new();
        message_type_multipliers.push((MessageType::MessageTypeTokenTransfer, 10000));
        message_type_multipliers.push((MessageType::MessageTypeContractCall, 15000));
        message_type_multipliers.push((MessageType::MessageTypeBatchTransfer, 8000));
        message_type_multipliers.push((MessageType::MessageTypeStateQuery, 12000));
        let verification_costs = VerificationCosts {
            traditional_ics23_gas: 500_000,
            zk_verification_gas: 5_000,
            optimistic_overhead_gas: 10_000,
            challenge_processing_gas: 100_000,
        };
        let optimistic_parameters = OptimisticParameters {
            base_challenge_period: 7 * 24 * 3600,
            min_relayer_bond: Fee {
                amount: copy_string("1000000000000000000"),
                denom: copy_string("ETH"),
                chain_id: copy_string("ethereum-1"),
                decimals: 18,
            },
            challenger_bond: Fee {
                amount: copy_string("100000000000000000"),
                denom: copy_string("ETH"),
                chain_id: copy_string("ethereum-1"),
                decimals: 18,
            },
            fraud_slash_percentage: 10000,
            challenger_reward_percentage: 2000,
            timeout_insurance_rate_bps: 200,
        };
        let performance_tracker = PerformanceTracker {
            relayer_performance: Vec::new(),
            route_performance: Vec::new(),
            network_conditions: Vec::new(),
        };
        let c = FeeCalculator {
            base_fees,
            congestion_multipliers: Vec::new(),
            route_premiums: Vec::new(),
            message_type_multipliers,
            verification_costs,
            optimistic_parameters,
            performance_tracker,
        };
        proof {
            reveal_strlit("ethereum-1");
            reveal_strlit("cosmoshub-4");
            reveal_strlit("polygon-mainnet");
            let t = c.base_fees@;
            reveal_with_fuel(lookup_fee, 4);
            reveal_with_fuel(lookup_type_multiplier, 5);
            assert(t.drop_first().drop_first().drop_first() =~= Seq::<(String, Fee)>::empty());
            assert("ethereum-1"@[0] != "cosmoshub-4"@[0]);
            assert("ethereum-1"@ != "cosmoshub-4"@);
            assert("ethereum-1"@[0] != "polygon-mainnet"@[0]);
            assert("ethereum-1"@ != "polygon-mainnet"@);
            assert("cosmoshub-4"@ != "polygon-mainnet"@);
            let m = c.message_type_multipliers@;
            assert(m.drop_first().drop_first().drop_first().drop_first() =~= Seq::<
                (MessageType, u64),
            >::empty());
        }
        c
    }
}

} // verus!

verus! {

impl FeeCalculator {
    fn base_fee_lookup(&self, chain_id: &str) -> (r: Option<&Fee>)
        ensures
            match (r, self.base_fee_for(chain_id@)) {
                (Some(a), Some(b)) => *a == b,
                (None, None) => true,
                _ => false,
            },
    {
        let t = &self.base_fees;
        let mut i: usize = 0;
        assert(t@.skip(0) =~= t@);
        while i < t.len()
            invariant
                i <= t.len(),
                t == &self.base_fees,
                lookup_fee(t@, chain_id@) == lookup_fee(t@.skip(i as int), chain_id@),
            decreases t.len() - i,
        {
            assert(t@.skip(i as int).drop_first() =~= t@.skip(i + 1));
            if str_eq(t[i].0.as_str(), chain_id) {
                return Some(&t[i].1);
            }
            i = i + 1;
        }
        None
    }

    fn type_multiplier_lookup(&self, message_type: MessageType) -> (r: Option<u64>)
        ensures
            r == self.type_multiplier_for(message_type),
    {
        let t = &self.message_type_multipliers;
        let mut i: usize = 0;
        assert(t@.skip(0) =~= t@);
        while i < t.len()
            invariant
                i <= t.len(),
                t == &self.message_type_multipliers,
                lookup_type_multiplier(t@, message_type) == lookup_type_multiplier(
                    t@.skip(i as int),
                    message_type,
                ),
            decreases t.len() - i,
        {
            assert(t@.skip(i as int).drop_first() =~= t@.skip(i + 1));
            if t[i].0 == message_type {
                return Some(t[i].1);
            }
            i = i + 1;
        }
        None
    }

    fn premium_lookup(&self, from: &ChainId, to: &ChainId) -> (r: Option<u64>)
        ensures
            r == self.premium_for(from@, to@),
    {
        let t = &self.route_premiums;
        let mut i: usize = 0;
        assert(t@.skip(0) =~= t@);
        while i < t.len()
            invariant
                i <= t.len(),
                t == &self.route_premiums,
                lookup_premium(t@, from@, to@) == lookup_premium(t@.skip(i as int), from@, to@),
            decreases t.len() - i,
        {
            assert(t@.skip(i as int).drop_first() =~= t@.skip(i + 1));
            if str_eq(t[i].0.as_str(), from.as_str()) && str_eq(t[i].1.as_str(), to.as_str()) {
                return Some(t[i].2);
            }
            i = i + 1;
        }
        None
    }

    fn performance_lookup(&self, relayer: &str) -> (r: Option<RelayerPerformance>)
        ensures
            r == self.performance_for(relayer@),
    {
        let t = &self.performance_tracker.relayer_performance;
        let mut i: usize = 0;
        assert(t@.skip(0) =~= t@);
        while i < t.len()
            invariant
                i <= t.len(),
                t == &self.performance_tracker.relayer_performance,
                lookup_performance(t@, relayer@) == lookup_performance(t@.skip(i as int), relayer@),
            decreases t.len() - i,
        {
            assert(t@.skip(i as int).drop_first() =~= t@.skip(i + 1));
            if str_eq(t[i].0.as_str(), relayer) {
                return Some(t[i].1);
            }
            i = i + 1;
        }
        None
    }

    /// The adjustment for the record of the message's relayer.
    fn adjustment_bps(&self, message: &UniversalMessage) -> (a: u64)
        ensures
            a == self.adjustment_of(*message),
    {
        let relayer = match &message.relayer_assignment {
            Some(r) => hex_encode(r.assigned_relayer.as_slice()),
            None => String::new(),
        };
        let perf = match self.performance_lookup(relayer.as_str()) {
            Some(p) => p,
            None => RelayerPerformance {
                success_rate_bps: 5000,
                average_latency_ms: 1000,
                total_volume_processed: 0,
                last_fraud_detected: None,
                reputation_score_bps: 5000,
            },
        };
        let adjustment: u64 = if perf.success_rate_bps >= 9500 {
            9000
        } else if perf.reputation_score_bps < 3000 {
            12000
        } else {
            10000
        };
        adjustment
    }

    /// The premium of a route, where every prefix's premium fits in 64 bits.
    fn checked_route_premium(&self, route: &Route) -> (r: Option<u64>)
        ensures
            match r {
                Some(p) => p == self.route_premium(route_ids(*route)) && forall|k: int|
                    0 <= k <= route_ids(*route).len() ==> #[trigger] self.route_premium(
                        route_ids(*route).take(k),
                    ) <= u64::MAX,
                None => exists|k: int|
                    0 <= k <= route_ids(*route).len() && #[trigger] self.route_premium(
                        route_ids(*route).take(k),
                    ) > u64::MAX,
            },
    {
        let path = &route.path;
        let ghost ids = route_ids(*route);
        let mut premium: u64 = 10000;
        let mut i: usize = if path.len() == 0 { 0 } else { 1 };
        assert(self.route_premium(ids.take(0)) == 10000);
        assert(self.route_premium(ids.take(i as int)) == 10000);
        while i < path.len()
            invariant
                i <= path.len(),
                path.len() > 0 ==> 1 <= i,
                path == &route.path,
                ids == route_ids(*route),
                forall|k: int| 0 <= k <= i ==> #[trigger] self.route_premium(ids.take(k)) <= u64::MAX,
                premium == self.route_premium(ids.take(i as int)),
            decreases path.len() - i,
        {
            let hop = match self.premium_lookup(&path[i - 1], &path[i]) {
                Some(p) => p,
                None => 10000,
            };
            let ghost next = ids.take(i + 1);
            assert(next.drop_last() =~= ids.take(i as int));
            assert(next[next.len() - 2] == path@[i - 1]@);
            assert(next[next.len() - 1] == path@[i as int]@);
            let wide = round_bps_wide(premium, hop);
            if wide > u64::MAX as u128 {
                assert(self.route_premium(ids.take(i + 1)) > u64::MAX);
                return None;
            }
            premium = wide as u64;
            i = i + 1;
        }
        assert(ids.take(path.len() as int) =~= ids);
        Some(premium)
    }

    /// Whether every running total of the fee before the relayer's adjustment
    /// fits in 64 bits, for the base fee `base` and the route premium
    /// `premium`.
    #[verifier::spinoff_prover]
    fn stages_fit(
        &self,
        message: &UniversalMessage,
        route: &Route,
        premium: u64,
        base: u64,
        congestion: u64,
        now: u64,
    ) -> (b: bool)
        requires
            premium == self.route_premium(route_ids(*route)),
            complexity_base(*message) <= u64::MAX,
        ensures
            b == ({
                let (s1, s3, _) = self.fee_stages(
                    *message,
                    route_ids(*route),
                    base as nat,
                    congestion as nat,
                    now,
                );
                s1 <= u64::MAX && s3 <= u64::MAX
            }),
    {
        let ghost stages = self.fee_stages(
            *message,
            route_ids(*route),
            base as nat,
            congestion as nat,
            now,
        );
        let complexity_base: u64 = match &message.payload {
            Some(Payload::TokenTransfer(t)) => 5000 + t.denom.as_str().as_bytes().len() as u64 * 10,
            Some(Payload::ContractCall(c)) => 10000 + c.call_data.len() as u64 * 10,
            Some(Payload::StateQuery(_)) => 15000,
            _ => 20000,
        };
        let multiplier = match self.type_multiplier_lookup(message.message_type) {
            Some(m) => m,
            None => 10000,
        };
        let complexity = round_bps_wide(complexity_base, multiplier);
        let verification = match self.calculate_verification_fee(message) {
            Ok(v) => v,
            Err(_) => 0,
        };
        let route_fee = round_bps_wide(5000, premium);
        proof {
            lemma_round_bps_bound(complexity_base as nat, multiplier as nat);
            lemma_round_bps_bound(5000, premium as nat);
        }
        let s1: u128 = base as u128 + complexity + verification as u128 + route_fee;
        assert(s1 == stages.0);
        if s1 > u64::MAX as u128 {
            return false;
        }
        let scaled = round_bps_wide(s1 as u64, congestion);
        let priority: u128 = match self.calculate_priority_fee(message) {
            Ok(p) => p as u128,
            Err(_) => 0,
        };
        let insurance: u128 = match message.timeout_timestamp() {
            Some(t) => {
                let duration = t.saturating_sub(now);
                let v = round_bps_wide(duration, self.optimistic_parameters.timeout_insurance_rate_bps);
                proof {
                    lemma_round_bps_bound(
                        duration as nat,
                        self.optimistic_parameters.timeout_insurance_rate_bps as nat,
                    );
                }
                if v < 1000 {
                    1000
                } else {
                    v
                }
            },
            None => 0,
        };
        proof {
            lemma_round_bps_bound(s1 as nat, congestion as nat);
        }
        let s3: u128 = scaled + priority + insurance;
        assert(s3 == stages.1);
        s3 <= u64::MAX as u128
    }

    /// Whether the total fee of a message on `route`, with the congestion
    /// multiplier `congestion` at Unix time `now`, can be worked out within
    /// 64 bits: the condition under which `calculate_total_fee_at` may be
    /// called.
    pub fn total_fee_fits(&self, message: &UniversalMessage, route: &Route, congestion: u64, now: u64) -> (b: bool)
        ensures
            b == self.fee_fits(*message, route_ids(*route), congestion as nat, now),
    {
        let dest = match pricing_chain_of(message, route) {
            Some(d) => d,
            None => {
                return false;
            },
        };
        let premium = match self.checked_route_premium(route) {
            Some(p) => p,
            None => {
                return false;
            },
        };
        let complexity_base: u128 = match &message.payload {
            Some(Payload::TokenTransfer(t)) => 5000 + t.denom.as_str().as_bytes().len() as u128 * 10,
            Some(Payload::ContractCall(c)) => 10000 + c.call_data.len() as u128 * 10,
            Some(Payload::StateQuery(_)) => 15000,
            _ => 20000,
        };
        if complexity_base > u64::MAX as u128 {
            return false;
        }
        let base_fee = match self.base_fee_lookup(dest) {
            Some(f) => f,
            None => {
                return true;
            },
        };
        let base = match parse_u64(base_fee.amount.as_str()) {
            Some(b) => b,
            None => {
                return true;
            },
        };
        self.stages_fit(message, route, premium, base, congestion, now)
    }

    /// The amount of a fee as a number.
    pub fn parse_fee_amount(&self, fee: &Fee) -> (r: Result<u64, RelayerError>)
        ensures
            match parse_u64_spec(encode_utf8(fee.amount@)) {
                Some(v) => r == Ok::<u64, RelayerError>(v),
                None => r == Err::<u64, RelayerError>(RelayerError::InvalidFeeAmount),
            },
    {
        match parse_u64(fee.amount.as_str()) {
            Some(v) => Ok(v),
            None => Err(RelayerError::InvalidFeeAmount),
        }
    }

    /// The complexity fee: the size-dependent base scaled by the message
    /// type's multiplier (1.0 for a type without one).
    pub fn calculate_complexity_fee(&self, message: &UniversalMessage) -> (r: Result<u64, RelayerError>)
        requires
            complexity_base(*message) <= u64::MAX,
            self.complexity_fee_of(*message) <= u64::MAX,
        ensures
            r == Ok::<u64, RelayerError>(self.complexity_fee_of(*message) as u64),
    {
        let multiplier = match self.type_multiplier_lookup(message.message_type) {
            Some(m) => m,
            None => 10000,
        };
        let base: u64 = match &message.payload {
            Some(Payload::TokenTransfer(t)) => 5000 + t.denom.as_str().as_bytes().len() as u64 * 10,
            Some(Payload::ContractCall(c)) => 10000 + c.call_data.len() as u64 * 10,
            Some(Payload::StateQuery(_)) => 15000,
            _ => 20000,
        };
        Ok(round_bps_wide(base, multiplier) as u64)
    }

    /// The gas of the verification the message asks for.
    pub fn calculate_verification_fee(&self, message: &UniversalMessage) -> (r: Result<u64, RelayerError>)
        ensures
            r == Ok::<u64, RelayerError>(verification_gas(self.costs(), *message) as u64),
    {
        let gas = match &message.proof_requirement {
            Some(p) => match &p.requirement {
                Some(Requirement::LightClient(_)) => self.verification_costs.traditional_ics23_gas,
                Some(Requirement::ZkProof(_)) => self.verification_costs.zk_verification_gas,
                Some(Requirement::Optimistic(_)) => self.verification_costs.optimistic_overhead_gas,
                None => 0,
            },
            None => 0,
        };
        Ok(gas)
    }

    /// The route fee: 5 000 scaled by the premiums of the route's hops.
    pub fn calculate_route_fee(&self, route: &Route) -> (r: Result<u64, RelayerError>)
        requires
            forall|k: int|
                0 <= k <= route_ids(*route).len() ==> #[trigger] self.route_premium(
                    route_ids(*route).take(k),
                ) <= u64::MAX,
        ensures
            r == Ok::<u64, RelayerError>(self.route_fee_of(route_ids(*route)) as u64),
    {
        let path = &route.path;
        let ghost ids = route_ids(*route);
        let mut premium: u64 = 10000;
        let mut i: usize = if path.len() == 0 { 0 } else { 1 };
        assert(self.route_premium(ids.take(i as int)) == 10000);
        while i < path.len()
            invariant
                i <= path.len(),
                path.len() > 0 ==> 1 <= i,
                path == &route.path,
                ids == route_ids(*route),
                forall|k: int|
                    0 <= k <= ids.len() ==> #[trigger] self.route_premium(ids.take(k))
                        <= u64::MAX,
                premium == self.route_premium(ids.take(i as int)),
            decreases path.len() - i,
        {
            let hop = match self.premium_lookup(&path[i - 1], &path[i]) {
                Some(p) => p,
                None => 10000,
            };
            let ghost next = ids.take(i + 1);
            assert(next.drop_last() =~= ids.take(i as int));
            assert(next[next.len() - 2] == path@[i - 1]@);
            assert(next[next.len() - 1] == path@[i as int]@);
            assert(self.route_premium(next) <= u64::MAX);
            premium = round_bps_wide(premium, hop) as u64;
            i = i + 1;
        }
        assert(ids.take(path.len() as int) =~= ids);
        proof {
            assert(round_bps(5000, premium as nat) <= 5000 * (premium as nat) + 5000) by (nonlinear_arith);
        }
        let fee = round_bps_wide(5000, premium);
        assert(fee <= 5000 * (u64::MAX as nat)) by (nonlinear_arith)
            requires
                fee == round_bps(5000, premium as nat),
                premium <= u64::MAX,
        ;
        if fee > u64::MAX as u128 {
            Ok(u64::MAX)
        } else {
            Ok(fee as u64)
        }
    }

    /// The congestion multiplier from the oracles' readings, in order.
    pub fn get_network_congestion(&self, readings: &Vec<Option<u64>>) -> (c: u64)
        ensures
            c == congestion_from_readings(readings@),
            5000 <= c <= 20000,
    {
        let mut i: usize = 0;
        assert(readings@.skip(0) =~= readings@);
        while i < readings.len()
            invariant
                i <= readings.len(),
                congestion_from_readings(readings@) == congestion_from_readings(
                    readings@.skip(i as int),
                ),
            decreases readings.len() - i,
        {
            assert(readings@.skip(i as int).drop_first() =~= readings@.skip(i + 1));
            if let Some(c) = readings[i] {
                return if c < 5000 {
                    5000
                } else if c > 20000 {
                    20000
                } else {
                    c
                };
            }
            i = i + 1;
        }
        10000
    }

    /// The gas price from the oracles' readings, in order.
    pub fn get_gas_price(&self, readings: &Vec<Option<u64>>) -> (p: u64)
        ensures
            p == gas_price_from_readings(readings@),
    {
        let mut i: usize = 0;
        assert(readings@.skip(0) =~= readings@);
        while i < readings.len()
            invariant
                i <= readings.len(),
                gas_price_from_readings(readings@) == gas_price_from_readings(
                    readings@.skip(i as int),
                ),
            decreases readings.len() - i,
        {
            assert(readings@.skip(i as int).drop_first() =~= readings@.skip(i + 1));
            if let Some(p) = readings[i] {
                return p;
            }
            i = i + 1;
        }
        100
    }

    /// The priority fee of a message.
    pub fn calculate_priority_fee(&self, message: &UniversalMessage) -> (r: Result<u64, RelayerError>)
        ensures
            r == Ok::<u64, RelayerError>(priority_fee(*message) as u64),
    {
        let priority = match &message.economic_parameters {
            Some(e) => e.priority,
            None => None,
        };
        Ok(
            match priority {
                Some(Priority::Low) => 4000,
                Some(Priority::Normal) => 5000,
                Some(Priority::High) => 7500,
                Some(Priority::Critical) => 15000,
                None => 5000,
            },
        )
    }

    /// The insurance against a timeout `timeout_duration` seconds away.
    pub fn calculate_timeout_insurance(&self, timeout_duration: u64) -> (r: Result<u64, RelayerError>)
        requires
            timeout_insurance(
                timeout_duration as nat,
                self.parameters().timeout_insurance_rate_bps as nat,
            ) <= u64::MAX,
        ensures
            r == Ok::<u64, RelayerError>(
                timeout_insurance(
                    timeout_duration as nat,
                    self.parameters().timeout_insurance_rate_bps as nat,
                ) as u64,
            ),
            r matches Ok(v) && v >= 1000,
    {
        let insurance = round_bps_wide(
            timeout_duration,
            self.optimistic_parameters.timeout_insurance_rate_bps,
        );
        if insurance < 1000 {
            Ok(1000)
        } else {
            Ok(insurance as u64)
        }
    }

    /// The fee adjusted for the record of the message's relayer, capped at
    /// the largest `u64`.
    pub fn adjust_for_performance(&self, base_fee: u64, message: &UniversalMessage) -> (r: Result<
        u64,
        RelayerError,
    >)
        ensures
            r matches Ok(v) && v == saturate_u64(
                round_bps(base_fee as nat, self.adjustment_of(*message)),
            ),
    {
        let adjustment = self.adjustment_bps(message);
        let adjusted = round_bps_wide(base_fee, adjustment);
        if adjusted > u64::MAX as u128 {
            Ok(u64::MAX)
        } else {
            Ok(adjusted as u64)
        }
    }
}

} // verus!

verus! {

/// What the total fee for a message comes to, given the calculator, the
/// route, the congestion multiplier (as the oracles gave it) and Unix time
/// `now`.
pub open spec fn total_fee_result(
    c: FeeCalculator,
    m: UniversalMessage,
    path: Seq<Seq<char>>,
    congestion: u64,
    now: u64,
    r: Result<Fee, RelayerError>,
) -> bool {
    let dest = pricing_chain(m, path);
    match c.base_fee_for(dest) {
        None => r == Err::<Fee, RelayerError>(RelayerError::UnknownDestinationChain),
        Some(f) => match parse_u64_spec(encode_utf8(f.amount@)) {
            None => r == Err::<Fee, RelayerError>(RelayerError::InvalidFeeAmount),
            Some(b) => r matches Ok(fee) && {
                &&& fee.amount@ == decimal_digits(
                    c.fee_stages(m, path, b as nat, congestion as nat, now).2,
                )
                &&& fee.denom@ == f.denom@
                &&& fee.chain_id@ == dest
                &&& fee.decimals == f.decimals
            },
        },
    }
}

impl FeeCalculator {
    /// The total fee for a message at Unix time `now`, with the congestion
    /// multiplier `congestion`: base, complexity, verification and route fees,
    /// scaled by congestion, plus the priority fee and, for a message that
    /// times out by timestamp, insurance for the time left; then adjusted for
    /// the relayer's record. The fee is in the denomination of the chain the
    /// message is priced on: its destination, or the route's last chain where
    /// the destination names none.
    pub fn calculate_total_fee_at(
        &self,
        message: &UniversalMessage,
        route: &Route,
        network_conditions: &NetworkConditions,
        congestion: u64,
        now: u64,
    ) -> (r: Result<Fee, RelayerError>)
        requires
            self.fee_fits(*message, route_ids(*route), congestion as nat, now),
        ensures
            total_fee_result(*self, *message, route_ids(*route), congestion, now, r),
    {
        let dest = match pricing_chain_of(message, route) {
            Some(d) => d,
            None => {
                return Err(RelayerError::UnknownDestinationChain);
            },
        };
        let base_fee = match self.base_fee_lookup(dest) {
            Some(f) => f,
            None => {
                return Err(RelayerError::UnknownDestinationChain);
            },
        };
        let base = match self.parse_fee_amount(base_fee) {
            Ok(b) => b,
            Err(e) => {
                return Err(e);
            },
        };
        let ghost stages = self.fee_stages(
            *message,
            route_ids(*route),
            base as nat,
            congestion as nat,
            now,
        );
        let complexity = match self.calculate_complexity_fee(message) {
            Ok(v) => v,
            Err(e) => {
                return Err(e);
            },
        };
        let verification = match self.calculate_verification_fee(message) {
            Ok(v) => v,
            Err(e) => {
                return Err(e);
            },
        };
        let route_fee = match self.calculate_route_fee(route) {
            Ok(v) => v,
            Err(e) => {
                return Err(e);
            },
        };
        let s1: u64 = base + complexity + verification + route_fee;
        assert(s1 == stages.0);
        let scaled = round_bps_wide(s1, congestion);
        let priority = match self.calculate_priority_fee(message) {
            Ok(v) => v,
            Err(e) => {
                return Err(e);
            },
        };
        let insurance: u64 = match message.timeout_timestamp() {
            Some(t) => {
                let duration = t.saturating_sub(now);
                match self.calculate_timeout_insurance(duration) {
                    Ok(v) => v,
                    Err(e) => {
                        return Err(e);
                    },
                }
            },
            None => 0,
        };
        let s3: u64 = (scaled + priority as u128 + insurance as u128) as u64;
        assert(s3 == stages.1);
        let total = match self.adjust_for_performance(s3, message) {
            Ok(v) => v,
            Err(e) => {
                return Err(e);
            },
        };
        assert(total == stages.2);
        Ok(
            Fee {
                amount: u64_to_decimal(total),
                denom: base_fee.denom.clone(),
                chain_id: copy_string(dest),
                decimals: base_fee.decimals,
            },
        )
    }

    /// The total fee for a message now, with the congestion multiplier taken
    /// from the oracles' readings.
    pub fn calculate_total_fee(
        &self,
        message: &UniversalMessage,
        route: &Route,
        network_conditions: &NetworkConditions,
        congestion_readings: &Vec<Option<u64>>,
    ) -> (r: Result<Fee, RelayerError>)
        requires
            forall|now: u64|
                self.fee_fits(
                    *message,
                    route_ids(*route),
                    congestion_from_readings(congestion_readings@) as nat,
                    now,
                ),
        ensures
            r == Err::<Fee, RelayerError>(RelayerError::ClockBeforeEpoch) || exists|now: u64|
                total_fee_result(
                    *self,
                    *message,
                    route_ids(*route),
                    congestion_from_readings(congestion_readings@),
                    now,
                    r,
                ),
    {
        let congestion = self.get_network_congestion(congestion_readings);
        match unix_time_now() {
            Some(now) => self.calculate_total_fee_at(
                message,
                route,
                network_conditions,
                congestion,
                now,
            ),
            None => Err(RelayerError::ClockBeforeEpoch),
        }
    }
}

} // verus!
