//! Properties that span several operations of the library.

use vstd::prelude::*;
use crate::chain_adapter::{IbcPacket, PacketModel};
use crate::circuit::{PATH_LEN, SIBLINGS_LEN};
use crate::encoding_laws::{lemma_message_encoding_injective, same_message};
use crate::message::{ibc_packet_of, validation_at};
use crate::error::RelayerError;
use crate::cosmos::{
    cap_u64, ics20_fields, message_for_packet, packet_converts, packet_for_message,
    priority_multiplier_bps, scale_down,
};
use crate::evm::challenge_period_for;
use crate::fee_calculator::{round_bps, FeeCalculator};
use crate::processing::processing_check;
use crate::decimal::{lemma_parse_of_decimal, parse_u64_spec};
use crate::relayer_client::{prepared_submission, submission_route, with_assignment, OptimisticSubmission, RelayerClient};
use crate::uibc::{
    EconomicParameters, Fee, Height, Ics23Proof, Payload, Priority, Timeout, UniversalMessage,
};
use vstd::utf8::encode_utf8;

verus! {

/// A packet that the Cosmos adapter turned into a message comes back, when
/// the message is turned into a packet again, with the same sequence, ports,
/// channels and timeout: a timestamp where the packet had one, else its
/// height.
pub proof fn lemma_packet_roundtrip(
    chain_id: Seq<char>,
    connection: Seq<char>,
    p: PacketModel,
    now: u64,
    m: UniversalMessage,
    q: PacketModel,
)
    requires
        message_for_packet(chain_id, connection, p, now, m),
        packet_for_message(m, q),
    ensures
        q.sequence == p.sequence,
        q.source_port == p.source_port,
        q.source_channel == p.source_channel,
        q.destination_port == p.destination_port,
        q.destination_channel == p.destination_channel,
        p.timeout_timestamp > 0 ==> q.timeout_timestamp == p.timeout_timestamp
            && q.timeout_height == (Height { revision_number: 0, revision_height: 0 }),
        p.timeout_timestamp == 0 ==> q.timeout_timestamp == 0 && q.timeout_height
            == p.timeout_height,
{
}

/// The data of the IBC packet that carries a message determines the
/// message: two messages whose packets carry the same data agree in every
/// field.
pub proof fn lemma_packet_data_determines_message(
    m1: UniversalMessage,
    m2: UniversalMessage,
    p1: IbcPacket,
    p2: IbcPacket,
)
    requires
        ibc_packet_of(m1, m1.encoding(), p1),
        ibc_packet_of(m2, m2.encoding(), p2),
        p1.data@ == p2.data@,
    ensures
        same_message(m1, m2),
{
    lemma_message_encoding_injective(m1, m2);
}

/// A message that the Cosmos adapter made of a packet on a port other than
/// `transfer` carries no payload, so it cannot be turned back into a packet.
pub proof fn lemma_non_transfer_packet_is_one_way(
    chain_id: Seq<char>,
    connection: Seq<char>,
    p: PacketModel,
    now: u64,
    m: UniversalMessage,
)
    requires
        message_for_packet(chain_id, connection, p, now, m),
        p.source_port != "transfer"@,
    ensures
        forall|q: PacketModel| !(#[trigger] packet_for_message(m, q)),
{
}

/// A transfer packet that the Cosmos adapter turned into a message, turned
/// back into a packet whose JSON reads as the message's transfer, carries the
/// same ICS-20 fields as the first packet.
pub proof fn lemma_transfer_data_roundtrip(
    chain_id: Seq<char>,
    connection: Seq<char>,
    p: PacketModel,
    now: u64,
    m: UniversalMessage,
    q: PacketModel,
)
    requires
        message_for_packet(chain_id, connection, p, now, m),
        packet_converts(p),
        p.source_port == "transfer"@,
        m.payload matches Some(Payload::TokenTransfer(t)) && ics20_fields(q.data) == Some(
            (t.denom@, t.amount@, t.sender@, t.receiver@, t.memo@),
        ),
    ensures
        ics20_fields(q.data) == ics20_fields(p.data),
{
}

/// The rank of a priority, from low to critical.
pub open spec fn priority_rank(p: Priority) -> nat {
    match p {
        Priority::Low => 0,
        Priority::Normal => 1,
        Priority::High => 2,
        Priority::Critical => 3,
    }
}

/// `m` at priority `p`.
pub open spec fn with_priority(m: UniversalMessage, p: Priority) -> UniversalMessage {
    UniversalMessage {
        economic_parameters: Some(
            match m.economic_parameters {
                Some(e) => EconomicParameters { priority: Some(p), ..e },
                None => EconomicParameters { priority: Some(p), base_fee: 0, verification_fee: 0 },
            },
        ),
        ..m
    }
}

/// Raising a message's priority never lowers its total fee, and raises it
/// strictly while the higher total stays within the largest `u64`, where the
/// relayer's adjustment saturates.
pub proof fn lemma_fee_monotone_in_priority(
    c: FeeCalculator,
    m: UniversalMessage,
    p1: Priority,
    p2: Priority,
    path: Seq<Seq<char>>,
    base: nat,
    congestion: nat,
    now: u64,
)
    requires
        priority_rank(p1) <= priority_rank(p2),
    ensures
        c.fee_stages(with_priority(m, p1), path, base, congestion, now).2 <= c.fee_stages(
            with_priority(m, p2),
            path,
            base,
            congestion,
            now,
        ).2,
        priority_rank(p1) < priority_rank(p2) && round_bps(
            c.fee_stages(with_priority(m, p2), path, base, congestion, now).1,
            c.adjustment_of(with_priority(m, p2)),
        ) <= u64::MAX ==> c.fee_stages(with_priority(m, p1), path, base, congestion, now).2
            < c.fee_stages(with_priority(m, p2), path, base, congestion, now).2,
{
    let m1 = with_priority(m, p1);
    let m2 = with_priority(m, p2);
    let r = c.adjustment_of(m1);
    assert(r == c.adjustment_of(m2));
    assert(r >= 9000);
    let a = c.fee_stages(m1, path, base, congestion, now).1;
    let b = c.fee_stages(m2, path, base, congestion, now).1;
    lemma_round_bps_monotone(a, b, r, r);
    if priority_rank(p1) < priority_rank(p2) {
        assert(a + 1000 <= b);
        lemma_round_bps_gap(a, b, r);
    }
}

/// Scaling by at least 0.9 keeps a gap of 1 000 between two amounts a gap
/// after rounding.
pub proof fn lemma_round_bps_gap(x: nat, y: nat, r: nat)
    requires
        x + 1000 <= y,
        r >= 9000,
    ensures
        round_bps(x, r) < round_bps(y, r),
{
    assert(x * r + 9000000 <= y * r) by (nonlinear_arith)
        requires
            x + 1000 <= y,
            r >= 9000,
    ;
    assert((x * r + 5000) / 10000 < (y * r + 5000) / 10000) by (nonlinear_arith)
        requires
            x * r + 9000000 <= y * r,
    ;
}

/// Rounding a scaled amount never decreases as the amount or the ratio grows.
pub proof fn lemma_round_bps_monotone(x1: nat, x2: nat, r1: nat, r2: nat)
    requires
        x1 <= x2,
        r1 <= r2,
    ensures
        round_bps(x1, r1) <= round_bps(x2, r2),
{
    assert(x1 * r1 <= x2 * r2) by (nonlinear_arith)
        requires
            x1 <= x2,
            r1 <= r2,
    ;
    assert((x1 * r1 + 5000) / 10000 <= (x2 * r2 + 5000) / 10000) by (nonlinear_arith)
        requires
            x1 * r1 <= x2 * r2,
    ;
}

/// Heavier congestion never lowers the total fee of a message.
pub proof fn lemma_fee_monotone_in_congestion(
    c: FeeCalculator,
    m: UniversalMessage,
    path: Seq<Seq<char>>,
    base: nat,
    congestion1: nat,
    congestion2: nat,
    now: u64,
)
    requires
        congestion1 <= congestion2,
    ensures
        c.fee_stages(m, path, base, congestion1, now).2 <= c.fee_stages(
            m,
            path,
            base,
            congestion2,
            now,
        ).2,
{
    let s1 = c.fee_stages(m, path, base, congestion1, now).0;
    lemma_round_bps_monotone(s1, s1, congestion1, congestion2);
    let a = c.fee_stages(m, path, base, congestion1, now).1;
    let b = c.fee_stages(m, path, base, congestion2, now).1;
    lemma_round_bps_monotone(a, b, c.adjustment_of(m), c.adjustment_of(m));
}

/// A higher base fee never lowers the total fee of a message.
pub proof fn lemma_fee_monotone_in_base(
    c: FeeCalculator,
    m: UniversalMessage,
    path: Seq<Seq<char>>,
    base1: nat,
    base2: nat,
    congestion: nat,
    now: u64,
)
    requires
        base1 <= base2,
    ensures
        c.fee_stages(m, path, base1, congestion, now).2 <= c.fee_stages(
            m,
            path,
            base2,
            congestion,
            now,
        ).2,
{
    let s1 = c.fee_stages(m, path, base1, congestion, now).0;
    let s2 = c.fee_stages(m, path, base2, congestion, now).0;
    lemma_round_bps_monotone(s1, s2, congestion, congestion);
    let a = c.fee_stages(m, path, base1, congestion, now).1;
    let b = c.fee_stages(m, path, base2, congestion, now).1;
    lemma_round_bps_monotone(a, b, c.adjustment_of(m), c.adjustment_of(m));
}

/// In a prepared submission, the total fee's amount reads back as the base
/// fee of the message's economic parameters.
pub proof fn lemma_submission_fee_reads_back(
    c: RelayerClient,
    m: UniversalMessage,
    selected: Vec<u8>,
    f: Fee,
    base: u64,
    proof: Seq<u8>,
    inputs: Seq<u8>,
    use_optimistic: bool,
    challenge_period: Option<u64>,
    congestion: u64,
    now: u64,
    s: OptimisticSubmission,
)
    requires
        prepared_submission(
            c,
            m,
            selected,
            f,
            base,
            proof,
            inputs,
            use_optimistic,
            challenge_period,
            congestion,
            now,
            s,
        ),
    ensures
        s.message.fees is Some,
        s.message.economic_parameters is Some,
        parse_u64_spec(encode_utf8(s.message.fees.unwrap().total_fee.amount@)) == Some(
            s.message.economic_parameters.unwrap().base_fee,
        ),
{
    reveal(prepared_submission);
    let total = c.spec_fee_calculator().fee_stages(
        with_assignment(m, selected),
        submission_route(m),
        base as nat,
        congestion as nat,
        now,
    ).2;
    lemma_parse_of_decimal(total as u64);
}

/// A message and proof that pass the processing checks hold proof data long
/// enough for every sibling hash and path bit of the circuit.
pub proof fn lemma_checked_proof_is_readable(m: UniversalMessage, proof: Ics23Proof)
    requires
        (processing_check(m, proof) is Ok),
    ensures
        proof.proof_data@.len() >= SIBLINGS_LEN + PATH_LEN,
{
}

/// The priority of a dynamic IBC fee scales the congestion-scaled estimate
/// `x`: normal priority (1) leaves it as it is, low priority (0) takes a
/// fifth off, high priority (2) adds half, and any level above high doubles
/// it; each rounded down and capped at the largest `u64`. A higher level
/// never costs less.
pub proof fn lemma_dynamic_fee_priority_levels(x: nat, priority: u32)
    requires
        x <= u64::MAX,
    ensures
        priority == 1 ==> scale_down(x, priority_multiplier_bps(priority)) == x,
        priority == 0 ==> scale_down(x, priority_multiplier_bps(priority)) == x * 4 / 5,
        priority == 2 ==> scale_down(x, priority_multiplier_bps(priority)) == cap_u64(x + x / 2),
        priority >= 3 ==> scale_down(x, priority_multiplier_bps(priority)) == cap_u64(2 * x),
        forall|p: u32|
            #![trigger priority_multiplier_bps(p)]
            priority <= p ==> scale_down(x, priority_multiplier_bps(priority)) <= scale_down(
                x,
                priority_multiplier_bps(p),
            ),
{
    assert(x * 10000 / 10000 == x) by (nonlinear_arith);
    assert(x * 8000 / 10000 == x * 4 / 5) by (nonlinear_arith);
    assert(x * 15000 / 10000 == x + x / 2) by (nonlinear_arith);
    assert(x * 20000 / 10000 == 2 * x) by (nonlinear_arith);
    assert forall|p: u32|
        #![trigger priority_multiplier_bps(p)]
        priority <= p implies scale_down(x, priority_multiplier_bps(priority)) <= scale_down(
            x,
            priority_multiplier_bps(p),
        ) by {
        let r1 = priority_multiplier_bps(priority);
        let r2 = priority_multiplier_bps(p);
        assert(r1 <= r2);
        assert(x * r1 <= x * r2) by (nonlinear_arith)
            requires
                r1 <= r2,
        ;
        assert(x * r1 / 10000 <= x * r2 / 10000) by (nonlinear_arith)
            requires
                x * r1 <= x * r2,
        ;
    }
}

/// Ethereum mainnet (chain 1) gets the longest challenge period, a week:
/// longer than that of any other chain, and seven times the one-day period
/// of chains that have no period of their own.
pub proof fn lemma_ethereum_challenge_period(evm_chain_id: u64)
    ensures
        challenge_period_for(1) == 7 * 24 * 3600,
        evm_chain_id != 1 ==> challenge_period_for(evm_chain_id) < challenge_period_for(1),
        evm_chain_id != 1 && evm_chain_id != 137 && evm_chain_id != 56 && evm_chain_id != 43114
            ==> 7 * challenge_period_for(evm_chain_id) == challenge_period_for(1),
{
}

/// A message whose timeout timestamp lies before the time it is validated
/// at is refused as timed out; a message that validates at some time also
/// validates at every earlier time.
pub proof fn lemma_validation_over_time(m: UniversalMessage, earlier: u64, later: u64)
    requires
        earlier <= later,
    ensures
        m.spec_timeout_timestamp() matches Some(t) && t < later ==> validation_at(m, later)
            == Err::<(), RelayerError>(RelayerError::MessageTimedOut),
        validation_at(m, later) is Ok ==> validation_at(m, earlier) is Ok,
{
}

/// `m` timing out at Unix time `t`.
pub open spec fn with_timeout_at(m: UniversalMessage, t: u64) -> UniversalMessage {
    UniversalMessage { timeout: Some(Timeout::TimeoutTimestamp(t)), ..m }
}

/// Timeout insurance is charged on the time left: pricing a message that
/// times out at `t` at time `now` gives the fee of the same message timing
/// out `t - now` seconds after time 0, and a message past its timeout pays
/// what one timing out right now pays.
pub proof fn lemma_fee_charges_time_left(
    c: FeeCalculator,
    m: UniversalMessage,
    path: Seq<Seq<char>>,
    base: nat,
    congestion: nat,
    t: u64,
    now: u64,
)
    ensures
        t >= now ==> c.fee_stages(with_timeout_at(m, t), path, base, congestion, now) == c.fee_stages(
            with_timeout_at(m, (t - now) as u64),
            path,
            base,
            congestion,
            0,
        ),
        t < now ==> c.fee_stages(with_timeout_at(m, t), path, base, congestion, now) == c.fee_stages(
            with_timeout_at(m, now),
            path,
            base,
            congestion,
            now,
        ),
{
    let m1 = with_timeout_at(m, t);
    assert(c.complexity_fee_of(m1) == c.complexity_fee_of(with_timeout_at(m, (t - now) as u64)));
    assert(c.complexity_fee_of(m1) == c.complexity_fee_of(with_timeout_at(m, now)));
    assert(c.adjustment_of(m1) == c.adjustment_of(with_timeout_at(m, now)));
    assert(c.adjustment_of(m1) == c.adjustment_of(with_timeout_at(m, (t - now) as u64)));
}

} // verus!
