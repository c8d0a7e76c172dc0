use vstd::prelude::*;
use vstd::string::StringExecFns;

use crate::sensor::{Measurement, Quantity, SensorError};
use crate::units::{push_tenths, tenths_text};

verus! {

/// Where the telemetry loop is within a tick.
#[derive(Clone, Copy, Debug, PartialEq, Eq, Structural)]
pub enum Phase {
    /// Waiting for the next tick.
    Idle,
    /// Reading the sensors for the current tick.
    Sampling,
}

/// Delivery guarantee asked of the transport.
#[derive(Clone, Copy, Debug, PartialEq, Eq, Structural)]
pub enum Delivery {
    AtMostOnce,
    AtLeastOnce,
    ExactlyOnce,
}

/// A message handed to the messaging client, fire and forget.
#[derive(Clone, Debug)]
pub struct Publish {
    pub topic: String,
    pub payload: String,
    pub delivery: Delivery,
    pub retain: bool,
}

/// What the loop does at the end of a tick.
#[derive(Clone, Debug)]
pub enum TickAction {
    /// The reading succeeded: publish it.
    Send(Publish),
    /// The reading failed: publish nothing this tick; the next tick retries.
    Skip(SensorError),
}

pub open spec fn topic_text() -> Seq<char> {
    "worker/rawData"@
}

/// The telemetry payload of a measurement, a compact JSON object.
pub open spec fn payload_text(m: Measurement) -> Seq<char> {
    "{\"temp\": "@ + tenths_text(m.temperature as int) + ", \"humidity\": "@ + tenths_text(
        m.humidity as int,
    ) + "}"@
}

/// The payloads published over a run of ticks with the given sensor
/// outcomes: one per successful reading, in order, nothing for a failure.
pub open spec fn published_log(rs: Seq<Result<Measurement, SensorError>>) -> Seq<Seq<char>>
    decreases rs.len(),
{
    if rs.len() == 0 {
        Seq::empty()
    } else {
        let before = published_log(rs.drop_last());
        match rs.last() {
            Ok(m) => before.push(payload_text(m)),
            Err(_) => before,
        }
    }
}

/// What a tick that ends with action `a` adds to the published log.
pub open spec fn sent_by(a: TickAction) -> Seq<Seq<char>> {
    match a {
        TickAction::Send(p) => seq![p.payload@],
        TickAction::Skip(_) => Seq::empty(),
    }
}

/// Builds the telemetry payload of a measurement.
pub fn payload(m: &Measurement) -> (r: String)
    ensures
        r@ == payload_text(*m),
{
    proof {
        reveal_strlit("{\"temp\": ");
        reveal_strlit(", \"humidity\": ");
        reveal_strlit("}");
    }
    let mut out = String::from_str("{\"temp\": ");
    push_tenths(&mut out, m.temperature as i32);
    out.append(", \"humidity\": ");
    push_tenths(&mut out, m.humidity as i32);
    out.append("}");
    out
}

/// The state machine of the telemetry loop, with the sensor outcomes of
/// every finished tick as its history.
pub struct TelemetryLoop {
    phase: Phase,
    readings: Ghost<Seq<Result<Measurement, SensorError>>>,
}

impl TelemetryLoop {
    pub closed spec fn phase_spec(&self) -> Phase {
        self.phase
    }

    pub closed spec fn readings(&self) -> Seq<Result<Measurement, SensorError>> {
        self.readings@
    }

    /// An idle loop that has not ticked yet.
    pub fn new() -> (r: TelemetryLoop)
        ensures
            r.phase_spec() == Phase::Idle,
            r.readings() == Seq::<Result<Measurement, SensorError>>::empty(),
    {
        TelemetryLoop { phase: Phase::Idle, readings: Ghost(Seq::empty()) }
    }

    pub fn phase(&self) -> (r: Phase)
        ensures
            r == self.phase_spec(),
    {
        self.phase
    }

    /// The tick timer fired: start sampling.
    pub fn begin_tick(&mut self)
        requires
            old(self).phase_spec() == Phase::Idle,
        ensures
            final(self).phase_spec() == Phase::Sampling,
            final(self).readings() == old(self).readings(),
    {
        self.phase = Phase::Sampling;
    }

    /// The sensor read of this tick finished with `reading`. A success is
    /// published at most once and not retained; a failure publishes nothing.
    /// Either way the loop goes back to idle.
    pub fn finish_tick(&mut self, reading: Result<Measurement, SensorError>) -> (a: TickAction)
        requires
            old(self).phase_spec() == Phase::Sampling,
        ensures
            final(self).phase_spec() == Phase::Idle,
            final(self).readings() == old(self).readings().push(reading),
            published_log(final(self).readings()) == published_log(old(self).readings()) + sent_by(a),
            match reading {
                Ok(m) => a matches TickAction::Send(p) && p.topic@ == topic_text() && p.payload@
                    == payload_text(m) && p.delivery == Delivery::AtMostOnce && !p.retain,
                Err(e) => a == TickAction::Skip(e),
            },
    {
        let ghost rs = self.readings@.push(reading);
        self.phase = Phase::Idle;
        self.readings = Ghost(rs);
        assert(rs.drop_last() == old(self).readings());
        match reading {
            Ok(m) => {
                proof { reveal_strlit("worker/rawData"); }
                let p = Publish {
                    topic: String::from_str("worker/rawData"),
                    payload: payload(&m),
                    delivery: Delivery::AtMostOnce,
                    retain: false,
                };
                TickAction::Send(p)
            },
            Err(e) => {
                assert(published_log(old(self).readings()) + Seq::<Seq<char>>::empty()
                    == published_log(old(self).readings()));
                TickAction::Skip(e)
            },
        }
    }
}

/// Skip and continue: a tick whose sensor read failed publishes nothing.
pub proof fn lemma_failed_tick_publishes_nothing(
    rs: Seq<Result<Measurement, SensorError>>,
    e: SensorError,
)
    ensures
        published_log(rs.push(Err(e))) == published_log(rs),
{
    assert(rs.push(Err(e)).drop_last() == rs);
}

/// No backlog and no replay: the next successful tick publishes exactly its
/// own measurement after what was published before.
pub proof fn lemma_next_success_resumes(rs: Seq<Result<Measurement, SensorError>>, m: Measurement)
    ensures
        published_log(rs.push(Ok(m))) == published_log(rs).push(payload_text(m)),
{
    assert(rs.push(Ok(m)).drop_last() == rs);
}

} // verus!
