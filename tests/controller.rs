use sensor_node::actuator::{Actuator, Level, PinFault};
use sensor_node::dispatch::{acknowledgment, measurement_response, Operation, Route};
use sensor_node::fault::{disposition, Disposition, ErrorClass};
use sensor_node::guard::{Acquire, Arbiter};
use sensor_node::messaging::{publish_disposition, receive_step, ReceiveStep, TransportError};
use sensor_node::sensor::{AdcError, Measurement, Quantity, SensorError};
use sensor_node::telemetry::{payload, Delivery, Phase, TelemetryLoop, TickAction};
use sensor_node::units::{push_nat, render_tenths};

fn reading(temperature: i16, humidity: u16) -> Measurement {
    Measurement { temperature, humidity }
}

#[test]
fn raw_readings_are_divided_by_ten() {
    let m = reading(235, 612);
    assert_eq!(m.text(Quantity::Temperature), "23.5");
    assert_eq!(m.text(Quantity::Humidity), "61.2");
}

#[test]
fn whole_values_have_no_fraction() {
    assert_eq!(render_tenths(250), "25");
    assert_eq!(render_tenths(0), "0");
    assert_eq!(render_tenths(-10), "-1");
    assert_eq!(render_tenths(100), "10");
}

#[test]
fn negative_and_extreme_readings() {
    assert_eq!(render_tenths(-5), "-0.5");
    assert_eq!(render_tenths(-123), "-12.3");
    assert_eq!(render_tenths(32767), "3276.7");
    assert_eq!(render_tenths(-32768), "-3276.8");
    assert_eq!(render_tenths(65535), "6553.5");
}

#[test]
fn push_nat_appends_digits() {
    let mut s = String::from("n=");
    push_nat(&mut s, 4096);
    assert_eq!(s, "n=4096");
}

#[test]
fn routes_map_to_their_operations() {
    assert_eq!(Route::LedOn.operation(), Operation::SetActuator(Level::High));
    assert_eq!(Route::LedOff.operation(), Operation::SetActuator(Level::Low));
    assert_eq!(Route::Temperature.operation(), Operation::Measure(Quantity::Temperature));
    assert_eq!(Route::Humidity.operation(), Operation::Measure(Quantity::Humidity));
    assert_eq!(Route::LedOn.path(), "/led/on");
    assert_eq!(Route::LedOff.path(), "/led/off");
    assert_eq!(Route::Temperature.path(), "/temp");
    assert_eq!(Route::Humidity.path(), "/humidity");
}

#[test]
fn successful_measurement_response() {
    let r = measurement_response(Quantity::Humidity, &Ok(reading(235, 612)));
    assert_eq!(r.status, 200);
    assert_eq!(r.body, "61.2");
}

#[test]
fn sensor_timeout_is_a_server_error() {
    let r = measurement_response(Quantity::Temperature, &Err(SensorError::Timeout));
    assert_eq!(r.status, 500);
    assert_eq!(r.body, "read temp from sensor failed, err = Timeout");
    assert_eq!(SensorError::Timeout.class(), ErrorClass::HardwareTimingFailure);
    assert_eq!(disposition(SensorError::Timeout.class()), Disposition::Recover);
}

#[test]
fn other_sensor_errors_name_their_cause() {
    let r = measurement_response(Quantity::Humidity, &Err(SensorError::CrcMismatch));
    assert_eq!(r.status, 500);
    assert_eq!(r.body, "read humidity from sensor failed, err = CrcMismatch");
    let g = measurement_response(Quantity::Temperature, &Err(SensorError::Gpio));
    assert_eq!(g.body, "read temp from sensor failed, err = Gpio");
    assert_eq!(SensorError::Gpio.cause(), "Gpio");
}

#[test]
fn actuator_on_then_off_is_off() {
    let mut a = Actuator::new(Level::Low);
    assert_eq!(a.apply(Level::High, Ok(())), Ok(()));
    assert_eq!(a.apply(Level::Low, Ok(())), Ok(()));
    assert_eq!(a.level(), Level::Low);
}

#[test]
fn actuator_fault_terminates() {
    let mut a = Actuator::new(Level::High);
    let r = a.apply(Level::Low, Err(PinFault));
    assert_eq!(r, Err(ErrorClass::FatalActuatorFault));
    assert_eq!(a.level(), Level::High);
    assert_eq!(disposition(ErrorClass::FatalActuatorFault), Disposition::Terminate);
    assert_eq!(disposition(ErrorClass::GuardPoisoned), Disposition::Terminate);
    assert_eq!(disposition(ErrorClass::ConversionFailure), Disposition::Recover);
    assert_eq!(disposition(ErrorClass::TransportFailure), Disposition::Recover);
    assert_eq!(AdcError::Conversion.class(), ErrorClass::ConversionFailure);
}

#[test]
fn turn_on_then_read_temperature() {
    let mut a = Actuator::new(Level::Low);
    match Route::LedOn.operation() {
        Operation::SetActuator(level) => assert_eq!(a.apply(level, Ok(())), Ok(())),
        Operation::Measure(_) => panic!("wrong operation"),
    }
    let ack = acknowledgment();
    assert_eq!(ack.status, 200);
    assert_eq!(ack.body, "success");
    assert_eq!(a.level(), Level::High);
    let r = match Route::Temperature.operation() {
        Operation::Measure(q) => measurement_response(q, &Ok(reading(250, 400))),
        Operation::SetActuator(_) => panic!("wrong operation"),
    };
    assert_eq!(r.status, 200);
    assert_eq!(r.body, "25");
}

#[test]
fn guard_serializes_two_contexts() {
    let mut g = Arbiter::new();
    let mut order = Vec::new();
    assert_eq!(g.try_acquire(1), Acquire::Granted);
    order.push(1u64);
    assert_eq!(g.try_acquire(2), Acquire::Busy);
    assert_eq!(g.holder(), Some(1));
    g.release(1, true);
    assert_eq!(g.holder(), None);
    assert_eq!(g.try_acquire(2), Acquire::Granted);
    order.push(2u64);
    assert_eq!(g.try_acquire(1), Acquire::Busy);
    g.release(2, true);
    assert_eq!(order, vec![1, 2]);
    assert!(!g.is_poisoned());
}

#[test]
fn aborted_holder_poisons_guard() {
    let mut g = Arbiter::new();
    assert_eq!(g.try_acquire(7), Acquire::Granted);
    g.release(7, false);
    assert!(g.is_poisoned());
    let r = g.try_acquire(8);
    assert_eq!(r, Acquire::Poisoned);
    assert_eq!(r.error(), Some(ErrorClass::GuardPoisoned));
    assert_eq!(Acquire::Busy.error(), None);
    assert_eq!(g.holder(), None);
}

#[test]
fn telemetry_payload_is_compact_json() {
    assert_eq!(payload(&reading(235, 612)), "{\"temp\": 23.5, \"humidity\": 61.2}");
    assert_eq!(payload(&reading(-20, 500)), "{\"temp\": -2, \"humidity\": 50}");
}

#[test]
fn telemetry_skips_failed_tick_and_resumes() {
    let mut t = TelemetryLoop::new();
    assert_eq!(t.phase(), Phase::Idle);
    t.begin_tick();
    assert_eq!(t.phase(), Phase::Sampling);
    match t.finish_tick(Err(SensorError::Timeout)) {
        TickAction::Skip(e) => assert_eq!(e, SensorError::Timeout),
        TickAction::Send(_) => panic!("published on a failed tick"),
    }
    assert_eq!(t.phase(), Phase::Idle);
    t.begin_tick();
    match t.finish_tick(Ok(reading(210, 455))) {
        TickAction::Send(p) => {
            assert_eq!(p.topic, "worker/rawData");
            assert_eq!(p.payload, "{\"temp\": 21, \"humidity\": 45.5}");
            assert_eq!(p.delivery, Delivery::AtMostOnce);
            assert!(!p.retain);
        }
        TickAction::Skip(_) => panic!("skipped a successful tick"),
    }
    assert_eq!(t.phase(), Phase::Idle);
}

#[test]
fn receive_loop_runs_until_connection_ends() {
    let msg: Option<Result<u8, TransportError>> = Some(Ok(1));
    let err: Option<Result<u8, TransportError>> = Some(Err(TransportError { code: -1 }));
    let end: Option<Result<u8, TransportError>> = None;
    assert_eq!(receive_step(&msg), ReceiveStep::Continue);
    assert_eq!(receive_step(&err), ReceiveStep::Continue);
    assert_eq!(receive_step(&end), ReceiveStep::Stop);
}

#[test]
fn publish_failure_is_not_fatal() {
    assert_eq!(publish_disposition(&Ok(())), None);
    assert_eq!(
        publish_disposition(&Err(TransportError { code: 5 })),
        Some(Disposition::Recover)
    );
    assert_eq!(TransportError { code: 5 }.class(), ErrorClass::TransportFailure);
}
