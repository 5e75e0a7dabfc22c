use hid_rc_controller::telemetry::{
    DualPrecisionPedal, ReportLayout, SteeringWheelData, ThrottleSource, BRAKE_OFFSET, GAS_OFFSET,
    PEDAL_FULL_SCALE, REPORT_LEN, STEERING_OFFSET,
};

fn report_with(fields: &[(usize, u8)]) -> [u8; 32] {
    let mut report = [0u8; 32];
    for (offset, byte) in fields {
        report[*offset] = *byte;
    }
    report
}

#[test]
fn plain_value_is_coarse_times_255_plus_fine() {
    assert_eq!(DualPrecisionPedal::convert_dual_precision(10, 2, 1020, false), 520);
    assert_eq!(DualPrecisionPedal::convert_dual_precision(0, 0, 1020, false), 0);
    assert_eq!(DualPrecisionPedal::convert_dual_precision(255, 0, 1020, false), 255);
    assert_eq!(DualPrecisionPedal::convert_dual_precision(0, 1, 1020, false), 255);
    assert_eq!(DualPrecisionPedal::convert_dual_precision(255, 255, 1020, false), 65280);
}

#[test]
fn plain_value_ignores_the_calibration() {
    assert_eq!(DualPrecisionPedal::convert_dual_precision(7, 3, 0, false), 772);
    assert_eq!(DualPrecisionPedal::convert_dual_precision(7, 3, usize::MAX, false), 772);
}

#[test]
fn inverted_value_is_the_distance_from_the_calibration() {
    assert_eq!(DualPrecisionPedal::convert_dual_precision(10, 2, 1020, true), 500);
    assert_eq!(DualPrecisionPedal::convert_dual_precision(0, 0, 1020, true), 1020);
    assert_eq!(DualPrecisionPedal::convert_dual_precision(0, 4, 1020, true), 0);
    assert_eq!(DualPrecisionPedal::convert_dual_precision(1, 4, 1020, true), 1);
    assert_eq!(DualPrecisionPedal::convert_dual_precision(254, 3, 1020, true), 1);
}

#[test]
fn inverted_value_beyond_the_calibration_does_not_overflow() {
    assert_eq!(DualPrecisionPedal::convert_dual_precision(255, 255, 1020, true), 64260);
    assert_eq!(DualPrecisionPedal::convert_dual_precision(255, 255, 0, true), 65280);
    assert_eq!(
        DualPrecisionPedal::convert_dual_precision(255, 255, usize::MAX, true),
        usize::MAX - 65280
    );
    assert_eq!(DualPrecisionPedal::convert_dual_precision(0, 0, usize::MAX, true), usize::MAX);
}

#[test]
fn plain_value_never_falls_when_a_byte_grows() {
    for general in 0..=255u8 {
        for precise in 0..=255u8 {
            let here = DualPrecisionPedal::convert_dual_precision(precise, general, 1020, false);
            if precise < 255 {
                let finer =
                    DualPrecisionPedal::convert_dual_precision(precise + 1, general, 1020, false);
                assert!(here <= finer);
            }
            if general < 255 {
                let coarser =
                    DualPrecisionPedal::convert_dual_precision(precise, general + 1, 1020, false);
                assert!(here <= coarser);
            }
        }
    }
}

#[test]
fn inverted_value_is_the_absolute_difference_for_every_pair_of_bytes() {
    for general in 0..=255u8 {
        for precise in 0..=255u8 {
            let raw = general as i64 * 255 + precise as i64;
            let value = DualPrecisionPedal::convert_dual_precision(precise, general, 1020, true);
            assert_eq!(value as i64, (raw - 1020).abs());
        }
    }
}

#[test]
fn pedal_from_two_bytes_takes_fine_then_coarse() {
    let pedal = DualPrecisionPedal::from([10, 2]);
    assert_eq!(pedal, DualPrecisionPedal { precise: 10, general: 2 });
}

#[test]
fn report_constants_describe_the_layout() {
    assert_eq!(REPORT_LEN, 32);
    assert_eq!(STEERING_OFFSET, 2);
    assert_eq!(BRAKE_OFFSET, 3);
    assert_eq!(GAS_OFFSET, 5);
    assert_eq!(PEDAL_FULL_SCALE, 1020);
}

#[test]
fn decoded_brake_magnitude_of_the_reference_report() {
    let report = report_with(&[(2, 128), (3, 10), (4, 2), (5, 0), (6, 0)]);
    let data = SteeringWheelData::from(report);
    assert_eq!(data.steering_angle, 128);
    assert_eq!(data.brake_pedal, DualPrecisionPedal { precise: 10, general: 2 });
    assert_eq!(data.gas_pedal, DualPrecisionPedal { precise: 0, general: 0 });
    assert_eq!(data.brake(), 500);
    assert_eq!(data.gas(), 0);
}

#[test]
fn decoding_ignores_the_bytes_outside_the_fields() {
    let mut report = [0xeeu8; 32];
    report[2] = 1;
    report[3] = 2;
    report[4] = 3;
    report[5] = 4;
    report[6] = 5;
    let data = SteeringWheelData::from(report);
    assert_eq!(
        data,
        SteeringWheelData {
            steering_angle: 1,
            brake_pedal: DualPrecisionPedal { precise: 2, general: 3 },
            gas_pedal: DualPrecisionPedal { precise: 4, general: 5 },
        }
    );
}

#[test]
fn default_layout_has_the_gas_pedal_at_offset_five() {
    assert_eq!(ReportLayout::default().gas_offset(), 5);
    assert_eq!(ReportLayout::new(5), Some(ReportLayout::default()));
}

#[test]
fn layout_takes_the_gas_pedal_wherever_it_fits() {
    assert_eq!(ReportLayout::new(0).map(|layout| layout.gas_offset()), Some(0));
    assert_eq!(ReportLayout::new(7).map(|layout| layout.gas_offset()), Some(7));
    assert_eq!(ReportLayout::new(30).map(|layout| layout.gas_offset()), Some(30));
}

#[test]
fn layout_refuses_a_gas_pedal_that_leaves_the_report() {
    assert_eq!(ReportLayout::new(31), None);
    assert_eq!(ReportLayout::new(32), None);
    assert_eq!(ReportLayout::new(usize::MAX), None);
}

#[test]
fn decoding_follows_the_calibrated_gas_offset() {
    let report = report_with(&[(2, 9), (3, 10), (4, 2), (5, 1), (6, 1), (7, 20), (8, 3)]);
    let layout = ReportLayout::new(7).unwrap();
    let data = SteeringWheelData::decode(&report, layout);
    assert_eq!(data.steering_angle, 9);
    assert_eq!(data.gas_pedal, DualPrecisionPedal { precise: 20, general: 3 });
    assert_eq!(data.brake_pedal, DualPrecisionPedal { precise: 10, general: 2 });
    assert_eq!(data.gas(), 785);
    let by_default = SteeringWheelData::decode(&report, ReportLayout::default());
    assert_eq!(by_default.gas(), 256);
    assert_eq!(by_default, SteeringWheelData::from(report));
}

#[test]
fn decoding_reads_the_last_two_bytes_when_calibrated_so() {
    let report = report_with(&[(30, 4), (31, 1)]);
    let data = SteeringWheelData::decode(&report, ReportLayout::new(30).unwrap());
    assert_eq!(data.gas(), 259);
}

#[test]
fn throttle_follows_the_brake_below_full_scale() {
    // brake raw 520, value 500; gas pressed as well
    let data = SteeringWheelData::from(report_with(&[(3, 10), (4, 2), (5, 50), (6, 1)]));
    assert_eq!(data.brake(), 500);
    assert_eq!(data.throttle_source(), ThrottleSource::Brake);
    // brake raw 1020, value 0: still the brake
    let data = SteeringWheelData::from(report_with(&[(4, 4), (5, 50)]));
    assert_eq!(data.brake(), 0);
    assert_eq!(data.throttle_source(), ThrottleSource::Brake);
    // brake value 1019
    let data = SteeringWheelData::from(report_with(&[(3, 1), (5, 50)]));
    assert_eq!(data.brake(), 1019);
    assert_eq!(data.throttle_source(), ThrottleSource::Brake);
}

#[test]
fn throttle_follows_the_gas_when_the_brake_is_at_full_scale() {
    let data = SteeringWheelData::from(report_with(&[(5, 1)]));
    assert_eq!(data.brake(), 1020);
    assert_eq!(data.gas(), 1);
    assert_eq!(data.throttle_source(), ThrottleSource::Gas);
    // brake beyond full scale: raw 65280
    let data = SteeringWheelData::from(report_with(&[(3, 255), (4, 255), (6, 2)]));
    assert_eq!(data.brake(), 64260);
    assert_eq!(data.throttle_source(), ThrottleSource::Gas);
}

#[test]
fn throttle_idles_when_neither_pedal_counts() {
    let data = SteeringWheelData::from(report_with(&[]));
    assert_eq!(data.brake(), 1020);
    assert_eq!(data.gas(), 0);
    assert_eq!(data.throttle_source(), ThrottleSource::Idle);
}
