use refbox::sound::SendableOperation;
use refbox::spi_plan::{plan_spi_ops, SpiOp, SpiPlanError};

fn delay_of(op: &SendableOperation) -> u16 {
    match op {
        SendableOperation::Write { delay, .. }
        | SendableOperation::Read { delay, .. }
        | SendableOperation::Transaction { delay, .. } => *delay,
    }
}

#[test]
fn an_empty_transaction_plans_to_nothing() {
    assert!(plan_spi_ops(&[]).unwrap().is_empty());
}

#[test]
fn a_leading_delay_is_refused() {
    let ops = [SpiOp::DelayNs(10), SpiOp::Write(vec![1])];
    assert_eq!(plan_spi_ops(&ops).unwrap_err(), SpiPlanError::FirstIsDelay);
}

#[test]
fn each_operation_is_planned_with_its_position_and_delays_round_up() {
    let ops = [
        SpiOp::Write(vec![0x80, 0x01]),
        SpiOp::DelayNs(1),
        SpiOp::DelayNs(2_000),
        SpiOp::Read(3),
        SpiOp::Transfer(2, vec![7, 8]),
        SpiOp::TransferInPlace(vec![9, 9, 9, 9]),
        SpiOp::DelayNs(1_500),
    ];
    let plan = plan_spi_ops(&ops).unwrap();
    assert_eq!(plan.len(), 4);
    assert!(matches!(&plan[0], SendableOperation::Write { data, delay: 3 } if data == &vec![0x80, 0x01]));
    assert!(matches!(&plan[1], SendableOperation::Read { count: 3, index: 3, delay: 0 }));
    assert!(matches!(&plan[2], SendableOperation::Transaction { data, count: 2, index: 4, delay: 0 } if data == &vec![7, 8]));
    assert!(matches!(&plan[3], SendableOperation::Transaction { count: 4, index: 5, .. }));
    assert_eq!(delay_of(&plan[3]), 2);
}

#[test]
fn a_delay_past_the_limit_is_refused() {
    let too_long = [SpiOp::Write(vec![]), SpiOp::DelayNs(65_535_001)];
    assert_eq!(plan_spi_ops(&too_long).unwrap_err(), SpiPlanError::DelayTooLong);
    let just_fits = [SpiOp::Write(vec![]), SpiOp::DelayNs(65_535_000)];
    assert_eq!(delay_of(&plan_spi_ops(&just_fits).unwrap()[0]), 65_535);
    let summed = [
        SpiOp::Write(vec![]),
        SpiOp::DelayNs(65_000_000),
        SpiOp::DelayNs(600_000),
    ];
    assert_eq!(plan_spi_ops(&summed).unwrap_err(), SpiPlanError::DelayTooLong);
}
