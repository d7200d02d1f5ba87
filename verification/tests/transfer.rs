use st7735::{BusOp, Instruction, Transfer, ST7735};

fn perform_all(ops: Vec<BusOp>, fail_at_write: Option<usize>) -> (Vec<BusOp>, Result<usize, ()>) {
    let mut transfer = Transfer::new(ops);
    let mut performed = Vec::new();
    let mut writes = 0;
    loop {
        let outcome = match transfer.pending() {
            None => break,
            Some(op) => {
                performed.push(op.clone());
                match op {
                    BusOp::Write(bytes) => {
                        writes += 1;
                        if fail_at_write == Some(writes) {
                            Err(())
                        } else {
                            Ok(bytes.len())
                        }
                    }
                    _ => Ok(0),
                }
            }
        };
        transfer.record(outcome);
    }
    (performed, transfer.result())
}

#[test]
fn empty_transfer_has_nothing_pending() {
    let transfer = Transfer::new(Vec::new());
    assert!(transfer.pending().is_none());
    assert_eq!(transfer.result(), Ok(0));
}

#[test]
fn transfer_hands_out_operations_in_order() {
    let display = ST7735::new(true, false, 128, 160);
    let ops = display.set_pixel(1, 2, 0x1234);
    let (performed, result) = perform_all(ops.clone(), None);
    assert_eq!(performed, ops);
    assert_eq!(result, Ok(2));
}

#[test]
fn transfer_reports_the_count_of_the_last_write() {
    let mut ops = Vec::new();
    ST7735::write_command(&mut ops, Instruction::FRMCTR3, &[1, 2, 3, 4, 5, 6]);
    ops.push(BusOp::DelayMs(200));
    let (performed, result) = perform_all(ops.clone(), None);
    assert_eq!(performed, ops);
    assert_eq!(result, Ok(6));
}

#[test]
fn transfer_stops_at_the_first_failed_write() {
    let display = ST7735::new(true, false, 128, 160);
    let ops = display.init();
    let (performed, result) = perform_all(ops.clone(), Some(3));
    assert_eq!(result, Err(()));
    assert_eq!(performed, ops[..13].to_vec());
    assert_eq!(performed.last(), Some(&BusOp::Write(vec![0xB1])));
}

#[test]
fn failed_transfer_stays_failed() {
    let mut transfer = Transfer::new(vec![BusOp::Write(vec![1]), BusOp::Write(vec![2])]);
    assert_eq!(transfer.pending(), Some(&BusOp::Write(vec![1])));
    transfer.record(Err(()));
    assert!(transfer.pending().is_none());
    assert_eq!(transfer.result(), Err(()));
}

#[test]
fn counts_of_operations_that_are_no_writes_are_ignored() {
    let mut transfer = Transfer::new(vec![BusOp::Write(vec![1, 2, 3]), BusOp::SelectData]);
    transfer.record(Ok(3));
    assert_eq!(transfer.pending(), Some(&BusOp::SelectData));
    transfer.record(Ok(99));
    assert!(transfer.pending().is_none());
    assert_eq!(transfer.result(), Ok(3));
}
