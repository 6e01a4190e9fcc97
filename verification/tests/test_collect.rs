use ale_env::collect::collect;
use ale_env::collect::Collector;
use ale_env::error::BatchError;
use ale_env::report::StepOutcome;
use ale_env::report::StepReport;

fn seen(slot_index: usize, mark: u8) -> StepReport {
    let outcome = StepOutcome { reward: mark as i32, terminal: false, truncated: false, life_lost: false };
    StepReport::observed(slot_index, vec![mark], outcome)
}

fn mark_of(report: &StepReport) -> u8 {
    report.result.as_ref().unwrap().observation[0]
}

#[test]
fn collect_puts_reports_in_slot_order() {
    let arrivals = vec![seen(2, 12), seen(0, 10), seen(3, 13), seen(1, 11)];
    let batch = collect(arrivals, 4);
    assert_eq!(batch.len(), 4);
    for (i, report) in batch.iter().enumerate() {
        assert_eq!(report.slot_index, i);
        assert_eq!(mark_of(report), 10 + i as u8);
        assert_eq!(report.result.as_ref().unwrap().reward, 10 + i as i32);
    }
}

#[test]
fn every_arrival_order_gives_the_same_batch() {
    let orders: [[usize; 3]; 6] = [[0, 1, 2], [0, 2, 1], [1, 0, 2], [1, 2, 0], [2, 0, 1], [2, 1, 0]];
    for order in orders.iter() {
        let arrivals: Vec<StepReport> = order.iter().map(|&slot| seen(slot, slot as u8 + 40)).collect();
        let batch = collect(arrivals, 3);
        let slots: Vec<usize> = batch.iter().map(|r| r.slot_index).collect();
        let marks: Vec<u8> = batch.iter().map(mark_of).collect();
        assert_eq!(slots, vec![0, 1, 2]);
        assert_eq!(marks, vec![40, 41, 42]);
    }
}

#[test]
fn a_slot_that_did_not_report_stands_as_faulted() {
    let batch = collect(vec![seen(2, 1), seen(0, 2)], 3);
    assert_eq!(batch.len(), 3);
    assert_eq!(mark_of(&batch[0]), 2);
    assert_eq!(batch[1].slot_index, 1);
    assert_eq!(batch[1].result.as_ref().err(), Some(&BatchError::SlotFault { slot_index: 1 }));
    assert_eq!(mark_of(&batch[2]), 1);
    let none = collect(vec![], 2);
    assert_eq!(none.len(), 2);
    assert!(none[0].is_fault() && none[1].is_fault());
    assert_eq!((none[0].slot_index, none[1].slot_index), (0, 1));
}

#[test]
fn the_first_report_of_a_slot_counts() {
    let batch = collect(vec![seen(1, 1), seen(0, 2), seen(1, 3), seen(0, 4)], 2);
    assert_eq!(batch.len(), 2);
    assert_eq!(mark_of(&batch[0]), 2);
    assert_eq!(mark_of(&batch[1]), 1);
    let batch = collect(vec![StepReport::fault(0), seen(0, 5)], 1);
    assert!(batch[0].is_fault());
}

#[test]
fn a_report_from_outside_the_round_is_dropped() {
    let batch = collect(vec![seen(0, 1), seen(3, 2), seen(2, 3), seen(usize::MAX, 4)], 3);
    assert_eq!(batch.len(), 3);
    assert_eq!(mark_of(&batch[0]), 1);
    assert!(batch[1].is_fault());
    assert_eq!(mark_of(&batch[2]), 3);
}

#[test]
fn empty_round_gives_an_empty_batch() {
    assert!(collect(vec![], 0).is_empty());
    assert!(collect(vec![seen(0, 1)], 0).is_empty());
}

#[test]
fn a_fault_does_not_hold_up_the_others() {
    let arrivals = vec![seen(3, 33), StepReport::fault(1), seen(0, 30), seen(2, 32)];
    let batch = collect(arrivals, 4);
    assert_eq!(batch.len(), 4);
    assert_eq!(mark_of(&batch[0]), 30);
    assert!(batch[1].is_fault());
    assert_eq!(batch[1].slot_index, 1);
    assert_eq!(batch[1].result.as_ref().err(), Some(&BatchError::SlotFault { slot_index: 1 }));
    assert_eq!(mark_of(&batch[2]), 32);
    assert_eq!(mark_of(&batch[3]), 33);
    assert!(!batch[0].is_fault());
}

#[test]
fn a_round_of_faults_is_still_a_round() {
    let arrivals = vec![StepReport::fault(1), StepReport::fault(0)];
    let batch = collect(arrivals, 2);
    assert!(batch[0].is_fault() && batch[1].is_fault());
    assert_eq!(batch[0].slot_index, 0);
    assert_eq!(batch[1].slot_index, 1);
}

#[test]
fn collector_counts_down() {
    let mut collector = Collector::new(3);
    assert_eq!(collector.expected(), 3);
    assert_eq!(collector.remaining(), 3);
    assert!(!collector.is_complete());
    assert!(collector.accept(seen(2, 2)).is_none());
    assert_eq!(collector.remaining(), 2);
    assert!(collector.accept(seen(0, 0)).is_none());
    assert_eq!(collector.remaining(), 1);
    assert!(!collector.is_complete());
    assert!(collector.accept(seen(1, 1)).is_none());
    assert_eq!(collector.remaining(), 0);
    assert!(collector.is_complete());
    let batch = collector.finish();
    let marks: Vec<u8> = batch.iter().map(mark_of).collect();
    assert_eq!(marks, vec![0, 1, 2]);
}

#[test]
fn collector_hands_back_what_it_refuses() {
    let mut collector = Collector::new(2);
    assert!(collector.accept(seen(1, 7)).is_none());
    let again = collector.accept(seen(1, 8)).unwrap();
    assert_eq!(again.slot_index, 1);
    assert_eq!(mark_of(&again), 8);
    let outside = collector.accept(seen(2, 9)).unwrap();
    assert_eq!(outside.slot_index, 2);
    assert_eq!(collector.remaining(), 1);
    assert!(collector.accept(seen(0, 6)).is_none());
    let batch = collector.finish();
    assert_eq!(mark_of(&batch[0]), 6);
    assert_eq!(mark_of(&batch[1]), 7);
}

#[test]
fn collector_settles_with_faults_for_the_missing() {
    let mut collector = Collector::new(4);
    assert!(collector.accept(seen(2, 7)).is_none());
    assert!(collector.accept(StepReport::fault(3)).is_none());
    let batch = collector.settle();
    assert_eq!(batch.len(), 4);
    for (i, report) in batch.iter().enumerate() {
        assert_eq!(report.slot_index, i);
        assert_eq!(report.is_fault(), i != 2);
    }
    assert_eq!(mark_of(&batch[2]), 7);
    assert_eq!(batch[0].result.as_ref().err(), Some(&BatchError::SlotFault { slot_index: 0 }));
    let full = {
        let mut collector = Collector::new(2);
        collector.accept(seen(1, 1));
        collector.accept(seen(0, 0));
        collector.settle()
    };
    assert_eq!(full.iter().map(mark_of).collect::<Vec<u8>>(), vec![0, 1]);
}

#[test]
fn collector_of_nothing_is_complete() {
    let collector = Collector::new(0);
    assert!(collector.is_complete());
    assert!(collector.finish().is_empty());
}

#[test]
fn initial_report_has_no_reward_and_no_flag() {
    let report = StepReport::initial(5, vec![1, 2, 3]);
    assert_eq!(report.slot_index, 5);
    let observed = report.result.unwrap();
    assert_eq!(observed.observation, vec![1, 2, 3]);
    assert_eq!(observed.reward, 0);
    assert!(!observed.terminal && !observed.truncated && !observed.life_lost);
}

#[test]
fn outcome_boundaries() {
    let quiet = StepOutcome::zero();
    assert!(!quiet.ended() && !quiet.at_boundary());
    let lost = StepOutcome { reward: 0, terminal: false, truncated: false, life_lost: true };
    assert!(!lost.ended() && lost.at_boundary());
    let cut = StepOutcome { reward: 0, terminal: false, truncated: true, life_lost: false };
    assert!(cut.ended() && cut.at_boundary());
    let over = StepOutcome { reward: 0, terminal: true, truncated: false, life_lost: false };
    assert!(over.ended() && over.at_boundary());
}
