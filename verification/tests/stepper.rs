use ossm::stepper::{step_batches, STEP_BATCH_SIZE};

#[test]
fn batches_of_step_pulses() {
    assert_eq!(step_batches(0), Vec::<usize>::new());
    assert_eq!(step_batches(1), vec![1]);
    assert_eq!(step_batches(63), vec![63]);
    assert_eq!(step_batches(64), vec![63, 1]);
    assert_eq!(step_batches(200), vec![63, 63, 63, 11]);
    let b = step_batches(100_000);
    assert_eq!(b.iter().sum::<usize>(), 100_000);
    assert!(b.iter().all(|&n| n >= 1 && n <= STEP_BATCH_SIZE));
}
