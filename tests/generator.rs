use uwu_rs::Generator;

fn calc_avg<F>(mut func: F, rounds: usize) -> f64
where
    F: FnMut(&mut Generator) -> bool,
{
    let mut rng = Generator::with_seed(75777521); // 'uwu!' = 75 77 75 21
    let mut positives = 0;
    for _ in 0..rounds {
        if func(&mut rng) {
            positives += 1;
        }
    }
    positives as f64 / rounds as f64
}

#[test]
fn assert_rng() {
    // Validate that bool() is ~50%
    let mut rng = fastrand::Rng::with_seed(75777521);
    let mut positives = 0;
    for _ in 0..1000 {
        if rng.bool() {
            positives += 1;
        }
    }
    assert_eq!(positives as f64 / 1000.0, 0.499); // ~0.5

    // Validate that u8(0..1) is 100%
    assert_eq!(calc_avg(|rng| rng.bounded(1) == 0, 1000), 1.0);

    // Validate that u8(0..2) is 50%
    assert_eq!(calc_avg(|rng| rng.bounded(2) == 0, 1000), 0.492); // ~0.5

    // Validate that u8(0..3) is 33%
    assert_eq!(calc_avg(|rng| rng.bounded(3) == 0, 1000), 0.319); // ~0.33(3)

    // Validate that u8(0..4) is 25%
    assert_eq!(calc_avg(|rng| rng.bounded(4) == 0, 1000), 0.231); // ~0.25

    // Validate that u8(0..5) is 20%
    assert_eq!(calc_avg(|rng| rng.bounded(5) == 0, 1000), 0.186); // ~0.2
}

#[test]
fn draws_advance_the_state() {
    let mut rng = Generator::with_seed(75777521);
    let v = rng.bounded(200);
    assert!(v < 200);
    assert_ne!(rng.state, 75777521);
    let mut again = Generator::with_seed(75777521);
    assert_eq!(again.bounded(200), v);
    assert_eq!(again.state, rng.state);
}

#[test]
fn choice_of_nothing_draws_nothing() {
    let mut rng = Generator::with_seed(9);
    assert_eq!(rng.choice(0), None);
    assert_eq!(rng.state, 9);
    let c = rng.choice(30).unwrap();
    assert!(c < 30);
    assert_ne!(rng.state, 9);
}
