use uwu_rs::{decorate_at, lowercase_bytes, replace_matches, stutter_with, w_replace_bytes, Generator};

#[test]
fn lowercase_bytes_ascii_only() {
    assert_eq!(lowercase_bytes(&b"AbZ@[".to_vec()), b"abz@[".to_vec());
    let s = "ÄB".as_bytes().to_vec();
    assert_eq!(lowercase_bytes(&s), "Äb".as_bytes().to_vec());
}

#[test]
fn w_replace_bytes_each_l_and_r() {
    assert_eq!(w_replace_bytes(&b"LlRr rule".to_vec()), b"LwRw wuwe".to_vec());
    assert_eq!(w_replace_bytes(&Vec::new()), Vec::<u8>::new());
}

#[test]
fn replace_matches_copies_the_rest() {
    let hay = b"a cat and a dog".to_vec();
    let ms = vec![(2, 5, 0), (12, 15, 1)];
    let repl = vec![b"kitty".to_vec(), b"pup".to_vec()];
    assert_eq!(replace_matches(&hay, &ms, &repl), b"a kitty and a pup".to_vec());
    assert_eq!(replace_matches(&hay, &Vec::new(), &repl), hay);
}

#[test]
fn stutter_with_short_buffers_unchanged() {
    let mut rng = Generator::with_seed(1);
    assert_eq!(stutter_with(&b"a".to_vec(), 1, &mut rng), b"a".to_vec());
    assert_eq!(stutter_with(&Vec::new(), 1, &mut rng), Vec::<u8>::new());
    assert_eq!(stutter_with(&b" a b".to_vec(), 1, &mut rng), b" a-a b-b".to_vec());
}

#[test]
fn decorate_at_without_points_is_unchanged() {
    let mut rng = Generator::with_seed(75777521);
    let b = b"hello, world".to_vec();
    assert_eq!(decorate_at(&b, &Vec::new(), 1, &mut rng), b);
    assert_eq!(rng.state, 75777521);
}

#[test]
fn decorate_at_inserts_at_the_point() {
    let mut rng = Generator::with_seed(75777521);
    let b = b" master! suki! ".to_vec();
    let out = decorate_at(&b, &vec![9], 1, &mut rng);
    assert_eq!(String::from_utf8(out).unwrap(), " master! o.O suki! ");
}
