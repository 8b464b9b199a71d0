use rand::rngs::SmallRng;
use rand::SeedableRng;
use scrobble_gen::{
    add_unique, corpus_cardinality, random_vec, record_draw, title_case, PoolError, RandomData,
};

fn all_distinct(v: &[String]) -> bool {
    for i in 0..v.len() {
        for j in (i + 1)..v.len() {
            if v[i] == v[j] {
                return false;
            }
        }
    }
    true
}

#[test]
fn cardinality_of_default_dictionary() {
    assert_eq!(corpus_cardinality(0), 0);
    assert_eq!(corpus_cardinality(1), 456);
    assert_eq!(corpus_cardinality(2), 449 * 456);
    assert_eq!(corpus_cardinality(3), 53_438_184);
    assert_eq!(corpus_cardinality(4), 53_438_184 * 261);
    assert_eq!(corpus_cardinality(255), u128::MAX);
}

#[test]
fn random_vec_gives_distinct_three_word_names() {
    let mut rng = SmallRng::seed_from_u64(7);
    let names = random_vec(&mut rng, 50, 3).unwrap();
    assert_eq!(names.len(), 50);
    assert!(all_distinct(&names));
    for n in &names {
        assert_eq!(n.split(' ').count(), 3);
        assert!(n.split(' ').all(|w| !w.is_empty()));
    }
}

#[test]
fn random_vec_gives_distinct_two_word_names() {
    let mut rng = SmallRng::seed_from_u64(11);
    let names = random_vec(&mut rng, 20, 2).unwrap();
    assert_eq!(names.len(), 20);
    assert!(all_distinct(&names));
    for n in &names {
        assert_eq!(n.split(' ').count(), 2);
    }
}

#[test]
fn random_vec_of_zero_names_is_empty() {
    let mut rng = SmallRng::seed_from_u64(1);
    assert_eq!(random_vec(&mut rng, 0, 3), Ok(Vec::new()));
    assert_eq!(random_vec(&mut rng, 0, 0), Ok(Vec::new()));
}

#[test]
fn random_vec_fills_the_whole_corpus() {
    let mut rng = SmallRng::seed_from_u64(3);
    let names = random_vec(&mut rng, 456, 1).unwrap();
    assert_eq!(names.len(), 456);
    assert!(all_distinct(&names));
}

#[test]
fn random_vec_fails_fast_beyond_cardinality() {
    let mut rng = SmallRng::seed_from_u64(5);
    assert_eq!(random_vec(&mut rng, 457, 1), Err(PoolError::InsufficientCorpus));
    assert_eq!(random_vec(&mut rng, 449 * 456 + 1, 2), Err(PoolError::InsufficientCorpus));
    assert_eq!(random_vec(&mut rng, 1, 0), Err(PoolError::InsufficientCorpus));
}

#[test]
fn names_are_title_cased() {
    let mut rng = SmallRng::seed_from_u64(13);
    let names = random_vec(&mut rng, 200, 3).unwrap();
    for n in &names {
        for w in n.split(' ') {
            let mut cs = w.chars();
            assert!(cs.next().unwrap().is_ascii_uppercase());
            assert!(cs.all(|c| c.is_ascii_lowercase()));
        }
    }
}

#[test]
fn title_case_capitalises_each_word() {
    assert_eq!(title_case("quickly in fox"), "Quickly In Fox");
    assert_eq!(title_case("on"), "On");
    assert_eq!(title_case(""), "");
    assert_eq!(title_case(" a  b"), " A  B");
    assert_eq!(title_case("already Upper mIxed"), "Already Upper MIxed");
    assert_eq!(title_case("\u{e9}t\u{e9} 9lives"), "\u{e9}t\u{e9} 9lives");
}

#[test]
fn new_builds_pools_of_the_requested_sizes() {
    let data = RandomData::new(5, 4, 3).unwrap();
    assert_eq!(data.artists().len(), 5);
    assert_eq!(data.albums().len(), 4);
    assert_eq!(data.tracks().len(), 3);
    assert!(all_distinct(data.artists()));
    assert!(all_distinct(data.albums()));
    assert!(all_distinct(data.tracks()));
    for t in data.tracks() {
        assert_eq!(t.split(' ').count(), 2);
    }
    for a in data.artists() {
        assert_eq!(a.split(' ').count(), 3);
    }
}

#[test]
fn new_rejects_an_empty_pool() {
    assert!(matches!(RandomData::new(0, 5, 3), Err(PoolError::EmptyPool)));
    assert!(matches!(RandomData::new(5, 0, 3), Err(PoolError::EmptyPool)));
    assert!(matches!(RandomData::new(5, 5, 0), Err(PoolError::EmptyPool)));
}

#[test]
fn new_rejects_counts_beyond_the_corpus() {
    assert!(matches!(
        RandomData::new(5, 5, 449 * 456 + 1),
        Err(PoolError::InsufficientCorpus)
    ));
    assert!(matches!(
        RandomData::new(53_438_185, 5, 3),
        Err(PoolError::InsufficientCorpus)
    ));
}

#[test]
fn seeded_pools_are_reproducible() {
    let mut a = SmallRng::seed_from_u64(99);
    let mut b = SmallRng::seed_from_u64(99);
    let x = RandomData::with_rng(&mut a, 4, 4, 4).unwrap();
    let y = RandomData::with_rng(&mut b, 4, 4, 4).unwrap();
    assert_eq!(x.artists(), y.artists());
    assert_eq!(x.albums(), y.albums());
    assert_eq!(x.tracks(), y.tracks());
}

#[test]
fn sampling_reaches_every_index() {
    let mut rng = SmallRng::seed_from_u64(21);
    let data = RandomData::with_rng(&mut rng, 5, 5, 3).unwrap();
    let mut seen_artists = [false; 5];
    let mut seen_albums = [false; 5];
    let mut seen_tracks = [false; 3];
    for _ in 0..2000 {
        let s = data.random_scrobble_with(&mut rng);
        let a = data.artists().iter().position(|n| n == s.artist).unwrap();
        let b = data.albums().iter().position(|n| n == s.album).unwrap();
        let t = data.tracks().iter().position(|n| n == s.track).unwrap();
        seen_artists[a] = true;
        seen_albums[b] = true;
        seen_tracks[t] = true;
    }
    assert!(seen_artists.iter().all(|s| *s));
    assert!(seen_albums.iter().all(|s| *s));
    assert!(seen_tracks.iter().all(|s| *s));
}

#[test]
fn scrobble_at_picks_the_given_positions() {
    let data = RandomData::new(3, 3, 3).unwrap();
    let s = data.scrobble_at(2, 0, 1);
    assert_eq!(s.artist, data.artists()[2]);
    assert_eq!(s.album, data.albums()[0]);
    assert_eq!(s.track, data.tracks()[1]);
}

#[test]
fn console_lines_come_from_the_pools() {
    let data = RandomData::new(5, 5, 3).unwrap();
    let mut lines = Vec::new();
    for _ in 0..10 {
        lines.push(data.random_scrobble().as_line());
    }
    assert_eq!(lines.len(), 10);
    for line in &lines {
        let (track, rest) = line.split_once(" on ").unwrap();
        let (album, artist) = rest.split_once(" by ").unwrap();
        assert!(data.tracks().iter().any(|t| t == track));
        assert!(data.albums().iter().any(|a| a == album));
        assert!(data.artists().iter().any(|a| a == artist));
    }
}

#[test]
fn add_unique_keeps_names_distinct() {
    let mut names = vec![String::from("Quickly Red Fox")];
    assert!(add_unique(&mut names, String::from("Slowly Blue Owl")));
    assert_eq!(names, vec![String::from("Quickly Red Fox"), String::from("Slowly Blue Owl")]);
    assert!(!add_unique(&mut names, String::from("Quickly Red Fox")));
    assert_eq!(names.len(), 2);
    let mut empty: Vec<String> = Vec::new();
    assert!(add_unique(&mut empty, String::new()));
    assert_eq!(empty, vec![String::new()]);
}

#[test]
fn record_draw_adds_counts_and_gives_up() {
    let mut names = vec![String::from("Gladly Odd Cat")];
    assert_eq!(record_draw(&mut names, String::from("Newly Fit Dog"), 5, 9), Ok(0));
    assert_eq!(names.len(), 2);
    assert_eq!(names[1], "Newly Fit Dog");
    assert_eq!(record_draw(&mut names, String::from("Gladly Odd Cat"), 5, 9), Ok(6));
    assert_eq!(names.len(), 2);
    assert_eq!(
        record_draw(&mut names, String::from("Newly Fit Dog"), 9, 9),
        Err(PoolError::DrawLimit)
    );
    assert_eq!(names.len(), 2);
    assert_eq!(record_draw(&mut names, String::from("Oddly Shy Bee"), 9, 9), Ok(0));
    assert_eq!(names.len(), 3);
}

#[test]
fn fast_failure_leaves_the_generator_untouched() {
    let mut rng = SmallRng::seed_from_u64(42);
    let before = rng.clone();
    assert_eq!(random_vec(&mut rng, 457, 1), Err(PoolError::InsufficientCorpus));
    assert_eq!(rng, before);
    assert_eq!(random_vec(&mut rng, 0, 3), Ok(Vec::new()));
    assert_eq!(rng, before);
    assert!(matches!(
        RandomData::with_rng(&mut rng, 0, 1, 1),
        Err(PoolError::EmptyPool)
    ));
    assert_eq!(rng, before);
    assert!(random_vec(&mut rng, 1, 1).is_ok());
    assert_ne!(rng, before);
}
