use arbigen::arbitrary;
use arbigen::collect::NonEmptyVec;
use arbigen::sizing::small_n;
use arbigen::sizing::SmallN;
use arbigen::text::gen_unicode_str;
use arbigen::text::Unicode;
use arbigen::Arbitrary;
use std::collections::HashMap;

#[test]
fn bounded_count_stays_in_range() {
    for &size in &[0usize, 1, 2, 5, 16, 100] {
        for _ in 0..500 {
            let n = small_n(size);
            assert!(n <= 16 * size);
        }
    }
}

#[test]
fn bounded_count_zero_size_is_zero() {
    for _ in 0..1000 {
        assert_eq!(small_n(0), 0);
    }
}

#[test]
fn small_n_at_zero_is_always_zero() {
    for _ in 0..1000 {
        assert_eq!(SmallN::arbitrary(0), SmallN(0));
    }
}

#[test]
fn small_n_scaled_stays_in_range() {
    for _ in 0..1000 {
        let SmallN(n) = arbitrary::<SmallN>(5);
        assert!(n <= 80);
    }
}

#[test]
fn bounded_count_sometimes_positive() {
    let mut seen_positive = false;
    for _ in 0..2000 {
        if small_n(5) > 0 {
            seen_positive = true;
        }
    }
    assert!(seen_positive);
}

#[test]
fn non_empty_vec_is_never_empty() {
    for &size in &[0usize, 1, 3, 10] {
        for _ in 0..200 {
            let v: NonEmptyVec<u8> = arbitrary(size);
            assert!(v.0.len() >= 1);
            assert!(v.0.len() <= 16 * size + 1);
        }
    }
}

#[test]
fn mapping_size_five_bounded_and_keys_unique() {
    for _ in 0..200 {
        let m: HashMap<u8, bool> = arbitrary(5);
        assert!(m.len() <= 80);
        let mut keys: Vec<u8> = m.keys().copied().collect();
        let total = keys.len();
        keys.sort();
        keys.dedup();
        assert_eq!(keys.len(), total);
    }
}

#[test]
fn tuple_components_are_independent() {
    let mut differ = 0usize;
    for _ in 0..1000 {
        let (a, b): (u8, u8) = arbitrary(5);
        if a != b {
            differ += 1;
        }
    }
    assert!(differ > 0);
}

#[test]
fn sample_corpus_string_meets_length_bound() {
    for &n in &[0usize, 1, 2, 5, 17, 64, 200] {
        let s = gen_unicode_str(n);
        assert!(s.chars().count() >= n);
    }
}

#[test]
fn sample_corpus_string_zero_is_empty() {
    assert_eq!(gen_unicode_str(0), String::new());
}

#[test]
fn sample_corpus_string_mixes_words() {
    let s = gen_unicode_str(300);
    assert!(!s.chars().all(|c| c == 'a'));
}

#[test]
fn nested_sequences_terminate_within_bounds() {
    let v: Vec<Vec<isize>> = arbitrary(10);
    assert!(v.len() <= 160);
    for inner in &v {
        assert!(inner.len() <= 160);
    }
}

#[test]
fn sequence_length_is_bounded() {
    for &size in &[0usize, 1, 4, 10] {
        for _ in 0..100 {
            let v: Vec<u8> = arbitrary(size);
            assert!(v.len() <= 16 * size);
        }
    }
}

#[test]
fn option_presence_is_roughly_even() {
    let mut present = 0usize;
    for _ in 0..10_000 {
        let o: Option<bool> = arbitrary(1);
        if o.is_some() {
            present += 1;
        }
    }
    assert!(present >= 4_500 && present <= 5_500);
}

#[test]
fn result_takes_both_variants() {
    let mut oks = 0usize;
    let mut errs = 0usize;
    for _ in 0..1000 {
        let r: Result<u8, bool> = arbitrary(1);
        match r {
            Ok(_) => oks += 1,
            Err(_) => errs += 1,
        }
    }
    assert!(oks > 0 && errs > 0);
}

#[test]
fn string_char_count_is_bounded() {
    for &size in &[0usize, 1, 5] {
        for _ in 0..100 {
            let s: String = arbitrary(size);
            assert!(s.chars().count() <= 16 * size);
        }
    }
}

#[test]
fn string_sometimes_non_empty() {
    let mut non_empty = false;
    for _ in 0..500 {
        let s: String = arbitrary(5);
        if !s.is_empty() {
            non_empty = true;
        }
    }
    assert!(non_empty);
}

#[test]
fn unicode_at_zero_is_empty() {
    for _ in 0..100 {
        let u: Unicode = arbitrary(0);
        assert_eq!(u.0, String::new());
    }
}

#[test]
fn scalar_draws_vary() {
    let mut distinct = false;
    let first: u8 = arbitrary(0);
    for _ in 0..200 {
        let next: u8 = arbitrary(0);
        if next != first {
            distinct = true;
        }
    }
    assert!(distinct);
}

#[test]
fn boxed_values_generate() {
    let b: Box<u8> = arbitrary(3);
    let _ = *b;
    let unit: () = arbitrary(7);
    let _ = unit;
}

#[test]
fn reuse_wrapper_draws_vary() {
    let mut distinct = false;
    let arbigen::primitive::Random(first): arbigen::primitive::Random<u8> = arbitrary(9);
    for _ in 0..200 {
        let arbigen::primitive::Random(next) = arbitrary::<arbigen::primitive::Random<u8>>(9);
        if next != first {
            distinct = true;
        }
    }
    assert!(distinct);
}

#[test]
fn wide_tuples_generate() {
    let _t3: (u8, bool, char) = arbitrary(2);
    let _t4: (u8, u8, u8, u8) = arbitrary(2);
    let _t5: (u8, u8, u8, u8, u8) = arbitrary(2);
    let _t6: (u8, u8, u8, u8, bool, char) = arbitrary(2);
}

#[test]
fn bounded_count_varies() {
    let first = small_n(100);
    let mut varied = false;
    for _ in 0..200 {
        if small_n(100) != first {
            varied = true;
        }
    }
    assert!(varied);
}

#[test]
fn mapping_with_small_count_keys() {
    let m: HashMap<SmallN, bool> = arbitrary(5);
    assert!(m.len() <= 80);
    let mut keys: Vec<usize> = m.keys().map(|k| k.0).collect();
    let total = keys.len();
    keys.sort();
    keys.dedup();
    assert_eq!(keys.len(), total);
}
