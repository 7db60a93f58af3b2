use sof_chargen::dice::{
    d100, d10, Add, AsPool, D100Pool, DiceRoll, MagicDice, Many, PickHighest, PickLowest, Subtract,
    D,
};

#[test]
fn test_macro() {
    let i = 10;
    let _: Many = Many::roll(i, 6);
    let _: D = D::roll(6);
    let _: Many = Many::roll(2, 6);
    let _: PickHighest<Many> = PickHighest(Many::roll(2, 6));
    let _: PickHighest<D100Pool> = PickHighest(D100Pool::roll(2));
    let _: PickLowest<D100Pool> = PickLowest(D100Pool::roll(2));
    let _: D = D::roll(100);
    let _: Add<D, i8> = Add(D::roll(6), 1);
    let _: Add<i8, D> = Add(1, D::roll(6));
}

#[test]
fn test_d100() {
    assert_eq!(
        D100Pool {
            d100s: vec![0, 10, 90],
            d10: 0,
        }
        .as_pool(),
        [100, 10, 90]
    );
    assert_eq!(
        D100Pool {
            d100s: vec![0, 10, 90],
            d10: 1,
        }
        .as_pool(),
        [1, 11, 91]
    );
}

#[test]
fn test_add() {
    assert_eq!(Add(1i8, 2i8).result(), 3);
    assert_eq!(Add(1i8, 2i8).render(), "1 + 2");
    assert_eq!(Add(1i8, 2i8).render_result(), "1 + 2 = 3");
}

#[test]
fn test_subtract() {
    assert_eq!(Subtract(1i8, 2i8).result(), -1);
    assert_eq!(Subtract(1i8, 2i8).render(), "1 - 2");
    assert_eq!(Subtract(1i8, 2i8).render_result(), "1 - 2 = -1");
}

#[test]
fn test_d100_advantage() {
    let throw = D100Pool {
        d100s: vec![0, 10, 90],
        d10: 0,
    };
    assert_eq!(PickLowest(throw).render_result(), "min(100, *10*, 90) = 10");
}

#[test]
fn test_d100_disadvantage() {
    let throw = D100Pool {
        d100s: vec![0, 10, 90],
        d10: 0,
    };
    assert_eq!(
        PickHighest(throw).render_result(),
        "max(*100*, 10, 90) = 100"
    );
}

#[test]
fn test_range() {
    assert_eq!(5i8.range(), (5, 5));
    assert_eq!(5i8.result(), 5);

    let d = d10();
    assert_eq!(d.range(), (1, 10));
    assert!(d.result() >= 1 && d.result() <= 10);
    assert!(!(d.result() > 10));
    assert!(!(d.result() < 1));

    let add = Add(d, d);
    assert_eq!(add.range(), (2, 20));

    let subtract = Subtract(d, d);
    assert_eq!(subtract.range(), (-9, 9));

    let d100pool = D100Pool {
        d100s: vec![5, 99],
        d10: 4,
    };
    assert_eq!(d100pool.underlying_range(), (1, 100));

    let many = Many {
        sides: 10,
        dice: vec![d.result(), d.result()],
    };
    assert_eq!(many.range(), (2, 20));
    assert_eq!(many.underlying_range(), (1, 10));

    let magic = MagicDice::roll();
    assert_eq!(magic.range(), (1, 100));

    let highest = PickHighest(Many {
        sides: 10,
        dice: vec![d.result(), d.result()],
    });
    assert_eq!(highest.range(), (1, 10));

    let lowest = PickLowest(Many {
        sides: 10,
        dice: vec![d.result(), d.result()],
    });
    assert_eq!(lowest.range(), (1, 10));
}

// Every rolled expression's outcome lies within its stated range.
#[test]
fn result_within_range() {
    for _ in 0..50 {
        let d = d100();
        let (lo, hi) = d.range();
        let r = d.result();
        assert!(lo <= r && r <= hi);

        let many = Many::roll(3, 6);
        let (lo, hi) = many.range();
        let r = many.result();
        assert!(lo <= r && r <= hi);

        let high = PickHighest(D100Pool::roll(3));
        let (lo, hi) = high.range();
        let r = high.result();
        assert!(lo <= r && r <= hi);

        let low = PickLowest(D100Pool::roll(3));
        let (lo, hi) = low.range();
        let r = low.result();
        assert!(lo <= r && r <= hi);
    }
}

// The hundred-pool all-zero combination reads as one hundred, never zero.
#[test]
fn hundred_pool_never_zero() {
    let pool = D100Pool {
        d100s: vec![0, 0, 50],
        d10: 0,
    };
    let values = pool.as_pool();
    assert_eq!(values, [100, 100, 50]);
    for _ in 0..50 {
        for v in D100Pool::roll(4).as_pool() {
            assert!(v >= 1 && v <= 100);
            assert_ne!(v, 0);
        }
    }
}

fn is_prime_draw(v: i8) -> bool {
    v == 2 || v == 3 || v == 5 || v == 7
}

// Magic dice: within each half, every draw before the last is prime (an
// unbroken prime run), and a non-prime draw ends its half at once.
#[test]
fn magic_dice_prime_runs() {
    for _ in 0..200 {
        let m = MagicDice::roll();
        let mut total: i16 = 0;
        for run in [&m.first, &m.second] {
            assert!(!run.is_empty());
            for (i, &v) in run.iter().enumerate() {
                assert!((1..=10).contains(&v));
                total += v as i16;
                if i + 1 < run.len() {
                    // a run goes on only through a prime draw with the
                    // running total still below one hundred
                    assert!(is_prime_draw(v));
                    assert!(total < 100);
                }
            }
        }
        let result = m.result() as i16;
        assert_eq!(
            result,
            m.first.iter().map(|&x| x as i16).sum::<i16>()
                + m.second.iter().map(|&x| x as i16).sum::<i16>()
        );
        assert!(result >= 2);
        if result >= 100 {
            assert!(m.first.len() + m.second.len() >= 10);
        }
    }
}

// Two draws of one hundred picked lowest give a result of exactly one
// hundred, with both dice marked as the minimum.
#[test]
fn double_hundred_lowest() {
    let throw = D100Pool {
        d100s: vec![0, 0],
        d10: 0,
    };
    let low = PickLowest(throw);
    assert_eq!(low.result(), 100);
    assert_eq!(low.render_result(), "min(*100*, *100*) = 100");
}
